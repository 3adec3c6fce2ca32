//! The retainer contract: recurring engagements renewed at fixed intervals,
//! and records of jobs moved to and from other chains.
use vstd::prelude::*;
use crate::address::Address;
use crate::store::Store;

verus! {

/// Why the retainer contract refuses a call.
#[derive(Debug, Clone, Copy, PartialEq, Eq, Structural)]
pub enum Error {
    Unauthorized,
    NotFound,
    InvalidStatus,
    IntervalNotPassed,
    MaxRenewalsReached,
    AlreadyInitialized,
    NotInitialized,
    ArithmeticOverflow,
}

/// Where a retainer stands.
#[derive(Debug, Clone, Copy, PartialEq, Eq, Structural)]
pub enum RetainerStatus {
    Active,
    Completed,
    Cancelled,
}

/// A recurring engagement between a client and a freelancer.
#[derive(Debug, PartialEq, Eq)]
pub struct Retainer {
    pub client: Address,
    pub freelancer: Address,
    pub amount: i128,
    pub interval_ledgers: u64,
    pub max_renewals: u32,
    pub current_renewal: u32,
    pub status: RetainerStatus,
    pub created_at: u64,
    pub token: Address,
    pub last_renewed_at: u64,
}

/// The view of a retainer.
pub struct RetainerView {
    pub client: Seq<char>,
    pub freelancer: Seq<char>,
    pub amount: i128,
    pub interval_ledgers: u64,
    pub max_renewals: u32,
    pub current_renewal: u32,
    pub status: RetainerStatus,
    pub created_at: u64,
    pub token: Seq<char>,
    pub last_renewed_at: u64,
}

impl View for Retainer {
    type V = RetainerView;

    open spec fn view(&self) -> RetainerView {
        RetainerView {
            client: self.client@,
            freelancer: self.freelancer@,
            amount: self.amount,
            interval_ledgers: self.interval_ledgers,
            max_renewals: self.max_renewals,
            current_renewal: self.current_renewal,
            status: self.status,
            created_at: self.created_at,
            token: self.token@,
            last_renewed_at: self.last_renewed_at,
        }
    }
}

impl Retainer {
    /// A copy of this retainer.
    pub fn duplicate(&self) -> (r: Retainer)
        ensures
            r@ == self@,
    {
        Retainer {
            client: self.client.duplicate(),
            freelancer: self.freelancer.duplicate(),
            amount: self.amount,
            interval_ledgers: self.interval_ledgers,
            max_renewals: self.max_renewals,
            current_renewal: self.current_renewal,
            status: self.status,
            created_at: self.created_at,
            token: self.token.duplicate(),
            last_renewed_at: self.last_renewed_at,
        }
    }
}

impl Clone for Retainer {
    fn clone(&self) -> (r: Self)
        ensures
            r@ == self@,
    {
        self.duplicate()
    }
}

/// A job recorded as exported to, or imported from, another chain.
#[derive(Debug, PartialEq, Eq)]
pub struct CrossChainJob {
    pub source_chain: String,
    pub source_job_id: u64,
    pub origin_contract: Address,
    pub freelancer: Address,
    pub amount: i128,
    pub token: Address,
    pub exported: bool,
    pub imported: bool,
}

/// The view of a cross-chain job.
pub struct CrossChainJobView {
    pub source_chain: Seq<char>,
    pub source_job_id: u64,
    pub origin_contract: Seq<char>,
    pub freelancer: Seq<char>,
    pub amount: i128,
    pub token: Seq<char>,
    pub exported: bool,
    pub imported: bool,
}

impl View for CrossChainJob {
    type V = CrossChainJobView;

    open spec fn view(&self) -> CrossChainJobView {
        CrossChainJobView {
            source_chain: self.source_chain@,
            source_job_id: self.source_job_id,
            origin_contract: self.origin_contract@,
            freelancer: self.freelancer@,
            amount: self.amount,
            token: self.token@,
            exported: self.exported,
            imported: self.imported,
        }
    }
}

impl CrossChainJob {
    /// A copy of this record.
    pub fn duplicate(&self) -> (r: CrossChainJob)
        ensures
            r@ == self@,
    {
        CrossChainJob {
            source_chain: self.source_chain.clone(),
            source_job_id: self.source_job_id,
            origin_contract: self.origin_contract.duplicate(),
            freelancer: self.freelancer.duplicate(),
            amount: self.amount,
            token: self.token.duplicate(),
            exported: self.exported,
            imported: self.imported,
        }
    }
}

impl Clone for CrossChainJob {
    fn clone(&self) -> (r: Self)
        ensures
            r@ == self@,
    {
        self.duplicate()
    }
}

/// Something the retainer contract announces.
#[derive(Debug, Clone, PartialEq, Eq)]
pub enum RetainerEvent {
    Initialized { admin: Address, native_token: Address },
    Created { retainer_id: u64, client: Address, freelancer: Address, amount: i128, max_renewals: u32 },
    Completed { retainer_id: u64, client: Address, freelancer: Address },
    Renewed { retainer_id: u64, client: Address, freelancer: Address, amount: i128 },
    Cancelled { retainer_id: u64, client: Address, freelancer: Address },
    Exported {
        cross_chain_id: u64,
        source_job_id: u64,
        freelancer: Address,
        amount: i128,
        target_chain: String,
    },
    Imported {
        cross_chain_id: u64,
        source_chain: String,
        source_job_id: u64,
        freelancer: Address,
        amount: i128,
    },
}

/// The view of a retainer event.
pub enum RetainerEventView {
    Initialized { admin: Seq<char>, native_token: Seq<char> },
    Created {
        retainer_id: u64,
        client: Seq<char>,
        freelancer: Seq<char>,
        amount: i128,
        max_renewals: u32,
    },
    Completed { retainer_id: u64, client: Seq<char>, freelancer: Seq<char> },
    Renewed { retainer_id: u64, client: Seq<char>, freelancer: Seq<char>, amount: i128 },
    Cancelled { retainer_id: u64, client: Seq<char>, freelancer: Seq<char> },
    Exported {
        cross_chain_id: u64,
        source_job_id: u64,
        freelancer: Seq<char>,
        amount: i128,
        target_chain: Seq<char>,
    },
    Imported {
        cross_chain_id: u64,
        source_chain: Seq<char>,
        source_job_id: u64,
        freelancer: Seq<char>,
        amount: i128,
    },
}

impl View for RetainerEvent {
    type V = RetainerEventView;

    open spec fn view(&self) -> RetainerEventView {
        match self {
            RetainerEvent::Initialized { admin, native_token } => RetainerEventView::Initialized {
                admin: admin@,
                native_token: native_token@,
            },
            RetainerEvent::Created { retainer_id, client, freelancer, amount, max_renewals } =>
                RetainerEventView::Created {
                retainer_id: *retainer_id,
                client: client@,
                freelancer: freelancer@,
                amount: *amount,
                max_renewals: *max_renewals,
            },
            RetainerEvent::Completed { retainer_id, client, freelancer } =>
                RetainerEventView::Completed {
                retainer_id: *retainer_id,
                client: client@,
                freelancer: freelancer@,
            },
            RetainerEvent::Renewed { retainer_id, client, freelancer, amount } =>
                RetainerEventView::Renewed {
                retainer_id: *retainer_id,
                client: client@,
                freelancer: freelancer@,
                amount: *amount,
            },
            RetainerEvent::Cancelled { retainer_id, client, freelancer } =>
                RetainerEventView::Cancelled {
                retainer_id: *retainer_id,
                client: client@,
                freelancer: freelancer@,
            },
            RetainerEvent::Exported {
                cross_chain_id,
                source_job_id,
                freelancer,
                amount,
                target_chain,
            } => RetainerEventView::Exported {
                cross_chain_id: *cross_chain_id,
                source_job_id: *source_job_id,
                freelancer: freelancer@,
                amount: *amount,
                target_chain: target_chain@,
            },
            RetainerEvent::Imported {
                cross_chain_id,
                source_chain,
                source_job_id,
                freelancer,
                amount,
            } => RetainerEventView::Imported {
                cross_chain_id: *cross_chain_id,
                source_chain: source_chain@,
                source_job_id: *source_job_id,
                freelancer: freelancer@,
                amount: *amount,
            },
        }
    }
}

/// What a successful retainer call asks of the host besides its change of
/// state: the authorization it demands and the events it publishes, in order.
#[derive(Debug, Clone)]
pub struct Outcome {
    pub auth: Address,
    pub events: Vec<RetainerEvent>,
}

/// The view of an outcome.
pub struct OutcomeView {
    pub auth: Seq<char>,
    pub events: Seq<RetainerEventView>,
}

impl View for Outcome {
    type V = OutcomeView;

    open spec fn view(&self) -> OutcomeView {
        OutcomeView { auth: self.auth@, events: self.events@.map_values(|e: RetainerEvent| e@) }
    }
}

impl Outcome {
    /// The outcome that demands the authorization of `auth` and publishes `event`.
    pub fn single(auth: &Address, event: RetainerEvent) -> (r: Outcome)
        ensures
            r@ == (OutcomeView { auth: auth@, events: seq![event@] }),
    {
        let mut events: Vec<RetainerEvent> = Vec::new();
        events.push(event);
        let r = Outcome { auth: auth.duplicate(), events };
        assert(r@.events =~= seq![event@]);
        r
    }

    /// The outcome that demands the authorization of `auth` and publishes `first`, then `second`.
    pub fn pair(auth: &Address, first: RetainerEvent, second: RetainerEvent) -> (r: Outcome)
        ensures
            r@ == (OutcomeView { auth: auth@, events: seq![first@, second@] }),
    {
        let mut events: Vec<RetainerEvent> = Vec::new();
        events.push(first);
        events.push(second);
        let r = Outcome { auth: auth.duplicate(), events };
        assert(r@.events =~= seq![first@, second@]);
        r
    }
}

/// Everything the retainer contract keeps in storage.
pub struct RetainerState {
    pub admin: Option<Seq<char>>,
    pub native_token: Option<Seq<char>>,
    pub retainer_count: u64,
    pub retainers: Map<u64, RetainerView>,
    pub cross_chain_job_count: u64,
    pub cross_chain_jobs: Map<u64, CrossChainJobView>,
}

/// The storage of the retainer contract.
pub struct RetainerContract {
    pub admin: Option<Address>,
    pub native_token: Option<Address>,
    pub retainer_count: u64,
    pub retainers: Store<u64, Retainer>,
    pub cross_chain_job_count: u64,
    pub cross_chain_jobs: Store<u64, CrossChainJob>,
}

impl View for RetainerContract {
    type V = RetainerState;

    open spec fn view(&self) -> RetainerState {
        RetainerState {
            admin: match self.admin {
                Some(a) => Some(a@),
                None => None,
            },
            native_token: match self.native_token {
                Some(a) => Some(a@),
                None => None,
            },
            retainer_count: self.retainer_count,
            retainers: self.retainers@,
            cross_chain_job_count: self.cross_chain_job_count,
            cross_chain_jobs: self.cross_chain_jobs@,
        }
    }
}

impl RetainerState {
    /// Why `renew_retainer` refuses at time `now`, if it does.
    pub open spec fn renew_error(self, id: u64, now: u64) -> Option<Error> {
        if !self.retainers.contains_key(id) {
            Some(Error::NotFound)
        } else if self.retainers[id].status != RetainerStatus::Active {
            Some(Error::InvalidStatus)
        } else if self.retainers[id].last_renewed_at + self.retainers[id].interval_ledgers
            > u64::MAX {
            Some(Error::ArithmeticOverflow)
        } else if now < self.retainers[id].last_renewed_at + self.retainers[id].interval_ledgers {
            Some(Error::IntervalNotPassed)
        } else {
            None
        }
    }

    /// Whether retainer `id` has used all its renewals already.
    pub open spec fn renewals_exhausted(self, id: u64) -> bool {
        self.retainers[id].current_renewal >= self.retainers[id].max_renewals
    }

    /// The retainer `id` after a renewal at time `now`: with its renewals
    /// exhausted it is completed as it stands; otherwise it is renewed, and
    /// completed too when that renewal is its last.
    pub open spec fn renewed(self, id: u64, now: u64) -> RetainerView {
        let r = self.retainers[id];
        if self.renewals_exhausted(id) {
            RetainerView { status: RetainerStatus::Completed, ..r }
        } else {
            let c = (r.current_renewal + 1) as u32;
            RetainerView {
                current_renewal: c,
                last_renewed_at: now,
                status: if c >= r.max_renewals {
                    RetainerStatus::Completed
                } else {
                    RetainerStatus::Active
                },
                ..r
            }
        }
    }

    /// The events a renewal of retainer `id` publishes: the renewal, if one
    /// happens, then the completion, if the retainer completes.
    pub open spec fn renewal_events(self, id: u64) -> Seq<RetainerEventView> {
        let r = self.retainers[id];
        let completed = RetainerEventView::Completed {
            retainer_id: id,
            client: r.client,
            freelancer: r.freelancer,
        };
        let renewed = RetainerEventView::Renewed {
            retainer_id: id,
            client: r.client,
            freelancer: r.freelancer,
            amount: r.amount,
        };
        if self.renewals_exhausted(id) {
            seq![completed]
        } else if r.current_renewal + 1 >= r.max_renewals {
            seq![renewed, completed]
        } else {
            seq![renewed]
        }
    }

    /// Why `cancel_retainer` refuses, if it does.
    pub open spec fn cancel_error(self, client: Seq<char>, id: u64) -> Option<Error> {
        if !self.retainers.contains_key(id) {
            Some(Error::NotFound)
        } else if self.retainers[id].client != client {
            Some(Error::Unauthorized)
        } else if self.retainers[id].status != RetainerStatus::Active {
            Some(Error::InvalidStatus)
        } else {
            None
        }
    }

    /// Why an administrative call by `caller` refuses, if it does.
    pub open spec fn admin_error(self, caller: Seq<char>) -> Option<Error> {
        match self.admin {
            None => Some(Error::NotInitialized),
            Some(a) => if a != caller {
                Some(Error::Unauthorized)
            } else {
                None
            },
        }
    }
}

impl RetainerContract {
    /// A contract whose storage is empty.
    pub fn new() -> (r: RetainerContract)
        ensures
            r@ == (RetainerState {
                admin: None,
                native_token: None,
                retainer_count: 0,
                retainers: Map::empty(),
                cross_chain_job_count: 0,
                cross_chain_jobs: Map::empty(),
            }),
    {
        RetainerContract {
            admin: None,
            native_token: None,
            retainer_count: 0,
            retainers: Store::new(),
            cross_chain_job_count: 0,
            cross_chain_jobs: Store::new(),
        }
    }

    /// Sets the administrator and the native token, once.
    pub fn initialize(&mut self, admin: Address, native_token: Address) -> (r: Result<
        Outcome,
        Error,
    >)
        ensures
            match r {
                Ok(out) => old(self)@.admin is None && final(self)@ == (RetainerState {
                    admin: Some(admin@),
                    native_token: Some(native_token@),
                    retainer_count: 0,
                    cross_chain_job_count: 0,
                    ..old(self)@
                }) && out@ == (OutcomeView {
                    auth: admin@,
                    events: seq![
                        RetainerEventView::Initialized {
                            admin: admin@,
                            native_token: native_token@,
                        },
                    ],
                }),
                Err(e) => old(self)@.admin is Some && e == Error::AlreadyInitialized && final(self)@
                    == old(self)@,
            },
    {
        if self.admin.is_some() {
            return Err(Error::AlreadyInitialized);
        }
        let out = Outcome::single(
            &admin,
            RetainerEvent::Initialized {
                admin: admin.duplicate(),
                native_token: native_token.duplicate(),
            },
        );
        self.admin = Some(admin);
        self.native_token = Some(native_token);
        self.retainer_count = 0;
        self.cross_chain_job_count = 0;
        Ok(out)
    }

    /// Creates an active retainer at time `now` and returns its id.
    pub fn create_retainer(
        &mut self,
        client: Address,
        freelancer: Address,
        amount: i128,
        interval_ledgers: u64,
        max_renewals: u32,
        token: Address,
        now: u64,
    ) -> (r: Result<(u64, Outcome), Error>)
        ensures
            match r {
                Ok((id, out)) => old(self)@.retainer_count < u64::MAX && id == old(self)@.retainer_count
                    + 1 && final(self)@ == (RetainerState {
                    retainer_count: id,
                    retainers: old(self)@.retainers.insert(
                        id,
                        RetainerView {
                            client: client@,
                            freelancer: freelancer@,
                            amount,
                            interval_ledgers,
                            max_renewals,
                            current_renewal: 0,
                            status: RetainerStatus::Active,
                            created_at: now,
                            token: token@,
                            last_renewed_at: now,
                        },
                    ),
                    ..old(self)@
                }) && out@ == (OutcomeView {
                    auth: client@,
                    events: seq![
                        RetainerEventView::Created {
                            retainer_id: id,
                            client: client@,
                            freelancer: freelancer@,
                            amount,
                            max_renewals,
                        },
                    ],
                }),
                Err(e) => old(self)@.retainer_count == u64::MAX && e == Error::ArithmeticOverflow
                    && final(self)@ == old(self)@,
            },
    {
        if self.retainer_count == u64::MAX {
            return Err(Error::ArithmeticOverflow);
        }
        let retainer_id = self.retainer_count + 1;
        self.retainer_count = retainer_id;
        let out = Outcome::single(
            &client,
            RetainerEvent::Created {
                retainer_id,
                client: client.duplicate(),
                freelancer: freelancer.duplicate(),
                amount,
                max_renewals,
            },
        );
        let retainer = Retainer {
            client,
            freelancer,
            amount,
            interval_ledgers,
            max_renewals,
            current_renewal: 0,
            status: RetainerStatus::Active,
            created_at: now,
            token,
            last_renewed_at: now,
        };
        self.retainers.set(retainer_id, retainer);
        Ok((retainer_id, out))
    }

    /// The retainer stored under `retainer_id`.
    pub fn get_retainer(&self, retainer_id: u64) -> (r: Result<Retainer, Error>)
        ensures
            match r {
                Ok(ret) => self@.retainers.contains_key(retainer_id) && ret@
                    == self@.retainers[retainer_id],
                Err(e) => !self@.retainers.contains_key(retainer_id) && e == Error::NotFound,
            },
    {
        match self.retainers.get(&retainer_id) {
            Some(ret) => Ok(ret.duplicate()),
            None => Err(Error::NotFound),
        }
    }

    /// Renews retainer `retainer_id` at time `now`, once its interval has
    /// passed; when all renewals are used it is completed instead.
    pub fn renew_retainer(&mut self, caller: &Address, retainer_id: u64, now: u64) -> (r: Result<
        (u64, Outcome),
        Error,
    >)
        ensures
            match r {
                Ok((id, out)) => old(self)@.renew_error(retainer_id, now) is None && id
                    == retainer_id && final(self)@ == (RetainerState {
                    retainers: old(self)@.retainers.insert(
                        retainer_id,
                        old(self)@.renewed(retainer_id, now),
                    ),
                    ..old(self)@
                }) && out@ == (OutcomeView {
                    auth: caller@,
                    events: old(self)@.renewal_events(retainer_id),
                }),
                Err(e) => old(self)@.renew_error(retainer_id, now) == Some(e) && final(self)@ == old(
                    self,
                )@,
            },
    {
        let mut retainer = self.get_retainer(retainer_id)?;
        if retainer.status != RetainerStatus::Active {
            return Err(Error::InvalidStatus);
        }
        let due = match retainer.last_renewed_at.checked_add(retainer.interval_ledgers) {
            Some(d) => d,
            None => {
                return Err(Error::ArithmeticOverflow);
            },
        };
        if now < due {
            return Err(Error::IntervalNotPassed);
        }
        let completed = RetainerEvent::Completed {
            retainer_id,
            client: retainer.client.duplicate(),
            freelancer: retainer.freelancer.duplicate(),
        };
        if retainer.current_renewal >= retainer.max_renewals {
            retainer.status = RetainerStatus::Completed;
            self.retainers.set(retainer_id, retainer);
            return Ok((retainer_id, Outcome::single(caller, completed)));
        }
        retainer.current_renewal = retainer.current_renewal + 1;
        retainer.last_renewed_at = now;
        let renewed = RetainerEvent::Renewed {
            retainer_id,
            client: retainer.client.duplicate(),
            freelancer: retainer.freelancer.duplicate(),
            amount: retainer.amount,
        };
        let out = if retainer.current_renewal >= retainer.max_renewals {
            retainer.status = RetainerStatus::Completed;
            Outcome::pair(caller, renewed, completed)
        } else {
            Outcome::single(caller, renewed)
        };
        self.retainers.set(retainer_id, retainer);
        Ok((retainer_id, out))
    }

    /// The client cancels active retainer `retainer_id`.
    pub fn cancel_retainer(&mut self, client: &Address, retainer_id: u64) -> (r: Result<
        Outcome,
        Error,
    >)
        ensures
            match r {
                Ok(out) => old(self)@.cancel_error(client@, retainer_id) is None && final(self)@ == (
                RetainerState {
                    retainers: old(self)@.retainers.insert(
                        retainer_id,
                        RetainerView {
                            status: RetainerStatus::Cancelled,
                            ..old(self)@.retainers[retainer_id]
                        },
                    ),
                    ..old(self)@
                }) && out@ == (OutcomeView {
                    auth: client@,
                    events: seq![
                        RetainerEventView::Cancelled {
                            retainer_id,
                            client: client@,
                            freelancer: old(self)@.retainers[retainer_id].freelancer,
                        },
                    ],
                }),
                Err(e) => old(self)@.cancel_error(client@, retainer_id) == Some(e) && final(self)@
                    == old(self)@,
            },
    {
        let mut retainer = self.get_retainer(retainer_id)?;
        if !retainer.client.same(client) {
            return Err(Error::Unauthorized);
        }
        if retainer.status != RetainerStatus::Active {
            return Err(Error::InvalidStatus);
        }
        retainer.status = RetainerStatus::Cancelled;
        let out = Outcome::single(
            client,
            RetainerEvent::Cancelled {
                retainer_id,
                client: client.duplicate(),
                freelancer: retainer.freelancer.duplicate(),
            },
        );
        self.retainers.set(retainer_id, retainer);
        Ok(out)
    }

    /// Refuses a caller other than the stored administrator.
    fn check_admin(&self, caller: &Address) -> (r: Result<(), Error>)
        ensures
            match r {
                Ok(()) => self@.admin_error(caller@) is None,
                Err(e) => self@.admin_error(caller@) == Some(e),
            },
    {
        match &self.admin {
            None => Err(Error::NotInitialized),
            Some(a) => if !a.same(caller) {
                Err(Error::Unauthorized)
            } else {
                Ok(())
            },
        }
    }

    /// The administrator records job `source_job_id` as exported to `target_chain`.
    pub fn export_job(
        &mut self,
        admin: &Address,
        source_job_id: u64,
        freelancer: Address,
        amount: i128,
        token: Address,
        target_chain: String,
        target_contract: Address,
    ) -> (r: Result<(u64, Outcome), Error>)
        ensures
            match r {
                Ok((id, out)) => old(self)@.admin_error(admin@) is None
                    && old(self)@.cross_chain_job_count < u64::MAX && id == old(
                    self,
                )@.cross_chain_job_count + 1 && final(self)@ == (RetainerState {
                    cross_chain_job_count: id,
                    cross_chain_jobs: old(self)@.cross_chain_jobs.insert(
                        id,
                        CrossChainJobView {
                            source_chain: "stellar"@,
                            source_job_id,
                            origin_contract: target_contract@,
                            freelancer: freelancer@,
                            amount,
                            token: token@,
                            exported: true,
                            imported: false,
                        },
                    ),
                    ..old(self)@
                }) && out@ == (OutcomeView {
                    auth: admin@,
                    events: seq![
                        RetainerEventView::Exported {
                            cross_chain_id: id,
                            source_job_id,
                            freelancer: freelancer@,
                            amount,
                            target_chain: target_chain@,
                        },
                    ],
                }),
                Err(e) => final(self)@ == old(self)@ && (if old(self)@.admin_error(admin@) is Some {
                    old(self)@.admin_error(admin@) == Some(e)
                } else {
                    old(self)@.cross_chain_job_count == u64::MAX && e == Error::ArithmeticOverflow
                }),
            },
    {
        self.check_admin(admin)?;
        if self.cross_chain_job_count == u64::MAX {
            return Err(Error::ArithmeticOverflow);
        }
        let cc_id = self.cross_chain_job_count + 1;
        self.cross_chain_job_count = cc_id;
        let out = Outcome::single(
            admin,
            RetainerEvent::Exported {
                cross_chain_id: cc_id,
                source_job_id,
                freelancer: freelancer.duplicate(),
                amount,
                target_chain,
            },
        );
        let cross = CrossChainJob {
            source_chain: "stellar".to_owned(),
            source_job_id,
            origin_contract: target_contract,
            freelancer,
            amount,
            token,
            exported: true,
            imported: false,
        };
        self.cross_chain_jobs.set(cc_id, cross);
        Ok((cc_id, out))
    }

    /// The administrator marks cross-chain record `cross_chain_id` as imported.
    pub fn import_job(
        &mut self,
        admin: &Address,
        cross_chain_id: u64,
        source_chain: String,
        source_job_id: u64,
        freelancer: Address,
        amount: i128,
        token: Address,
    ) -> (r: Result<(u64, Outcome), Error>)
        ensures
            match r {
                Ok((id, out)) => old(self)@.admin_error(admin@) is None
                    && old(self)@.cross_chain_jobs.contains_key(cross_chain_id) && id
                    == cross_chain_id && final(self)@ == (RetainerState {
                    cross_chain_jobs: old(self)@.cross_chain_jobs.insert(
                        cross_chain_id,
                        CrossChainJobView {
                            imported: true,
                            ..old(self)@.cross_chain_jobs[cross_chain_id]
                        },
                    ),
                    ..old(self)@
                }) && out@ == (OutcomeView {
                    auth: admin@,
                    events: seq![
                        RetainerEventView::Imported {
                            cross_chain_id,
                            source_chain: source_chain@,
                            source_job_id,
                            freelancer: freelancer@,
                            amount,
                        },
                    ],
                }),
                Err(e) => final(self)@ == old(self)@ && (if old(self)@.admin_error(admin@) is Some {
                    old(self)@.admin_error(admin@) == Some(e)
                } else {
                    !old(self)@.cross_chain_jobs.contains_key(cross_chain_id) && e
                        == Error::NotFound
                }),
            },
    {
        self.check_admin(admin)?;
        let mut cross = match self.cross_chain_jobs.get(&cross_chain_id) {
            Some(c) => c.duplicate(),
            None => {
                return Err(Error::NotFound);
            },
        };
        cross.imported = true;
        self.cross_chain_jobs.set(cross_chain_id, cross);
        let out = Outcome::single(
            admin,
            RetainerEvent::Imported {
                cross_chain_id,
                source_chain,
                source_job_id,
                freelancer,
                amount,
            },
        );
        Ok((cross_chain_id, out))
    }

    /// The cross-chain record stored under `cross_chain_id`.
    pub fn get_cross_chain_job(&self, cross_chain_id: u64) -> (r: Result<CrossChainJob, Error>)
        ensures
            match r {
                Ok(c) => self@.cross_chain_jobs.contains_key(cross_chain_id) && c@
                    == self@.cross_chain_jobs[cross_chain_id],
                Err(e) => !self@.cross_chain_jobs.contains_key(cross_chain_id) && e
                    == Error::NotFound,
            },
    {
        match self.cross_chain_jobs.get(&cross_chain_id) {
            Some(c) => Ok(c.duplicate()),
            None => Err(Error::NotFound),
        }
    }
}

} // verus!
