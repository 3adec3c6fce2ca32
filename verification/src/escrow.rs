//! The escrow contract: clients lock a job's payment, freelancers accept and
//! deliver, and the contract pays out, refunds or settles disputes.
use vstd::prelude::*;
use crate::address::Address;
use crate::escrow_spec::{
    lemma_counts_partition, status_counts, present_jobs, jobs_with_status, status_count,
    fits_i128, assigned_to, lemma_total_error_persists, list_of, milestones_total, open_job,
    zero_hash, first_occurrence, token_added, CANCELLATION_GRACE_PERIOD, token_allowed,
    token_removed, EscrowView, MAX_DESC_PAYLOAD,
};
use crate::escrow_types::{
    auth_effects, copy_opt_address, deposit, deposit_view, payout, payout_view,
    event_effects, settle_effects, cancelled, cancelled_event, EscrowEvent,
    EscrowEventView, EffectsView, DiscountTier, Effects, Error, Fees,
    Job, JobStatus, Milestone, MilestoneView, SLAConfig, SLAStatus, CancellationRebateInfo,
    JobStatusCounts,
};
use crate::fees::{bps_share, checked_bps_share, discount_for, PLATFORM_FEE_BPS};
use crate::store::{copy_bytes, copy_ids};
use crate::store::Store;

verus! {

/// The storage of the escrow contract.
pub struct EscrowContract {
    pub admin: Option<Address>,
    pub native_token: Option<Address>,
    pub job_count: u64,
    pub completed_jobs_count: u64,
    pub desc_payload_max: u32,
    pub fees: Fees,
    pub allowed_tokens: Vec<Address>,
    pub whitelist_mode: bool,
    pub whitelisted: Store<Address, bool>,
    pub blacklisted: Store<Address, bool>,
    pub trusted_forwarders: Store<Address, bool>,
    pub jobs: Store<u64, Job>,
    pub milestone_counts: Store<u64, u32>,
    pub milestones: Store<(u64, u32), Milestone>,
    pub sla_configs: Store<u64, SLAConfig>,
    pub sla_accepted_at: Store<u64, u64>,
    pub sla_penalty_applied: Store<u64, bool>,
    pub freelancer_jobs: Store<Address, Vec<u64>>,
    pub client_jobs: Store<Address, Vec<u64>>,
    pub discount_tiers: Vec<DiscountTier>,
    pub user_completed_jobs: Store<Address, u32>,
}

/// The views of a list of addresses.
pub open spec fn addr_views(s: Seq<Address>) -> Seq<Seq<char>> {
    s.map_values(|a: Address| a@)
}

impl View for EscrowContract {
    type V = EscrowView;

    open spec fn view(&self) -> EscrowView {
        EscrowView {
            admin: match self.admin {
                Some(a) => Some(a@),
                None => None,
            },
            native_token: match self.native_token {
                Some(a) => Some(a@),
                None => None,
            },
            job_count: self.job_count,
            completed_jobs_count: self.completed_jobs_count,
            desc_payload_max: self.desc_payload_max,
            fees: self.fees.total_collected,
            allowed_tokens: addr_views(self.allowed_tokens@),
            whitelist_mode: self.whitelist_mode,
            whitelisted: self.whitelisted@,
            blacklisted: self.blacklisted@,
            trusted_forwarders: self.trusted_forwarders@,
            jobs: self.jobs@,
            milestone_counts: self.milestone_counts@,
            milestones: self.milestones@,
            sla_configs: self.sla_configs@,
            sla_accepted_at: self.sla_accepted_at@,
            sla_penalty_applied: self.sla_penalty_applied@,
            freelancer_jobs: self.freelancer_jobs@,
            client_jobs: self.client_jobs@,
            discount_tiers: self.discount_tiers@,
            user_completed_jobs: self.user_completed_jobs@,
        }
    }
}

/// The storage of a contract that nothing has been written to yet.
pub open spec fn empty_escrow() -> EscrowView {
    EscrowView {
        admin: None,
        native_token: None,
        job_count: 0,
        completed_jobs_count: 0,
        desc_payload_max: MAX_DESC_PAYLOAD,
        fees: 0,
        allowed_tokens: Seq::empty(),
        whitelist_mode: false,
        whitelisted: Map::empty(),
        blacklisted: Map::empty(),
        trusted_forwarders: Map::empty(),
        jobs: Map::empty(),
        milestone_counts: Map::empty(),
        milestones: Map::empty(),
        sla_configs: Map::empty(),
        sla_accepted_at: Map::empty(),
        sla_penalty_applied: Map::empty(),
        freelancer_jobs: Map::empty(),
        client_jobs: Map::empty(),
        discount_tiers: Seq::empty(),
        user_completed_jobs: Map::empty(),
    }
}

/// The state right after `initialize(admin, native_token)` on `s`.
pub open spec fn initialized(s: EscrowView, admin: Seq<char>, native_token: Seq<char>) -> EscrowView {
    EscrowView {
        admin: Some(admin),
        native_token: Some(native_token),
        job_count: 0,
        completed_jobs_count: 0,
        desc_payload_max: MAX_DESC_PAYLOAD,
        fees: 0,
        allowed_tokens: Seq::empty(),
        ..s
    }
}

/// The outcome of an administrator-only call that changes `s` into `next`:
/// on success the authorizations of the caller and of the stored
/// administrator, and the events `events`; `NotInitialized` before initialization.
pub open spec fn admin_call(
    old_s: EscrowView,
    new_s: EscrowView,
    r: Result<Effects, Error>,
    caller: Seq<char>,
    next: EscrowView,
    events: Seq<EscrowEventView>,
) -> bool {
    match r {
        Ok(eff) => old_s.admin matches Some(a) && eff@ == event_effects(seq![caller, a], events)
            && new_s == next,
        Err(e) => old_s.admin is None && e == Error::NotInitialized && new_s == old_s,
    }
}

impl EscrowContract {
    /// A contract whose storage is empty.
    pub fn new() -> (r: EscrowContract)
        ensures
            r@ == empty_escrow(),
    {
        let r = EscrowContract {
            admin: None,
            native_token: None,
            job_count: 0,
            completed_jobs_count: 0,
            desc_payload_max: MAX_DESC_PAYLOAD,
            fees: Fees { total_collected: 0 },
            allowed_tokens: Vec::new(),
            whitelist_mode: false,
            whitelisted: Store::new(),
            blacklisted: Store::new(),
            trusted_forwarders: Store::new(),
            jobs: Store::new(),
            milestone_counts: Store::new(),
            milestones: Store::new(),
            sla_configs: Store::new(),
            sla_accepted_at: Store::new(),
            sla_penalty_applied: Store::new(),
            freelancer_jobs: Store::new(),
            client_jobs: Store::new(),
            discount_tiers: Vec::new(),
            user_completed_jobs: Store::new(),
        };
        assert(r@.allowed_tokens =~= Seq::<Seq<char>>::empty());
        r
    }

    /// Sets the administrator and the native token, once.
    pub fn initialize(&mut self, admin: Address, native_token: Address) -> (r: Result<Effects, Error>)
        ensures
            match r {
                Ok(eff) => old(self)@.admin is None && final(self)@ == initialized(
                    old(self)@,
                    admin@,
                    native_token@,
                ) && eff@ == event_effects(
                    Seq::empty(),
                    seq![
                        EscrowEventView::Initialized {
                            admin: admin@,
                            native_token: native_token@,
                        },
                    ],
                ),
                Err(e) => old(self)@.admin is Some && e == Error::AlreadyInitialized && final(self)@
                    == old(self)@,
            },
    {
        if self.admin.is_some() {
            return Err(Error::AlreadyInitialized);
        }
        let event = EscrowEvent::Initialized {
            admin: admin.duplicate(),
            native_token: native_token.duplicate(),
        };
        self.admin = Some(admin);
        self.native_token = Some(native_token);
        self.job_count = 0;
        self.completed_jobs_count = 0;
        self.desc_payload_max = MAX_DESC_PAYLOAD;
        self.fees = Fees { total_collected: 0 };
        self.allowed_tokens = Vec::new();
        let eff = Effects { auths: Vec::new(), transfers: Vec::new(), events: Vec::new() };
        assert(eff@.auths =~= Seq::<Seq<char>>::empty());
        assert(eff@.transfers =~= Seq::empty());
        assert(eff@.events =~= Seq::empty());
        let eff = eff.with_event(event);
        assert(eff@.events =~= seq![event@]);
        assert(self@.allowed_tokens =~= Seq::<Seq<char>>::empty());
        Ok(eff)
    }

    /// The administrator, whose authorization administrative calls demand.
    pub fn require_admin(&self) -> (r: Result<Address, Error>)
        ensures
            match r {
                Ok(a) => self@.admin == Some(a@),
                Err(e) => self@.admin is None && e == Error::NotInitialized,
            },
    {
        match &self.admin {
            Some(a) => Ok(a.duplicate()),
            None => Err(Error::NotInitialized),
        }
    }

    /// The authorizations an administrative call by `caller` demands.
    fn admin_effects(&self, caller: &Address) -> (r: Result<Effects, Error>)
        ensures
            match r {
                Ok(eff) => self@.admin matches Some(a) && eff@ == auth_effects(seq![caller@, a]),
                Err(e) => self@.admin is None && e == Error::NotInitialized,
            },
    {
        let a = self.require_admin()?;
        Ok(Effects::auth2(caller, &a))
    }

    /// The effects `eff`, which publish nothing, publishing `event`.
    fn announce(eff: Effects, event: EscrowEvent) -> (r: Effects)
        requires
            eff@.events == Seq::<EscrowEventView>::empty(),
        ensures
            r@ == (EffectsView { events: seq![event@], ..eff@ }),
    {
        let r = eff.with_event(event);
        assert(r@.events =~= seq![event@]);
        r
    }

    /// Sets the largest accepted description payload.
    pub fn set_desc_payload_max(&mut self, max: u32) -> (r: Result<Effects, Error>)
        ensures
            match r {
                Ok(eff) => old(self)@.admin matches Some(a) && eff@ == auth_effects(seq![a])
                    && final(self)@ == (EscrowView { desc_payload_max: max, ..old(self)@ }),
                Err(e) => old(self)@.admin is None && e == Error::NotInitialized && final(self)@
                    == old(self)@,
            },
    {
        let a = self.require_admin()?;
        self.desc_payload_max = max;
        Ok(Effects::auth(&a))
    }

    /// The largest accepted description payload.
    pub fn get_desc_payload_max(&self) -> (r: u32)
        ensures
            r == self@.desc_payload_max,
    {
        self.desc_payload_max
    }

    /// Whether `addr` passes the whitelist.
    pub fn is_whitelisted(&self, addr: &Address) -> (r: bool)
        ensures
            r == self@.whitelisted_addr(addr@),
    {
        if !self.whitelist_mode {
            return true;
        }
        self.whitelisted.contains(addr)
    }

    /// Whether `addr` passes the whitelist.
    pub fn is_whitelisted_public(&self, addr: &Address) -> (r: bool)
        ensures
            r == self@.whitelisted_addr(addr@),
    {
        self.is_whitelisted(addr)
    }

    /// Whether `addr` is blacklisted.
    pub fn is_blacklisted(&self, addr: &Address) -> (r: bool)
        ensures
            r == self@.blacklisted_addr(addr@),
    {
        self.blacklisted.contains(addr)
    }

    /// Whether `addr` is blacklisted.
    pub fn is_blacklisted_public(&self, addr: &Address) -> (r: bool)
        ensures
            r == self@.blacklisted_addr(addr@),
    {
        self.is_blacklisted(addr)
    }

    /// Refuses a blacklisted address, then one that fails the whitelist.
    pub fn check_access(&self, addr: &Address) -> (r: Result<(), Error>)
        ensures
            match r {
                Ok(()) => self@.access_error(addr@) is None,
                Err(e) => self@.access_error(addr@) == Some(e),
            },
    {
        if self.is_blacklisted(addr) {
            return Err(Error::Blacklisted);
        }
        if !self.is_whitelisted(addr) {
            return Err(Error::NotWhitelisted);
        }
        Ok(())
    }

    /// Turns whitelist mode on or off.
    pub fn set_whitelist_mode(&mut self, admin: &Address, enabled: bool) -> (r: Result<Effects, Error>)
        ensures
            admin_call(
                old(self)@,
                final(self)@,
                r,
                admin@,
                EscrowView { whitelist_mode: enabled, ..old(self)@ },
                seq![EscrowEventView::WhitelistModeSet { enabled }],
            ),
    {
        let eff = self.admin_effects(admin)?;
        self.whitelist_mode = enabled;
        Ok(Self::announce(eff, EscrowEvent::WhitelistModeSet { enabled }))
    }

    /// Whether whitelist mode is on.
    pub fn is_whitelist_mode_enabled(&self) -> (r: bool)
        ensures
            r == self@.whitelist_mode,
    {
        self.whitelist_mode
    }

    /// Puts `addr` on the whitelist; refused if it is there already.
    pub fn add_to_whitelist(&mut self, admin: &Address, addr: Address) -> (r: Result<Effects, Error>)
        ensures
            match r {
                Ok(eff) => old(self)@.admin matches Some(a) && !old(self)@.whitelisted.contains_key(
                    addr@,
                ) && eff@ == event_effects(
                    seq![admin@, a],
                    seq![EscrowEventView::WhitelistAdded { address: addr@ }],
                ) && final(self)@ == (EscrowView {
                    whitelisted: old(self)@.whitelisted.insert(addr@, true),
                    ..old(self)@
                }),
                Err(e) => final(self)@ == old(self)@ && (if old(self)@.admin is None {
                    e == Error::NotInitialized
                } else {
                    old(self)@.whitelisted.contains_key(addr@) && e == Error::AlreadyWhitelisted
                }),
            },
    {
        let eff = self.admin_effects(admin)?;
        if self.whitelisted.contains(&addr) {
            return Err(Error::AlreadyWhitelisted);
        }
        let event = EscrowEvent::WhitelistAdded { address: addr.duplicate() };
        self.whitelisted.set(addr, true);
        Ok(Self::announce(eff, event))
    }

    /// Takes `addr` off the whitelist.
    pub fn remove_from_whitelist(&mut self, admin: &Address, addr: &Address) -> (r: Result<
        Effects,
        Error,
    >)
        ensures
            admin_call(
                old(self)@,
                final(self)@,
                r,
                admin@,
                EscrowView { whitelisted: old(self)@.whitelisted.remove(addr@), ..old(self)@ },
                seq![EscrowEventView::WhitelistRemoved { address: addr@ }],
            ),
    {
        let eff = self.admin_effects(admin)?;
        self.whitelisted.remove(addr);
        Ok(Self::announce(eff, EscrowEvent::WhitelistRemoved { address: addr.duplicate() }))
    }

    /// Puts `addr` on the blacklist; refused if it is there already.
    pub fn add_to_blacklist(&mut self, admin: &Address, addr: Address) -> (r: Result<Effects, Error>)
        ensures
            match r {
                Ok(eff) => old(self)@.admin matches Some(a) && !old(self)@.blacklisted.contains_key(
                    addr@,
                ) && eff@ == event_effects(
                    seq![admin@, a],
                    seq![EscrowEventView::BlacklistAdded { address: addr@ }],
                ) && final(self)@ == (EscrowView {
                    blacklisted: old(self)@.blacklisted.insert(addr@, true),
                    ..old(self)@
                }),
                Err(e) => final(self)@ == old(self)@ && (if old(self)@.admin is None {
                    e == Error::NotInitialized
                } else {
                    old(self)@.blacklisted.contains_key(addr@) && e == Error::AlreadyBlacklisted
                }),
            },
    {
        let eff = self.admin_effects(admin)?;
        if self.blacklisted.contains(&addr) {
            return Err(Error::AlreadyBlacklisted);
        }
        let event = EscrowEvent::BlacklistAdded { address: addr.duplicate() };
        self.blacklisted.set(addr, true);
        Ok(Self::announce(eff, event))
    }

    /// Takes `addr` off the blacklist.
    pub fn remove_from_blacklist(&mut self, admin: &Address, addr: &Address) -> (r: Result<
        Effects,
        Error,
    >)
        ensures
            admin_call(
                old(self)@,
                final(self)@,
                r,
                admin@,
                EscrowView { blacklisted: old(self)@.blacklisted.remove(addr@), ..old(self)@ },
                seq![EscrowEventView::BlacklistRemoved { address: addr@ }],
            ),
    {
        let eff = self.admin_effects(admin)?;
        self.blacklisted.remove(addr);
        Ok(Self::announce(eff, EscrowEvent::BlacklistRemoved { address: addr.duplicate() }))
    }

    /// Trusts `forwarder` to relay cancellations for clients.
    pub fn set_trusted_forwarder(&mut self, admin: &Address, forwarder: Address) -> (r: Result<
        Effects,
        Error,
    >)
        ensures
            admin_call(
                old(self)@,
                final(self)@,
                r,
                admin@,
                EscrowView {
                    trusted_forwarders: old(self)@.trusted_forwarders.insert(forwarder@, true),
                    ..old(self)@
                },
                seq![EscrowEventView::ForwarderSet { forwarder: forwarder@, is_trusted: true }],
            ),
    {
        let eff = self.admin_effects(admin)?;
        let event = EscrowEvent::ForwarderSet { forwarder: forwarder.duplicate(), is_trusted: true };
        self.trusted_forwarders.set(forwarder, true);
        Ok(Self::announce(eff, event))
    }

    /// Whether `forwarder` is trusted to relay cancellations.
    pub fn is_trusted_forwarder(&self, forwarder: &Address) -> (r: bool)
        ensures
            r == self@.trusted_forwarders.contains_key(forwarder@),
    {
        self.trusted_forwarders.contains(forwarder)
    }

    /// Replaces the fee discount tiers.
    pub fn set_discount_tiers(&mut self, admin: &Address, tiers: Vec<DiscountTier>) -> (r: Result<
        Effects,
        Error,
    >)
        ensures
            admin_call(
                old(self)@,
                final(self)@,
                r,
                admin@,
                EscrowView { discount_tiers: tiers@, ..old(self)@ },
                Seq::empty(),
            ),
    {
        let eff = self.admin_effects(admin)?;
        self.discount_tiers = tiers;
        Ok(eff)
    }

    /// The fee discount tiers.
    pub fn get_discount_tiers(&self) -> (r: Vec<DiscountTier>)
        ensures
            r@ == self@.discount_tiers,
    {
        let mut r: Vec<DiscountTier> = Vec::new();
        let n = self.discount_tiers.len();
        for i in 0..n
            invariant
                n == self.discount_tiers@.len(),
                r@ == self.discount_tiers@.take(i as int),
        {
            r.push(self.discount_tiers[i]);
            assert(r@ =~= self.discount_tiers@.take(i + 1));
        }
        assert(self.discount_tiers@.take(n as int) =~= self.discount_tiers@);
        r
    }

    /// The native token.
    pub fn get_native_token(&self) -> (r: Result<Address, Error>)
        ensures
            match r {
                Ok(t) => self@.native_token == Some(t@),
                Err(e) => self@.native_token is None && e == Error::NotInitialized,
            },
    {
        match &self.native_token {
            Some(t) => Ok(t.duplicate()),
            None => Err(Error::NotInitialized),
        }
    }

    /// The first position of `token` in the allow-list, if it is there.
    fn find_allowed_token(&self, token: &Address) -> (r: Option<usize>)
        ensures
            match r {
                Some(i) => first_occurrence(self@.allowed_tokens, token@, i as int),
                None => !self@.allowed_tokens.contains(token@),
            },
    {
        let n = self.allowed_tokens.len();
        for i in 0..n
            invariant
                n == self.allowed_tokens@.len(),
                forall|j: int| 0 <= j < i ==> self@.allowed_tokens[j] != token@,
        {
            if self.allowed_tokens[i].same(token) {
                return Some(i);
            }
        }
        proof {
            if self@.allowed_tokens.contains(token@) {
                let j = choose|j: int| 0 <= j < n && self@.allowed_tokens[j] == token@;
                assert(self@.allowed_tokens[j] != token@);
            }
        }
        None
    }

    /// Adds `token` to the allow-list, unless it is there already.
    pub fn add_allowed_token(&mut self, admin: &Address, token: Address) -> (r: Result<
        Effects,
        Error,
    >)
        ensures
            admin_call(
                old(self)@,
                final(self)@,
                r,
                admin@,
                EscrowView {
                    allowed_tokens: token_added(old(self)@.allowed_tokens, token@),
                    ..old(self)@
                },
                if old(self)@.allowed_tokens.contains(token@) {
                    Seq::empty()
                } else {
                    seq![EscrowEventView::TokenAdded { token: token@ }]
                },
            ),
    {
        let eff = self.admin_effects(admin)?;
        match self.find_allowed_token(&token) {
            Some(_) => {
                assert(self@.allowed_tokens.contains(token@));
                Ok(eff)
            },
            None => {
                let ghost before = self.allowed_tokens@;
                let event = EscrowEvent::TokenAdded { token: token.duplicate() };
                self.allowed_tokens.push(token);
                assert(addr_views(self.allowed_tokens@) =~= addr_views(before).push(token@));
                Ok(Self::announce(eff, event))
            },
        }
    }

    /// Takes `token` off the allow-list, keeping the order of the others.
    pub fn remove_allowed_token(&mut self, admin: &Address, token: &Address) -> (r: Result<
        Effects,
        Error,
    >)
        ensures
            admin_call(
                old(self)@,
                final(self)@,
                r,
                admin@,
                EscrowView {
                    allowed_tokens: token_removed(old(self)@.allowed_tokens, token@),
                    ..old(self)@
                },
                if old(self)@.allowed_tokens.contains(token@) {
                    seq![EscrowEventView::TokenRemoved { token: token@ }]
                } else {
                    Seq::empty()
                },
            ),
    {
        let eff = self.admin_effects(admin)?;
        match self.find_allowed_token(token) {
            Some(i) => {
                let ghost before = self.allowed_tokens@;
                let ghost views = self@.allowed_tokens;
                proof {
                    assert(views.contains(token@));
                    let c = choose|k: int| first_occurrence(views, token@, k);
                    assert(first_occurrence(views, token@, c));
                    if c < i {
                        assert(views[c] != token@);
                    } else if c > i {
                        assert(views[i as int] != token@);
                    }
                    assert(c == i);
                }
                self.allowed_tokens.remove(i);
                assert(addr_views(self.allowed_tokens@) =~= addr_views(before).remove(i as int));
                Ok(Self::announce(eff, EscrowEvent::TokenRemoved { token: token.duplicate() }))
            },
            None => Ok(eff),
        }
    }

    /// Whether `token` may be used: every token while the allow-list is empty.
    pub fn is_token_allowed(&self, token: &Address) -> (r: bool)
        ensures
            r == token_allowed(self@.allowed_tokens, token@),
    {
        if self.allowed_tokens.len() == 0 {
            return true;
        }
        self.find_allowed_token(token).is_some()
    }

    /// Appends `id` to the jobs listed for `client`.
    fn record_client_job(&mut self, client: &Address, id: u64)
        ensures
            final(self)@ == (EscrowView {
                client_jobs: old(self)@.client_jobs.insert(
                    client@,
                    list_of(old(self)@.client_jobs, client@).push(id),
                ),
                ..old(self)@
            }),
    {
        let mut list = match self.client_jobs.get(client) {
            Some(l) => copy_ids(l),
            None => Vec::new(),
        };
        list.push(id);
        self.client_jobs.set(client.duplicate(), list);
    }

    /// Appends `id` to the jobs listed for `freelancer`.
    fn record_freelancer_job(&mut self, freelancer: &Address, id: u64)
        ensures
            final(self)@ == (EscrowView {
                freelancer_jobs: old(self)@.freelancer_jobs.insert(
                    freelancer@,
                    list_of(old(self)@.freelancer_jobs, freelancer@).push(id),
                ),
                ..old(self)@
            }),
    {
        let mut list = match self.freelancer_jobs.get(freelancer) {
            Some(l) => copy_ids(l),
            None => Vec::new(),
        };
        list.push(id);
        self.freelancer_jobs.set(freelancer.duplicate(), list);
    }

    /// Posts a job: locks `amount` of `token_address` from `client` in the
    /// contract and returns the new job's id.
    pub fn post_job(
        &mut self,
        client: Address,
        amount: i128,
        desc_hash: Vec<u8>,
        description_payload_len: u32,
        deadline: u64,
        token_address: Address,
        title: Vec<u8>,
        category: String,
        now: u32,
    ) -> (r: Result<(u64, Effects), Error>)
        ensures
            match r {
                Ok((id, eff)) => old(self)@.post_job_error(
                    client@,
                    amount,
                    description_payload_len,
                    deadline,
                    now,
                ) is None && id == old(self)@.job_count + 1 && final(self)@ == old(self)@.with_posted_job(
                    open_job(
                        client@,
                        amount,
                        desc_hash@,
                        now,
                        deadline,
                        token_address@,
                        title@,
                        category@,
                    ),
                ) && eff@ == settle_effects(
                    seq![client@],
                    deposit_view(token_address@, client@, amount),
                    EscrowEventView::JobPosted {
                        job_id: id,
                        client: client@,
                        description_hash: desc_hash@,
                        amount,
                    },
                ),
                Err(e) => old(self)@.post_job_error(
                    client@,
                    amount,
                    description_payload_len,
                    deadline,
                    now,
                ) == Some(e) && final(self)@ == old(self)@,
            },
    {
        self.check_access(&client)?;
        if amount <= 0 {
            return Err(Error::InvalidAmount);
        }
        if description_payload_len > self.get_desc_payload_max() {
            return Err(Error::PayloadTooLarge);
        }
        if deadline <= now as u64 {
            return Err(Error::DeadlineTooSoon);
        }
        if self.job_count == u64::MAX {
            return Err(Error::ArithmeticOverflow);
        }
        let job_id = self.job_count + 1;
        self.job_count = job_id;
        let event = EscrowEvent::JobPosted {
            job_id,
            client: client.duplicate(),
            description_hash: copy_bytes(&desc_hash),
            amount,
        };
        let eff = Effects::auth(&client).with_transfer(deposit(&token_address, &client, amount)).with_event(
            event,
        );
        let job = Job {
            client: client.duplicate(),
            freelancer: None,
            amount,
            description_hash: desc_hash,
            status: JobStatus::Open,
            created_at: now as u64,
            deadline,
            token: token_address,
            revision_count: 0,
            submitted_at: 0,
            title,
            category,
        };
        self.jobs.set(job_id, job);
        self.record_client_job(&client, job_id);
        assert(eff@.transfers =~= seq![deposit_view(token_address@, client@, amount)]);
        assert(eff@.events =~= seq![event@]);
        Ok((job_id, eff))
    }

    /// Posts a job as `post_job` does and attaches the service-level terms `sla_config` to it.
    pub fn post_job_with_sla(
        &mut self,
        client: Address,
        amount: i128,
        desc_hash: Vec<u8>,
        description_payload_len: u32,
        deadline: u64,
        token_address: Address,
        title: Vec<u8>,
        category: String,
        sla_config: SLAConfig,
        now: u32,
    ) -> (r: Result<(u64, Effects), Error>)
        ensures
            match r {
                Ok((id, eff)) => old(self)@.post_job_error(
                    client@,
                    amount,
                    description_payload_len,
                    deadline,
                    now,
                ) is None && id == old(self)@.job_count + 1 && final(self)@ == (EscrowView {
                    sla_configs: old(self)@.sla_configs.insert(id, sla_config),
                    ..old(self)@.with_posted_job(
                        open_job(
                            client@,
                            amount,
                            desc_hash@,
                            now,
                            deadline,
                            token_address@,
                            title@,
                            category@,
                        ),
                    )
                }) && eff@ == settle_effects(
                    seq![client@],
                    deposit_view(token_address@, client@, amount),
                    EscrowEventView::JobPosted {
                        job_id: id,
                        client: client@,
                        description_hash: desc_hash@,
                        amount,
                    },
                ),
                Err(e) => old(self)@.post_job_error(
                    client@,
                    amount,
                    description_payload_len,
                    deadline,
                    now,
                ) == Some(e) && final(self)@ == old(self)@,
            },
    {
        let (job_id, eff) = self.post_job(
            client,
            amount,
            desc_hash,
            description_payload_len,
            deadline,
            token_address,
            title,
            category,
            now,
        )?;
        self.sla_configs.set(job_id, sla_config);
        Ok((job_id, eff))
    }

    /// The sum of the milestones' amounts, checked as the contract checks them.
    fn sum_milestones(milestones: &Vec<Milestone>) -> (r: Result<i128, Error>)
        ensures
            r == milestones_total(milestones@.map_values(|m: Milestone| m@)),
    {
        let ghost views = milestones@.map_values(|m: Milestone| m@);
        let mut total: i128 = 0;
        let n = milestones.len();
        for i in 0..n
            invariant
                n == milestones@.len(),
                views == milestones@.map_values(|m: Milestone| m@),
                milestones_total(views.take(i as int)) == Ok::<i128, Error>(total),
        {
            proof {
                assert(views.take(i + 1).drop_last() =~= views.take(i as int));
                assert(views.take(i + 1).last() == milestones@[i as int]@);
            }
            let a = milestones[i].amount;
            if a <= 0 {
                proof {
                    lemma_total_error_persists(views, i + 1);
                }
                return Err(Error::InvalidAmount);
            }
            match total.checked_add(a) {
                Some(t) => {
                    total = t;
                },
                None => {
                    proof {
                        lemma_total_error_persists(views, i + 1);
                    }
                    return Err(Error::ArithmeticOverflow);
                },
            }
        }
        assert(views.take(n as int) =~= views);
        Ok(total)
    }

    /// The total that `client` would lock for a job paid in `milestones`, once
    /// the checks that come before reading the client's balance pass.
    pub fn checked_milestone_total(&self, client: &Address, milestones: &Vec<Milestone>) -> (r: Result<
        i128,
        Error,
    >)
        ensures
            r == self@.milestone_total_checked(client@, milestones@.map_values(|m: Milestone| m@)),
    {
        self.check_access(client)?;
        let total = Self::sum_milestones(milestones)?;
        if total <= 0 {
            return Err(Error::InvalidAmount);
        }
        Ok(total)
    }

    /// Creates a job paid in milestones: locks their total from `client`, who
    /// must hold at least that much (`client_balance`), and returns the new job's id.
    pub fn create_job_with_milestones(
        &mut self,
        client: Address,
        milestones: Vec<Milestone>,
        deadline: u64,
        token_address: Address,
        title: Vec<u8>,
        category: String,
        client_balance: i128,
        now: u32,
    ) -> (r: Result<(u64, Effects), Error>)
        requires
            milestones@.len() <= u32::MAX,
        ensures
            match r {
                Ok((id, eff)) => {
                    &&& old(self)@.milestone_job_error(
                        client@,
                        milestones@.map_values(|m: Milestone| m@),
                        client_balance,
                    ) is None
                    &&& milestones_total(milestones@.map_values(|m: Milestone| m@)) matches Ok(total)
                    &&& id == old(self)@.job_count + 1
                    &&& final(self)@ == old(self)@.with_milestones(
                        id,
                        milestones@.map_values(|m: Milestone| m@),
                    ).with_posted_job(
                        open_job(
                            client@,
                            total,
                            zero_hash(),
                            now,
                            deadline,
                            token_address@,
                            title@,
                            category@,
                        ),
                    )
                    &&& eff@ == settle_effects(
                        seq![client@],
                        deposit_view(token_address@, client@, total),
                        EscrowEventView::JobPosted {
                            job_id: id,
                            client: client@,
                            description_hash: zero_hash(),
                            amount: total,
                        },
                    )
                },
                Err(e) => old(self)@.milestone_job_error(
                    client@,
                    milestones@.map_values(|m: Milestone| m@),
                    client_balance,
                ) == Some(e) && final(self)@ == old(self)@,
            },
    {
        let total = self.checked_milestone_total(&client, &milestones)?;
        if client_balance < total {
            return Err(Error::InsufficientBalance);
        }
        if self.job_count == u64::MAX {
            return Err(Error::ArithmeticOverflow);
        }
        let job_id = self.job_count + 1;
        let ghost views = milestones@.map_values(|m: Milestone| m@);
        let ghost before = self@;
        let n = milestones.len();
        self.milestone_counts.set(job_id, n as u32);
        let ghost base = self.milestones@;
        for i in 0..n
            invariant
                n == milestones@.len(),
                n <= u32::MAX,
                views == milestones@.map_values(|m: Milestone| m@),
                self.milestones@ == base.union_prefer_right(
                    Map::new(
                        |k: (u64, u32)| k.0 == job_id && k.1 < i,
                        |k: (u64, u32)| views[k.1 as int],
                    ),
                ),
                self@ == (EscrowView { milestones: self.milestones@, ..before.with_milestones(job_id, views) }),
        {
            let ghost prev = self.milestones@;
            self.milestones.set((job_id, i as u32), milestones[i].duplicate());
            assert(self.milestones@ =~= base.union_prefer_right(
                Map::new(
                    |k: (u64, u32)| k.0 == job_id && k.1 < i + 1,
                    |k: (u64, u32)| views[k.1 as int],
                ),
            ));
        }
        assert(self.milestones@ =~= before.with_milestones(job_id, views).milestones);
        self.job_count = job_id;
        let mut zeros: Vec<u8> = Vec::new();
        for i in 0..32usize
            invariant
                zeros@ == Seq::new(i as nat, |j: int| 0u8),
        {
            zeros.push(0u8);
            assert(zeros@ =~= Seq::new((i + 1) as nat, |j: int| 0u8));
        }
        let event = EscrowEvent::JobPosted {
            job_id,
            client: client.duplicate(),
            description_hash: copy_bytes(&zeros),
            amount: total,
        };
        let eff = Effects::auth(&client).with_transfer(deposit(&token_address, &client, total)).with_event(
            event,
        );
        assert(zeros@ =~= zero_hash());
        let job = Job {
            client: client.duplicate(),
            freelancer: None,
            amount: total,
            description_hash: zeros,
            status: JobStatus::Open,
            created_at: now as u64,
            deadline,
            token: token_address,
            revision_count: 0,
            submitted_at: 0,
            title,
            category,
        };
        self.jobs.set(job_id, job);
        self.record_client_job(&client, job_id);
        assert(eff@.transfers =~= seq![deposit_view(token_address@, client@, total)]);
        assert(eff@.events =~= seq![event@]);
        Ok((job_id, eff))
    }

    /// The job stored under `job_id`.
    pub fn get_job(&self, job_id: u64) -> (r: Result<Job, Error>)
        ensures
            match r {
                Ok(job) => self@.jobs.contains_key(job_id) && job@ == self@.jobs[job_id],
                Err(e) => !self@.jobs.contains_key(job_id) && e == Error::JobNotFound,
            },
    {
        match self.jobs.get(&job_id) {
            Some(job) => Ok(job.duplicate()),
            None => Err(Error::JobNotFound),
        }
    }

    /// Stores `job` under `job_id`.
    fn put_job(&mut self, job_id: u64, job: Job)
        ensures
            final(self)@ == old(self)@.with_job(job_id, job@),
    {
        self.jobs.set(job_id, job);
    }

    /// Accepts job `job_id` for `freelancer` at ledger `now`.
    pub fn accept_job(&mut self, freelancer: &Address, job_id: u64, now: u32) -> (r: Result<
        Effects,
        Error,
    >)
        ensures
            match r {
                Ok(eff) => old(self)@.accept_job_error(freelancer@, job_id) is None && final(self)@
                    == old(self)@.accepted(freelancer@, job_id, now) && eff@ == event_effects(
                    seq![freelancer@],
                    seq![
                        EscrowEventView::JobAccepted {
                            job_id,
                            client: old(self)@.jobs[job_id].client,
                            freelancer: freelancer@,
                            amount: old(self)@.jobs[job_id].amount,
                        },
                    ],
                ),
                Err(e) => old(self)@.accept_job_error(freelancer@, job_id) == Some(e) && final(self)@ == old(self)@,
            },
    {
        self.check_access(freelancer)?;
        let mut job = self.get_job(job_id)?;
        if job.status != JobStatus::Open {
            return Err(Error::JobNotOpen);
        }
        if job.freelancer.is_some() {
            return Err(Error::AlreadyAccepted);
        }
        let event = EscrowEvent::JobAccepted {
            job_id,
            client: job.client.duplicate(),
            freelancer: freelancer.duplicate(),
            amount: job.amount,
        };
        job.freelancer = Some(freelancer.duplicate());
        job.status = JobStatus::InProgress;
        self.put_job(job_id, job);
        if self.sla_configs.contains(&job_id) {
            self.sla_accepted_at.set(job_id, now as u64);
        }
        self.record_freelancer_job(freelancer, job_id);
        Ok(Self::announce(Effects::auth(freelancer), event))
    }

    /// The ledger at which job `job_id` was accepted under an SLA, or 0.
    fn accepted_at(&self, job_id: u64) -> (r: u64)
        ensures
            r == self@.accepted_at(job_id),
    {
        match self.sla_accepted_at.get(&job_id) {
            Some(t) => *t,
            None => 0,
        }
    }

    /// Submits `freelancer`'s work on job `job_id` at ledger `now`; delivery
    /// after the SLA's delivery time marks the penalty and announces the breach.
    pub fn submit_work(&mut self, freelancer: &Address, job_id: u64, now: u32) -> (r: Result<
        Effects,
        Error,
    >)
        ensures
            match r {
                Ok(eff) => old(self)@.submit_work_error(freelancer@, job_id) is None && final(self)@ == old(self)@.submitted(job_id, now) && eff@ == (EffectsView {
                    auths: seq![freelancer@],
                    transfers: Seq::empty(),
                    events: seq![
                        EscrowEventView::WorkSubmitted {
                            job_id,
                            client: old(self)@.jobs[job_id].client,
                            freelancer: freelancer@,
                            amount: old(self)@.jobs[job_id].amount,
                        },
                    ] + if old(self)@.breaches_sla(job_id, now) {
                        seq![EscrowEventView::SlaBreached { job_id, freelancer: freelancer@ }]
                    } else {
                        Seq::empty()
                    },
                }),
                Err(e) => old(self)@.submit_work_error(freelancer@, job_id) == Some(e) && final(self)@ == old(self)@,
            },
    {
        self.check_access(freelancer)?;
        let mut job = self.get_job(job_id)?;
        if job.status != JobStatus::InProgress {
            return Err(Error::JobNotInProgress);
        }
        let assigned = match &job.freelancer {
            Some(f) => f.same(freelancer),
            None => false,
        };
        if !assigned {
            return Err(Error::NotAuthorized);
        }
        let mut breached = false;
        match self.sla_configs.get(&job_id) {
            Some(cfg) => {
                let accepted = self.accepted_at(job_id);
                match accepted.checked_add(cfg.delivery_time_ledgers) {
                    Some(due) => {
                        breached = now as u64 > due;
                    },
                    None => {
                        return Err(Error::ArithmeticOverflow);
                    },
                }
            },
            None => {},
        }
        assert(breached == old(self)@.breaches_sla(job_id, now));
        let submitted = EscrowEvent::WorkSubmitted {
            job_id,
            client: job.client.duplicate(),
            freelancer: freelancer.duplicate(),
            amount: job.amount,
        };
        job.status = JobStatus::SubmittedForReview;
        job.submitted_at = now as u64;
        self.put_job(job_id, job);
        let mut eff = Self::announce(Effects::auth(freelancer), submitted);
        let ghost first = eff@.events;
        if breached {
            self.sla_penalty_applied.set(job_id, true);
            eff = eff.with_event(EscrowEvent::SlaBreached { job_id, freelancer: freelancer.duplicate() });
            assert(eff@.events =~= first + seq![EscrowEventView::SlaBreached { job_id, freelancer: freelancer@ }]);
        } else {
            assert(eff@.events =~= first + Seq::<EscrowEventView>::empty());
        }
        Ok(eff)
    }

    /// Marks job `job_id` cancelled and refunds its amount to `to`.
    fn cancel_and_refund(&mut self, job_id: u64, job: Job, to: &Address, eff: Effects) -> (r: Effects)
        requires
            old(self)@.jobs.contains_key(job_id),
            job@ == old(self)@.jobs[job_id],
        ensures
            final(self)@ == old(self)@.with_status(job_id, JobStatus::Cancelled),
            r@ == (EffectsView {
                auths: eff@.auths,
                transfers: eff@.transfers.push(payout_view(job@.token, to@, job@.amount)),
                events: eff@.events.push(cancelled_event(job_id, job@)),
            }),
    {
        let t = payout(&job.token, to, job.amount);
        let event = cancelled(job_id, &job);
        let mut job = job;
        job.status = JobStatus::Cancelled;
        self.put_job(job_id, job);
        eff.with_transfer(t).with_event(event)
    }

    /// The client cancels open job `job_id`; its amount goes back to the client.
    pub fn cancel_job(&mut self, client: &Address, job_id: u64) -> (r: Result<Effects, Error>)
        ensures
            match r {
                Ok(eff) => old(self)@.cancel_job_error(client@, job_id) is None && final(self)@
                    == old(self)@.with_status(job_id, JobStatus::Cancelled) && eff@
                    == settle_effects(
                    seq![client@],
                    payout_view(old(self)@.jobs[job_id].token, client@, old(self)@.jobs[job_id].amount),
                    cancelled_event(job_id, old(self)@.jobs[job_id]),
                ),
                Err(e) => old(self)@.cancel_job_error(client@, job_id) == Some(e) && final(self)@
                    == old(self)@,
            },
    {
        self.check_access(client)?;
        let job = self.get_job(job_id)?;
        if !job.client.same(client) {
            return Err(Error::NotAuthorized);
        }
        if job.status != JobStatus::Open {
            return Err(Error::JobNotOpen);
        }
        let eff = self.cancel_and_refund(job_id, job, client, Effects::auth(client));
        assert(eff@.transfers =~= seq![payout_view(old(self)@.jobs[job_id].token, client@, old(self)@.jobs[job_id].amount)]);
        assert(eff@.events =~= seq![cancelled_event(job_id, old(self)@.jobs[job_id])]);
        Ok(eff)
    }

    /// The client cancels open job `job_id` as `cancel_job` does.
    pub fn cancel_with_rebate(&mut self, client: &Address, job_id: u64) -> (r: Result<
        Effects,
        Error,
    >)
        ensures
            match r {
                Ok(eff) => old(self)@.cancel_job_error(client@, job_id) is None && final(self)@
                    == old(self)@.with_status(job_id, JobStatus::Cancelled) && eff@
                    == settle_effects(
                    seq![client@],
                    payout_view(old(self)@.jobs[job_id].token, client@, old(self)@.jobs[job_id].amount),
                    cancelled_event(job_id, old(self)@.jobs[job_id]),
                ),
                Err(e) => old(self)@.cancel_job_error(client@, job_id) == Some(e) && final(self)@
                    == old(self)@,
            },
    {
        self.cancel_job(client, job_id)
    }

    /// The assigned freelancer gives up job `job_id`, in progress; its amount goes back to the client.
    pub fn freelancer_cancel_job(&mut self, freelancer: &Address, job_id: u64) -> (r: Result<
        Effects,
        Error,
    >)
        ensures
            match r {
                Ok(eff) => old(self)@.freelancer_cancel_error(freelancer@, job_id) is None && final(self)@ == old(self)@.with_status(job_id, JobStatus::Cancelled) && eff@
                    == settle_effects(
                    seq![freelancer@],
                    payout_view(
                        old(self)@.jobs[job_id].token,
                        old(self)@.jobs[job_id].client,
                        old(self)@.jobs[job_id].amount,
                    ),
                    cancelled_event(job_id, old(self)@.jobs[job_id]),
                ),
                Err(e) => old(self)@.freelancer_cancel_error(freelancer@, job_id) == Some(e)
                    && final(self)@ == old(self)@,
            },
    {
        self.check_access(freelancer)?;
        let job = self.get_job(job_id)?;
        let assigned = match &job.freelancer {
            Some(f) => f.same(freelancer),
            None => false,
        };
        if !assigned {
            return Err(Error::NotAuthorized);
        }
        if job.status != JobStatus::InProgress {
            return Err(Error::JobNotInProgress);
        }
        let client = job.client.duplicate();
        let eff = self.cancel_and_refund(job_id, job, &client, Effects::auth(freelancer));
        assert(eff@.transfers =~= seq![payout_view(old(self)@.jobs[job_id].token, old(self)@.jobs[job_id].client, old(self)@.jobs[job_id].amount)]);
        assert(eff@.events =~= seq![cancelled_event(job_id, old(self)@.jobs[job_id])]);
        Ok(eff)
    }

    /// A trusted forwarder cancels open job `job_id` on behalf of its client.
    pub fn relay_cancel_job(
        &mut self,
        forwarder: &Address,
        client: &Address,
        job_id: u64,
    ) -> (r: Result<Effects, Error>)
        ensures
            match r {
                Ok(eff) => old(self)@.relay_cancel_error(forwarder@, client@, job_id) is None
                    && final(self)@ == old(self)@.with_status(job_id, JobStatus::Cancelled) && eff@
                    == settle_effects(
                    seq![forwarder@],
                    payout_view(old(self)@.jobs[job_id].token, client@, old(self)@.jobs[job_id].amount),
                    cancelled_event(job_id, old(self)@.jobs[job_id]),
                ),
                Err(e) => old(self)@.relay_cancel_error(forwarder@, client@, job_id) == Some(e)
                    && final(self)@ == old(self)@,
            },
    {
        self.check_access(forwarder)?;
        if !self.is_trusted_forwarder(forwarder) {
            return Err(Error::NotTrustedForwarder);
        }
        let job = self.get_job(job_id)?;
        if !job.client.same(client) {
            return Err(Error::NotAuthorized);
        }
        if job.status != JobStatus::Open {
            return Err(Error::JobNotOpen);
        }
        let eff = self.cancel_and_refund(job_id, job, client, Effects::auth(forwarder));
        assert(eff@.transfers =~= seq![payout_view(old(self)@.jobs[job_id].token, client@, old(self)@.jobs[job_id].amount)]);
        assert(eff@.events =~= seq![cancelled_event(job_id, old(self)@.jobs[job_id])]);
        Ok(eff)
    }

    /// Whether `caller` is the client or the freelancer of `job`.
    fn is_party(job: &Job, caller: &Address) -> (r: bool)
        ensures
            r == (job@.client == caller@ || assigned_to(job@, caller@)),
    {
        if job.client.same(caller) {
            return true;
        }
        match &job.freelancer {
            Some(f) => f.same(caller),
            None => false,
        }
    }

    /// After its deadline has passed, either party cancels job `job_id`, open or
    /// in progress; its amount goes back to the client.
    pub fn enforce_deadline(&mut self, caller: &Address, job_id: u64, now: u32) -> (r: Result<
        Effects,
        Error,
    >)
        ensures
            match r {
                Ok(eff) => old(self)@.enforce_deadline_error(caller@, job_id, now) is None && final(self)@ == old(self)@.with_status(job_id, JobStatus::Cancelled) && eff@
                    == settle_effects(
                    seq![caller@],
                    payout_view(
                        old(self)@.jobs[job_id].token,
                        old(self)@.jobs[job_id].client,
                        old(self)@.jobs[job_id].amount,
                    ),
                    cancelled_event(job_id, old(self)@.jobs[job_id]),
                ),
                Err(e) => old(self)@.enforce_deadline_error(caller@, job_id, now) == Some(e)
                    && final(self)@ == old(self)@,
            },
    {
        self.check_access(caller)?;
        let job = self.get_job(job_id)?;
        if !Self::is_party(&job, caller) {
            return Err(Error::NotAuthorized);
        }
        if job.status != JobStatus::Open && job.status != JobStatus::InProgress {
            return Err(Error::JobNotActive);
        }
        if now as u64 <= job.deadline {
            return Err(Error::DeadlineNotPassed);
        }
        let client = job.client.duplicate();
        let eff = self.cancel_and_refund(job_id, job, &client, Effects::auth(caller));
        assert(eff@.transfers =~= seq![payout_view(old(self)@.jobs[job_id].token, old(self)@.jobs[job_id].client, old(self)@.jobs[job_id].amount)]);
        assert(eff@.events =~= seq![cancelled_event(job_id, old(self)@.jobs[job_id])]);
        Ok(eff)
    }

    /// Either party puts job `job_id`, in progress or submitted, into dispute,
    /// paying in the dispute fee (2.5% of the job's amount, in the job's token),
    /// which is collected.
    pub fn raise_dispute(&mut self, caller: &Address, job_id: u64) -> (r: Result<Effects, Error>)
        ensures
            match r {
                Ok(eff) => old(self)@.raise_dispute_error(caller@, job_id) is None && final(self)@
                    == old(self)@.disputed(job_id) && eff@ == settle_effects(
                    seq![caller@],
                    deposit_view(old(self)@.jobs[job_id].token, caller@, old(self)@.dispute_fee(job_id)),
                    EscrowEventView::DisputeRaised {
                        job_id,
                        client: old(self)@.jobs[job_id].client,
                        freelancer: old(self)@.jobs[job_id].freelancer,
                        amount: old(self)@.jobs[job_id].amount,
                    },
                ),
                Err(e) => old(self)@.raise_dispute_error(caller@, job_id) == Some(e) && final(self)@ == old(self)@,
            },
    {
        self.check_access(caller)?;
        let mut job = self.get_job(job_id)?;
        if !Self::is_party(&job, caller) {
            return Err(Error::NotAuthorized);
        }
        if job.status != JobStatus::InProgress && job.status != JobStatus::SubmittedForReview {
            return Err(Error::JobNotActive);
        }
        let fee = match checked_bps_share(job.amount, PLATFORM_FEE_BPS) {
            Some(f) => f,
            None => {
                return Err(Error::ArithmeticOverflow);
            },
        };
        let fees_after = match self.fees.total_collected.checked_add(fee) {
            Some(x) => x,
            None => {
                return Err(Error::ArithmeticOverflow);
            },
        };
        self.fees.total_collected = fees_after;
        let event = EscrowEvent::DisputeRaised {
            job_id,
            client: job.client.duplicate(),
            freelancer: copy_opt_address(&job.freelancer),
            amount: job.amount,
        };
        let eff = Effects::auth(caller).with_transfer(deposit(&job.token, caller, fee)).with_event(event);
        job.status = JobStatus::Disputed;
        self.put_job(job_id, job);
        assert(eff@.transfers =~= seq![deposit_view(old(self)@.jobs[job_id].token, caller@, fee)]);
        assert(eff@.events =~= seq![event@]);
        Ok(eff)
    }

    /// The number of jobs `user` has completed as a freelancer.
    pub fn get_user_completed_jobs(&self, user: &Address) -> (r: u32)
        ensures
            r == self@.completed_by(user@),
    {
        match self.user_completed_jobs.get(user) {
            Some(n) => *n,
            None => 0,
        }
    }

    /// The fee, in basis points, charged on work that `user` delivers.
    pub fn calculate_effective_fee_bps(&self, user: &Address) -> (r: u32)
        ensures
            r == self@.effective_fee_bps(user@),
    {
        let base_fee: u32 = PLATFORM_FEE_BPS as u32;
        let completed_jobs = self.get_user_completed_jobs(user);
        let discount_bps = discount_for(&self.discount_tiers, completed_jobs);
        if discount_bps <= base_fee {
            base_fee - discount_bps
        } else {
            0
        }
    }

    /// Whether the SLA penalty has been applied to job `job_id`.
    fn penalty_applied(&self, job_id: u64) -> (r: bool)
        ensures
            r == self@.penalty_applied(job_id),
    {
        match self.sla_penalty_applied.get(&job_id) {
            Some(b) => *b,
            None => false,
        }
    }

    /// How approving job `job_id`, delivered by `freelancer`, divides its amount.
    fn settle_approval(&self, job_id: u64, amount: i128, freelancer: &Address) -> (r: Option<
        (i128, i128),
    >)
        requires
            self@.jobs.contains_key(job_id),
            amount == self@.jobs[job_id].amount,
        ensures
            match (r, self@.approval_settlement(job_id, freelancer@)) {
                (Some((fee, payout)), Some(st)) => fee == st.fee && payout == st.payout,
                (None, None) => true,
                _ => false,
            },
    {
        let fee_bps = self.calculate_effective_fee_bps(freelancer);
        let base_fee = checked_bps_share(amount, fee_bps as u64)?;
        let mut sla_penalty: i128 = 0;
        if self.penalty_applied(job_id) {
            match self.sla_configs.get(&job_id) {
                Some(cfg) => {
                    sla_penalty = checked_bps_share(amount, cfg.penalty_bps)?;
                },
                None => {},
            }
        }
        let total_deduction = base_fee.checked_add(sla_penalty)?;
        let payout = amount.checked_sub(total_deduction)?;
        Some((base_fee, payout))
    }

    /// The client approves the submitted work on job `job_id`: the freelancer
    /// is paid the amount less the platform fee and any SLA penalty, the fee is
    /// collected and the job is completed.
    pub fn approve_work(&mut self, client: &Address, job_id: u64) -> (r: Result<Effects, Error>)
        ensures
            match r {
                Ok(eff) => {
                    &&& old(self)@.approve_work_error(client@, job_id) is None
                    &&& old(self)@.jobs[job_id].freelancer matches Some(f)
                    &&& old(self)@.approval_settlement(job_id, f) matches Some(st)
                    &&& final(self)@ == old(self)@.approved(job_id, st)
                    &&& eff@ == settle_effects(
                        seq![client@],
                        payout_view(old(self)@.jobs[job_id].token, f, st.payout),
                        EscrowEventView::WorkApproved {
                            job_id,
                            client: old(self)@.jobs[job_id].client,
                            freelancer: f,
                            amount: old(self)@.jobs[job_id].amount,
                        },
                    )
                },
                Err(e) => old(self)@.approve_work_error(client@, job_id) == Some(e) && final(self)@
                    == old(self)@,
            },
    {
        self.check_access(client)?;
        let mut job = self.get_job(job_id)?;
        if !job.client.same(client) {
            return Err(Error::NotAuthorized);
        }
        if job.status != JobStatus::SubmittedForReview {
            return Err(Error::JobNotSubmitted);
        }
        let freelancer = match &job.freelancer {
            Some(f) => f.duplicate(),
            None => {
                return Err(Error::FreelancerMissing);
            },
        };
        let (base_fee, payout_amount) = match self.settle_approval(job_id, job.amount, &freelancer) {
            Some(x) => x,
            None => {
                return Err(Error::ArithmeticOverflow);
            },
        };
        let fees_after = match self.fees.total_collected.checked_add(base_fee) {
            Some(x) => x,
            None => {
                return Err(Error::ArithmeticOverflow);
            },
        };
        if self.completed_jobs_count == u64::MAX {
            return Err(Error::ArithmeticOverflow);
        }
        let user_count = self.get_user_completed_jobs(&freelancer);
        if user_count == u32::MAX {
            return Err(Error::ArithmeticOverflow);
        }
        self.fees.total_collected = fees_after;
        let event = EscrowEvent::WorkApproved {
            job_id,
            client: job.client.duplicate(),
            freelancer: freelancer.duplicate(),
            amount: job.amount,
        };
        let eff = Effects::auth(client).with_transfer(payout(&job.token, &freelancer, payout_amount)).with_event(
            event,
        );
        job.status = JobStatus::Completed;
        self.put_job(job_id, job);
        self.completed_jobs_count = self.completed_jobs_count + 1;
        self.user_completed_jobs.set(freelancer, user_count + 1);
        assert(eff@.transfers =~= seq![payout_view(old(self)@.jobs[job_id].token, old(self)@.jobs[job_id].freelancer.unwrap(), payout_amount)]);
        assert(eff@.events =~= seq![event@]);
        Ok(eff)
    }

    /// The administrator settles disputed job `job_id` in favour of `winner`,
    /// who is paid the amount less the platform fee, which is collected; the
    /// job is completed.
    pub fn resolve_dispute(&mut self, admin: &Address, job_id: u64, winner: &Address) -> (r: Result<
        Effects,
        Error,
    >)
        ensures
            match r {
                Ok(eff) => {
                    &&& old(self)@.resolve_dispute_error(job_id) is None
                    &&& old(self)@.admin matches Some(a)
                    &&& final(self)@ == (EscrowView {
                        fees: (old(self)@.fees + old(self)@.dispute_fee(job_id)) as i128,
                        ..old(self)@.with_status(job_id, JobStatus::Completed)
                    })
                    &&& eff@ == settle_effects(
                        seq![admin@, a],
                        payout_view(
                            old(self)@.jobs[job_id].token,
                            winner@,
                            (old(self)@.jobs[job_id].amount - old(self)@.dispute_fee(job_id)) as i128,
                        ),
                        old(self)@.resolution_event(job_id, winner@),
                    )
                },
                Err(e) => old(self)@.resolve_dispute_error(job_id) == Some(e) && final(self)@ == old(
                    self,
                )@,
            },
    {
        let eff = self.admin_effects(admin)?;
        let mut job = self.get_job(job_id)?;
        if job.status != JobStatus::Disputed {
            return Err(Error::JobNotDisputed);
        }
        let fee = match checked_bps_share(job.amount, PLATFORM_FEE_BPS) {
            Some(f) => f,
            None => {
                return Err(Error::ArithmeticOverflow);
            },
        };
        assert(-(job.amount as int) <= fee <= job.amount || job.amount <= fee <= -(job.amount as int)) by (nonlinear_arith)
            requires
                fee == bps_share(job.amount as int, 250),
        ;
        let payout_amount = job.amount - fee;
        let fees_after = match self.fees.total_collected.checked_add(fee) {
            Some(x) => x,
            None => {
                return Err(Error::ArithmeticOverflow);
            },
        };
        self.fees.total_collected = fees_after;
        let client_bps: u32 = if job.client.same(winner) {
            10_000
        } else {
            0
        };
        let freelancer_bps: u32 = match &job.freelancer {
            Some(f) => if f.same(winner) {
                10_000
            } else {
                0
            },
            None => 0,
        };
        let event = EscrowEvent::DisputeResolved {
            job_id,
            client: job.client.duplicate(),
            freelancer: copy_opt_address(&job.freelancer),
            amount: job.amount,
            client_bps,
            freelancer_bps,
        };
        let eff = eff.with_transfer(payout(&job.token, winner, payout_amount)).with_event(event);
        job.status = JobStatus::Completed;
        self.put_job(job_id, job);
        assert(eff@.transfers =~= seq![payout_view(old(self)@.jobs[job_id].token, winner@, payout_amount)]);
        assert(eff@.events =~= seq![event@]);
        Ok(eff)
    }

    /// Until when job `job_id` can be cancelled with a rebate, and whether at ledger `now` it still can.
    pub fn get_cancellation_rebate_info(&self, job_id: u64, now: u32) -> (r: Result<
        CancellationRebateInfo,
        Error,
    >)
        ensures
            match r {
                Ok(info) => self@.rebate_info_error(job_id) is None && info == self@.rebate_info(
                    job_id,
                    now,
                ),
                Err(e) => self@.rebate_info_error(job_id) == Some(e),
            },
    {
        let job = match self.jobs.get(&job_id) {
            Some(j) => j,
            None => {
                return Err(Error::JobNotFound);
            },
        };
        let grace_deadline = match job.created_at.checked_add(CANCELLATION_GRACE_PERIOD) {
            Some(g) => g,
            None => {
                return Err(Error::ArithmeticOverflow);
            },
        };
        let is_eligible = now as u64 <= grace_deadline && job.status == JobStatus::Open;
        Ok(CancellationRebateInfo { grace_deadline, is_eligible })
    }

    /// The client releases milestone `milestone_id` of job `job_id`, in progress
    /// or submitted: the freelancer is paid its amount less the platform fee,
    /// which is collected.
    pub fn approve_milestone(&mut self, client: &Address, job_id: u64, milestone_id: u32) -> (r:
        Result<Effects, Error>)
        ensures
            match r {
                Ok(eff) => {
                    &&& old(self)@.approve_milestone_error(client@, job_id, milestone_id) is None
                    &&& final(self)@ == old(self)@.milestone_released(job_id, milestone_id)
                    &&& eff@.auths == seq![client@]
                    &&& eff@.events == seq![
                        EscrowEventView::MilestoneApproved { job_id, milestone_id, client: client@ },
                    ]
                    &&& eff@.transfers == match old(self)@.jobs[job_id].freelancer {
                        Some(f) => seq![
                            payout_view(
                                old(self)@.jobs[job_id].token,
                                f,
                                (old(self)@.milestones[(job_id, milestone_id)].amount - old(
                                    self,
                                )@.milestone_fee(job_id, milestone_id)) as i128,
                            ),
                        ],
                        None => Seq::empty(),
                    }
                },
                Err(e) => old(self)@.approve_milestone_error(client@, job_id, milestone_id) == Some(
                    e,
                ) && final(self)@ == old(self)@,
            },
    {
        self.check_access(client)?;
        let job = self.get_job(job_id)?;
        if !job.client.same(client) {
            return Err(Error::NotAuthorized);
        }
        if job.status != JobStatus::InProgress && job.status != JobStatus::SubmittedForReview {
            return Err(Error::JobNotActive);
        }
        let mut ms = match self.milestones.get(&(job_id, milestone_id)) {
            Some(m) => m.duplicate(),
            None => {
                return Err(Error::MilestoneNotFound);
            },
        };
        if ms.is_released {
            return Err(Error::MilestoneAlreadyReleased);
        }
        let fee = match checked_bps_share(ms.amount, PLATFORM_FEE_BPS) {
            Some(f) => f,
            None => {
                return Err(Error::ArithmeticOverflow);
            },
        };
        assert(-(ms.amount as int) <= fee <= ms.amount || ms.amount <= fee <= -(ms.amount as int)) by (nonlinear_arith)
            requires
                fee == bps_share(ms.amount as int, 250),
        ;
        let payout_amount = ms.amount - fee;
        let fees_after = match self.fees.total_collected.checked_add(fee) {
            Some(x) => x,
            None => {
                return Err(Error::ArithmeticOverflow);
            },
        };
        ms.is_released = true;
        self.milestones.set((job_id, milestone_id), ms);
        self.fees.total_collected = fees_after;
        let mut eff = Effects::auth(client);
        match &job.freelancer {
            Some(f) => {
                eff = eff.with_transfer(payout(&job.token, f, payout_amount));
                assert(eff@.transfers =~= seq![payout_view(job@.token, f@, payout_amount)]);
            },
            None => {},
        }
        let eff = eff.with_event(
            EscrowEvent::MilestoneApproved { job_id, milestone_id, client: client.duplicate() },
        );
        assert(eff@.events =~= seq![
            EscrowEventView::MilestoneApproved { job_id, milestone_id, client: client@ },
        ]);
        Ok(eff)
    }

    /// Releases a milestone as `approve_milestone` does.
    pub fn complete_milestone(&mut self, client: &Address, job_id: u64, milestone_id: u32) -> (r:
        Result<Effects, Error>)
        ensures
            match r {
                Ok(eff) => {
                    &&& old(self)@.approve_milestone_error(client@, job_id, milestone_id) is None
                    &&& final(self)@ == old(self)@.milestone_released(job_id, milestone_id)
                    &&& eff@.auths == seq![client@]
                    &&& eff@.events == seq![
                        EscrowEventView::MilestoneApproved { job_id, milestone_id, client: client@ },
                    ]
                    &&& eff@.transfers == match old(self)@.jobs[job_id].freelancer {
                        Some(f) => seq![
                            payout_view(
                                old(self)@.jobs[job_id].token,
                                f,
                                (old(self)@.milestones[(job_id, milestone_id)].amount - old(
                                    self,
                                )@.milestone_fee(job_id, milestone_id)) as i128,
                            ),
                        ],
                        None => Seq::empty(),
                    }
                },
                Err(e) => old(self)@.approve_milestone_error(client@, job_id, milestone_id) == Some(
                    e,
                ) && final(self)@ == old(self)@,
            },
    {
        self.approve_milestone(client, job_id, milestone_id)
    }

    /// The milestones of job `job_id`, in order.
    pub fn get_milestones(&self, job_id: u64) -> (r: Result<Vec<Milestone>, Error>)
        ensures
            match r {
                Ok(ms) => self@.milestone_list(job_id) == Ok::<Seq<MilestoneView>, Error>(
                    ms@.map_values(|m: Milestone| m@),
                ),
                Err(e) => self@.milestone_list(job_id) == Err::<Seq<MilestoneView>, Error>(e),
            },
    {
        let count: u32 = match self.milestone_counts.get(&job_id) {
            Some(c) => *c,
            None => 0,
        };
        let mut result: Vec<Milestone> = Vec::new();
        for i in 0..count
            invariant
                count == (if self@.milestone_counts.contains_key(job_id) {
                    self@.milestone_counts[job_id]
                } else {
                    0
                }),
                result@.len() == i,
                forall|j: u32| j < i ==> #[trigger] self@.milestones.contains_key((job_id, j)),
                forall|j: int|
                    0 <= j < i ==> result@[j]@ == #[trigger] self@.milestones[(job_id, j as u32)],
        {
            match self.milestones.get(&(job_id, i)) {
                Some(m) => {
                    result.push(m.duplicate());
                },
                None => {
                    return Err(Error::MilestoneNotFound);
                },
            }
        }
        assert(result@.map_values(|m: Milestone| m@) =~= Seq::new(
            count as nat,
            |j: int| self@.milestones[(job_id, j as u32)],
        ));
        Ok(result)
    }

    /// The number of jobs counted so far.
    pub fn get_job_count(&self) -> (r: u64)
        ensures
            r == self@.job_count,
    {
        self.job_count
    }

    /// The number of jobs approved so far.
    pub fn get_completed_jobs_count(&self) -> (r: u64)
        ensures
            r == self@.completed_jobs_count,
    {
        self.completed_jobs_count
    }

    /// The ids of the jobs `freelancer` has accepted, in order.
    pub fn get_freelancer_jobs(&self, freelancer: &Address) -> (r: Vec<u64>)
        ensures
            r@ == list_of(self@.freelancer_jobs, freelancer@),
    {
        match self.freelancer_jobs.get(freelancer) {
            Some(l) => copy_ids(l),
            None => Vec::new(),
        }
    }

    /// The ids of the jobs `client` has posted, in order.
    pub fn get_client_jobs(&self, client: &Address) -> (r: Vec<u64>)
        ensures
            r@ == list_of(self@.client_jobs, client@),
    {
        match self.client_jobs.get(client) {
            Some(l) => copy_ids(l),
            None => Vec::new(),
        }
    }

    /// The platform fees collected and not yet withdrawn.
    pub fn get_fees(&self) -> (r: i128)
        ensures
            r == self@.fees,
    {
        self.fees.total_collected
    }

    /// The service-level status of job `job_id` at ledger `now`.
    pub fn get_sla_status(&self, job_id: u64, now: u32) -> (r: Result<SLAStatus, Error>)
        ensures
            r == self@.sla_status(job_id, now),
    {
        let has_config = self.sla_configs.contains(&job_id);
        let cfg = match self.sla_configs.get(&job_id) {
            Some(c) => *c,
            None => SLAConfig {
                response_time_ledgers: 0,
                delivery_time_ledgers: 0,
                penalty_bps: 0,
                auto_escalate: false,
            },
        };
        let accepted_at = self.accepted_at(job_id);
        let breached = if accepted_at > 0 && cfg.delivery_time_ledgers > 0 {
            match accepted_at.checked_add(cfg.delivery_time_ledgers) {
                Some(due) => now as u64 > due,
                None => {
                    return Err(Error::ArithmeticOverflow);
                },
            }
        } else {
            false
        };
        Ok(
            SLAStatus {
                has_config,
                response_time_ledgers: cfg.response_time_ledgers,
                delivery_time_ledgers: cfg.delivery_time_ledgers,
                penalty_bps: cfg.penalty_bps,
                auto_escalate: cfg.auto_escalate,
                accepted_at,
                breached,
                penalty_applied: self.penalty_applied(job_id),
            },
        )
    }

    /// The administrator withdraws `amount` of the collected fees in `token_addr`.
    pub fn withdraw_fees(&mut self, admin: &Address, amount: i128, token_addr: &Address) -> (r:
        Result<Effects, Error>)
        ensures
            match r {
                Ok(eff) => {
                    &&& old(self)@.admin matches Some(a)
                    &&& amount <= old(self)@.fees
                    &&& fits_i128(old(self)@.fees - amount)
                    &&& final(self)@ == (EscrowView {
                        fees: (old(self)@.fees - amount) as i128,
                        ..old(self)@
                    })
                    &&& eff@ == settle_effects(
                        seq![admin@, a],
                        payout_view(token_addr@, admin@, amount),
                        EscrowEventView::FeesWithdrawn { admin: admin@, token: token_addr@, amount },
                    )
                },
                Err(e) => final(self)@ == old(self)@ && (if old(self)@.admin is None {
                    e == Error::NotInitialized
                } else if amount > old(self)@.fees {
                    e == Error::InsufficientFees
                } else {
                    !fits_i128(old(self)@.fees - amount) && e == Error::ArithmeticOverflow
                }),
            },
    {
        let eff = self.admin_effects(admin)?;
        if amount > self.fees.total_collected {
            return Err(Error::InsufficientFees);
        }
        let fees_after = match self.fees.total_collected.checked_sub(amount) {
            Some(x) => x,
            None => {
                return Err(Error::ArithmeticOverflow);
            },
        };
        self.fees.total_collected = fees_after;
        let event = EscrowEvent::FeesWithdrawn {
            admin: admin.duplicate(),
            token: token_addr.duplicate(),
            amount,
        };
        let eff = eff.with_transfer(payout(token_addr, admin, amount)).with_event(event);
        assert(eff@.transfers =~= seq![payout_view(token_addr@, admin@, amount)]);
        assert(eff@.events =~= seq![event@]);
        Ok(eff)
    }

    /// The per-status counts of the jobs with ids 1 to the job count.
    pub fn get_job_status_counts(&self) -> (r: JobStatusCounts)
        ensures
            r == status_counts(self@.jobs, self@.job_count as nat),
    {
        let count = self.job_count;
        let mut open: u64 = 0;
        let mut in_progress: u64 = 0;
        let mut submitted_for_review: u64 = 0;
        let mut completed: u64 = 0;
        let mut cancelled: u64 = 0;
        let mut disputed: u64 = 0;
        let mut i: u64 = 0;
        while i < count
            invariant
                i <= count,
                count == self@.job_count,
                open == status_count(self@.jobs, i as nat, JobStatus::Open),
                in_progress == status_count(self@.jobs, i as nat, JobStatus::InProgress),
                submitted_for_review == status_count(
                    self@.jobs,
                    i as nat,
                    JobStatus::SubmittedForReview,
                ),
                completed == status_count(self@.jobs, i as nat, JobStatus::Completed),
                cancelled == status_count(self@.jobs, i as nat, JobStatus::Cancelled),
                disputed == status_count(self@.jobs, i as nat, JobStatus::Disputed),
            decreases count - i,
        {
            let id = i + 1;
            proof {
                lemma_counts_partition(self@.jobs, i as nat);
            }
            match self.jobs.get(&id) {
                Some(job) => {
                    match job.status {
                        JobStatus::Open => open += 1,
                        JobStatus::InProgress => in_progress += 1,
                        JobStatus::SubmittedForReview => submitted_for_review += 1,
                        JobStatus::Completed => completed += 1,
                        JobStatus::Cancelled => cancelled += 1,
                        JobStatus::Disputed => disputed += 1,
                    }
                },
                None => {},
            }
            i = id;
        }
        proof {
            lemma_counts_partition(self@.jobs, count as nat);
        }
        let total = open + in_progress + submitted_for_review + completed + cancelled + disputed;
        JobStatusCounts {
            open,
            in_progress,
            submitted_for_review,
            completed,
            cancelled,
            disputed,
            total,
        }
    }

    /// The jobs with ids 1 to the job count, in order of id.
    fn all_jobs(&self) -> (r: Vec<Job>)
        ensures
            r@.map_values(|j: Job| j@) == present_jobs(self@.jobs, self@.job_count as nat),
    {
        let count = self.job_count;
        let mut jobs: Vec<Job> = Vec::new();
        let mut i: u64 = 0;
        while i < count
            invariant
                i <= count,
                count == self@.job_count,
                jobs@.map_values(|j: Job| j@) == present_jobs(self@.jobs, i as nat),
            decreases count - i,
        {
            let id = i + 1;
            let ghost before = jobs@;
            match self.jobs.get(&id) {
                Some(job) => {
                    jobs.push(job.duplicate());
                    assert(jobs@.map_values(|j: Job| j@) =~= before.map_values(|j: Job| j@).push(
                        self@.jobs[id],
                    ));
                },
                None => {},
            }
            i = id;
        }
        jobs
    }

    /// The jobs with ids 1 to the job count whose status is `status`, in order of id.
    fn jobs_by_status(&self, status: JobStatus) -> (r: Vec<Job>)
        ensures
            r@.map_values(|j: Job| j@) == jobs_with_status(
                self@.jobs,
                self@.job_count as nat,
                status,
            ),
    {
        let count = self.job_count;
        let mut jobs: Vec<Job> = Vec::new();
        let mut i: u64 = 0;
        while i < count
            invariant
                i <= count,
                count == self@.job_count,
                jobs@.map_values(|j: Job| j@) == jobs_with_status(self@.jobs, i as nat, status),
            decreases count - i,
        {
            let id = i + 1;
            let ghost before = jobs@;
            match self.jobs.get(&id) {
                Some(job) => {
                    if job.status == status {
                        jobs.push(job.duplicate());
                        assert(jobs@.map_values(|j: Job| j@) =~= before.map_values(|j: Job| j@).push(
                            self@.jobs[id],
                        ));
                    }
                },
                None => {},
            }
            i = id;
        }
        jobs
    }

    /// The administrator lists the jobs with ids 1 to the job count, in order of id.
    pub fn admin_get_all_jobs(&self, admin: &Address) -> (r: Result<(Vec<Job>, Effects), Error>)
        ensures
            match r {
                Ok((jobs, eff)) => self@.admin matches Some(a) && eff@ == auth_effects(
                    seq![admin@, a],
                ) && jobs@.map_values(|j: Job| j@) == present_jobs(self@.jobs, self@.job_count as nat),
                Err(e) => self@.admin is None && e == Error::NotInitialized,
            },
    {
        let eff = self.admin_effects(admin)?;
        Ok((self.all_jobs(), eff))
    }

    /// The administrator reads the job count.
    pub fn admin_get_job_count(&self, admin: &Address) -> (r: Result<(u64, Effects), Error>)
        ensures
            match r {
                Ok((n, eff)) => self@.admin matches Some(a) && eff@ == auth_effects(seq![admin@, a])
                    && n == self@.job_count,
                Err(e) => self@.admin is None && e == Error::NotInitialized,
            },
    {
        let eff = self.admin_effects(admin)?;
        Ok((self.job_count, eff))
    }

    /// The administrator lists the jobs with ids 1 to the job count whose status is `status`.
    pub fn admin_get_jobs_by_status(&self, admin: &Address, status: JobStatus) -> (r: Result<
        (Vec<Job>, Effects),
        Error,
    >)
        ensures
            match r {
                Ok((jobs, eff)) => self@.admin matches Some(a) && eff@ == auth_effects(
                    seq![admin@, a],
                ) && jobs@.map_values(|j: Job| j@) == jobs_with_status(
                    self@.jobs,
                    self@.job_count as nat,
                    status,
                ),
                Err(e) => self@.admin is None && e == Error::NotInitialized,
            },
    {
        let eff = self.admin_effects(admin)?;
        Ok((self.jobs_by_status(status), eff))
    }
}

} // verus!
