//! The values the escrow contract stores and returns.
use vstd::prelude::*;
use crate::address::{Address, Party, PartyView, Transfer, TransferView};
use crate::store::copy_bytes;

verus! {

/// Where a job stands in its lifecycle.
#[derive(Debug, Clone, Copy, PartialEq, Eq, Structural)]
pub enum JobStatus {
    Open,
    InProgress,
    SubmittedForReview,
    Completed,
    Cancelled,
    Disputed,
}

/// An escrowed job.
#[derive(Debug, PartialEq, Eq)]
pub struct Job {
    pub client: Address,
    pub freelancer: Option<Address>,
    pub amount: i128,
    pub description_hash: Vec<u8>,
    pub status: JobStatus,
    pub created_at: u64,
    pub deadline: u64,
    pub token: Address,
    pub revision_count: u32,
    pub submitted_at: u64,
    pub title: Vec<u8>,
    pub category: String,
}

/// The view of a job.
pub struct JobView {
    pub client: Seq<char>,
    pub freelancer: Option<Seq<char>>,
    pub amount: i128,
    pub description_hash: Seq<u8>,
    pub status: JobStatus,
    pub created_at: u64,
    pub deadline: u64,
    pub token: Seq<char>,
    pub revision_count: u32,
    pub submitted_at: u64,
    pub title: Seq<u8>,
    pub category: Seq<char>,
}

/// The view of an optional address.
pub open spec fn opt_view(a: Option<Address>) -> Option<Seq<char>> {
    match a {
        Some(x) => Some(x@),
        None => None,
    }
}

/// A copy of an optional address.
pub fn copy_opt_address(a: &Option<Address>) -> (r: Option<Address>)
    ensures
        opt_view(r) == opt_view(*a),
{
    match a {
        Some(x) => Some(x.duplicate()),
        None => None,
    }
}

impl View for Job {
    type V = JobView;

    open spec fn view(&self) -> JobView {
        JobView {
            client: self.client@,
            freelancer: opt_view(self.freelancer),
            amount: self.amount,
            description_hash: self.description_hash@,
            status: self.status,
            created_at: self.created_at,
            deadline: self.deadline,
            token: self.token@,
            revision_count: self.revision_count,
            submitted_at: self.submitted_at,
            title: self.title@,
            category: self.category@,
        }
    }
}

impl Job {
    /// A copy of this job.
    pub fn duplicate(&self) -> (r: Job)
        ensures
            r@ == self@,
    {
        Job {
            client: self.client.duplicate(),
            freelancer: copy_opt_address(&self.freelancer),
            amount: self.amount,
            description_hash: copy_bytes(&self.description_hash),
            status: self.status,
            created_at: self.created_at,
            deadline: self.deadline,
            token: self.token.duplicate(),
            revision_count: self.revision_count,
            submitted_at: self.submitted_at,
            title: copy_bytes(&self.title),
            category: self.category.clone(),
        }
    }
}

impl Clone for Job {
    fn clone(&self) -> (r: Self)
        ensures
            r@ == self@,
    {
        self.duplicate()
    }
}

/// One stage of a job paid out on its own.
#[derive(Debug, PartialEq, Eq)]
pub struct Milestone {
    pub id: u32,
    pub description_hash: Vec<u8>,
    pub amount: i128,
    pub is_released: bool,
}

/// The view of a milestone.
pub struct MilestoneView {
    pub id: u32,
    pub description_hash: Seq<u8>,
    pub amount: i128,
    pub is_released: bool,
}

impl View for Milestone {
    type V = MilestoneView;

    open spec fn view(&self) -> MilestoneView {
        MilestoneView {
            id: self.id,
            description_hash: self.description_hash@,
            amount: self.amount,
            is_released: self.is_released,
        }
    }
}

impl Milestone {
    /// A copy of this milestone.
    pub fn duplicate(&self) -> (r: Milestone)
        ensures
            r@ == self@,
    {
        Milestone {
            id: self.id,
            description_hash: copy_bytes(&self.description_hash),
            amount: self.amount,
            is_released: self.is_released,
        }
    }
}

impl Clone for Milestone {
    fn clone(&self) -> (r: Self)
        ensures
            r@ == self@,
    {
        self.duplicate()
    }
}

/// Service-level terms attached to a job.
#[derive(Debug, Clone, Copy, PartialEq, Eq, Structural)]
pub struct SLAConfig {
    pub response_time_ledgers: u64,
    pub delivery_time_ledgers: u64,
    pub penalty_bps: u64,
    pub auto_escalate: bool,
}

impl View for SLAConfig {
    type V = SLAConfig;

    open spec fn view(&self) -> SLAConfig {
        *self
    }
}

/// What is known of a job's service-level terms and their keeping.
#[derive(Debug, Clone, Copy, PartialEq, Eq, Structural)]
pub struct SLAStatus {
    pub has_config: bool,
    pub response_time_ledgers: u64,
    pub delivery_time_ledgers: u64,
    pub penalty_bps: u64,
    pub auto_escalate: bool,
    pub accepted_at: u64,
    pub breached: bool,
    pub penalty_applied: bool,
}

/// Until when a job may be cancelled with a rebate, and whether it still may.
#[derive(Debug, Clone, Copy, PartialEq, Eq, Structural)]
pub struct CancellationRebateInfo {
    pub grace_deadline: u64,
    pub is_eligible: bool,
}

/// How many of the counted jobs are in each status.
#[derive(Debug, Clone, Copy, PartialEq, Eq, Structural)]
pub struct JobStatusCounts {
    pub open: u64,
    pub in_progress: u64,
    pub submitted_for_review: u64,
    pub completed: u64,
    pub cancelled: u64,
    pub disputed: u64,
    pub total: u64,
}

/// A fee discount granted from a number of completed jobs on.
#[derive(Debug, Clone, Copy, PartialEq, Eq, Structural)]
pub struct DiscountTier {
    pub min_completed_jobs: u32,
    pub discount_bps: u32,
}

impl View for DiscountTier {
    type V = DiscountTier;

    open spec fn view(&self) -> DiscountTier {
        *self
    }
}

/// The platform fees collected and not yet withdrawn.
#[derive(Debug, Clone, Copy, PartialEq, Eq, Structural)]
pub struct Fees {
    pub total_collected: i128,
}

/// Why the escrow contract refuses a call.
#[derive(Debug, Clone, Copy, PartialEq, Eq, Structural)]
pub enum Error {
    NotAuthorized,
    JobNotFound,
    JobNotOpen,
    JobNotInProgress,
    JobNotSubmitted,
    JobNotActive,
    JobAlreadyCompleted,
    JobAlreadyCancelled,
    AlreadyAccepted,
    InvalidDeadline,
    InvalidAmount,
    AmountMismatch,
    InsufficientBalance,
    TokenNotAllowed,
    AlreadyInitialized,
    NotInitialized,
    DeadlinePassed,
    NotWhitelisted,
    Blacklisted,
    MilestoneNotFound,
    NotTrustedForwarder,
    GracePeriodExpired,
    NotInGracePeriod,
    AlreadyWhitelisted,
    AlreadyBlacklisted,
    WhitelistModeNotEnabled,
    AlreadyTrustedForwarder,
    NegativeAmount,
    DeadlineTooSoon,
    PayloadTooLarge,
    RevisionLimitReached,
    DeadlineNotPassed,
    JobNotDisputed,
    MilestoneAlreadyReleased,
    InsufficientFees,
    FreelancerMissing,
    ArithmeticOverflow,
}

/// Something the escrow contract announces.
#[derive(Debug, Clone, PartialEq, Eq)]
pub enum EscrowEvent {
    /// The contract got its administrator and native token.
    Initialized { admin: Address, native_token: Address },
    /// A job was posted.
    JobPosted { job_id: u64, client: Address, description_hash: Vec<u8>, amount: i128 },
    /// A freelancer accepted a job.
    JobAccepted { job_id: u64, client: Address, freelancer: Address, amount: i128 },
    /// The freelancer submitted the work.
    WorkSubmitted { job_id: u64, client: Address, freelancer: Address, amount: i128 },
    /// The client approved the work.
    WorkApproved { job_id: u64, client: Address, freelancer: Address, amount: i128 },
    /// A job was cancelled and its amount refunded to the client.
    JobCancelled { job_id: u64, client: Address, freelancer: Option<Address>, amount: i128 },
    /// A party put a job into dispute.
    DisputeRaised { job_id: u64, client: Address, freelancer: Option<Address>, amount: i128 },
    /// The administrator settled a dispute; the shares, in basis points, say who won.
    DisputeResolved {
        job_id: u64,
        client: Address,
        freelancer: Option<Address>,
        amount: i128,
        client_bps: u32,
        freelancer_bps: u32,
    },
    /// The client released a milestone.
    MilestoneApproved { job_id: u64, milestone_id: u32, client: Address },
    /// A token joined the allow-list.
    TokenAdded { token: Address },
    /// A token left the allow-list.
    TokenRemoved { token: Address },
    /// The administrator withdrew collected fees.
    FeesWithdrawn { admin: Address, token: Address, amount: i128 },
    /// Whitelist mode was turned on or off.
    WhitelistModeSet { enabled: bool },
    /// An address joined the whitelist.
    WhitelistAdded { address: Address },
    /// An address left the whitelist.
    WhitelistRemoved { address: Address },
    /// An address joined the blacklist.
    BlacklistAdded { address: Address },
    /// An address left the blacklist.
    BlacklistRemoved { address: Address },
    /// A forwarder was trusted to relay cancellations.
    ForwarderSet { forwarder: Address, is_trusted: bool },
    /// The freelancer delivered after the agreed delivery time.
    SlaBreached { job_id: u64, freelancer: Address },
}

/// The view of an escrow event.
pub enum EscrowEventView {
    Initialized { admin: Seq<char>, native_token: Seq<char> },
    JobPosted { job_id: u64, client: Seq<char>, description_hash: Seq<u8>, amount: i128 },
    JobAccepted { job_id: u64, client: Seq<char>, freelancer: Seq<char>, amount: i128 },
    WorkSubmitted { job_id: u64, client: Seq<char>, freelancer: Seq<char>, amount: i128 },
    WorkApproved { job_id: u64, client: Seq<char>, freelancer: Seq<char>, amount: i128 },
    JobCancelled { job_id: u64, client: Seq<char>, freelancer: Option<Seq<char>>, amount: i128 },
    DisputeRaised { job_id: u64, client: Seq<char>, freelancer: Option<Seq<char>>, amount: i128 },
    DisputeResolved {
        job_id: u64,
        client: Seq<char>,
        freelancer: Option<Seq<char>>,
        amount: i128,
        client_bps: u32,
        freelancer_bps: u32,
    },
    MilestoneApproved { job_id: u64, milestone_id: u32, client: Seq<char> },
    TokenAdded { token: Seq<char> },
    TokenRemoved { token: Seq<char> },
    FeesWithdrawn { admin: Seq<char>, token: Seq<char>, amount: i128 },
    WhitelistModeSet { enabled: bool },
    WhitelistAdded { address: Seq<char> },
    WhitelistRemoved { address: Seq<char> },
    BlacklistAdded { address: Seq<char> },
    BlacklistRemoved { address: Seq<char> },
    ForwarderSet { forwarder: Seq<char>, is_trusted: bool },
    SlaBreached { job_id: u64, freelancer: Seq<char> },
}

impl View for EscrowEvent {
    type V = EscrowEventView;

    open spec fn view(&self) -> EscrowEventView {
        match self {
            EscrowEvent::Initialized { admin, native_token } => EscrowEventView::Initialized {
                admin: admin@,
                native_token: native_token@,
            },
            EscrowEvent::JobPosted { job_id, client, description_hash, amount } =>
                EscrowEventView::JobPosted {
                job_id: *job_id,
                client: client@,
                description_hash: description_hash@,
                amount: *amount,
            },
            EscrowEvent::JobAccepted { job_id, client, freelancer, amount } =>
                EscrowEventView::JobAccepted {
                job_id: *job_id,
                client: client@,
                freelancer: freelancer@,
                amount: *amount,
            },
            EscrowEvent::WorkSubmitted { job_id, client, freelancer, amount } =>
                EscrowEventView::WorkSubmitted {
                job_id: *job_id,
                client: client@,
                freelancer: freelancer@,
                amount: *amount,
            },
            EscrowEvent::WorkApproved { job_id, client, freelancer, amount } =>
                EscrowEventView::WorkApproved {
                job_id: *job_id,
                client: client@,
                freelancer: freelancer@,
                amount: *amount,
            },
            EscrowEvent::JobCancelled { job_id, client, freelancer, amount } =>
                EscrowEventView::JobCancelled {
                job_id: *job_id,
                client: client@,
                freelancer: opt_view(*freelancer),
                amount: *amount,
            },
            EscrowEvent::DisputeRaised { job_id, client, freelancer, amount } =>
                EscrowEventView::DisputeRaised {
                job_id: *job_id,
                client: client@,
                freelancer: opt_view(*freelancer),
                amount: *amount,
            },
            EscrowEvent::DisputeResolved {
                job_id,
                client,
                freelancer,
                amount,
                client_bps,
                freelancer_bps,
            } => EscrowEventView::DisputeResolved {
                job_id: *job_id,
                client: client@,
                freelancer: opt_view(*freelancer),
                amount: *amount,
                client_bps: *client_bps,
                freelancer_bps: *freelancer_bps,
            },
            EscrowEvent::MilestoneApproved { job_id, milestone_id, client } =>
                EscrowEventView::MilestoneApproved {
                job_id: *job_id,
                milestone_id: *milestone_id,
                client: client@,
            },
            EscrowEvent::TokenAdded { token } => EscrowEventView::TokenAdded { token: token@ },
            EscrowEvent::TokenRemoved { token } => EscrowEventView::TokenRemoved { token: token@ },
            EscrowEvent::FeesWithdrawn { admin, token, amount } => EscrowEventView::FeesWithdrawn {
                admin: admin@,
                token: token@,
                amount: *amount,
            },
            EscrowEvent::WhitelistModeSet { enabled } => EscrowEventView::WhitelistModeSet {
                enabled: *enabled,
            },
            EscrowEvent::WhitelistAdded { address } => EscrowEventView::WhitelistAdded {
                address: address@,
            },
            EscrowEvent::WhitelistRemoved { address } => EscrowEventView::WhitelistRemoved {
                address: address@,
            },
            EscrowEvent::BlacklistAdded { address } => EscrowEventView::BlacklistAdded {
                address: address@,
            },
            EscrowEvent::BlacklistRemoved { address } => EscrowEventView::BlacklistRemoved {
                address: address@,
            },
            EscrowEvent::ForwarderSet { forwarder, is_trusted } => EscrowEventView::ForwarderSet {
                forwarder: forwarder@,
                is_trusted: *is_trusted,
            },
            EscrowEvent::SlaBreached { job_id, freelancer } => EscrowEventView::SlaBreached {
                job_id: *job_id,
                freelancer: freelancer@,
            },
        }
    }
}

/// The event that announces a cancellation of job `job_id`.
pub open spec fn cancelled_event(job_id: u64, job: JobView) -> EscrowEventView {
    EscrowEventView::JobCancelled {
        job_id,
        client: job.client,
        freelancer: job.freelancer,
        amount: job.amount,
    }
}

/// The event that announces a cancellation of `job`, stored under `job_id`.
pub fn cancelled(job_id: u64, job: &Job) -> (r: EscrowEvent)
    ensures
        r@ == cancelled_event(job_id, job@),
{
    EscrowEvent::JobCancelled {
        job_id,
        client: job.client.duplicate(),
        freelancer: copy_opt_address(&job.freelancer),
        amount: job.amount,
    }
}

/// What a call asks of the host besides its change of state: the addresses
/// whose authorization it demands, the token transfers it makes and the events
/// it publishes, each in order.
#[derive(Debug, Clone)]
pub struct Effects {
    pub auths: Vec<Address>,
    pub transfers: Vec<Transfer>,
    pub events: Vec<EscrowEvent>,
}

/// The view of the effects of a call.
pub struct EffectsView {
    pub auths: Seq<Seq<char>>,
    pub transfers: Seq<TransferView>,
    pub events: Seq<EscrowEventView>,
}

impl View for Effects {
    type V = EffectsView;

    open spec fn view(&self) -> EffectsView {
        EffectsView {
            auths: self.auths@.map_values(|a: Address| a@),
            transfers: self.transfers@.map_values(|t: Transfer| t@),
            events: self.events@.map_values(|e: EscrowEvent| e@),
        }
    }
}

} // verus!

verus! {

/// The view of a transfer from the contract to an account.
pub open spec fn payout_view(token: Seq<char>, to: Seq<char>, amount: i128) -> TransferView {
    TransferView { token, from: PartyView::Contract, to: PartyView::Account(to), amount }
}

/// The view of a transfer from an account to the contract.
pub open spec fn deposit_view(token: Seq<char>, from: Seq<char>, amount: i128) -> TransferView {
    TransferView { token, from: PartyView::Account(from), to: PartyView::Contract, amount }
}

/// Effects that demand the given authorizations and nothing else.
pub open spec fn auth_effects(auths: Seq<Seq<char>>) -> EffectsView {
    EffectsView { auths, transfers: Seq::empty(), events: Seq::empty() }
}

/// Effects that demand the given authorizations and publish the given events.
pub open spec fn event_effects(auths: Seq<Seq<char>>, events: Seq<EscrowEventView>) -> EffectsView {
    EffectsView { auths, transfers: Seq::empty(), events }
}

/// Effects that demand the given authorizations, make one transfer and publish one event.
pub open spec fn settle_effects(
    auths: Seq<Seq<char>>,
    t: TransferView,
    e: EscrowEventView,
) -> EffectsView {
    EffectsView { auths, transfers: seq![t], events: seq![e] }
}

/// Effects that demand the given authorizations and make one transfer.
pub open spec fn transfer_effects(auths: Seq<Seq<char>>, t: TransferView) -> EffectsView {
    EffectsView { auths, transfers: seq![t], events: Seq::empty() }
}

/// A transfer of `amount` of `token` from the contract to `to`.
pub fn payout(token: &Address, to: &Address, amount: i128) -> (r: Transfer)
    ensures
        r@ == payout_view(token@, to@, amount),
{
    Transfer {
        token: token.duplicate(),
        from: Party::Contract,
        to: Party::Account(to.duplicate()),
        amount,
    }
}

/// A transfer of `amount` of `token` from `from` to the contract.
pub fn deposit(token: &Address, from: &Address, amount: i128) -> (r: Transfer)
    ensures
        r@ == deposit_view(token@, from@, amount),
{
    Transfer {
        token: token.duplicate(),
        from: Party::Account(from.duplicate()),
        to: Party::Contract,
        amount,
    }
}

impl Effects {
    /// Effects that demand the authorization of `a` and nothing else.
    pub fn auth(a: &Address) -> (r: Effects)
        ensures
            r@ == auth_effects(seq![a@]),
    {
        let mut auths: Vec<Address> = Vec::new();
        auths.push(a.duplicate());
        let r = Effects { auths, transfers: Vec::new(), events: Vec::new() };
        assert(r@.auths =~= seq![a@]);
        assert(r@.transfers =~= Seq::<TransferView>::empty());
        assert(r@.events =~= Seq::<EscrowEventView>::empty());
        r
    }

    /// Effects that demand the authorization of `a`, then of `b`, and nothing else.
    pub fn auth2(a: &Address, b: &Address) -> (r: Effects)
        ensures
            r@ == auth_effects(seq![a@, b@]),
    {
        let mut auths: Vec<Address> = Vec::new();
        auths.push(a.duplicate());
        auths.push(b.duplicate());
        let r = Effects { auths, transfers: Vec::new(), events: Vec::new() };
        assert(r@.auths =~= seq![a@, b@]);
        assert(r@.transfers =~= Seq::<TransferView>::empty());
        assert(r@.events =~= Seq::<EscrowEventView>::empty());
        r
    }

    /// These effects followed by the transfer `t`.
    pub fn with_transfer(self, t: Transfer) -> (r: Effects)
        ensures
            r@ == (EffectsView {
                auths: self@.auths,
                transfers: self@.transfers.push(t@),
                events: self@.events,
            }),
    {
        let Effects { auths, mut transfers, events } = self;
        let ghost old_transfers = transfers@;
        transfers.push(t);
        let r = Effects { auths, transfers, events };
        assert(r@.transfers =~= old_transfers.map_values(|x: Transfer| x@).push(t@));
        r
    }

    /// These effects followed by the event `e`.
    pub fn with_event(self, e: EscrowEvent) -> (r: Effects)
        ensures
            r@ == (EffectsView {
                auths: self@.auths,
                transfers: self@.transfers,
                events: self@.events.push(e@),
            }),
    {
        let Effects { auths, transfers, mut events } = self;
        let ghost old_events = events@;
        events.push(e);
        let r = Effects { auths, transfers, events };
        assert(r@.events =~= old_events.map_values(|x: EscrowEvent| x@).push(e@));
        r
    }
}

} // verus!
