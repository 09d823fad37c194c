//! Governance multisig: proposal-based control of a spending resource.
//!
//! A fixed group of owners shares one quorum threshold. Any owner may
//! propose a spend (auto-approving it), other owners approve at most
//! once each, and once the threshold is met any owner may execute the
//! proposal before it expires. Configuration changes are themselves
//! gated behind an already-approved proposal of the same store.
//!
//! The external value transfer is not performed here: `execute`
//! validates its conditions and commits the status flip first
//! (checks-effects-interactions), handing back the transfer to
//! perform; if the host's transfer fails, `execute_rollback` restores
//! the state exactly.

use vstd::prelude::*;

use crate::members::{Principal, has_duplicate, is_member};

verus! {

/// Most owners a governance group may hold.
pub const MAX_OWNERS: usize = 10;

/// Proposal ids are assigned from a counter that fails closed here.
pub const MAX_PROPOSALS: u64 = 10000;

/// Lifetime of a proposal in seconds (24 hours).
pub const PROPOSAL_WINDOW: i64 = 86400;

/// Longest accepted memo, in bytes.
pub const MAX_MEMO_LEN: usize = 200;

#[derive(Debug, Clone, Copy, PartialEq, Eq, Structural)]
pub enum GovernanceError {
    InsufficientOwners,
    TooManyOwners,
    ThresholdTooLow,
    ThresholdExceedsOwners,
    DuplicateOwner,
    InvalidSpendCap,
    NotAnOwner,
    ZeroAmount,
    ExceedsSpendCap,
    MemoTooLong,
    MaxProposalsReached,
    ProposalMismatch,
    AlreadyExecuted,
    ProposalCancelled,
    ProposalExpired,
    AlreadyApproved,
    InsufficientApprovals,
    NotProposer,
    AlreadyCancelled,
    RecipientMismatch,
}

/// The member set, quorum threshold and counters of one governance
/// instance, keyed by an opaque resource identifier.
#[derive(Debug, Clone, PartialEq, Eq)]
pub struct GovernanceState {
    pub key: u64,
    pub owners: Vec<Principal>,
    pub threshold: u8,
    pub spend_cap_per_tx: u64,
    pub proposal_count: u64,
    pub executed_count: u64,
}

/// A pending spend request owned by one governance instance.
#[derive(Debug, Clone, PartialEq, Eq)]
pub struct Proposal {
    pub id: u64,
    pub governance: u64,
    pub proposer: Principal,
    pub to: Principal,
    pub amount: u64,
    pub memo: Vec<u8>,
    pub approvals: Vec<Principal>,
    pub executed: bool,
    pub cancelled: bool,
    pub created_at: i64,
    pub expires_at: i64,
}

/// The transfer that a successful `execute` asks the host to perform.
#[derive(Debug, Clone, Copy, PartialEq, Eq, Structural)]
pub struct PendingTransfer {
    pub to: Principal,
    pub amount: u64,
}

/// A snapshot of one proposal's standing against its group.
#[derive(Debug, Clone, Copy, PartialEq, Eq, Structural)]
pub struct ProposalStatus {
    pub id: u64,
    pub approvals: u8,
    pub threshold: u8,
    pub executed: bool,
    pub cancelled: bool,
    pub expired: bool,
    pub can_execute: bool,
}

impl Proposal {
    /// Structural invariant: approvals never double-count a principal,
    /// and the expiry always sits one window after creation.
    pub open spec fn wf(self) -> bool {
        &&& self.approvals@.no_duplicates()
        &&& self.expires_at == self.created_at + PROPOSAL_WINDOW
    }

    /// `post` is `pre` with only the executed flag set to `b`.
    pub open spec fn with_executed(self, b: bool) -> Proposal {
        Proposal { executed: b, ..self }
    }
}

impl GovernanceState {
    /// Structural invariant established by `initialize` and preserved
    /// by every operation.
    pub open spec fn wf(self) -> bool {
        &&& self.owners@.no_duplicates()
        &&& 2 <= self.owners@.len() <= MAX_OWNERS
        &&& 2 <= self.threshold <= self.owners@.len()
        &&& self.spend_cap_per_tx > 0
        &&& self.proposal_count <= MAX_PROPOSALS
    }

    /// Exactly the configurations `initialize` accepts.
    pub open spec fn init_allowed(
        owners: Seq<Principal>,
        threshold: u8,
        spend_cap_per_tx: u64,
    ) -> bool {
        &&& 2 <= owners.len() <= MAX_OWNERS
        &&& 2 <= threshold <= owners.len()
        &&& spend_cap_per_tx > 0
        &&& owners.no_duplicates()
    }

    /// The error reported for a refused configuration, in check order.
    pub open spec fn init_err(
        owners: Seq<Principal>,
        threshold: u8,
        spend_cap_per_tx: u64,
    ) -> GovernanceError {
        if owners.len() < 2 {
            GovernanceError::InsufficientOwners
        } else if owners.len() > MAX_OWNERS {
            GovernanceError::TooManyOwners
        } else if threshold < 2 {
            GovernanceError::ThresholdTooLow
        } else if threshold > owners.len() {
            GovernanceError::ThresholdExceedsOwners
        } else if spend_cap_per_tx == 0 {
            GovernanceError::InvalidSpendCap
        } else {
            GovernanceError::DuplicateOwner
        }
    }

    /// Creates a governance instance, refusing bad member sets,
    /// thresholds out of bounds and a zero spend cap.
    pub fn initialize(
        key: u64,
        owners: Vec<Principal>,
        threshold: u8,
        spend_cap_per_tx: u64,
    ) -> (r: Result<GovernanceState, GovernanceError>)
        ensures
            r.is_ok() == Self::init_allowed(owners@, threshold, spend_cap_per_tx),
            r matches Ok(g) ==> g.wf() && g.key == key && g.owners@ == owners@
                && g.threshold == threshold && g.spend_cap_per_tx == spend_cap_per_tx
                && g.proposal_count == 0 && g.executed_count == 0,
            r matches Err(e) ==> e == Self::init_err(owners@, threshold, spend_cap_per_tx),
    {
        if owners.len() < 2 {
            return Err(GovernanceError::InsufficientOwners);
        }
        if owners.len() > MAX_OWNERS {
            return Err(GovernanceError::TooManyOwners);
        }
        if threshold < 2 {
            return Err(GovernanceError::ThresholdTooLow);
        }
        if threshold as usize > owners.len() {
            return Err(GovernanceError::ThresholdExceedsOwners);
        }
        if spend_cap_per_tx == 0 {
            return Err(GovernanceError::InvalidSpendCap);
        }
        if has_duplicate(&owners) {
            return Err(GovernanceError::DuplicateOwner);
        }
        Ok(GovernanceState {
            key,
            owners,
            threshold,
            spend_cap_per_tx,
            proposal_count: 0,
            executed_count: 0,
        })
    }

    /// Exactly the spend proposals this state accepts.
    pub open spec fn propose_allowed(self, proposer: Principal, amount: u64, memo: Seq<u8>) -> bool {
        &&& self.owners@.contains(proposer)
        &&& amount > 0
        &&& amount <= self.spend_cap_per_tx
        &&& memo.len() <= MAX_MEMO_LEN
        &&& self.proposal_count < MAX_PROPOSALS
    }

    /// The error reported for a refused spend proposal, in check order.
    pub open spec fn propose_err(self, proposer: Principal, amount: u64, memo: Seq<u8>) -> GovernanceError {
        if !self.owners@.contains(proposer) {
            GovernanceError::NotAnOwner
        } else if amount == 0 {
            GovernanceError::ZeroAmount
        } else if amount > self.spend_cap_per_tx {
            GovernanceError::ExceedsSpendCap
        } else if memo.len() > MAX_MEMO_LEN {
            GovernanceError::MemoTooLong
        } else {
            GovernanceError::MaxProposalsReached
        }
    }

    /// Creates a spend proposal. The proposer must be an owner, the
    /// amount positive and within the per-transaction cap, and the id
    /// counter below its ceiling. The proposer's own approval is
    /// recorded at creation and the proposal starts Pending.
    pub fn propose_spend(
        &mut self,
        proposer: Principal,
        to: Principal,
        amount: u64,
        memo: Vec<u8>,
        now: i64,
    ) -> (r: Result<Proposal, GovernanceError>)
        requires
            old(self).wf(),
            now <= i64::MAX - PROPOSAL_WINDOW,
        ensures
            final(self).wf(),
            r.is_ok() == old(self).propose_allowed(proposer, amount, memo@),
            r matches Ok(p) ==> p.wf() && p.id == old(self).proposal_count
                && p.governance == old(self).key && p.proposer == proposer && p.to == to
                && p.amount == amount && p.memo@ == memo@ && p.approvals@ == seq![proposer]
                && !p.executed && !p.cancelled && p.created_at == now
                && p.expires_at == now + PROPOSAL_WINDOW,
            r.is_ok() ==> *final(self) == (GovernanceState {
                proposal_count: (old(self).proposal_count + 1) as u64,
                ..*old(self)
            }),
            r matches Err(e) ==> *final(self) == *old(self)
                && e == old(self).propose_err(proposer, amount, memo@),
    {
        if !is_member(&self.owners, proposer) {
            return Err(GovernanceError::NotAnOwner);
        }
        if amount == 0 {
            return Err(GovernanceError::ZeroAmount);
        }
        if amount > self.spend_cap_per_tx {
            return Err(GovernanceError::ExceedsSpendCap);
        }
        if memo.len() > MAX_MEMO_LEN {
            return Err(GovernanceError::MemoTooLong);
        }
        if self.proposal_count >= MAX_PROPOSALS {
            return Err(GovernanceError::MaxProposalsReached);
        }
        let mut approvals: Vec<Principal> = Vec::new();
        approvals.push(proposer);
        let proposal = Proposal {
            id: self.proposal_count,
            governance: self.key,
            proposer,
            to,
            amount,
            memo,
            approvals,
            executed: false,
            cancelled: false,
            created_at: now,
            expires_at: now + PROPOSAL_WINDOW,
        };
        self.proposal_count = self.proposal_count + 1;
        Ok(proposal)
    }

    /// Exactly the approvals this state accepts for `p`.
    pub open spec fn approve_allowed(
        self,
        p: Proposal,
        approver: Principal,
        proposal_id: u64,
        now: i64,
    ) -> bool {
        &&& p.governance == self.key
        &&& p.id == proposal_id
        &&& self.owners@.contains(approver)
        &&& !p.executed
        &&& !p.cancelled
        &&& now <= p.expires_at
        &&& !p.approvals@.contains(approver)
    }

    /// The error reported for a refused approval, in check order.
    pub open spec fn approve_err(
        self,
        p: Proposal,
        approver: Principal,
        proposal_id: u64,
        now: i64,
    ) -> GovernanceError {
        if p.governance != self.key || p.id != proposal_id {
            GovernanceError::ProposalMismatch
        } else if !self.owners@.contains(approver) {
            GovernanceError::NotAnOwner
        } else if p.executed {
            GovernanceError::AlreadyExecuted
        } else if p.cancelled {
            GovernanceError::ProposalCancelled
        } else if now > p.expires_at {
            GovernanceError::ProposalExpired
        } else {
            GovernanceError::AlreadyApproved
        }
    }

    /// Records one owner's approval on a Pending, unexpired proposal of
    /// this group. A principal's repeated vote is refused, never
    /// double-counted.
    pub fn approve(
        &self,
        proposal: &mut Proposal,
        approver: Principal,
        proposal_id: u64,
        now: i64,
    ) -> (r: Result<(), GovernanceError>)
        requires
            self.wf(),
            old(proposal).wf(),
        ensures
            final(proposal).wf(),
            r.is_ok() == self.approve_allowed(*old(proposal), approver, proposal_id, now),
            r.is_ok() ==> final(proposal).approvals@ == old(proposal).approvals@.push(approver)
                && *final(proposal) == (Proposal {
                    approvals: final(proposal).approvals,
                    ..*old(proposal)
                }),
            r matches Err(e) ==> *final(proposal) == *old(proposal)
                && e == self.approve_err(*old(proposal), approver, proposal_id, now),
    {
        if proposal.governance != self.key || proposal.id != proposal_id {
            return Err(GovernanceError::ProposalMismatch);
        }
        if !is_member(&self.owners, approver) {
            return Err(GovernanceError::NotAnOwner);
        }
        if proposal.executed {
            return Err(GovernanceError::AlreadyExecuted);
        }
        if proposal.cancelled {
            return Err(GovernanceError::ProposalCancelled);
        }
        if now > proposal.expires_at {
            return Err(GovernanceError::ProposalExpired);
        }
        if is_member(&proposal.approvals, approver) {
            return Err(GovernanceError::AlreadyApproved);
        }
        proposal.approvals.push(approver);
        Ok(())
    }

    /// Exactly the executions this state accepts for `p`.
    pub open spec fn execute_allowed(
        self,
        p: Proposal,
        executor: Principal,
        proposal_id: u64,
        now: i64,
    ) -> bool {
        &&& p.governance == self.key
        &&& p.id == proposal_id
        &&& !p.executed
        &&& !p.cancelled
        &&& now <= p.expires_at
        &&& p.approvals@.len() >= self.threshold
        &&& self.owners@.contains(executor)
    }

    /// The error reported for a refused execution, in check order.
    pub open spec fn execute_err(
        self,
        p: Proposal,
        executor: Principal,
        proposal_id: u64,
        now: i64,
    ) -> GovernanceError {
        if p.governance != self.key || p.id != proposal_id {
            GovernanceError::ProposalMismatch
        } else if p.executed {
            GovernanceError::AlreadyExecuted
        } else if p.cancelled {
            GovernanceError::ProposalCancelled
        } else if now > p.expires_at {
            GovernanceError::ProposalExpired
        } else if p.approvals@.len() < self.threshold {
            GovernanceError::InsufficientApprovals
        } else {
            GovernanceError::NotAnOwner
        }
    }

    /// The state after a committed execution: one more executed
    /// proposal on record.
    pub open spec fn execute_commit(self) -> GovernanceState {
        GovernanceState { executed_count: (self.executed_count + 1) as u64, ..self }
    }

    /// The state after rolling one committed execution back.
    pub open spec fn execute_uncommit(self) -> GovernanceState {
        GovernanceState { executed_count: (self.executed_count - 1) as u64, ..self }
    }

    /// Heart of the execution path: succeeds exactly when the proposal
    /// belongs to this group, is Pending and unexpired, has reached the
    /// quorum threshold, and the executor is an owner. The status flip
    /// is committed before the returned transfer is performed, so a
    /// reentrant call during the transfer finds the proposal already
    /// Executed. On refusal nothing changes.
    pub fn execute(
        &mut self,
        proposal: &mut Proposal,
        executor: Principal,
        proposal_id: u64,
        now: i64,
    ) -> (r: Result<PendingTransfer, GovernanceError>)
        requires
            old(self).wf(),
            old(proposal).wf(),
            old(self).executed_count < u64::MAX,
        ensures
            final(self).wf(),
            final(proposal).wf(),
            r.is_ok() == old(self).execute_allowed(*old(proposal), executor, proposal_id, now),
            r matches Ok(t) ==> t.to == old(proposal).to && t.amount == old(proposal).amount
                && *final(self) == old(self).execute_commit()
                && *final(proposal) == old(proposal).with_executed(true),
            r matches Err(e) ==> *final(self) == *old(self) && *final(proposal) == *old(proposal)
                && e == old(self).execute_err(*old(proposal), executor, proposal_id, now),
    {
        if proposal.governance != self.key || proposal.id != proposal_id {
            return Err(GovernanceError::ProposalMismatch);
        }
        if proposal.executed {
            return Err(GovernanceError::AlreadyExecuted);
        }
        if proposal.cancelled {
            return Err(GovernanceError::ProposalCancelled);
        }
        if now > proposal.expires_at {
            return Err(GovernanceError::ProposalExpired);
        }
        if proposal.approvals.len() < self.threshold as usize {
            return Err(GovernanceError::InsufficientApprovals);
        }
        if !is_member(&self.owners, executor) {
            return Err(GovernanceError::NotAnOwner);
        }
        proposal.executed = true;
        self.executed_count = self.executed_count + 1;
        Ok(PendingTransfer { to: proposal.to, amount: proposal.amount })
    }

    /// Undoes a committed execution after the host reports that the
    /// external transfer failed: the proposal returns to Pending and
    /// the executed counter steps back, leaving no trace.
    pub fn execute_rollback(&mut self, proposal: &mut Proposal)
        requires
            old(self).wf(),
            old(self).executed_count >= 1,
        ensures
            final(self).wf(),
            *final(self) == old(self).execute_uncommit(),
            *final(proposal) == old(proposal).with_executed(false),
    {
        proposal.executed = false;
        self.executed_count = self.executed_count - 1;
    }

    /// Exactly the cancellations this state accepts for `p`.
    pub open spec fn cancel_allowed(self, p: Proposal, caller: Principal, proposal_id: u64) -> bool {
        &&& p.governance == self.key
        &&& p.id == proposal_id
        &&& caller == p.proposer
        &&& !p.executed
        &&& !p.cancelled
    }

    /// The error reported for a refused cancellation, in check order.
    pub open spec fn cancel_err(self, p: Proposal, caller: Principal, proposal_id: u64) -> GovernanceError {
        if p.governance != self.key || p.id != proposal_id {
            GovernanceError::ProposalMismatch
        } else if caller != p.proposer {
            GovernanceError::NotProposer
        } else if p.executed {
            GovernanceError::AlreadyExecuted
        } else {
            GovernanceError::AlreadyCancelled
        }
    }

    /// Cancels a proposal: only its creator may, and only while it is
    /// still Pending. Cancelled is terminal.
    pub fn cancel(
        &self,
        proposal: &mut Proposal,
        caller: Principal,
        proposal_id: u64,
    ) -> (r: Result<(), GovernanceError>)
        requires
            old(proposal).wf(),
        ensures
            final(proposal).wf(),
            r.is_ok() == self.cancel_allowed(*old(proposal), caller, proposal_id),
            r.is_ok() ==> *final(proposal) == (Proposal { cancelled: true, ..*old(proposal) }),
            r matches Err(e) ==> *final(proposal) == *old(proposal)
                && e == self.cancel_err(*old(proposal), caller, proposal_id),
    {
        if proposal.governance != self.key || proposal.id != proposal_id {
            return Err(GovernanceError::ProposalMismatch);
        }
        if caller != proposal.proposer {
            return Err(GovernanceError::NotProposer);
        }
        if proposal.executed {
            return Err(GovernanceError::AlreadyExecuted);
        }
        if proposal.cancelled {
            return Err(GovernanceError::AlreadyCancelled);
        }
        proposal.cancelled = true;
        Ok(())
    }

    /// Whether `p` proves a quorum-approved, still-live consensus of
    /// this group, which every configuration change must show.
    pub open spec fn config_proof_ok(self, p: Proposal, now: i64) -> bool {
        &&& p.governance == self.key
        &&& !p.executed
        &&& !p.cancelled
        &&& now <= p.expires_at
        &&& p.approvals@.len() >= self.threshold
    }

    /// The sequence of owners after an update, before validation.
    pub open spec fn updated_owners(self, new_owners: Option<Vec<Principal>>) -> Seq<Principal> {
        match new_owners {
            Some(os) => os@,
            None => self.owners@,
        }
    }

    /// The threshold after an update.
    pub open spec fn updated_threshold(self, new_threshold: Option<u8>) -> u8 {
        match new_threshold {
            Some(t) => t,
            None => self.threshold,
        }
    }

    /// Exactly the configuration changes this state accepts.
    pub open spec fn update_config_allowed(
        self,
        new_owners: Option<Vec<Principal>>,
        new_threshold: Option<u8>,
        new_spend_cap: Option<u64>,
        proof_p: Proposal,
        authority: Principal,
        now: i64,
    ) -> bool {
        &&& self.config_proof_ok(proof_p, now)
        &&& self.owners@.contains(authority)
        &&& (new_owners matches Some(os) ==> 2 <= os@.len() <= MAX_OWNERS
            && os@.no_duplicates()
            && self.updated_threshold(new_threshold) <= os@.len())
        &&& (new_threshold matches Some(t) ==> 2 <= t
            && t <= self.updated_owners(new_owners).len())
        &&& (new_spend_cap matches Some(c) ==> c > 0)
    }

    /// The error reported for a refused configuration change, in check
    /// order.
    pub open spec fn update_config_err(
        self,
        new_owners: Option<Vec<Principal>>,
        new_threshold: Option<u8>,
        new_spend_cap: Option<u64>,
        proof_p: Proposal,
        authority: Principal,
        now: i64,
    ) -> GovernanceError {
        if proof_p.governance != self.key {
            GovernanceError::ProposalMismatch
        } else if proof_p.executed {
            GovernanceError::AlreadyExecuted
        } else if proof_p.cancelled {
            GovernanceError::ProposalCancelled
        } else if now > proof_p.expires_at {
            GovernanceError::ProposalExpired
        } else if proof_p.approvals@.len() < self.threshold {
            GovernanceError::InsufficientApprovals
        } else if !self.owners@.contains(authority) {
            GovernanceError::NotAnOwner
        } else if new_owners matches Some(os) && os@.len() < 2 {
            GovernanceError::InsufficientOwners
        } else if new_owners matches Some(os) && os@.len() > MAX_OWNERS {
            GovernanceError::TooManyOwners
        } else if new_owners matches Some(os) && !os@.no_duplicates() {
            GovernanceError::DuplicateOwner
        } else if new_owners matches Some(os)
            && self.updated_threshold(new_threshold) > os@.len() {
            GovernanceError::ThresholdExceedsOwners
        } else if new_threshold matches Some(t) && t < 2 {
            GovernanceError::ThresholdTooLow
        } else if new_threshold matches Some(t) && t > self.updated_owners(new_owners).len() {
            GovernanceError::ThresholdExceedsOwners
        } else {
            GovernanceError::InvalidSpendCap
        }
    }

    /// Applies a partial configuration change: each field is validated
    /// independently and either all take effect or none does. The
    /// change must be proven by a ConfigChange-style proposal of this
    /// group that has reached the current quorum threshold and is still
    /// live; the caller must be a current owner. No single authority
    /// can change the configuration alone.
    pub fn update_config(
        &mut self,
        new_owners: Option<Vec<Principal>>,
        new_threshold: Option<u8>,
        new_spend_cap: Option<u64>,
        config_proposal: &Proposal,
        authority: Principal,
        now: i64,
    ) -> (r: Result<(), GovernanceError>)
        requires
            old(self).wf(),
        ensures
            final(self).wf(),
            r.is_ok() == old(self).update_config_allowed(
                new_owners, new_threshold, new_spend_cap, *config_proposal, authority, now),
            r.is_ok() ==> final(self).owners@ == old(self).updated_owners(new_owners)
                && final(self).threshold == old(self).updated_threshold(new_threshold)
                && final(self).spend_cap_per_tx == (match new_spend_cap {
                    Some(c) => c,
                    None => old(self).spend_cap_per_tx,
                })
                && *final(self) == (GovernanceState {
                    owners: final(self).owners,
                    threshold: final(self).threshold,
                    spend_cap_per_tx: final(self).spend_cap_per_tx,
                    ..*old(self)
                }),
            r matches Err(e) ==> *final(self) == *old(self)
                && e == old(self).update_config_err(
                    new_owners, new_threshold, new_spend_cap, *config_proposal, authority, now),
    {
        if config_proposal.governance != self.key {
            return Err(GovernanceError::ProposalMismatch);
        }
        if config_proposal.executed {
            return Err(GovernanceError::AlreadyExecuted);
        }
        if config_proposal.cancelled {
            return Err(GovernanceError::ProposalCancelled);
        }
        if now > config_proposal.expires_at {
            return Err(GovernanceError::ProposalExpired);
        }
        if config_proposal.approvals.len() < self.threshold as usize {
            return Err(GovernanceError::InsufficientApprovals);
        }
        if !is_member(&self.owners, authority) {
            return Err(GovernanceError::NotAnOwner);
        }
        match &new_owners {
            Some(os) => {
                if os.len() < 2 {
                    return Err(GovernanceError::InsufficientOwners);
                }
                if os.len() > MAX_OWNERS {
                    return Err(GovernanceError::TooManyOwners);
                }
                if has_duplicate(os) {
                    return Err(GovernanceError::DuplicateOwner);
                }
                let effective = match new_threshold {
                    Some(t) => t,
                    None => self.threshold,
                };
                if effective as usize > os.len() {
                    return Err(GovernanceError::ThresholdExceedsOwners);
                }
            },
            None => {},
        }
        match new_threshold {
            Some(t) => {
                if t < 2 {
                    return Err(GovernanceError::ThresholdTooLow);
                }
                let effective_len = match &new_owners {
                    Some(os) => os.len(),
                    None => self.owners.len(),
                };
                if t as usize > effective_len {
                    return Err(GovernanceError::ThresholdExceedsOwners);
                }
            },
            None => {},
        }
        match new_spend_cap {
            Some(c) => {
                if c == 0 {
                    return Err(GovernanceError::InvalidSpendCap);
                }
            },
            None => {},
        }
        match new_owners {
            Some(os) => {
                self.owners = os;
            },
            None => {},
        }
        match new_threshold {
            Some(t) => {
                self.threshold = t;
            },
            None => {},
        }
        match new_spend_cap {
            Some(c) => {
                self.spend_cap_per_tx = c;
            },
            None => {},
        }
        Ok(())
    }

    /// Reads one proposal's standing: counts, terminal flags, whether
    /// it has expired, and whether `execute` would currently accept it
    /// from an owner.
    pub fn get_proposal_status(&self, proposal: &Proposal, now: i64) -> (s: ProposalStatus)
        requires
            proposal.approvals@.len() <= u8::MAX,
        ensures
            s.id == proposal.id,
            s.approvals == proposal.approvals@.len(),
            s.threshold == self.threshold,
            s.executed == proposal.executed,
            s.cancelled == proposal.cancelled,
            s.expired == (now > proposal.expires_at),
            s.can_execute == (proposal.approvals@.len() >= self.threshold
                && !proposal.executed && !proposal.cancelled && now <= proposal.expires_at),
    {
        ProposalStatus {
            id: proposal.id,
            approvals: proposal.approvals.len() as u8,
            threshold: self.threshold,
            executed: proposal.executed,
            cancelled: proposal.cancelled,
            expired: now > proposal.expires_at,
            can_execute: proposal.approvals.len() >= self.threshold as usize
                && !proposal.executed && !proposal.cancelled && now <= proposal.expires_at,
        }
    }
}

/// One principal's approval counts once: a proposal that already
/// records `approver` refuses every further `approve` by the same
/// principal, with `AlreadyApproved` once the earlier guards are met,
/// so repeated calls never grow the approval set.
pub proof fn lemma_approve_once_per_principal(
    g: GovernanceState,
    p: Proposal,
    approver: Principal,
    proposal_id: u64,
    now: i64,
)
    requires
        p.approvals@.contains(approver),
    ensures
        !g.approve_allowed(p, approver, proposal_id, now),
        (p.governance == g.key && p.id == proposal_id && g.owners@.contains(approver)
            && !p.executed && !p.cancelled && now <= p.expires_at)
            ==> g.approve_err(p, approver, proposal_id, now) == GovernanceError::AlreadyApproved,
{
}

/// No quorum, no mutation: a configuration change whose proof proposal
/// sits below the current threshold is refused — with
/// `InsufficientApprovals` once the proof's liveness checks pass — even
/// when the caller is a legitimate owner.
pub proof fn lemma_config_change_needs_quorum(
    g: GovernanceState,
    new_owners: Option<Vec<Principal>>,
    new_threshold: Option<u8>,
    new_spend_cap: Option<u64>,
    proof_p: Proposal,
    authority: Principal,
    now: i64,
)
    requires
        proof_p.approvals@.len() < g.threshold,
    ensures
        !g.update_config_allowed(new_owners, new_threshold, new_spend_cap, proof_p, authority, now),
        (proof_p.governance == g.key && !proof_p.executed && !proof_p.cancelled
            && now <= proof_p.expires_at)
            ==> g.update_config_err(new_owners, new_threshold, new_spend_cap, proof_p, authority, now)
                == GovernanceError::InsufficientApprovals,
{
}

/// A failed external transfer leaves no trace: rolling back the commit
/// of a successful execution restores the governance counters and the
/// proposal exactly as they were.
pub proof fn lemma_execute_rollback_atomic(g: GovernanceState, p: Proposal)
    requires
        g.executed_count < u64::MAX,
        !p.executed,
    ensures
        g.execute_commit().execute_uncommit() == g,
        p.with_executed(true).with_executed(false) == p,
{
}

} // verus!
