//! Treasury vault: multisig-governed spending under a rolling daily cap.
//!
//! Spend proposals follow the same create / approve / execute pattern
//! as the governance store, with two additions: a lazily reset daily
//! spend window enforced at execution time, and a one-signer emergency
//! pause whose lifting needs a quorum-approved proposal.
//!
//! Execution is split for the host: `execute_proposal` validates,
//! commits the status flip and the spend bookkeeping, and returns a
//! `Reservation`; if the external transfer then fails, the host calls
//! `rollback_execution` with that reservation and the state returns
//! exactly to what it was.

use vstd::prelude::*;

use crate::members::{Principal, has_duplicate, is_member};

verus! {

/// Most signers a treasury may hold.
pub const MAX_SIGNERS: usize = 10;

/// Lifetime of a proposal in slots (about 24 hours).
pub const PROPOSAL_WINDOW: u64 = 216000;

/// Length of the rolling spend window in slots (about 24 hours).
pub const WINDOW_LEN: u64 = 216000;

/// Longest accepted description, in bytes.
pub const MAX_DESCRIPTION_LEN: usize = 200;

#[derive(Debug, Clone, Copy, PartialEq, Eq, Structural)]
pub enum TreasuryError {
    InsufficientSigners,
    TooManySigners,
    ThresholdTooLow,
    ThresholdExceedsSigners,
    DuplicateSigner,
    TreasuryPaused,
    NotPaused,
    AlreadyPaused,
    NotASigner,
    DescriptionTooLong,
    AlreadyExecuted,
    ProposalExpired,
    AlreadyApproved,
    InsufficientApprovals,
    DailyCapExceeded,
    Overflow,
    ProposalTreasuryMismatch,
    RecipientMismatch,
    ZeroAmount,
}

/// The signer set, quorum threshold and daily spend window of one
/// treasury, keyed by an opaque resource identifier.
#[derive(Debug, Clone, PartialEq, Eq)]
pub struct TreasuryState {
    pub key: u64,
    pub signers: Vec<Principal>,
    pub threshold: u8,
    pub daily_spend_cap: u64,
    pub daily_spent: u64,
    pub last_reset_slot: u64,
    pub proposal_count: u64,
    pub paused: bool,
}

/// A pending spend request owned by one treasury.
#[derive(Debug, Clone, PartialEq, Eq)]
pub struct Proposal {
    pub id: u64,
    pub treasury: u64,
    pub proposer: Principal,
    pub amount: u64,
    pub recipient: Principal,
    pub description: Vec<u8>,
    pub approvals: Vec<Principal>,
    pub executed: bool,
    pub created_slot: u64,
    pub expires_slot: u64,
}

/// What a committed execution reserved: the transfer to perform and
/// the spend bookkeeping to restore should that transfer fail.
#[derive(Debug, Clone, Copy, PartialEq, Eq, Structural)]
pub struct Reservation {
    pub amount: u64,
    pub recipient: Principal,
    pub prev_daily_spent: u64,
    pub prev_last_reset_slot: u64,
}

impl Proposal {
    /// Structural invariant: approvals never double-count a principal,
    /// and the expiry always sits one window after creation.
    pub open spec fn wf(self) -> bool {
        &&& self.approvals@.no_duplicates()
        &&& self.expires_slot == self.created_slot + PROPOSAL_WINDOW
    }

    /// `self` with only the executed flag set to `b`.
    pub open spec fn with_executed(self, b: bool) -> Proposal {
        Proposal { executed: b, ..self }
    }
}

impl TreasuryState {
    /// Structural invariant established by `initialize` and preserved
    /// by every operation; in particular the spent total never exceeds
    /// the daily cap.
    pub open spec fn wf(self) -> bool {
        &&& self.signers@.no_duplicates()
        &&& 2 <= self.signers@.len() <= MAX_SIGNERS
        &&& 2 <= self.threshold <= self.signers@.len()
        &&& self.daily_spent <= self.daily_spend_cap
    }

    /// Exactly the configurations `initialize` accepts.
    pub open spec fn init_allowed(signers: Seq<Principal>, threshold: u8) -> bool {
        &&& 2 <= signers.len() <= MAX_SIGNERS
        &&& 2 <= threshold <= signers.len()
        &&& signers.no_duplicates()
    }

    /// The error reported for a refused configuration, in check order.
    pub open spec fn init_err(signers: Seq<Principal>, threshold: u8) -> TreasuryError {
        if signers.len() < 2 {
            TreasuryError::InsufficientSigners
        } else if signers.len() > MAX_SIGNERS {
            TreasuryError::TooManySigners
        } else if threshold < 2 {
            TreasuryError::ThresholdTooLow
        } else if threshold > signers.len() {
            TreasuryError::ThresholdExceedsSigners
        } else {
            TreasuryError::DuplicateSigner
        }
    }

    /// Creates a treasury with an empty spend window starting now.
    pub fn initialize(
        key: u64,
        signers: Vec<Principal>,
        threshold: u8,
        daily_spend_cap: u64,
        now: u64,
    ) -> (r: Result<TreasuryState, TreasuryError>)
        ensures
            r.is_ok() == Self::init_allowed(signers@, threshold),
            r matches Ok(t) ==> t.wf() && t.key == key && t.signers@ == signers@
                && t.threshold == threshold && t.daily_spend_cap == daily_spend_cap
                && t.daily_spent == 0 && t.last_reset_slot == now && t.proposal_count == 0
                && !t.paused,
            r matches Err(e) ==> e == Self::init_err(signers@, threshold),
    {
        if signers.len() < 2 {
            return Err(TreasuryError::InsufficientSigners);
        }
        if signers.len() > MAX_SIGNERS {
            return Err(TreasuryError::TooManySigners);
        }
        if threshold < 2 {
            return Err(TreasuryError::ThresholdTooLow);
        }
        if threshold as usize > signers.len() {
            return Err(TreasuryError::ThresholdExceedsSigners);
        }
        if has_duplicate(&signers) {
            return Err(TreasuryError::DuplicateSigner);
        }
        Ok(TreasuryState {
            key,
            signers,
            threshold,
            daily_spend_cap,
            daily_spent: 0,
            last_reset_slot: now,
            proposal_count: 0,
            paused: false,
        })
    }

    /// Exactly the spend proposals this state accepts.
    pub open spec fn create_allowed(self, proposer: Principal, amount: u64, description: Seq<u8>) -> bool {
        &&& !self.paused
        &&& self.signers@.contains(proposer)
        &&& description.len() <= MAX_DESCRIPTION_LEN
        &&& amount > 0
    }

    /// The error reported for a refused spend proposal, in check order.
    pub open spec fn create_err(self, proposer: Principal, amount: u64, description: Seq<u8>) -> TreasuryError {
        if self.paused {
            TreasuryError::TreasuryPaused
        } else if !self.signers@.contains(proposer) {
            TreasuryError::NotASigner
        } else if description.len() > MAX_DESCRIPTION_LEN {
            TreasuryError::DescriptionTooLong
        } else {
            TreasuryError::ZeroAmount
        }
    }

    /// Creates a spend proposal: signer only, positive amount, bounded
    /// description, refused outright while the treasury is paused. The
    /// proposer's own approval is recorded at creation.
    pub fn create_proposal(
        &mut self,
        proposer: Principal,
        amount: u64,
        recipient: Principal,
        description: Vec<u8>,
        now: u64,
    ) -> (r: Result<Proposal, TreasuryError>)
        requires
            old(self).wf(),
            now <= u64::MAX - PROPOSAL_WINDOW,
            old(self).proposal_count < u64::MAX,
        ensures
            final(self).wf(),
            r.is_ok() == old(self).create_allowed(proposer, amount, description@),
            r matches Ok(p) ==> p.wf() && p.id == old(self).proposal_count
                && p.treasury == old(self).key && p.proposer == proposer && p.amount == amount
                && p.recipient == recipient && p.description@ == description@
                && p.approvals@ == seq![proposer] && !p.executed && p.created_slot == now
                && p.expires_slot == now + PROPOSAL_WINDOW,
            r.is_ok() ==> *final(self) == (TreasuryState {
                proposal_count: (old(self).proposal_count + 1) as u64,
                ..*old(self)
            }),
            r matches Err(e) ==> *final(self) == *old(self)
                && e == old(self).create_err(proposer, amount, description@),
    {
        if self.paused {
            return Err(TreasuryError::TreasuryPaused);
        }
        if !is_member(&self.signers, proposer) {
            return Err(TreasuryError::NotASigner);
        }
        if description.len() > MAX_DESCRIPTION_LEN {
            return Err(TreasuryError::DescriptionTooLong);
        }
        if amount == 0 {
            return Err(TreasuryError::ZeroAmount);
        }
        let mut approvals: Vec<Principal> = Vec::new();
        approvals.push(proposer);
        let proposal = Proposal {
            id: self.proposal_count,
            treasury: self.key,
            proposer,
            amount,
            recipient,
            description,
            approvals,
            executed: false,
            created_slot: now,
            expires_slot: now + PROPOSAL_WINDOW,
        };
        self.proposal_count = self.proposal_count + 1;
        Ok(proposal)
    }

    /// Exactly the approvals this state accepts for `p`.
    pub open spec fn approve_allowed(self, p: Proposal, signer: Principal, now: u64) -> bool {
        &&& p.treasury == self.key
        &&& !self.paused
        &&& !p.executed
        &&& now <= p.expires_slot
        &&& self.signers@.contains(signer)
        &&& !p.approvals@.contains(signer)
    }

    /// The error reported for a refused approval, in check order.
    pub open spec fn approve_err(self, p: Proposal, signer: Principal, now: u64) -> TreasuryError {
        if p.treasury != self.key {
            TreasuryError::ProposalTreasuryMismatch
        } else if self.paused {
            TreasuryError::TreasuryPaused
        } else if p.executed {
            TreasuryError::AlreadyExecuted
        } else if now > p.expires_slot {
            TreasuryError::ProposalExpired
        } else if !self.signers@.contains(signer) {
            TreasuryError::NotASigner
        } else {
            TreasuryError::AlreadyApproved
        }
    }

    /// Records one signer's approval on a live proposal of this
    /// treasury; a repeated vote is refused, never double-counted.
    pub fn approve_proposal(
        &self,
        proposal: &mut Proposal,
        signer: Principal,
        now: u64,
    ) -> (r: Result<(), TreasuryError>)
        requires
            self.wf(),
            old(proposal).wf(),
        ensures
            final(proposal).wf(),
            r.is_ok() == self.approve_allowed(*old(proposal), signer, now),
            r.is_ok() ==> final(proposal).approvals@ == old(proposal).approvals@.push(signer)
                && *final(proposal) == (Proposal {
                    approvals: final(proposal).approvals,
                    ..*old(proposal)
                }),
            r matches Err(e) ==> *final(proposal) == *old(proposal)
                && e == self.approve_err(*old(proposal), signer, now),
    {
        if proposal.treasury != self.key {
            return Err(TreasuryError::ProposalTreasuryMismatch);
        }
        if self.paused {
            return Err(TreasuryError::TreasuryPaused);
        }
        if proposal.executed {
            return Err(TreasuryError::AlreadyExecuted);
        }
        if now > proposal.expires_slot {
            return Err(TreasuryError::ProposalExpired);
        }
        if !is_member(&self.signers, signer) {
            return Err(TreasuryError::NotASigner);
        }
        if is_member(&proposal.approvals, signer) {
            return Err(TreasuryError::AlreadyApproved);
        }
        proposal.approvals.push(signer);
        Ok(())
    }

    /// The spend window has rolled over: a full window has elapsed
    /// since it last started.
    pub open spec fn window_elapsed(self, now: u64) -> bool {
        now > self.last_reset_slot + WINDOW_LEN
    }

    /// What counts as already spent at `now`: zero once the window has
    /// rolled over, the recorded total otherwise.
    pub open spec fn effective_spent(self, now: u64) -> int {
        if self.window_elapsed(now) {
            0
        } else {
            self.daily_spent as int
        }
    }

    /// Exactly the executions this state accepts for `p` at `now`.
    pub open spec fn execute_allowed(self, p: Proposal, executor: Principal, now: u64) -> bool {
        &&& p.treasury == self.key
        &&& !self.paused
        &&& !p.executed
        &&& now <= p.expires_slot
        &&& p.approvals@.len() >= self.threshold
        &&& self.signers@.contains(executor)
        &&& self.effective_spent(now) + p.amount <= self.daily_spend_cap
    }

    /// The error reported for a refused execution, in check order.
    pub open spec fn execute_err(self, p: Proposal, executor: Principal, now: u64) -> TreasuryError {
        if p.treasury != self.key {
            TreasuryError::ProposalTreasuryMismatch
        } else if self.paused {
            TreasuryError::TreasuryPaused
        } else if p.executed {
            TreasuryError::AlreadyExecuted
        } else if now > p.expires_slot {
            TreasuryError::ProposalExpired
        } else if p.approvals@.len() < self.threshold {
            TreasuryError::InsufficientApprovals
        } else if !self.signers@.contains(executor) {
            TreasuryError::NotASigner
        } else if self.effective_spent(now) + p.amount > u64::MAX {
            TreasuryError::Overflow
        } else {
            TreasuryError::DailyCapExceeded
        }
    }

    /// The state after a committed execution: the window rolled over if
    /// stale, then the amount added to the spent total.
    pub open spec fn execute_commit(self, amount: u64, now: u64) -> TreasuryState {
        TreasuryState {
            daily_spent: (self.effective_spent(now) + amount) as u64,
            last_reset_slot: if self.window_elapsed(now) {
                now
            } else {
                self.last_reset_slot
            },
            ..self
        }
    }

    /// The state after rolling one committed execution back.
    pub open spec fn rollback_commit(self, r: Reservation) -> TreasuryState {
        TreasuryState {
            daily_spent: r.prev_daily_spent,
            last_reset_slot: r.prev_last_reset_slot,
            ..self
        }
    }

    /// Heart of the execution path. Succeeds exactly when the proposal
    /// belongs to this treasury, the treasury is not paused, the
    /// proposal is Pending and unexpired, quorum is reached, the
    /// executor signs, and the amount fits under the daily cap after a
    /// lazy window reset. The cap check happens strictly before any
    /// mutation; the status flip and spend update are committed before
    /// the returned transfer is performed. On refusal nothing changes.
    pub fn execute_proposal(
        &mut self,
        proposal: &mut Proposal,
        executor: Principal,
        now: u64,
    ) -> (r: Result<Reservation, TreasuryError>)
        requires
            old(self).wf(),
            old(proposal).wf(),
        ensures
            final(self).wf(),
            final(proposal).wf(),
            r.is_ok() == old(self).execute_allowed(*old(proposal), executor, now),
            r matches Ok(res) ==> res.amount == old(proposal).amount
                && res.recipient == old(proposal).recipient
                && res.prev_daily_spent == old(self).daily_spent
                && res.prev_last_reset_slot == old(self).last_reset_slot
                && *final(self) == old(self).execute_commit(old(proposal).amount, now)
                && *final(proposal) == old(proposal).with_executed(true),
            r matches Err(e) ==> *final(self) == *old(self) && *final(proposal) == *old(proposal)
                && e == old(self).execute_err(*old(proposal), executor, now),
    {
        if proposal.treasury != self.key {
            return Err(TreasuryError::ProposalTreasuryMismatch);
        }
        if self.paused {
            return Err(TreasuryError::TreasuryPaused);
        }
        if proposal.executed {
            return Err(TreasuryError::AlreadyExecuted);
        }
        if now > proposal.expires_slot {
            return Err(TreasuryError::ProposalExpired);
        }
        if proposal.approvals.len() < self.threshold as usize {
            return Err(TreasuryError::InsufficientApprovals);
        }
        if !is_member(&self.signers, executor) {
            return Err(TreasuryError::NotASigner);
        }
        let elapsed: bool = now > self.last_reset_slot && now - self.last_reset_slot > WINDOW_LEN;
        let effective: u64 = if elapsed {
            0
        } else {
            self.daily_spent
        };
        let sum: u64 = match effective.checked_add(proposal.amount) {
            Some(s) => s,
            None => {
                return Err(TreasuryError::Overflow);
            },
        };
        if sum > self.daily_spend_cap {
            return Err(TreasuryError::DailyCapExceeded);
        }
        let reservation = Reservation {
            amount: proposal.amount,
            recipient: proposal.recipient,
            prev_daily_spent: self.daily_spent,
            prev_last_reset_slot: self.last_reset_slot,
        };
        proposal.executed = true;
        self.daily_spent = sum;
        if elapsed {
            self.last_reset_slot = now;
        }
        Ok(reservation)
    }

    /// Undoes a committed execution after the host reports that the
    /// external transfer failed: the proposal returns to Pending and
    /// the spend window is restored from the reservation, leaving no
    /// trace of the attempt.
    pub fn rollback_execution(&mut self, proposal: &mut Proposal, reservation: &Reservation)
        requires
            old(self).wf(),
            reservation.prev_daily_spent <= old(self).daily_spend_cap,
        ensures
            final(self).wf(),
            *final(self) == old(self).rollback_commit(*reservation),
            *final(proposal) == old(proposal).with_executed(false),
    {
        proposal.executed = false;
        self.daily_spent = reservation.prev_daily_spent;
        self.last_reset_slot = reservation.prev_last_reset_slot;
    }

    /// Exactly the signer-set changes this state accepts.
    pub open spec fn update_signers_allowed(
        self,
        new_signers: Seq<Principal>,
        new_threshold: u8,
        proof_p: Proposal,
        authority: Principal,
        now: u64,
    ) -> bool {
        &&& proof_p.treasury == self.key
        &&& self.signers@.contains(authority)
        &&& 2 <= new_signers.len() <= MAX_SIGNERS
        &&& 2 <= new_threshold <= new_signers.len()
        &&& new_signers.no_duplicates()
        &&& !proof_p.executed
        &&& now <= proof_p.expires_slot
        &&& proof_p.approvals@.len() >= self.threshold
    }

    /// The error reported for a refused signer-set change, in check
    /// order.
    pub open spec fn update_signers_err(
        self,
        new_signers: Seq<Principal>,
        new_threshold: u8,
        proof_p: Proposal,
        authority: Principal,
        now: u64,
    ) -> TreasuryError {
        if proof_p.treasury != self.key {
            TreasuryError::ProposalTreasuryMismatch
        } else if !self.signers@.contains(authority) {
            TreasuryError::NotASigner
        } else if new_signers.len() < 2 {
            TreasuryError::InsufficientSigners
        } else if new_signers.len() > MAX_SIGNERS {
            TreasuryError::TooManySigners
        } else if new_threshold < 2 {
            TreasuryError::ThresholdTooLow
        } else if new_threshold > new_signers.len() {
            TreasuryError::ThresholdExceedsSigners
        } else if !new_signers.no_duplicates() {
            TreasuryError::DuplicateSigner
        } else if proof_p.executed {
            TreasuryError::AlreadyExecuted
        } else if now > proof_p.expires_slot {
            TreasuryError::ProposalExpired
        } else {
            TreasuryError::InsufficientApprovals
        }
    }

    /// Replaces the signer set and threshold. The change must be proven
    /// by a live proposal of this treasury that has reached the current
    /// quorum threshold, and the caller must be a current signer: no
    /// single authority can capture the treasury.
    pub fn update_signers(
        &mut self,
        new_signers: Vec<Principal>,
        new_threshold: u8,
        config_proposal: &Proposal,
        authority: Principal,
        now: u64,
    ) -> (r: Result<(), TreasuryError>)
        requires
            old(self).wf(),
        ensures
            final(self).wf(),
            r.is_ok() == old(self).update_signers_allowed(
                new_signers@, new_threshold, *config_proposal, authority, now),
            r.is_ok() ==> final(self).signers@ == new_signers@
                && final(self).threshold == new_threshold
                && *final(self) == (TreasuryState {
                    signers: final(self).signers,
                    threshold: new_threshold,
                    ..*old(self)
                }),
            r matches Err(e) ==> *final(self) == *old(self)
                && e == old(self).update_signers_err(
                    new_signers@, new_threshold, *config_proposal, authority, now),
    {
        if config_proposal.treasury != self.key {
            return Err(TreasuryError::ProposalTreasuryMismatch);
        }
        if !is_member(&self.signers, authority) {
            return Err(TreasuryError::NotASigner);
        }
        if new_signers.len() < 2 {
            return Err(TreasuryError::InsufficientSigners);
        }
        if new_signers.len() > MAX_SIGNERS {
            return Err(TreasuryError::TooManySigners);
        }
        if new_threshold < 2 {
            return Err(TreasuryError::ThresholdTooLow);
        }
        if new_threshold as usize > new_signers.len() {
            return Err(TreasuryError::ThresholdExceedsSigners);
        }
        if has_duplicate(&new_signers) {
            return Err(TreasuryError::DuplicateSigner);
        }
        if config_proposal.executed {
            return Err(TreasuryError::AlreadyExecuted);
        }
        if now > config_proposal.expires_slot {
            return Err(TreasuryError::ProposalExpired);
        }
        if config_proposal.approvals.len() < self.threshold as usize {
            return Err(TreasuryError::InsufficientApprovals);
        }
        self.signers = new_signers;
        self.threshold = new_threshold;
        Ok(())
    }

    /// Pauses the treasury: any single signer may, for fast response.
    pub fn emergency_pause(&mut self, signer: Principal) -> (r: Result<(), TreasuryError>)
        requires
            old(self).wf(),
        ensures
            final(self).wf(),
            r.is_ok() == (!old(self).paused && old(self).signers@.contains(signer)),
            r.is_ok() ==> *final(self) == (TreasuryState { paused: true, ..*old(self) }),
            r matches Err(e) ==> *final(self) == *old(self)
                && e == (if old(self).paused {
                    TreasuryError::AlreadyPaused
                } else {
                    TreasuryError::NotASigner
                }),
    {
        if self.paused {
            return Err(TreasuryError::AlreadyPaused);
        }
        if !is_member(&self.signers, signer) {
            return Err(TreasuryError::NotASigner);
        }
        self.paused = true;
        Ok(())
    }

    /// Exactly the resumes this state accepts.
    pub open spec fn resume_allowed(self, proof_p: Proposal, signer: Principal) -> bool {
        &&& proof_p.treasury == self.key
        &&& self.paused
        &&& self.signers@.contains(signer)
        &&& proof_p.approvals@.len() >= self.threshold
    }

    /// The error reported for a refused resume, in check order.
    pub open spec fn resume_err(self, proof_p: Proposal, signer: Principal) -> TreasuryError {
        if proof_p.treasury != self.key {
            TreasuryError::ProposalTreasuryMismatch
        } else if !self.paused {
            TreasuryError::NotPaused
        } else if !self.signers@.contains(signer) {
            TreasuryError::NotASigner
        } else {
            TreasuryError::InsufficientApprovals
        }
    }

    /// Lifts the pause. Unlike pausing, resuming needs a proposal of
    /// this treasury that has reached the quorum threshold.
    pub fn resume(&mut self, resume_proposal: &Proposal, signer: Principal) -> (r: Result<(), TreasuryError>)
        requires
            old(self).wf(),
        ensures
            final(self).wf(),
            r.is_ok() == old(self).resume_allowed(*resume_proposal, signer),
            r.is_ok() ==> *final(self) == (TreasuryState { paused: false, ..*old(self) }),
            r matches Err(e) ==> *final(self) == *old(self)
                && e == old(self).resume_err(*resume_proposal, signer),
    {
        if resume_proposal.treasury != self.key {
            return Err(TreasuryError::ProposalTreasuryMismatch);
        }
        if !self.paused {
            return Err(TreasuryError::NotPaused);
        }
        if !is_member(&self.signers, signer) {
            return Err(TreasuryError::NotASigner);
        }
        if resume_proposal.approvals.len() < self.threshold as usize {
            return Err(TreasuryError::InsufficientApprovals);
        }
        self.paused = false;
        Ok(())
    }
}

/// No quorum, no mutation: a signer-set change whose proof proposal
/// sits below the current threshold is refused — with
/// `InsufficientApprovals` once every other guard passes — even when
/// the caller is a legitimate signer.
pub proof fn lemma_signer_change_needs_quorum(
    t: TreasuryState,
    new_signers: Seq<Principal>,
    new_threshold: u8,
    proof_p: Proposal,
    authority: Principal,
    now: u64,
)
    requires
        proof_p.approvals@.len() < t.threshold,
    ensures
        !t.update_signers_allowed(new_signers, new_threshold, proof_p, authority, now),
        (proof_p.treasury == t.key && t.signers@.contains(authority)
            && 2 <= new_signers.len() <= MAX_SIGNERS
            && 2 <= new_threshold <= new_signers.len() && new_signers.no_duplicates()
            && !proof_p.executed && now <= proof_p.expires_slot)
            ==> t.update_signers_err(new_signers, new_threshold, proof_p, authority, now)
                == TreasuryError::InsufficientApprovals,
{
}

/// A failed external transfer leaves no trace: rolling back the commit
/// of a successful execution with its own reservation restores the
/// treasury's spend window and the proposal exactly as they were.
pub proof fn lemma_execute_rollback_atomic(t: TreasuryState, p: Proposal, now: u64)
    requires
        !p.executed,
        t.effective_spent(now) + p.amount <= t.daily_spend_cap,
    ensures
        t.execute_commit(p.amount, now).rollback_commit(Reservation {
            amount: p.amount,
            recipient: p.recipient,
            prev_daily_spent: t.daily_spent,
            prev_last_reset_slot: t.last_reset_slot,
        }) == t,
        p.with_executed(true).with_executed(false) == p,
{
}

/// A successful execution never lifts the spent total above the daily
/// cap: the cap check precedes every mutation.
pub proof fn lemma_cap_respected(t: TreasuryState, amount: u64, now: u64)
    requires
        t.effective_spent(now) + amount <= t.daily_spend_cap,
    ensures
        t.execute_commit(amount, now).daily_spent <= t.daily_spend_cap,
{
}

/// Once a full window has elapsed, the next execution starts from a
/// clean slate: the committed total is the new amount alone and the
/// window restarts at `now`, with no explicit reset call needed.
pub proof fn lemma_window_rolls_over(t: TreasuryState, amount: u64, now: u64)
    requires
        t.window_elapsed(now),
    ensures
        t.execute_commit(amount, now).daily_spent == amount,
        t.execute_commit(amount, now).last_reset_slot == now,
{
}

} // verus!
