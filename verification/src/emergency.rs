//! Guardian pause controller: two-channel emergency voting.
//!
//! A small guardian committee can halt the system fast: pause votes
//! accumulate until a (possibly low) threshold flips the controller to
//! Active, for a hard-capped duration. Lifting the pause early is
//! deliberately stricter — it takes every guardian's resume vote — and
//! the pause expires on its own through a permissionless check, so the
//! emergency power can always be formed quickly but never held
//! indefinitely. Pause votes and resume votes are tracked separately
//! and never conflated; a cooldown keeps back-to-back pauses apart.

use vstd::prelude::*;

use crate::members::{Principal, has_duplicate, is_member, lemma_no_dup_subset_len, subset_of};
use vstd::seq_lib::seq_to_set_is_finite;
use vstd::set_lib::lemma_subset_equality;

verus! {

/// Fewest guardians an emergency controller may hold.
pub const MIN_GUARDIANS: usize = 2;

/// Most guardians an emergency controller may hold.
pub const MAX_GUARDIANS: usize = 5;

/// Hard ceiling of one pause, in slots (about 6 hours).
pub const MAX_PAUSE_DURATION: u64 = 54000;

/// Pause-to-pause cooldown, in slots (about 24 hours).
pub const PAUSE_COOLDOWN: u64 = 216000;

/// Longest accepted pause reason, in bytes.
pub const MAX_REASON_LEN: usize = 100;

#[derive(Debug, Clone, Copy, PartialEq, Eq, Structural)]
pub enum EmergencyError {
    InsufficientGuardians,
    TooManyGuardians,
    InvalidThreshold,
    DuplicateGuardian,
    NotAGuardian,
    AlreadyPaused,
    NotPaused,
    ReasonTooLong,
    CooldownActive,
    AlreadyVoted,
    AlreadyVotedResume,
    CannotUpdateWhilePaused,
}

/// The guardian set and the full pause lifecycle of one controller.
#[derive(Debug, Clone, PartialEq, Eq)]
pub struct EmergencyState {
    pub guardians: Vec<Principal>,
    pub pause_threshold: u8,
    pub is_paused: bool,
    pub pause_start_slot: u64,
    pub pause_end_slot: u64,
    pub last_pause_end_slot: u64,
    pub total_pauses: u64,
    pub current_pause_votes: Vec<Principal>,
    pub current_resume_votes: Vec<Principal>,
}

/// A snapshot of the controller for observers.
#[derive(Debug, Clone, Copy, PartialEq, Eq, Structural)]
pub struct PauseStatus {
    pub is_paused: bool,
    pub pause_end_slot: u64,
    pub slots_remaining: u64,
    pub total_pauses: u64,
    pub current_pause_votes: u8,
    pub current_resume_votes: u8,
    pub pause_threshold: u8,
    pub guardians_count: u8,
}

impl EmergencyState {
    /// Structural invariant established by `initialize` and preserved
    /// by every operation. Both vote channels are duplicate-free
    /// subsets of the guardian set; while Inactive the resume channel
    /// is empty and the pause channel sits below the threshold; while
    /// Active the end slot is pinned one maximum duration after the
    /// start.
    pub open spec fn wf(self) -> bool {
        &&& self.guardians@.no_duplicates()
        &&& MIN_GUARDIANS <= self.guardians@.len() <= MAX_GUARDIANS
        &&& 1 <= self.pause_threshold <= self.guardians@.len()
        &&& self.current_pause_votes@.no_duplicates()
        &&& subset_of(self.current_pause_votes@, self.guardians@)
        &&& self.current_resume_votes@.no_duplicates()
        &&& subset_of(self.current_resume_votes@, self.guardians@)
        &&& !self.is_paused ==> self.current_resume_votes@.len() == 0
        &&& !self.is_paused ==> self.current_pause_votes@.len() < self.pause_threshold
        &&& self.is_paused ==> self.pause_end_slot == self.pause_start_slot + MAX_PAUSE_DURATION
    }

    /// Exactly the configurations `initialize` accepts.
    pub open spec fn init_allowed(guardians: Seq<Principal>, pause_threshold: u8) -> bool {
        &&& MIN_GUARDIANS <= guardians.len() <= MAX_GUARDIANS
        &&& 1 <= pause_threshold <= guardians.len()
        &&& guardians.no_duplicates()
    }

    /// The error reported for a refused configuration, in check order.
    pub open spec fn init_err(guardians: Seq<Principal>, pause_threshold: u8) -> EmergencyError {
        if guardians.len() < MIN_GUARDIANS {
            EmergencyError::InsufficientGuardians
        } else if guardians.len() > MAX_GUARDIANS {
            EmergencyError::TooManyGuardians
        } else if pause_threshold < 1 || pause_threshold > guardians.len() {
            EmergencyError::InvalidThreshold
        } else {
            EmergencyError::DuplicateGuardian
        }
    }

    /// Creates an Inactive controller with empty vote channels.
    pub fn initialize(guardians: Vec<Principal>, pause_threshold: u8) -> (r: Result<
        EmergencyState,
        EmergencyError,
    >)
        ensures
            r.is_ok() == Self::init_allowed(guardians@, pause_threshold),
            r matches Ok(s) ==> s.wf() && s.guardians@ == guardians@
                && s.pause_threshold == pause_threshold && !s.is_paused
                && s.pause_start_slot == 0 && s.pause_end_slot == 0
                && s.last_pause_end_slot == 0 && s.total_pauses == 0
                && s.current_pause_votes@.len() == 0 && s.current_resume_votes@.len() == 0,
            r matches Err(e) ==> e == Self::init_err(guardians@, pause_threshold),
    {
        if guardians.len() < MIN_GUARDIANS {
            return Err(EmergencyError::InsufficientGuardians);
        }
        if guardians.len() > MAX_GUARDIANS {
            return Err(EmergencyError::TooManyGuardians);
        }
        if pause_threshold < 1 {
            return Err(EmergencyError::InvalidThreshold);
        }
        if pause_threshold as usize > guardians.len() {
            return Err(EmergencyError::InvalidThreshold);
        }
        if has_duplicate(&guardians) {
            return Err(EmergencyError::DuplicateGuardian);
        }
        Ok(EmergencyState {
            guardians,
            pause_threshold,
            is_paused: false,
            pause_start_slot: 0,
            pause_end_slot: 0,
            last_pause_end_slot: 0,
            total_pauses: 0,
            current_pause_votes: Vec::new(),
            current_resume_votes: Vec::new(),
        })
    }

    /// The cooldown since the previous pause has passed (or none has
    /// ever run).
    pub open spec fn cooldown_over(self, now: u64) -> bool {
        self.last_pause_end_slot == 0 || now >= self.last_pause_end_slot + PAUSE_COOLDOWN
    }

    /// This vote will cross the activation threshold.
    pub open spec fn pause_vote_crosses(self) -> bool {
        self.current_pause_votes@.len() + 1 >= self.pause_threshold
    }

    /// Exactly the pause votes this state accepts.
    pub open spec fn vote_pause_allowed(self, guardian: Principal, reason: Seq<u8>, now: u64) -> bool {
        &&& self.guardians@.contains(guardian)
        &&& !self.is_paused
        &&& reason.len() <= MAX_REASON_LEN
        &&& self.cooldown_over(now)
        &&& !self.current_pause_votes@.contains(guardian)
    }

    /// The error reported for a refused pause vote, in check order.
    pub open spec fn vote_pause_err(self, guardian: Principal, reason: Seq<u8>, now: u64) -> EmergencyError {
        if !self.guardians@.contains(guardian) {
            EmergencyError::NotAGuardian
        } else if self.is_paused {
            EmergencyError::AlreadyPaused
        } else if reason.len() > MAX_REASON_LEN {
            EmergencyError::ReasonTooLong
        } else if !self.cooldown_over(now) {
            EmergencyError::CooldownActive
        } else {
            EmergencyError::AlreadyVoted
        }
    }

    /// Records one guardian's pause vote while Inactive and outside the
    /// cooldown. When the vote reaches the threshold the controller
    /// flips to Active on the spot: the pause starts now, ends one
    /// maximum duration later, the pause counter steps, and the resume
    /// channel is cleared for the new session.
    pub fn vote_pause(
        &mut self,
        guardian: Principal,
        reason: Vec<u8>,
        now: u64,
    ) -> (r: Result<(), EmergencyError>)
        requires
            old(self).wf(),
            now <= u64::MAX - MAX_PAUSE_DURATION,
            old(self).total_pauses < u64::MAX,
        ensures
            final(self).wf(),
            r.is_ok() == old(self).vote_pause_allowed(guardian, reason@, now),
            r.is_ok() ==> final(self).current_pause_votes@
                == old(self).current_pause_votes@.push(guardian),
            r.is_ok() && old(self).pause_vote_crosses() ==> *final(self) == (EmergencyState {
                current_pause_votes: final(self).current_pause_votes,
                current_resume_votes: final(self).current_resume_votes,
                is_paused: true,
                pause_start_slot: now,
                pause_end_slot: (now + MAX_PAUSE_DURATION) as u64,
                total_pauses: (old(self).total_pauses + 1) as u64,
                ..*old(self)
            }) && final(self).current_resume_votes@.len() == 0,
            r.is_ok() && !old(self).pause_vote_crosses() ==> *final(self) == (EmergencyState {
                current_pause_votes: final(self).current_pause_votes,
                ..*old(self)
            }),
            r matches Err(e) ==> *final(self) == *old(self)
                && e == old(self).vote_pause_err(guardian, reason@, now),
    {
        if !is_member(&self.guardians, guardian) {
            return Err(EmergencyError::NotAGuardian);
        }
        if self.is_paused {
            return Err(EmergencyError::AlreadyPaused);
        }
        if reason.len() > MAX_REASON_LEN {
            return Err(EmergencyError::ReasonTooLong);
        }
        if self.last_pause_end_slot > 0 {
            let cooled = now >= self.last_pause_end_slot
                && now - self.last_pause_end_slot >= PAUSE_COOLDOWN;
            if !cooled {
                return Err(EmergencyError::CooldownActive);
            }
        }
        if is_member(&self.current_pause_votes, guardian) {
            return Err(EmergencyError::AlreadyVoted);
        }
        self.current_pause_votes.push(guardian);
        if self.current_pause_votes.len() >= self.pause_threshold as usize {
            self.is_paused = true;
            self.pause_start_slot = now;
            self.pause_end_slot = now + MAX_PAUSE_DURATION;
            self.total_pauses = self.total_pauses + 1;
            self.current_resume_votes = Vec::new();
        }
        Ok(())
    }

    /// Removes one guardian's pending pause vote while Inactive; asking
    /// to remove a vote that was never cast changes nothing.
    pub fn cancel_vote(&mut self, guardian: Principal) -> (r: Result<(), EmergencyError>)
        requires
            old(self).wf(),
        ensures
            final(self).wf(),
            r.is_ok() == (old(self).guardians@.contains(guardian) && !old(self).is_paused),
            r.is_ok() ==> final(self).current_pause_votes@
                == old(self).current_pause_votes@.remove_value(guardian)
                && *final(self) == (EmergencyState {
                    current_pause_votes: final(self).current_pause_votes,
                    ..*old(self)
                }),
            r matches Err(e) ==> *final(self) == *old(self)
                && e == (if !old(self).guardians@.contains(guardian) {
                    EmergencyError::NotAGuardian
                } else {
                    EmergencyError::AlreadyPaused
                }),
    {
        if !is_member(&self.guardians, guardian) {
            return Err(EmergencyError::NotAGuardian);
        }
        if self.is_paused {
            return Err(EmergencyError::AlreadyPaused);
        }
        let ghost pre = self.current_pause_votes@;
        let n = self.current_pause_votes.len();
        let mut i: usize = 0;
        while i < n
            invariant
                old(self).wf(),
                *self == *old(self),
                old(self).guardians@.contains(guardian),
                !old(self).is_paused,
                pre == self.current_pause_votes@,
                n == self.current_pause_votes@.len(),
                0 <= i <= n,
                forall|k: int| 0 <= k < i ==> pre[k] != guardian,
            decreases n - i,
        {
            if self.current_pause_votes[i] == guardian {
                proof {
                    pre.index_of_first_ensures(guardian);
                    assert(pre.index_of_first(guardian) == Some(i as int));
                    pre.remove_ensures(i as int);
                    assert forall|p: int, q: int|
                        0 <= p < q < pre.remove(i as int).len() implies pre.remove(i as int)[p]
                        != pre.remove(i as int)[q] by {
                        let p0: int = if p < i { p } else { p + 1 };
                        let q0: int = if q < i { q } else { q + 1 };
                        assert(pre.remove(i as int)[p] == pre[p0]);
                        assert(pre.remove(i as int)[q] == pre[q0]);
                    }
                    assert forall|k: int| 0 <= k < pre.remove(i as int).len() implies old(
                        self,
                    ).guardians@.contains(pre.remove(i as int)[k]) by {
                        let k0: int = if k < i { k } else { k + 1 };
                        assert(pre.remove(i as int)[k] == pre[k0]);
                    }
                }
                self.current_pause_votes.remove(i);
                return Ok(());
            }
            i += 1;
        }
        proof {
            pre.index_of_first_ensures(guardian);
        }
        Ok(())
    }

    /// Every guardian has cast a resume vote after this one.
    pub open spec fn resume_vote_unanimous(self) -> bool {
        self.current_resume_votes@.len() + 1 == self.guardians@.len()
    }

    /// Exactly the resume votes this state accepts.
    pub open spec fn vote_resume_allowed(self, guardian: Principal) -> bool {
        &&& self.guardians@.contains(guardian)
        &&& self.is_paused
        &&& !self.current_resume_votes@.contains(guardian)
    }

    /// The error reported for a refused resume vote, in check order.
    pub open spec fn vote_resume_err(self, guardian: Principal) -> EmergencyError {
        if !self.guardians@.contains(guardian) {
            EmergencyError::NotAGuardian
        } else if !self.is_paused {
            EmergencyError::NotPaused
        } else {
            EmergencyError::AlreadyVotedResume
        }
    }

    /// Records one guardian's resume vote while Active, on the resume
    /// channel only. Lifting the pause early takes full unanimity —
    /// every guardian, not merely the activation threshold. On
    /// unanimity the controller returns to Inactive, the cooldown
    /// anchor moves to now, and both vote channels are cleared.
    pub fn vote_resume(&mut self, guardian: Principal, now: u64) -> (r: Result<(), EmergencyError>)
        requires
            old(self).wf(),
        ensures
            final(self).wf(),
            r.is_ok() == old(self).vote_resume_allowed(guardian),
            r.is_ok() && old(self).resume_vote_unanimous() ==> *final(self) == (EmergencyState {
                current_pause_votes: final(self).current_pause_votes,
                current_resume_votes: final(self).current_resume_votes,
                is_paused: false,
                last_pause_end_slot: now,
                ..*old(self)
            }) && final(self).current_pause_votes@.len() == 0
                && final(self).current_resume_votes@.len() == 0,
            r.is_ok() && !old(self).resume_vote_unanimous()
                ==> final(self).current_resume_votes@
                    == old(self).current_resume_votes@.push(guardian)
                && *final(self) == (EmergencyState {
                    current_resume_votes: final(self).current_resume_votes,
                    ..*old(self)
                }),
            r matches Err(e) ==> *final(self) == *old(self)
                && e == old(self).vote_resume_err(guardian),
    {
        if !is_member(&self.guardians, guardian) {
            return Err(EmergencyError::NotAGuardian);
        }
        if !self.is_paused {
            return Err(EmergencyError::NotPaused);
        }
        if is_member(&self.current_resume_votes, guardian) {
            return Err(EmergencyError::AlreadyVotedResume);
        }
        self.current_resume_votes.push(guardian);
        if self.current_resume_votes.len() == self.guardians.len() {
            self.is_paused = false;
            self.last_pause_end_slot = now;
            self.current_pause_votes = Vec::new();
            self.current_resume_votes = Vec::new();
        }
        Ok(())
    }

    /// The pause has reached its hard ceiling.
    pub open spec fn expiry_due(self, now: u64) -> bool {
        self.is_paused && now >= self.pause_end_slot
    }

    /// Permissionless watchdog: anyone may call it, and once the pause
    /// has reached its ceiling it forces the controller back to
    /// Inactive, anchors the cooldown at the scheduled end, and clears
    /// both vote channels. Before the ceiling it changes nothing, so
    /// the pause can never be cut short this way — nor outlive its
    /// ceiling once anyone checks.
    pub fn check_pause_expiry(&mut self, now: u64)
        requires
            old(self).wf(),
        ensures
            final(self).wf(),
            old(self).expiry_due(now) ==> *final(self) == (EmergencyState {
                current_pause_votes: final(self).current_pause_votes,
                current_resume_votes: final(self).current_resume_votes,
                is_paused: false,
                last_pause_end_slot: old(self).pause_end_slot,
                ..*old(self)
            }) && final(self).current_pause_votes@.len() == 0
                && final(self).current_resume_votes@.len() == 0,
            !old(self).expiry_due(now) ==> *final(self) == *old(self),
    {
        if self.is_paused && now >= self.pause_end_slot {
            self.is_paused = false;
            self.last_pause_end_slot = self.pause_end_slot;
            self.current_pause_votes = Vec::new();
            self.current_resume_votes = Vec::new();
        }
    }

    /// Exactly the guardian-set changes this state accepts.
    pub open spec fn update_guardians_allowed(
        self,
        new_guardians: Seq<Principal>,
        new_threshold: u8,
        authority: Principal,
    ) -> bool {
        &&& MIN_GUARDIANS <= new_guardians.len() <= MAX_GUARDIANS
        &&& 1 <= new_threshold <= new_guardians.len()
        &&& new_guardians.no_duplicates()
        &&& !self.is_paused
        &&& self.guardians@.contains(authority)
    }

    /// The error reported for a refused guardian-set change, in check
    /// order.
    pub open spec fn update_guardians_err(
        self,
        new_guardians: Seq<Principal>,
        new_threshold: u8,
        authority: Principal,
    ) -> EmergencyError {
        if new_guardians.len() < MIN_GUARDIANS {
            EmergencyError::InsufficientGuardians
        } else if new_guardians.len() > MAX_GUARDIANS {
            EmergencyError::TooManyGuardians
        } else if new_threshold < 1 || new_threshold > new_guardians.len() {
            EmergencyError::InvalidThreshold
        } else if !new_guardians.no_duplicates() {
            EmergencyError::DuplicateGuardian
        } else if self.is_paused {
            EmergencyError::CannotUpdateWhilePaused
        } else {
            EmergencyError::NotAGuardian
        }
    }

    /// Replaces the guardian set and threshold: locked out entirely
    /// while a pause is Active, and any in-flight votes tied to the old
    /// set are discarded.
    pub fn update_guardians(
        &mut self,
        new_guardians: Vec<Principal>,
        new_threshold: u8,
        authority: Principal,
    ) -> (r: Result<(), EmergencyError>)
        requires
            old(self).wf(),
        ensures
            final(self).wf(),
            r.is_ok() == old(self).update_guardians_allowed(new_guardians@, new_threshold, authority),
            r.is_ok() ==> final(self).guardians@ == new_guardians@
                && final(self).pause_threshold == new_threshold
                && *final(self) == (EmergencyState {
                    guardians: final(self).guardians,
                    pause_threshold: new_threshold,
                    current_pause_votes: final(self).current_pause_votes,
                    current_resume_votes: final(self).current_resume_votes,
                    ..*old(self)
                }) && final(self).current_pause_votes@.len() == 0
                && final(self).current_resume_votes@.len() == 0,
            r matches Err(e) ==> *final(self) == *old(self)
                && e == old(self).update_guardians_err(new_guardians@, new_threshold, authority),
    {
        if new_guardians.len() < MIN_GUARDIANS {
            return Err(EmergencyError::InsufficientGuardians);
        }
        if new_guardians.len() > MAX_GUARDIANS {
            return Err(EmergencyError::TooManyGuardians);
        }
        if new_threshold < 1 {
            return Err(EmergencyError::InvalidThreshold);
        }
        if new_threshold as usize > new_guardians.len() {
            return Err(EmergencyError::InvalidThreshold);
        }
        if has_duplicate(&new_guardians) {
            return Err(EmergencyError::DuplicateGuardian);
        }
        if self.is_paused {
            return Err(EmergencyError::CannotUpdateWhilePaused);
        }
        if !is_member(&self.guardians, authority) {
            return Err(EmergencyError::NotAGuardian);
        }
        self.guardians = new_guardians;
        self.pause_threshold = new_threshold;
        self.current_pause_votes = Vec::new();
        self.current_resume_votes = Vec::new();
        Ok(())
    }

    /// Reads the controller's standing, including how many slots of the
    /// current pause remain.
    pub fn get_status(&self, now: u64) -> (s: PauseStatus)
        requires
            self.wf(),
        ensures
            s.is_paused == self.is_paused,
            s.pause_end_slot == self.pause_end_slot,
            s.slots_remaining == (if self.is_paused && self.pause_end_slot > now {
                self.pause_end_slot - now
            } else {
                0
            }),
            s.total_pauses == self.total_pauses,
            s.current_pause_votes == self.current_pause_votes@.len(),
            s.current_resume_votes == self.current_resume_votes@.len(),
            s.pause_threshold == self.pause_threshold,
            s.guardians_count == self.guardians@.len(),
    {
        proof {
            lemma_no_dup_subset_len(self.current_pause_votes@, self.guardians@);
            lemma_no_dup_subset_len(self.current_resume_votes@, self.guardians@);
        }
        PauseStatus {
            is_paused: self.is_paused,
            pause_end_slot: self.pause_end_slot,
            slots_remaining: if self.is_paused && self.pause_end_slot > now {
                self.pause_end_slot - now
            } else {
                0
            },
            total_pauses: self.total_pauses,
            current_pause_votes: self.current_pause_votes.len() as u8,
            current_resume_votes: self.current_resume_votes.len() as u8,
            pause_threshold: self.pause_threshold,
            guardians_count: self.guardians.len() as u8,
        }
    }
}

/// Lifting a pause early really is full consensus: when the resume
/// channel matches the guardian set in size, every single guardian has
/// a resume vote on record.
pub proof fn lemma_unanimity_covers_guardians(s: EmergencyState)
    requires
        s.wf(),
        s.current_resume_votes@.len() == s.guardians@.len(),
    ensures
        forall|g: Principal| s.guardians@.contains(g) ==> s.current_resume_votes@.contains(g),
{
    broadcast use seq_to_set_is_finite;

    let votes = s.current_resume_votes@;
    let everyone = s.guardians@;
    votes.unique_seq_to_set();
    everyone.unique_seq_to_set();
    assert(votes.to_set().subset_of(everyone.to_set())) by {
        assert forall|x: Principal| votes.to_set().contains(x) implies everyone.to_set().contains(
            x,
        ) by {
            assert(votes.contains(x));
            let i = choose|i: int| 0 <= i < votes.len() && votes[i] == x;
            assert(everyone.contains(votes[i]));
        }
    }
    lemma_subset_equality(votes.to_set(), everyone.to_set());
    assert forall|g: Principal| everyone.contains(g) implies votes.contains(g) by {
        assert(everyone.to_set().contains(g));
        assert(votes.to_set().contains(g));
    }
}

/// Right after a pause ends, another cannot start: while `now` still
/// sits inside the cooldown window, a guardian's otherwise valid pause
/// vote is refused with `CooldownActive`.
pub proof fn lemma_cooldown_blocks_next_pause(
    s: EmergencyState,
    guardian: Principal,
    reason: Seq<u8>,
    now: u64,
)
    requires
        s.guardians@.contains(guardian),
        !s.is_paused,
        reason.len() <= MAX_REASON_LEN,
        s.last_pause_end_slot > 0,
        now < s.last_pause_end_slot + PAUSE_COOLDOWN,
    ensures
        !s.vote_pause_allowed(guardian, reason, now),
        s.vote_pause_err(guardian, reason, now) == EmergencyError::CooldownActive,
{
}

} // verus!
