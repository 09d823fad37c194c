use quorum_gate::emergency::{
    EmergencyError, EmergencyState, MAX_PAUSE_DURATION, PAUSE_COOLDOWN,
};

fn fresh_controller() -> EmergencyState {
    EmergencyState::initialize(vec![1, 2, 3], 2).unwrap()
}

#[test]
fn emergency_init_accepts_valid_config() {
    let s = EmergencyState::initialize(vec![1, 2, 3], 2).unwrap();
    assert_eq!(s.guardians, vec![1, 2, 3]);
    assert_eq!(s.pause_threshold, 2);
    assert!(!s.is_paused);
    assert_eq!(s.pause_start_slot, 0);
    assert_eq!(s.pause_end_slot, 0);
    assert_eq!(s.last_pause_end_slot, 0);
    assert_eq!(s.total_pauses, 0);
    assert!(s.current_pause_votes.is_empty());
    assert!(s.current_resume_votes.is_empty());
}

#[test]
fn init_accepts_threshold_of_one() {
    let s = EmergencyState::initialize(vec![1, 2], 1).unwrap();
    assert_eq!(s.pause_threshold, 1);
}

#[test]
fn init_rejects_bad_guardian_sets() {
    assert_eq!(
        EmergencyState::initialize(vec![1], 1).unwrap_err(),
        EmergencyError::InsufficientGuardians
    );
    assert_eq!(
        EmergencyState::initialize(vec![1, 2, 3, 4, 5, 6], 2).unwrap_err(),
        EmergencyError::TooManyGuardians
    );
    assert_eq!(
        EmergencyState::initialize(vec![1, 2, 3], 0).unwrap_err(),
        EmergencyError::InvalidThreshold
    );
    assert_eq!(
        EmergencyState::initialize(vec![1, 2, 3], 4).unwrap_err(),
        EmergencyError::InvalidThreshold
    );
    assert_eq!(
        EmergencyState::initialize(vec![1, 2, 2], 2).unwrap_err(),
        EmergencyError::DuplicateGuardian
    );
}

#[test]
fn pause_activates_at_threshold() {
    let mut s = fresh_controller();
    s.vote_pause(1, b"dex exploit".to_vec(), 500).unwrap();
    assert!(!s.is_paused);
    assert_eq!(s.current_pause_votes, vec![1]);
    s.vote_pause(2, b"dex exploit".to_vec(), 600).unwrap();
    assert!(s.is_paused);
    assert_eq!(s.pause_start_slot, 600);
    assert_eq!(s.pause_end_slot, 600 + MAX_PAUSE_DURATION);
    assert_eq!(s.total_pauses, 1);
    assert_eq!(s.current_pause_votes, vec![1, 2]);
    assert!(s.current_resume_votes.is_empty());
}

#[test]
fn pause_vote_guards() {
    let mut s = fresh_controller();
    assert_eq!(
        s.vote_pause(42, Vec::new(), 500).unwrap_err(),
        EmergencyError::NotAGuardian
    );
    assert_eq!(
        s.vote_pause(1, vec![b'x'; 101], 500).unwrap_err(),
        EmergencyError::ReasonTooLong
    );
    s.vote_pause(1, Vec::new(), 500).unwrap();
    assert_eq!(
        s.vote_pause(1, Vec::new(), 500).unwrap_err(),
        EmergencyError::AlreadyVoted
    );
    s.vote_pause(2, Vec::new(), 600).unwrap();
    assert_eq!(
        s.vote_pause(3, Vec::new(), 700).unwrap_err(),
        EmergencyError::AlreadyPaused
    );
}

#[test]
fn resume_needs_full_unanimity() {
    let mut s = fresh_controller();
    s.vote_pause(1, Vec::new(), 500).unwrap();
    s.vote_pause(2, Vec::new(), 600).unwrap();
    assert!(s.is_paused);

    s.vote_resume(1, 700).unwrap();
    assert!(s.is_paused);
    s.vote_resume(2, 800).unwrap();
    assert!(s.is_paused);
    assert_eq!(s.current_resume_votes, vec![1, 2]);

    s.vote_resume(3, 900).unwrap();
    assert!(!s.is_paused);
    assert_eq!(s.last_pause_end_slot, 900);
    assert!(s.current_pause_votes.is_empty());
    assert!(s.current_resume_votes.is_empty());
}

#[test]
fn resume_vote_guards() {
    let mut s = fresh_controller();
    assert_eq!(s.vote_resume(1, 500).unwrap_err(), EmergencyError::NotPaused);
    s.vote_pause(1, Vec::new(), 500).unwrap();
    s.vote_pause(2, Vec::new(), 600).unwrap();
    assert_eq!(s.vote_resume(42, 700).unwrap_err(), EmergencyError::NotAGuardian);
    s.vote_resume(1, 700).unwrap();
    assert_eq!(
        s.vote_resume(1, 800).unwrap_err(),
        EmergencyError::AlreadyVotedResume
    );
    assert_eq!(s.current_resume_votes, vec![1]);
}

#[test]
fn resume_votes_are_tracked_separately_from_pause_votes() {
    let mut s = fresh_controller();
    s.vote_pause(1, Vec::new(), 500).unwrap();
    s.vote_pause(2, Vec::new(), 600).unwrap();
    assert_eq!(s.current_pause_votes, vec![1, 2]);
    assert!(s.current_resume_votes.is_empty());
    s.vote_resume(1, 700).unwrap();
    s.vote_resume(2, 800).unwrap();
    assert_eq!(s.current_pause_votes, vec![1, 2]);
    assert_eq!(s.current_resume_votes, vec![1, 2]);
}

#[test]
fn expiry_check_is_a_noop_before_the_ceiling() {
    let mut s = fresh_controller();
    s.vote_pause(1, Vec::new(), 500).unwrap();
    s.vote_pause(2, Vec::new(), 600).unwrap();
    let before = s.clone();
    s.check_pause_expiry(600 + MAX_PAUSE_DURATION - 1);
    assert_eq!(s, before);
    assert!(s.is_paused);
}

#[test]
fn expiry_check_forces_inactive_at_the_ceiling() {
    let mut s = fresh_controller();
    s.vote_pause(1, Vec::new(), 500).unwrap();
    s.vote_pause(2, Vec::new(), 600).unwrap();
    let end = s.pause_end_slot;
    s.check_pause_expiry(end);
    assert!(!s.is_paused);
    assert_eq!(s.last_pause_end_slot, end);
    assert!(s.current_pause_votes.is_empty());
    assert!(s.current_resume_votes.is_empty());
}

#[test]
fn expiry_check_does_nothing_while_inactive() {
    let mut s = fresh_controller();
    let before = s.clone();
    s.check_pause_expiry(1_000_000);
    assert_eq!(s, before);
}

#[test]
fn cooldown_blocks_the_next_pause() {
    let mut s = fresh_controller();
    s.vote_pause(1, Vec::new(), 500).unwrap();
    s.vote_pause(2, Vec::new(), 600).unwrap();
    let end = s.pause_end_slot;
    s.check_pause_expiry(end);

    assert_eq!(
        s.vote_pause(1, Vec::new(), end).unwrap_err(),
        EmergencyError::CooldownActive
    );
    assert_eq!(
        s.vote_pause(1, Vec::new(), end + PAUSE_COOLDOWN - 1).unwrap_err(),
        EmergencyError::CooldownActive
    );
    s.vote_pause(1, Vec::new(), end + PAUSE_COOLDOWN).unwrap();
    assert_eq!(s.current_pause_votes, vec![1]);
}

#[test]
fn cancel_vote_removes_only_that_vote() {
    let mut s = fresh_controller();
    s.vote_pause(1, Vec::new(), 500).unwrap();
    s.cancel_vote(1).unwrap();
    assert!(s.current_pause_votes.is_empty());
    s.vote_pause(1, Vec::new(), 500).unwrap();
    s.cancel_vote(2).unwrap();
    assert_eq!(s.current_pause_votes, vec![1]);
    assert_eq!(s.cancel_vote(42).unwrap_err(), EmergencyError::NotAGuardian);
    s.vote_pause(2, Vec::new(), 600).unwrap();
    assert_eq!(s.cancel_vote(1).unwrap_err(), EmergencyError::AlreadyPaused);
}

#[test]
fn update_guardians_replaces_set_and_clears_votes() {
    let mut s = fresh_controller();
    s.vote_pause(1, Vec::new(), 500).unwrap();
    s.update_guardians(vec![4, 5, 6, 7], 3, 2).unwrap();
    assert_eq!(s.guardians, vec![4, 5, 6, 7]);
    assert_eq!(s.pause_threshold, 3);
    assert!(s.current_pause_votes.is_empty());
    assert!(s.current_resume_votes.is_empty());
}

#[test]
fn update_guardians_guards() {
    let mut s = fresh_controller();
    assert_eq!(
        s.update_guardians(vec![4], 1, 1).unwrap_err(),
        EmergencyError::InsufficientGuardians
    );
    assert_eq!(
        s.update_guardians(vec![4, 5, 6, 7, 8, 9], 2, 1).unwrap_err(),
        EmergencyError::TooManyGuardians
    );
    assert_eq!(
        s.update_guardians(vec![4, 5], 0, 1).unwrap_err(),
        EmergencyError::InvalidThreshold
    );
    assert_eq!(
        s.update_guardians(vec![4, 5], 3, 1).unwrap_err(),
        EmergencyError::InvalidThreshold
    );
    assert_eq!(
        s.update_guardians(vec![4, 4], 1, 1).unwrap_err(),
        EmergencyError::DuplicateGuardian
    );
    assert_eq!(
        s.update_guardians(vec![4, 5], 1, 42).unwrap_err(),
        EmergencyError::NotAGuardian
    );
    s.vote_pause(1, Vec::new(), 500).unwrap();
    s.vote_pause(2, Vec::new(), 600).unwrap();
    assert_eq!(
        s.update_guardians(vec![4, 5], 1, 1).unwrap_err(),
        EmergencyError::CannotUpdateWhilePaused
    );
}

#[test]
fn status_reports_the_controller() {
    let mut s = fresh_controller();
    let st = s.get_status(100);
    assert!(!st.is_paused);
    assert_eq!(st.slots_remaining, 0);
    assert_eq!(st.total_pauses, 0);
    assert_eq!(st.current_pause_votes, 0);
    assert_eq!(st.current_resume_votes, 0);
    assert_eq!(st.pause_threshold, 2);
    assert_eq!(st.guardians_count, 3);

    s.vote_pause(1, Vec::new(), 500).unwrap();
    s.vote_pause(2, Vec::new(), 600).unwrap();
    s.vote_resume(3, 700).unwrap();
    let st = s.get_status(700);
    assert!(st.is_paused);
    assert_eq!(st.pause_end_slot, 600 + MAX_PAUSE_DURATION);
    assert_eq!(st.slots_remaining, 600 + MAX_PAUSE_DURATION - 700);
    assert_eq!(st.current_pause_votes, 2);
    assert_eq!(st.current_resume_votes, 1);

    let st = s.get_status(600 + MAX_PAUSE_DURATION + 5);
    assert_eq!(st.slots_remaining, 0);
}

#[test]
fn a_single_threshold_guardian_can_pause_alone() {
    let mut s = EmergencyState::initialize(vec![1, 2], 1).unwrap();
    s.vote_pause(2, Vec::new(), 500).unwrap();
    assert!(s.is_paused);
    assert_eq!(s.total_pauses, 1);
}

#[test]
fn pause_counter_accumulates_across_sessions() {
    let mut s = fresh_controller();
    s.vote_pause(1, Vec::new(), 500).unwrap();
    s.vote_pause(2, Vec::new(), 600).unwrap();
    let end = s.pause_end_slot;
    s.check_pause_expiry(end);
    let next = end + PAUSE_COOLDOWN;
    s.vote_pause(3, Vec::new(), next).unwrap();
    s.vote_pause(1, Vec::new(), next + 1).unwrap();
    assert!(s.is_paused);
    assert_eq!(s.total_pauses, 2);
}
