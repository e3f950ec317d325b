use matrix_bot::autojoin::{
    replay, start, JoinAttemptState, JoinEnd, JoinRecord, JoinStep, FIRST_DELAY, MAX_ATTEMPTS,
    MAX_DELAY,
};
use matrix_bot::event::{MembershipEvent, MembershipState};

const ME: &str = "@example:localhost";
const ROOM: &str = "!SVkFJHzfwvuaIEawgC:localhost";

fn membership(target: &str, membership: MembershipState) -> MembershipEvent {
    MembershipEvent { room_id: ROOM.to_string(), state_key: target.to_string(), membership }
}

/// What a caller of the controller, fed with the results of its attempts,
/// ends up doing.
#[derive(Debug, PartialEq)]
struct Run {
    attempts: usize,
    delays: Vec<u64>,
    end: End,
}

#[derive(Debug, PartialEq)]
enum End {
    Idle,
    Retrying,
    Joined,
    GaveUp,
}

fn drive(event: &MembershipEvent, results: &[bool]) -> Run {
    let mut run = Run { attempts: 0, delays: Vec::new(), end: End::Idle };
    let mut state = match start(event, ME) {
        Some(state) => state,
        None => return run,
    };
    run.end = End::Retrying;
    for accepted in results {
        run.attempts += 1;
        match state.on_attempt(*accepted) {
            JoinStep::Joined => {
                run.end = End::Joined;
                return run;
            }
            JoinStep::GaveUp => {
                run.end = End::GaveUp;
                return run;
            }
            JoinStep::Retry { delay, state: next } => {
                run.delays.push(delay);
                state = next;
            }
        }
    }
    run
}

#[test]
fn limits_are_two_seconds_one_hour_twelve_attempts() {
    assert_eq!(FIRST_DELAY, 2);
    assert_eq!(MAX_DELAY, 3600);
    assert_eq!(MAX_ATTEMPTS, 12);
}

#[test]
fn invitation_for_the_bot_starts_with_a_fresh_state() {
    let state = start(&membership(ME, MembershipState::Invite), ME).unwrap();
    assert_eq!(state.room_id(), ROOM);
    assert_eq!(state.delay(), 2);
    assert_eq!(state.attempts(), 0);
}

#[test]
fn new_state_is_fresh() {
    let state = JoinAttemptState::new("!other:localhost".to_string());
    assert_eq!(state.room_id(), "!other:localhost");
    assert_eq!(state.delay(), 2);
    assert_eq!(state.attempts(), 0);
}

#[test]
fn events_for_somebody_else_start_nothing() {
    for target in ["@cheeky_monkey:matrix.org", "", "@example:localhos", "@example:localhost2"] {
        let event = membership(target, MembershipState::Invite);
        assert!(start(&event, ME).is_none());
        assert_eq!(drive(&event, &[true]).attempts, 0);
    }
}

#[test]
fn memberships_other_than_invite_start_nothing() {
    for state in [
        MembershipState::Ban,
        MembershipState::Join,
        MembershipState::Knock,
        MembershipState::Leave,
    ] {
        let event = membership(ME, state);
        assert!(start(&event, ME).is_none());
        let run = drive(&event, &[false, true]);
        assert_eq!(run, Run { attempts: 0, delays: vec![], end: End::Idle });
    }
}

#[test]
fn join_of_another_user_starts_nothing() {
    let event = membership("@cheeky_monkey:matrix.org", MembershipState::Join);
    assert!(start(&event, ME).is_none());
}

#[test]
fn success_at_first_attempt_takes_one_attempt_and_no_sleep() {
    let run = drive(&membership(ME, MembershipState::Invite), &[true, false, true]);
    assert_eq!(run, Run { attempts: 1, delays: vec![], end: End::Joined });
}

#[test]
fn three_failures_then_success() {
    let run = drive(&membership(ME, MembershipState::Invite), &[false, false, false, true]);
    assert_eq!(run, Run { attempts: 4, delays: vec![2, 4, 8], end: End::Joined });
}

#[test]
fn delays_double_up_to_2048_seconds() {
    let run = drive(&membership(ME, MembershipState::Invite), &[false; 11]);
    assert_eq!(
        run,
        Run {
            attempts: 11,
            delays: vec![2, 4, 8, 16, 32, 64, 128, 256, 512, 1024, 2048],
            end: End::Retrying,
        }
    );
}

#[test]
fn twelfth_failure_gives_up() {
    let run = drive(&membership(ME, MembershipState::Invite), &[false; 20]);
    assert_eq!(
        run,
        Run {
            attempts: 12,
            delays: vec![2, 4, 8, 16, 32, 64, 128, 256, 512, 1024, 2048],
            end: End::GaveUp,
        }
    );
}

#[test]
fn success_at_the_twelfth_attempt_still_joins() {
    let mut results = vec![false; 11];
    results.push(true);
    let run = drive(&membership(ME, MembershipState::Invite), &results);
    assert_eq!(run.attempts, 12);
    assert_eq!(run.delays.len(), 11);
    assert_eq!(run.delays.iter().sum::<u64>(), 4094);
    assert_eq!(run.end, End::Joined);
}

#[test]
fn state_counts_failures_and_keeps_the_room() {
    let state = JoinAttemptState::new(ROOM.to_string());
    let state = match state.on_attempt(false) {
        JoinStep::Retry { delay, state } => {
            assert_eq!(delay, 2);
            state
        }
        other => panic!("{:?}", other),
    };
    assert_eq!(state.room_id(), ROOM);
    assert_eq!(state.delay(), 4);
    assert_eq!(state.attempts(), 1);
    let state = match state.on_attempt(false) {
        JoinStep::Retry { delay, state } => {
            assert_eq!(delay, 4);
            state
        }
        other => panic!("{:?}", other),
    };
    assert_eq!(state.room_id(), ROOM);
    assert_eq!(state.delay(), 8);
    assert_eq!(state.attempts(), 2);
    assert!(matches!(state.on_attempt(true), JoinStep::Joined));
}

#[test]
fn two_invitations_are_handled_apart() {
    let mut first = JoinAttemptState::new("!one:localhost".to_string());
    let second = JoinAttemptState::new("!two:localhost".to_string());
    for _ in 0..3 {
        first = match first.on_attempt(false) {
            JoinStep::Retry { state, .. } => state,
            other => panic!("{:?}", other),
        };
    }
    assert_eq!(first.delay(), 16);
    assert_eq!(second.delay(), 2);
    assert_eq!(second.attempts(), 0);
    assert_eq!(second.room_id(), "!two:localhost");
}

#[test]
fn replay_of_no_attempt_waits_for_the_first() {
    let record = replay(ROOM.to_string(), &vec![]);
    assert_eq!(record, JoinRecord { attempts: 0, delays: vec![], end: JoinEnd::Retrying });
}

#[test]
fn replay_of_success_at_first_attempt() {
    let record = replay(ROOM.to_string(), &vec![true]);
    assert_eq!(record, JoinRecord { attempts: 1, delays: vec![], end: JoinEnd::Joined });
    let record = replay(ROOM.to_string(), &vec![true, false, false]);
    assert_eq!(record, JoinRecord { attempts: 1, delays: vec![], end: JoinEnd::Joined });
}

#[test]
fn replay_of_three_failures_then_success() {
    let record = replay(ROOM.to_string(), &vec![false, false, false, true]);
    assert_eq!(record, JoinRecord { attempts: 4, delays: vec![2, 4, 8], end: JoinEnd::Joined });
}

#[test]
fn replay_of_failures_only() {
    let all = vec![2, 4, 8, 16, 32, 64, 128, 256, 512, 1024, 2048];
    for failures in 0..=11 {
        let record = replay(ROOM.to_string(), &vec![false; failures]);
        let expected = JoinRecord {
            attempts: failures,
            delays: all[..failures].to_vec(),
            end: JoinEnd::Retrying,
        };
        assert_eq!(record, expected);
    }
    for failures in 12..=30 {
        let record = replay(ROOM.to_string(), &vec![false; failures]);
        assert_eq!(record, JoinRecord { attempts: 12, delays: all.clone(), end: JoinEnd::GaveUp });
    }
}

#[test]
fn replay_never_waits_longer_than_an_hour() {
    let record = replay(ROOM.to_string(), &vec![false; 64]);
    assert!(record.delays.iter().all(|delay| *delay <= MAX_DELAY));
    assert_eq!(record.delays.last(), Some(&2048));
    assert_eq!(record.attempts as u64, MAX_ATTEMPTS);
}

#[test]
fn replay_agrees_with_a_caller_of_the_controller() {
    let invite = membership(ME, MembershipState::Invite);
    let schedules: Vec<Vec<bool>> = vec![
        vec![],
        vec![true],
        vec![false],
        vec![false, true, false],
        vec![false; 11],
        vec![false; 12],
        vec![false; 13],
        {
            let mut late = vec![false; 11];
            late.push(true);
            late
        },
    ];
    for results in schedules {
        let run = drive(&invite, &results);
        let record = replay(ROOM.to_string(), &results);
        assert_eq!(record.attempts, run.attempts);
        assert_eq!(record.delays, run.delays);
        let end = match record.end {
            JoinEnd::Retrying => End::Retrying,
            JoinEnd::Joined => End::Joined,
            JoinEnd::GaveUp => End::GaveUp,
        };
        assert_eq!(end, run.end);
    }
}
