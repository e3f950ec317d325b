//! The auto-join controller: accepting an invitation that is addressed to the
//! bot, and trying again with growing delays while the server still refuses.
//!
//! The controller decides and the caller acts. The caller tries to accept the
//! invitation, tells the controller how that went, and sleeps for as long as
//! the controller asks before it tries again.

use crate::event::{MembershipEvent, MembershipState};
use vstd::prelude::*;

verus! {

/// Seconds to wait after the first failed attempt.
pub const FIRST_DELAY: u64 = 2;

/// The longest wait, in seconds, that the controller still asks for.
pub const MAX_DELAY: u64 = 3600;

/// The most attempts that one invitation gets.
pub const MAX_ATTEMPTS: u64 = 12;

/// The wait after failed attempt number `failures + 1`, in seconds: 2 after
/// the first, and twice the wait before after each later one.
pub open spec fn delay_after(failures: nat) -> nat
    decreases failures,
{
    if failures == 0 {
        2
    } else {
        2 * delay_after((failures - 1) as nat)
    }
}

/// A membership event starts the joining of a room where it invites the bot
/// itself.
pub open spec fn qualifies(event: MembershipEvent, own_user_id: Seq<char>) -> bool {
    event.membership is Invite && event.state_key@ == own_user_id
}

/// The model of a [`JoinAttemptState`].
pub struct JoinAttemptView {
    /// The room that the bot is invited to.
    pub room_id: Seq<char>,
    /// The wait, in seconds, that follows if the next attempt fails.
    pub delay: nat,
    /// How many attempts have failed.
    pub attempts: nat,
}

/// The model of a [`JoinStep`].
pub enum JoinStepView {
    Joined,
    Retry { delay: nat, state: JoinAttemptView },
    GaveUp,
}

impl JoinAttemptView {
    /// The state in which the handling of an invitation begins.
    pub open spec fn fresh(room_id: Seq<char>) -> JoinAttemptView {
        JoinAttemptView { room_id, delay: FIRST_DELAY as nat, attempts: 0 }
    }

    /// The states that the controller can be in.
    pub open spec fn wf(self) -> bool {
        self.attempts < MAX_ATTEMPTS && self.delay == delay_after(self.attempts)
    }

    /// What follows an attempt: the room is joined where the attempt
    /// succeeded; where it failed, a wait of `delay` seconds and another
    /// attempt with the delay doubled, unless that wait would be longer than
    /// an hour, at which the controller gives up.
    pub open spec fn after_attempt(self, accepted: bool) -> JoinStepView {
        if accepted {
            JoinStepView::Joined
        } else if self.delay > MAX_DELAY {
            JoinStepView::GaveUp
        } else {
            JoinStepView::Retry {
                delay: self.delay,
                state: JoinAttemptView {
                    room_id: self.room_id,
                    delay: 2 * self.delay,
                    attempts: self.attempts + 1,
                },
            }
        }
    }
}

/// The state of the handling of one invitation, while the room is not joined
/// and the controller has not given up.
#[derive(Debug)]
pub struct JoinAttemptState {
    room_id: String,
    delay: u64,
    attempts: u64,
}

impl View for JoinAttemptState {
    type V = JoinAttemptView;

    closed spec fn view(&self) -> JoinAttemptView {
        JoinAttemptView {
            room_id: self.room_id@,
            delay: self.delay as nat,
            attempts: self.attempts as nat,
        }
    }
}

impl JoinAttemptState {
    #[verifier::type_invariant]
    spec fn inv(self) -> bool {
        self@.wf()
    }

    /// The state in which the handling of an invitation to `room_id` begins.
    pub fn new(room_id: String) -> (state: JoinAttemptState)
        ensures
            state@ == JoinAttemptView::fresh(room_id@),
            state@.wf(),
    {
        JoinAttemptState { room_id, delay: FIRST_DELAY, attempts: 0 }
    }

    /// The room that the bot is invited to.
    pub fn room_id(&self) -> (room_id: &String)
        ensures
            room_id@ == self@.room_id,
    {
        &self.room_id
    }

    /// The wait, in seconds, that follows if the next attempt fails.
    pub fn delay(&self) -> (delay: u64)
        ensures
            delay == self@.delay,
    {
        self.delay
    }

    /// How many attempts have failed.
    pub fn attempts(&self) -> (attempts: u64)
        ensures
            attempts == self@.attempts,
    {
        self.attempts
    }

    /// Takes the result of an attempt to accept the invitation and says what
    /// follows: see [`JoinAttemptView::after_attempt`].
    pub fn on_attempt(self, accepted: bool) -> (step: JoinStep)
        ensures
            step@ == self@.after_attempt(accepted),
    {
        proof {
            use_type_invariant(&self);
            lemma_delay_bounds(self@.attempts);
        }
        if accepted {
            JoinStep::Joined
        } else if self.delay > MAX_DELAY {
            JoinStep::GaveUp
        } else {
            let delay = self.delay;
            JoinStep::Retry {
                delay,
                state: JoinAttemptState {
                    room_id: self.room_id,
                    delay: 2 * delay,
                    attempts: self.attempts + 1,
                },
            }
        }
    }
}

/// What follows an attempt to accept an invitation.
#[derive(Debug)]
pub enum JoinStep {
    /// The room is joined: the handling of the invitation is over.
    Joined,
    /// The attempt failed: wait for `delay` seconds, try again, and hand the
    /// result to `state`.
    Retry { delay: u64, state: JoinAttemptState },
    /// The attempt failed and no other will be made.
    GaveUp,
}

impl View for JoinStep {
    type V = JoinStepView;

    open spec fn view(&self) -> JoinStepView {
        match *self {
            JoinStep::Joined => JoinStepView::Joined,
            JoinStep::Retry { delay, state } => JoinStepView::Retry {
                delay: delay as nat,
                state: state@,
            },
            JoinStep::GaveUp => JoinStepView::GaveUp,
        }
    }
}

/// Starts the handling of an invitation: gives the state for a membership
/// event that invites `own_user_id`, and nothing for any other event.
pub fn start(event: &MembershipEvent, own_user_id: &str) -> (state: Option<JoinAttemptState>)
    ensures
        state is Some <==> qualifies(*event, own_user_id@),
        state matches Some(s) ==> s@ == JoinAttemptView::fresh(event.room_id@),
{
    let own = own_user_id.to_owned();
    match event.membership {
        MembershipState::Invite => {
            if event.state_key == own {
                Some(JoinAttemptState::new(event.room_id.clone()))
            } else {
                None
            }
        },
        _ => None,
    }
}

/// Every wait is at least two seconds, and a later one is no shorter than an
/// earlier one.
pub proof fn lemma_delay_grows(earlier: nat, later: nat)
    requires
        earlier <= later,
    ensures
        2 <= delay_after(earlier) <= delay_after(later),
    decreases later,
{
    if earlier < later {
        lemma_delay_grows(earlier, (later - 1) as nat);
    } else if later > 0 {
        lemma_delay_grows((earlier - 1) as nat, (later - 1) as nat);
    }
}

/// The wait after the eleventh failure, 2048 seconds, is the last one that is
/// no longer than an hour: the wait after the twelfth would be 4096 seconds.
pub proof fn lemma_delay_bounds(failures: nat)
    ensures
        failures < 11 ==> delay_after(failures) <= 2048,
        failures == 11 ==> delay_after(failures) == 4096,
        failures > 11 ==> delay_after(failures) >= 8192,
{
    assert(delay_after(10) == 2048 && delay_after(11) == 4096 && delay_after(12) == 8192) by {
        reveal_with_fuel(delay_after, 13);
    }
    if failures < 11 {
        lemma_delay_grows(failures, 10);
    } else if failures > 11 {
        lemma_delay_grows(12, failures);
    }
}

/// How the handling of an invitation stands after some attempts.
#[derive(Clone, Copy, Debug, PartialEq, Eq, Structural)]
pub enum JoinEnd {
    /// The last attempt failed and another is due after the last delay.
    Retrying,
    /// An attempt succeeded.
    Joined,
    /// The controller gave up.
    GaveUp,
}

/// What the caller did while it handled one invitation.
pub struct JoinRun {
    /// How many times it tried to accept the invitation.
    pub attempts: nat,
    /// The waits between the attempts, in seconds and in order.
    pub delays: Seq<nat>,
    /// Where the handling stands.
    pub end: JoinEnd,
}

/// The run of a caller that starts in `state` and whose attempts end as
/// `results` say, one after the other (`true` for an attempt that succeeds):
/// it goes by [`JoinAttemptView::after_attempt`] until the room is joined, the
/// controller gives up or the results are used up.
pub open spec fn run_from(state: JoinAttemptView, results: Seq<bool>) -> JoinRun
    decreases results.len(),
{
    if results.len() == 0 {
        JoinRun { attempts: 0, delays: Seq::empty(), end: JoinEnd::Retrying }
    } else {
        match state.after_attempt(results[0]) {
            JoinStepView::Joined => JoinRun {
                attempts: 1,
                delays: Seq::empty(),
                end: JoinEnd::Joined,
            },
            JoinStepView::GaveUp => JoinRun {
                attempts: 1,
                delays: Seq::empty(),
                end: JoinEnd::GaveUp,
            },
            JoinStepView::Retry { delay, state: next } => {
                let rest = run_from(next, results.drop_first());
                JoinRun {
                    attempts: 1 + rest.attempts,
                    delays: seq![delay] + rest.delays,
                    end: rest.end,
                }
            },
        }
    }
}

/// The run that the handling of an invitation to `room_id` makes.
pub open spec fn run(room_id: Seq<char>, results: Seq<bool>) -> JoinRun {
    run_from(JoinAttemptView::fresh(room_id), results)
}

/// What a caller did while it handled one invitation, as [`replay`] records
/// it.
#[derive(Debug, PartialEq, Eq)]
pub struct JoinRecord {
    /// How many times the caller tried to accept the invitation.
    pub attempts: usize,
    /// The waits between the attempts, in seconds and in order.
    pub delays: Vec<u64>,
    /// Where the handling stands.
    pub end: JoinEnd,
}

impl View for JoinRecord {
    type V = JoinRun;

    open spec fn view(&self) -> JoinRun {
        JoinRun {
            attempts: self.attempts as nat,
            delays: Seq::new(self.delays@.len(), |i: int| self.delays@[i] as nat),
            end: self.end,
        }
    }
}

/// Goes through the handling of an invitation to `room_id` with attempts
/// that end as `results` say, and records what a caller of the controller
/// does: how often it tries, how long it waits in between, and where that
/// leaves it.
pub fn replay(room_id: String, results: &Vec<bool>) -> (record: JoinRecord)
    ensures
        record@ == run(room_id@, results@),
{
    let mut state = JoinAttemptState::new(room_id);
    let mut delays: Vec<u64> = Vec::new();
    let mut i: usize = 0;
    proof {
        let whole = run(room_id@, results@);
        assert(results@.skip(0) == results@);
        assert(whole.delays == Seq::new(0, |k: int| delays@[k] as nat) + whole.delays);
    }
    while i < results.len()
        invariant
            i <= results@.len(),
            run(room_id@, results@).attempts == i + run_from(
                state@,
                results@.skip(i as int),
            ).attempts,
            run(room_id@, results@).delays == Seq::new(delays@.len(), |k: int| delays@[k] as nat)
                + run_from(state@, results@.skip(i as int)).delays,
            run(room_id@, results@).end == run_from(state@, results@.skip(i as int)).end,
        decreases results@.len() - i,
    {
        let ghost rest = results@.skip(i as int);
        let ghost before = Seq::new(delays@.len(), |k: int| delays@[k] as nat);
        assert(rest[0] == results@[i as int]);
        assert(rest.drop_first() == results@.skip(i + 1));
        match state.on_attempt(results[i]) {
            JoinStep::Joined => {
                let record = JoinRecord { attempts: i + 1, delays, end: JoinEnd::Joined };
                assert(record@.delays == before + Seq::<nat>::empty());
                return record;
            },
            JoinStep::GaveUp => {
                let record = JoinRecord { attempts: i + 1, delays, end: JoinEnd::GaveUp };
                assert(record@.delays == before + Seq::<nat>::empty());
                return record;
            },
            JoinStep::Retry { delay, state: next } => {
                delays.push(delay);
                assert(Seq::new(delays@.len(), |k: int| delays@[k] as nat) == before + seq![
                    delay as nat,
                ]);
                assert((before + seq![delay as nat]) + run_from(next@, rest.drop_first()).delays
                    == before + (seq![delay as nat] + run_from(next@, rest.drop_first()).delays));
                state = next;
                i += 1;
            },
        }
    }
    let record = JoinRecord { attempts: i, delays, end: JoinEnd::Retrying };
    assert(results@.skip(i as int).len() == 0);
    assert(record@.delays == record@.delays + Seq::<nat>::empty());
    record
}

/// The number of failures with which `results` begins.
pub open spec fn leading_failures(results: Seq<bool>) -> nat
    decreases results.len(),
{
    if results.len() == 0 || results[0] {
        0
    } else {
        1 + leading_failures(results.drop_first())
    }
}

/// The state that follows a failed attempt is one that the controller can be
/// in.
pub proof fn lemma_retry_keeps_wf(state: JoinAttemptView, accepted: bool)
    requires
        state.wf(),
    ensures
        state.after_attempt(accepted) matches JoinStepView::Retry { delay, state: next } ==> {
            &&& next.wf()
            &&& delay == delay_after(state.attempts)
            &&& next.attempts == state.attempts + 1
            &&& next.room_id == state.room_id
        },
        state.after_attempt(accepted) is GaveUp <==> !accepted && state.attempts == 11,
        state.after_attempt(accepted) is Joined <==> accepted,
{
    lemma_delay_bounds(state.attempts);
}

/// A run from a state with `state.attempts` failures behind it: the waits go
/// on doubling from where the state stands, the run counts the leading
/// failures until the twelfth failure in all, and it ends by what stopped it.
proof fn lemma_run_from(state: JoinAttemptView, results: Seq<bool>)
    requires
        state.wf(),
    ensures
        ({
            let run = run_from(state, results);
            let failures = leading_failures(results);
            let left = (12 - state.attempts) as nat;
            &&& run.delays.len() == if failures < left { failures } else { (left - 1) as nat }
            &&& forall|i: int|
                0 <= i < run.delays.len() ==> run.delays[i] == delay_after(
                    (state.attempts + i) as nat,
                )
            &&& run.end is GaveUp <==> failures >= left
            &&& run.end is Joined <==> failures < left && failures < results.len()
            &&& run.end is Retrying <==> failures < left && failures == results.len()
            &&& run.attempts == if failures >= left {
                left
            } else if failures < results.len() {
                failures + 1
            } else {
                failures
            }
        }),
    decreases results.len(),
{
    lemma_retry_keeps_wf(state, true);
    lemma_retry_keeps_wf(state, false);
    if results.len() > 0 {
        match state.after_attempt(results[0]) {
            JoinStepView::Retry { delay, state: next } => {
                let rest = results.drop_first();
                lemma_run_from(next, rest);
                let run = run_from(state, results);
                let tail = run_from(next, rest);
                assert(run.delays == seq![delay] + tail.delays);
                assert forall|i: int| 0 <= i < run.delays.len() implies run.delays[i]
                    == delay_after((state.attempts + i) as nat) by {
                    if i > 0 {
                        assert(run.delays[i] == tail.delays[i - 1]);
                    }
                }
            },
            _ => {},
        }
    }
}

/// The waits between the attempts are 2, 4, 8, 16, 32 seconds and so on, each
/// twice the one before, and there are never more than eleven of them.
pub proof fn lemma_delays_double(room_id: Seq<char>, results: Seq<bool>)
    ensures
        run(room_id, results).delays.len() <= 11,
        forall|i: int|
            0 <= i < run(room_id, results).delays.len() ==> #[trigger] run(
                room_id,
                results,
            ).delays[i] == delay_after(i as nat),
        forall|i: int|
            0 < i < run(room_id, results).delays.len() ==> #[trigger] run(
                room_id,
                results,
            ).delays[i] == 2 * run(room_id, results).delays[i - 1],
        run(room_id, results).delays.len() > 0 ==> run(room_id, results).delays[0] == 2,
{
    lemma_run_from(JoinAttemptView::fresh(room_id), results);
    let delays = run(room_id, results).delays;
    assert forall|i: int| 0 < i < delays.len() implies #[trigger] delays[i] == 2 * delays[i
        - 1] by {
        assert(delays[i] == delay_after(i as nat));
        assert(delays[i - 1] == delay_after((i - 1) as nat));
    }
}

/// The controller gives up at the twelfth failure in a row, the one after
/// which the wait would be longer than an hour: not before and not after. By
/// then the caller has tried twelve times and waited eleven times, last for
/// 2048 seconds.
pub proof fn lemma_gives_up_at_twelfth_failure(room_id: Seq<char>, results: Seq<bool>)
    ensures
        run(room_id, results).end is GaveUp <==> leading_failures(results) >= 12,
        run(room_id, results).end is GaveUp ==> {
            &&& run(room_id, results).attempts == 12
            &&& run(room_id, results).delays.len() == 11
            &&& run(room_id, results).delays[10] == 2048
        },
        run(room_id, results).attempts <= 12,
        delay_after(10) <= MAX_DELAY < delay_after(11),
{
    lemma_run_from(JoinAttemptView::fresh(room_id), results);
    lemma_delay_bounds(10);
    lemma_delay_bounds(11);
    assert(delay_after(10) == 2048) by {
        reveal_with_fuel(delay_after, 11);
    }
}

/// An invitation that is accepted at the first attempt takes one attempt and
/// no wait.
pub proof fn lemma_first_attempt_succeeds(room_id: Seq<char>, results: Seq<bool>)
    requires
        results.len() > 0,
        results[0],
    ensures
        run(room_id, results).attempts == 1,
        run(room_id, results).delays.len() == 0,
        run(room_id, results).end is Joined,
{
}

/// An invitation that is accepted after `failures` failed attempts, fewer
/// than twelve, takes `failures + 1` attempts and `failures` waits.
pub proof fn lemma_joins_after_failures(room_id: Seq<char>, results: Seq<bool>)
    requires
        leading_failures(results) < 12,
        leading_failures(results) < results.len(),
    ensures
        run(room_id, results).attempts == leading_failures(results) + 1,
        run(room_id, results).delays.len() == leading_failures(results),
        run(room_id, results).end is Joined,
{
    lemma_run_from(JoinAttemptView::fresh(room_id), results);
}

} // verus!
