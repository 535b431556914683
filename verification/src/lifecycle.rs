//! Delivering a lifecycle unit start straight to a VM's agent, without the admin coordinator.
//!
//! The delivery is a small state machine. A [`Stage`] says what the program has to do next, and
//! an [`Event`] says what came of it. Time is measured in nanoseconds since the delivery began,
//! and all waiting shares one budget.
//!
//! The exit codes are a stable contract that the host's microvm `ExecStop` relies on.

use vstd::prelude::*;

verus! {

/// Delivered: a clean reply, or the connection dropped or the deadline passed after the request
/// was sent. The latter is the normal end of a poweroff, where the agent is killed before it can
/// reply.
pub const EXIT_ACCEPTED: i32 = 0;

/// No connection could be made. Nothing was delivered.
pub const EXIT_UNREACHABLE: i32 = 10;

/// The budget ran out before the request was sent.
pub const EXIT_TIMEOUT_PRE_ACCEPT: i32 = 11;

/// The agent does not accept this caller.
pub const EXIT_DENIED: i32 = 12;

/// The agent answered with an error, for example because the unit is not on its whitelist.
pub const EXIT_AGENT_ERROR: i32 = 14;

/// The budget in seconds where the user names none.
pub const DEFAULT_DIRECT_TIMEOUT_SECS: u64 = 3;

pub const NANOS_PER_SEC: u128 = 1_000_000_000;

/// The pause before the single retry.
pub const RETRY_PAUSE_NANOS: u128 = 100_000_000;

/// The status codes of gRPC.
#[derive(Clone, Copy, Debug, PartialEq, Eq, Structural)]
pub enum Code {
    Success,
    Cancelled,
    Unknown,
    InvalidArgument,
    DeadlineExceeded,
    NotFound,
    AlreadyExists,
    PermissionDenied,
    ResourceExhausted,
    FailedPrecondition,
    Aborted,
    OutOfRange,
    Unimplemented,
    Internal,
    Unavailable,
    DataLoss,
    Unauthenticated,
}

/// Which connection attempt is under way.
#[derive(Clone, Copy, Debug, PartialEq, Eq, Structural)]
pub enum Attempt {
    First,
    Second,
}

/// What the program has to do next.
#[derive(Clone, Copy, Debug, PartialEq, Eq, Structural)]
pub enum Stage {
    /// Read the clock before an attempt.
    CheckClock { attempt: Attempt },
    /// Connect to the agent, and give up after `within` nanoseconds.
    Connect { attempt: Attempt, within: u128 },
    /// Wait this long before the second attempt.
    Pause { nanos: u128 },
    /// Send the unit start, and stop waiting for the reply after `within` nanoseconds.
    Send { within: u128 },
    /// End the program with this code.
    Exit { code: i32 },
}

/// What came of a [`Stage`]. `elapsed` is the clock's reading when it was over.
#[derive(Clone, Copy, Debug, PartialEq, Eq, Structural)]
pub enum Event {
    Clock { elapsed: u128 },
    Connected { elapsed: u128 },
    ConnectFailed { elapsed: u128 },
    ConnectTimedOut,
    Rested,
    Replied,
    Refused { code: Code },
    ReplyTimedOut,
}

/// What is left of the budget; nothing once it is used up.
pub open spec fn left(budget: u128, elapsed: u128) -> u128 {
    if elapsed < budget {
        (budget - elapsed) as u128
    } else {
        0
    }
}

/// Whether a status that comes in after sending only shows that the connection went away.
pub open spec fn connection_lost(code: Code) -> bool {
    code is Unavailable || code is Cancelled || code is Aborted || code is DeadlineExceeded
}

/// Whether a status says that this caller is not accepted.
pub open spec fn caller_refused(code: Code) -> bool {
    code is PermissionDenied || code is Unauthenticated
}

/// The exit code for a status that the unit start was answered with.
pub open spec fn status_exit_code(code: Code) -> i32 {
    if connection_lost(code) {
        EXIT_ACCEPTED
    } else if caller_refused(code) {
        EXIT_DENIED
    } else {
        EXIT_AGENT_ERROR
    }
}

/// Whether `event` is an outcome of `stage`.
pub open spec fn answers(stage: Stage, event: Event) -> bool {
    match stage {
        Stage::CheckClock { .. } => event is Clock,
        Stage::Connect { .. } => event is Connected || event is ConnectFailed
            || event is ConnectTimedOut,
        Stage::Pause { .. } => event is Rested,
        Stage::Send { .. } => event is Replied || event is Refused || event is ReplyTimedOut,
        Stage::Exit { .. } => false,
    }
}

/// The stage that follows `stage` after `event`. An event that is no outcome of the stage
/// changes nothing.
pub open spec fn next_stage(budget: u128, stage: Stage, event: Event) -> Stage {
    match (stage, event) {
        (Stage::CheckClock { attempt }, Event::Clock { elapsed }) => if left(budget, elapsed) == 0 {
            Stage::Exit { code: EXIT_TIMEOUT_PRE_ACCEPT }
        } else {
            Stage::Connect { attempt, within: left(budget, elapsed) }
        },
        (Stage::Connect { .. }, Event::Connected { elapsed }) => if left(budget, elapsed) == 0 {
            Stage::Exit { code: EXIT_TIMEOUT_PRE_ACCEPT }
        } else {
            Stage::Send { within: left(budget, elapsed) }
        },
        (Stage::Connect { attempt: Attempt::First, .. }, Event::ConnectFailed { elapsed }) => if left(
            budget,
            elapsed,
        ) > RETRY_PAUSE_NANOS {
            Stage::Pause { nanos: RETRY_PAUSE_NANOS }
        } else {
            Stage::CheckClock { attempt: Attempt::Second }
        },
        (Stage::Connect { attempt: Attempt::Second, .. }, Event::ConnectFailed { .. }) => Stage::Exit {
            code: EXIT_UNREACHABLE,
        },
        (Stage::Connect { .. }, Event::ConnectTimedOut) => Stage::Exit {
            code: EXIT_TIMEOUT_PRE_ACCEPT,
        },
        (Stage::Pause { .. }, Event::Rested) => Stage::CheckClock { attempt: Attempt::Second },
        (Stage::Send { .. }, Event::Replied) => Stage::Exit { code: EXIT_ACCEPTED },
        (Stage::Send { .. }, Event::ReplyTimedOut) => Stage::Exit { code: EXIT_ACCEPTED },
        (Stage::Send { .. }, Event::Refused { code }) => Stage::Exit {
            code: status_exit_code(code),
        },
        _ => stage,
    }
}

/// The exit code for a status that the unit start was answered with.
pub fn exit_code_for_status(code: Code) -> (exit: i32)
    ensures
        exit == status_exit_code(code),
{
    match code {
        // Connection reset, cancelled or out of time once the request was already sent.
        Code::Unavailable | Code::Cancelled | Code::Aborted | Code::DeadlineExceeded =>
            EXIT_ACCEPTED,
        Code::PermissionDenied | Code::Unauthenticated => EXIT_DENIED,
        _ => EXIT_AGENT_ERROR,
    }
}

fn time_left(budget: u128, elapsed: u128) -> (rest: u128)
    ensures
        rest == left(budget, elapsed),
{
    if elapsed < budget {
        budget - elapsed
    } else {
        0
    }
}

/// A delivery under way.
#[derive(Debug)]
pub struct Lifecycle {
    budget: u128,
    stage: Stage,
}

impl Lifecycle {
    /// What the delivery may take in all, in nanoseconds.
    pub closed spec fn budget(&self) -> u128 {
        self.budget
    }

    /// What has to be done next.
    pub closed spec fn pending(&self) -> Stage {
        self.stage
    }

    /// What has to be done next.
    pub fn stage(&self) -> (stage: Stage)
        ensures
            stage == self.pending(),
    {
        self.stage
    }

    /// Moves on to the next stage. An event that is no outcome of the current stage changes
    /// nothing.
    pub fn advance(&mut self, event: Event)
        ensures
            final(self).budget() == old(self).budget(),
            final(self).pending() == next_stage(old(self).budget(), old(self).pending(), event),
    {
        self.stage = match (self.stage, event) {
            (Stage::CheckClock { attempt }, Event::Clock { elapsed }) => {
                let within: u128 = time_left(self.budget, elapsed);
                if within == 0 {
                    Stage::Exit { code: EXIT_TIMEOUT_PRE_ACCEPT }
                } else {
                    Stage::Connect { attempt, within }
                }
            },
            // A request that is given no time at all may never leave this host: it is not sent.
            (Stage::Connect { .. }, Event::Connected { elapsed }) => {
                let within: u128 = time_left(self.budget, elapsed);
                if within == 0 {
                    Stage::Exit { code: EXIT_TIMEOUT_PRE_ACCEPT }
                } else {
                    Stage::Send { within }
                }
            },
            // One retry absorbs a transient failure during a busy host shutdown.
            (Stage::Connect { attempt: Attempt::First, .. }, Event::ConnectFailed { elapsed }) => {
                if time_left(self.budget, elapsed) > RETRY_PAUSE_NANOS {
                    Stage::Pause { nanos: RETRY_PAUSE_NANOS }
                } else {
                    Stage::CheckClock { attempt: Attempt::Second }
                }
            },
            (Stage::Connect { attempt: Attempt::Second, .. }, Event::ConnectFailed { .. }) => {
                Stage::Exit { code: EXIT_UNREACHABLE }
            },
            (Stage::Connect { .. }, Event::ConnectTimedOut) => {
                Stage::Exit { code: EXIT_TIMEOUT_PRE_ACCEPT }
            },
            (Stage::Pause { .. }, Event::Rested) => Stage::CheckClock { attempt: Attempt::Second },
            // Once the request is out, silence means that the agent is shutting down.
            (Stage::Send { .. }, Event::Replied) => Stage::Exit { code: EXIT_ACCEPTED },
            (Stage::Send { .. }, Event::ReplyTimedOut) => Stage::Exit { code: EXIT_ACCEPTED },
            (Stage::Send { .. }, Event::Refused { code }) => {
                Stage::Exit { code: exit_code_for_status(code) }
            },
            (stage, _) => stage,
        };
    }
}

/// The stage that every delivery begins with.
pub open spec fn first_stage() -> Stage {
    Stage::CheckClock { attempt: Attempt::First }
}

/// Begins a delivery that may take `timeout_secs` seconds in all.
pub fn direct_lifecycle(timeout_secs: u64) -> (delivery: Lifecycle)
    ensures
        delivery.budget() == timeout_secs * NANOS_PER_SEC,
        delivery.budget() == timeout_secs * 1_000_000_000,
        delivery.pending() == first_stage(),
        delivery.pending() == (Stage::CheckClock { attempt: Attempt::First }),
{
    Lifecycle {
        budget: timeout_secs as u128 * NANOS_PER_SEC,
        stage: Stage::CheckClock { attempt: Attempt::First },
    }
}

/// The stages that a delivery goes through, from the first one to the one after all `events`.
pub open spec fn stages(budget: u128, events: Seq<Event>) -> Seq<Stage>
    decreases events.len(),
{
    if events.len() == 0 {
        seq![first_stage()]
    } else {
        let before = stages(budget, events.drop_last());
        before.push(next_stage(budget, before.last(), events.last()))
    }
}

/// Whether each of `events` is an outcome of the stage that it meets.
pub open spec fn proper(budget: u128, events: Seq<Event>) -> bool {
    forall|i: int|
        0 <= i < events.len() ==> answers(stages(budget, events)[i], #[trigger] events[i])
}

/// How far a stage is from the end. Every outcome brings it nearer.
pub open spec fn distance(stage: Stage) -> int {
    match stage {
        Stage::CheckClock { attempt: Attempt::First } => 6,
        Stage::Connect { attempt: Attempt::First, .. } => 5,
        Stage::Pause { .. } => 4,
        Stage::CheckClock { attempt: Attempt::Second } => 3,
        Stage::Connect { attempt: Attempt::Second, .. } => 2,
        Stage::Send { .. } => 1,
        Stage::Exit { .. } => 0,
    }
}

proof fn lemma_stages(budget: u128, events: Seq<Event>)
    ensures
        stages(budget, events).len() == events.len() + 1,
        stages(budget, events)[0] == first_stage(),
        forall|i: int|
            0 <= i < events.len() ==> stages(budget, events)[i + 1] == next_stage(
                budget,
                stages(budget, events)[i],
                #[trigger] events[i],
            ),
    decreases events.len(),
{
    if events.len() > 0 {
        let rest = events.drop_last();
        let before = stages(budget, rest);
        let all = stages(budget, events);
        lemma_stages(budget, rest);
        assert forall|i: int| 0 <= i < events.len() implies all[i + 1] == next_stage(
            budget,
            all[i],
            #[trigger] events[i],
        ) by {
            if i < rest.len() {
                assert(rest[i] == events[i]);
                assert(all[i + 1] == before[i + 1]);
                assert(all[i] == before[i]);
            }
        }
    }
}

proof fn lemma_nearer(budget: u128, events: Seq<Event>, i: int, j: int)
    requires
        proper(budget, events),
        0 <= i < j <= events.len(),
    ensures
        distance(stages(budget, events)[i]) > distance(stages(budget, events)[j]),
    decreases j - i,
{
    lemma_step(budget, events, j - 1);
    if i < j - 1 {
        lemma_nearer(budget, events, i, j - 1);
    }
}

/// A delivery comes to its end: it takes at most six steps, never does the same thing twice, and
/// is over exactly when no event can follow. So there are at most two connection attempts, at
/// most one pause, and the request is sent at most once.
pub proof fn law_delivery_ends(budget: u128, events: Seq<Event>)
    requires
        proper(budget, events),
    ensures
        events.len() <= 6,
        forall|i: int, j: int|
            0 <= i < j <= events.len() ==> distance(#[trigger] stages(budget, events)[i])
                > distance(#[trigger] stages(budget, events)[j]),
        stages(budget, events).last() is Exit <==> forall|event: Event|
            !answers(stages(budget, events).last(), event),
{
    lemma_stages(budget, events);
    let all = stages(budget, events);
    assert forall|i: int, j: int| 0 <= i < j <= events.len() implies distance(#[trigger] all[i])
        > distance(#[trigger] all[j]) by {
        lemma_nearer(budget, events, i, j);
    }
    lemma_length(budget, events, events.len() as int);
    let last = all.last();
    assert(answers(last, Event::Clock { elapsed: 0 }) || answers(last, Event::ConnectTimedOut)
        || answers(last, Event::Rested) || answers(last, Event::Replied) || last is Exit);
}

proof fn lemma_length(budget: u128, events: Seq<Event>, j: int)
    requires
        proper(budget, events),
        0 <= j <= events.len(),
    ensures
        distance(stages(budget, events)[j]) <= 6 - j,
    decreases j,
{
    lemma_stages(budget, events);
    if j > 0 {
        lemma_length(budget, events, j - 1);
        lemma_nearer(budget, events, j - 1, j);
    }
}

/// Whether the request was sent in the course of these stages.
pub open spec fn sent(stages: Seq<Stage>) -> bool {
    exists|i: int| 0 <= i < stages.len() && (#[trigger] stages[i]) is Send
}

/// The exit code tells the host whether anything was delivered: it is `EXIT_UNREACHABLE` or
/// `EXIT_TIMEOUT_PRE_ACCEPT` exactly where the request was never sent, and otherwise
/// `EXIT_ACCEPTED`, `EXIT_DENIED` or `EXIT_AGENT_ERROR`.
pub proof fn law_exit_code_tells_delivery(budget: u128, events: Seq<Event>)
    requires
        proper(budget, events),
    ensures
        stages(budget, events).last() matches Stage::Exit { code } ==> {
            &&& !sent(stages(budget, events)) <==> code == EXIT_UNREACHABLE || code
                == EXIT_TIMEOUT_PRE_ACCEPT
            &&& sent(stages(budget, events)) <==> code == EXIT_ACCEPTED || code == EXIT_DENIED
                || code == EXIT_AGENT_ERROR
        },
{
    lemma_stages(budget, events);
    let all = stages(budget, events);
    if all.last() is Exit {
        let n = events.len() as int;
        lemma_step(budget, events, n - 1);
        assert forall|i: int| 0 <= i < n - 1 implies !((#[trigger] all[i]) is Send) by {
            lemma_nearer(budget, events, i, n - 1);
            lemma_nearer(budget, events, i, n);
            if all[i] is Send {
                assert(distance(all[n - 1]) == 0);
            }
        }
    }
}

/// All waiting shares one deadline. A connection attempt gets exactly what is left when it
/// begins, and so does the sending with the wait for the reply; neither is ever begun with
/// nothing left. The pause before the retry is made only where it leaves something of the budget.
pub proof fn law_one_deadline(budget: u128, events: Seq<Event>, i: int)
    requires
        proper(budget, events),
        0 < i <= events.len(),
    ensures
        match stages(budget, events)[i] {
            Stage::Connect { within, .. } => events[i - 1] matches Event::Clock { elapsed }
                && elapsed + within == budget && within > 0,
            Stage::Send { within } => events[i - 1] matches Event::Connected { elapsed } && elapsed
                + within == budget && within > 0,
            Stage::Pause { nanos } => events[i - 1] matches Event::ConnectFailed { elapsed }
                && elapsed + nanos < budget,
            _ => true,
        },
{
    lemma_step(budget, events, i - 1);
}

/// Once the request is sent, only an answer of the agent itself is a failure: a clean reply, a
/// passed deadline and a lost connection all count as accepted.
pub proof fn law_silence_after_sending_is_acceptance(budget: u128, within: u128, event: Event)
    requires
        answers(Stage::Send { within }, event),
    ensures
        next_stage(budget, Stage::Send { within }, event) == (Stage::Exit { code: EXIT_ACCEPTED })
            <==> (event matches Event::Refused { code } ==> connection_lost(code)),
        next_stage(budget, Stage::Send { within }, event) == (Stage::Exit { code: EXIT_DENIED })
            <==> (event matches Event::Refused { code } && caller_refused(code)),
{
}

/// The agent is called unreachable only where both connection attempts failed.
pub proof fn law_unreachable_after_two_failures(budget: u128, events: Seq<Event>)
    requires
        proper(budget, events),
        stages(budget, events).last() == (Stage::Exit { code: EXIT_UNREACHABLE }),
    ensures
        exists|i: int, j: int|
            0 <= i < j < events.len() && (#[trigger] events[i]) is ConnectFailed && (
            #[trigger] events[j]) is ConnectFailed,
{
    lemma_stages(budget, events);
    let all = stages(budget, events);
    let n = events.len() as int;
    lemma_step(budget, events, n - 1);
    assert(all[n - 1] matches Stage::Connect { attempt: Attempt::Second, .. });
    lemma_step(budget, events, n - 2);
    assert(all[n - 2] == Stage::CheckClock { attempt: Attempt::Second });
    lemma_step(budget, events, n - 3);
    if all[n - 3] is Pause {
        lemma_step(budget, events, n - 4);
        assert(events[n - 4] is ConnectFailed);
    } else {
        assert(events[n - 3] is ConnectFailed);
    }
    assert(events[n - 1] is ConnectFailed);
}

proof fn lemma_step(budget: u128, events: Seq<Event>, i: int)
    requires
        proper(budget, events),
        0 <= i < events.len(),
    ensures
        answers(stages(budget, events)[i], events[i]),
        stages(budget, events)[i + 1] == next_stage(budget, stages(budget, events)[i], events[i]),
        stages(budget, events)[0] == first_stage(),
{
    lemma_stages(budget, events);
    assert(answers(stages(budget, events)[i], events[i]));
}

/// Whether `event` shows that the budget ran out before the request was sent: nothing is left
/// before an attempt or once connected, or an attempt used up all that was left.
pub open spec fn ran_out_unsent(budget: u128, event: Event) -> bool {
    match event {
        Event::Clock { elapsed } => elapsed >= budget,
        Event::Connected { elapsed } => elapsed >= budget,
        Event::ConnectTimedOut => true,
        _ => false,
    }
}

/// The delivery ends with `EXIT_TIMEOUT_PRE_ACCEPT` exactly where the budget ran out before the
/// request was sent, and it ends there at once.
pub proof fn law_timeout_means_unsent_in_time(budget: u128, events: Seq<Event>)
    requires
        proper(budget, events),
    ensures
        stages(budget, events).last() == (Stage::Exit { code: EXIT_TIMEOUT_PRE_ACCEPT })
            <==> events.len() > 0 && ran_out_unsent(budget, events.last()),
        stages(budget, events).last() == (Stage::Exit { code: EXIT_TIMEOUT_PRE_ACCEPT })
            ==> !sent(stages(budget, events)),
{
    lemma_stages(budget, events);
    if events.len() > 0 {
        lemma_step(budget, events, events.len() - 1);
        law_exit_code_tells_delivery(budget, events);
    }
}

/// The exit codes that the host relies on, the default budget and the pause before the retry.
pub proof fn law_numbers_are_stable()
    ensures
        EXIT_ACCEPTED == 0,
        EXIT_UNREACHABLE == 10,
        EXIT_TIMEOUT_PRE_ACCEPT == 11,
        EXIT_DENIED == 12,
        EXIT_AGENT_ERROR == 14,
        DEFAULT_DIRECT_TIMEOUT_SECS == 3,
        NANOS_PER_SEC == 1_000_000_000,
        RETRY_PAUSE_NANOS * 10 == NANOS_PER_SEC,
{
}

/// A clock check begins its own attempt with all that is left of the budget, down to the last
/// nanosecond, and ends the delivery as timed out where nothing is left.
pub proof fn law_attempt_gets_what_is_left(budget: u128, attempt: Attempt, elapsed: u128)
    ensures
        elapsed >= budget ==> next_stage(
            budget,
            Stage::CheckClock { attempt },
            Event::Clock { elapsed },
        ) == (Stage::Exit { code: EXIT_TIMEOUT_PRE_ACCEPT }),
        elapsed < budget ==> (next_stage(
            budget,
            Stage::CheckClock { attempt },
            Event::Clock { elapsed },
        ) matches Stage::Connect { attempt: a, within } && a == attempt && elapsed + within
            == budget),
{
}

/// A connection, made at whichever attempt and within whatever time it was given, leads to the
/// sending with all that is left of the budget, and to the end as timed out where nothing is left.
pub proof fn law_connection_leads_to_sending(
    budget: u128,
    attempt: Attempt,
    within: u128,
    elapsed: u128,
)
    ensures
        elapsed >= budget ==> next_stage(
            budget,
            Stage::Connect { attempt, within },
            Event::Connected { elapsed },
        ) == (Stage::Exit { code: EXIT_TIMEOUT_PRE_ACCEPT }),
        elapsed < budget ==> (next_stage(
            budget,
            Stage::Connect { attempt, within },
            Event::Connected { elapsed },
        ) matches Stage::Send { within: w } && elapsed + w == budget),
{
}

/// A first failed attempt is followed by a second one: after a pause of exactly a tenth of a
/// second where more than that is left, and without a pause otherwise. A second failed attempt
/// ends the delivery as unreachable.
pub proof fn law_one_retry_after_a_brief_pause(budget: u128, within: u128, elapsed: u128)
    ensures
        elapsed + 100_000_000 < budget ==> next_stage(
            budget,
            Stage::Connect { attempt: Attempt::First, within },
            Event::ConnectFailed { elapsed },
        ) == (Stage::Pause { nanos: 100_000_000 }),
        elapsed + 100_000_000 >= budget ==> next_stage(
            budget,
            Stage::Connect { attempt: Attempt::First, within },
            Event::ConnectFailed { elapsed },
        ) == (Stage::CheckClock { attempt: Attempt::Second }),
        next_stage(
            budget,
            Stage::Connect { attempt: Attempt::Second, within },
            Event::ConnectFailed { elapsed },
        ) == (Stage::Exit { code: EXIT_UNREACHABLE }),
{
}

/// After any pause the second attempt begins with a look at the clock.
pub proof fn law_pause_leads_to_the_second_attempt(budget: u128, nanos: u128)
    ensures
        next_stage(budget, Stage::Pause { nanos }, Event::Rested) == (Stage::CheckClock {
            attempt: Attempt::Second,
        }),
{
}

/// Every pause of a delivery lasts exactly a tenth of a second, and one that is followed by a
/// timely clock check is followed by the second attempt.
pub proof fn law_every_pause_is_brief(budget: u128, events: Seq<Event>, i: int)
    requires
        proper(budget, events),
        0 <= i <= events.len(),
    ensures
        stages(budget, events)[i] matches Stage::Pause { nanos } ==> {
            &&& nanos == 100_000_000
            &&& i + 2 <= events.len() ==> (events[i + 1] matches Event::Clock { elapsed } && (
            elapsed < budget ==> (stages(budget, events)[i + 2] matches Stage::Connect {
                attempt,
                within,
            } && attempt == Attempt::Second && elapsed + within == budget)))
        },
{
    lemma_stages(budget, events);
    if i > 0 {
        lemma_step(budget, events, i - 1);
    }
    if stages(budget, events)[i] is Pause && i + 2 <= events.len() {
        lemma_step(budget, events, i);
        lemma_step(budget, events, i + 1);
    }
}

/// An attempt that used up its time ends the delivery as timed out.
pub proof fn law_timed_out_attempt_ends(budget: u128, attempt: Attempt, within: u128)
    ensures
        next_stage(budget, Stage::Connect { attempt, within }, Event::ConnectTimedOut) == (
        Stage::Exit { code: EXIT_TIMEOUT_PRE_ACCEPT }),
{
}

/// What becomes of a sent request does not depend on the budget or the time it was given. A reply
/// and silence are accepted. Of the statuses, four only show that the connection went away and
/// are accepted too, two refuse the caller, and every other one is an error of the agent.
pub proof fn law_outcome_of_sending(budget: u128, within: u128, code: Code)
    ensures
        next_stage(budget, Stage::Send { within }, Event::Replied) == (Stage::Exit { code: 0 }),
        next_stage(budget, Stage::Send { within }, Event::ReplyTimedOut) == (Stage::Exit {
            code: 0,
        }),
        next_stage(budget, Stage::Send { within }, Event::Refused { code }) == (Stage::Exit {
            code: if code == Code::Unavailable || code == Code::Cancelled || code == Code::Aborted
                || code == Code::DeadlineExceeded {
                0
            } else if code == Code::PermissionDenied || code == Code::Unauthenticated {
                12
            } else {
                14
            },
        }),
{
}

/// The exit code of a status: accepted, denied and agent error share out all statuses.
pub proof fn law_status_exit_codes(code: Code)
    ensures
        status_exit_code(code) == 0 <==> code == Code::Unavailable || code == Code::Cancelled || code
            == Code::Aborted || code == Code::DeadlineExceeded,
        status_exit_code(code) == 12 <==> code == Code::PermissionDenied || code
            == Code::Unauthenticated,
        status_exit_code(code) == 0 || status_exit_code(code) == 12 || status_exit_code(code) == 14,
{
}

/// An event that is no outcome of a stage leaves it as it is, and nothing leads out of the end.
pub proof fn law_stray_events_change_nothing(budget: u128, stage: Stage, event: Event)
    requires
        stage is CheckClock ==> !(event is Clock),
        stage is Connect ==> !(event is Connected || event is ConnectFailed
            || event is ConnectTimedOut),
        stage is Pause ==> !(event is Rested),
        stage is Send ==> !(event is Replied || event is Refused || event is ReplyTimedOut),
    ensures
        next_stage(budget, stage, event) == stage,
{
}

} // verus!
