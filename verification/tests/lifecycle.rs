use givc_cli::lifecycle::{
    direct_lifecycle, exit_code_for_status, Attempt, Code, Event, Stage, DEFAULT_DIRECT_TIMEOUT_SECS,
    EXIT_ACCEPTED, EXIT_AGENT_ERROR, EXIT_DENIED, EXIT_TIMEOUT_PRE_ACCEPT, EXIT_UNREACHABLE,
};

const MS: u128 = 1_000_000;

fn course(timeout_secs: u64, events: &[Event]) -> Vec<Stage> {
    let mut delivery = direct_lifecycle(timeout_secs);
    let mut stages = vec![delivery.stage()];
    for event in events {
        delivery.advance(*event);
        stages.push(delivery.stage());
    }
    stages
}

#[test]
fn exit_codes_are_stable() {
    assert_eq!(EXIT_ACCEPTED, 0);
    assert_eq!(EXIT_UNREACHABLE, 10);
    assert_eq!(EXIT_TIMEOUT_PRE_ACCEPT, 11);
    assert_eq!(EXIT_DENIED, 12);
    assert_eq!(EXIT_AGENT_ERROR, 14);
    assert_eq!(DEFAULT_DIRECT_TIMEOUT_SECS, 3);
}

#[test]
fn clean_reply_is_accepted() {
    assert_eq!(
        course(
            3,
            &[
                Event::Clock { elapsed: MS },
                Event::Connected { elapsed: 50 * MS },
                Event::Replied,
            ]
        ),
        vec![
            Stage::CheckClock { attempt: Attempt::First },
            Stage::Connect { attempt: Attempt::First, within: 2999 * MS },
            Stage::Send { within: 2950 * MS },
            Stage::Exit { code: 0 },
        ]
    );
}

#[test]
fn retry_after_a_pause() {
    assert_eq!(
        course(
            1,
            &[
                Event::Clock { elapsed: 0 },
                Event::ConnectFailed { elapsed: 300 * MS },
                Event::Rested,
                Event::Clock { elapsed: 401 * MS },
                Event::Connected { elapsed: 500 * MS },
                Event::ReplyTimedOut,
            ]
        ),
        vec![
            Stage::CheckClock { attempt: Attempt::First },
            Stage::Connect { attempt: Attempt::First, within: 1000 * MS },
            Stage::Pause { nanos: 100 * MS },
            Stage::CheckClock { attempt: Attempt::Second },
            Stage::Connect { attempt: Attempt::Second, within: 599 * MS },
            Stage::Send { within: 500 * MS },
            Stage::Exit { code: 0 },
        ]
    );
}

#[test]
fn no_pause_when_little_time_is_left() {
    let stages = course(
        1,
        &[
            Event::Clock { elapsed: 0 },
            Event::ConnectFailed { elapsed: 900 * MS },
            Event::Clock { elapsed: 901 * MS },
            Event::ConnectFailed { elapsed: 950 * MS },
        ],
    );
    assert_eq!(stages[2], Stage::CheckClock { attempt: Attempt::Second });
    assert_eq!(stages[3], Stage::Connect { attempt: Attempt::Second, within: 99 * MS });
    assert_eq!(stages[4], Stage::Exit { code: 10 });
    let paused =
        course(1, &[Event::Clock { elapsed: 0 }, Event::ConnectFailed { elapsed: 900 * MS - 1 }]);
    assert_eq!(paused[2], Stage::Pause { nanos: 100 * MS });
}

#[test]
fn two_failures_are_unreachable() {
    let stages = course(
        3,
        &[
            Event::Clock { elapsed: 0 },
            Event::ConnectFailed { elapsed: MS },
            Event::Rested,
            Event::Clock { elapsed: 102 * MS },
            Event::ConnectFailed { elapsed: 103 * MS },
        ],
    );
    assert_eq!(stages.last(), Some(&Stage::Exit { code: EXIT_UNREACHABLE }));
    assert!(!stages.iter().any(|s| matches!(s, Stage::Send { .. })));
}

#[test]
fn budget_used_up_before_sending_is_a_timeout() {
    assert_eq!(course(0, &[Event::Clock { elapsed: 0 }])[1], Stage::Exit { code: 11 });
    assert_eq!(course(2, &[Event::Clock { elapsed: 2000 * MS }])[1], Stage::Exit { code: 11 });
    assert_eq!(
        course(2, &[Event::Clock { elapsed: 0 }, Event::ConnectTimedOut])[2],
        Stage::Exit { code: 11 }
    );
    let late = course(
        1,
        &[
            Event::Clock { elapsed: 0 },
            Event::ConnectFailed { elapsed: 999 * MS },
            Event::Clock { elapsed: 1001 * MS },
        ],
    );
    assert_eq!(late[3], Stage::Exit { code: 11 });
}

#[test]
fn nothing_is_sent_once_the_budget_is_used_up() {
    for elapsed in [1000 * MS, 1500 * MS] {
        let stages = course(1, &[Event::Clock { elapsed: 0 }, Event::Connected { elapsed }]);
        assert_eq!(stages[2], Stage::Exit { code: 11 });
        assert!(!stages.iter().any(|s| matches!(s, Stage::Send { .. })));
    }
    let retried = course(
        1,
        &[
            Event::Clock { elapsed: 0 },
            Event::ConnectFailed { elapsed: 300 * MS },
            Event::Rested,
            Event::Clock { elapsed: 401 * MS },
            Event::Connected { elapsed: 1000 * MS },
        ],
    );
    assert_eq!(retried[5], Stage::Exit { code: 11 });
}

#[test]
fn the_last_moment_is_enough_to_send() {
    let stages = course(
        1,
        &[
            Event::Clock { elapsed: 0 },
            Event::Connected { elapsed: 1000 * MS - 1 },
            Event::ReplyTimedOut,
        ],
    );
    assert_eq!(stages[2], Stage::Send { within: 1 });
    assert_eq!(stages[3], Stage::Exit { code: 0 });
}

#[test]
fn statuses_become_exit_codes() {
    for code in [Code::Unavailable, Code::Cancelled, Code::Aborted, Code::DeadlineExceeded] {
        assert_eq!(exit_code_for_status(code), EXIT_ACCEPTED);
    }
    for code in [Code::PermissionDenied, Code::Unauthenticated] {
        assert_eq!(exit_code_for_status(code), EXIT_DENIED);
    }
    for code in [
        Code::Success,
        Code::Unknown,
        Code::InvalidArgument,
        Code::NotFound,
        Code::AlreadyExists,
        Code::ResourceExhausted,
        Code::FailedPrecondition,
        Code::OutOfRange,
        Code::Unimplemented,
        Code::Internal,
        Code::DataLoss,
    ] {
        assert_eq!(exit_code_for_status(code), EXIT_AGENT_ERROR);
    }
}

#[test]
fn refusal_ends_with_its_code() {
    let sent = [Event::Clock { elapsed: 0 }, Event::Connected { elapsed: MS }];
    for (code, exit) in
        [(Code::PermissionDenied, 12), (Code::Unknown, 14), (Code::Unavailable, 0)]
    {
        let mut events = sent.to_vec();
        events.push(Event::Refused { code });
        assert_eq!(course(3, &events)[3], Stage::Exit { code: exit });
    }
}

#[test]
fn stray_events_change_nothing() {
    let mut delivery = direct_lifecycle(3);
    delivery.advance(Event::Replied);
    assert_eq!(delivery.stage(), Stage::CheckClock { attempt: Attempt::First });
    delivery.advance(Event::Clock { elapsed: 4000 * MS });
    delivery.advance(Event::Connected { elapsed: 0 });
    assert_eq!(delivery.stage(), Stage::Exit { code: 11 });
}

#[test]
fn the_largest_timeout_is_handled() {
    let stages = course(u64::MAX, &[Event::Clock { elapsed: 1 }]);
    assert_eq!(
        stages[1],
        Stage::Connect {
            attempt: Attempt::First,
            within: u64::MAX as u128 * 1_000_000_000 - 1,
        }
    );
}
