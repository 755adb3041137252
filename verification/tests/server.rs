use smush_info::server::{
    frame_record, peer_gone, restart, start, step, Action, Event, Phase, Restart, Step,
    ADDRESS_IN_USE, BROKEN_PIPE, CONNECTION_RESET, DEFAULT_INTERVAL_MS, DEFAULT_PORT, LINE_END,
    RESTART_DELAY_MS,
};

#[test]
fn defaults() {
    assert_eq!(DEFAULT_PORT, 4242);
    assert_eq!(DEFAULT_INTERVAL_MS, 500);
    assert_eq!(RESTART_DELAY_MS, 5000);
    assert_eq!(BROKEN_PIPE, 32);
    assert_eq!(CONNECTION_RESET, 104);
    assert_eq!(ADDRESS_IN_USE, 98);
    assert_eq!(LINE_END, b'\n');
}

#[test]
fn server_starts_by_listening() {
    assert_eq!(start(), Step { phase: Phase::Listening, action: Action::Listen, report: None });
}

#[test]
fn setup_leads_to_the_first_record() {
    let bound = step(start().phase, Event::Bound, 500);
    assert_eq!(bound, Step { phase: Phase::Accepting, action: Action::Accept, report: None });
    let connected = step(bound.phase, Event::Connected, 500);
    assert_eq!(
        connected,
        Step { phase: Phase::Publishing, action: Action::Publish { wait_ms: 0 }, report: None }
    );
}

#[test]
fn failed_setup_is_fatal() {
    let failed = step(Phase::Listening, Event::SetupFailed { errno: 13 }, 500);
    assert_eq!(
        failed,
        Step {
            phase: Phase::Failed { errno: 13 },
            action: Action::Stop { errno: 13 },
            report: Some(13),
        }
    );
    for event in [
        Event::Bound,
        Event::Connected,
        Event::Sent,
        Event::SendFailed { errno: 32 },
        Event::SetupFailed { errno: 5 },
    ] {
        assert_eq!(
            step(failed.phase, event, 500),
            Step {
                phase: Phase::Failed { errno: 13 },
                action: Action::Stop { errno: 13 },
                report: None,
            }
        );
    }
}

#[test]
fn one_record_for_every_tick() {
    let mut phase = Phase::Publishing;
    let mut records = 0;
    for _ in 0..20 {
        let next = step(phase, Event::Sent, 250);
        assert_eq!(next.action, Action::Publish { wait_ms: 250 });
        assert_eq!(next.report, None);
        if let Action::Publish { .. } = next.action {
            records += 1;
        }
        phase = next.phase;
    }
    assert_eq!(phase, Phase::Publishing);
    assert_eq!(records, 20);
}

#[test]
fn lost_peer_is_replaced() {
    for errno in [BROKEN_PIPE, CONNECTION_RESET] {
        let lost = step(Phase::Publishing, Event::SendFailed { errno }, 500);
        assert_eq!(
            lost,
            Step { phase: Phase::Accepting, action: Action::Accept, report: Some(errno) }
        );
        let back = step(lost.phase, Event::Connected, 500);
        assert_eq!(back.phase, Phase::Publishing);
        assert_eq!(back.action, Action::Publish { wait_ms: 0 });
        let on = step(back.phase, Event::Sent, 500);
        assert_eq!(
            on,
            Step {
                phase: Phase::Publishing,
                action: Action::Publish { wait_ms: 500 },
                report: None,
            }
        );
    }
}

#[test]
fn other_send_errors_are_passed_over() {
    for errno in [11, 4, 0, -1, 105, i64::MAX, i64::MIN] {
        assert!(!peer_gone(errno));
        assert_eq!(
            step(Phase::Publishing, Event::SendFailed { errno }, 500),
            Step {
                phase: Phase::Publishing,
                action: Action::Publish { wait_ms: 500 },
                report: Some(errno),
            }
        );
    }
    assert!(peer_gone(32));
    assert!(peer_gone(104));
}

#[test]
fn unexpected_events_change_nothing() {
    let wait = |phase| match phase {
        Phase::Listening => Action::Listen,
        Phase::Accepting => Action::Accept,
        Phase::Publishing => Action::Publish { wait_ms: 500 },
        Phase::Failed { errno } => Action::Stop { errno },
    };
    let odd = [
        (Phase::Listening, Event::Connected),
        (Phase::Listening, Event::Sent),
        (Phase::Listening, Event::SendFailed { errno: 32 }),
        (Phase::Accepting, Event::Bound),
        (Phase::Accepting, Event::Sent),
        (Phase::Accepting, Event::SendFailed { errno: 32 }),
        (Phase::Accepting, Event::SetupFailed { errno: 98 }),
        (Phase::Publishing, Event::Bound),
        (Phase::Publishing, Event::Connected),
        (Phase::Publishing, Event::SetupFailed { errno: 98 }),
    ];
    for (phase, event) in odd {
        assert_eq!(step(phase, event, 500), Step { phase, action: wait(phase), report: None });
    }
}

#[test]
fn server_is_set_up_again_unless_the_address_is_taken() {
    assert_eq!(restart(98), Restart::Never);
    assert_eq!(restart(13), Restart::After { wait_ms: 5000 });
    assert_eq!(restart(32), Restart::After { wait_ms: 5000 });
    assert_eq!(restart(0), Restart::After { wait_ms: 5000 });
}

#[test]
fn record_gets_a_line_end() {
    assert_eq!(frame_record(b"{\"a\":1}".to_vec()), b"{\"a\":1}\n".to_vec());
    assert_eq!(frame_record(Vec::new()), vec![b'\n']);
    assert_eq!(frame_record(vec![b'\n']), vec![b'\n', b'\n']);
}
