use kv_vault::config::Interval;
use kv_vault::error::VaultError;
use kv_vault::scheduler::{Action, Event, Phase, RenewalTask, Report, Step, TokenInfo};
use vaultrs::error::ClientError;

fn task(increment: &str, millis: u64) -> RenewalTask {
    RenewalTask::new(increment.to_string(), Interval::from_millis(millis))
}

fn info(expire_time: Option<&str>, accessor: &str) -> TokenInfo {
    TokenInfo { expire_time: expire_time.map(|t| t.to_string()), accessor: accessor.to_string() }
}

fn server_error() -> ClientError {
    ClientError::APIError { code: 500, errors: vec!["sealed".to_string()] }
}

fn take(task: &mut RenewalTask, event: Event) -> Step {
    task.step(event).expect("the task takes the event")
}

/// Drives `task` on a clock of its own until `until_ms`, against a transport
/// whose `n`-th renewal fails where `renew_fails(n)`, and whose `n`-th lookup
/// fails where `lookup_fails(n)`. Returns the number of renewals and lookups.
fn drive(
    task: &mut RenewalTask,
    until_ms: u64,
    renew_fails: &dyn Fn(u64) -> bool,
    lookup_fails: &dyn Fn(u64) -> bool,
) -> (u64, u64) {
    let period_ms = task.interval().as_secs() * 1000 + (task.interval().subsec_nanos() / 1_000_000) as u64;
    let mut next_tick = period_ms;
    let mut renewals = 0u64;
    let mut lookups = 0u64;
    let mut action = RenewalTask::first_action();
    loop {
        let event = match action {
            Action::AwaitTick => {
                if next_tick > until_ms {
                    return (renewals, lookups);
                }
                next_tick += period_ms;
                Event::TimerFired
            }
            Action::Renew { increment } => {
                assert_eq!(increment, task.increment());
                renewals += 1;
                if renew_fails(renewals) {
                    Event::RenewReturned(Err(server_error()))
                } else {
                    Event::RenewReturned(Ok(()))
                }
            }
            Action::Lookup => {
                lookups += 1;
                if lookup_fails(lookups) {
                    Event::LookupReturned(Err(server_error()))
                } else {
                    Event::LookupReturned(Ok(info(Some("2030-01-01T00:00:00Z"), "acc")))
                }
            }
            Action::Stop => return (renewals, lookups),
        };
        action = take(task, event).action;
    }
}

#[test]
fn three_renewals_after_350_ms() {
    let mut t = task("1h", 100);
    let (renewals, lookups) = drive(&mut t, 350, &|_| false, &|_| false);
    assert_eq!(renewals, 3);
    assert_eq!(lookups, 3);
    assert_eq!(t.phase(), Phase::Waiting);
}

#[test]
fn no_renewal_before_the_first_interval_has_passed() {
    let mut t = task("1h", 100);
    assert_eq!(drive(&mut t, 99, &|_| false, &|_| false), (0, 0));
    let mut t = task("1h", 100);
    assert_eq!(drive(&mut t, 100, &|_| false, &|_| false), (1, 1));
}

#[test]
fn one_renewal_for_each_tick() {
    for n in [0u64, 1, 2, 7, 50] {
        let mut t = task("72h", 1000);
        let (renewals, lookups) = drive(&mut t, n * 1000, &|_| false, &|_| false);
        assert_eq!(renewals, n);
        assert_eq!(lookups, n);
    }
}

#[test]
fn one_renewal_for_each_tick_whatever_fails() {
    let mut t = task("72h", 1000);
    let (renewals, lookups) = drive(&mut t, 12_000, &|n| n % 3 == 0, &|n| n % 2 == 0);
    assert_eq!(renewals, 12);
    assert_eq!(lookups, 8);
    let mut t = task("72h", 1000);
    let (renewals, lookups) = drive(&mut t, 9_000, &|_| true, &|_| false);
    assert_eq!(renewals, 9);
    assert_eq!(lookups, 0);
    assert_eq!(t.phase(), Phase::Waiting);
}

#[test]
fn a_tick_renews_then_looks_up() {
    let mut t = task("1h", 100);
    assert_eq!(t.phase(), Phase::Waiting);
    assert!(matches!(RenewalTask::first_action(), Action::AwaitTick));

    let step = take(&mut t, Event::TimerFired);
    match step.action {
        Action::Renew { increment } => assert_eq!(increment, "1h"),
        other => panic!("expected Renew, got {:?}", other),
    }
    assert!(matches!(step.report, Report::Quiet));
    assert_eq!(t.phase(), Phase::Renewing);

    let step = take(&mut t, Event::RenewReturned(Ok(())));
    assert!(matches!(step.action, Action::Lookup));
    assert!(!step.action.is_renew());
    assert!(matches!(step.report, Report::Quiet));
    assert_eq!(t.phase(), Phase::LookingUp);

    let step = take(&mut t, Event::LookupReturned(Ok(info(Some("2031-02-03T04:05:06Z"), "hmac-acc"))));
    assert!(matches!(step.action, Action::AwaitTick));
    match step.report {
        Report::Renewed(renewal) => {
            assert_eq!(renewal.expire_time, "2031-02-03T04:05:06Z");
            assert_eq!(renewal.accessor, "hmac-acc");
        }
        other => panic!("expected Renewed, got {:?}", other),
    }
    assert_eq!(t.phase(), Phase::Waiting);
}

#[test]
fn a_token_that_never_expires_is_reported_as_none() {
    let mut t = task("1h", 100);
    take(&mut t, Event::TimerFired);
    take(&mut t, Event::RenewReturned(Ok(())));
    let step = take(&mut t, Event::LookupReturned(Ok(info(None, "root-acc"))));
    match step.report {
        Report::Renewed(renewal) => {
            assert_eq!(renewal.expire_time, "None");
            assert_eq!(renewal.accessor, "root-acc");
        }
        other => panic!("expected Renewed, got {:?}", other),
    }
}

#[test]
fn a_failed_renewal_waits_for_the_next_tick() {
    let mut t = task("1h", 100);
    assert!(take(&mut t, Event::TimerFired).action.is_renew());
    let step = take(&mut t, Event::RenewReturned(Err(server_error())));
    assert!(matches!(step.action, Action::AwaitTick));
    match step.report {
        Report::RenewFailed(VaultError::TransportError(ClientError::APIError { code, .. })) => {
            assert_eq!(code, 500)
        }
        other => panic!("expected RenewFailed, got {:?}", other),
    }
    assert_eq!(t.phase(), Phase::Waiting);
    assert!(!t.is_stopped());
    assert_eq!(t.interval(), Interval::from_millis(100));
    assert_eq!(t.increment(), "1h");

    let step = take(&mut t, Event::TimerFired);
    match step.action {
        Action::Renew { increment } => assert_eq!(increment, "1h"),
        other => panic!("expected Renew, got {:?}", other),
    }
}

#[test]
fn a_missing_token_is_not_told_apart_in_a_renewal() {
    let mut t = task("1h", 100);
    take(&mut t, Event::TimerFired);
    let step = take(
        &mut t,
        Event::RenewReturned(Err(ClientError::APIError { code: 404, errors: vec![] })),
    );
    assert!(matches!(
        step.report,
        Report::RenewFailed(VaultError::TransportError(ClientError::APIError { code: 404, .. }))
    ));
}

#[test]
fn a_failed_lookup_ends_the_tick() {
    let mut t = task("1h", 100);
    take(&mut t, Event::TimerFired);
    take(&mut t, Event::RenewReturned(Ok(())));
    let step = take(&mut t, Event::LookupReturned(Err(ClientError::ResponseEmptyError)));
    assert!(matches!(step.action, Action::AwaitTick));
    assert!(matches!(
        step.report,
        Report::LookupFailed(VaultError::TransportError(ClientError::ResponseEmptyError))
    ));
    assert_eq!(t.phase(), Phase::Waiting);
    assert!(take(&mut t, Event::TimerFired).action.is_renew());
}

#[test]
fn cancellation_stops_a_waiting_task() {
    let mut t = task("1h", 100);
    let step = take(&mut t, Event::Cancelled);
    assert!(matches!(step.action, Action::Stop));
    assert!(matches!(step.report, Report::Stopping));
    assert!(t.is_stopped());
    assert_eq!(t.phase(), Phase::Stopped);
}

#[test]
fn cancellation_stops_a_task_in_the_middle_of_a_tick() {
    let mut t = task("1h", 100);
    take(&mut t, Event::TimerFired);
    let step = take(&mut t, Event::Cancelled);
    assert!(matches!(step.action, Action::Stop));
    assert!(matches!(step.report, Report::Stopping));
    assert!(t.is_stopped());

    let mut t = task("1h", 100);
    take(&mut t, Event::TimerFired);
    take(&mut t, Event::RenewReturned(Ok(())));
    let step = take(&mut t, Event::Cancelled);
    assert!(matches!(step.action, Action::Stop));
    assert!(matches!(step.report, Report::Stopping));
    assert!(t.is_stopped());
}

#[test]
fn no_renewal_after_the_cancellation() {
    let mut t = task("1h", 100);
    let (renewals, _) = drive(&mut t, 250, &|_| false, &|_| false);
    assert_eq!(renewals, 2);
    take(&mut t, Event::Cancelled);

    let later = [
        Event::TimerFired,
        Event::RenewReturned(Ok(())),
        Event::TimerFired,
        Event::LookupReturned(Ok(info(None, "a"))),
        Event::RenewReturned(Err(server_error())),
        Event::LookupReturned(Err(server_error())),
        Event::TimerFired,
    ];
    for event in later {
        let step = take(&mut t, event);
        assert!(matches!(step.action, Action::Stop));
        assert!(!step.action.is_renew());
        assert!(matches!(step.report, Report::Quiet));
        assert!(t.is_stopped());
    }
    assert_eq!(drive(&mut t, 10_000, &|_| false, &|_| false), (0, 0));
}

#[test]
fn a_second_cancellation_has_no_effect() {
    let mut t = task("1h", 100);
    let first = take(&mut t, Event::Cancelled);
    assert!(matches!(first.report, Report::Stopping));
    for _ in 0..3 {
        let again = take(&mut t, Event::Cancelled);
        assert!(matches!(again.action, Action::Stop));
        assert!(matches!(again.report, Report::Quiet));
        assert!(t.is_stopped());
    }
}

#[test]
fn an_event_that_answers_nothing_changes_nothing() {
    let mut t = task("1h", 100);
    assert!(t.step(Event::RenewReturned(Ok(()))).is_none());
    assert!(t.step(Event::RenewReturned(Err(server_error()))).is_none());
    assert!(t.step(Event::LookupReturned(Ok(info(None, "a")))).is_none());
    assert!(t.step(Event::LookupReturned(Err(server_error()))).is_none());
    assert_eq!(t.phase(), Phase::Waiting);

    take(&mut t, Event::TimerFired);
    assert!(t.step(Event::TimerFired).is_none());
    assert!(t.step(Event::LookupReturned(Ok(info(None, "a")))).is_none());
    assert_eq!(t.phase(), Phase::Renewing);

    take(&mut t, Event::RenewReturned(Ok(())));
    assert!(t.step(Event::TimerFired).is_none());
    assert!(t.step(Event::RenewReturned(Ok(()))).is_none());
    assert_eq!(t.phase(), Phase::LookingUp);
    assert_eq!(t.increment(), "1h");
    assert_eq!(t.interval(), Interval::from_millis(100));
}

#[test]
fn report_of_a_lookup() {
    let renewal = kv_vault::scheduler::Renewal::from_lookup(info(Some("soon"), "acc-1"));
    assert_eq!(renewal.expire_time, "soon");
    assert_eq!(renewal.accessor, "acc-1");
    let renewal = kv_vault::scheduler::Renewal::from_lookup(info(None, ""));
    assert_eq!(renewal.expire_time, "None");
    assert_eq!(renewal.accessor, "");
}
