use gas_dispenser::dispense::{Action, Config, Dispenser, Phase};
use gas_dispenser::errors::{FailReason, LocateError};
use gas_dispenser::locate::RecordPair;

fn cfg(max_retry_count: u64, delay_ms: u64) -> Config {
    Config {
        amount: 100,
        fee: 5,
        max_retry_count,
        delay_ms,
    }
}

fn pair(a: u32, f: u32) -> RecordPair<u32> {
    RecordPair {
        amount_record: a,
        fee_record: f,
    }
}

#[test]
fn empty_recipient_list_completes_at_once() {
    let d: Dispenser<u32> = Dispenser::new(cfg(3, 50), 0);
    assert_eq!(d.next_action(), Action::Finished);
}

#[test]
fn one_recipient_success_paces_once_then_finishes() {
    // amount=100, fee=5, one recipient, locator finds two qualifying
    // records, the submitter succeeds at once: one pacing sleep of delay_ms,
    // then normal completion.
    let mut d: Dispenser<u32> = Dispenser::new(cfg(3, 777), 1);
    assert_eq!(d.next_action(), Action::Locate { recipient: 0 });
    d.on_located(Ok(pair(100, 5)));
    assert_eq!(d.next_action(), Action::Submit { recipient: 0 });
    d.on_submitted(true);
    assert_eq!(d.next_action(), Action::SleepMs { millis: 777 });
    d.on_slept();
    assert_eq!(d.next_action(), Action::Finished);
}

#[test]
fn no_delay_between_retries() {
    let mut d: Dispenser<u32> = Dispenser::new(cfg(3, 777), 1);
    d.on_located(Ok(pair(1, 2)));
    d.on_submitted(false);
    // A failed attempt is retried immediately: the next action is another
    // submission, never a sleep.
    assert_eq!(d.next_action(), Action::Submit { recipient: 0 });
    d.on_submitted(false);
    assert_eq!(d.next_action(), Action::Submit { recipient: 0 });
    assert!(matches!(
        d.phase,
        Phase::Attempting { failures: 2, .. }
    ));
}

#[test]
fn same_records_resubmitted_on_retry() {
    let mut d: Dispenser<u32> = Dispenser::new(cfg(5, 0), 1);
    d.on_located(Ok(pair(41, 42)));
    d.on_submitted(false);
    d.on_submitted(false);
    let p = d.current_pair();
    assert_eq!(p.amount_record, 41);
    assert_eq!(p.fee_record, 42);
}

#[test]
fn halts_after_second_recipient_when_budget_exhausted() {
    // Three recipients, max_retries = 1, the submitter fails every attempt
    // for the second one: the run halts there and the third recipient is
    // never attempted.
    let mut d: Dispenser<u32> = Dispenser::new(cfg(1, 10), 3);
    assert_eq!(d.next_action(), Action::Locate { recipient: 0 });
    d.on_located(Ok(pair(1, 2)));
    d.on_submitted(true);
    d.on_slept();

    assert_eq!(d.next_action(), Action::Locate { recipient: 1 });
    d.on_located(Ok(pair(3, 4)));
    assert_eq!(d.next_action(), Action::Submit { recipient: 1 });
    d.on_submitted(false);

    assert_eq!(d.next_action(), Action::Aborted);
    assert_eq!(d.fail_reason(), FailReason::RetriesExhausted);
    assert_eq!(d.cursor, 1);
    assert!(matches!(d.phase, Phase::Failed { .. }));
}

#[test]
fn counter_reaches_budget_only_at_the_halt() {
    let mut d: Dispenser<u32> = Dispenser::new(cfg(3, 0), 1);
    d.on_located(Ok(pair(1, 2)));
    d.on_submitted(false);
    assert!(matches!(d.phase, Phase::Attempting { failures: 1, .. }));
    d.on_submitted(false);
    assert!(matches!(d.phase, Phase::Attempting { failures: 2, .. }));
    d.on_submitted(false);
    // The third failure reaches the budget of 3: the run halts rather than
    // holding a counter at the budget.
    assert_eq!(
        d.fail_reason(),
        FailReason::RetriesExhausted
    );
}

#[test]
fn locator_failure_aborts_the_run() {
    let mut d: Dispenser<u32> = Dispenser::new(cfg(3, 0), 2);
    d.on_located(Err(LocateError::InsufficientRecords));
    assert_eq!(d.next_action(), Action::Aborted);
    assert_eq!(
        d.fail_reason(),
        FailReason::Locate(LocateError::InsufficientRecords)
    );
    // The second recipient was never reached.
    assert_eq!(d.cursor, 0);
}

#[test]
fn cursor_walks_the_list_in_order() {
    let mut d: Dispenser<u32> = Dispenser::new(cfg(2, 1), 2);
    d.on_located(Ok(pair(1, 2)));
    d.on_submitted(false);
    // One failure with a budget of two: still attempting the same recipient.
    assert_eq!(d.next_action(), Action::Submit { recipient: 0 });
    d.on_submitted(true);
    d.on_slept();
    assert_eq!(d.next_action(), Action::Locate { recipient: 1 });
    d.on_located(Ok(pair(3, 4)));
    d.on_submitted(true);
    assert_eq!(d.next_action(), Action::SleepMs { millis: 1 });
    d.on_slept();
    assert_eq!(d.next_action(), Action::Finished);
    assert_eq!(d.cursor, 2);
}
