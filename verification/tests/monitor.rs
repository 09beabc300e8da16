use pellxd::monitor::{elapsed, Action, Context, MessageType, Reading, Timestamp};

const WINDOW: u128 = 480_000_000_000; // eight minutes

fn at(seconds: u64) -> Timestamp {
    Timestamp { instant_ns: seconds as u128 * 1_000_000_000, unix_seconds: 1_700_000_000 + seconds as i64 }
}

fn ns(seconds: u64) -> u128 {
    seconds as u128 * 1_000_000_000
}

/// Runs one full iteration at `seconds`, as the monitor loop does, and
/// returns the action.
fn iterate(ctx: &mut Context, seconds: u64, reading: Reading, reminder_due: bool) -> Action {
    ctx.set_now(at(seconds));
    let step = ctx.advance(reading, ns(seconds), WINDOW, reminder_due);
    if let Action::Send(m) = step.action {
        ctx.record_sent(m);
    }
    ctx.end_loop();
    step.action
}

#[test]
fn new_context_starts_low_and_empty() {
    let ctx = Context::new(at(0));
    assert_eq!(ctx.previous_reading, Reading::Low);
    assert_eq!(ctx.went_low_at, None);
    assert_eq!(ctx.went_high_at, None);
    assert_eq!(ctx.time_of_state_change, None);
    assert_eq!(ctx.time_of_startup, None);
    assert!(!ctx.startup_succeeded);
    assert_eq!(ctx.loop_iteration, 0);
    assert_eq!(ctx.now, at(0));
}

#[test]
fn quiet_while_low_since_start() {
    let mut ctx = Context::new(at(0));
    for s in 0..20 {
        assert_eq!(iterate(&mut ctx, s * 60, Reading::Low, true), Action::Idle);
    }
    assert_eq!(ctx.time_of_state_change, None);
    assert_eq!(ctx.time_of_startup, None);
    assert_eq!(ctx.loop_iteration, 20);
}

#[test]
fn first_high_reading_alerts() {
    let mut ctx = Context::new(at(0));
    let step = ctx.advance(Reading::High, ns(0), WINDOW, false);
    assert!(step.reading_changed);
    assert_eq!(step.action, Action::Send(MessageType::Alert));
    assert_eq!(ctx.went_high_at, Some(at(0)));
    assert_eq!(ctx.time_of_state_change, Some(at(0)));
    assert_eq!(ctx.previous_reading, Reading::High);
}

#[test]
fn going_low_begins_startup_without_notification() {
    let mut ctx = Context::new(at(0));
    iterate(&mut ctx, 0, Reading::High, false);
    ctx.set_now(at(10));
    let step = ctx.advance(Reading::Low, ns(10), WINDOW, false);
    assert!(step.reading_changed);
    assert_eq!(step.action, Action::StartupBegun);
    assert_eq!(ctx.time_of_startup, Some(at(10)));
    assert_eq!(ctx.went_low_at, Some(at(10)));
    assert!(!ctx.startup_succeeded);
}

#[test]
fn startup_success_exactly_when_window_elapsed() {
    let mut ctx = Context::new(at(0));
    iterate(&mut ctx, 0, Reading::High, false);
    assert_eq!(iterate(&mut ctx, 10, Reading::Low, false), Action::StartupBegun);
    // One nanosecond short of the window: still starting up.
    ctx.set_now(at(20));
    let step = ctx.advance(Reading::Low, ns(10) + WINDOW - 1, WINDOW, false);
    assert_eq!(step.action, Action::Idle);
    ctx.end_loop();
    // Exactly the window: success.
    ctx.set_now(at(490));
    let step = ctx.advance(Reading::Low, ns(10) + WINDOW, WINDOW, false);
    assert_eq!(step.action, Action::Send(MessageType::StartupSuccess));
    assert!(!ctx.startup_succeeded);
    ctx.record_sent(MessageType::StartupSuccess);
    assert!(ctx.startup_succeeded);
}

#[test]
fn startup_success_reported_once() {
    let mut ctx = Context::new(at(0));
    iterate(&mut ctx, 0, Reading::High, false);
    iterate(&mut ctx, 10, Reading::Low, false);
    assert_eq!(iterate(&mut ctx, 600, Reading::Low, false), Action::Send(MessageType::StartupSuccess));
    for s in 601..700 {
        assert_eq!(iterate(&mut ctx, s * 10, Reading::Low, true), Action::Idle);
    }
}

#[test]
fn going_high_within_window_is_failed_startup() {
    let mut ctx = Context::new(at(0));
    iterate(&mut ctx, 0, Reading::High, false);
    iterate(&mut ctx, 10, Reading::Low, false);
    assert_eq!(iterate(&mut ctx, 100, Reading::High, false), Action::Send(MessageType::StartupFailed));
}

#[test]
fn going_high_after_window_is_alert() {
    let mut ctx = Context::new(at(0));
    iterate(&mut ctx, 0, Reading::High, false);
    iterate(&mut ctx, 10, Reading::Low, false);
    iterate(&mut ctx, 600, Reading::Low, false);
    assert_eq!(iterate(&mut ctx, 5000, Reading::High, false), Action::Send(MessageType::Alert));
}

#[test]
fn going_high_after_unnoticed_window_is_alert_even_without_success() {
    // Went low, started up, then high only after the window without an
    // iteration in between: the elapsed time decides, so it is an alert.
    let mut ctx = Context::new(at(0));
    iterate(&mut ctx, 0, Reading::High, false);
    iterate(&mut ctx, 10, Reading::Low, false);
    assert_eq!(iterate(&mut ctx, 10 + 480, Reading::High, false), Action::Send(MessageType::Alert));
}

#[test]
fn reminders_only_while_high_persists_and_due() {
    let mut ctx = Context::new(at(0));
    assert_eq!(iterate(&mut ctx, 0, Reading::High, true), Action::Send(MessageType::Alert));
    assert_eq!(iterate(&mut ctx, 1, Reading::High, false), Action::Idle);
    assert_eq!(iterate(&mut ctx, 2, Reading::High, true), Action::Send(MessageType::Reminder));
    // Going low: never a reminder.
    assert_eq!(iterate(&mut ctx, 3, Reading::Low, true), Action::StartupBegun);
    assert_eq!(iterate(&mut ctx, 4, Reading::Low, true), Action::Idle);
}

#[test]
fn low_reading_resets_startup_state() {
    let mut ctx = Context::new(at(0));
    iterate(&mut ctx, 0, Reading::High, false);
    iterate(&mut ctx, 10, Reading::Low, false);
    iterate(&mut ctx, 600, Reading::Low, false);
    assert!(ctx.startup_succeeded);
    iterate(&mut ctx, 700, Reading::High, false);
    // The startup time survives going high ...
    assert_eq!(ctx.time_of_startup, Some(at(10)));
    // ... and going low again starts afresh.
    ctx.set_now(at(800));
    let changed = ctx.observe_reading(Reading::Low);
    assert!(changed);
    assert_eq!(ctx.time_of_startup, None);
    assert!(!ctx.startup_succeeded);
    assert_eq!(ctx.went_low_at, Some(at(800)));
    assert_eq!(ctx.went_high_at, Some(at(700)));
    assert_eq!(ctx.time_of_state_change, Some(at(800)));
}

#[test]
fn unchanged_reading_changes_nothing() {
    let mut ctx = Context::new(at(0));
    iterate(&mut ctx, 0, Reading::High, false);
    let before = ctx;
    let changed = ctx.observe_reading(Reading::High);
    assert!(!changed);
    assert_eq!(ctx, before);
}

#[test]
fn handle_high_reading_does_not_touch_context() {
    let mut ctx = Context::new(at(0));
    iterate(&mut ctx, 0, Reading::High, false);
    assert_eq!(ctx.handle_high_reading(false, ns(5), WINDOW, true), Action::Send(MessageType::Reminder));
    assert_eq!(ctx.handle_high_reading(true, ns(5), WINDOW, true), Action::Send(MessageType::Alert));
}

#[test]
fn end_loop_counts_iterations() {
    let mut ctx = Context::new(at(0));
    ctx.end_loop();
    ctx.end_loop();
    ctx.end_loop();
    assert_eq!(ctx.loop_iteration, 3);
}

#[test]
fn elapsed_saturates_at_zero() {
    assert_eq!(elapsed(at(10), ns(4)), 0);
    assert_eq!(elapsed(at(10), ns(14)), ns(4));
    assert_eq!(elapsed(at(10), ns(10)), 0);
}

#[test]
fn record_sent_only_marks_startup_success() {
    let mut ctx = Context::new(at(0));
    iterate(&mut ctx, 0, Reading::High, false);
    let before = ctx;
    ctx.record_sent(MessageType::Alert);
    ctx.record_sent(MessageType::Reminder);
    ctx.record_sent(MessageType::StartupFailed);
    assert_eq!(ctx, before);
}

#[test]
fn message_type_names() {
    assert_eq!(MessageType::Alert.name(), "alert");
    assert_eq!(MessageType::Reminder.name(), "reminder");
    assert_eq!(MessageType::StartupFailed.name(), "startup_failed");
    assert_eq!(MessageType::StartupSuccess.name(), "startup_success");
}
