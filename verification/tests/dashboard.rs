use xdr::chaos::ChaosConfig;
use xdr::dashboard::{
    balance_level, bar_filled, budget_level, budget_percent, first_payment_event, funded, latency_level,
    shortened_message, shortened_url, status_label, toggled, Level, StatusLabel,
};
use xdr::ledger::USDC;
use xdr::trace::{EventCategory, Trace};

#[test]
fn status_codes_get_their_label() {
    assert_eq!(status_label(200), StatusLabel::Success);
    assert_eq!(status_label(299), StatusLabel::Success);
    assert_eq!(status_label(199), StatusLabel::Other);
    assert_eq!(status_label(300), StatusLabel::Other);
    assert_eq!(status_label(402), StatusLabel::Pay);
    assert_eq!(status_label(429), StatusLabel::Limited);
    assert_eq!(status_label(500), StatusLabel::Failure);
    assert_eq!(status_label(599), StatusLabel::Failure);
    assert_eq!(status_label(600), StatusLabel::Other);
    assert_eq!(status_label(0), StatusLabel::Other);
    assert_eq!(status_label(400), StatusLabel::Other);
}

#[test]
fn balances_and_latencies_get_their_level() {
    assert_eq!(balance_level(0), Level::Bad);
    assert_eq!(balance_level(5 * USDC - 1), Level::Bad);
    assert_eq!(balance_level(5 * USDC), Level::Warn);
    assert_eq!(balance_level(20 * USDC - 1), Level::Warn);
    assert_eq!(balance_level(20 * USDC), Level::Good);
    assert_eq!(latency_level(0), Level::Good);
    assert_eq!(latency_level(100), Level::Good);
    assert_eq!(latency_level(101), Level::Warn);
    assert_eq!(latency_level(300), Level::Warn);
    assert_eq!(latency_level(301), Level::Bad);
}

#[test]
fn budget_bar_follows_the_spend() {
    let limit = 10 * USDC;
    assert_eq!(bar_filled(0, limit), 0);
    assert_eq!(bar_filled(limit / 2, limit), 10);
    assert_eq!(bar_filled(limit, limit), 20);
    assert_eq!(bar_filled(limit + 1, limit), 20);
    assert_eq!(bar_filled(limit - 1, limit), 19);
    assert_eq!(bar_filled(499_999, limit), 0);
    assert_eq!(bar_filled(500_000, limit), 1);
    assert_eq!(bar_filled(5, 0), 0);
    assert_eq!(bar_filled(u64::MAX, u64::MAX), 20);
    assert_eq!(budget_percent(0, limit), 0);
    assert_eq!(budget_percent(10_000, limit), 0);
    assert_eq!(budget_percent(limit / 4, limit), 25);
    assert_eq!(budget_percent(limit, limit), 100);
    assert_eq!(budget_percent(3 * limit, limit), 100);
    assert_eq!(budget_percent(1, 0), 0);
    assert_eq!(budget_level(limit / 2, limit), Level::Good);
    assert_eq!(budget_level(limit / 2 + 1, limit), Level::Warn);
    assert_eq!(budget_level(8 * USDC, limit), Level::Warn);
    assert_eq!(budget_level(8 * USDC + 1, limit), Level::Bad);
    assert_eq!(budget_level(1, 0), Level::Good);
}

#[test]
fn long_urls_keep_their_end() {
    assert_eq!(shortened_url("/short"), "/short");
    let thirty = "/123456789/123456789/123456789";
    assert_eq!(thirty.len(), 30);
    assert_eq!(shortened_url(thirty), thirty);
    let longer = "/123456789/123456789/123456789x";
    assert_eq!(shortened_url(longer), "...456789/123456789/123456789x");
    assert_eq!(shortened_url(longer).len(), 30);
    assert_eq!(shortened_url(""), "");
}

#[test]
fn long_messages_keep_their_start() {
    let fifty = "x".repeat(50);
    assert_eq!(shortened_message(&fifty), fifty);
    let longer = format!("{}{}", "a".repeat(47), "bcde");
    assert_eq!(shortened_message(&longer), format!("{}...", "a".repeat(47)));
    assert_eq!(shortened_message("ok"), "ok");
}

#[test]
fn first_payment_event_is_found() {
    let mut trace = Trace::started("t".to_string(), "a1", "GET", "/", 0);
    assert_eq!(first_payment_event(&trace), None);
    trace.log_at(EventCategory::Info, "one", 1);
    assert_eq!(first_payment_event(&trace), None);
    trace.log_at(EventCategory::Payment, "two", 2);
    trace.log_at(EventCategory::Payment, "three", 3);
    assert_eq!(first_payment_event(&trace), Some(1));
}

#[test]
fn chaos_key_switches_chaos_over() {
    let quiet = ChaosConfig::default();
    let on = toggled(quiet);
    assert!(on.enabled);
    assert_eq!(on.global_failure_rate, 200_000);
    assert_eq!(on.min_latency_ms, 200);
    assert_eq!(on.max_latency_ms, 0);
    assert_eq!(on.seed, 0);
    assert!(on.is_valid());
    let off = toggled(on);
    assert!(!off.enabled);
    assert_eq!(off.global_failure_rate, 200_000);
    let mut set = quiet;
    set.global_failure_rate = 7;
    set.min_latency_ms = 3;
    let on = toggled(set);
    assert!(on.enabled);
    assert_eq!(on.global_failure_rate, 7);
    assert_eq!(on.min_latency_ms, 3);
}

#[test]
fn funding_key_adds_fifty() {
    assert_eq!(funded(None), 100 * USDC);
    assert_eq!(funded(Some(0)), 50 * USDC);
    assert_eq!(funded(Some(100 * USDC)), 150 * USDC);
    assert_eq!(funded(Some(u64::MAX - 1)), u64::MAX);
}
