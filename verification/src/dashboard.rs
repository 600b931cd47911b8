//! What a dashboard shows of the proxy, computed from plain values: labels, levels,
//! the budget bar, shortened texts, and what its two keys do.

use vstd::prelude::*;
use vstd::string::StringExecFns;
use crate::chaos::ChaosConfig;
use crate::ledger::USDC;
use crate::text::{chars_of, string_of};
use crate::trace::{EventCategory, Trace};

verus! {

/// The cells of the budget bar.
pub const BAR_WIDTH: u64 = 20;

/// The longest URL that is shown whole.
pub const URL_WIDTH: usize = 30;

/// The longest message that is shown whole.
pub const MESSAGE_WIDTH: usize = 50;

/// What the funding key adds to a balance: 50 USDC.
pub const FUNDING: u64 = 50_000_000;

/// What the funding key gives an agent without a wallet: 100 USDC.
pub const FIRST_FUNDING: u64 = 100_000_000;

/// The failure rate that the chaos key switches on where none is set: 0.2.
pub const TOGGLE_FAILURE_RATE: u32 = 200_000;

/// The lower latency that the chaos key sets with it, in milliseconds.
pub const TOGGLE_MIN_LATENCY: u64 = 200;

/// How good a figure looks.
#[derive(Debug, Clone, Copy, PartialEq, Eq, Structural)]
pub enum Level {
    Good,
    Warn,
    Bad,
}

/// The short word for a status code.
#[derive(Debug, Clone, Copy, PartialEq, Eq, Structural)]
pub enum StatusLabel {
    /// 200 to 299.
    Success,
    /// 402.
    Pay,
    /// 429.
    Limited,
    /// 500 to 599.
    Failure,
    /// Anything else.
    Other,
}

/// The label of a status code.
pub open spec fn label_of(status: u16) -> StatusLabel {
    if 200 <= status <= 299 {
        StatusLabel::Success
    } else if status == 402 {
        StatusLabel::Pay
    } else if status == 429 {
        StatusLabel::Limited
    } else if 500 <= status <= 599 {
        StatusLabel::Failure
    } else {
        StatusLabel::Other
    }
}

/// The label of a status code.
pub fn status_label(status: u16) -> (label: StatusLabel)
    ensures
        label == label_of(status),
{
    if 200 <= status && status <= 299 {
        StatusLabel::Success
    } else if status == 402 {
        StatusLabel::Pay
    } else if status == 429 {
        StatusLabel::Limited
    } else if 500 <= status && status <= 599 {
        StatusLabel::Failure
    } else {
        StatusLabel::Other
    }
}

/// A balance below 5 USDC is bad, one below 20 USDC a warning.
pub fn balance_level(balance: u64) -> (level: Level)
    ensures
        level == if balance < 5 * USDC {
            Level::Bad
        } else if balance < 20 * USDC {
            Level::Warn
        } else {
            Level::Good
        },
{
    if balance < 5 * USDC {
        Level::Bad
    } else if balance < 20 * USDC {
        Level::Warn
    } else {
        Level::Good
    }
}

/// A duration of up to 100 ms is good, one of up to 300 ms a warning.
pub fn latency_level(millis: u64) -> (level: Level)
    ensures
        level == if millis <= 100 {
            Level::Good
        } else if millis <= 300 {
            Level::Warn
        } else {
            Level::Bad
        },
{
    if millis <= 100 {
        Level::Good
    } else if millis <= 300 {
        Level::Warn
    } else {
        Level::Bad
    }
}

/// The part of the budget that is spent, capped at the whole.
pub open spec fn spent_part(spend: u64, limit: u64) -> int {
    if spend < limit {
        spend as int
    } else {
        limit as int
    }
}

/// The filled cells of the budget bar: the spent part of [`BAR_WIDTH`], rounded
/// down; none where there is no budget.
pub open spec fn filled_cells(spend: u64, limit: u64) -> int {
    if limit == 0 {
        0
    } else {
        (BAR_WIDTH * spent_part(spend, limit)) / (limit as int)
    }
}

/// The filled cells of the budget bar.
pub fn bar_filled(spend: u64, limit: u64) -> (cells: u64)
    ensures
        cells == filled_cells(spend, limit),
        cells <= BAR_WIDTH,
{
    if limit == 0 {
        return 0;
    }
    let part: u128 = if spend < limit {
        spend as u128
    } else {
        limit as u128
    };
    let cells: u128 = (BAR_WIDTH as u128 * part) / (limit as u128);
    assert(cells <= BAR_WIDTH) by (nonlinear_arith)
        requires
            cells as int == (20 * (part as int)) / (limit as int),
            part <= limit,
            limit > 0,
    ;
    cells as u64
}

/// The spent part of the budget in percent, rounded down; zero where there is no
/// budget.
pub open spec fn percent_spent(spend: u64, limit: u64) -> int {
    if limit == 0 {
        0
    } else {
        (100 * spent_part(spend, limit)) / (limit as int)
    }
}

/// The spent part of the budget in percent.
pub fn budget_percent(spend: u64, limit: u64) -> (percent: u64)
    ensures
        percent == percent_spent(spend, limit),
        percent <= 100,
{
    if limit == 0 {
        return 0;
    }
    let part: u128 = if spend < limit {
        spend as u128
    } else {
        limit as u128
    };
    let percent: u128 = (100 * part) / (limit as u128);
    assert(percent <= 100) by (nonlinear_arith)
        requires
            percent as int == (100 * (part as int)) / (limit as int),
            part <= limit,
            limit > 0,
    ;
    percent as u64
}

/// More than 80 percent of the budget spent is bad, more than 50 a warning.
pub fn budget_level(spend: u64, limit: u64) -> (level: Level)
    ensures
        level == if limit > 0 && 100 * spent_part(spend, limit) > 80 * limit {
            Level::Bad
        } else if limit > 0 && 100 * spent_part(spend, limit) > 50 * limit {
            Level::Warn
        } else {
            Level::Good
        },
{
    if limit == 0 {
        return Level::Good;
    }
    let part: u128 = if spend < limit {
        spend as u128
    } else {
        limit as u128
    };
    if 100 * part > 80 * (limit as u128) {
        Level::Bad
    } else if 100 * part > 50 * (limit as u128) {
        Level::Warn
    } else {
        Level::Good
    }
}

/// A URL of more than [`URL_WIDTH`] characters shown as three dots and its last 27
/// characters.
pub open spec fn url_shown(url: Seq<char>) -> Seq<char> {
    if url.len() > URL_WIDTH {
        "..."@ + url.skip(url.len() - 27)
    } else {
        url
    }
}

/// A URL as the dashboard shows it.
pub fn shortened_url(url: &str) -> (shown: String)
    ensures
        shown@ == url_shown(url@),
{
    let chars = chars_of(url);
    if chars.len() <= URL_WIDTH {
        return string_of(&chars);
    }
    let mut shown = String::from_str("...");
    let start: usize = chars.len() - 27;
    let mut i: usize = start;
    while i < chars.len()
        invariant
            start <= i <= chars.len(),
            start == chars.len() - 27,
            shown@ == "..."@ + chars@.subrange(start as int, i as int),
        decreases chars.len() - i,
    {
        shown.push(chars[i]);
        i += 1;
        assert(chars@.subrange(start as int, i as int) =~= chars@.subrange(start as int, i as int - 1).push(
            chars@[i as int - 1],
        ));
        assert(shown@ =~= "..."@ + chars@.subrange(start as int, i as int));
    }
    assert(chars@.subrange(start as int, chars.len() as int) =~= chars@.skip(chars.len() - 27));
    shown
}

/// A message of more than [`MESSAGE_WIDTH`] characters shown as its first 47
/// characters and three dots.
pub open spec fn message_shown(message: Seq<char>) -> Seq<char> {
    if message.len() > MESSAGE_WIDTH {
        message.take(47) + "..."@
    } else {
        message
    }
}

/// A message as the dashboard shows it.
pub fn shortened_message(message: &str) -> (shown: String)
    ensures
        shown@ == message_shown(message@),
{
    let chars = chars_of(message);
    if chars.len() <= MESSAGE_WIDTH {
        return string_of(&chars);
    }
    let mut shown = String::new();
    let mut i: usize = 0;
    while i < 47
        invariant
            i <= 47,
            47 < chars.len(),
            shown@ == chars@.take(i as int),
        decreases 47 - i,
    {
        shown.push(chars[i]);
        i += 1;
        assert(chars@.take(i as int) =~= chars@.take(i as int - 1).push(chars@[i as int - 1]));
    }
    shown.append("...");
    shown
}

/// The index of the first payment event of a trace: the event at the index is a
/// payment event and none before it is; nothing where the trace has none.
pub fn first_payment_event(trace: &Trace) -> (found: Option<usize>)
    ensures
        match found {
            Some(i) => {
                &&& i < trace@.events.len()
                &&& trace@.events[i as int].category == EventCategory::Payment
                &&& forall|k: int| 0 <= k < i ==> trace@.events[k].category != EventCategory::Payment
            },
            None => forall|k: int| 0 <= k < trace@.events.len() ==> trace@.events[k].category != EventCategory::Payment,
        },
{
    let mut i: usize = 0;
    while i < trace.events.len()
        invariant
            i <= trace.events.len(),
            forall|k: int| 0 <= k < i ==> trace@.events[k].category != EventCategory::Payment,
        decreases trace.events.len() - i,
    {
        if trace.events[i].category == EventCategory::Payment {
            return Some(i);
        }
        i += 1;
    }
    None
}

/// The policy after the chaos key: chaos is switched over; where that switches it
/// on and no failure rate is set, the rate becomes 0.2 and the lower latency 200 ms.
pub open spec fn toggled_config(cfg: ChaosConfig) -> ChaosConfig {
    if !cfg.enabled && cfg.global_failure_rate == 0 {
        ChaosConfig {
            enabled: true,
            global_failure_rate: TOGGLE_FAILURE_RATE,
            min_latency_ms: TOGGLE_MIN_LATENCY,
            ..cfg
        }
    } else {
        ChaosConfig { enabled: !cfg.enabled, ..cfg }
    }
}

/// The policy after the chaos key.
pub fn toggled(cfg: ChaosConfig) -> (next: ChaosConfig)
    ensures
        next == toggled_config(cfg),
{
    let mut next = cfg;
    next.enabled = !cfg.enabled;
    if next.enabled && next.global_failure_rate == 0 {
        next.global_failure_rate = TOGGLE_FAILURE_RATE;
        next.min_latency_ms = TOGGLE_MIN_LATENCY;
    }
    next
}

/// The balance after the funding key: 50 USDC more, at most the largest amount
/// there is; 100 USDC for an agent without a wallet.
pub fn funded(balance: Option<u64>) -> (next: u64)
    ensures
        next == match balance {
            Some(b) => if b + FUNDING > u64::MAX {
                u64::MAX
            } else {
                (b + FUNDING) as u64
            },
            None => FIRST_FUNDING,
        },
{
    match balance {
        Some(b) => b.saturating_add(FUNDING),
        None => FIRST_FUNDING,
    }
}

} // verus!
