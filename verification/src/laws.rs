//! What holds of every step of the pipeline.

use vstd::prelude::*;
use crate::ledger::{
    chain_id_of, error_text, lemma_payment_all_or_nothing, lemma_registered_wf, lemma_with_invoice_wf, usdc_text,
    BLOCK_HEIGHT_BASE,
};
use crate::message::{text_reply, without_hop_by_hop, without_name, HeaderView, ReplyBodyView, ReplyView, RequestView};
use crate::clock::elapsed_ms;
use crate::pipeline::{
    challenge_reply, enter, forward, has_room_for, opened_trace,
    outbound_for, rejection_reply, respond, settle, step, with_payment_events, ActionView, AppView, EntropyView,
    Outcome, StepView, INVOICE_PRICE,
};
use crate::ring::committed;
use crate::text::decimal;
use crate::trace::{EventCategory, TraceView};
use crate::upstream::resolution;

verus! {

/// The status that an action sends to the client, where it sends one.
pub open spec fn status_sent(action: ActionView) -> Option<u16> {
    match action {
        ActionView::Respond { reply } => Some(reply.status),
        _ => None,
    }
}

/// Where `out` answers the client, its log is `before` with one trace committed:
/// a trace that was live and has been finished at `now` with the status of the
/// reply. Where `out` does not answer, its log is `before`, and the trace that it
/// hands out is live.
pub open spec fn answers_with_one_trace(before: Seq<TraceView>, out: Outcome, now: i64) -> bool {
    match out.action {
        ActionView::Respond { reply } => exists|live: TraceView|
            live.is_live() && out.app.traces == committed(before, #[trigger] live.finished(reply.status, now)),
        _ => out.app.traces == before && out.action.wf(),
    }
}

/// A trace that is finished is complete: it has its end and the given status, and
/// its duration is the time from its start to its end. What was logged stays.
pub proof fn lemma_finished_is_complete(trace: TraceView, status: u16, now: i64)
    ensures
        trace.finished(status, now).is_complete(),
        !trace.finished(status, now).is_live(),
        trace.finished(status, now).status_code == Some(status),
        trace.finished(status, now).end_time == Some(now),
        trace.finished(status, now).duration_ms == Some(elapsed_ms(trace.start_time, now)),
        now >= trace.start_time ==> trace.finished(status, now).duration_ms == Some((now - trace.start_time) as u64),
        trace.finished(status, now).events == trace.events,
        trace.finished(status, now).start_time == trace.start_time,
{
}

/// The end of a request commits its trace once.
proof fn lemma_respond_answers(app: AppView, trace: TraceView, now: i64, reply: ReplyView)
    requires
        trace.is_live(),
    ensures
        answers_with_one_trace(app.traces, respond(app, trace, now, reply), now),
{
    assert(respond(app, trace, now, reply).app.traces == committed(app.traces, trace.finished(reply.status, now)));
}

/// The way upstream either hands the trace on, live, or commits it once.
proof fn lemma_forward_answers(
    app: AppView,
    trace: TraceView,
    request: RequestView,
    headers: Seq<HeaderView>,
    e: EntropyView,
)
    requires
        trace.is_live(),
    ensures
        answers_with_one_trace(app.traces, forward(app, trace, request, headers, e), e.now),
{
    if let Err(reason) = resolution(request) {
        lemma_respond_answers(
            app,
            trace.with_event(e.now, EventCategory::Error, "Resolution failed: "@ + reason),
            e.now,
            text_reply(400, reason),
        );
    }
}

/// Settlement either hands the trace on, live, or commits it once.
proof fn lemma_settle_answers(
    app: AppView,
    trace: TraceView,
    request: RequestView,
    agent: Seq<char>,
    invoice_id: Seq<char>,
    e: EntropyView,
)
    requires
        trace.is_live(),
    ensures
        answers_with_one_trace(app.traces, settle(app, trace, request, agent, invoice_id, e), e.now),
{
    let failure = app.chaos.payment_failure();
    let app1 = AppView { chaos: failure.1, ..app };
    if failure.0 {
        lemma_respond_answers(
            app1,
            trace.with_event(e.now, EventCategory::Chaos, "Payment transaction failed on-chain"@),
            e.now,
            text_reply(402, "Chaos: Payment Failed"@),
        );
    } else {
        match app1.ledger.refusal(invoice_id, agent) {
            Some(error) => {
                lemma_respond_answers(
                    app1,
                    trace.with_event(e.now, EventCategory::Payment, "Payment rejected: "@ + error_text(error)),
                    e.now,
                    rejection_reply(error, agent),
                );
            },
            None => {
                let ledger = app1.ledger.settled(invoice_id, agent);
                let wallet = ledger.agents[agent];
                let paid = with_payment_events(
                    trace,
                    e.now,
                    e.tx_hash,
                    (BLOCK_HEIGHT_BASE + wallet.payment_count) as u64,
                    wallet.balance_usdc,
                    chain_id_of(app1.network),
                );
                let rug = app1.chaos.rug_pull();
                let app2 = AppView { ledger, chaos: rug.1, ..app1 };
                if rug.0 {
                    lemma_respond_answers(
                        app2,
                        paid.with_event(e.now, EventCategory::Chaos, "RUG PULL: Payment taken, request dropped"@),
                        e.now,
                        text_reply(500, "Rug Pull"@),
                    );
                } else {
                    lemma_forward_answers(app2, paid, request, without_name(request.headers, "authorization"@), e);
                }
            },
        }
    }
}

/// The stages after the latency either hand the trace on, live, or commit it once.
proof fn lemma_enter_answers(app: AppView, trace: TraceView, request: RequestView, e: EntropyView)
    requires
        trace.is_live(),
    ensures
        answers_with_one_trace(app.traces, enter(app, trace, request, e), e.now),
{
    let failure = app.chaos.network_failure();
    let app1 = AppView { chaos: failure.1, ..app };
    match failure.0 {
        Some(code) => {
            lemma_respond_answers(
                app1,
                trace.with_event(e.now, EventCategory::Chaos, "Injected Network Failure: "@ + decimal(code as nat)),
                e.now,
                text_reply(code, "Chaos Error"@),
            );
        },
        None => match request.agent_id() {
            None => {
                lemma_respond_answers(
                    app1,
                    trace.with_event(e.now, EventCategory::Error, "Missing X-Agent-ID header"@),
                    e.now,
                    text_reply(400, "Missing X-Agent-ID"@),
                );
            },
            Some(agent) => {
                let named = TraceView { agent_id: agent, ..trace }.with_event(
                    e.now,
                    EventCategory::Info,
                    "Agent identified: "@ + agent,
                );
                let app2 = AppView { ledger: app1.ledger.registered(agent), ..app1 };
                if request.gated() {
                    match request.invoice_token() {
                        Some(invoice_id) => {
                            lemma_settle_answers(app2, named, request, agent, invoice_id, e);
                        },
                        None => {
                            lemma_respond_answers(
                                AppView { ledger: app2.ledger.with_invoice(e.invoice_id, agent, INVOICE_PRICE), ..app2 },
                                named.with_event(e.now, EventCategory::Payment, "Generated Invoice: "@ + e.invoice_id),
                                e.now,
                                challenge_reply(e.invoice_id, app2.network),
                            );
                        },
                    }
                } else {
                    lemma_forward_answers(app2, named, request, request.headers, e);
                }
            },
        },
    }
}

/// Every request commits exactly one trace, with the status that the client sees.
/// A step that answers the client finishes the trace of the request once, with the
/// status of the reply and at the time of the step, and commits it; a step that
/// suspends the request or sends it upstream leaves the log as it is and hands the
/// trace out live, for the next step.
pub proof fn lemma_one_trace_per_reply(app: AppView, s: StepView, e: EntropyView)
    requires
        s.wf(),
    ensures
        answers_with_one_trace(app.traces, step(app, s, e), e.now),
{
    match s {
        StepView::Arrived { request } => {
            let latency = app.chaos.latency();
            if latency.0 == 0 {
                lemma_enter_answers(AppView { chaos: latency.1, ..app }, opened_trace(request, e), request, e);
            }
        },
        StepView::Resumed { trace, request } => {
            lemma_enter_answers(app, trace, request, e);
        },
        StepView::Replied { trace, status, headers } => {
            lemma_respond_answers(
                app,
                trace.with_event(e.now, EventCategory::Upstream, "Upstream responded: "@ + decimal(status as nat)),
                e.now,
                ReplyView { status, headers: without_hop_by_hop(headers), body: ReplyBodyView::Upstream },
            );
        },
        StepView::Failed { trace, message } => {
            lemma_respond_answers(
                app,
                trace.with_event(e.now, EventCategory::Upstream, "Upstream Failed: "@ + message),
                e.now,
                text_reply(502, message),
            );
        },
    }
}

/// The wallets stay sound at every step: where every wallet and invoice stands
/// under its own identifier and no agent has spent more than its budget, the same
/// holds after the step.
pub proof fn lemma_wallets_stay_sound(app: AppView, s: StepView, e: EntropyView)
    requires
        app.ledger.wf(),
    ensures
        step(app, s, e).app.ledger.wf(),
{
    match s {
        StepView::Arrived { request } => {
            lemma_enter_keeps_wallets(AppView { chaos: app.chaos.latency().1, ..app }, opened_trace(request, e), request, e);
        },
        StepView::Resumed { trace, request } => {
            lemma_enter_keeps_wallets(app, trace, request, e);
        },
        _ => {},
    }
}

/// The stages after the latency keep the ledger well formed.
proof fn lemma_enter_keeps_wallets(app: AppView, trace: TraceView, request: RequestView, e: EntropyView)
    requires
        app.ledger.wf(),
    ensures
        enter(app, trace, request, e).app.ledger.wf(),
{
    if app.chaos.network_failure().0 is None {
        if let Some(agent) = request.agent_id() {
            let registered = app.ledger.registered(agent);
            lemma_registered_wf(app.ledger, agent);
            if request.gated() {
                match request.invoice_token() {
                    Some(invoice_id) => {
                        lemma_payment_all_or_nothing(registered, invoice_id, agent);
                    },
                    None => {
                        lemma_with_invoice_wf(registered, e.invoice_id, agent, INVOICE_PRICE);
                    },
                }
            }
        }
    }
}

/// The trace that comes out of a step: the one that the action hands out, or the
/// one that was committed last.
pub open spec fn trace_out(out: Outcome) -> TraceView {
    match out.action {
        ActionView::Suspend { trace, .. } => trace,
        ActionView::Forward { trace, .. } => trace,
        ActionView::Respond { .. } => out.app.traces.last(),
    }
}

/// `after` is the trace `before` some way on: it has the same identifier, method,
/// URL and start, and the events of `before` are its first events.
pub open spec fn continues(before: TraceView, after: TraceView) -> bool {
    &&& after.id == before.id
    &&& after.method == before.method
    &&& after.url == before.url
    &&& after.start_time == before.start_time
    &&& before.events.is_prefix_of(after.events)
}

/// The end of a request keeps what the trace says of the request.
proof fn lemma_respond_continues(app: AppView, from: TraceView, trace: TraceView, now: i64, reply: ReplyView)
    requires
        continues(from, trace),
    ensures
        continues(from, trace_out(respond(app, trace, now, reply))),
{
}

/// One more event keeps what the trace says of the request.
proof fn lemma_event_continues(from: TraceView, trace: TraceView, now: i64, category: EventCategory, message: Seq<char>)
    requires
        continues(from, trace),
    ensures
        continues(from, trace.with_event(now, category, message)),
{
}

/// The way upstream keeps what the trace says of the request.
proof fn lemma_forward_continues(
    app: AppView,
    from: TraceView,
    trace: TraceView,
    request: RequestView,
    headers: Seq<HeaderView>,
    e: EntropyView,
)
    requires
        continues(from, trace),
    ensures
        continues(from, trace_out(forward(app, trace, request, headers, e))),
{
    match resolution(request) {
        Ok(url) => {
            lemma_event_continues(from, trace, e.now, EventCategory::Upstream, "Forwarding to "@ + url.text);
        },
        Err(reason) => {
            let logged = trace.with_event(e.now, EventCategory::Error, "Resolution failed: "@ + reason);
            lemma_event_continues(from, trace, e.now, EventCategory::Error, "Resolution failed: "@ + reason);
            lemma_respond_continues(app, from, logged, e.now, text_reply(400, reason));
        },
    }
}

/// Settlement keeps what the trace says of the request.
proof fn lemma_settle_continues(
    app: AppView,
    from: TraceView,
    trace: TraceView,
    request: RequestView,
    agent: Seq<char>,
    invoice_id: Seq<char>,
    e: EntropyView,
)
    requires
        continues(from, trace),
    ensures
        continues(from, trace_out(settle(app, trace, request, agent, invoice_id, e))),
{
    let failure = app.chaos.payment_failure();
    let app1 = AppView { chaos: failure.1, ..app };
    if failure.0 {
        let logged = trace.with_event(e.now, EventCategory::Chaos, "Payment transaction failed on-chain"@);
        lemma_event_continues(from, trace, e.now, EventCategory::Chaos, "Payment transaction failed on-chain"@);
        lemma_respond_continues(app1, from, logged, e.now, text_reply(402, "Chaos: Payment Failed"@));
    } else {
        match app1.ledger.refusal(invoice_id, agent) {
            Some(error) => {
                let message = "Payment rejected: "@ + error_text(error);
                lemma_event_continues(from, trace, e.now, EventCategory::Payment, message);
                lemma_respond_continues(
                    app1,
                    from,
                    trace.with_event(e.now, EventCategory::Payment, message),
                    e.now,
                    rejection_reply(error, agent),
                );
            },
            None => {
                let ledger = app1.ledger.settled(invoice_id, agent);
                let wallet = ledger.agents[agent];
                let height = (BLOCK_HEIGHT_BASE + wallet.payment_count) as u64;
                let first = trace.with_event(
                    e.now,
                    EventCategory::Payment,
                    "Payment Confirmed on Cronos (Testnet). Tx: "@ + e.tx_hash + " | Block: "@ + decimal(height as nat),
                );
                let second = first.with_event(
                    e.now,
                    EventCategory::Info,
                    "Wallet: "@ + usdc_text(wallet.balance_usdc) + " USDC | Chain: "@ + chain_id_of(app1.network),
                );
                let paid = with_payment_events(
                    trace,
                    e.now,
                    e.tx_hash,
                    height,
                    wallet.balance_usdc,
                    chain_id_of(app1.network),
                );
                lemma_event_continues(
                    from,
                    trace,
                    e.now,
                    EventCategory::Payment,
                    "Payment Confirmed on Cronos (Testnet). Tx: "@ + e.tx_hash + " | Block: "@ + decimal(height as nat),
                );
                lemma_event_continues(
                    from,
                    first,
                    e.now,
                    EventCategory::Info,
                    "Wallet: "@ + usdc_text(wallet.balance_usdc) + " USDC | Chain: "@ + chain_id_of(app1.network),
                );
                lemma_event_continues(
                    from,
                    second,
                    e.now,
                    EventCategory::Payment,
                    "Payment accepted. Bal: $"@ + usdc_text(wallet.balance_usdc),
                );
                assert(continues(from, paid));
                let rug = app1.chaos.rug_pull();
                let app2 = AppView { ledger, chaos: rug.1, ..app1 };
                if rug.0 {
                    let message = "RUG PULL: Payment taken, request dropped"@;
                    lemma_event_continues(from, paid, e.now, EventCategory::Chaos, message);
                    lemma_respond_continues(
                        app2,
                        from,
                        paid.with_event(e.now, EventCategory::Chaos, message),
                        e.now,
                        text_reply(500, "Rug Pull"@),
                    );
                } else {
                    lemma_forward_continues(
                        app2,
                        from,
                        paid,
                        request,
                        without_name(request.headers, "authorization"@),
                        e,
                    );
                }
            },
        }
    }
}

/// The stages after the latency keep what the trace says of the request.
proof fn lemma_enter_continues(app: AppView, trace: TraceView, request: RequestView, e: EntropyView)
    ensures
        continues(trace, trace_out(enter(app, trace, request, e))),
{
    let failure = app.chaos.network_failure();
    let app1 = AppView { chaos: failure.1, ..app };
    assert(continues(trace, trace));
    match failure.0 {
        Some(code) => {
            let message = "Injected Network Failure: "@ + decimal(code as nat);
            lemma_event_continues(trace, trace, e.now, EventCategory::Chaos, message);
            lemma_respond_continues(
                app1,
                trace,
                trace.with_event(e.now, EventCategory::Chaos, message),
                e.now,
                text_reply(code, "Chaos Error"@),
            );
        },
        None => match request.agent_id() {
            None => {
                let message = "Missing X-Agent-ID header"@;
                lemma_event_continues(trace, trace, e.now, EventCategory::Error, message);
                lemma_respond_continues(
                    app1,
                    trace,
                    trace.with_event(e.now, EventCategory::Error, message),
                    e.now,
                    text_reply(400, "Missing X-Agent-ID"@),
                );
            },
            Some(agent) => {
                let renamed = TraceView { agent_id: agent, ..trace };
                assert(continues(trace, renamed));
                lemma_event_continues(trace, renamed, e.now, EventCategory::Info, "Agent identified: "@ + agent);
                let named = renamed.with_event(e.now, EventCategory::Info, "Agent identified: "@ + agent);
                let app2 = AppView { ledger: app1.ledger.registered(agent), ..app1 };
                if request.gated() {
                    match request.invoice_token() {
                        Some(invoice_id) => {
                            lemma_settle_continues(app2, trace, named, request, agent, invoice_id, e);
                        },
                        None => {
                            let message = "Generated Invoice: "@ + e.invoice_id;
                            lemma_event_continues(trace, named, e.now, EventCategory::Payment, message);
                            lemma_respond_continues(
                                AppView { ledger: app2.ledger.with_invoice(e.invoice_id, agent, INVOICE_PRICE), ..app2 },
                                trace,
                                named.with_event(e.now, EventCategory::Payment, message),
                                e.now,
                                challenge_reply(e.invoice_id, app2.network),
                            );
                        },
                    }
                } else {
                    lemma_forward_continues(app2, trace, named, request, request.headers, e);
                }
            },
        },
    }
}

/// A trace stays with its request. The trace that comes out of the first step of
/// a request has the identifier drawn for it, the method and the target of the
/// request, and the time of the step as its start. The trace that comes out of a
/// later step is the trace that went in, some way on: same identifier, method, URL
/// and start, and the events logged so far as its first events.
pub proof fn lemma_trace_stays_with_its_request(app: AppView, s: StepView, e: EntropyView)
    ensures
        match s {
            StepView::Arrived { request } => continues(opened_trace(request, e), trace_out(step(app, s, e))),
            StepView::Resumed { trace, .. } => continues(trace, trace_out(step(app, s, e))),
            StepView::Replied { trace, .. } => continues(trace, trace_out(step(app, s, e))),
            StepView::Failed { trace, .. } => continues(trace, trace_out(step(app, s, e))),
        },
{
    match s {
        StepView::Arrived { request } => {
            let latency = app.chaos.latency();
            let opened = opened_trace(request, e);
            assert(continues(opened, opened));
            if latency.0 == 0 {
                lemma_enter_continues(AppView { chaos: latency.1, ..app }, opened, request, e);
            }
        },
        StepView::Resumed { trace, request } => {
            lemma_enter_continues(app, trace, request, e);
        },
        StepView::Replied { trace, status, headers } => {
            let message = "Upstream responded: "@ + decimal(status as nat);
            assert(continues(trace, trace));
            lemma_event_continues(trace, trace, e.now, EventCategory::Upstream, message);
            lemma_respond_continues(
                app,
                trace,
                trace.with_event(e.now, EventCategory::Upstream, message),
                e.now,
                ReplyView { status, headers: without_hop_by_hop(headers), body: ReplyBodyView::Upstream },
            );
        },
        StepView::Failed { trace, message } => {
            let line = "Upstream Failed: "@ + message;
            assert(continues(trace, trace));
            lemma_event_continues(trace, trace, e.now, EventCategory::Upstream, line);
            lemma_respond_continues(app, trace, trace.with_event(e.now, EventCategory::Upstream, line), e.now, text_reply(502, message));
        },
    }
}

/// The proxy is transparent: whatever the upstream answers goes to the client
/// with the same status, with the upstream's body, and with the upstream's headers
/// but for those of one connection. Ledger and chaos engine are not touched.
pub proof fn lemma_upstream_reply_passes(
    app: AppView,
    trace: TraceView,
    status: u16,
    headers: Seq<HeaderView>,
    e: EntropyView,
)
    ensures
        step(app, StepView::Replied { trace, status, headers }, e).action == (ActionView::Respond {
            reply: ReplyView { status, headers: without_hop_by_hop(headers), body: ReplyBodyView::Upstream },
        }),
        step(app, StepView::Replied { trace, status, headers }, e).app.ledger == app.ledger,
        step(app, StepView::Replied { trace, status, headers }, e).app.chaos == app.chaos,
{
}

/// With chaos disabled nothing is injected: a request is never suspended, the
/// engine draws nothing, and a request that names its agent, need not pay and has
/// an upstream URL goes upstream with its own method and headers, but for the
/// headers of one connection and the host.
pub proof fn lemma_quiet_proxy_forwards(app: AppView, request: RequestView, e: EntropyView)
    requires
        !app.chaos.config.enabled,
    ensures
        step(app, StepView::Arrived { request }, e).app.chaos == app.chaos,
        !(step(app, StepView::Arrived { request }, e).action is Suspend),
        request.agent_id() is Some && !request.gated() && resolution(request) is Ok ==> {
            let out = step(app, StepView::Arrived { request }, e);
            &&& out.action is Forward
            &&& out.action->outbound == outbound_for(request, request.headers, resolution(request)->Ok_0)
            &&& out.app.ledger == app.ledger.registered(request.agent_id()->0)
            &&& out.app.traces == app.traces
        },
{
}

/// Without latency to inject no request is suspended: where the engine is disabled
/// or the upper latency is zero, the first step of a request goes straight on.
pub proof fn lemma_no_latency_no_suspension(app: AppView, request: RequestView, e: EntropyView)
    requires
        !app.chaos.config.enabled || app.chaos.config.max_latency_ms == 0,
    ensures
        !(step(app, StepView::Arrived { request }, e).action is Suspend),
        step(app, StepView::Arrived { request }, e) == enter(app, opened_trace(request, e), request, e),
{
}

/// No step takes anything back: every agent that is known before a step is known
/// after it, under the same budget, and has spent no less than before; it has paid
/// no fewer times, as far as the payment counter has room.
pub proof fn lemma_spend_never_decreases(app: AppView, s: StepView, e: EntropyView, agent: Seq<char>)
    requires
        app.ledger.wf(),
        app.ledger.agents.dom().contains(agent),
    ensures
        step(app, s, e).app.ledger.agents.dom().contains(agent),
        step(app, s, e).app.ledger.agents[agent].total_spend >= app.ledger.agents[agent].total_spend,
        step(app, s, e).app.ledger.agents[agent].budget_limit == app.ledger.agents[agent].budget_limit,
        has_room_for(app, s) ==> step(app, s, e).app.ledger.agents[agent].payment_count
            >= app.ledger.agents[agent].payment_count,
{
    match s {
        StepView::Arrived { request } => {
            lemma_enter_never_takes_back(
                AppView { chaos: app.chaos.latency().1, ..app },
                opened_trace(request, e),
                request,
                e,
                agent,
            );
        },
        StepView::Resumed { trace, request } => {
            lemma_enter_never_takes_back(app, trace, request, e, agent);
        },
        _ => {},
    }
}

/// The stages after the latency take nothing back from a wallet.
proof fn lemma_enter_never_takes_back(
    app: AppView,
    trace: TraceView,
    request: RequestView,
    e: EntropyView,
    agent: Seq<char>,
)
    requires
        app.ledger.wf(),
        app.ledger.agents.dom().contains(agent),
    ensures
        enter(app, trace, request, e).app.ledger.agents.dom().contains(agent),
        enter(app, trace, request, e).app.ledger.agents[agent].total_spend >= app.ledger.agents[agent].total_spend,
        enter(app, trace, request, e).app.ledger.agents[agent].budget_limit == app.ledger.agents[agent].budget_limit,
        (request.agent_id() matches Some(payer) ==> app.ledger.has_room(payer)) ==> enter(
            app,
            trace,
            request,
            e,
        ).app.ledger.agents[agent].payment_count >= app.ledger.agents[agent].payment_count,
{
    if app.chaos.network_failure().0 is None {
        if let Some(payer) = request.agent_id() {
            let registered = app.ledger.registered(payer);
            lemma_registered_wf(app.ledger, payer);
            if request.gated() {
                if let Some(invoice_id) = request.invoice_token() {
                    lemma_payment_all_or_nothing(registered, invoice_id, payer);
                }
            }
        }
    }
}

/// A request that does not name its agent is answered with 400, unless chaos
/// injects a network failure first: the ledger is left as it is, nothing goes
/// upstream, and one trace with status 400 is committed.
pub proof fn lemma_missing_identity(app: AppView, trace: TraceView, request: RequestView, e: EntropyView)
    requires
        trace.is_live(),
        request.agent_id() is None,
        app.chaos.network_failure().0 is None,
    ensures
        enter(app, trace, request, e).action == (ActionView::Respond { reply: text_reply(400, "Missing X-Agent-ID"@) }),
        enter(app, trace, request, e).app.ledger == app.ledger,
        answers_with_one_trace(app.traces, enter(app, trace, request, e), e.now),
{
    lemma_enter_answers(app, trace, request, e);
}

/// The log does not steer the proxy: two states that differ in their logs only give
/// the same action, the same ledger and the same chaos state for the same step.
pub proof fn lemma_log_does_not_steer(app: AppView, other_log: Seq<TraceView>, s: StepView, e: EntropyView)
    ensures
        step(AppView { traces: other_log, ..app }, s, e).action == step(app, s, e).action,
        step(AppView { traces: other_log, ..app }, s, e).app.ledger == step(app, s, e).app.ledger,
        step(AppView { traces: other_log, ..app }, s, e).app.chaos == step(app, s, e).app.chaos,
{
}

/// Chaos does not depend on the clock or on fresh identifiers: for the same state
/// and the same step, the chaos engine ends in the same state and the client sees
/// the same status, whatever the time, the identifiers and the transaction hash.
pub proof fn lemma_chaos_ignores_entropy(app: AppView, s: StepView, e1: EntropyView, e2: EntropyView)
    ensures
        step(app, s, e1).app.chaos == step(app, s, e2).app.chaos,
        status_sent(step(app, s, e1).action) == status_sent(step(app, s, e2).action),
{
}

} // verus!
