//! The request pipeline as a mathematical function.
//!
//! A request passes through the proxy in steps. Between two steps the caller
//! either suspends for the injected latency or talks to the upstream; a step itself
//! never waits. [`step`] says what each step does to the state of the proxy and what
//! it asks of the caller next. The numbers that no state determines (the time, new
//! identifiers, the mock transaction hash) are inputs of the step.

use vstd::prelude::*;
use vstd::utf8::encode_utf8;
use crate::chaos::ChaosState;
use crate::ledger::{chain_id_of, error_text, usdc_text, LedgerView, PaymentError, BLOCK_HEIGHT_BASE};
use crate::message::{
    first_value, header_text, text_reply, with_header, without_hop_by_hop, without_name, ChallengeView,
    HeaderView, OutboundView, ReplyBodyView, ReplyView, RequestView,
};
use crate::ring::committed;
use crate::text::{begins_with, decimal, occurs_in};
use crate::trace::{EventCategory, TraceView};
use crate::upstream::{classification, host_or_empty, resolution, UpstreamUrlView};

verus! {

/// The price of a gated request: 0.01 USDC.
pub const INVOICE_PRICE: u64 = 10_000;

/// The state that all requests share.
pub struct AppView {
    pub ledger: LedgerView,
    pub chaos: ChaosState,
    pub traces: Seq<TraceView>,
    pub network: Seq<char>,
}

/// What a step takes from outside the state: the time in milliseconds since the
/// epoch, and fresh identifiers.
pub struct EntropyView {
    pub now: i64,
    pub trace_id: Seq<char>,
    pub invoice_id: Seq<char>,
    pub tx_hash: Seq<char>,
}

/// What happened, with the request as far as it has come.
pub enum StepView {
    /// A request came in.
    Arrived { request: RequestView },
    /// The suspension for the injected latency is over.
    Resumed { trace: TraceView, request: RequestView },
    /// The upstream answered.
    Replied { trace: TraceView, status: u16, headers: Seq<HeaderView> },
    /// The upstream could not be reached, or failed on the way.
    Failed { trace: TraceView, message: Seq<char> },
}

/// What the caller does next.
pub enum ActionView {
    /// Suspend for `millis` milliseconds, then hand the request back as resumed.
    Suspend { millis: u64, trace: TraceView, request: RequestView },
    /// Send `outbound` upstream, then hand back what came of it.
    Forward { trace: TraceView, outbound: OutboundView },
    /// Answer the client. The request is over.
    Respond { reply: ReplyView },
}

/// The state after a step, and what the caller does next.
pub struct Outcome {
    pub app: AppView,
    pub action: ActionView,
}

impl RequestView {
    /// The agent that the request names in `x-agent-id`.
    pub open spec fn agent_id(self) -> Option<Seq<char>> {
        header_text(self.headers, "x-agent-id"@)
    }

    /// Whether the request has to pay: its path holds `paid`, or it carries the
    /// header `x-simulate-payment`.
    pub open spec fn gated(self) -> bool {
        occurs_in("paid"@, self.path) || first_value(self.headers, "x-simulate-payment"@) is Some
    }

    /// The invoice that the request offers to settle: what follows `L402 ` in
    /// `authorization`. Any other authorization counts as none.
    pub open spec fn invoice_token(self) -> Option<Seq<char>> {
        match header_text(self.headers, "authorization"@) {
            Some(token) => if begins_with(token, "L402 "@) {
                Some(token.skip("L402 "@.len() as int))
            } else {
                None
            },
            None => None,
        }
    }
}

/// The trace of a request that has just come in.
pub open spec fn opened_trace(request: RequestView, e: EntropyView) -> TraceView {
    TraceView {
        id: e.trace_id,
        agent_id: "unknown"@,
        method: request.method,
        url: request.uri,
        start_time: e.now,
        end_time: None,
        duration_ms: None,
        status_code: None,
        events: Seq::empty(),
    }
}

/// The body of the challenge for `invoice_id`.
pub open spec fn challenge_body(invoice_id: Seq<char>, network: Seq<char>) -> ChallengeView {
    ChallengeView {
        status: 402,
        x402_invoice: invoice_id,
        amount: "0.01"@,
        currency: "USDC"@,
        chain: "cronos"@,
        network,
        chain_id: 338,
        payment_address: "0x000000000000000000000000000000000000dead"@,
    }
}

/// The reply that asks for payment of `invoice_id`.
pub open spec fn challenge_reply(invoice_id: Seq<char>, network: Seq<char>) -> ReplyView {
    ReplyView {
        status: 402,
        headers: seq![
            HeaderView { name: "www-authenticate"@, value: encode_utf8("L402 token="@ + invoice_id) },
        ],
        body: ReplyBodyView::Challenge(challenge_body(invoice_id, network)),
    }
}

/// The reply to a refused payment.
pub open spec fn rejection_reply(error: PaymentError, agent: Seq<char>) -> ReplyView {
    ReplyView {
        status: 402,
        headers: Seq::empty(),
        body: ReplyBodyView::Rejection { status: 402, error: error_text(error), agent },
    }
}

/// The headers that go upstream: those of one connection are taken out, and `host`
/// names the host of the URL where it has one.
pub open spec fn outbound_headers(headers: Seq<HeaderView>, url: UpstreamUrlView) -> Seq<HeaderView> {
    let kept = without_hop_by_hop(headers);
    match url.host {
        Some(host) => with_header(kept, "host"@, encode_utf8(host)),
        None => kept,
    }
}

/// The request that goes upstream for `request`, with `headers` in place of its own.
pub open spec fn outbound_for(request: RequestView, headers: Seq<HeaderView>, url: UpstreamUrlView) -> OutboundView {
    OutboundView {
        method: request.method,
        url: url.text,
        headers: outbound_headers(headers, url),
        kind: classification(host_or_empty(url)),
    }
}

/// The request is over: the trace is finished with the status of the reply and
/// committed, and the reply goes to the client.
pub open spec fn respond(app: AppView, trace: TraceView, now: i64, reply: ReplyView) -> Outcome {
    Outcome {
        app: AppView { traces: committed(app.traces, trace.finished(reply.status, now)), ..app },
        action: ActionView::Respond { reply },
    }
}

/// The last stage before the upstream: the URL is resolved and the outbound request
/// made, or the request ends with 400.
pub open spec fn forward(
    app: AppView,
    trace: TraceView,
    request: RequestView,
    headers: Seq<HeaderView>,
    e: EntropyView,
) -> Outcome {
    match resolution(request) {
        Ok(url) => Outcome {
            app,
            action: ActionView::Forward {
                trace: trace.with_event(e.now, EventCategory::Upstream, "Forwarding to "@ + url.text),
                outbound: outbound_for(request, headers, url),
            },
        },
        Err(reason) => respond(
            app,
            trace.with_event(e.now, EventCategory::Error, "Resolution failed: "@ + reason),
            e.now,
            text_reply(400, reason),
        ),
    }
}

/// The three events that record a payment.
pub open spec fn with_payment_events(
    trace: TraceView,
    now: i64,
    tx_hash: Seq<char>,
    block_height: u64,
    balance: u64,
    chain_id: Seq<char>,
) -> TraceView {
    trace.with_event(
        now,
        EventCategory::Payment,
        "Payment Confirmed on Cronos (Testnet). Tx: "@ + tx_hash + " | Block: "@ + decimal(block_height as nat),
    ).with_event(
        now,
        EventCategory::Info,
        "Wallet: "@ + usdc_text(balance) + " USDC | Chain: "@ + chain_id,
    ).with_event(now, EventCategory::Payment, "Payment accepted. Bal: $"@ + usdc_text(balance))
}

/// Settlement: the payment may fail by chaos (402), be refused by the ledger (402),
/// or go through; after it went through, the request may still be dropped by chaos
/// (500), else it goes on upstream without its `authorization`.
pub open spec fn settle(
    app: AppView,
    trace: TraceView,
    request: RequestView,
    agent: Seq<char>,
    invoice_id: Seq<char>,
    e: EntropyView,
) -> Outcome {
    let failure = app.chaos.payment_failure();
    let app = AppView { chaos: failure.1, ..app };
    if failure.0 {
        respond(
            app,
            trace.with_event(e.now, EventCategory::Chaos, "Payment transaction failed on-chain"@),
            e.now,
            text_reply(402, "Chaos: Payment Failed"@),
        )
    } else {
        match app.ledger.refusal(invoice_id, agent) {
            Some(error) => respond(
                app,
                trace.with_event(e.now, EventCategory::Payment, "Payment rejected: "@ + error_text(error)),
                e.now,
                rejection_reply(error, agent),
            ),
            None => {
                let ledger = app.ledger.settled(invoice_id, agent);
                let wallet = ledger.agents[agent];
                let trace = with_payment_events(
                    trace,
                    e.now,
                    e.tx_hash,
                    (BLOCK_HEIGHT_BASE + wallet.payment_count) as u64,
                    wallet.balance_usdc,
                    chain_id_of(app.network),
                );
                let rug = app.chaos.rug_pull();
                let app = AppView { ledger, chaos: rug.1, ..app };
                if rug.0 {
                    respond(
                        app,
                        trace.with_event(e.now, EventCategory::Chaos, "RUG PULL: Payment taken, request dropped"@),
                        e.now,
                        text_reply(500, "Rug Pull"@),
                    )
                } else {
                    forward(app, trace, request, without_name(request.headers, "authorization"@), e)
                }
            },
        }
    }
}

/// Challenge: an invoice is issued to the agent, and the request ends with 402 and
/// the invoice.
pub open spec fn challenge(app: AppView, trace: TraceView, agent: Seq<char>, e: EntropyView) -> Outcome {
    respond(
        AppView { ledger: app.ledger.with_invoice(e.invoice_id, agent, INVOICE_PRICE), ..app },
        trace.with_event(e.now, EventCategory::Payment, "Generated Invoice: "@ + e.invoice_id),
        e.now,
        challenge_reply(e.invoice_id, app.network),
    )
}

/// The stages after the latency: the roll for a network failure, the identity of
/// the agent, its registration, the payment gate, and the way upstream.
pub open spec fn enter(app: AppView, trace: TraceView, request: RequestView, e: EntropyView) -> Outcome {
    let failure = app.chaos.network_failure();
    let app = AppView { chaos: failure.1, ..app };
    match failure.0 {
        Some(code) => respond(
            app,
            trace.with_event(e.now, EventCategory::Chaos, "Injected Network Failure: "@ + decimal(code as nat)),
            e.now,
            text_reply(code, "Chaos Error"@),
        ),
        None => match request.agent_id() {
            None => respond(
                app,
                trace.with_event(e.now, EventCategory::Error, "Missing X-Agent-ID header"@),
                e.now,
                text_reply(400, "Missing X-Agent-ID"@),
            ),
            Some(agent) => {
                let trace = TraceView { agent_id: agent, ..trace }.with_event(
                    e.now,
                    EventCategory::Info,
                    "Agent identified: "@ + agent,
                );
                let app = AppView { ledger: app.ledger.registered(agent), ..app };
                if request.gated() {
                    match request.invoice_token() {
                        Some(invoice_id) => settle(app, trace, request, agent, invoice_id, e),
                        None => challenge(app, trace, agent, e),
                    }
                } else {
                    forward(app, trace, request, request.headers, e)
                }
            },
        },
    }
}

/// The first stages: the trace is opened and the latency drawn. Where there is
/// latency to inject the caller suspends; else the request goes straight on.
pub open spec fn begin(app: AppView, request: RequestView, e: EntropyView) -> Outcome {
    let trace = opened_trace(request, e);
    let latency = app.chaos.latency();
    let app = AppView { chaos: latency.1, ..app };
    if latency.0 > 0 {
        Outcome { app, action: ActionView::Suspend { millis: latency.0, trace, request } }
    } else {
        enter(app, trace, request, e)
    }
}

/// The end of a request that went upstream: the upstream's status and headers go
/// back to the client, without the headers of one connection.
pub open spec fn conclude(app: AppView, trace: TraceView, status: u16, headers: Seq<HeaderView>, e: EntropyView) -> Outcome {
    respond(
        app,
        trace.with_event(e.now, EventCategory::Upstream, "Upstream responded: "@ + decimal(status as nat)),
        e.now,
        ReplyView { status, headers: without_hop_by_hop(headers), body: ReplyBodyView::Upstream },
    )
}

/// The end of a request whose upstream failed: 502 with the failure's text.
pub open spec fn give_up(app: AppView, trace: TraceView, message: Seq<char>, e: EntropyView) -> Outcome {
    respond(
        app,
        trace.with_event(e.now, EventCategory::Upstream, "Upstream Failed: "@ + message),
        e.now,
        text_reply(502, message),
    )
}

/// One step of the pipeline.
pub open spec fn step(app: AppView, step: StepView, e: EntropyView) -> Outcome {
    match step {
        StepView::Arrived { request } => begin(app, request, e),
        StepView::Resumed { trace, request } => enter(app, trace, request, e),
        StepView::Replied { trace, status, headers } => conclude(app, trace, status, headers, e),
        StepView::Failed { trace, message } => give_up(app, trace, message, e),
    }
}

impl StepView {
    /// A step is well formed where the trace that it hands back is still live.
    pub open spec fn wf(self) -> bool {
        match self {
            StepView::Arrived { .. } => true,
            StepView::Resumed { trace, .. } => trace.is_live(),
            StepView::Replied { trace, .. } => trace.is_live(),
            StepView::Failed { trace, .. } => trace.is_live(),
        }
    }
}

impl ActionView {
    /// An action is well formed where the trace that it hands out is still live.
    pub open spec fn wf(self) -> bool {
        match self {
            ActionView::Suspend { trace, .. } => trace.is_live(),
            ActionView::Forward { trace, .. } => trace.is_live(),
            ActionView::Respond { .. } => true,
        }
    }
}

/// The request that a step is about, where the step may still charge an agent.
pub open spec fn request_of(step: StepView) -> Option<RequestView> {
    match step {
        StepView::Arrived { request } => Some(request),
        StepView::Resumed { request, .. } => Some(request),
        _ => None,
    }
}

/// The payment counter of the agent that a step may charge has room for one more
/// payment.
pub open spec fn has_room_for(app: AppView, step: StepView) -> bool {
    match request_of(step) {
        Some(request) => match request.agent_id() {
            Some(agent) => app.ledger.has_room(agent),
            None => true,
        },
        None => true,
    }
}

} // verus!
