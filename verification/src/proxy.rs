//! The proxy: the shared state, the control plane, and the request pipeline in
//! steps.
//!
//! The pipeline never waits. Where a request has to be suspended or sent upstream,
//! [`AppState::proxy_handler`] hands back an [`Action`] that says so; the caller
//! does it and comes back with the next [`Step`]. What each step does is
//! [`crate::pipeline::step`].

use vstd::prelude::*;
use vstd::string::StringExecFns;
use crate::chaos::{ChaosConfig, ChaosEngine, ChaosState};
use crate::clock::now_millis;
use crate::ids::{fresh_uuid, is_uuid_text};
use crate::ledger::{generate_cronos_hash, is_tx_hash, push_usdc, Ledger, PaymentReceipt, BLOCK_HEIGHT_BASE};
use crate::message::{
    get_header_text, has_header, header_views, remove_header, remove_hop_by_hop_headers, set_header,
    text_reply, text_view, without_name, Challenge, Header, Outbound, Reply, ReplyBody, ReplyBodyView, ReplyView,
    Request, RequestType,
};
use crate::pipeline::{
    begin, challenge, challenge_reply, enter, forward, has_room_for,
    outbound_for, rejection_reply, request_of, respond, settle, with_payment_events, ActionView, AppView,
    EntropyView, Outcome, StepView, INVOICE_PRICE,
};
use crate::ring::TraceRing;
use crate::text::{contains, decimal, push_decimal, skip_chars, starts_with};
use crate::trace::{EventCategory, Trace};
use crate::store::{no_agents, no_invoices};
use crate::upstream::{
    classification, host_or_empty, parse_url, parts_of, resolution, resolved, upstream_target, UpstreamUrl,
    UpstreamUrlView,
};

verus! {

/// The state that all requests share: wallets, chaos policy, trace log and the
/// name of the network.
pub struct AppState {
    pub ledger: Ledger,
    pub chaos: ChaosEngine,
    pub traces: TraceRing,
    pub network: String,
}

impl View for AppState {
    type V = AppView;

    open spec fn view(&self) -> AppView {
        AppView { ledger: self.ledger@, chaos: self.chaos@, traces: self.traces@, network: self.network@ }
    }
}

/// The time and the fresh identifiers that one step may use.
#[derive(Debug)]
pub struct Entropy {
    pub now: i64,
    pub trace_id: String,
    pub invoice_id: String,
    pub tx_hash: String,
}

impl View for Entropy {
    type V = EntropyView;

    open spec fn view(&self) -> EntropyView {
        EntropyView {
            now: self.now,
            trace_id: self.trace_id@,
            invoice_id: self.invoice_id@,
            tx_hash: self.tx_hash@,
        }
    }
}

/// The identifiers are UUIDs, and the hash has the shape of a transaction hash.
pub open spec fn well_shaped(e: EntropyView) -> bool {
    is_uuid_text(e.trace_id) && is_uuid_text(e.invoice_id) && is_tx_hash(e.tx_hash)
}

impl Entropy {
    /// The current time, two new UUIDs and a new mock transaction hash.
    pub fn draw() -> (e: Entropy)
        ensures
            well_shaped(e@),
    {
        Entropy {
            now: now_millis(),
            trace_id: fresh_uuid(),
            invoice_id: fresh_uuid(),
            tx_hash: generate_cronos_hash(),
        }
    }

    /// The current time alone, for a step that needs no identifiers.
    pub fn clock() -> (e: Entropy)
        ensures
            e@.trace_id.len() == 0,
            e@.invoice_id.len() == 0,
            e@.tx_hash.len() == 0,
    {
        Entropy { now: now_millis(), trace_id: String::new(), invoice_id: String::new(), tx_hash: String::new() }
    }
}

/// What happened, with the request as far as it has come.
#[derive(Debug)]
pub enum Step {
    /// A request came in.
    Arrived { request: Request },
    /// The suspension for the injected latency is over.
    Resumed { trace: Trace, request: Request },
    /// The upstream answered with this status and these headers.
    Replied { trace: Trace, status: u16, headers: Vec<Header> },
    /// The upstream could not be reached, or failed on the way.
    Failed { trace: Trace, message: String },
}

impl View for Step {
    type V = StepView;

    open spec fn view(&self) -> StepView {
        match self {
            Step::Arrived { request } => StepView::Arrived { request: request@ },
            Step::Resumed { trace, request } => StepView::Resumed { trace: trace@, request: request@ },
            Step::Replied { trace, status, headers } => StepView::Replied {
                trace: trace@,
                status: *status,
                headers: header_views(headers@),
            },
            Step::Failed { trace, message } => StepView::Failed { trace: trace@, message: message@ },
        }
    }
}

/// What the caller does next.
#[derive(Debug)]
pub enum Action {
    /// Suspend for `millis` milliseconds, then come back with [`Step::Resumed`].
    Suspend { millis: u64, trace: Trace, request: Request },
    /// Send `outbound` upstream with the body of the request, then come back with
    /// [`Step::Replied`] or [`Step::Failed`].
    Forward { trace: Trace, outbound: Outbound },
    /// Answer the client. The request is over.
    Respond { reply: Reply },
}

impl Step {
    /// A step is well formed where the trace that it hands back is still live.
    pub open spec fn wf(&self) -> bool {
        self@.wf()
    }
}

impl Action {
    /// An action is well formed where the trace that it hands out is still live.
    pub open spec fn wf(&self) -> bool {
        self@.wf()
    }
}

impl View for Action {
    type V = ActionView;

    open spec fn view(&self) -> ActionView {
        match self {
            Action::Suspend { millis, trace, request } => ActionView::Suspend {
                millis: *millis,
                trace: trace@,
                request: request@,
            },
            Action::Forward { trace, outbound } => ActionView::Forward { trace: trace@, outbound: outbound@ },
            Action::Respond { reply } => ActionView::Respond { reply: reply@ },
        }
    }
}

/// The reply to a question after the wallet of `agent_id`.
pub open spec fn status_reply(app: AppView, agent_id: Seq<char>) -> ReplyView {
    if app.ledger.agents.dom().contains(agent_id) {
        ReplyView { status: 200, headers: Seq::empty(), body: ReplyBodyView::Agent(app.ledger.agents[agent_id]) }
    } else {
        text_reply(404, "Agent not found"@)
    }
}

/// The reply that says no more than that all went well.
pub open spec fn ok_reply() -> ReplyView {
    ReplyView { status: 200, headers: Seq::empty(), body: ReplyBodyView::Empty }
}

/// Whether a trace is still live.
fn is_live(trace: &Trace) -> (live: bool)
    ensures
        live == trace@.is_live(),
{
    trace.end_time.is_none() && trace.duration_ms.is_none() && trace.status_code.is_none()
}

/// `a` followed by `b`.
fn joined(a: &str, b: &str) -> (s: String)
    ensures
        s@ == a@ + b@,
{
    let mut s = String::from_str(a);
    s.append(b);
    s
}

/// `a` followed by the decimal notation of `n`.
fn joined_number(a: &str, n: u64) -> (s: String)
    ensures
        s@ == a@ + decimal(n as nat),
{
    let mut s = String::from_str(a);
    push_decimal(&mut s, n);
    s
}

/// The host of a URL classified by the words in it.
pub fn classify_request(url: &UpstreamUrl) -> (kind: RequestType)
    ensures
        kind == classification(host_or_empty(url@)),
{
    let host: &str = match &url.host {
        Some(h) => h.as_str(),
        None => "",
    };
    proof {
        reveal_strlit("");
        assert(""@ =~= Seq::<char>::empty());
    }
    if contains(host, "openai.com") || contains(host, "anthropic") {
        RequestType::AiInference
    } else if contains(host, "cronos") || contains(host, "rpc") {
        RequestType::Rpc
    } else {
        RequestType::Unknown
    }
}

/// The text that is to be parsed as the upstream URL of a request.
pub fn upstream_target_of(request: &Request) -> (target: Option<String>)
    ensures
        text_view(target) == upstream_target(request@),
{
    if request.absolute {
        return Some(request.uri.clone());
    }
    match get_header_text(&request.headers, "x-upstream-host") {
        Some(host) => {
            let mut target = String::from_str("https://");
            target.append(host.as_str());
            target.append(request.path.as_str());
            match &request.query {
                Some(q) => {
                    let ghost before = target@;
                    target.append("?");
                    target.append(q.as_str());
                    assert(target@ =~= before + ("?"@ + q@));
                },
                None => {
                    assert(target@ =~= target@ + Seq::<char>::empty());
                },
            }
            Some(target)
        },
        None => None,
    }
}

/// The upstream URL of a request from what the parser made of its target, or the
/// reason why there is none.
pub fn resolve_parsed(request: &Request, parsed: Option<UpstreamUrl>) -> (r: Result<UpstreamUrl, String>)
    ensures
        match r {
            Ok(url) => resolved(request@, parts_of(parsed)) == Ok::<_, Seq<char>>(url@),
            Err(reason) => resolved(request@, parts_of(parsed)) == Err::<
                UpstreamUrlView,
                _,
            >(reason@),
        },
{
    match parsed {
        Some(url) => Ok(url),
        None => if request.absolute {
            Err(String::from_str("Invalid Absolute URL"))
        } else {
            Err(String::from_str("Invalid Constructed URL"))
        },
    }
}

/// The upstream URL of a request: its target where that is absolute, else made
/// from `x-upstream-host`, path and query; or the reason why there is none.
pub fn resolve_upstream_url(request: &Request) -> (r: Result<UpstreamUrl, String>)
    ensures
        match r {
            Ok(url) => resolution(request@) == Ok::<_, Seq<char>>(url@),
            Err(reason) => resolution(request@) == Err::<UpstreamUrlView, _>(reason@),
        },
{
    match upstream_target_of(request) {
        Some(target) => {
            let parsed = parse_url(target.as_str());
            resolve_parsed(request, parsed)
        },
        None => Err(String::from_str("Missing X-Upstream-Host header or Absolute URL")),
    }
}

impl AppState {
    /// Ledger, chaos engine and trace log are well formed.
    pub open spec fn wf(&self) -> bool {
        self.ledger.wf() && self.chaos.wf() && self.traces.wf()
    }

    /// A proxy for `network` without agents, invoices or traces, and with chaos off.
    pub fn new(network: String) -> (app: AppState)
        ensures
            app.wf(),
            app@.network == network@,
            app@.traces.len() == 0,
            app@.ledger.agents == no_agents(),
            app@.ledger.invoices == no_invoices(),
            app@.chaos == (ChaosState { config: ChaosConfig::quiet(), position: 0 }),
    {
        AppState { ledger: Ledger::new(), chaos: ChaosEngine::new(), traces: TraceRing::new(), network }
    }

    /// The wallet of an agent: 200 with the wallet, or 404 where the agent is
    /// unknown.
    pub fn get_agent_status(&self, agent_id: &str) -> (reply: Reply)
        ensures
            reply@ == status_reply(self@, agent_id@),
    {
        match self.ledger.get_state(agent_id) {
            Some(agent) => {
                let reply = Reply { status: 200, headers: Vec::new(), body: ReplyBody::Agent(agent) };
                assert(header_views(reply.headers@) =~= Seq::empty());
                reply
            },
            None => Reply::text(404, "Agent not found"),
        }
    }

    /// Sets the balance of an agent, registering it where it is unknown.
    pub fn set_agent_budget(&mut self, agent_id: &str, amount: u64) -> (reply: Reply)
        requires
            old(self).wf(),
        ensures
            final(self).wf(),
            final(self)@ == (AppView { ledger: old(self)@.ledger.with_balance(agent_id@, amount), ..old(self)@ }),
            reply@ == ok_reply(),
    {
        self.ledger.set_balance(agent_id, amount);
        let reply = Reply { status: 200, headers: Vec::new(), body: ReplyBody::Empty };
        assert(header_views(reply.headers@) =~= Seq::empty());
        reply
    }

    /// Installs a chaos policy; the random stream starts over from its seed.
    pub fn update_chaos_config(&mut self, config: ChaosConfig) -> (reply: Reply)
        requires
            old(self).wf(),
            config.valid(),
        ensures
            final(self).wf(),
            final(self)@ == (AppView { chaos: old(self)@.chaos.configured(config), ..old(self)@ }),
            reply@ == ok_reply(),
    {
        self.chaos.set_config(config);
        let reply = Reply { status: 200, headers: Vec::new(), body: ReplyBody::Empty };
        assert(header_views(reply.headers@) =~= Seq::empty());
        reply
    }

    /// The completed traces, oldest first.
    pub fn get_traces(&self) -> (reply: Reply)
        ensures
            reply@ == (ReplyView { status: 200, headers: Seq::empty(), body: ReplyBodyView::Traces(self@.traces) }),
    {
        let reply = Reply { status: 200, headers: Vec::new(), body: ReplyBody::Traces(self.traces.snapshot()) };
        assert(header_views(reply.headers@) =~= Seq::empty());
        reply
    }

    /// Ends a request: finishes the trace with the status of the reply, commits it,
    /// and hands the reply out.
    fn respond(&mut self, trace: Trace, now: i64, reply: Reply) -> (action: Action)
        requires
            old(self).wf(),
            trace@.is_live(),
        ensures
            final(self).wf(),
            (Outcome { app: final(self)@, action: action@ }) == respond(old(self)@, trace@, now, reply@),
    {
        let mut trace = trace;
        trace.finish_at(reply.status, now);
        self.traces.commit(trace);
        Action::Respond { reply }
    }

    /// The outbound request for `request` to `url`. With `paid`, the request's
    /// `authorization` is not passed on.
    pub fn make_outbound(request: Request, url: UpstreamUrl, paid: bool) -> (outbound: Outbound)
        ensures
            outbound@ == outbound_for(
                request@,
                if paid {
                    without_name(request@.headers, "authorization"@)
                } else {
                    request@.headers
                },
                url@,
            ),
    {
        let kind = classify_request(&url);
        let mut headers = request.headers;
        if paid {
            remove_header(&mut headers, "authorization");
        }
        remove_hop_by_hop_headers(&mut headers);
        match &url.host {
            Some(host) => {
                set_header(&mut headers, "host", host.as_str());
            },
            None => {},
        }
        Outbound { method: request.method, url: url.text, headers, kind }
    }

    /// Resolves the upstream URL and makes the outbound request, or ends the request
    /// with 400.
    fn forward(&mut self, trace: Trace, request: Request, paid: bool, e: &Entropy) -> (action: Action)
        requires
            old(self).wf(),
            trace@.is_live(),
        ensures
            final(self).wf(),
            action.wf(),
            (Outcome { app: final(self)@, action: action@ }) == forward(
                old(self)@,
                trace@,
                request@,
                if paid {
                    without_name(request@.headers, "authorization"@)
                } else {
                    request@.headers
                },
                e@,
            ),
    {
        let mut trace = trace;
        match resolve_upstream_url(&request) {
            Ok(url) => {
                let message = joined("Forwarding to ", url.text.as_str());
                trace.log_at(EventCategory::Upstream, message.as_str(), e.now);
                let outbound = Self::make_outbound(request, url, paid);
                Action::Forward { trace, outbound }
            },
            Err(reason) => {
                let message = joined("Resolution failed: ", reason.as_str());
                trace.log_at(EventCategory::Error, message.as_str(), e.now);
                self.respond(trace, e.now, Reply::text(400, reason.as_str()))
            },
        }
    }

    /// Issues an invoice to `agent` and ends the request with 402 and the invoice.
    fn challenge(&mut self, trace: Trace, agent: &str, e: &Entropy) -> (action: Action)
        requires
            old(self).wf(),
            trace@.is_live(),
        ensures
            final(self).wf(),
            action.wf(),
            (Outcome { app: final(self)@, action: action@ }) == challenge(old(self)@, trace@, agent@, e@),
    {
        let mut trace = trace;
        let invoice = self.ledger.record_invoice(e.invoice_id.clone(), agent, INVOICE_PRICE);
        let message = joined("Generated Invoice: ", invoice.id.as_str());
        trace.log_at(EventCategory::Payment, message.as_str(), e.now);
        let token = joined("L402 token=", invoice.id.as_str());
        let mut headers: Vec<Header> = Vec::new();
        headers.push(Header::new("www-authenticate", token.as_str()));
        let body = Challenge {
            status: 402,
            x402_invoice: invoice.id,
            amount: String::from_str("0.01"),
            currency: String::from_str("USDC"),
            chain: String::from_str("cronos"),
            network: self.network.clone(),
            chain_id: 338,
            payment_address: String::from_str("0x000000000000000000000000000000000000dead"),
        };
        let reply = Reply { status: 402, headers, body: ReplyBody::Challenge(body) };
        assert(reply@ == challenge_reply(e@.invoice_id, old(self)@.network)) by {
            assert(header_views(reply.headers@) =~= challenge_reply(e@.invoice_id, old(self)@.network).headers);
        }
        self.respond(trace, e.now, reply)
    }

    /// Logs the three events that record a payment.
    fn log_payment(trace: &mut Trace, receipt: &PaymentReceipt, now: i64)
        ensures
            final(trace)@ == with_payment_events(
                old(trace)@,
                now,
                receipt.tx_hash@,
                receipt.block_height,
                receipt.new_balance,
                receipt.chain_id@,
            ),
    {
        let mut confirmed = joined("Payment Confirmed on Cronos (Testnet). Tx: ", receipt.tx_hash.as_str());
        confirmed.append(" | Block: ");
        push_decimal(&mut confirmed, receipt.block_height);
        trace.log_at(EventCategory::Payment, confirmed.as_str(), now);
        let mut wallet = String::from_str("Wallet: ");
        push_usdc(&mut wallet, receipt.new_balance);
        wallet.append(" USDC | Chain: ");
        wallet.append(receipt.chain_id.as_str());
        trace.log_at(EventCategory::Info, wallet.as_str(), now);
        let mut accepted = String::from_str("Payment accepted. Bal: $");
        push_usdc(&mut accepted, receipt.new_balance);
        trace.log_at(EventCategory::Payment, accepted.as_str(), now);
    }

    /// Settles `invoice_id` for `agent`, unless chaos makes the payment fail; after
    /// a payment the request goes on upstream, unless chaos drops it.
    fn settle(&mut self, trace: Trace, request: Request, agent: &str, invoice_id: &str, e: &Entropy) -> (action:
        Action)
        requires
            old(self).wf(),
            old(self)@.ledger.has_room(agent@),
            trace@.is_live(),
        ensures
            final(self).wf(),
            action.wf(),
            (Outcome { app: final(self)@, action: action@ }) == settle(
                old(self)@,
                trace@,
                request@,
                agent@,
                invoice_id@,
                e@,
            ),
    {
        let mut trace = trace;
        if self.chaos.roll_payment_failure() {
            trace.log_at(EventCategory::Chaos, "Payment transaction failed on-chain", e.now);
            return self.respond(trace, e.now, Reply::text(402, "Chaos: Payment Failed"));
        }
        match self.ledger.settle(invoice_id, agent, self.network.as_str(), e.tx_hash.clone()) {
            Ok(receipt) => {
                Self::log_payment(&mut trace, &receipt, e.now);
                if self.chaos.roll_rug_pull() {
                    trace.log_at(EventCategory::Chaos, "RUG PULL: Payment taken, request dropped", e.now);
                    return self.respond(trace, e.now, Reply::text(500, "Rug Pull"));
                }
                self.forward(trace, request, true, e)
            },
            Err(error) => {
                let message = joined("Payment rejected: ", error.message());
                trace.log_at(EventCategory::Payment, message.as_str(), e.now);
                let reply = Reply {
                    status: 402,
                    headers: Vec::new(),
                    body: ReplyBody::Rejection {
                        status: 402,
                        error: String::from_str(error.message()),
                        agent: String::from_str(agent),
                    },
                };
                assert(reply@ == rejection_reply(error, agent@)) by {
                    assert(header_views(reply.headers@) =~= Seq::empty());
                }
                self.respond(trace, e.now, reply)
            },
        }
    }

    /// The invoice that a request offers to settle.
    pub fn invoice_token(request: &Request) -> (token: Option<String>)
        ensures
            text_view(token) == request@.invoice_token(),
    {
        match get_header_text(&request.headers, "authorization") {
            Some(token) => {
                proof {
                    reveal_strlit("L402 ");
                }
                if starts_with(token.as_str(), "L402 ") {
                    Some(skip_chars(token.as_str(), 5))
                } else {
                    None
                }
            },
            None => None,
        }
    }

    /// Whether a request has to pay.
    pub fn is_gated(request: &Request) -> (gated: bool)
        ensures
            gated == request@.gated(),
    {
        contains(request.path.as_str(), "paid") || has_header(&request.headers, "x-simulate-payment")
    }

    /// The stages after the latency: network failure, identity, registration,
    /// payment gate, and the way upstream.
    fn enter(&mut self, trace: Trace, request: Request, e: &Entropy) -> (action: Action)
        requires
            old(self).wf(),
            request@.agent_id() matches Some(agent) ==> old(self)@.ledger.has_room(agent),
            trace@.is_live(),
        ensures
            final(self).wf(),
            action.wf(),
            (Outcome { app: final(self)@, action: action@ }) == enter(old(self)@, trace@, request@, e@),
    {
        let mut trace = trace;
        if let Some(code) = self.chaos.roll_network_failure() {
            let message = joined_number("Injected Network Failure: ", code as u64);
            trace.log_at(EventCategory::Chaos, message.as_str(), e.now);
            return self.respond(trace, e.now, Reply::text(code, "Chaos Error"));
        }
        let agent = match get_header_text(&request.headers, "x-agent-id") {
            Some(agent) => agent,
            None => {
                trace.log_at(EventCategory::Error, "Missing X-Agent-ID header", e.now);
                return self.respond(trace, e.now, Reply::text(400, "Missing X-Agent-ID"));
            },
        };
        trace.agent_id = agent.clone();
        let message = joined("Agent identified: ", agent.as_str());
        trace.log_at(EventCategory::Info, message.as_str(), e.now);
        let _ = self.ledger.register_or_get(agent.as_str());
        if Self::is_gated(&request) {
            match Self::invoice_token(&request) {
                Some(invoice_id) => self.settle(trace, request, agent.as_str(), invoice_id.as_str(), e),
                None => self.challenge(trace, agent.as_str(), e),
            }
        } else {
            self.forward(trace, request, false, e)
        }
    }

    /// The first stages: opens the trace and draws the latency.
    fn begin(&mut self, request: Request, e: &Entropy) -> (action: Action)
        requires
            old(self).wf(),
            request@.agent_id() matches Some(agent) ==> old(self)@.ledger.has_room(agent),
        ensures
            final(self).wf(),
            action.wf(),
            (Outcome { app: final(self)@, action: action@ }) == begin(old(self)@, request@, e@),
    {
        let trace = Trace::started(
            e.trace_id.clone(),
            "unknown",
            request.method.as_str(),
            request.uri.as_str(),
            e.now,
        );
        let millis = self.chaos.inject_latency();
        if millis > 0 {
            Action::Suspend { millis, trace, request }
        } else {
            self.enter(trace, request, e)
        }
    }

    /// One step of the pipeline, with the time and the fresh identifiers given. See
    /// [`crate::pipeline::step`].
    pub fn decide(&mut self, step: Step, e: &Entropy) -> (action: Action)
        requires
            old(self).wf(),
            has_room_for(old(self)@, step@),
            step.wf(),
        ensures
            final(self).wf(),
            action.wf(),
            (Outcome { app: final(self)@, action: action@ }) == crate::pipeline::step(old(self)@, step@, e@),
    {
        match step {
            Step::Arrived { request } => self.begin(request, e),
            Step::Resumed { trace, request } => self.enter(trace, request, e),
            Step::Replied { trace, status, headers } => {
                let mut trace = trace;
                let mut headers = headers;
                let message = joined_number("Upstream responded: ", status as u64);
                trace.log_at(EventCategory::Upstream, message.as_str(), e.now);
                remove_hop_by_hop_headers(&mut headers);
                self.respond(trace, e.now, Reply { status, headers, body: ReplyBody::Upstream })
            },
            Step::Failed { trace, message } => {
                let mut trace = trace;
                let line = joined("Upstream Failed: ", message.as_str());
                trace.log_at(EventCategory::Upstream, line.as_str(), e.now);
                self.respond(trace, e.now, Reply::text(502, message.as_str()))
            },
        }
    }

    /// One step of the pipeline, at the current time and with identifiers drawn
    /// for it: what [`crate::pipeline::step`] gives for some time and, where the
    /// step is about a request that has not gone upstream yet, two UUIDs and a
    /// transaction hash.
    pub fn proxy_handler(&mut self, step: Step) -> (action: Action)
        requires
            old(self).wf(),
            has_room_for(old(self)@, step@),
            step.wf(),
        ensures
            final(self).wf(),
            action.wf(),
            exists|e: EntropyView|
                (request_of(step@) is Some ==> well_shaped(e)) && (Outcome { app: final(self)@, action: action@ })
                    == #[trigger] crate::pipeline::step(old(self)@, step@, e),
    {
        let e = match &step {
            Step::Arrived { .. } => Entropy::draw(),
            Step::Resumed { .. } => Entropy::draw(),
            _ => Entropy::clock(),
        };
        let action = self.decide(step, &e);
        assert((Outcome { app: self@, action: action@ }) == crate::pipeline::step(old(self)@, step@, e@));
        action
    }

    /// Whether `step` can be taken: the trace that it hands back is live, and the
    /// payment counter of the agent that it may charge has room for one more payment.
    pub fn accepts(&self, step: &Step) -> (ok: bool)
        requires
            self.wf(),
        ensures
            ok == (has_room_for(self@, step@) && step.wf()),
    {
        let request = match step {
            Step::Arrived { request } => request,
            Step::Resumed { trace, request } => {
                if !is_live(trace) {
                    return false;
                }
                request
            },
            Step::Replied { trace, .. } => {
                return is_live(trace);
            },
            Step::Failed { trace, .. } => {
                return is_live(trace);
            },
        };
        match get_header_text(&request.headers, "x-agent-id") {
            Some(agent) => match self.ledger.get_state(agent.as_str()) {
                Some(wallet) => wallet.payment_count < u64::MAX - BLOCK_HEIGHT_BASE,
                None => true,
            },
            None => true,
        }
    }

    /// One step of the pipeline where the step can be taken; where it cannot, the
    /// step is handed back and nothing has happened.
    pub fn try_proxy_handler(&mut self, step: Step) -> (r: Result<Action, Step>)
        requires
            old(self).wf(),
        ensures
            final(self).wf(),
            match r {
                Ok(action) => {
                    &&& has_room_for(old(self)@, step@)
                    &&& step.wf()
                    &&& action.wf()
                    &&& exists|e: EntropyView|
                        (request_of(step@) is Some ==> well_shaped(e)) && (Outcome {
                            app: final(self)@,
                            action: action@,
                        }) == #[trigger] crate::pipeline::step(old(self)@, step@, e)
                },
                Err(back) => {
                    &&& !(has_room_for(old(self)@, step@) && step.wf())
                    &&& back@ == step@
                    &&& final(self)@ == old(self)@
                },
            },
    {
        if self.accepts(&step) {
            Ok(self.proxy_handler(step))
        } else {
            Err(step)
        }
    }
}

} // verus!
