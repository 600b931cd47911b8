//! Requests, replies and their headers, as plain values.
//!
//! Header names are compared without regard to the case of ASCII letters; header
//! values are bytes.

use vstd::prelude::*;
use vstd::string::StrSliceExecFns;
use vstd::utf8::encode_utf8;
use crate::ledger::{AgentState, AgentStateView};
use crate::text::{bytes_as_chars, lemma_lower_text_idempotent, lower_text, lowered};
use crate::trace::{Trace, TraceView};

verus! {

/// One header line.
#[derive(Debug)]
pub struct Header {
    pub name: String,
    pub value: Vec<u8>,
}

/// A [`Header`] as a mathematical value.
pub struct HeaderView {
    pub name: Seq<char>,
    pub value: Seq<u8>,
}

impl View for Header {
    type V = HeaderView;

    open spec fn view(&self) -> HeaderView {
        HeaderView { name: self.name@, value: self.value@ }
    }
}

impl Clone for Header {
    fn clone(&self) -> (r: Self)
        ensures
            r@ == self@,
    {
        let value = self.value.clone();
        assert(value@ =~= self.value@);
        Header { name: self.name.clone(), value }
    }
}

impl Header {
    /// The header `name` with the bytes of `value` as its value.
    pub fn new(name: &str, value: &str) -> (h: Header)
        ensures
            h@ == (HeaderView { name: name@, value: encode_utf8(value@) }),
    {
        Header { name: name.to_owned(), value: value.as_bytes_vec() }
    }
}

/// The headers of a list, as mathematical values.
pub open spec fn header_views(headers: Seq<Header>) -> Seq<HeaderView> {
    headers.map_values(|h: Header| h@)
}

/// A byte that may stand in a header value read as text: a visible ASCII character,
/// a space or a tab.
pub open spec fn is_visible(b: u8) -> bool {
    (32 <= b && b < 127) || b == 9
}

/// A header value read as text: its bytes as characters, where every byte
/// [`is_visible`]; nothing otherwise.
pub open spec fn text_of(value: Seq<u8>) -> Option<Seq<char>> {
    if forall|i: int| 0 <= i < value.len() ==> is_visible(#[trigger] value[i]) {
        Some(bytes_as_chars(value))
    } else {
        None
    }
}

/// Two header names are the same name: they differ at most in the case of ASCII
/// letters.
pub open spec fn same_name(a: Seq<char>, b: Seq<char>) -> bool {
    lower_text(a) == lower_text(b)
}

/// The value of the first header called `name`.
pub open spec fn first_value(headers: Seq<HeaderView>, name: Seq<char>) -> Option<Seq<u8>>
    decreases headers.len(),
{
    if headers.len() == 0 {
        None
    } else if same_name(headers[0].name, name) {
        Some(headers[0].value)
    } else {
        first_value(headers.drop_first(), name)
    }
}

/// The first header called `name`, read as text. A value that is not text counts as
/// absent.
pub open spec fn header_text(headers: Seq<HeaderView>, name: Seq<char>) -> Option<Seq<char>> {
    match first_value(headers, name) {
        Some(value) => text_of(value),
        None => None,
    }
}

/// A header that belongs to one connection and is not passed on, in whatever case
/// its name is written.
pub open spec fn is_hop_by_hop(name: Seq<char>) -> bool {
    let lower = lower_text(name);
    ||| lower == "connection"@
    ||| lower == "keep-alive"@
    ||| lower == "proxy-authenticate"@
    ||| lower == "proxy-authorization"@
    ||| lower == "te"@
    ||| lower == "trailer"@
    ||| lower == "transfer-encoding"@
    ||| lower == "upgrade"@
    ||| lower == "content-length"@
}

/// The headers without those of one connection, in their order.
pub open spec fn without_hop_by_hop(headers: Seq<HeaderView>) -> Seq<HeaderView> {
    headers.filter(|h: HeaderView| !is_hop_by_hop(h.name))
}

/// The headers without those called `name`, in their order.
pub open spec fn without_name(headers: Seq<HeaderView>, name: Seq<char>) -> Seq<HeaderView> {
    headers.filter(|h: HeaderView| !same_name(h.name, name))
}

/// The headers with `name` set to `value`: earlier headers of that name leave, and
/// the new one goes to the end.
pub open spec fn with_header(headers: Seq<HeaderView>, name: Seq<char>, value: Seq<u8>) -> Seq<HeaderView> {
    without_name(headers, name).push(HeaderView { name, value })
}

/// The first `i + 1` headers without those called `name` are the first `i`
/// without them, and the header at `i` where it is not called `name`.
proof fn lemma_without_name_step(headers: Seq<HeaderView>, name: Seq<char>, i: int)
    requires
        0 <= i < headers.len(),
    ensures
        without_name(headers.take(i + 1), name) == if !same_name(headers[i].name, name) {
            without_name(headers.take(i), name).push(headers[i])
        } else {
            without_name(headers.take(i), name)
        },
{
    reveal(Seq::filter);
    assert(headers.take(i + 1).drop_last() =~= headers.take(i));
}

/// The same for the headers of one connection.
proof fn lemma_without_hop_by_hop_step(headers: Seq<HeaderView>, i: int)
    requires
        0 <= i < headers.len(),
    ensures
        without_hop_by_hop(headers.take(i + 1)) == if !is_hop_by_hop(headers[i].name) {
            without_hop_by_hop(headers.take(i)).push(headers[i])
        } else {
            without_hop_by_hop(headers.take(i))
        },
{
    reveal(Seq::filter);
    assert(headers.take(i + 1).drop_last() =~= headers.take(i));
}

/// What is filtered once need not be filtered again.
proof fn lemma_filter_idempotent(headers: Seq<HeaderView>, keep: spec_fn(HeaderView) -> bool)
    ensures
        headers.filter(keep).filter(keep) == headers.filter(keep),
    decreases headers.len(),
{
    reveal(Seq::filter);
    if headers.len() > 0 {
        let front = headers.drop_last();
        lemma_filter_idempotent(front, keep);
        if keep(headers.last()) {
            assert(front.filter(keep).push(headers.last()).drop_last() =~= front.filter(keep));
        }
    }
}

/// What the removal of the headers of one connection leaves: no header of one
/// connection, in whatever case its name is written; every other header, as it
/// was and in its order; and nothing else. A second removal changes nothing.
pub proof fn lemma_hop_by_hop_removal(headers: Seq<HeaderView>)
    ensures
        forall|i: int|
            0 <= i < without_hop_by_hop(headers).len() ==> !is_hop_by_hop(
                (#[trigger] without_hop_by_hop(headers)[i]).name,
            ),
        forall|i: int|
            0 <= i < without_hop_by_hop(headers).len() ==> headers.contains(
                #[trigger] without_hop_by_hop(headers)[i],
            ),
        forall|i: int|
            0 <= i < headers.len() && !is_hop_by_hop((#[trigger] headers[i]).name) ==> without_hop_by_hop(
                headers,
            ).contains(headers[i]),
        without_hop_by_hop(headers).len() <= headers.len(),
        without_hop_by_hop(without_hop_by_hop(headers)) == without_hop_by_hop(headers),
        forall|name: Seq<char>| is_hop_by_hop(name) == is_hop_by_hop(#[trigger] lower_text(name)),
{
    let keep = |h: HeaderView| !is_hop_by_hop(h.name);
    let kept = headers.filter(keep);
    headers.lemma_filter_len(keep);
    lemma_filter_idempotent(headers, keep);
    assert forall|i: int| 0 <= i < kept.len() implies !is_hop_by_hop((#[trigger] kept[i]).name)
        && headers.contains(kept[i]) by {
        headers.lemma_filter_pred(keep, i);
        assert(kept.contains(kept[i]));
        headers.lemma_filter_contains_rev(keep, kept[i]);
    }
    assert forall|i: int| 0 <= i < headers.len() && !is_hop_by_hop((#[trigger] headers[i]).name) implies kept.contains(
        headers[i],
    ) by {
        headers.lemma_filter_contains(keep, i);
    }
    assert forall|name: Seq<char>| is_hop_by_hop(name) == is_hop_by_hop(#[trigger] lower_text(name)) by {
        lemma_lower_text_idempotent(name);
    }
}

/// Where none of the first `i` headers is called `name`, the first value under
/// `name` is the first among the others.
proof fn lemma_first_value_skip(headers: Seq<HeaderView>, name: Seq<char>, i: int)
    requires
        0 <= i <= headers.len(),
        forall|k: int| 0 <= k < i ==> !same_name((#[trigger] headers[k]).name, name),
    ensures
        first_value(headers, name) == first_value(headers.skip(i), name),
    decreases i,
{
    if i == 0 {
        assert(headers.skip(0) =~= headers);
    } else {
        let rest = headers.drop_first();
        assert forall|k: int| 0 <= k < i - 1 implies !same_name((#[trigger] rest[k]).name, name) by {
            assert(rest[k] == headers[k + 1]);
        }
        lemma_first_value_skip(rest, name, i - 1);
        assert(rest.skip(i - 1) =~= headers.skip(i));
        assert(!same_name(headers[0].name, name));
    }
}

/// Whether two header names are the same name.
pub fn names_match(a: &str, b: &str) -> (r: bool)
    ensures
        r == same_name(a@, b@),
{
    let la = lowered(a);
    let lb = lowered(b);
    *la.as_str() == *lb.as_str()
}

/// The index of the first header called `name`.
fn find_header(headers: &Vec<Header>, name: &str) -> (found: Option<usize>)
    ensures
        match found {
            Some(i) => i < headers.len() && first_value(header_views(headers@), name@) == Some(headers@[i as int]@.value),
            None => first_value(header_views(headers@), name@) is None,
        },
{
    let ghost views = header_views(headers@);
    let wanted = lowered(name);
    let mut i: usize = 0;
    while i < headers.len()
        invariant
            i <= headers.len(),
            views == header_views(headers@),
            wanted@ == lower_text(name@),
            forall|k: int| 0 <= k < i ==> !same_name((#[trigger] views[k]).name, name@),
        decreases headers.len() - i,
    {
        proof {
            lemma_lower_text_idempotent(name@);
        }
        if names_match(headers[i].name.as_str(), wanted.as_str()) {
            proof {
                lemma_first_value_skip(views, name@, i as int);
                assert(views.skip(i as int)[0] == views[i as int]);
            }
            return Some(i);
        }
        i += 1;
    }
    proof {
        lemma_first_value_skip(views, name@, i as int);
        assert(views.skip(i as int).len() == 0);
    }
    None
}

/// Whether a header called `name` is present.
pub fn has_header(headers: &Vec<Header>, name: &str) -> (r: bool)
    ensures
        r == first_value(header_views(headers@), name@) is Some,
{
    find_header(headers, name).is_some()
}

/// A header value read as text.
pub fn value_text(value: &Vec<u8>) -> (r: Option<String>)
    ensures
        match r {
            Some(s) => text_of(value@) == Some(s@),
            None => text_of(value@) is None,
        },
{
    let mut text = String::new();
    let mut i: usize = 0;
    while i < value.len()
        invariant
            i <= value.len(),
            forall|k: int| 0 <= k < i ==> is_visible(#[trigger] value@[k]),
            text@ == bytes_as_chars(value@.take(i as int)),
        decreases value.len() - i,
    {
        let b = value[i];
        if !((32 <= b && b < 127) || b == 9) {
            return None;
        }
        text.push(b as char);
        i += 1;
        assert(bytes_as_chars(value@.take(i as int)) =~= bytes_as_chars(value@.take(i as int - 1)).push(
            b as char,
        ));
    }
    assert(value@.take(value.len() as int) =~= value@);
    Some(text)
}

/// The first header called `name`, read as text.
pub fn get_header_text(headers: &Vec<Header>, name: &str) -> (r: Option<String>)
    ensures
        match r {
            Some(s) => header_text(header_views(headers@), name@) == Some(s@),
            None => header_text(header_views(headers@), name@) is None,
        },
{
    match find_header(headers, name) {
        Some(i) => value_text(&headers[i].value),
        None => None,
    }
}

/// Whether `name` is one of the headers that belong to one connection, in whatever
/// case it is written.
pub fn names_hop_by_hop(name: &str) -> (r: bool)
    ensures
        r == is_hop_by_hop(name@),
{
    let lower = lowered(name);
    let lower = lower.as_str();
    *lower == *"connection" || *lower == *"keep-alive" || *lower == *"proxy-authenticate" || *lower
        == *"proxy-authorization" || *lower == *"te" || *lower == *"trailer" || *lower == *"transfer-encoding"
        || *lower == *"upgrade" || *lower == *"content-length"
}

/// Removes the headers that belong to one connection; the others keep their order.
pub fn remove_hop_by_hop_headers(headers: &mut Vec<Header>)
    ensures
        header_views(final(headers)@) == without_hop_by_hop(header_views(old(headers)@)),
{
    let ghost views = header_views(headers@);
    let mut kept: Vec<Header> = Vec::new();
    let mut i: usize = 0;
    proof {
        reveal(Seq::filter);
        assert(views.take(0) =~= Seq::empty());
        assert(header_views(kept@) =~= without_hop_by_hop(views.take(0)));
    }
    while i < headers.len()
        invariant
            i <= headers.len(),
            views == header_views(headers@),
            header_views(kept@) == without_hop_by_hop(views.take(i as int)),
        decreases headers.len() - i,
    {
        proof {
            lemma_without_hop_by_hop_step(views, i as int);
        }
        if !names_hop_by_hop(headers[i].name.as_str()) {
            let ghost before = header_views(kept@);
            kept.push(headers[i].clone());
            assert(header_views(kept@) =~= before.push(views[i as int]));
        }
        i += 1;
    }
    assert(views.take(headers.len() as int) =~= views);
    *headers = kept;
}

/// Removes the headers called `name`; the others keep their order.
pub fn remove_header(headers: &mut Vec<Header>, name: &str)
    ensures
        header_views(final(headers)@) == without_name(header_views(old(headers)@), name@),
{
    let ghost views = header_views(headers@);
    let mut kept: Vec<Header> = Vec::new();
    let mut i: usize = 0;
    proof {
        reveal(Seq::filter);
        assert(views.take(0) =~= Seq::empty());
        assert(header_views(kept@) =~= without_name(views.take(0), name@));
    }
    while i < headers.len()
        invariant
            i <= headers.len(),
            views == header_views(headers@),
            header_views(kept@) == without_name(views.take(i as int), name@),
        decreases headers.len() - i,
    {
        proof {
            lemma_without_name_step(views, name@, i as int);
        }
        if !names_match(headers[i].name.as_str(), name) {
            let ghost before = header_views(kept@);
            kept.push(headers[i].clone());
            assert(header_views(kept@) =~= before.push(views[i as int]));
        }
        i += 1;
    }
    assert(views.take(headers.len() as int) =~= views);
    *headers = kept;
}

/// Sets the header `name` to the bytes of `value`, in place of any header of that
/// name.
pub fn set_header(headers: &mut Vec<Header>, name: &str, value: &str)
    ensures
        header_views(final(headers)@) == with_header(header_views(old(headers)@), name@, encode_utf8(value@)),
{
    remove_header(headers, name);
    let ghost before = header_views(headers@);
    headers.push(Header::new(name, value));
    assert(header_views(headers@) =~= before.push(HeaderView { name: name@, value: encode_utf8(value@) }));
}

/// A request as the proxy sees it. `uri` is the request target as it was sent,
/// `path` and `query` are its parts, and `absolute` says whether the target names a
/// scheme and a host.
#[derive(Debug)]
pub struct Request {
    pub method: String,
    pub uri: String,
    pub path: String,
    pub query: Option<String>,
    pub absolute: bool,
    pub headers: Vec<Header>,
}

/// A [`Request`] as a mathematical value.
pub struct RequestView {
    pub method: Seq<char>,
    pub uri: Seq<char>,
    pub path: Seq<char>,
    pub query: Option<Seq<char>>,
    pub absolute: bool,
    pub headers: Seq<HeaderView>,
}

/// The text of an optional string.
pub open spec fn text_view(s: Option<String>) -> Option<Seq<char>> {
    match s {
        Some(s) => Some(s@),
        None => None,
    }
}

impl View for Request {
    type V = RequestView;

    open spec fn view(&self) -> RequestView {
        RequestView {
            method: self.method@,
            uri: self.uri@,
            path: self.path@,
            query: text_view(self.query),
            absolute: self.absolute,
            headers: header_views(self.headers@),
        }
    }
}

/// The request that the proxy sends upstream. The body of the inbound request goes
/// with it unchanged.
#[derive(Debug)]
pub struct Outbound {
    pub method: String,
    pub url: String,
    pub headers: Vec<Header>,
    pub kind: RequestType,
}

/// An [`Outbound`] as a mathematical value.
pub struct OutboundView {
    pub method: Seq<char>,
    pub url: Seq<char>,
    pub headers: Seq<HeaderView>,
    pub kind: RequestType,
}

impl View for Outbound {
    type V = OutboundView;

    open spec fn view(&self) -> OutboundView {
        OutboundView {
            method: self.method@,
            url: self.url@,
            headers: header_views(self.headers@),
            kind: self.kind,
        }
    }
}

/// What kind of service an upstream host is taken for.
#[derive(Debug, Clone, Copy, PartialEq, Eq, Structural)]
pub enum RequestType {
    AiInference,
    Payment,
    Rpc,
    Unknown,
}

/// The body of a payment challenge.
#[derive(Debug)]
pub struct Challenge {
    pub status: u16,
    pub x402_invoice: String,
    pub amount: String,
    pub currency: String,
    pub chain: String,
    pub network: String,
    pub chain_id: u64,
    pub payment_address: String,
}

/// A [`Challenge`] as a mathematical value.
pub struct ChallengeView {
    pub status: u16,
    pub x402_invoice: Seq<char>,
    pub amount: Seq<char>,
    pub currency: Seq<char>,
    pub chain: Seq<char>,
    pub network: Seq<char>,
    pub chain_id: u64,
    pub payment_address: Seq<char>,
}

impl View for Challenge {
    type V = ChallengeView;

    open spec fn view(&self) -> ChallengeView {
        ChallengeView {
            status: self.status,
            x402_invoice: self.x402_invoice@,
            amount: self.amount@,
            currency: self.currency@,
            chain: self.chain@,
            network: self.network@,
            chain_id: self.chain_id,
            payment_address: self.payment_address@,
        }
    }
}

/// What a reply carries.
#[derive(Debug)]
pub enum ReplyBody {
    /// Nothing.
    Empty,
    /// Plain text.
    Text(String),
    /// A refused payment: status, reason and agent, to be sent as a JSON object.
    Rejection { status: u16, error: String, agent: String },
    /// A payment challenge, to be sent as a JSON object.
    Challenge(Challenge),
    /// The wallet of an agent, to be sent as a JSON object.
    Agent(AgentState),
    /// Completed traces, to be sent as a JSON array.
    Traces(Vec<Trace>),
    /// The body that the upstream sent, passed through as it comes.
    Upstream,
}

/// A [`ReplyBody`] as a mathematical value.
pub enum ReplyBodyView {
    Empty,
    Text(Seq<char>),
    Rejection { status: u16, error: Seq<char>, agent: Seq<char> },
    Challenge(ChallengeView),
    Agent(AgentStateView),
    Traces(Seq<TraceView>),
    Upstream,
}

impl View for ReplyBody {
    type V = ReplyBodyView;

    open spec fn view(&self) -> ReplyBodyView {
        match self {
            ReplyBody::Empty => ReplyBodyView::Empty,
            ReplyBody::Text(s) => ReplyBodyView::Text(s@),
            ReplyBody::Rejection { status, error, agent } => ReplyBodyView::Rejection {
                status: *status,
                error: error@,
                agent: agent@,
            },
            ReplyBody::Challenge(c) => ReplyBodyView::Challenge(c@),
            ReplyBody::Agent(a) => ReplyBodyView::Agent(a@),
            ReplyBody::Traces(t) => ReplyBodyView::Traces(t@.map_values(|t: Trace| t@)),
            ReplyBody::Upstream => ReplyBodyView::Upstream,
        }
    }
}

/// What the proxy answers.
#[derive(Debug)]
pub struct Reply {
    pub status: u16,
    pub headers: Vec<Header>,
    pub body: ReplyBody,
}

/// A [`Reply`] as a mathematical value.
pub struct ReplyView {
    pub status: u16,
    pub headers: Seq<HeaderView>,
    pub body: ReplyBodyView,
}

impl View for Reply {
    type V = ReplyView;

    open spec fn view(&self) -> ReplyView {
        ReplyView { status: self.status, headers: header_views(self.headers@), body: self.body@ }
    }
}

/// A reply of plain text without headers.
pub open spec fn text_reply(status: u16, text: Seq<char>) -> ReplyView {
    ReplyView { status, headers: Seq::empty(), body: ReplyBodyView::Text(text) }
}

impl Reply {
    /// A reply of plain text without headers.
    pub fn text(status: u16, text: &str) -> (r: Reply)
        ensures
            r@ == text_reply(status, text@),
    {
        let r = Reply { status, headers: Vec::new(), body: ReplyBody::Text(text.to_owned()) };
        assert(header_views(r.headers@) =~= Seq::empty());
        r
    }
}

} // verus!
