//! Where a request is sent: the upstream URL, parsed by the `url` crate.

use vstd::prelude::*;
use crate::message::{header_text, text_view, RequestType, RequestView};
use crate::text::occurs_in;

verus! {

/// An absolute URL in its normal form, with the host it names.
#[derive(Debug)]
pub struct UpstreamUrl {
    pub text: String,
    pub host: Option<String>,
}

/// An [`UpstreamUrl`] as a mathematical value.
pub struct UpstreamUrlView {
    pub text: Seq<char>,
    pub host: Option<Seq<char>>,
}

impl View for UpstreamUrl {
    type V = UpstreamUrlView;

    open spec fn view(&self) -> UpstreamUrlView {
        UpstreamUrlView { text: self.text@, host: text_view(self.host) }
    }
}

/// What `url::Url::parse` makes of a text: nothing where it is no absolute URL, else
/// the URL's serialization and, where the URL has one, its host.
pub uninterp spec fn url_parts(input: Seq<char>) -> Option<(Seq<char>, Option<Seq<char>>)>;

/// The parts of an optional URL.
pub open spec fn parts_of(url: Option<UpstreamUrl>) -> Option<(Seq<char>, Option<Seq<char>>)> {
    match url {
        Some(u) => Some((u@.text, u@.host)),
        None => None,
    }
}

/// `url::Url::parse`, with the parsed URL handed out as its serialization
/// (`Url::as_str`) and its host (`Url::host_str`). The parser is a function of the
/// text alone; what it accepts and how it normalizes takes the URL standard to say.
#[verifier::external_body]
pub(crate) fn parse_url(input: &str) -> (url: Option<UpstreamUrl>)
    ensures
        parts_of(url) == url_parts(input@),
{
    match url::Url::parse(input) {
        Ok(u) => Some(UpstreamUrl { text: u.as_str().to_string(), host: u.host_str().map(|h| h.to_string()) }),
        Err(_) => None,
    }
}

/// The text that is parsed as the upstream URL of a request: the request target
/// where it is absolute, else `https://`, the value of `x-upstream-host`, the path
/// and, after a `?`, the query. Nothing where the target is relative and the header
/// is missing or no text.
pub open spec fn upstream_target(req: RequestView) -> Option<Seq<char>> {
    if req.absolute {
        Some(req.uri)
    } else {
        match header_text(req.headers, "x-upstream-host"@) {
            Some(host) => Some(
                "https://"@ + host + req.path + match req.query {
                    Some(q) => "?"@ + q,
                    None => Seq::empty(),
                },
            ),
            None => None,
        }
    }
}

/// Why no upstream URL could be had from `target`, given what the parser made of it.
pub open spec fn resolved(req: RequestView, parsed: Option<(Seq<char>, Option<Seq<char>>)>) -> Result<
    UpstreamUrlView,
    Seq<char>,
> {
    match parsed {
        Some(parts) => Ok(UpstreamUrlView { text: parts.0, host: parts.1 }),
        None => if req.absolute {
            Err("Invalid Absolute URL"@)
        } else {
            Err("Invalid Constructed URL"@)
        },
    }
}

/// The upstream URL of a request, or the reason why there is none.
pub open spec fn resolution(req: RequestView) -> Result<UpstreamUrlView, Seq<char>> {
    match upstream_target(req) {
        Some(target) => resolved(req, url_parts(target)),
        None => Err("Missing X-Upstream-Host header or Absolute URL"@),
    }
}

/// What kind of service a host is taken for, by the words in its name.
pub open spec fn classification(host: Seq<char>) -> RequestType {
    if occurs_in("openai.com"@, host) || occurs_in("anthropic"@, host) {
        RequestType::AiInference
    } else if occurs_in("cronos"@, host) || occurs_in("rpc"@, host) {
        RequestType::Rpc
    } else {
        RequestType::Unknown
    }
}

/// The host of a URL, or the empty text where it has none.
pub open spec fn host_or_empty(url: UpstreamUrlView) -> Seq<char> {
    match url.host {
        Some(h) => h,
        None => Seq::empty(),
    }
}

} // verus!
