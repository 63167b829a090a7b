//! The reverse-proxy forwarder: relays a request to the backend and its
//! response to the caller, verbatim but for the hop-by-hop headers.

use vstd::prelude::*;
use vstd::utf8::{decode_utf8, decode_utf8_encode_utf8, encode_utf8, valid_utf8};
use crate::redaction::{apply_filters, lemma_clean_text_is_fixed_point, redacted, sensitive};
use crate::status::HttpStatus;
use crate::text::{eq_ignoring_ascii_case, join2, str_eq_ignore_ascii_case};

verus! {

/// The text that `String::from_utf8_lossy` makes of a byte string that is not
/// well-formed UTF-8.
pub uninterp spec fn utf8_lossy(bytes: Seq<u8>) -> Seq<char>;

/// A byte string read as text: well-formed UTF-8 is decoded, and anything
/// else is decoded with U+FFFD in the place of each malformed sequence.
pub open spec fn lossy_text(bytes: Seq<u8>) -> Seq<char> {
    if valid_utf8(bytes) {
        decode_utf8(bytes)
    } else {
        utf8_lossy(bytes)
    }
}

/// Calls `String::from_utf8_lossy`. The standard library documents that
/// well-formed UTF-8 comes back as the string that it encodes; what is made
/// of other bytes is given the name [`utf8_lossy`], and depends on the bytes
/// alone.
#[verifier::external_body]
fn decode_lossy(bytes: &[u8]) -> (r: String)
    ensures
        r@ == (if valid_utf8(bytes@) {
            decode_utf8(bytes@)
        } else {
            utf8_lossy(bytes@)
        }),
{
    String::from_utf8_lossy(bytes).into_owned()
}

/// One header line. Names are compared without regard to ASCII case; values
/// are opaque bytes.
#[derive(Clone, Debug, PartialEq, Eq)]
pub struct Header {
    pub name: String,
    pub value: Vec<u8>,
}

/// The mathematical content of a [`Header`].
pub struct HeaderView {
    pub name: Seq<char>,
    pub value: Seq<u8>,
}

impl View for Header {
    type V = HeaderView;

    open spec fn view(&self) -> HeaderView {
        HeaderView { name: self.name@, value: self.value@ }
    }
}

/// The headers of a list, as mathematical values.
pub open spec fn headers_view(headers: Seq<Header>) -> Seq<HeaderView> {
    headers.map_values(|h: Header| h@)
}

/// Which way a message travels through the proxy.
#[derive(Clone, Copy, Debug, PartialEq, Eq, Structural)]
pub enum Direction {
    /// From the caller to the backend.
    Request,
    /// From the backend to the caller.
    Response,
}

/// Whether a header of this name belongs to one connection only and is not
/// relayed: `host` and `content-length` on a request, `transfer-encoding` on
/// a response.
pub open spec fn is_hop_by_hop(direction: Direction, name: Seq<char>) -> bool {
    match direction {
        Direction::Request => eq_ignoring_ascii_case(name, "host"@) || eq_ignoring_ascii_case(
            name,
            "content-length"@,
        ),
        Direction::Response => eq_ignoring_ascii_case(name, "transfer-encoding"@),
    }
}

/// The test that a relayed header passes.
pub open spec fn end_to_end(direction: Direction) -> spec_fn(HeaderView) -> bool {
    |h: HeaderView| !is_hop_by_hop(direction, h.name)
}

/// The headers that are relayed: all but the hop-by-hop ones, in their order,
/// each with its name and value unchanged.
pub open spec fn relayed_headers(direction: Direction, headers: Seq<HeaderView>) -> Seq<HeaderView> {
    headers.filter(end_to_end(direction))
}

/// An inbound request as the forwarder sees it.
#[derive(Clone, Debug, PartialEq, Eq)]
pub struct ProxyEnvelope {
    pub method: String,
    /// The path with its query string, as received.
    pub path_and_query: String,
    pub headers: Vec<Header>,
    pub body: Vec<u8>,
}

/// The mathematical content of a [`ProxyEnvelope`].
pub struct ProxyEnvelopeView {
    pub method: Seq<char>,
    pub path_and_query: Seq<char>,
    pub headers: Seq<HeaderView>,
    pub body: Seq<u8>,
}

impl View for ProxyEnvelope {
    type V = ProxyEnvelopeView;

    open spec fn view(&self) -> ProxyEnvelopeView {
        ProxyEnvelopeView {
            method: self.method@,
            path_and_query: self.path_and_query@,
            headers: headers_view(self.headers@),
            body: self.body@,
        }
    }
}

/// A request for the backend.
#[derive(Clone, Debug, PartialEq, Eq)]
pub struct OutboundRequest {
    pub method: String,
    pub url: String,
    pub headers: Vec<Header>,
    pub body: Vec<u8>,
}

/// The mathematical content of an [`OutboundRequest`].
pub struct OutboundRequestView {
    pub method: Seq<char>,
    pub url: Seq<char>,
    pub headers: Seq<HeaderView>,
    pub body: Seq<u8>,
}

impl View for OutboundRequest {
    type V = OutboundRequestView;

    open spec fn view(&self) -> OutboundRequestView {
        OutboundRequestView {
            method: self.method@,
            url: self.url@,
            headers: headers_view(self.headers@),
            body: self.body@,
        }
    }
}

/// A response, as received from the backend or as handed to the caller.
#[derive(Clone, Debug, PartialEq, Eq)]
pub struct ProxyResponse {
    pub status: HttpStatus,
    pub headers: Vec<Header>,
    pub body: Vec<u8>,
}

/// The mathematical content of a [`ProxyResponse`].
pub struct ProxyResponseView {
    pub status: u16,
    pub headers: Seq<HeaderView>,
    pub body: Seq<u8>,
}

impl View for ProxyResponse {
    type V = ProxyResponseView;

    open spec fn view(&self) -> ProxyResponseView {
        ProxyResponseView {
            status: self.status@,
            headers: headers_view(self.headers@),
            body: self.body@,
        }
    }
}

/// The request that the forwarder sends for `envelope`: the same method and
/// body, the backend's base URL followed by the path and query as received, and
/// the end-to-end headers.
pub open spec fn forwarded(base_url: Seq<char>, envelope: ProxyEnvelopeView) -> OutboundRequestView {
    OutboundRequestView {
        method: envelope.method,
        url: base_url + envelope.path_and_query,
        headers: relayed_headers(Direction::Request, envelope.headers),
        body: envelope.body,
    }
}

/// The response that the caller gets for the backend's `response` on an
/// opaque endpoint: the same status and body, and the end-to-end headers.
pub open spec fn relayed(response: ProxyResponseView) -> ProxyResponseView {
    ProxyResponseView {
        status: response.status,
        headers: relayed_headers(Direction::Response, response.headers),
        body: response.body,
    }
}

/// The body that the caller gets on a schema-aware endpoint: the backend's
/// body read as text, redacted, and encoded again.
pub open spec fn redacted_body(body: Seq<u8>) -> Seq<u8> {
    encode_utf8(redacted(lossy_text(body)))
}

/// The response that the caller gets for the backend's `response` on a
/// schema-aware endpoint: as [`relayed`], with the body redacted.
pub open spec fn relayed_redacted(response: ProxyResponseView) -> ProxyResponseView {
    ProxyResponseView {
        status: response.status,
        headers: relayed_headers(Direction::Response, response.headers),
        body: redacted_body(response.body),
    }
}

impl Header {
    /// A header line.
    pub fn new(name: &str, value: &[u8]) -> (r: Self)
        ensures
            r@ == (HeaderView { name: name@, value: value@ }),
    {
        Header { name: name.to_owned(), value: vstd::slice::slice_to_vec(value) }
    }

    /// A copy of this header line.
    pub fn duplicate(&self) -> (r: Self)
        ensures
            r@ == self@,
    {
        Header { name: self.name.clone(), value: self.value.clone() }
    }
}

/// Whether a header called `name` is dropped in the given direction.
pub fn hop_by_hop(direction: Direction, name: &str) -> (r: bool)
    ensures
        r == is_hop_by_hop(direction, name@),
{
    match direction {
        Direction::Request => str_eq_ignore_ascii_case(name, "host") || str_eq_ignore_ascii_case(
            name,
            "content-length",
        ),
        Direction::Response => str_eq_ignore_ascii_case(name, "transfer-encoding"),
    }
}

/// The headers to relay in the given direction.
pub fn relay_headers(direction: Direction, headers: &Vec<Header>) -> (r: Vec<Header>)
    ensures
        headers_view(r@) == relayed_headers(direction, headers_view(headers@)),
{
    let ghost all = headers_view(headers@);
    let ghost keep = end_to_end(direction);
    let mut out: Vec<Header> = Vec::new();
    let mut k: usize = 0;
    proof {
        reveal(Seq::filter);
        assert(all.take(0).filter(keep) =~= Seq::<HeaderView>::empty());
        assert(headers_view(out@) =~= Seq::<HeaderView>::empty());
    }
    while k < headers.len()
        invariant
            k <= headers.len(),
            all == headers_view(headers@),
            keep == end_to_end(direction),
            headers_view(out@) == all.take(k as int).filter(keep),
        decreases headers.len() - k,
    {
        let ghost before = headers_view(out@);
        proof {
            reveal(Seq::filter);
            let next = all.take(k + 1);
            assert(next.drop_last() =~= all.take(k as int));
            assert(next.last() == headers@[k as int]@);
        }
        if !hop_by_hop(direction, headers[k].name.as_str()) {
            out.push(headers[k].duplicate());
            assert(headers_view(out@) =~= before.push(headers@[k as int]@));
        }
        k += 1;
    }
    assert(all.take(k as int) =~= all);
    out
}

/// Builds the request that relays `envelope` to the backend at `base_url`.
pub fn forward(base_url: &str, envelope: ProxyEnvelope) -> (r: OutboundRequest)
    ensures
        r@ == forwarded(base_url@, envelope@),
{
    let headers = relay_headers(Direction::Request, &envelope.headers);
    let url = join2(base_url, envelope.path_and_query.as_str());
    OutboundRequest { method: envelope.method, url, headers, body: envelope.body }
}

/// Relays the backend's response on an opaque endpoint.
pub fn relay(response: ProxyResponse) -> (r: ProxyResponse)
    ensures
        r@ == relayed(response@),
{
    let headers = relay_headers(Direction::Response, &response.headers);
    ProxyResponse { status: response.status, headers, body: response.body }
}

/// Relays the backend's response on a schema-aware endpoint: the body is
/// read as text and redacted.
pub fn relay_redacted(response: ProxyResponse) -> (r: ProxyResponse)
    ensures
        r@ == relayed_redacted(response@),
{
    let headers = relay_headers(Direction::Response, &response.headers);
    let text = decode_lossy(response.body.as_slice());
    let clean = apply_filters(text);
    let body = clean.as_str().as_bytes_vec();
    ProxyResponse { status: response.status, headers, body }
}

/// Header hygiene: no relayed header is a hop-by-hop header of its direction,
/// and every other header of the message is relayed.
pub proof fn lemma_header_hygiene(direction: Direction, headers: Seq<HeaderView>)
    ensures
        forall|i: int|
            0 <= i < relayed_headers(direction, headers).len() ==> !is_hop_by_hop(
                direction,
                (#[trigger] relayed_headers(direction, headers)[i]).name,
            ),
        forall|i: int|
            0 <= i < headers.len() && !is_hop_by_hop(direction, (#[trigger] headers[i]).name)
                ==> relayed_headers(direction, headers).contains(headers[i]),
        forall|i: int|
            0 <= i < relayed_headers(direction, headers).len() ==> headers.contains(
                #[trigger] relayed_headers(direction, headers)[i],
            ),
{
    let keep = end_to_end(direction);
    let out = headers.filter(keep);
    assert forall|i: int| 0 <= i < out.len() implies !is_hop_by_hop(
        direction,
        (#[trigger] out[i]).name,
    ) && headers.contains(out[i]) by {
        headers.lemma_filter_pred(keep, i);
        headers.lemma_filter_contains_rev(keep, out[i]);
    }
    assert forall|i: int|
        0 <= i < headers.len() && !is_hop_by_hop(
            direction,
            (#[trigger] headers[i]).name,
        ) implies out.contains(headers[i]) by {
        headers.lemma_filter_contains(keep, i);
    }
}

/// A well-formed body without a secret or personal data passes a
/// schema-aware endpoint byte for byte.
pub proof fn lemma_clean_body_unchanged(body: Seq<u8>)
    requires
        valid_utf8(body),
        !sensitive(decode_utf8(body)),
    ensures
        redacted_body(body) == body,
{
    lemma_clean_text_is_fixed_point(decode_utf8(body));
    decode_utf8_encode_utf8(body);
}

} // verus!
