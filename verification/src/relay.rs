//! One request through the relay: what is rejected, what is stripped, and
//! where the rest is sent.

use crate::error::{RelayError, RelayErrorView, Reply, ReplyView};
use crate::gateway_uri::{GatewayUri, GatewayUriView};
use crate::headers::{
    ascii_bytes, clear, first_value, get, header_fields, insert, is_field_name, is_visible_text,
    no_fields, value_as_bytes, value_bytes, value_from_static, Fields,
};
use crate::text::same_text;
use crate::uri::{
    build, built_parts, lemma_shown_as_given, shown_path_and_query, uri_accepts, UriParts,
    UriPartsView,
};
use vstd::prelude::*;
use vstd::string::StringExecFns;

verus! {

/// The port a relay listens on when none is configured.
pub const DEFAULT_PORT: u16 = 3000;

/// The value of the `Host` field of every forwarded request.  It names the
/// relay, never the client or the gateway.
pub const OHTTP_RELAY_HOST: &'static str = "0.0.0.0";

/// The only `Content-Type` that is relayed.
pub const EXPECTED_MEDIA_TYPE: &'static str = "message/ohttp-req";

/// The method of a relayed request.
pub const POST: &'static str = "POST";

/// A method that the key-configuration responder serves.
pub const GET: &'static str = "GET";

/// The other method that the key-configuration responder serves.
pub const CONNECT: &'static str = "CONNECT";

/// The scheme of the target when the gateway origin was given without one.
pub const DEFAULT_SCHEME: &'static str = "https";

/// The path of the target when the request names none.
pub const DEFAULT_PATH: &'static str = "/";

/// What a client is told when no target URI can be made of its request.
pub const INVALID_TARGET: &'static str = "Invalid target uri";

/// The name of the `Host` field.
pub const HOST: &'static str = "host";

/// The name of the `Content-Type` field.
pub const CONTENT_TYPE: &'static str = "content-type";

/// The name of the `Content-Length` field.
pub const CONTENT_LENGTH: &'static str = "content-length";

/// A request as a client sent it, without its body.
#[derive(Debug)]
pub struct InboundRequest {
    pub method: String,
    pub uri: UriParts,
    pub headers: http::HeaderMap<http::HeaderValue>,
}

/// A request as the gateway is to receive it, without its body.
#[derive(Debug)]
pub struct OutboundRequest {
    pub method: String,
    pub uri: UriParts,
    pub headers: http::HeaderMap<http::HeaderValue>,
}

/// What a request says, apart from its body: the method, the parts of its
/// URI and the header fields.  Inbound and outbound requests share it.
pub struct RequestView {
    pub method: Seq<char>,
    pub uri: UriPartsView,
    pub fields: Fields,
}

impl View for InboundRequest {
    type V = RequestView;

    open spec fn view(&self) -> RequestView {
        RequestView {
            method: self.method@,
            uri: self.uri@,
            fields: header_fields(self.headers),
        }
    }
}

impl View for OutboundRequest {
    type V = RequestView;

    open spec fn view(&self) -> RequestView {
        RequestView {
            method: self.method@,
            uri: self.uri@,
            fields: header_fields(self.headers),
        }
    }
}

/// The header fields of a forwarded request: `Host`, which names the relay,
/// and `Content-Length` with the first value that the client gave, if it
/// gave one.  Nothing else of the client's fields is kept.
pub open spec fn forwarded_fields(inbound: Fields) -> Fields {
    let host = no_fields().insert(HOST@, seq![ascii_bytes(OHTTP_RELAY_HOST@)]);
    match first_value(inbound, CONTENT_LENGTH@) {
        Some(length) => host.insert(CONTENT_LENGTH@, seq![length]),
        None => host,
    }
}

/// Whether the first `Content-Type` is the expected media type, byte for
/// byte.
pub open spec fn has_expected_media_type(inbound: Fields) -> bool {
    first_value(inbound, CONTENT_TYPE@) == Some(ascii_bytes(EXPECTED_MEDIA_TYPE@))
}

/// The scheme of the target: that of the gateway origin, or `https`.
pub open spec fn target_scheme(origin: GatewayUriView) -> Seq<char> {
    match origin.scheme {
        Some(scheme) => scheme,
        None => DEFAULT_SCHEME@,
    }
}

/// The path and query asked of the gateway: those of the request, or `/`.
pub open spec fn target_path_and_query(uri: UriPartsView) -> Seq<char> {
    match uri.path_and_query {
        Some(path_and_query) => path_and_query,
        None => DEFAULT_PATH@,
    }
}

/// Whether a target URI can be made of the gateway origin and the request.
pub open spec fn target_accepted(req: RequestView, origin: GatewayUriView) -> bool {
    uri_accepts(target_scheme(origin), origin.authority, target_path_and_query(req.uri))
}

/// The request that is forwarded for an accepted one.
pub open spec fn forwarded(req: RequestView, origin: GatewayUriView) -> RequestView {
    RequestView {
        method: req.method,
        uri: built_parts(target_scheme(origin), origin.authority, target_path_and_query(req.uri)),
        fields: forwarded_fields(req.fields),
    }
}

/// What becomes of a request on the relay path: the request to forward, or
/// the first reason, in this order, why there is none.
pub open spec fn forward_outcome(req: RequestView, origin: GatewayUriView) -> Result<
    RequestView,
    RelayErrorView,
> {
    if req.method != POST@ {
        Err(RelayErrorView::MethodNotAllowed)
    } else if !has_expected_media_type(req.fields) {
        Err(RelayErrorView::UnsupportedMediaType)
    } else if !target_accepted(req, origin) {
        Err(RelayErrorView::BadRequest(INVALID_TARGET@))
    } else {
        Ok(forwarded(req, origin))
    }
}

/// The view of an outcome.
pub open spec fn outcome_view(res: Result<OutboundRequest, RelayError>) -> Result<
    RequestView,
    RelayErrorView,
> {
    match res {
        Ok(out) => Ok(out@),
        Err(e) => Err(e@),
    }
}

/// The texts that name header fields, and the fixed host value, are what a
/// header map accepts.
pub proof fn lemma_fixed_texts()
    ensures
        is_field_name(HOST@),
        is_field_name(CONTENT_TYPE@),
        is_field_name(CONTENT_LENGTH@),
        is_visible_text(OHTTP_RELAY_HOST@),
        HOST@ != CONTENT_LENGTH@,
{
    reveal_strlit("host");
    reveal_strlit("content-type");
    reveal_strlit("content-length");
    reveal_strlit("0.0.0.0");
    assert(HOST@.len() == 4);
    assert(CONTENT_LENGTH@.len() == 14);
}

/// Whether two byte strings are the same.
fn same_bytes(a: &[u8], b: &[u8]) -> (same: bool)
    ensures
        same == (a@ == b@),
{
    if a.len() != b.len() {
        return false;
    }
    let mut i: usize = 0;
    while i < a.len()
        invariant
            a.len() == b.len(),
            i <= a.len(),
            a@.take(i as int) == b@.take(i as int),
        decreases a.len() - i,
    {
        if a[i] != b[i] {
            return false;
        }
        assert(a@.take(i + 1) == a@.take(i as int).push(a@[i as int]));
        assert(b@.take(i + 1) == b@.take(i as int).push(b@[i as int]));
        i += 1;
    }
    assert(a@.take(a.len() as int) == a@);
    assert(b@.take(b.len() as int) == b@);
    true
}

/// Whether a header value, if there is one, is the expected media type.
fn is_expected_media_type(content_type: &Option<http::HeaderValue>) -> (expected: bool)
    ensures
        expected == match *content_type {
            Some(value) => value_bytes(value) == ascii_bytes(
                EXPECTED_MEDIA_TYPE@,
            ),
            None => false,
        },
{
    match content_type {
        Some(value) => {
            proof {
                reveal_strlit("message/ohttp-req");
                vstd::string::is_ascii_spec_bytes(EXPECTED_MEDIA_TYPE);
            }
            same_bytes(value_as_bytes(value), EXPECTED_MEDIA_TYPE.as_bytes())
        },
        None => false,
    }
}

/// Finishes the rewrite once `http` has said whether a target URI can be
/// built: the request to forward where it could, and a bad request where it
/// could not.
pub fn rewrite_target(
    method: String,
    headers: http::HeaderMap<http::HeaderValue>,
    built: Result<UriParts, http::Error>,
) -> (res: Result<OutboundRequest, RelayError>)
    ensures
        outcome_view(res) == match built {
            Ok(uri) => Ok(RequestView { method: method@, uri: uri@, fields: header_fields(headers) }),
            Err(_) => Err(RelayErrorView::BadRequest(INVALID_TARGET@)),
        },
{
    match built {
        Ok(uri) => Ok(OutboundRequest { method, uri, headers }),
        Err(_) => Err(RelayError::BadRequest(String::from_str(INVALID_TARGET))),
    }
}

/// Turns a request from a client into the request to forward to the
/// gateway.
///
/// The method must be `POST` and the first `Content-Type` must be the
/// encapsulated-request media type.  Every header field of the client is
/// dropped; the forwarded request carries `Host`, naming the relay, and the
/// client's first `Content-Length` where it sent one.  The target is the
/// gateway origin with the path and query of the request, or `/`.
pub fn into_forward_req(req: InboundRequest, gateway_origin: &GatewayUri) -> (res: Result<
    OutboundRequest,
    RelayError,
>)
    ensures
        outcome_view(res) == forward_outcome(req@, gateway_origin@),
{
    let InboundRequest { method, uri, mut headers } = req;
    if !same_text(method.as_str(), POST) {
        return Err(RelayError::MethodNotAllowed);
    }
    proof {
        lemma_fixed_texts();
    }
    let content_type = get(&headers, CONTENT_TYPE);
    let content_length = get(&headers, CONTENT_LENGTH);
    clear(&mut headers);
    insert(&mut headers, HOST, value_from_static(OHTTP_RELAY_HOST));
    if !is_expected_media_type(&content_type) {
        return Err(RelayError::UnsupportedMediaType);
    }
    if let Some(length) = content_length {
        insert(&mut headers, CONTENT_LENGTH, length);
    }
    let path_and_query = match &uri.path_and_query {
        Some(path_and_query) => path_and_query.as_str(),
        None => DEFAULT_PATH,
    };
    let scheme = match gateway_origin.scheme_str() {
        Some(scheme) => scheme,
        None => DEFAULT_SCHEME,
    };
    let built = build(scheme, gateway_origin.authority(), path_and_query);
    rewrite_target(method, headers, built)
}

/// What the relay does next with a request.
#[derive(Debug)]
pub enum Step {
    /// Send this request to the gateway and pass its response on.
    Forward(OutboundRequest),
    /// Hand the request, untouched, to the key-configuration responder.
    Bootstrap(InboundRequest),
    /// Answer the client with this response; nothing is sent anywhere.
    Respond(Reply),
}

/// `Step` over the views of what it carries.
pub enum StepView {
    Forward(RequestView),
    Bootstrap(RequestView),
    Respond(ReplyView),
}

impl View for Step {
    type V = StepView;

    open spec fn view(&self) -> StepView {
        match *self {
            Step::Forward(out) => StepView::Forward(out@),
            Step::Bootstrap(req) => StepView::Bootstrap(req@),
            Step::Respond(reply) => StepView::Respond(reply@),
        }
    }
}

/// The step for a request on the relay path: forward what the rewrite
/// gives, or answer with the response of the failure.
pub open spec fn relay_step(req: RequestView, origin: GatewayUriView) -> StepView {
    match forward_outcome(req, origin) {
        Ok(out) => StepView::Forward(out),
        Err(e) => StepView::Respond(e.response()),
    }
}

/// Whether the key-configuration responder serves the method.
pub open spec fn is_bootstrap_method(method: Seq<char>) -> bool {
    method == GET@ || method == CONNECT@
}

/// The step for any request.  `POST` goes down the relay path.  `GET` and
/// `CONNECT` go to the key-configuration responder where the relay has one,
/// and are not found where it has none.  Every other method goes down the
/// relay path too, where it is not allowed.
pub open spec fn serve_step(req: RequestView, origin: GatewayUriView, bootstrap: bool) -> StepView {
    if req.method == POST@ {
        relay_step(req, origin)
    } else if is_bootstrap_method(req.method) {
        if bootstrap {
            StepView::Bootstrap(req)
        } else {
            StepView::Respond(RelayErrorView::NotFound.response())
        }
    } else {
        relay_step(req, origin)
    }
}

/// Decides what to do with a request on the relay path.
pub fn handle_ohttp_relay(req: InboundRequest, gateway_origin: &GatewayUri) -> (step: Step)
    ensures
        step@ == relay_step(req@, gateway_origin@),
{
    match into_forward_req(req, gateway_origin) {
        Ok(out) => Step::Forward(out),
        Err(e) => Step::Respond(e.to_response()),
    }
}

/// Decides what to do with a request, whatever its method.  `bootstrap`
/// says whether the relay has a key-configuration responder.
pub fn serve_ohttp_relay(req: InboundRequest, gateway_origin: &GatewayUri, bootstrap: bool) -> (step:
    Step)
    ensures
        step@ == serve_step(req@, gateway_origin@, bootstrap),
{
    let method = req.method.as_str();
    if same_text(method, POST) {
        handle_ohttp_relay(req, gateway_origin)
    } else if same_text(method, GET) || same_text(method, CONNECT) {
        if bootstrap {
            Step::Bootstrap(req)
        } else {
            Step::Respond(RelayError::NotFound.to_response())
        }
    } else {
        handle_ohttp_relay(req, gateway_origin)
    }
}

/// What the client gets once the gateway was asked: the gateway's response
/// as it came, or a bad gateway, whatever went wrong on the way.
pub open spec fn forward_result<R, E>(outcome: Result<R, E>) -> Result<R, RelayErrorView> {
    match outcome {
        Ok(response) => Ok(response),
        Err(_) => Err(RelayErrorView::BadGateway),
    }
}

/// Settles a forwarded request: the gateway's response is passed on
/// unchanged, and every failure to get one is a bad gateway.
pub fn forward_request<R, E>(outcome: Result<R, E>) -> (res: Result<R, RelayError>)
    ensures
        match res {
            Ok(response) => forward_result(outcome) == Ok::<R, RelayErrorView>(response),
            Err(e) => forward_result(outcome) == Err::<R, RelayErrorView>(e@),
        },
{
    match outcome {
        Ok(response) => Ok(response),
        Err(_) => Err(RelayError::BadGateway),
    }
}

/// On the relay path a method other than `POST` is answered with 405, and
/// nothing is forwarded.
pub proof fn lemma_other_methods_are_not_allowed(req: RequestView, origin: GatewayUriView)
    requires
        req.method != POST@,
    ensures
        relay_step(req, origin) == StepView::Respond(
            ReplyView { status: 405, body: Seq::empty() },
        ),
        !(relay_step(req, origin) is Forward),
{
}

/// A `POST` whose first `Content-Type` is absent, or is anything but the
/// expected media type, is answered with 415, and nothing is forwarded.
pub proof fn lemma_other_media_types_are_unsupported(req: RequestView, origin: GatewayUriView)
    requires
        req.method == POST@,
        first_value(req.fields, CONTENT_TYPE@) != Some(ascii_bytes(EXPECTED_MEDIA_TYPE@)),
    ensures
        relay_step(req, origin) == StepView::Respond(
            ReplyView { status: 415, body: Seq::empty() },
        ),
        !(relay_step(req, origin) is Forward),
{
}

/// Whatever fields a client sends, a forwarded request carries `Host` with
/// the relay's fixed value, `Content-Length` with the client's first value
/// exactly where the client sent one, and no other field.
pub proof fn lemma_only_allowed_fields_are_forwarded(inbound: Fields)
    ensures
        forwarded_fields(inbound).dom().finite(),
        forall|name: Seq<char>| #[trigger]
            forwarded_fields(inbound).contains_key(name) ==> name == HOST@ || name
                == CONTENT_LENGTH@,
        forwarded_fields(inbound).contains_key(HOST@),
        forwarded_fields(inbound)[HOST@] == seq![ascii_bytes(OHTTP_RELAY_HOST@)],
        forwarded_fields(inbound).contains_key(CONTENT_LENGTH@) <==> inbound.contains_key(
            CONTENT_LENGTH@,
        ),
        inbound.contains_key(CONTENT_LENGTH@) ==> forwarded_fields(inbound)[CONTENT_LENGTH@]
            == seq![inbound[CONTENT_LENGTH@][0]],
{
    lemma_fixed_texts();
}

/// The fields of every forwarded request are those that
/// `forwarded_fields` allows, so no field of the client but its
/// `Content-Length` reaches the gateway.
pub proof fn lemma_forwarded_request_is_sanitized(
    req: RequestView,
    origin: GatewayUriView,
    out: RequestView,
    name: Seq<char>,
)
    requires
        forward_outcome(req, origin) == Ok::<RequestView, RelayErrorView>(out),
        name != HOST@,
        name != CONTENT_LENGTH@,
    ensures
        req.method == POST@,
        has_expected_media_type(req.fields),
        out.fields == forwarded_fields(req.fields),
        !out.fields.contains_key(name),
{
    lemma_only_allowed_fields_are_forwarded(req.fields);
}

/// The target of a forwarded request is at the gateway origin, and asks for
/// the path and query of the client's request without a fragment, or for
/// `/` where the client's request names none.
pub proof fn lemma_target_of_forwarded_request(
    req: RequestView,
    origin: GatewayUriView,
    out: RequestView,
)
    requires
        forward_outcome(req, origin) == Ok::<RequestView, RelayErrorView>(out),
    ensures
        out.uri.authority == Some(origin.authority),
        out.uri.scheme == Some(target_scheme(origin)),
        out.uri.path_and_query == Some(
            shown_path_and_query(target_path_and_query(req.uri)),
        ),
        req.uri.path_and_query is None ==> out.uri.path_and_query == Some(seq!['/']),
{
    reveal_strlit("/");
    if req.uri.path_and_query is None {
        let slash = DEFAULT_PATH@;
        assert(slash =~= seq!['/']);
        assert(!slash.contains('#'));
        lemma_shown_as_given(slash);
    }
}

/// The path and query of a request reach the gateway exactly as the client
/// wrote them, provided they are not empty and hold no `#`.
pub proof fn lemma_path_and_query_round_trip(
    req: RequestView,
    origin: GatewayUriView,
    out: RequestView,
)
    requires
        forward_outcome(req, origin) == Ok::<RequestView, RelayErrorView>(out),
        req.uri.path_and_query is Some,
        req.uri.path_and_query->0.len() > 0,
        !req.uri.path_and_query->0.contains('#'),
    ensures
        out.uri.path_and_query == req.uri.path_and_query,
{
    lemma_shown_as_given(req.uri.path_and_query->0);
}

/// What the inbound URI says of scheme and authority does not matter: two
/// requests that differ only there are treated alike.
pub proof fn lemma_inbound_origin_is_ignored(a: RequestView, b: RequestView, origin: GatewayUriView)
    requires
        a.method == b.method,
        a.fields == b.fields,
        a.uri.path_and_query == b.uri.path_and_query,
    ensures
        forward_outcome(a, origin) == forward_outcome(b, origin),
{
}

/// Every failure to get a response from the gateway is answered with 502,
/// and with nothing else.
pub proof fn lemma_upstream_failure_is_bad_gateway<R, E>(failure: E)
    ensures
        forward_result(Err::<R, E>(failure)) == Err::<R, RelayErrorView>(
            RelayErrorView::BadGateway,
        ),
        RelayErrorView::BadGateway.response() == (ReplyView { status: 502, body: Seq::empty() }),
{
}

/// A response that the gateway gave is passed on as it is.
pub proof fn lemma_upstream_response_is_passed_on<R, E>(response: R)
    ensures
        forward_result(Ok::<R, E>(response)) == Ok::<R, RelayErrorView>(response),
{
}

/// `GET` and `CONNECT` are the business of the key-configuration responder:
/// a relay that has one hands the request over untouched, and a relay that
/// has none answers with 404.  Either way nothing is forwarded.
pub proof fn lemma_bootstrap_methods_are_handed_over_or_not_found(
    req: RequestView,
    origin: GatewayUriView,
)
    requires
        is_bootstrap_method(req.method),
    ensures
        req.method != POST@,
        serve_step(req, origin, true) == StepView::Bootstrap(req),
        serve_step(req, origin, false) == StepView::Respond(
            ReplyView { status: 404, body: Seq::empty() },
        ),
{
    reveal_strlit("POST");
    reveal_strlit("GET");
    reveal_strlit("CONNECT");
    assert(POST@.len() == 4);
    assert(GET@.len() == 3);
    assert(CONNECT@.len() == 7);
}

/// Every method other than `POST`, `GET` and `CONNECT` is answered with
/// 405, whether or not the relay has a key-configuration responder, and
/// nothing is forwarded.
pub proof fn lemma_unserved_methods_are_not_allowed(
    req: RequestView,
    origin: GatewayUriView,
    bootstrap: bool,
)
    requires
        req.method != POST@,
        !is_bootstrap_method(req.method),
    ensures
        serve_step(req, origin, bootstrap) == StepView::Respond(
            ReplyView { status: 405, body: Seq::empty() },
        ),
{
}

/// A `POST` goes down the relay path whether or not the relay has a
/// key-configuration responder.
pub proof fn lemma_post_takes_the_relay_path(
    req: RequestView,
    origin: GatewayUriView,
    bootstrap: bool,
)
    requires
        req.method == POST@,
    ensures
        serve_step(req, origin, bootstrap) == relay_step(req, origin),
        !(serve_step(req, origin, bootstrap) is Bootstrap),
{
}

} // verus!
