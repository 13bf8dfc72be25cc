//! The response builder: the recorded response of the selected interaction,
//! or the answer to a CORS preflight, under the server's CORS policy.

use vstd::prelude::*;
use crate::headers::{find_header, has_header, header_value};
use crate::model::{
    clone_bytes, clone_pairs, pair_views, HttpRequest, HttpResponse, Interaction,
    InteractionView, Pair, PairView, RequestView, ResponseView,
};
use crate::text::{eq_ignoring_case, same_ignoring_case};

verus! {

/// The method of a CORS preflight request.
pub const PREFLIGHT_METHOD: &'static str = "OPTIONS";

/// The header that names the origin a response may be shared with.
pub const ALLOW_ORIGIN: &'static str = "Access-Control-Allow-Origin";

/// The header that names the methods a preflight allows.
pub const ALLOW_METHODS: &'static str = "Access-Control-Allow-Methods";

/// The header that names the request headers a preflight allows.
pub const ALLOW_HEADERS: &'static str = "Access-Control-Allow-Headers";

/// The request header whose value is given as the origin where the server
/// is set to answer with the referer.
pub const REFERER: &'static str = "Referer";

/// The origin, and the allowed headers, that stand for "any".
pub const ANY: &'static str = "*";

/// The methods that a synthesized preflight answer allows.
pub const ALL_METHODS: &'static str = "GET, HEAD, POST, PUT, DELETE, CONNECT, OPTIONS, TRACE, PATCH";

/// Whether `method` is the preflight method, in any case of its letters.
pub open spec fn is_preflight(method: Seq<char>) -> bool {
    same_ignoring_case(method, PREFLIGHT_METHOD@)
}

/// The origin to allow: the value of the request's `Referer` header where
/// `cors_referer` is set and the request has one, else `*`.
pub open spec fn allow_origin(request: RequestView, cors_referer: bool) -> Seq<char> {
    if cors_referer {
        match header_value(request.headers, REFERER@) {
            Some(v) => v,
            None => ANY@,
        }
    } else {
        ANY@
    }
}

/// The synthesized answer to a preflight: status 200, the allowed origin,
/// every method and every header, and an empty body.
pub open spec fn preflight_response(origin: Seq<char>) -> ResponseView {
    ResponseView {
        status: 200,
        headers: seq![
            PairView { name: ALLOW_ORIGIN@, value: origin },
            PairView { name: ALLOW_METHODS@, value: ALL_METHODS@ },
            PairView { name: ALLOW_HEADERS@, value: ANY@ },
        ],
        body: Seq::empty(),
    }
}

/// The recorded response as it is emitted: verbatim, but that under
/// `auto_cors` the allowed origin is added after its headers where it
/// defines none itself.
pub open spec fn recorded_response(
    recorded: ResponseView,
    auto_cors: bool,
    origin: Seq<char>,
) -> ResponseView {
    if auto_cors && !has_header(recorded.headers, ALLOW_ORIGIN@) {
        ResponseView {
            status: recorded.status,
            headers: recorded.headers.push(PairView { name: ALLOW_ORIGIN@, value: origin }),
            body: recorded.body,
        }
    } else {
        recorded
    }
}

/// The response builder's rule. `None` where nothing was selected and no
/// preflight answer is due: the caller then falls back.
pub open spec fn spec_build(
    selected: Option<InteractionView>,
    request: RequestView,
    auto_cors: bool,
    cors_referer: bool,
) -> Option<ResponseView> {
    match selected {
        Some(interaction) => Some(
            recorded_response(
                interaction.response,
                auto_cors,
                allow_origin(request, cors_referer),
            ),
        ),
        None => if auto_cors && is_preflight(request.method) {
            Some(preflight_response(allow_origin(request, cors_referer)))
        } else {
            None
        },
    }
}

/// The view of the interaction that was selected, if any.
pub open spec fn selected_view(selected: Option<&Interaction>) -> Option<InteractionView> {
    match selected {
        Some(interaction) => Some(interaction@),
        None => None,
    }
}

/// The view of the response that was built, if any.
pub open spec fn response_view(response: Option<HttpResponse>) -> Option<ResponseView> {
    match response {
        Some(r) => Some(r@),
        None => None,
    }
}

/// The origin to allow in answer to `request`.
pub fn origin_for(request: &HttpRequest, cors_referer: bool) -> (r: String)
    ensures
        r@ == allow_origin(request@, cors_referer),
{
    if cors_referer {
        match find_header(&request.headers, REFERER) {
            Some(k) => request.headers[k].value.clone(),
            None => ANY.to_owned(),
        }
    } else {
        ANY.to_owned()
    }
}

/// The answer to a preflight that allows `origin`.
pub fn preflight(origin: &str) -> (r: HttpResponse)
    ensures
        r@ == preflight_response(origin@),
{
    let mut headers: Vec<Pair> = Vec::new();
    headers.push(Pair::new(ALLOW_ORIGIN, origin));
    headers.push(Pair::new(ALLOW_METHODS, ALL_METHODS));
    headers.push(Pair::new(ALLOW_HEADERS, ANY));
    assert(pair_views(headers@) =~= preflight_response(origin@).headers);
    HttpResponse { status: 200, headers, body: Vec::new() }
}

/// A fresh copy of `recorded` as it is emitted under the CORS policy.
pub fn replay(recorded: &HttpResponse, auto_cors: bool, origin: &str) -> (r: HttpResponse)
    ensures
        r@ == recorded_response(recorded@, auto_cors, origin@),
{
    let mut headers = clone_pairs(&recorded.headers);
    if auto_cors && find_header(&recorded.headers, ALLOW_ORIGIN).is_none() {
        let ghost before = headers@;
        headers.push(Pair::new(ALLOW_ORIGIN, origin));
        assert(pair_views(headers@) =~= pair_views(before).push(
            PairView { name: ALLOW_ORIGIN@, value: origin@ },
        ));
    }
    HttpResponse { status: recorded.status, headers, body: clone_bytes(&recorded.body) }
}

/// Builds the response for the interaction `selected`, if any, to
/// `request`. The stored interaction is left as it is.
pub fn build_response(
    selected: Option<&Interaction>,
    request: &HttpRequest,
    auto_cors: bool,
    cors_referer: bool,
) -> (r: Option<HttpResponse>)
    ensures
        response_view(r) == spec_build(
            selected_view(selected),
            request@,
            auto_cors,
            cors_referer,
        ),
{
    match selected {
        Some(interaction) => {
            let origin = origin_for(request, cors_referer);
            Some(replay(&interaction.response, auto_cors, origin.as_str()))
        },
        None => {
            if auto_cors && eq_ignoring_case(request.method.as_str(), PREFLIGHT_METHOD) {
                let origin = origin_for(request, cors_referer);
                Some(preflight(origin.as_str()))
            } else {
                None
            }
        },
    }
}

} // verus!
