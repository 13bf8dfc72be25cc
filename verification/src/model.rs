//! The data the engine works on: requests, responses, recorded interactions
//! and what the request matcher reports, each with its mathematical view.

use vstd::prelude::*;

verus! {

/// A name with its value: an HTTP header or a query parameter.
#[derive(Debug, PartialEq, Eq)]
pub struct Pair {
    pub name: String,
    pub value: String,
}

/// The view of a `Pair`.
pub struct PairView {
    pub name: Seq<char>,
    pub value: Seq<char>,
}

impl View for Pair {
    type V = PairView;

    open spec fn view(&self) -> PairView {
        PairView { name: self.name@, value: self.value@ }
    }
}

/// The views of a list of pairs, in order.
pub open spec fn pair_views(pairs: Seq<Pair>) -> Seq<PairView> {
    pairs.map_values(|p: Pair| p@)
}

impl Clone for Pair {
    fn clone(&self) -> (r: Self)
        ensures
            r@ == self@,
    {
        Pair { name: self.name.clone(), value: self.value.clone() }
    }
}

impl Pair {
    /// A pair of the given name and value.
    pub fn new(name: &str, value: &str) -> (r: Pair)
        ensures
            r@ == (PairView { name: name@, value: value@ }),
    {
        Pair { name: name.to_owned(), value: value.to_owned() }
    }
}

/// A copy of a list of pairs.
pub fn clone_pairs(pairs: &Vec<Pair>) -> (r: Vec<Pair>)
    ensures
        pair_views(r@) == pair_views(pairs@),
{
    let mut out: Vec<Pair> = Vec::new();
    let mut i: usize = 0;
    while i < pairs.len()
        invariant
            i <= pairs.len(),
            out.len() == i,
            forall|k: int| 0 <= k < i ==> out@[k]@ == pairs@[k]@,
        decreases pairs.len() - i,
    {
        out.push(pairs[i].clone());
        i += 1;
    }
    assert(pair_views(out@) =~= pair_views(pairs@));
    out
}

/// A copy of a list of bytes.
pub fn clone_bytes(bytes: &Vec<u8>) -> (r: Vec<u8>)
    ensures
        r@ == bytes@,
{
    let mut out: Vec<u8> = Vec::new();
    let mut i: usize = 0;
    while i < bytes.len()
        invariant
            i <= bytes.len(),
            out@ == bytes@.subrange(0, i as int),
        decreases bytes.len() - i,
    {
        out.push(bytes[i]);
        assert(bytes@.subrange(0, i as int).push(bytes@[i as int]) == bytes@.subrange(0, i + 1));
        i += 1;
    }
    assert(bytes@.subrange(0, bytes.len() as int) == bytes@);
    out
}

/// An HTTP request: the one that came in, or the one an interaction expects.
#[derive(Debug, PartialEq, Eq)]
pub struct HttpRequest {
    pub method: String,
    pub path: String,
    pub query: Vec<Pair>,
    pub headers: Vec<Pair>,
    pub body: Vec<u8>,
}

/// The view of an `HttpRequest`.
pub struct RequestView {
    pub method: Seq<char>,
    pub path: Seq<char>,
    pub query: Seq<PairView>,
    pub headers: Seq<PairView>,
    pub body: Seq<u8>,
}

impl View for HttpRequest {
    type V = RequestView;

    open spec fn view(&self) -> RequestView {
        RequestView {
            method: self.method@,
            path: self.path@,
            query: pair_views(self.query@),
            headers: pair_views(self.headers@),
            body: self.body@,
        }
    }
}

impl Clone for HttpRequest {
    fn clone(&self) -> (r: Self)
        ensures
            r@ == self@,
    {
        HttpRequest {
            method: self.method.clone(),
            path: self.path.clone(),
            query: clone_pairs(&self.query),
            headers: clone_pairs(&self.headers),
            body: clone_bytes(&self.body),
        }
    }
}

/// An HTTP response: status, headers and a body, which may be empty but is
/// always there.
#[derive(Debug, PartialEq, Eq)]
pub struct HttpResponse {
    pub status: u16,
    pub headers: Vec<Pair>,
    pub body: Vec<u8>,
}

/// The view of an `HttpResponse`.
pub struct ResponseView {
    pub status: u16,
    pub headers: Seq<PairView>,
    pub body: Seq<u8>,
}

impl View for HttpResponse {
    type V = ResponseView;

    open spec fn view(&self) -> ResponseView {
        ResponseView {
            status: self.status,
            headers: pair_views(self.headers@),
            body: self.body@,
        }
    }
}

impl Clone for HttpResponse {
    fn clone(&self) -> (r: Self)
        ensures
            r@ == self@,
    {
        HttpResponse {
            status: self.status,
            headers: clone_pairs(&self.headers),
            body: clone_bytes(&self.body),
        }
    }
}

/// One recorded exchange: the request it expects, the response to replay,
/// the provider state it is valid under, if any, and a label that names it
/// in diagnostics.
#[derive(Debug, PartialEq, Eq)]
pub struct Interaction {
    pub label: String,
    pub provider_state: Option<String>,
    pub request: HttpRequest,
    pub response: HttpResponse,
}

/// The view of an `Interaction`.
pub struct InteractionView {
    pub label: Seq<char>,
    pub provider_state: Option<Seq<char>>,
    pub request: RequestView,
    pub response: ResponseView,
}

/// The view of an optional text.
pub open spec fn text_view(t: Option<String>) -> Option<Seq<char>> {
    match t {
        Some(s) => Some(s@),
        None => None,
    }
}

/// A copy of an optional text.
pub fn clone_text(text: &Option<String>) -> (r: Option<String>)
    ensures
        text_view(r) == text_view(*text),
{
    match text {
        Some(s) => Some(s.clone()),
        None => None,
    }
}

impl View for Interaction {
    type V = InteractionView;

    open spec fn view(&self) -> InteractionView {
        InteractionView {
            label: self.label@,
            provider_state: text_view(self.provider_state),
            request: self.request@,
            response: self.response@,
        }
    }
}

/// The views of a list of interactions, in load order.
pub open spec fn interaction_views(list: Seq<Interaction>) -> Seq<InteractionView> {
    list.map_values(|i: Interaction| i@)
}

impl Clone for Interaction {
    fn clone(&self) -> (r: Self)
        ensures
            r@ == self@,
    {
        let provider_state = match &self.provider_state {
            Some(s) => Some(s.clone()),
            None => None,
        };
        Interaction {
            label: self.label.clone(),
            provider_state,
            request: self.request.clone(),
            response: self.response.clone(),
        }
    }
}

/// What the request matcher reports of one interaction: whether the request
/// matches what the interaction expects and, where it does not, why.
#[derive(Debug, PartialEq, Eq)]
pub struct MatchOutcome {
    pub matched: bool,
    pub mismatches: Vec<String>,
}

/// The view of a `MatchOutcome`.
pub struct OutcomeView {
    pub matched: bool,
    pub mismatches: Seq<Seq<char>>,
}

/// The views of a list of texts, in order.
pub open spec fn text_views(list: Seq<String>) -> Seq<Seq<char>> {
    list.map_values(|s: String| s@)
}

impl View for MatchOutcome {
    type V = OutcomeView;

    open spec fn view(&self) -> OutcomeView {
        OutcomeView { matched: self.matched, mismatches: text_views(self.mismatches@) }
    }
}

/// The report that stands for an interaction the matcher was not asked
/// about.
pub open spec fn not_tried() -> OutcomeView {
    OutcomeView { matched: false, mismatches: Seq::empty() }
}

impl MatchOutcome {
    /// The report that stands for an interaction the matcher was not asked
    /// about.
    pub fn skipped() -> (r: MatchOutcome)
        ensures
            r@ == not_tried(),
    {
        let r = MatchOutcome { matched: false, mismatches: Vec::new() };
        assert(r@.mismatches =~= Seq::empty());
        r
    }
}

/// The views of a list of outcomes, in order.
pub open spec fn outcome_views(list: Seq<MatchOutcome>) -> Seq<OutcomeView> {
    list.map_values(|o: MatchOutcome| o@)
}

} // verus!
