//! The disambiguator: which of several matching interactions answers.

use vstd::prelude::*;
use crate::headers::{find_header, header_value};
use crate::model::{text_view, HttpRequest, Interaction, InteractionView, RequestView};

verus! {

/// How the disambiguator settled on an answer.
#[derive(Clone, Copy, Debug, PartialEq, Eq)]
pub enum Selection {
    /// There is no candidate.
    NoMatch,
    /// The one candidate there is.
    Only,
    /// The one candidate, at this position among the candidates, whose
    /// provider state the request's disambiguation header names.
    ByHeader(usize),
    /// The earliest-loaded of several candidates: the header did not settle
    /// it.
    FirstLoaded,
}

/// The view of a `Selection`: the same, with a mathematical position.
pub enum Choice {
    NoMatch,
    Only,
    ByHeader(int),
    FirstLoaded,
}

impl Choice {
    /// The position, among the candidates, of the one selected.
    pub open spec fn position(self) -> Option<int> {
        match self {
            Choice::NoMatch => None,
            Choice::Only => Some(0),
            Choice::ByHeader(k) => Some(k),
            Choice::FirstLoaded => Some(0),
        }
    }

    /// Whether several candidates were left and the first was taken.
    pub open spec fn is_ambiguous(self) -> bool {
        self is FirstLoaded
    }
}

impl View for Selection {
    type V = Choice;

    open spec fn view(&self) -> Choice {
        match self {
            Selection::NoMatch => Choice::NoMatch,
            Selection::Only => Choice::Only,
            Selection::ByHeader(k) => Choice::ByHeader(*k as int),
            Selection::FirstLoaded => Choice::FirstLoaded,
        }
    }
}

impl Selection {
    /// The position, among the candidates, of the one selected.
    pub fn position(&self) -> (r: Option<usize>)
        ensures
            match r {
                Some(k) => self@.position() == Some(k as int),
                None => self@.position() is None,
            },
    {
        match self {
            Selection::NoMatch => None,
            Selection::Only => Some(0),
            Selection::ByHeader(k) => Some(*k),
            Selection::FirstLoaded => Some(0),
        }
    }

    /// Whether several candidates were left and the first was taken.
    pub fn is_ambiguous(&self) -> (r: bool)
        ensures
            r == self@.is_ambiguous(),
    {
        match self {
            Selection::FirstLoaded => true,
            _ => false,
        }
    }
}

/// The views of a list of candidates, in order.
pub open spec fn candidate_views(list: Seq<&Interaction>) -> Seq<InteractionView> {
    list.map_values(|i: &Interaction| i@)
}

/// Whether `candidate` is recorded under the provider state `state`.
pub open spec fn has_state(candidate: InteractionView, state: Seq<char>) -> bool {
    candidate.provider_state == Some(state)
}

/// Whether the candidate at `k` is recorded under `state` and no other
/// candidate is.
pub open spec fn only_one_with_state(
    candidates: Seq<InteractionView>,
    state: Seq<char>,
    k: int,
) -> bool {
    &&& 0 <= k < candidates.len()
    &&& has_state(candidates[k], state)
    &&& forall|j: int|
        0 <= j < candidates.len() && j != k ==> !has_state(#[trigger] candidates[j], state)
}

/// The position of the one candidate recorded under `state`, where there is
/// exactly one.
pub open spec fn single_with_state(candidates: Seq<InteractionView>, state: Seq<char>) -> Option<
    int,
> {
    if exists|k: int| only_one_with_state(candidates, state, k) {
        Some(choose|k: int| only_one_with_state(candidates, state, k))
    } else {
        None
    }
}

/// The disambiguator's rule.
///
/// No candidate: no match. One: that one. Several: the one whose provider
/// state equals the value of the request's header named `header_name`,
/// where such a header is configured and present and exactly one candidate
/// has that state; else the first.
pub open spec fn spec_select(
    candidates: Seq<InteractionView>,
    request: RequestView,
    header_name: Option<Seq<char>>,
) -> Choice {
    if candidates.len() == 0 {
        Choice::NoMatch
    } else if candidates.len() == 1 {
        Choice::Only
    } else {
        match header_name {
            None => Choice::FirstLoaded,
            Some(name) => match header_value(request.headers, name) {
                None => Choice::FirstLoaded,
                Some(value) => match single_with_state(candidates, value) {
                    Some(k) => Choice::ByHeader(k),
                    None => Choice::FirstLoaded,
                },
            },
        }
    }
}

/// Two positions that each hold the only candidate with `state` are one
/// position.
pub proof fn lemma_only_one_is_unique(
    candidates: Seq<InteractionView>,
    state: Seq<char>,
    k: int,
    j: int,
)
    requires
        only_one_with_state(candidates, state, k),
        only_one_with_state(candidates, state, j),
    ensures
        k == j,
{
}

/// The position of the one candidate recorded under `state`, where there is
/// exactly one.
pub fn find_single(candidates: &Vec<&Interaction>, state: &String) -> (r: Option<usize>)
    ensures
        match r {
            Some(k) => single_with_state(candidate_views(candidates@), state@) == Some(k as int)
                && k < candidates.len(),
            None => single_with_state(candidate_views(candidates@), state@) is None,
        },
{
    let ghost views = candidate_views(candidates@);
    let mut found: Option<usize> = None;
    let mut i: usize = 0;
    while i < candidates.len()
        invariant
            i <= candidates.len(),
            views == candidate_views(candidates@),
            match found {
                Some(k) => k < i && has_state(views[k as int], state@) && forall|j: int|
                    0 <= j < i && j != k ==> !has_state(#[trigger] views[j], state@),
                None => forall|j: int| 0 <= j < i ==> !has_state(#[trigger] views[j], state@),
            },
        decreases candidates.len() - i,
    {
        let same = match &candidates[i].provider_state {
            Some(s) => *s == *state,
            None => false,
        };
        assert(same == has_state(views[i as int], state@));
        if same {
            if found.is_some() {
                proof {
                    let first = found->0 as int;
                    assert forall|k: int| !only_one_with_state(views, state@, k) by {
                        if only_one_with_state(views, state@, k) {
                            if k == first {
                                assert(!has_state(views[i as int], state@));
                            } else {
                                assert(!has_state(views[first], state@));
                            }
                        }
                    }
                }
                return None;
            }
            found = Some(i);
        }
        i += 1;
    }
    proof {
        match found {
            Some(k) => {
                assert(only_one_with_state(views, state@, k as int));
                let c = choose|c: int| only_one_with_state(views, state@, c);
                lemma_only_one_is_unique(views, state@, k as int, c);
            },
            None => {
                assert forall|k: int| !only_one_with_state(views, state@, k) by {
                    if 0 <= k < views.len() {
                        assert(!has_state(views[k], state@));
                    }
                }
            },
        }
    }
    found
}

/// Selects among `candidates`, which are in load order, for `request`.
pub fn select(
    candidates: &Vec<&Interaction>,
    request: &HttpRequest,
    header_name: &Option<String>,
) -> (r: Selection)
    ensures
        r@ == spec_select(candidate_views(candidates@), request@, text_view(*header_name)),
        r@.position() matches Some(k) ==> 0 <= k < candidates.len(),
{
    if candidates.len() == 0 {
        return Selection::NoMatch;
    }
    if candidates.len() == 1 {
        return Selection::Only;
    }
    match header_name {
        None => Selection::FirstLoaded,
        Some(name) => match find_header(&request.headers, name.as_str()) {
            None => Selection::FirstLoaded,
            Some(h) => match find_single(candidates, &request.headers[h].value) {
                Some(k) => Selection::ByHeader(k),
                None => Selection::FirstLoaded,
            },
        },
    }
}

} // verus!
