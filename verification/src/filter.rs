//! The provider-state filter: which interactions may answer at all.

use vstd::prelude::*;
use crate::model::{interaction_views, text_view, Interaction, InteractionView};
use crate::wrappers::{regex_compile_error, regex_is_match, regex_search};

verus! {

/// What narrows the interactions by provider state: an optional regular
/// expression, and whether interactions without a state stay in while a
/// pattern is set.
#[derive(Debug, PartialEq, Eq)]
pub struct FilterSpec {
    pub pattern: Option<String>,
    pub include_stateless: bool,
}

/// The view of a `FilterSpec`.
pub struct FilterView {
    pub pattern: Option<Seq<char>>,
    pub include_stateless: bool,
}

impl View for FilterSpec {
    type V = FilterView;

    open spec fn view(&self) -> FilterView {
        FilterView {
            pattern: text_view(self.pattern),
            include_stateless: self.include_stateless,
        }
    }
}

/// Whether `pattern` compiles and matches somewhere in `text`.
pub open spec fn pattern_matches(pattern: Seq<char>, text: Seq<char>) -> bool {
    regex_compile_error(pattern) is None && regex_is_match(pattern, text)
}

/// Whether an interaction with provider state `state` passes `filter`.
///
/// Without a pattern everything passes. With one, an interaction that has a
/// state passes where the pattern matches it, and one that has none passes
/// where state-less interactions are included. A pattern that does not
/// compile matches nothing.
pub open spec fn filter_applies(filter: FilterView, state: Option<Seq<char>>) -> bool {
    match filter.pattern {
        None => true,
        Some(p) => match state {
            Some(s) => pattern_matches(p, s),
            None => filter.include_stateless,
        },
    }
}

/// Whether `interaction` passes the filter `spec`.
pub fn applies(interaction: &Interaction, spec: &FilterSpec) -> (r: bool)
    ensures
        r == filter_applies(spec@, interaction@.provider_state),
{
    match &spec.pattern {
        None => true,
        Some(p) => match &interaction.provider_state {
            Some(s) => match regex_search(p.as_str(), s.as_str()) {
                Ok(found) => found,
                Err(_) => false,
            },
            None => spec.include_stateless,
        },
    }
}

/// For each of `interactions`, in order, whether it passes `filter`.
pub open spec fn filter_flags(filter: FilterView, interactions: Seq<InteractionView>) -> Seq<
    bool,
> {
    Seq::new(interactions.len(), |i: int| filter_applies(filter, interactions[i].provider_state))
}

/// For each of `interactions`, in order, whether it passes the filter
/// `spec`.
pub fn flags_for(interactions: &Vec<Interaction>, spec: &FilterSpec) -> (r: Vec<bool>)
    ensures
        r@ == filter_flags(spec@, interaction_views(interactions@)),
{
    let mut flags: Vec<bool> = Vec::new();
    let mut i: usize = 0;
    while i < interactions.len()
        invariant
            i <= interactions.len(),
            flags.len() == i,
            forall|k: int|
                0 <= k < i ==> flags@[k] == filter_applies(
                    spec@,
                    (#[trigger] interactions@[k])@.provider_state,
                ),
        decreases interactions.len() - i,
    {
        flags.push(applies(&interactions[i], spec));
        i += 1;
    }
    assert(flags@ =~= filter_flags(spec@, interaction_views(interactions@)));
    flags
}

} // verus!
