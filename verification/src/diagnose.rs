//! Diagnostics of the fallback path: which interactions were tried and did
//! not match, why, and the text that tells the client so.

use vstd::prelude::*;
use vstd::string::*;
use crate::model::{
    interaction_views, outcome_views, text_views, HttpRequest, Interaction, InteractionView,
    MatchOutcome, OutcomeView, RequestView,
};

verus! {

/// The reason given where the matcher reported a mismatch without one.
pub const NO_REASON: &'static str = "the request does not match";

/// What the fallback text starts with.
pub const HEADLINE: &'static str = "No interaction matched the request ";

/// What stands before the label of a near miss.
pub const MISS_PREFIX: &'static str = "  ";

/// What stands before each reason.
pub const REASON_PREFIX: &'static str = "    - ";

/// What ends each line.
pub const NEWLINE: &'static str = "\n";

/// What stands between a request's method and its path.
pub const SPACE: &'static str = " ";

/// An interaction that was tried against the request and did not match,
/// with at least one reason.
#[derive(Debug, PartialEq, Eq)]
pub struct NearMiss {
    pub label: String,
    pub reasons: Vec<String>,
}

/// The view of a `NearMiss`.
pub struct NearMissView {
    pub label: Seq<char>,
    pub reasons: Seq<Seq<char>>,
}

impl View for NearMiss {
    type V = NearMissView;

    open spec fn view(&self) -> NearMissView {
        NearMissView { label: self.label@, reasons: text_views(self.reasons@) }
    }
}

/// The views of a list of near misses, in order.
pub open spec fn near_miss_views(list: Seq<NearMiss>) -> Seq<NearMissView> {
    list.map_values(|m: NearMiss| m@)
}

/// Whether the interaction at `i` was tried and did not match: it passes
/// the filter, the matcher reported on it, and the report is a mismatch.
pub open spec fn is_near_miss(passes: Seq<bool>, outcomes: Seq<OutcomeView>, i: int) -> bool {
    0 <= i < passes.len() && i < outcomes.len() && passes[i] && !outcomes[i].matched
}

/// The reasons reported with a mismatch, or the one stock reason where the
/// matcher gave none.
pub open spec fn reasons_of(outcome: OutcomeView) -> Seq<Seq<char>> {
    if outcome.mismatches.len() == 0 {
        seq![NO_REASON@]
    } else {
        outcome.mismatches
    }
}

/// The near misses among the first `n` interactions, in load order.
pub open spec fn near_misses_upto(
    interactions: Seq<InteractionView>,
    passes: Seq<bool>,
    outcomes: Seq<OutcomeView>,
    n: int,
) -> Seq<NearMissView>
    decreases n,
{
    if n <= 0 {
        Seq::empty()
    } else if n <= interactions.len() && is_near_miss(passes, outcomes, n - 1) {
        near_misses_upto(interactions, passes, outcomes, n - 1).push(
            NearMissView {
                label: interactions[n - 1].label,
                reasons: reasons_of(outcomes[n - 1]),
            },
        )
    } else {
        near_misses_upto(interactions, passes, outcomes, n - 1)
    }
}

/// The near misses among all interactions, in load order.
pub open spec fn near_misses(
    interactions: Seq<InteractionView>,
    passes: Seq<bool>,
    outcomes: Seq<OutcomeView>,
) -> Seq<NearMissView> {
    near_misses_upto(interactions, passes, outcomes, interactions.len() as int)
}

/// The lines of the first `n` reasons.
pub open spec fn render_reasons(reasons: Seq<Seq<char>>, n: int) -> Seq<char>
    decreases n,
{
    if n <= 0 || n > reasons.len() {
        Seq::empty()
    } else {
        render_reasons(reasons, n - 1) + REASON_PREFIX@ + reasons[n - 1] + NEWLINE@
    }
}

/// The lines of one near miss: its label, then its reasons.
pub open spec fn render_miss(miss: NearMissView) -> Seq<char> {
    MISS_PREFIX@ + miss.label + NEWLINE@ + render_reasons(miss.reasons, miss.reasons.len() as int)
}

/// The lines of the first `n` near misses.
pub open spec fn render_misses(misses: Seq<NearMissView>, n: int) -> Seq<char>
    decreases n,
{
    if n <= 0 || n > misses.len() {
        Seq::empty()
    } else {
        render_misses(misses, n - 1) + render_miss(misses[n - 1])
    }
}

/// The first line of the fallback text, without its line end.
pub open spec fn headline(request: RequestView) -> Seq<char> {
    HEADLINE@ + request.method + SPACE@ + request.path
}

/// The text of the fallback: the headline, then each near miss with its
/// reasons.
pub open spec fn fallback_text(request: RequestView, misses: Seq<NearMissView>) -> Seq<char> {
    headline(request) + NEWLINE@ + render_misses(misses, misses.len() as int)
}

/// Every near miss carries at least one reason.
pub proof fn lemma_near_misses_have_reasons(
    interactions: Seq<InteractionView>,
    passes: Seq<bool>,
    outcomes: Seq<OutcomeView>,
    n: int,
)
    ensures
        forall|k: int|
            0 <= k < near_misses_upto(interactions, passes, outcomes, n).len() ==> (
            #[trigger] near_misses_upto(interactions, passes, outcomes, n)[k]).reasons.len() >= 1,
    decreases n,
{
    if n > 0 {
        lemma_near_misses_have_reasons(interactions, passes, outcomes, n - 1);
        let all = near_misses_upto(interactions, passes, outcomes, n);
        let before = near_misses_upto(interactions, passes, outcomes, n - 1);
        assert forall|k: int| 0 <= k < all.len() implies (#[trigger] all[k]).reasons.len()
            >= 1 by {
            if k < before.len() {
                assert(all[k] == before[k]);
            } else {
                assert(all[k].reasons == reasons_of(outcomes[n - 1]));
                assert(seq![NO_REASON@].len() == 1);
            }
        }
    }
}

/// A copy of a list of texts.
pub fn clone_texts(list: &Vec<String>) -> (r: Vec<String>)
    ensures
        text_views(r@) == text_views(list@),
{
    let mut out: Vec<String> = Vec::new();
    let mut i: usize = 0;
    while i < list.len()
        invariant
            i <= list.len(),
            out.len() == i,
            forall|k: int| 0 <= k < i ==> out@[k]@ == list@[k]@,
        decreases list.len() - i,
    {
        out.push(list[i].clone());
        i += 1;
    }
    assert(text_views(out@) =~= text_views(list@));
    out
}

/// The reasons to show for `outcome`: those it carries, or the stock one.
pub fn reasons_for(outcome: &MatchOutcome) -> (r: Vec<String>)
    ensures
        text_views(r@) == reasons_of(outcome@),
        r.len() >= 1,
{
    if outcome.mismatches.len() == 0 {
        let mut out: Vec<String> = Vec::new();
        out.push(NO_REASON.to_owned());
        assert(text_views(out@) =~= seq![NO_REASON@]);
        out
    } else {
        let out = clone_texts(&outcome.mismatches);
        assert(text_views(out@).len() == out.len());
        out
    }
}

/// The interactions that were tried against the request and did not match,
/// in load order, each with its reasons. `passes` says of each interaction
/// whether it passes the filter; `outcomes` holds the matcher's reports, by
/// position.
pub fn collect_near_misses(
    interactions: &Vec<Interaction>,
    passes: &Vec<bool>,
    outcomes: &Vec<MatchOutcome>,
) -> (r: Vec<NearMiss>)
    ensures
        near_miss_views(r@) == near_misses(
            interaction_views(interactions@),
            passes@,
            outcome_views(outcomes@),
        ),
        forall|k: int| 0 <= k < r.len() ==> (#[trigger] r@[k]).reasons.len() >= 1,
{
    let ghost iv = interaction_views(interactions@);
    let ghost ov = outcome_views(outcomes@);
    let mut out: Vec<NearMiss> = Vec::new();
    let mut i: usize = 0;
    while i < interactions.len()
        invariant
            i <= interactions.len(),
            iv == interaction_views(interactions@),
            ov == outcome_views(outcomes@),
            near_miss_views(out@) == near_misses_upto(iv, passes@, ov, i as int),
            forall|k: int| 0 <= k < out.len() ==> (#[trigger] out@[k]).reasons.len() >= 1,
        decreases interactions.len() - i,
    {
        if i < passes.len() && i < outcomes.len() && passes[i] && !outcomes[i].matched {
            let ghost before = out@;
            let miss = NearMiss {
                label: interactions[i].label.clone(),
                reasons: reasons_for(&outcomes[i]),
            };
            out.push(miss);
            assert(near_miss_views(out@) =~= near_miss_views(before).push(miss@));
        }
        i += 1;
    }
    out
}

/// Appends the lines of `reasons` to `text`.
pub fn push_reasons(text: &mut String, reasons: &Vec<String>)
    ensures
        final(text)@ == old(text)@ + render_reasons(
            text_views(reasons@),
            reasons.len() as int,
        ),
{
    let ghost start = text@;
    let ghost rv = text_views(reasons@);
    let mut i: usize = 0;
    assert(text@ =~= start + render_reasons(rv, 0));
    while i < reasons.len()
        invariant
            i <= reasons.len(),
            rv == text_views(reasons@),
            text@ == start + render_reasons(rv, i as int),
        decreases reasons.len() - i,
    {
        let ghost before = text@;
        text.append(REASON_PREFIX);
        text.append(reasons[i].as_str());
        text.append(NEWLINE);
        assert(text@ =~= before + REASON_PREFIX@ + rv[i as int] + NEWLINE@);
        assert(text@ =~= start + render_reasons(rv, i + 1));
        i += 1;
    }
}

/// Appends the lines of `misses` to `text`.
pub fn push_misses(text: &mut String, misses: &Vec<NearMiss>)
    ensures
        final(text)@ == old(text)@ + render_misses(
            near_miss_views(misses@),
            misses.len() as int,
        ),
{
    let ghost start = text@;
    let ghost mv = near_miss_views(misses@);
    let mut i: usize = 0;
    assert(text@ =~= start + render_misses(mv, 0));
    while i < misses.len()
        invariant
            i <= misses.len(),
            mv == near_miss_views(misses@),
            text@ == start + render_misses(mv, i as int),
        decreases misses.len() - i,
    {
        let ghost before = text@;
        text.append(MISS_PREFIX);
        text.append(misses[i].label.as_str());
        text.append(NEWLINE);
        push_reasons(text, &misses[i].reasons);
        assert(text@ =~= before + render_miss(mv[i as int]));
        assert(text@ =~= start + render_misses(mv, i + 1));
        i += 1;
    }
}

/// The first line of the fallback text for `request`, without its line end.
pub fn headline_for(request: &HttpRequest) -> (r: String)
    ensures
        r@ == headline(request@),
{
    let mut text = HEADLINE.to_owned();
    text.append(request.method.as_str());
    text.append(SPACE);
    text.append(request.path.as_str());
    text
}

/// The text of the fallback for `request` with its near misses.
pub fn render_fallback(request: &HttpRequest, misses: &Vec<NearMiss>) -> (r: String)
    ensures
        r@ == fallback_text(request@, near_miss_views(misses@)),
{
    let mut text = headline_for(request);
    text.append(NEWLINE);
    push_misses(&mut text, misses);
    text
}

} // verus!
