//! What holds of the engine as a whole, proved from the definitions of its
//! parts.

use vstd::prelude::*;
use crate::diagnose::{
    is_near_miss, lemma_near_misses_have_reasons, near_misses, near_misses_upto, reasons_of,
    NearMissView,
};
use crate::filter::pattern_matches;
use crate::handler::{
    candidates, candidates_upto, chosen, fallback_response, is_candidate, spec_handle,
    HandlerView, ReplyView, FALLBACK_STATUS,
};
use crate::model::{InteractionView, OutcomeView, RequestView};
use crate::headers::header_value;
use crate::respond::{allow_origin, is_preflight, preflight_response, recorded_response};
use crate::select::{
    has_state, lemma_only_one_is_unique, only_one_with_state, single_with_state, spec_select,
    Choice,
};

verus! {

/// Whether `request` is a preflight that the server answers by itself
/// where no interaction does.
pub open spec fn answers_preflight(handler: HandlerView, request: RequestView) -> bool {
    handler.config.auto_cors && is_preflight(request.method)
}

/// `list` with what stands at `i` and at `j` exchanged.
pub open spec fn swapped<A>(list: Seq<A>, i: int, j: int) -> Seq<A> {
    list.update(i, list[j]).update(j, list[i])
}

/// What is selected is one of the candidates.
pub proof fn lemma_selected_is_candidate(
    candidates: Seq<InteractionView>,
    request: RequestView,
    header_name: Option<Seq<char>>,
)
    ensures
        spec_select(candidates, request, header_name).position() matches Some(k) ==> 0 <= k
            < candidates.len(),
{
    if let Choice::ByHeader(k) = spec_select(candidates, request, header_name) {
        let value = header_value(request.headers, header_name->0)->0;
        assert(only_one_with_state(candidates, value, k));
    }
}

/// Every request is answered in exactly one of three ways: with the
/// recorded response of one of the candidates, with the synthesized
/// preflight answer, or with the fallback.
pub proof fn lemma_one_answer(
    handler: HandlerView,
    request: RequestView,
    outcomes: Seq<OutcomeView>,
)
    ensures
        ({
            let list = candidates(handler, outcomes);
            let reply = spec_handle(handler, request, outcomes);
            let origin = allow_origin(request, handler.config.cors_referer);
            if list.len() > 0 {
                exists|k: int|
                    0 <= k < list.len() && reply.response == recorded_response(
                        (#[trigger] list[k]).response,
                        handler.config.auto_cors,
                        origin,
                    )
            } else if answers_preflight(handler, request) {
                reply.response == preflight_response(origin)
            } else {
                reply.response == fallback_response(
                    request,
                    near_misses(handler.interactions, handler.passes(), outcomes),
                )
            }
        }),
{
    let list = candidates(handler, outcomes);
    let selection = spec_select(list, request, handler.config.provider_state_header_name);
    if list.len() > 0 {
        match selection {
            Choice::ByHeader(k) => {
                let value = header_value(
                    request.headers,
                    handler.config.provider_state_header_name->0,
                )->0;
                let c = choose|c: int| only_one_with_state(list, value, c);
                assert(only_one_with_state(list, value, c));
                assert(chosen(list, selection) == Some(list[c]));
            },
            _ => {
                assert(chosen(list, selection) == Some(list[0]));
            },
        }
    }
}

/// The reply is a function of the handler, the request and the matcher's
/// reports: two replies to the same are the same, byte for byte.
pub proof fn lemma_deterministic(
    handler: HandlerView,
    request: RequestView,
    outcomes: Seq<OutcomeView>,
    first: ReplyView,
    second: ReplyView,
)
    requires
        first == spec_handle(handler, request, outcomes),
        second == spec_handle(handler, request, outcomes),
    ensures
        first == second,
        first.response.status == second.response.status,
        first.response.headers == second.response.headers,
        first.response.body == second.response.body,
{
}

/// Whether the filter of `handler` has a pattern that matches the provider
/// state of none of its interactions, and leaves out those without one.
pub open spec fn filter_matches_nothing(handler: HandlerView) -> bool {
    &&& handler.config.provider_state_filter is Some
    &&& !handler.config.empty_provider_state
    &&& forall|i: int|
        0 <= i < handler.interactions.len() ==> match (
        #[trigger] handler.interactions[i]).provider_state {
            Some(state) => !pattern_matches(handler.config.provider_state_filter->0, state),
            None => true,
        }
}

/// Where nothing passes the filter, nothing among the first `n`
/// interactions is a candidate or a near miss.
pub proof fn lemma_nothing_passes(handler: HandlerView, outcomes: Seq<OutcomeView>, n: int)
    requires
        filter_matches_nothing(handler),
    ensures
        candidates_upto(handler.interactions, handler.passes(), outcomes, n).len() == 0,
        near_misses_upto(handler.interactions, handler.passes(), outcomes, n).len() == 0,
    decreases n,
{
    if n > 0 {
        lemma_nothing_passes(handler, outcomes, n - 1);
        if n <= handler.interactions.len() {
            assert(handler.interactions[n - 1].provider_state is Some ==> !pattern_matches(
                handler.config.provider_state_filter->0,
                handler.interactions[n - 1].provider_state->0,
            ));
            assert(!handler.passes()[n - 1]);
        }
    }
}

/// A filter whose pattern matches no interaction's provider state, with
/// state-less interactions left out, leaves no interaction in: whatever
/// the request and whatever the matcher reports, the candidate set is
/// empty. Every request but a preflight that the server answers by itself
/// then gets the fallback, which names no near miss.
pub proof fn lemma_filter_soundness(
    handler: HandlerView,
    request: RequestView,
    outcomes: Seq<OutcomeView>,
)
    requires
        filter_matches_nothing(handler),
    ensures
        forall|i: int| 0 <= i < handler.interactions.len() ==> !(#[trigger] handler.passes()[i]),
        candidates(handler, outcomes).len() == 0,
        !answers_preflight(handler, request) ==> spec_handle(handler, request, outcomes).response
            == fallback_response(request, Seq::empty()),
{
    lemma_nothing_passes(handler, outcomes, handler.interactions.len() as int);
    assert forall|i: int| 0 <= i < handler.interactions.len() implies !(
    #[trigger] handler.passes()[i]) by {
        assert(handler.interactions[i].provider_state is Some ==> !pattern_matches(
            handler.config.provider_state_filter->0,
            handler.interactions[i].provider_state->0,
        ));
    }
    assert(near_misses(handler.interactions, handler.passes(), outcomes) =~= Seq::empty());
}

/// Where the request carries the disambiguation header and exactly one of
/// the candidates is recorded under the provider state that the header
/// names, that candidate's recorded response answers, wherever in the
/// candidate list it stands.
pub proof fn lemma_header_selects(
    handler: HandlerView,
    request: RequestView,
    outcomes: Seq<OutcomeView>,
    k: int,
)
    requires
        handler.config.provider_state_header_name is Some,
        header_value(request.headers, handler.config.provider_state_header_name->0) is Some,
        only_one_with_state(
            candidates(handler, outcomes),
            header_value(request.headers, handler.config.provider_state_header_name->0)->0,
            k,
        ),
    ensures
        spec_handle(handler, request, outcomes).response == recorded_response(
            candidates(handler, outcomes)[k].response,
            handler.config.auto_cors,
            allow_origin(request, handler.config.cors_referer),
        ),
        spec_handle(handler, request, outcomes).diagnostic is None,
{
    let list = candidates(handler, outcomes);
    let value = header_value(request.headers, handler.config.provider_state_header_name->0)->0;
    let selection = spec_select(list, request, handler.config.provider_state_header_name);
    if list.len() > 1 {
        let c = choose|c: int| only_one_with_state(list, value, c);
        lemma_only_one_is_unique(list, value, k, c);
        assert(single_with_state(list, value) == Some(k));
        assert(selection == Choice::ByHeader(k));
    }
    assert(chosen(list, selection) == Some(list[k]));
}

/// The reports on the first `n` interactions count only where the
/// interaction passes the filter.
pub proof fn lemma_reports_count_where_passing(
    interactions: Seq<InteractionView>,
    passes: Seq<bool>,
    first: Seq<OutcomeView>,
    second: Seq<OutcomeView>,
    n: int,
)
    requires
        first.len() == second.len(),
        forall|i: int| 0 <= i < first.len() && i < passes.len() && passes[i] ==> first[i] == second[i],
    ensures
        candidates_upto(interactions, passes, first, n) == candidates_upto(
            interactions,
            passes,
            second,
            n,
        ),
        near_misses_upto(interactions, passes, first, n) == near_misses_upto(
            interactions,
            passes,
            second,
            n,
        ),
    decreases n,
{
    if n > 0 {
        lemma_reports_count_where_passing(interactions, passes, first, second, n - 1);
    }
}

/// What the matcher would say of an interaction that the filter leaves out
/// is of no account: two lists of reports that agree wherever an
/// interaction passes the filter get the same reply. So the matcher need
/// only be asked about the interactions that pass.
pub proof fn lemma_filtered_out_is_never_asked(
    handler: HandlerView,
    request: RequestView,
    first: Seq<OutcomeView>,
    second: Seq<OutcomeView>,
)
    requires
        first.len() == second.len(),
        forall|i: int|
            0 <= i < first.len() && i < handler.interactions.len() && handler.passes()[i]
                ==> first[i] == second[i],
    ensures
        spec_handle(handler, request, first) == spec_handle(handler, request, second),
{
    lemma_reports_count_where_passing(
        handler.interactions,
        handler.passes(),
        first,
        second,
        handler.interactions.len() as int,
    );
}

/// Every interaction that was tried and did not match is listed among the
/// first `n` near misses, under its label and with its reasons, where it is
/// one of the first `n` interactions.
pub proof fn lemma_near_miss_listed(
    interactions: Seq<InteractionView>,
    passes: Seq<bool>,
    outcomes: Seq<OutcomeView>,
    n: int,
    i: int,
)
    requires
        0 <= i < n <= interactions.len(),
        is_near_miss(passes, outcomes, i),
    ensures
        exists|k: int|
            0 <= k < near_misses_upto(interactions, passes, outcomes, n).len() && (
            #[trigger] near_misses_upto(interactions, passes, outcomes, n)[k]) == (NearMissView {
                label: interactions[i].label,
                reasons: reasons_of(outcomes[i]),
            }),
    decreases n,
{
    let all = near_misses_upto(interactions, passes, outcomes, n);
    let before = near_misses_upto(interactions, passes, outcomes, n - 1);
    let wanted = NearMissView { label: interactions[i].label, reasons: reasons_of(outcomes[i]) };
    if i == n - 1 {
        assert(all[before.len() as int] == wanted);
    } else {
        lemma_near_miss_listed(interactions, passes, outcomes, n - 1, i);
        let k = choose|k: int| 0 <= k < before.len() && (#[trigger] before[k]) == wanted;
        assert(all[k] == wanted);
    }
}

/// A request that matches no interaction, and is no preflight that the
/// server answers by itself, gets status 500 and a text that lists every
/// interaction that was tried, each with at least one reason.
pub proof fn lemma_no_match_diagnostics(
    handler: HandlerView,
    request: RequestView,
    outcomes: Seq<OutcomeView>,
)
    requires
        candidates(handler, outcomes).len() == 0,
        !answers_preflight(handler, request),
    ensures
        ({
            let misses = near_misses(handler.interactions, handler.passes(), outcomes);
            let reply = spec_handle(handler, request, outcomes);
            &&& reply.response == fallback_response(request, misses)
            &&& reply.response.status == FALLBACK_STATUS
            &&& forall|k: int| 0 <= k < misses.len() ==> (#[trigger] misses[k]).reasons.len() >= 1
            &&& forall|i: int|
                0 <= i < handler.interactions.len() && #[trigger] is_near_miss(
                    handler.passes(),
                    outcomes,
                    i,
                ) ==> misses.contains(
                    NearMissView {
                        label: handler.interactions[i].label,
                        reasons: reasons_of(outcomes[i]),
                    },
                )
        }),
{
    let misses = near_misses(handler.interactions, handler.passes(), outcomes);
    lemma_near_misses_have_reasons(
        handler.interactions,
        handler.passes(),
        outcomes,
        handler.interactions.len() as int,
    );
    assert forall|i: int|
        0 <= i < handler.interactions.len() && #[trigger] is_near_miss(
            handler.passes(),
            outcomes,
            i,
        ) implies misses.contains(
        NearMissView { label: handler.interactions[i].label, reasons: reasons_of(outcomes[i]) },
    ) by {
        lemma_near_miss_listed(
            handler.interactions,
            handler.passes(),
            outcomes,
            handler.interactions.len() as int,
            i,
        );
    }
}

/// The positions, among the interactions, of the candidates among the
/// first `n` of them, in load order.
pub open spec fn positions_upto(passes: Seq<bool>, outcomes: Seq<OutcomeView>, n: int) -> Seq<int>
    decreases n,
{
    if n <= 0 {
        Seq::empty()
    } else if is_candidate(passes, outcomes, n - 1) {
        positions_upto(passes, outcomes, n - 1).push(n - 1)
    } else {
        positions_upto(passes, outcomes, n - 1)
    }
}

/// The candidate list holds exactly the interactions at the candidates'
/// positions, each once and in load order.
pub proof fn lemma_positions(
    interactions: Seq<InteractionView>,
    passes: Seq<bool>,
    outcomes: Seq<OutcomeView>,
    n: int,
)
    requires
        passes.len() == interactions.len(),
        0 <= n <= interactions.len(),
    ensures
        ({
            let positions = positions_upto(passes, outcomes, n);
            let list = candidates_upto(interactions, passes, outcomes, n);
            &&& positions.len() == list.len()
            &&& forall|k: int|
                0 <= k < positions.len() ==> 0 <= (#[trigger] positions[k]) < n && is_candidate(
                    passes,
                    outcomes,
                    positions[k],
                ) && list[k] == interactions[positions[k]]
            &&& forall|k: int, l: int|
                0 <= k < l < positions.len() ==> (#[trigger] positions[k]) < (
                #[trigger] positions[l])
            &&& forall|m: int|
                0 <= m < n && #[trigger] is_candidate(passes, outcomes, m)
                    ==> positions.contains(m)
        }),
    decreases n,
{
    if n > 0 {
        lemma_positions(interactions, passes, outcomes, n - 1);
        let before = positions_upto(passes, outcomes, n - 1);
        let positions = positions_upto(passes, outcomes, n);
        assert forall|m: int|
            0 <= m < n && #[trigger] is_candidate(passes, outcomes, m) implies positions.contains(
            m,
        ) by {
            if m == n - 1 {
                assert(positions[before.len() as int] == m);
            } else {
                assert(before.contains(m));
                let k = choose|k: int| 0 <= k < before.len() && before[k] == m;
                assert(positions[k] == m);
            }
        }
    }
}

/// Whether the interaction at `m` is a candidate recorded under `state`,
/// and no other candidate is.
pub open spec fn only_candidate_with_state(
    handler: HandlerView,
    outcomes: Seq<OutcomeView>,
    state: Seq<char>,
    m: int,
) -> bool {
    &&& 0 <= m < handler.interactions.len()
    &&& is_candidate(handler.passes(), outcomes, m)
    &&& has_state(handler.interactions[m], state)
    &&& forall|j: int|
        0 <= j < handler.interactions.len() && j != m && #[trigger] is_candidate(
            handler.passes(),
            outcomes,
            j,
        ) ==> !has_state(handler.interactions[j], state)
}

/// Disambiguation precedence: where the request carries the
/// disambiguation header, and of all the interactions that match exactly
/// one is recorded under the provider state that the header names, that
/// interaction's recorded response answers, wherever it stands in the load
/// order and however many others match.
pub proof fn lemma_header_selects_stored(
    handler: HandlerView,
    request: RequestView,
    outcomes: Seq<OutcomeView>,
    m: int,
)
    requires
        handler.config.provider_state_header_name is Some,
        header_value(request.headers, handler.config.provider_state_header_name->0) is Some,
        only_candidate_with_state(
            handler,
            outcomes,
            header_value(request.headers, handler.config.provider_state_header_name->0)->0,
            m,
        ),
    ensures
        spec_handle(handler, request, outcomes).response == recorded_response(
            handler.interactions[m].response,
            handler.config.auto_cors,
            allow_origin(request, handler.config.cors_referer),
        ),
        spec_handle(handler, request, outcomes).diagnostic is None,
{
    let n = handler.interactions.len() as int;
    let passes = handler.passes();
    let value = header_value(request.headers, handler.config.provider_state_header_name->0)->0;
    let positions = positions_upto(passes, outcomes, n);
    let list = candidates(handler, outcomes);
    lemma_positions(handler.interactions, passes, outcomes, n);
    assert(positions.contains(m));
    let k = choose|k: int| 0 <= k < positions.len() && positions[k] == m;
    assert forall|j: int| 0 <= j < list.len() && j != k implies !has_state(
        #[trigger] list[j],
        value,
    ) by {
        assert(list[j] == handler.interactions[positions[j]]);
        if j < k {
            assert(positions[j] < positions[k]);
        } else {
            assert(positions[k] < positions[j]);
        }
        assert(is_candidate(passes, outcomes, positions[j]));
    }
    assert(list[k] == handler.interactions[positions[k]]);
    assert(only_one_with_state(list, value, k));
    lemma_header_selects(handler, request, outcomes, k);
}

/// Load-order stability: exchanging two interactions in the load order,
/// and with them the matcher's reports on them, changes which one is the
/// first loaded, but not what the disambiguation header selects. Where the
/// header names the provider state of exactly one matching interaction,
/// both orders give that interaction's response.
pub proof fn lemma_load_order_stability(
    first: HandlerView,
    first_outcomes: Seq<OutcomeView>,
    second: HandlerView,
    second_outcomes: Seq<OutcomeView>,
    request: RequestView,
    i: int,
    j: int,
    m: int,
)
    requires
        first.config == second.config,
        first_outcomes.len() == first.interactions.len(),
        0 <= i < first.interactions.len(),
        0 <= j < first.interactions.len(),
        second.interactions == swapped(first.interactions, i, j),
        second_outcomes == swapped(first_outcomes, i, j),
        first.config.provider_state_header_name is Some,
        header_value(request.headers, first.config.provider_state_header_name->0) is Some,
        only_candidate_with_state(
            first,
            first_outcomes,
            header_value(request.headers, first.config.provider_state_header_name->0)->0,
            m,
        ),
    ensures
        spec_handle(first, request, first_outcomes).response == spec_handle(
            second,
            request,
            second_outcomes,
        ).response,
        spec_handle(first, request, first_outcomes).response == recorded_response(
            first.interactions[m].response,
            first.config.auto_cors,
            allow_origin(request, first.config.cors_referer),
        ),
{
    let value = header_value(request.headers, first.config.provider_state_header_name->0)->0;
    let moved = if m == i {
        j
    } else if m == j {
        i
    } else {
        m
    };
    assert(second.interactions[moved] == first.interactions[m]);
    assert(second_outcomes[moved] == first_outcomes[m]);
    assert(second.passes()[moved] == first.passes()[m]);
    assert(is_candidate(second.passes(), second_outcomes, moved) == is_candidate(
        first.passes(),
        first_outcomes,
        m,
    ));
    assert forall|b: int|
        0 <= b < second.interactions.len() && b != moved && #[trigger] is_candidate(
            second.passes(),
            second_outcomes,
            b,
        ) implies !has_state(second.interactions[b], value) by {
        let a = if b == i {
            j
        } else if b == j {
            i
        } else {
            b
        };
        assert(second.interactions[b] == first.interactions[a]);
        assert(second_outcomes[b] == first_outcomes[a]);
        assert(second.passes()[b] == first.passes()[a]);
        assert(is_candidate(first.passes(), first_outcomes, a));
    }
    assert(only_candidate_with_state(second, second_outcomes, value, moved));
    lemma_header_selects_stored(first, request, first_outcomes, m);
    lemma_header_selects_stored(second, request, second_outcomes, moved);
}

} // verus!
