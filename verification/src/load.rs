//! The end of loading: either every source gave its interactions, and the
//! engine starts on all of them, or some source failed, and it does not
//! start at all.

use vstd::prelude::*;
use crate::error::{ErrorView, PactError};
use crate::model::{interaction_views, Interaction, InteractionView};

verus! {

/// The view of what one source gave.
pub open spec fn loaded_view(loaded: Result<Vec<Interaction>, PactError>) -> Result<
    Seq<InteractionView>,
    ErrorView,
> {
    match loaded {
        Ok(list) => Ok(interaction_views(list@)),
        Err(error) => Err(error@),
    }
}

/// The views of what the sources gave, in order.
pub open spec fn loaded_views(results: Seq<Result<Vec<Interaction>, PactError>>) -> Seq<
    Result<Seq<InteractionView>, ErrorView>,
> {
    results.map_values(|r: Result<Vec<Interaction>, PactError>| loaded_view(r))
}

/// The views of a list of errors, in order.
pub open spec fn error_views(errors: Seq<PactError>) -> Seq<ErrorView> {
    errors.map_values(|e: PactError| e@)
}

/// Whether some source failed.
pub open spec fn any_failed(results: Seq<Result<Seq<InteractionView>, ErrorView>>) -> bool {
    exists|i: int| 0 <= i < results.len() && (#[trigger] results[i]) is Err
}

/// The errors of the first `n` sources, in order.
pub open spec fn errors_upto(results: Seq<Result<Seq<InteractionView>, ErrorView>>, n: int) -> Seq<
    ErrorView,
>
    decreases n,
{
    if n <= 0 || n > results.len() {
        Seq::empty()
    } else {
        match results[n - 1] {
            Ok(_) => errors_upto(results, n - 1),
            Err(error) => errors_upto(results, n - 1).push(error),
        }
    }
}

/// The interactions of the first `n` sources, in order; a source that
/// failed adds none.
pub open spec fn interactions_upto(
    results: Seq<Result<Seq<InteractionView>, ErrorView>>,
    n: int,
) -> Seq<InteractionView>
    decreases n,
{
    if n <= 0 || n > results.len() {
        Seq::empty()
    } else {
        match results[n - 1] {
            Ok(list) => interactions_upto(results, n - 1) + list,
            Err(_) => interactions_upto(results, n - 1),
        }
    }
}

/// What loading ends in. Where every source gave its interactions: all of
/// them, source by source, each source's in its own order. Where some
/// source failed: the errors, in the order of the sources, and no
/// interaction at all.
pub open spec fn spec_gather(results: Seq<Result<Seq<InteractionView>, ErrorView>>) -> Result<
    Seq<InteractionView>,
    Seq<ErrorView>,
> {
    if any_failed(results) {
        Err(errors_upto(results, results.len() as int))
    } else {
        Ok(interactions_upto(results, results.len() as int))
    }
}

/// The view of what loading ended in.
pub open spec fn gathered_view(gathered: Result<Vec<Interaction>, Vec<PactError>>) -> Result<
    Seq<InteractionView>,
    Seq<ErrorView>,
> {
    match gathered {
        Ok(list) => Ok(interaction_views(list@)),
        Err(errors) => Err(error_views(errors@)),
    }
}

/// Where some source failed there is an error to report, and the other way
/// round.
pub proof fn lemma_errors_iff_failed(results: Seq<Result<Seq<InteractionView>, ErrorView>>, n: int)
    requires
        0 <= n <= results.len(),
    ensures
        errors_upto(results, n).len() > 0 <==> exists|i: int|
            0 <= i < n && (#[trigger] results[i]) is Err,
    decreases n,
{
    if n > 0 {
        lemma_errors_iff_failed(results, n - 1);
        if results[n - 1] is Err {
            assert(0 <= n - 1 < n && results[n - 1] is Err);
        } else if exists|i: int| 0 <= i < n && (#[trigger] results[i]) is Err {
            let i = choose|i: int| 0 <= i < n && (#[trigger] results[i]) is Err;
            assert(0 <= i < n - 1 && results[i] is Err);
        }
    }
}

/// Appends a copy of each of `list` to `all`.
pub fn append_interactions(all: &mut Vec<Interaction>, list: &Vec<Interaction>)
    ensures
        interaction_views(final(all)@) == interaction_views(old(all)@) + interaction_views(list@),
{
    let ghost start = interaction_views(all@);
    let ghost added = interaction_views(list@);
    let mut i: usize = 0;
    assert(interaction_views(all@) =~= start + added.subrange(0, 0));
    while i < list.len()
        invariant
            i <= list.len(),
            added == interaction_views(list@),
            interaction_views(all@) == start + added.subrange(0, i as int),
        decreases list.len() - i,
    {
        let ghost before = all@;
        let copy = list[i].clone();
        all.push(copy);
        assert(interaction_views(all@) =~= interaction_views(before).push(copy@));
        assert(interaction_views(all@) =~= start + added.subrange(0, i + 1));
        i += 1;
    }
    assert(added.subrange(0, list.len() as int) =~= added);
}

/// Ends loading: all interactions, or all errors.
pub fn gather(results: &Vec<Result<Vec<Interaction>, PactError>>) -> (r: Result<
    Vec<Interaction>,
    Vec<PactError>,
>)
    ensures
        gathered_view(r) == spec_gather(loaded_views(results@)),
        r matches Err(errors) ==> errors.len() > 0,
{
    let ghost views = loaded_views(results@);
    let mut all: Vec<Interaction> = Vec::new();
    let mut errors: Vec<PactError> = Vec::new();
    let mut i: usize = 0;
    assert(interaction_views(all@) =~= interactions_upto(views, 0));
    assert(error_views(errors@) =~= errors_upto(views, 0));
    while i < results.len()
        invariant
            i <= results.len(),
            views == loaded_views(results@),
            interaction_views(all@) == interactions_upto(views, i as int),
            error_views(errors@) == errors_upto(views, i as int),
        decreases results.len() - i,
    {
        match &results[i] {
            Ok(list) => {
                append_interactions(&mut all, list);
            },
            Err(error) => {
                let ghost before = errors@;
                let copy = error.clone();
                errors.push(copy);
                assert(error_views(errors@) =~= error_views(before).push(copy@));
            },
        }
        i += 1;
    }
    proof {
        lemma_errors_iff_failed(views, views.len() as int);
        assert(error_views(errors@).len() == errors.len());
    }
    if errors.len() > 0 {
        Err(errors)
    } else {
        Ok(all)
    }
}

} // verus!
