//! Looking a header up by its name, which is compared without regard to
//! the case of ASCII letters.

use vstd::prelude::*;
use crate::model::{pair_views, Pair, PairView};
use crate::text::{eq_ignoring_case, same_ignoring_case};

verus! {

/// The position of the first of `headers` at or after `from` that is named
/// `name`, or the length of `headers` where there is none.
pub open spec fn first_named_from(headers: Seq<PairView>, name: Seq<char>, from: int) -> int
    decreases headers.len() - from,
{
    if from < 0 || from >= headers.len() {
        headers.len() as int
    } else if same_ignoring_case(headers[from].name, name) {
        from
    } else {
        first_named_from(headers, name, from + 1)
    }
}

/// The position of the first of `headers` that is named `name`, or the
/// length of `headers` where there is none.
pub open spec fn first_named(headers: Seq<PairView>, name: Seq<char>) -> int {
    first_named_from(headers, name, 0)
}

/// Whether one of `headers` is named `name`.
pub open spec fn has_header(headers: Seq<PairView>, name: Seq<char>) -> bool {
    first_named(headers, name) < headers.len()
}

/// The value of the first of `headers` that is named `name`.
pub open spec fn header_value(headers: Seq<PairView>, name: Seq<char>) -> Option<Seq<char>> {
    if has_header(headers, name) {
        Some(headers[first_named(headers, name)].value)
    } else {
        None
    }
}

/// A search from `from` that passes only other names up to `at`, and stops
/// there, finds `at`.
pub proof fn lemma_first_named_from(headers: Seq<PairView>, name: Seq<char>, from: int, at: int)
    requires
        0 <= from <= at <= headers.len(),
        forall|k: int| from <= k < at ==> !same_ignoring_case(#[trigger] headers[k].name, name),
        at < headers.len() ==> same_ignoring_case(headers[at].name, name),
    ensures
        first_named_from(headers, name, from) == at,
    decreases at - from,
{
    if from < at {
        lemma_first_named_from(headers, name, from + 1, at);
    }
}

/// The position of the first of `headers` that is named `name`, if any.
pub fn find_header(headers: &Vec<Pair>, name: &str) -> (r: Option<usize>)
    ensures
        match r {
            Some(k) => k < headers.len() && k == first_named(pair_views(headers@), name@),
            None => !has_header(pair_views(headers@), name@),
        },
{
    let mut i: usize = 0;
    while i < headers.len()
        invariant
            i <= headers.len(),
            forall|k: int|
                0 <= k < i ==> !same_ignoring_case(
                    #[trigger] pair_views(headers@)[k].name,
                    name@,
                ),
        decreases headers.len() - i,
    {
        if eq_ignoring_case(headers[i].name.as_str(), name) {
            proof {
                lemma_first_named_from(pair_views(headers@), name@, 0, i as int);
            }
            return Some(i);
        }
        i += 1;
    }
    proof {
        lemma_first_named_from(pair_views(headers@), name@, 0, i as int);
    }
    None
}

} // verus!
