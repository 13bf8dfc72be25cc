//! The handling of one request as a sequence of steps: the engine says
//! which interaction the matcher is to be asked about next, takes the
//! matcher's report, and in the end resolves the reports into the reply.
//! An exchange belongs to one request and ends with it.

use vstd::prelude::*;
use crate::handler::{spec_handle, Reply, ServerHandler};
use crate::model::{not_tried, outcome_views, HttpRequest, MatchOutcome, OutcomeView};

verus! {

/// The position of the first interaction at or after `from` that passes
/// the filter, or the number of interactions where there is none.
pub open spec fn next_passing(passes: Seq<bool>, from: int) -> int
    decreases passes.len() - from,
{
    if from < 0 || from >= passes.len() {
        passes.len() as int
    } else if passes[from] {
        from
    } else {
        next_passing(passes, from + 1)
    }
}

/// `reports` filled up to `upto` entries with the report of an interaction
/// that was not tried.
pub open spec fn padded(reports: Seq<OutcomeView>, upto: int) -> Seq<OutcomeView> {
    if upto <= reports.len() {
        reports
    } else {
        reports + Seq::new((upto - reports.len()) as nat, |i: int| not_tried())
    }
}

/// What `next_passing` finds passes the filter, and nothing before it
/// does.
pub proof fn lemma_next_passing(passes: Seq<bool>, from: int)
    requires
        0 <= from <= passes.len(),
    ensures
        from <= next_passing(passes, from) <= passes.len(),
        next_passing(passes, from) < passes.len() ==> passes[next_passing(passes, from)],
        forall|k: int| from <= k < next_passing(passes, from) ==> !passes[k],
    decreases passes.len() - from,
{
    if from < passes.len() && !passes[from] {
        lemma_next_passing(passes, from + 1);
    }
}

/// The matcher's reports on one request, as far as they have come in: one
/// for each interaction from the first on, in load order.
pub struct Exchange {
    reports: Vec<MatchOutcome>,
}

impl View for Exchange {
    type V = Seq<OutcomeView>;

    closed spec fn view(&self) -> Seq<OutcomeView> {
        outcome_views(self.reports@)
    }
}

/// What the engine asks for next.
#[derive(Clone, Copy, Debug, PartialEq, Eq)]
pub enum Step {
    /// Ask the matcher about the interaction at this position, and report.
    Ask(usize),
    /// Nothing is left to ask: resolve.
    Resolve,
}

impl ServerHandler {
    /// Begins the handling of a request: no report is in yet.
    pub fn begin(&self) -> (r: Exchange)
        ensures
            r@ == Seq::<OutcomeView>::empty(),
    {
        let r = Exchange { reports: Vec::new() };
        assert(r@ =~= Seq::<OutcomeView>::empty());
        r
    }

    /// Moves on to the next interaction that passes the provider-state
    /// filter, recording those before it as not tried, and asks for the
    /// matcher's report on it; or, where none is left, says that it is time
    /// to resolve.
    pub fn next_step(&self, exchange: &mut Exchange) -> (r: Step)
        ensures
            final(exchange)@ == padded(
                old(exchange)@,
                next_passing(self@.passes(), old(exchange)@.len() as int),
            ),
            match r {
                Step::Ask(i) => i == next_passing(self@.passes(), old(exchange)@.len() as int) && i
                    < self@.interactions.len() && i == final(exchange)@.len(),
                Step::Resolve => next_passing(self@.passes(), old(exchange)@.len() as int)
                    >= self@.interactions.len(),
            },
    {
        let ghost start = exchange@;
        let ghost passes = self@.passes();
        let count = self.len();
        proof {
            if start.len() <= passes.len() {
                lemma_next_passing(passes, start.len() as int);
            }
            assert(padded(start, start.len() as int) =~= start);
        }
        while exchange.reports.len() < count && !self.passes_filter(exchange.reports.len())
            invariant
                count == self@.interactions.len(),
                passes == self@.passes(),
                passes.len() == count,
                start.len() <= exchange@.len(),
                exchange@.len() <= count || exchange@.len() == start.len(),
                exchange@.len() == exchange.reports.len(),
                exchange@ == padded(start, exchange@.len() as int),
                next_passing(passes, start.len() as int) == next_passing(
                    passes,
                    exchange@.len() as int,
                ),
            decreases count - exchange.reports.len(),
        {
            let ghost before = exchange@;
            let ghost held = exchange.reports@;
            let skipped = MatchOutcome::skipped();
            exchange.reports.push(skipped);
            assert(outcome_views(exchange.reports@) =~= outcome_views(held).push(skipped@));
            assert(exchange@ =~= padded(start, exchange@.len() as int));
        }
        let at = exchange.reports.len();
        proof {
            assert(exchange@.len() == at);
            if at < count {
                assert(passes[at as int]);
                assert(next_passing(passes, at as int) == at);
            } else {
                assert(next_passing(passes, at as int) == count);
                assert(padded(start, count as int) =~= padded(start, at as int));
            }
        }
        if at < count {
            Step::Ask(at)
        } else {
            Step::Resolve
        }
    }

    /// Takes the matcher's report on the interaction that was asked about.
    pub fn report(&self, exchange: &mut Exchange, outcome: MatchOutcome)
        ensures
            final(exchange)@ == old(exchange)@.push(outcome@),
    {
        let ghost held = exchange.reports@;
        exchange.reports.push(outcome);
        assert(outcome_views(exchange.reports@) =~= outcome_views(held).push(outcome@));
    }

    /// Resolves the reports that came in and answers `request`. The
    /// exchange ends here.
    pub fn finish(&self, request: &HttpRequest, exchange: Exchange) -> (r: Reply)
        ensures
            r@ == spec_handle(self@, request@, exchange@),
    {
        self.handle(request, &exchange.reports)
    }
}

} // verus!
