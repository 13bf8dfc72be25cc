//! The request handler: from a request and the matcher's reports to the
//! one response that answers it.

use vstd::prelude::*;
use vstd::string::*;
use vstd::utf8::encode_utf8;
use crate::config::{ConfigView, ServerConfig};
use crate::diagnose::{
    collect_near_misses, fallback_text, headline, headline_for, near_miss_views, near_misses,
    render_fallback, NearMiss, NearMissView, SPACE,
};
use crate::filter::{filter_flags, flags_for};
use crate::model::{
    interaction_views, not_tried, outcome_views, pair_views, text_view, HttpRequest,
    HttpResponse, Interaction, InteractionView, MatchOutcome, OutcomeView, Pair, PairView,
    RequestView, ResponseView,
};
use crate::options::{check_pattern, invalid_pattern_message};
use crate::respond::{build_response, spec_build};
use crate::select::{candidate_views, select, spec_select, Choice};
use crate::wrappers::regex_compile_error;

verus! {

/// The status of the fallback response.
pub const FALLBACK_STATUS: u16 = 500;

/// The header that says how a body is to be read.
pub const CONTENT_TYPE: &'static str = "Content-Type";

/// The content type of the fallback text.
pub const PLAIN_TEXT: &'static str = "text/plain; charset=utf-8";

/// What the note on an ambiguous match starts with.
pub const SEVERAL_MATCH: &'static str = "Several interactions match the request ";

/// What follows the request in the note on an ambiguous match.
pub const FIRST_ANSWERS: &'static str = "; the first loaded answers. ";

/// What stands before the header's name in the note.
pub const SEND_HEADER: &'static str = "Send the header '";

/// What stands after the header's name in the note.
pub const WITH_STATE: &'static str =
    "' with the provider state of the interaction that should answer.";

/// The advice where no header is configured.
pub const SET_HEADER_NAME: &'static str =
    "Configure a provider state header name to let clients choose.";

/// What a request is answered with: the response, and a note for the log
/// where the match was ambiguous or failed.
#[derive(Debug, PartialEq, Eq)]
pub struct Reply {
    pub response: HttpResponse,
    pub diagnostic: Option<String>,
}

/// The view of a `Reply`.
pub struct ReplyView {
    pub response: ResponseView,
    pub diagnostic: Option<Seq<char>>,
}

impl View for Reply {
    type V = ReplyView;

    open spec fn view(&self) -> ReplyView {
        ReplyView { response: self.response@, diagnostic: text_view(self.diagnostic) }
    }
}

/// What a handler is made of, as the contracts see it: the interactions in
/// load order, and the configuration.
pub struct HandlerView {
    pub interactions: Seq<InteractionView>,
    pub config: ConfigView,
}

impl HandlerView {
    /// For each interaction, in load order, whether it passes the
    /// provider-state filter.
    pub open spec fn passes(self) -> Seq<bool> {
        filter_flags(self.config.filter(), self.interactions)
    }
}

/// Whether the interaction at `i` is a candidate: it passes the filter,
/// the matcher reported on it, and the report is a match.
pub open spec fn is_candidate(passes: Seq<bool>, outcomes: Seq<OutcomeView>, i: int) -> bool {
    0 <= i < passes.len() && i < outcomes.len() && passes[i] && outcomes[i].matched
}

/// The candidates among the first `n` interactions, in load order.
pub open spec fn candidates_upto(
    interactions: Seq<InteractionView>,
    passes: Seq<bool>,
    outcomes: Seq<OutcomeView>,
    n: int,
) -> Seq<InteractionView>
    decreases n,
{
    if n <= 0 {
        Seq::empty()
    } else if n <= interactions.len() && is_candidate(passes, outcomes, n - 1) {
        candidates_upto(interactions, passes, outcomes, n - 1).push(interactions[n - 1])
    } else {
        candidates_upto(interactions, passes, outcomes, n - 1)
    }
}

/// The candidate set of a request: the interactions that pass the filter
/// and that the matcher reports as matching, in load order.
pub open spec fn candidates(handler: HandlerView, outcomes: Seq<OutcomeView>) -> Seq<
    InteractionView,
> {
    candidates_upto(
        handler.interactions,
        handler.passes(),
        outcomes,
        handler.interactions.len() as int,
    )
}

/// The candidate that `selection` stands for.
pub open spec fn chosen(candidates: Seq<InteractionView>, selection: Choice) -> Option<
    InteractionView,
> {
    match selection.position() {
        Some(k) => if 0 <= k < candidates.len() {
            Some(candidates[k])
        } else {
            None
        },
        None => None,
    }
}

/// The note on an ambiguous match: that the first loaded answers, and the
/// header that would settle it.
pub open spec fn ambiguity_note(request: RequestView, header_name: Option<Seq<char>>) -> Seq<
    char,
> {
    SEVERAL_MATCH@ + request.method + SPACE@ + request.path + FIRST_ANSWERS@ + match header_name {
        Some(name) => SEND_HEADER@ + name + WITH_STATE@,
        None => SET_HEADER_NAME@,
    }
}

/// The fallback response: status 500 and, as plain text, the near misses
/// with their reasons.
pub open spec fn fallback_response(
    request: RequestView,
    misses: Seq<NearMissView>,
) -> ResponseView {
    ResponseView {
        status: FALLBACK_STATUS,
        headers: seq![PairView { name: CONTENT_TYPE@, value: PLAIN_TEXT@ }],
        body: encode_utf8(fallback_text(request, misses)),
    }
}

/// What the handler answers to `request`, given the matcher's `outcomes`.
///
/// The candidates are selected among; the selected interaction's response
/// is replayed under the CORS policy; where nothing is selected a preflight
/// is answered if the policy says so, and anything else falls back.
pub open spec fn spec_handle(
    handler: HandlerView,
    request: RequestView,
    outcomes: Seq<OutcomeView>,
) -> ReplyView {
    let list = candidates(handler, outcomes);
    let selection = spec_select(list, request, handler.config.provider_state_header_name);
    match spec_build(
        chosen(list, selection),
        request,
        handler.config.auto_cors,
        handler.config.cors_referer,
    ) {
        Some(response) => ReplyView {
            response,
            diagnostic: if selection.is_ambiguous() {
                Some(ambiguity_note(request, handler.config.provider_state_header_name))
            } else {
                None
            },
        },
        None => ReplyView {
            response: fallback_response(
                request,
                near_misses(handler.interactions, handler.passes(), outcomes),
            ),
            diagnostic: Some(headline(request)),
        },
    }
}

/// The note on an ambiguous match for `request`.
pub fn note_ambiguity(request: &HttpRequest, header_name: &Option<String>) -> (r: String)
    ensures
        r@ == ambiguity_note(request@, text_view(*header_name)),
{
    let mut note = SEVERAL_MATCH.to_owned();
    note.append(request.method.as_str());
    note.append(SPACE);
    note.append(request.path.as_str());
    note.append(FIRST_ANSWERS);
    let ghost head = note@;
    match header_name {
        Some(name) => {
            note.append(SEND_HEADER);
            note.append(name.as_str());
            note.append(WITH_STATE);
            assert(note@ =~= head + (SEND_HEADER@ + name@ + WITH_STATE@));
        },
        None => {
            note.append(SET_HEADER_NAME);
        },
    }
    note
}

/// The fallback response to `request` with its near misses.
pub fn fall_back(request: &HttpRequest, misses: &Vec<NearMiss>) -> (r: HttpResponse)
    ensures
        r@ == fallback_response(request@, near_miss_views(misses@)),
{
    let text = render_fallback(request, misses);
    let mut headers: Vec<Pair> = Vec::new();
    headers.push(Pair::new(CONTENT_TYPE, PLAIN_TEXT));
    assert(pair_views(headers@) =~= seq![PairView { name: CONTENT_TYPE@, value: PLAIN_TEXT@ }]);
    HttpResponse { status: FALLBACK_STATUS, headers, body: text.as_str().as_bytes_vec() }
}

/// The engine: the interactions, fixed at start-up, the configuration, and
/// for each interaction whether it passes the provider-state filter.
pub struct ServerHandler {
    interactions: Vec<Interaction>,
    passes: Vec<bool>,
    config: ServerConfig,
}

impl View for ServerHandler {
    type V = HandlerView;

    closed spec fn view(&self) -> HandlerView {
        HandlerView { interactions: interaction_views(self.interactions@), config: self.config@ }
    }
}

/// Whether `reports` is what asking `matcher` gives: for each of
/// `interactions` that passes the filter a report that the matcher may
/// return of it for `request`, and for each other one the report of an
/// interaction that was not tried.
pub open spec fn asked<F: Fn(&HttpRequest, &Interaction) -> MatchOutcome>(
    matcher: F,
    request: &HttpRequest,
    interactions: Seq<Interaction>,
    passes: Seq<bool>,
    reports: Seq<MatchOutcome>,
) -> bool {
    &&& reports.len() == interactions.len()
    &&& forall|i: int|
        0 <= i < interactions.len() ==> if passes[i] {
            call_ensures(matcher, (request, &interactions[i]), #[trigger] reports[i])
        } else {
            reports[i]@ == not_tried()
        }
}

impl ServerHandler {
    #[verifier::type_invariant]
    spec fn flags_are_current(&self) -> bool {
        self.passes@ == filter_flags(self.config@.filter(), interaction_views(self.interactions@))
    }

    /// Sets the engine up over `interactions`, which stay in the order
    /// given. A filter pattern that is no regular expression is refused.
    pub fn new(interactions: Vec<Interaction>, config: ServerConfig) -> (r: Result<
        ServerHandler,
        String,
    >)
        ensures
            match r {
                Ok(handler) => {
                    &&& handler@ == (HandlerView {
                        interactions: interaction_views(interactions@),
                        config: config@,
                    })
                    &&& config@.provider_state_filter matches Some(p) ==> regex_compile_error(p)
                        is None
                },
                Err(message) => config@.provider_state_filter matches Some(p)
                    && regex_compile_error(p) matches Some(e) && message@
                    == invalid_pattern_message(p, e),
            },
    {
        match &config.provider_state_filter {
            Some(pattern) => match check_pattern(pattern.as_str()) {
                Err(message) => {
                    return Err(message);
                },
                Ok(_) => {},
            },
            None => {},
        }
        let spec = config.filter_spec();
        let passes = flags_for(&interactions, &spec);
        Ok(ServerHandler { interactions, passes, config })
    }

    /// The interactions, in load order, as they are stored.
    pub closed spec fn stored(&self) -> Seq<Interaction> {
        self.interactions@
    }

    /// The interactions, in load order.
    pub fn all(&self) -> (r: &Vec<Interaction>)
        ensures
            r@ == self.stored(),
            interaction_views(r@) == self@.interactions,
    {
        &self.interactions
    }

    /// The configuration.
    pub fn config(&self) -> (r: &ServerConfig)
        ensures
            r@ == self@.config,
    {
        &self.config
    }

    /// Whether the interaction at `index` passes the provider-state filter,
    /// so that the matcher is to be asked about it. `false` where there is
    /// no such interaction.
    pub fn passes_filter(&self, index: usize) -> (r: bool)
        ensures
            r == (index < self@.interactions.len() && self@.passes()[index as int]),
    {
        proof {
            use_type_invariant(self);
        }
        index < self.passes.len() && self.passes[index]
    }

    /// The number of interactions.
    pub fn len(&self) -> (r: usize)
        ensures
            r == self@.interactions.len(),
    {
        self.interactions.len()
    }

    /// The candidate set for the matcher's `outcomes`, in load order.
    pub fn candidates(&self, outcomes: &Vec<MatchOutcome>) -> (r: Vec<&Interaction>)
        ensures
            candidate_views(r@) == candidates(self@, outcome_views(outcomes@)),
    {
        proof {
            use_type_invariant(self);
        }
        let ghost iv = interaction_views(self.interactions@);
        let ghost ov = outcome_views(outcomes@);
        let mut list: Vec<&Interaction> = Vec::new();
        let mut i: usize = 0;
        while i < self.interactions.len()
            invariant
                i <= self.interactions.len(),
                self.passes@.len() == self.interactions@.len(),
                iv == interaction_views(self.interactions@),
                ov == outcome_views(outcomes@),
                candidate_views(list@) == candidates_upto(iv, self.passes@, ov, i as int),
            decreases self.interactions.len() - i,
        {
            if i < outcomes.len() && self.passes[i] && outcomes[i].matched {
                let ghost before = list@;
                list.push(&self.interactions[i]);
                assert(candidate_views(list@) =~= candidate_views(before).push(iv[i as int]));
            }
            i += 1;
        }
        list
    }

    /// Answers `request`, asking `matcher` about each interaction that
    /// passes the provider-state filter, in load order, and about no other.
    /// The reply is the one that `handle` gives for the matcher's reports.
    pub fn serve<F: Fn(&HttpRequest, &Interaction) -> MatchOutcome>(
        &self,
        request: &HttpRequest,
        matcher: F,
    ) -> (r: Reply)
        requires
            forall|i: int|
                0 <= i < self.stored().len() ==> call_requires(
                    matcher,
                    (request, &#[trigger] self.stored()[i]),
                ),
        ensures
            interaction_views(self.stored()) == self@.interactions,
            exists|reports: Seq<MatchOutcome>|
                #![auto]
                asked(matcher, request, self.stored(), self@.passes(), reports) && r@
                    == spec_handle(self@, request@, outcome_views(reports)),
    {
        proof {
            use_type_invariant(self);
            assert forall|k: int| 0 <= k < self.interactions@.len() implies call_requires(
                matcher,
                (request, &#[trigger] self.interactions@[k]),
            ) by {
                assert(self.stored()[k] == self.interactions@[k]);
            }
        }
        let mut reports: Vec<MatchOutcome> = Vec::new();
        let mut i: usize = 0;
        while i < self.interactions.len()
            invariant
                i <= self.interactions.len(),
                reports.len() == i,
                self.passes@.len() == self.interactions@.len(),
                forall|k: int|
                    0 <= k < self.interactions@.len() ==> call_requires(
                        matcher,
                        (request, &#[trigger] self.interactions@[k]),
                    ),
                forall|k: int|
                    0 <= k < i ==> if self.passes@[k] {
                        call_ensures(
                            matcher,
                            (request, &self.interactions@[k]),
                            #[trigger] reports@[k],
                        )
                    } else {
                        reports@[k]@ == not_tried()
                    },
            decreases self.interactions.len() - i,
        {
            let report = if self.passes[i] {
                matcher(request, &self.interactions[i])
            } else {
                MatchOutcome::skipped()
            };
            reports.push(report);
            i += 1;
        }
        let reply = self.handle(request, &reports);
        proof {
            assert(asked(matcher, request, self.stored(), self@.passes(), reports@));
        }
        reply
    }

    /// Answers a request that could not be put to the matcher at all, as one
    /// that matches nothing.
    pub fn handle_unmatched(&self, request: &HttpRequest) -> (r: Reply)
        ensures
            r@ == spec_handle(self@, request@, Seq::empty()),
    {
        let outcomes: Vec<MatchOutcome> = Vec::new();
        assert(outcome_views(outcomes@) =~= Seq::empty());
        self.handle(request, &outcomes)
    }

    /// Answers `request`. `outcomes` holds what the matcher reports of each
    /// interaction, by position in load order; an interaction without a
    /// report counts as not tried. There is always exactly one reply, and
    /// it depends on nothing but the handler, the request and the reports.
    pub fn handle(&self, request: &HttpRequest, outcomes: &Vec<MatchOutcome>) -> (r: Reply)
        ensures
            r@ == spec_handle(self@, request@, outcome_views(outcomes@)),
    {
        proof {
            use_type_invariant(self);
        }
        let list = self.candidates(outcomes);
        let selection = select(&list, request, &self.config.provider_state_header_name);
        let selected: Option<&Interaction> = match selection.position() {
            Some(k) => Some(list[k]),
            None => None,
        };
        match build_response(selected, request, self.config.auto_cors, self.config.cors_referer) {
            Some(response) => {
                let diagnostic = if selection.is_ambiguous() {
                    Some(note_ambiguity(request, &self.config.provider_state_header_name))
                } else {
                    None
                };
                Reply { response, diagnostic }
            },
            None => {
                let misses = collect_near_misses(&self.interactions, &self.passes, outcomes);
                Reply {
                    response: fall_back(request, &misses),
                    diagnostic: Some(headline_for(request)),
                }
            },
        }
    }
}

} // verus!
