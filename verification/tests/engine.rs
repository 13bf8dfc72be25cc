use pact_stub_server::config::ServerConfig;
use pact_stub_server::exchange::Step;
use pact_stub_server::handler::ServerHandler;
use pact_stub_server::model::{HttpRequest, HttpResponse, Interaction, MatchOutcome, Pair};

fn request(method: &str, path: &str, headers: Vec<Pair>) -> HttpRequest {
    HttpRequest {
        method: method.to_string(),
        path: path.to_string(),
        query: vec![],
        headers,
        body: vec![],
    }
}

fn interaction(label: &str, state: Option<&str>, status: u16, body: &str) -> Interaction {
    Interaction {
        label: label.to_string(),
        provider_state: state.map(|s| s.to_string()),
        request: request("GET", "/orders", vec![]),
        response: HttpResponse {
            status,
            headers: vec![Pair::new("Content-Type", "application/json")],
            body: body.as_bytes().to_vec(),
        },
    }
}

fn matched() -> MatchOutcome {
    MatchOutcome { matched: true, mismatches: vec![] }
}

fn mismatch(reasons: &[&str]) -> MatchOutcome {
    MatchOutcome { matched: false, mismatches: reasons.iter().map(|r| r.to_string()).collect() }
}

fn config() -> ServerConfig {
    ServerConfig::new()
}

fn with_header(name: &str) -> ServerConfig {
    ServerConfig { provider_state_header_name: Some(name.to_string()), ..ServerConfig::new() }
}

fn with_filter(pattern: &str, empty: bool) -> ServerConfig {
    ServerConfig {
        provider_state_filter: Some(pattern.to_string()),
        empty_provider_state: empty,
        ..ServerConfig::new()
    }
}

fn cors(referer: bool) -> ServerConfig {
    ServerConfig { auto_cors: true, cors_referer: referer, ..ServerConfig::new() }
}

fn text(body: &[u8]) -> String {
    String::from_utf8(body.to_vec()).unwrap()
}

#[test]
fn new_config_has_every_option_off() {
    let c = ServerConfig::new();
    assert!(!c.auto_cors);
    assert!(!c.cors_referer);
    assert!(!c.empty_provider_state);
    assert_eq!(c.provider_state_filter, None);
    assert_eq!(c.provider_state_header_name, None);
}

#[test]
fn store_keeps_the_load_order() {
    let list = vec![interaction("a", None, 200, "1"), interaction("b", Some("s"), 201, "2")];
    let handler = ServerHandler::new(list.clone(), config()).unwrap();
    assert_eq!(handler.len(), 2);
    assert_eq!(handler.all(), &list);
    assert_eq!(handler.config(), &config());
}

#[test]
fn single_match_replays_the_recorded_response() {
    let handler = ServerHandler::new(vec![interaction("a", None, 201, "{}")], config()).unwrap();
    let reply = handler.handle(&request("GET", "/orders", vec![]), &vec![matched()]);
    assert_eq!(reply.response.status, 201);
    assert_eq!(reply.response.headers, vec![Pair::new("Content-Type", "application/json")]);
    assert_eq!(reply.response.body, b"{}".to_vec());
    assert_eq!(reply.diagnostic, None);
}

#[test]
fn handling_leaves_the_store_as_it_was() {
    let list = vec![interaction("a", None, 201, "{}")];
    let handler = ServerHandler::new(list.clone(), cors(false)).unwrap();
    let reply = handler.handle(&request("GET", "/orders", vec![]), &vec![matched()]);
    assert_eq!(reply.response.headers.len(), 2);
    assert_eq!(handler.all(), &list);
}

#[test]
fn empty_store_falls_back() {
    let handler = ServerHandler::new(vec![], config()).unwrap();
    let reply = handler.handle(&request("GET", "/", vec![]), &vec![]);
    assert_eq!(reply.response.status, 500);
    assert_eq!(text(&reply.response.body), "No interaction matched the request GET /\n");
}

#[test]
fn no_match_falls_back_with_reasons() {
    let handler = ServerHandler::new(
        vec![interaction("first", None, 200, "1"), interaction("second", None, 200, "2")],
        config(),
    )
    .unwrap();
    let reply = handler.handle(
        &request("POST", "/orders", vec![]),
        &vec![mismatch(&["expected GET but was POST", "expected no body"]), mismatch(&[])],
    );
    assert_eq!(reply.response.status, 500);
    assert_eq!(
        reply.response.headers,
        vec![Pair::new("Content-Type", "text/plain; charset=utf-8")]
    );
    assert_eq!(
        text(&reply.response.body),
        "No interaction matched the request POST /orders\n  first\n    - expected GET but was POST\n    - expected no body\n  second\n    - the request does not match\n"
    );
    assert_eq!(
        reply.diagnostic,
        Some("No interaction matched the request POST /orders".to_string())
    );
}

#[test]
fn fallback_text_is_encoded_as_utf8() {
    let handler = ServerHandler::new(vec![interaction("caf\u{e9}", None, 200, "1")], config())
        .unwrap();
    let reply = handler.handle(&request("GET", "/\u{20ac}", vec![]), &vec![mismatch(&["\u{1f600}"])]);
    assert_eq!(
        reply.response.body,
        "No interaction matched the request GET /\u{20ac}\n  caf\u{e9}\n    - \u{1f600}\n"
            .as_bytes()
            .to_vec()
    );
}

#[test]
fn interaction_without_a_report_is_not_tried() {
    let handler = ServerHandler::new(
        vec![interaction("first", None, 200, "1"), interaction("second", None, 200, "2")],
        config(),
    )
    .unwrap();
    let reply = handler.handle(&request("GET", "/x", vec![]), &vec![mismatch(&["path"])]);
    assert_eq!(
        text(&reply.response.body),
        "No interaction matched the request GET /x\n  first\n    - path\n"
    );
    let reply = handler.handle(&request("GET", "/x", vec![]), &vec![mismatch(&["path"]), matched(), matched()]);
    assert_eq!(reply.response.body, b"2".to_vec());
}

#[test]
fn unmatched_request_falls_back() {
    let handler = ServerHandler::new(vec![interaction("first", None, 200, "1")], config()).unwrap();
    let reply = handler.handle_unmatched(&request("BREW", "/pot", vec![]));
    assert_eq!(reply.response.status, 500);
    assert_eq!(text(&reply.response.body), "No interaction matched the request BREW /pot\n");
}

#[test]
fn repeated_calls_give_identical_replies() {
    let handler = ServerHandler::new(
        vec![interaction("a", Some("A"), 200, "a"), interaction("b", Some("B"), 200, "b")],
        ServerConfig {
            auto_cors: true,
            cors_referer: true,
            provider_state_header_name: Some("X-State".to_string()),
            ..ServerConfig::new()
        },
    )
    .unwrap();
    let req = request("GET", "/orders", vec![Pair::new("Referer", "http://x.test")]);
    let outcomes = vec![matched(), matched()];
    let first = handler.handle(&req, &outcomes);
    let second = handler.handle(&req, &outcomes);
    assert_eq!(first, second);
    let outcomes = vec![mismatch(&["a"]), mismatch(&["b"])];
    assert_eq!(handler.handle(&req, &outcomes), handler.handle(&req, &outcomes));
}

#[test]
fn filter_without_pattern_lets_everything_pass() {
    let handler = ServerHandler::new(
        vec![interaction("a", Some("A"), 200, "a"), interaction("b", None, 200, "b")],
        config(),
    )
    .unwrap();
    assert!(handler.passes_filter(0));
    assert!(handler.passes_filter(1));
    assert!(!handler.passes_filter(2));
}

#[test]
fn filter_matches_anywhere_in_the_state() {
    let handler = ServerHandler::new(
        vec![
            interaction("a", Some("the order is paid"), 200, "a"),
            interaction("b", Some("the order is open"), 200, "b"),
            interaction("c", None, 200, "c"),
        ],
        with_filter("pa.d", false),
    )
    .unwrap();
    assert!(handler.passes_filter(0));
    assert!(!handler.passes_filter(1));
    assert!(!handler.passes_filter(2));
    let reply =
        handler.handle(&request("GET", "/orders", vec![]), &vec![matched(), matched(), matched()]);
    assert_eq!(reply.response.body, b"a".to_vec());
    assert_eq!(reply.diagnostic, None);
}

#[test]
fn filter_keeps_stateless_interactions_only_on_request() {
    let list = vec![interaction("a", Some("paid"), 200, "a"), interaction("c", None, 200, "c")];
    let strict = ServerHandler::new(list.clone(), with_filter("open", false)).unwrap();
    assert!(!strict.passes_filter(0));
    assert!(!strict.passes_filter(1));
    let lenient = ServerHandler::new(list, with_filter("open", true)).unwrap();
    assert!(!lenient.passes_filter(0));
    assert!(lenient.passes_filter(1));
    let reply = lenient.handle(&request("GET", "/orders", vec![]), &vec![matched(), matched()]);
    assert_eq!(reply.response.body, b"c".to_vec());
}

#[test]
fn empty_provider_state_alone_changes_nothing() {
    let list = vec![interaction("a", Some("paid"), 200, "a"), interaction("c", None, 200, "c")];
    let handler = ServerHandler::new(
        list,
        ServerConfig { empty_provider_state: true, ..ServerConfig::new() },
    )
    .unwrap();
    assert!(handler.passes_filter(0));
    assert!(handler.passes_filter(1));
}

#[test]
fn filter_that_matches_nothing_always_falls_back() {
    let handler = ServerHandler::new(
        vec![
            interaction("a", Some("paid"), 200, "a"),
            interaction("b", Some("open"), 200, "b"),
            interaction("c", None, 200, "c"),
        ],
        with_filter("shipped", false),
    )
    .unwrap();
    for (method, path) in [("GET", "/orders"), ("POST", "/"), ("OPTIONS", "/orders")] {
        let reply =
            handler.handle(&request(method, path, vec![]), &vec![matched(), matched(), matched()]);
        assert_eq!(reply.response.status, 500);
        assert_eq!(
            text(&reply.response.body),
            format!("No interaction matched the request {} {}\n", method, path)
        );
    }
}

#[test]
fn preflight_is_answered_even_where_the_filter_leaves_nothing() {
    let handler = ServerHandler::new(
        vec![interaction("a", Some("paid"), 200, "a")],
        ServerConfig {
            auto_cors: true,
            provider_state_filter: Some("shipped".to_string()),
            ..ServerConfig::new()
        },
    )
    .unwrap();
    assert!(!handler.passes_filter(0));
    let reply = handler.handle(&request("OPTIONS", "/orders", vec![]), &vec![matched()]);
    assert_eq!(reply.response.status, 200);
    let reply = handler.handle(&request("GET", "/orders", vec![]), &vec![matched()]);
    assert_eq!(reply.response.status, 500);
}

#[test]
fn filtered_out_interaction_is_no_near_miss() {
    let handler = ServerHandler::new(
        vec![interaction("a", Some("paid"), 200, "a"), interaction("b", Some("open"), 200, "b")],
        with_filter("^open$", false),
    )
    .unwrap();
    let reply = handler.handle(
        &request("GET", "/orders", vec![]),
        &vec![mismatch(&["never shown"]), mismatch(&["wrong path"])],
    );
    assert_eq!(
        text(&reply.response.body),
        "No interaction matched the request GET /orders\n  b\n    - wrong path\n"
    );
}

#[test]
fn invalid_filter_pattern_is_refused() {
    let reason = regex::Regex::new("(").unwrap_err().to_string();
    let result = ServerHandler::new(vec![interaction("a", None, 200, "a")], with_filter("(", true));
    match result {
        Ok(_) => panic!("an unclosed group is no regular expression"),
        Err(message) => {
            assert_eq!(message, format!("'(' is not a valid regular expression: {}", reason))
        }
    }
}

#[test]
fn disambiguation_header_selects_state() {
    let handler = ServerHandler::new(
        vec![interaction("a", Some("A"), 200, "from A"), interaction("b", Some("B"), 202, "from B")],
        with_header("X-Provider-State"),
    )
    .unwrap();
    let reply = handler.handle(
        &request("GET", "/orders", vec![Pair::new("X-Provider-State", "B")]),
        &vec![matched(), matched()],
    );
    assert_eq!(reply.response.status, 202);
    assert_eq!(reply.response.body, b"from B".to_vec());
    assert_eq!(reply.diagnostic, None);
}

#[test]
fn disambiguation_header_wins_in_either_load_order() {
    let a = interaction("a", Some("A"), 200, "from A");
    let b = interaction("b", Some("B"), 200, "from B");
    let req = request("GET", "/orders", vec![Pair::new("X-Provider-State", "B")]);
    let outcomes = vec![matched(), matched()];
    let one = ServerHandler::new(vec![a.clone(), b.clone()], with_header("X-Provider-State")).unwrap();
    let other = ServerHandler::new(vec![b, a], with_header("X-Provider-State")).unwrap();
    assert_eq!(one.handle(&req, &outcomes).response, other.handle(&req, &outcomes).response);
    assert_eq!(one.handle(&req, &outcomes).response.body, b"from B".to_vec());
    let plain = request("GET", "/orders", vec![]);
    assert_eq!(one.handle(&plain, &outcomes).response.body, b"from A".to_vec());
    assert_eq!(other.handle(&plain, &outcomes).response.body, b"from B".to_vec());
}

#[test]
fn disambiguation_header_name_ignores_case() {
    let handler = ServerHandler::new(
        vec![interaction("a", Some("A"), 200, "from A"), interaction("b", Some("B"), 200, "from B")],
        with_header("X-Provider-State"),
    )
    .unwrap();
    let reply = handler.handle(
        &request("GET", "/orders", vec![Pair::new("x-provider-state", "B")]),
        &vec![matched(), matched()],
    );
    assert_eq!(reply.response.body, b"from B".to_vec());
}

#[test]
fn disambiguation_header_value_is_compared_exactly() {
    let handler = ServerHandler::new(
        vec![interaction("a", Some("A"), 200, "from A"), interaction("b", Some("B"), 200, "from B")],
        with_header("X-Provider-State"),
    )
    .unwrap();
    let reply = handler.handle(
        &request("GET", "/orders", vec![Pair::new("X-Provider-State", "b")]),
        &vec![matched(), matched()],
    );
    assert_eq!(reply.response.body, b"from A".to_vec());
    assert!(reply.diagnostic.is_some());
}

#[test]
fn ambiguous_match_takes_the_first_loaded_and_says_so() {
    let list =
        vec![interaction("a", Some("A"), 200, "from A"), interaction("b", Some("B"), 200, "from B")];
    let handler = ServerHandler::new(list.clone(), with_header("X-State")).unwrap();
    let reply = handler.handle(&request("GET", "/orders", vec![]), &vec![matched(), matched()]);
    assert_eq!(reply.response.body, b"from A".to_vec());
    assert_eq!(
        reply.diagnostic,
        Some(
            "Several interactions match the request GET /orders; the first loaded answers. Send the header 'X-State' with the provider state of the interaction that should answer."
                .to_string()
        )
    );
    let handler = ServerHandler::new(list, config()).unwrap();
    let reply = handler.handle(&request("GET", "/orders", vec![]), &vec![matched(), matched()]);
    assert_eq!(reply.response.body, b"from A".to_vec());
    assert_eq!(
        reply.diagnostic,
        Some(
            "Several interactions match the request GET /orders; the first loaded answers. Configure a provider state header name to let clients choose."
                .to_string()
        )
    );
}

#[test]
fn header_that_names_two_candidates_settles_nothing() {
    let handler = ServerHandler::new(
        vec![
            interaction("a", Some("A"), 200, "first"),
            interaction("b", Some("B"), 200, "second"),
            interaction("c", Some("B"), 200, "third"),
        ],
        with_header("X-State"),
    )
    .unwrap();
    let req = request("GET", "/orders", vec![Pair::new("X-State", "B")]);
    let reply = handler.handle(&req, &vec![matched(), matched(), matched()]);
    assert_eq!(reply.response.body, b"first".to_vec());
    assert!(reply.diagnostic.is_some());
    let reply = handler.handle(&req, &vec![matched(), matched(), mismatch(&["x"])]);
    assert_eq!(reply.response.body, b"second".to_vec());
    assert_eq!(reply.diagnostic, None);
}

#[test]
fn header_that_names_no_candidate_settles_nothing() {
    let handler = ServerHandler::new(
        vec![interaction("a", None, 200, "first"), interaction("b", Some("B"), 200, "second")],
        with_header("X-State"),
    )
    .unwrap();
    let req = request("GET", "/orders", vec![Pair::new("X-State", "C")]);
    let reply = handler.handle(&req, &vec![matched(), matched()]);
    assert_eq!(reply.response.body, b"first".to_vec());
    assert!(reply.diagnostic.is_some());
}

#[test]
fn single_candidate_answers_whatever_the_header_says() {
    let handler = ServerHandler::new(
        vec![interaction("a", Some("A"), 200, "first"), interaction("b", Some("B"), 200, "second")],
        with_header("X-State"),
    )
    .unwrap();
    let req = request("GET", "/orders", vec![Pair::new("X-State", "B")]);
    let reply = handler.handle(&req, &vec![matched(), mismatch(&["x"])]);
    assert_eq!(reply.response.body, b"first".to_vec());
    assert_eq!(reply.diagnostic, None);
}

#[test]
fn preflight_is_answered_where_no_interaction_answers() {
    let handler = ServerHandler::new(vec![interaction("a", None, 200, "a")], cors(false)).unwrap();
    let reply = handler.handle(&request("OPTIONS", "/orders", vec![]), &vec![mismatch(&["method"])]);
    assert_eq!(reply.response.status, 200);
    assert_eq!(
        reply.response.headers,
        vec![
            Pair::new("Access-Control-Allow-Origin", "*"),
            Pair::new(
                "Access-Control-Allow-Methods",
                "GET, HEAD, POST, PUT, DELETE, CONNECT, OPTIONS, TRACE, PATCH"
            ),
            Pair::new("Access-Control-Allow-Headers", "*"),
        ]
    );
    assert_eq!(reply.response.body, Vec::<u8>::new());
    assert_eq!(reply.diagnostic, None);
    let reply = handler.handle(&request("options", "/orders", vec![]), &vec![mismatch(&["method"])]);
    assert_eq!(reply.response.status, 200);
}

#[test]
fn preflight_allows_the_referer_on_request() {
    let handler = ServerHandler::new(vec![interaction("a", None, 200, "a")], cors(true)).unwrap();
    let reply = handler.handle(
        &request("OPTIONS", "/orders", vec![Pair::new("Referer", "http://x.test")]),
        &vec![mismatch(&["method"])],
    );
    assert_eq!(reply.response.status, 200);
    assert_eq!(reply.response.headers[0], Pair::new("Access-Control-Allow-Origin", "http://x.test"));
    let reply = handler.handle(&request("OPTIONS", "/orders", vec![]), &vec![mismatch(&["method"])]);
    assert_eq!(reply.response.headers[0], Pair::new("Access-Control-Allow-Origin", "*"));
}

#[test]
fn preflight_is_not_answered_without_auto_cors() {
    let handler = ServerHandler::new(vec![interaction("a", None, 200, "a")], config()).unwrap();
    let reply = handler.handle(&request("OPTIONS", "/orders", vec![]), &vec![mismatch(&["method"])]);
    assert_eq!(reply.response.status, 500);
    let handler = ServerHandler::new(
        vec![interaction("a", None, 200, "a")],
        ServerConfig { cors_referer: true, ..ServerConfig::new() },
    )
    .unwrap();
    let reply = handler.handle(&request("OPTIONS", "/orders", vec![]), &vec![mismatch(&["method"])]);
    assert_eq!(reply.response.status, 500);
}

#[test]
fn recorded_preflight_answers_before_the_synthesized_one() {
    let handler = ServerHandler::new(vec![interaction("a", None, 204, "")], cors(false)).unwrap();
    let reply = handler.handle(&request("OPTIONS", "/orders", vec![]), &vec![matched()]);
    assert_eq!(reply.response.status, 204);
    assert_eq!(
        reply.response.headers,
        vec![
            Pair::new("Content-Type", "application/json"),
            Pair::new("Access-Control-Allow-Origin", "*"),
        ]
    );
}

#[test]
fn allowed_origin_is_added_to_a_recorded_response() {
    let handler = ServerHandler::new(vec![interaction("a", None, 200, "a")], cors(true)).unwrap();
    let reply = handler.handle(
        &request("GET", "/orders", vec![Pair::new("referer", "http://x.test")]),
        &vec![matched()],
    );
    assert_eq!(
        reply.response.headers,
        vec![
            Pair::new("Content-Type", "application/json"),
            Pair::new("Access-Control-Allow-Origin", "http://x.test"),
        ]
    );
    assert_eq!(reply.response.body, b"a".to_vec());
}

#[test]
fn allowed_origin_of_a_recorded_response_stays() {
    let mut recorded = interaction("a", None, 200, "a");
    recorded.response.headers.push(Pair::new("access-control-allow-origin", "http://own.test"));
    let handler = ServerHandler::new(vec![recorded.clone()], cors(false)).unwrap();
    let reply = handler.handle(&request("GET", "/orders", vec![]), &vec![matched()]);
    assert_eq!(reply.response, recorded.response);
}

#[test]
fn fallback_carries_no_allowed_origin() {
    let handler = ServerHandler::new(vec![interaction("a", None, 200, "a")], cors(false)).unwrap();
    let reply = handler.handle(&request("GET", "/other", vec![]), &vec![mismatch(&["path"])]);
    assert_eq!(reply.response.status, 500);
    assert_eq!(
        reply.response.headers,
        vec![Pair::new("Content-Type", "text/plain; charset=utf-8")]
    );
}

#[test]
fn exchange_asks_only_about_interactions_that_pass() {
    let handler = ServerHandler::new(
        vec![
            interaction("a", Some("paid"), 200, "a"),
            interaction("b", Some("open"), 200, "b"),
            interaction("c", None, 200, "c"),
            interaction("d", Some("open again"), 200, "d"),
        ],
        with_filter("open", false),
    )
    .unwrap();
    let mut exchange = handler.begin();
    assert_eq!(handler.next_step(&mut exchange), Step::Ask(1));
    handler.report(&mut exchange, mismatch(&["wrong body"]));
    assert_eq!(handler.next_step(&mut exchange), Step::Ask(3));
    handler.report(&mut exchange, matched());
    assert_eq!(handler.next_step(&mut exchange), Step::Resolve);
    assert_eq!(handler.next_step(&mut exchange), Step::Resolve);
    let reply = handler.finish(&request("GET", "/orders", vec![]), exchange);
    assert_eq!(reply.response.body, b"d".to_vec());
    assert_eq!(reply.diagnostic, None);
}

#[test]
fn exchange_without_reports_falls_back() {
    let handler = ServerHandler::new(vec![interaction("a", None, 200, "a")], config()).unwrap();
    let exchange = handler.begin();
    let reply = handler.finish(&request("GET", "/orders", vec![]), exchange);
    assert_eq!(reply.response.status, 500);
    let mut exchange = handler.begin();
    assert_eq!(handler.next_step(&mut exchange), Step::Ask(0));
    handler.report(&mut exchange, mismatch(&[]));
    assert_eq!(handler.next_step(&mut exchange), Step::Resolve);
    let reply = handler.finish(&request("GET", "/orders", vec![]), exchange);
    assert_eq!(
        text(&reply.response.body),
        "No interaction matched the request GET /orders\n  a\n    - the request does not match\n"
    );
}

#[test]
fn skipped_report_is_a_mismatch_without_reasons() {
    assert_eq!(MatchOutcome::skipped(), MatchOutcome { matched: false, mismatches: vec![] });
}
