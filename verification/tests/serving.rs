use std::cell::RefCell;

use pact_stub_server::config::ServerConfig;
use pact_stub_server::handler::ServerHandler;
use pact_stub_server::model::{HttpRequest, HttpResponse, Interaction, MatchOutcome, Pair};

fn request(method: &str, path: &str, headers: Vec<Pair>) -> HttpRequest {
    HttpRequest {
        method: method.to_string(),
        path: path.to_string(),
        query: vec![],
        headers,
        body: vec![],
    }
}

fn recorded(label: &str, state: Option<&str>, method: &str, path: &str, body: &str) -> Interaction {
    Interaction {
        label: label.to_string(),
        provider_state: state.map(|s| s.to_string()),
        request: request(method, path, vec![]),
        response: HttpResponse { status: 200, headers: vec![], body: body.as_bytes().to_vec() },
    }
}

fn by_method_and_path(actual: &HttpRequest, interaction: &Interaction) -> MatchOutcome {
    let mut mismatches = vec![];
    if actual.method != interaction.request.method {
        mismatches.push(format!(
            "expected method {} but was {}",
            interaction.request.method, actual.method
        ));
    }
    if actual.path != interaction.request.path {
        mismatches.push(format!("expected path {} but was {}", interaction.request.path, actual.path));
    }
    MatchOutcome { matched: mismatches.is_empty(), mismatches }
}

fn orders() -> Vec<Interaction> {
    vec![
        recorded("orders of A", Some("A"), "GET", "/orders", "from A"),
        recorded("orders of B", Some("B"), "GET", "/orders", "from B"),
        recorded("new order", None, "POST", "/orders", "created"),
    ]
}

fn config(header: Option<&str>) -> ServerConfig {
    ServerConfig { provider_state_header_name: header.map(String::from), ..ServerConfig::new() }
}

#[test]
fn serve_replays_the_one_match() {
    let handler = ServerHandler::new(orders(), config(None)).unwrap();
    let reply = handler.serve(&request("POST", "/orders", vec![]), by_method_and_path);
    assert_eq!(reply.response.status, 200);
    assert_eq!(reply.response.body, b"created".to_vec());
    assert_eq!(reply.diagnostic, None);
}

#[test]
fn serve_resolves_by_the_header() {
    let handler = ServerHandler::new(orders(), config(Some("X-State"))).unwrap();
    let reply = handler.serve(
        &request("GET", "/orders", vec![Pair::new("X-State", "B")]),
        by_method_and_path,
    );
    assert_eq!(reply.response.body, b"from B".to_vec());
    let mut swapped = orders();
    swapped.swap(0, 1);
    let handler = ServerHandler::new(swapped, config(Some("X-State"))).unwrap();
    let reply = handler.serve(
        &request("GET", "/orders", vec![Pair::new("X-State", "B")]),
        by_method_and_path,
    );
    assert_eq!(reply.response.body, b"from B".to_vec());
    let reply = handler.serve(&request("GET", "/orders", vec![]), by_method_and_path);
    assert_eq!(reply.response.body, b"from B".to_vec());
    assert!(reply.diagnostic.is_some());
}

#[test]
fn serve_reports_every_near_miss() {
    let handler = ServerHandler::new(orders(), config(None)).unwrap();
    let reply = handler.serve(&request("DELETE", "/orders", vec![]), by_method_and_path);
    assert_eq!(reply.response.status, 500);
    assert_eq!(
        String::from_utf8(reply.response.body).unwrap(),
        "No interaction matched the request DELETE /orders\n  orders of A\n    - expected method GET but was DELETE\n  orders of B\n    - expected method GET but was DELETE\n  new order\n    - expected method POST but was DELETE\n"
    );
}

#[test]
fn serve_answers_a_preflight_with_the_referer() {
    let handler = ServerHandler::new(
        orders(),
        ServerConfig { auto_cors: true, cors_referer: true, ..ServerConfig::new() },
    )
    .unwrap();
    let reply = handler.serve(
        &request("OPTIONS", "/orders", vec![Pair::new("Referer", "http://x.test")]),
        by_method_and_path,
    );
    assert_eq!(reply.response.status, 200);
    assert_eq!(reply.response.headers[0], Pair::new("Access-Control-Allow-Origin", "http://x.test"));
}

#[test]
fn serve_asks_only_about_interactions_that_pass_the_filter() {
    let handler = ServerHandler::new(
        orders(),
        ServerConfig { provider_state_filter: Some("^B$".to_string()), ..ServerConfig::new() },
    )
    .unwrap();
    let asked = RefCell::new(vec![]);
    let reply = handler.serve(&request("GET", "/orders", vec![]), |actual, interaction| {
        asked.borrow_mut().push(interaction.label.clone());
        by_method_and_path(actual, interaction)
    });
    assert_eq!(reply.response.body, b"from B".to_vec());
    assert_eq!(reply.diagnostic, None);
    assert_eq!(asked.into_inner(), vec!["orders of B".to_string()]);
}

#[test]
fn serve_with_a_filter_that_matches_nothing_falls_back() {
    let handler = ServerHandler::new(
        orders(),
        ServerConfig { provider_state_filter: Some("C".to_string()), ..ServerConfig::new() },
    )
    .unwrap();
    let reply = handler.serve(&request("GET", "/orders", vec![]), by_method_and_path);
    assert_eq!(reply.response.status, 500);
    assert_eq!(
        String::from_utf8(reply.response.body).unwrap(),
        "No interaction matched the request GET /orders\n"
    );
}

#[test]
fn serve_gives_the_reply_of_handle() {
    let handler = ServerHandler::new(orders(), config(Some("X-State"))).unwrap();
    let req = request("GET", "/orders", vec![Pair::new("X-State", "A")]);
    let reports = handler.all().iter().map(|i| by_method_and_path(&req, i)).collect::<Vec<_>>();
    assert_eq!(handler.serve(&req, by_method_and_path), handler.handle(&req, &reports));
    assert_eq!(handler.serve(&req, by_method_and_path), handler.serve(&req, by_method_and_path));
}
