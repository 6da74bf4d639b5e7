use statekv::config::parse_port;
use statekv::config::Config;
use statekv::memstore::MemStore;
use statekv::selector::Backend;
use statekv::selector::Selector;
use statekv::selector::SelectorPhase;
use statekv::server::delete_state;
use statekv::server::get_state;
use statekv::server::health_response;
use statekv::server::interpret_state_payload;
use statekv::server::save_state;
use statekv::server::AppState;
use statekv::server::StateClient;
use statekv::telemetry::effective_endpoint;
use statekv::telemetry::ensure_http;

fn mem_app() -> AppState<MemStore> {
    AppState { state_client: MemStore::new(), store_name: String::from("statestore") }
}

fn ok<T>(r: Result<T, statekv::server::BackendError>) -> T {
    match r {
        Ok(v) => v,
        Err(_) => panic!("backend failure"),
    }
}

#[test]
fn round_trip_save_then_get() {
    let mut store = MemStore::new();
    ok(store.save_state("statestore", "alpha", b"value one".to_vec()));
    assert_eq!(ok(store.get_state("statestore", "alpha")), Some(b"value one".to_vec()));
}

#[test]
fn round_trip_overwrites_whole_value() {
    let mut store = MemStore::new();
    ok(store.save_state("statestore", "k", b"first".to_vec()));
    ok(store.save_state("statestore", "k", b"second, longer".to_vec()));
    assert_eq!(ok(store.get_state("statestore", "k")), Some(b"second, longer".to_vec()));
}

#[test]
fn empty_value_is_stored_not_absent() {
    let mut store = MemStore::new();
    ok(store.save_state("statestore", "empty", Vec::new()));
    assert_eq!(ok(store.get_state("statestore", "empty")), Some(Vec::new()));
}

#[test]
fn delete_then_get_is_absent() {
    let mut store = MemStore::new();
    ok(store.save_state("statestore", "gone", b"soon".to_vec()));
    ok(store.delete_state("statestore", "gone"));
    assert_eq!(ok(store.get_state("statestore", "gone")), None);
}

#[test]
fn delete_of_absent_key_succeeds() {
    let mut store = MemStore::new();
    ok(store.delete_state("statestore", "never-existed"));
    assert_eq!(ok(store.get_state("statestore", "never-existed")), None);
}

#[test]
fn delete_is_idempotent() {
    let mut store = MemStore::new();
    ok(store.save_state("statestore", "twice", b"x".to_vec()));
    ok(store.delete_state("statestore", "twice"));
    ok(store.delete_state("statestore", "twice"));
    assert_eq!(ok(store.get_state("statestore", "twice")), None);
}

#[test]
fn keys_are_independent() {
    let mut store = MemStore::new();
    ok(store.save_state("statestore", "a", b"1".to_vec()));
    ok(store.save_state("statestore", "b", b"2".to_vec()));
    ok(store.delete_state("statestore", "a"));
    assert_eq!(ok(store.get_state("statestore", "a")), None);
    assert_eq!(ok(store.get_state("statestore", "b")), Some(b"2".to_vec()));
}

#[test]
fn empty_key_rejected_on_every_endpoint() {
    let mut app = mem_app();
    let r = get_state(&app, "");
    assert_eq!(r.status, 400);
    assert_eq!(r.body, b"missing key".to_vec());
    let r = save_state(&mut app, "", b"v".to_vec());
    assert_eq!(r.status, 400);
    assert_eq!(r.body, b"missing key".to_vec());
    let r = delete_state(&mut app, "");
    assert_eq!(r.status, 400);
    assert_eq!(r.body, b"missing key".to_vec());
    // The backend was never touched: nothing was stored anywhere.
    let r = get_state(&app, "any");
    assert_eq!(r.status, 404);
}

#[test]
fn crud_scenario_over_http_surface() {
    let mut app = mem_app();
    let r = save_state(&mut app, "foo", b"bar".to_vec());
    assert_eq!(r.status, 204);
    let r = get_state(&app, "foo");
    assert_eq!(r.status, 200);
    assert_eq!(r.body, b"bar".to_vec());
    let r = delete_state(&mut app, "foo");
    assert_eq!(r.status, 204);
    let r = get_state(&app, "foo");
    assert_eq!(r.status, 404);
    assert_eq!(r.body, b"not found".to_vec());
}

#[test]
fn health_endpoints_report_ok() {
    let r = health_response();
    assert_eq!(r.status, 200);
    assert_eq!(r.body, b"ok".to_vec());
}

#[test]
fn selector_skips_probing_without_sidecar_signal() {
    let s = Selector::new(false);
    assert_eq!(s.committed_backend(), Some(Backend::InMemory));
}

#[test]
fn selector_falls_back_when_probes_never_succeed() {
    let mut s = Selector::new(true);
    assert_eq!(s.committed_backend(), None);
    let mut elapsed: u64 = 0;
    while elapsed < 15000 {
        s.on_probe_result(false, elapsed);
        assert_eq!(s.committed_backend(), None);
        elapsed += 500;
    }
    s.on_probe_result(false, elapsed);
    assert_eq!(s.committed_backend(), Some(Backend::InMemory));
    // The fallback store works.
    let mut store = MemStore::new();
    ok(store.save_state("statestore", "k", b"v".to_vec()));
    assert_eq!(ok(store.get_state("statestore", "k")), Some(b"v".to_vec()));
}

#[test]
fn selector_commits_remote_after_probe_and_connect() {
    let mut s = Selector::new(true);
    s.on_probe_result(false, 500);
    s.on_probe_result(true, 1000);
    assert_eq!(s.phase, SelectorPhase::Connecting);
    s.on_connect_result(true);
    assert_eq!(s.committed_backend(), Some(Backend::Remote));
}

#[test]
fn selector_falls_back_when_connection_fails() {
    let mut s = Selector::new(true);
    s.on_probe_result(true, 0);
    s.on_connect_result(false);
    assert_eq!(s.committed_backend(), Some(Backend::InMemory));
}

#[test]
fn remote_payload_empty_means_absent() {
    assert_eq!(interpret_state_payload(Vec::new()), None);
    assert_eq!(interpret_state_payload(b"data".to_vec()), Some(b"data".to_vec()));
}

#[test]
fn config_defaults_apply() {
    let c = Config::from_parts(None, None, None, None);
    assert_eq!(c.port, 8080);
    assert_eq!(c.store_name, "statestore");
    assert_eq!(c.otel_exporter_endpoint, None);
    assert_eq!(c.otel_service_name, "example-rust-dapr-otel");
}

#[test]
fn config_values_pass_through() {
    let c = Config::from_parts(
        Some(9000),
        Some(String::from("mystore")),
        Some(String::from("http://otel:4318")),
        Some(String::from("svc")),
    );
    assert_eq!(c.port, 9000);
    assert_eq!(c.store_name, "mystore");
    assert_eq!(c.otel_exporter_endpoint, Some(String::from("http://otel:4318")));
    assert_eq!(c.otel_service_name, "svc");
}

#[test]
fn parse_port_accepts_decimal_numbers() {
    assert_eq!(parse_port("8080"), Some(8080));
    assert_eq!(parse_port("+123"), Some(123));
    assert_eq!(parse_port("0"), Some(0));
    assert_eq!(parse_port("007"), Some(7));
    assert_eq!(parse_port("65535"), Some(65535));
}

#[test]
fn parse_port_rejects_everything_else() {
    assert_eq!(parse_port(""), None);
    assert_eq!(parse_port("+"), None);
    assert_eq!(parse_port("65536"), None);
    assert_eq!(parse_port("99999999999999999999"), None);
    assert_eq!(parse_port("12a"), None);
    assert_eq!(parse_port("-1"), None);
    assert_eq!(parse_port(" 80"), None);
    assert_eq!(parse_port("8_0"), None);
}

#[test]
fn ensure_http_adds_scheme_when_missing() {
    assert_eq!(ensure_http("collector:4318"), "http://collector:4318");
    assert_eq!(ensure_http("  collector:4318  "), "http://collector:4318");
    assert_eq!(ensure_http(""), "http://");
}

#[test]
fn ensure_http_keeps_existing_scheme() {
    assert_eq!(ensure_http("http://collector:4318"), "http://collector:4318");
    assert_eq!(ensure_http("https://collector:4318"), "https://collector:4318");
    assert_eq!(ensure_http(" https://collector:4318\n"), "https://collector:4318");
}

#[test]
fn trimming_strips_all_unicode_whitespace() {
    assert_eq!(ensure_http("\u{000B}collector:4318\u{00A0}"), "http://collector:4318");
    assert_eq!(ensure_http("\u{2000}\u{0085}https://collector\u{3000}"), "https://collector");
    assert_eq!(effective_endpoint(&Some(String::from("\u{00A0}"))), None);
    assert_eq!(effective_endpoint(&Some(String::from("\u{000C}\u{2028}\u{205F}"))), None);
}

#[test]
fn effective_endpoint_drops_blank_values() {
    assert_eq!(effective_endpoint(&None), None);
    assert_eq!(effective_endpoint(&Some(String::from(""))), None);
    assert_eq!(effective_endpoint(&Some(String::from("   \t"))), None);
    assert_eq!(
        effective_endpoint(&Some(String::from(" collector "))),
        Some(String::from("collector"))
    );
}
