use whistle::error::RelayError;
use whistle::message::{Alert, COLOR_RED};
use whistle::relay::{
    dispatch_outcome_response, error_response, health_response, not_found_response,
    prepare_dispatch, success_response,
};

const CONFIG: &str = r#"[{"path":"alerts","url":"https://discord.example/abc"}]"#;

fn scenario_alert() -> Alert {
    Alert::Fields {
        exchange: "BINANCE".to_string(),
        ticker: "BTCUSDT".to_string(),
        close: "100".to_string(),
        open: "120".to_string(),
        volume: "500".to_string(),
        event: "cross".to_string(),
        interval: "1h".to_string(),
    }
}

#[test]
fn known_path_resolves_and_formats() {
    let d = prepare_dispatch(CONFIG, "alerts", &scenario_alert()).unwrap();
    assert_eq!(d.url, "https://discord.example/abc");
    assert_eq!(d.message.embeds.len(), 1);
    let e = &d.message.embeds[0];
    assert_eq!(e.author.name, "Whistle: BTCUSDT cross at BINANCE");
    assert_eq!(e.color, COLOR_RED);
    assert_eq!(e.description, "Open: 120\nClose: 100\nInterval: 1h\nVolume: 500\n");
}

#[test]
fn unknown_path_is_rejected() {
    let r = prepare_dispatch(CONFIG, "unknown", &scenario_alert());
    assert_eq!(r, Err(RelayError::NoMatchingWebhook));
}

#[test]
fn invalid_config_rejects_every_request() {
    let r = prepare_dispatch("%FF", "alerts", &scenario_alert());
    assert_eq!(r, Err(RelayError::NoMatchingWebhook));
    let r = prepare_dispatch("not json at all", "alerts", &scenario_alert());
    assert_eq!(r, Err(RelayError::NoMatchingWebhook));
}

#[test]
fn health_is_200_healthy() {
    let r = health_response();
    assert_eq!(r.status, 200);
    assert_eq!(r.body, "Healthy");
}

#[test]
fn success_is_200_content_sent() {
    let r = success_response();
    assert_eq!(r.status, 200);
    assert_eq!(r.body, "Content sent to Discord");
}

#[test]
fn fallback_is_404_not_found() {
    let r = not_found_response();
    assert_eq!(r.status, 404);
    assert_eq!(r.body, "Not found");
}

#[test]
fn every_error_collapses_to_404() {
    for e in [
        RelayError::ConfigParseError,
        RelayError::NoMatchingWebhook,
        RelayError::DispatchFailure,
    ] {
        let r = error_response(&e);
        assert_eq!(r.status, 404);
        assert_eq!(r.body, "Not found");
    }
}

#[test]
fn dispatch_outcome_maps_to_response() {
    let ok = dispatch_outcome_response(true);
    assert_eq!(ok.status, 200);
    assert_eq!(ok.body, "Content sent to Discord");
    let err = dispatch_outcome_response(false);
    assert_eq!(err.status, 404);
    assert_eq!(err.body, "Not found");
}
