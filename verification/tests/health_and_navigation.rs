use brebot_launcher::config::{health_url, system_open_url};
use brebot_launcher::health::{on_body_outcome, on_send_outcome, HealthResult, ProbeStep};
use brebot_launcher::navigate::{
    main_window_label, nav_script, on_eval_result, on_window_lookup, NavError, NavStep,
};

#[test]
fn configured_endpoints_are_fixed() {
    assert_eq!(health_url(), "http://127.0.0.1:8000/api/health");
    assert_eq!(system_open_url(), "http://localhost:8000");
    assert_eq!(main_window_label(), "main");
}

#[test]
fn unhealthy_status_is_reported_without_reading_the_body() {
    let step = on_send_outcome(Ok(503));
    assert_eq!(step, ProbeStep::Done(HealthResult::UnhealthyStatus(503)));
}

#[test]
fn connection_refusal_preserves_the_transport_error() {
    let step = on_send_outcome(Err("connection refused (os error 111)".to_string()));
    assert_eq!(
        step,
        ProbeStep::Done(HealthResult::ConnectionFailed(
            "connection refused (os error 111)".to_string()
        ))
    );
}

#[test]
fn success_status_asks_for_the_body_and_yields_it() {
    let step = on_send_outcome(Ok(200));
    assert_eq!(step, ProbeStep::ReadBody);
    let result = on_body_outcome(200, Ok("{\"status\":\"ok\"}".to_string()));
    assert_eq!(result, HealthResult::Reachable("{\"status\":\"ok\"}".to_string()));
}

#[test]
fn failed_body_read_is_distinct_from_connection_failure() {
    let result = on_body_outcome(204, Err("truncated stream".to_string()));
    assert_eq!(result, HealthResult::BodyReadError("truncated stream".to_string()));
}

#[test]
fn every_status_family_is_classified() {
    assert_eq!(on_send_outcome(Ok(199)), ProbeStep::Done(HealthResult::UnhealthyStatus(199)));
    assert_eq!(on_send_outcome(Ok(200)), ProbeStep::ReadBody);
    assert_eq!(on_send_outcome(Ok(299)), ProbeStep::ReadBody);
    assert_eq!(on_send_outcome(Ok(300)), ProbeStep::Done(HealthResult::UnhealthyStatus(300)));
    assert_eq!(on_send_outcome(Ok(404)), ProbeStep::Done(HealthResult::UnhealthyStatus(404)));
}

#[test]
fn absent_window_is_window_not_found_with_no_delivery() {
    let step = on_window_lookup("http://127.0.0.1:8000", false);
    assert_eq!(step, NavStep::Done(Err(NavError::WindowNotFound)));
}

#[test]
fn present_window_receives_the_location_script() {
    let step = on_window_lookup("http://127.0.0.1:8000", true);
    assert_eq!(
        step,
        NavStep::DeliverScript("window.location.href = 'http://127.0.0.1:8000';".to_string())
    );
}

#[test]
fn nav_script_pins_the_url() {
    assert_eq!(nav_script("http://example.invalid"),
        "window.location.href = 'http://example.invalid';");
}

#[test]
fn eval_outcome_is_classified() {
    assert_eq!(on_eval_result(None), Ok(()));
    assert_eq!(
        on_eval_result(Some("page unloaded".to_string())),
        Err(NavError::NavigationError("Failed to navigate: page unloaded".to_string()))
    );
}
