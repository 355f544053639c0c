use silius_cli::{
    create_http_provider, exit_status, join_silius_dir, race_outcome, select_transport_kind,
    streaming_handshake_outcome, unwrap_path_or_home, ConfigError, RaceEvent, ShutdownSignal,
    TransportError, TransportKind,
};

#[test]
fn http_endpoint_resolves_synchronously_without_handshake() {
    // kind selection and construction are both synchronous calls
    assert_eq!(select_transport_kind("http://host:1234"), TransportKind::Synchronous);
    assert!(create_http_provider("http://host:1234").is_ok());
}

#[test]
fn https_endpoint_also_counts_as_http_prefixed() {
    assert_eq!(select_transport_kind("https://host:1234"), TransportKind::Synchronous);
}

#[test]
fn ws_endpoint_takes_the_streaming_path() {
    assert_eq!(select_transport_kind("ws://host:1234"), TransportKind::Streaming);
}

#[test]
fn non_uri_endpoint_takes_the_streaming_path() {
    assert_eq!(select_transport_kind("not-a-uri"), TransportKind::Streaming);
    assert_eq!(select_transport_kind(""), TransportKind::Streaming);
    assert_eq!(select_transport_kind("htt"), TransportKind::Streaming);
}

#[test]
fn malformed_http_endpoint_is_a_transport_error() {
    assert_eq!(
        create_http_provider("http://[bad uri").err(),
        Some(TransportError::InvalidEndpoint)
    );
}

#[test]
fn interrupt_before_completion_wins_with_success() {
    let out = race_outcome::<String>(RaceEvent::Signal(ShutdownSignal::OperatorInterrupt));
    assert_eq!(out, Ok(()));
    assert_eq!(exit_status(&out), 0);
}

#[test]
fn termination_request_yields_exit_code_zero() {
    let out = race_outcome::<String>(RaceEvent::Signal(ShutdownSignal::TerminationRequest));
    assert_eq!(out, Ok(()));
    assert_eq!(exit_status(&out), 0);
}

#[test]
fn service_failure_first_propagates_that_exact_error() {
    let out = race_outcome::<String>(RaceEvent::ServiceStopped(Err("node unreachable".into())));
    assert_eq!(out, Err("node unreachable".to_string()));
    assert_eq!(exit_status(&out), 1);
}

#[test]
fn graceful_service_stop_is_success() {
    let out = race_outcome::<String>(RaceEvent::ServiceStopped(Ok(())));
    assert_eq!(out, Ok(()));
    assert_eq!(exit_status(&out), 0);
}

#[test]
fn failed_streaming_handshake_is_the_handshake_error_and_no_handle() {
    let failed: Result<u8, &str> = Err("connection refused");
    assert_eq!(
        streaming_handshake_outcome(failed),
        Err(TransportError::HandshakeFailed)
    );
    assert_eq!(
        TransportError::HandshakeFailed.describe(),
        "the streaming transport handshake failed"
    );
}

#[test]
fn successful_streaming_handshake_passes_the_handle_through() {
    let ok: Result<u8, &str> = Ok(7);
    assert_eq!(streaming_handshake_outcome(ok), Ok(7));
}

#[test]
fn default_directory_is_home_joined_with_the_fixed_subdirectory() {
    assert_eq!(join_silius_dir("/home/operator".to_string()), "/home/operator/.silius");
}

#[test]
fn explicit_path_wins_over_home_fallback() {
    assert_eq!(unwrap_path_or_home(Some("/tmp/data".to_string())), Ok("/tmp/data".to_string()));
}

#[test]
fn missing_path_falls_back_to_home_subdirectory() {
    match unwrap_path_or_home(None) {
        Ok(p) => assert!(p.ends_with("/.silius")),
        Err(e) => assert_eq!(e, ConfigError::NoHomeDirectory),
    }
}
