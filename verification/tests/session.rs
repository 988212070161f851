use awg_sig_gen::digits::u64_to_decimal;
use awg_sig_gen::errors::ConfigError;
use awg_sig_gen::lines::split_lines;
use awg_sig_gen::session::{CaptureRequest, CaptureSession, SessionState};

#[test]
fn terminate_is_idempotent() {
    let mut session = CaptureSession::new();
    assert_eq!(session.state(), SessionState::Spawned);
    session.mark_streaming();
    assert_eq!(session.state(), SessionState::Streaming);
    let first = session.terminate();
    assert!(first);
    assert_eq!(session.state(), SessionState::Terminated);
    let second = session.terminate();
    assert!(!second);
    assert_eq!(session.state(), SessionState::Terminated);
}

#[test]
fn two_phase_termination() {
    let mut session = CaptureSession::new();
    assert!(session.begin_terminate());
    assert_eq!(session.state(), SessionState::Terminating);
    session.finish_terminate();
    assert_eq!(session.state(), SessionState::Terminated);
    assert!(!session.begin_terminate());
    assert_eq!(session.state(), SessionState::Terminated);
}

#[test]
fn request_validation() {
    let ok = CaptureRequest::new("eth0".to_string(), 60, 5, r"\.ru$").expect("valid request");
    assert_eq!(ok.interface, "eth0");
    assert_eq!(ok.timeout_seconds, 60);
    assert_eq!(ok.target_count, 5);

    match CaptureRequest::new("eth0".to_string(), 60, 5, "(") {
        Err(e) => assert_eq!(e, ConfigError::InvalidPattern),
        Ok(_) => panic!("an invalid pattern must be rejected"),
    }
    match CaptureRequest::new("eth0".to_string(), 0, 5, r"\.ru$") {
        Err(e) => assert_eq!(e, ConfigError::ZeroTimeout),
        Ok(_) => panic!("a zero timeout must be rejected"),
    }
    match CaptureRequest::new("eth0".to_string(), 60, 0, r"\.ru$") {
        Err(e) => assert_eq!(e, ConfigError::ZeroTarget),
        Ok(_) => panic!("a zero target must be rejected"),
    }
}

#[test]
fn invocation_arguments() {
    let req = CaptureRequest::new("wlan0".to_string(), 45, 3, r"\.ru$").expect("valid request");
    let args = req.invocation_args();
    let expected: Vec<String> = [
        "-i",
        "wlan0",
        "-a",
        "duration:45",
        "-f",
        "tcp port 443",
        "-Y",
        "tls.handshake.type == 1",
        "-T",
        "fields",
        "-e",
        "tls.handshake.extensions_server_name",
        "-e",
        "tcp.payload",
        "-E",
        "separator=|",
    ]
        .iter()
        .map(|s| s.to_string())
        .collect();
    assert_eq!(args, expected);
}

#[test]
fn decimal_rendering() {
    assert_eq!(u64_to_decimal(0), "0");
    assert_eq!(u64_to_decimal(7), "7");
    assert_eq!(u64_to_decimal(60), "60");
    assert_eq!(u64_to_decimal(12345), "12345");
}

#[test]
fn error_descriptions() {
    assert_eq!(ConfigError::InvalidPattern.describe(), "invalid domain regex pattern");
    assert_eq!(ConfigError::ZeroTimeout.describe(), "timeout must be at least one second");
    assert_eq!(ConfigError::ZeroTarget.describe(), "target count must be at least one");
}

#[test]
fn interface_output_splitting() {
    let out = b"1. eth0\r\n2. lo\n3. any";
    let lines = split_lines(out);
    assert_eq!(
        lines,
        vec![b"1. eth0".to_vec(), b"2. lo".to_vec(), b"3. any".to_vec()],
    );
    assert_eq!(split_lines(b""), Vec::<Vec<u8>>::new());
    assert_eq!(split_lines(b"only\n"), vec![b"only".to_vec()]);
    assert_eq!(split_lines(b"\n\n"), vec![Vec::<u8>::new(), Vec::<u8>::new()]);
}
