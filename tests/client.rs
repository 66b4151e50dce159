use httq::{Client, HttqError, KemError, Route};
use httq::client::{fallback_response, quantum_response, route};
use httq::Session;

#[test]
fn test_client_request() {
    let client = Client::new("HTTQ-LATTICE-2048", true, true);
    let response = client.get("httq://api.example.com/data").unwrap();

    assert_eq!(response.status, 200);
    assert!(response.quantum_safe);
}

#[test]
fn quantum_target_with_default_config() {
    let client = Client::new("HTTQ-LATTICE-2048", false, true);
    let response = client.get("httq://host/path").unwrap();
    assert_eq!(response.status, 200);
    assert!(response.quantum_safe);
    assert_eq!(
        response.data,
        "{\"message\":\"Quantum-safe communication established!\",\"algorithm\":\"HTTQ-LATTICE-2048\",\"security_bits\":192}"
    );
}

#[test]
fn algorithm_name_selects_level() {
    let low = Client::new("HTTQ-LATTICE-1024", false, false).get("httq://h/p").unwrap();
    assert!(low.data.contains("\"security_bits\":128"));
    let high = Client::new("HTTQ-LATTICE-4096", false, false).get("httq://h/p").unwrap();
    assert!(high.data.contains("\"security_bits\":256"));
    let other = Client::new("something-else", false, false).post("httq://h/p", None).unwrap();
    assert!(other.data.contains("\"algorithm\":\"something-else\""));
    assert!(other.data.contains("\"security_bits\":192"));
}

#[test]
fn client_keeps_hybrid_flag() {
    assert!(Client::new("HTTQ-LATTICE-2048", true, false).hybrid_mode());
    assert!(!Client::new("HTTQ-LATTICE-2048", false, false).hybrid_mode());
}

#[test]
fn https_target_with_fallback() {
    let client = Client::new("HTTQ-LATTICE-2048", false, true);
    let response = client.post("https://host/path", Some(vec![1, 2, 3])).unwrap();
    assert_eq!(response.status, 200);
    assert!(!response.quantum_safe);
    assert_eq!(response.data, "{\"message\":\"Regular HTTPS response\"}");
}

#[test]
fn https_target_without_fallback() {
    let client = Client::new("HTTQ-LATTICE-2048", false, false);
    match client.get("https://host/path") {
        Err(HttqError::UnsupportedScheme(t)) => assert_eq!(t, "https://host/path"),
        other => panic!("unexpected {:?}", other),
    }
}

#[test]
fn ftp_target_is_always_rejected() {
    for (hybrid, fallback) in [(false, false), (false, true), (true, false), (true, true)] {
        let client = Client::new("HTTQ-LATTICE-4096", hybrid, fallback);
        match client.get("ftp://host/path") {
            Err(HttqError::UnsupportedScheme(t)) => assert_eq!(t, "ftp://host/path"),
            other => panic!("unexpected {:?}", other),
        }
    }
}

#[test]
fn routes_by_scheme() {
    assert_eq!(route("httq://x", false), Route::Quantum);
    assert_eq!(route("httq://x", true), Route::Quantum);
    assert_eq!(route("https://x", true), Route::Fallback);
    assert_eq!(route("https://x", false), Route::Rejected);
    assert_eq!(route("http://x", true), Route::Rejected);
    assert_eq!(route("httq:/", true), Route::Rejected);
    assert_eq!(route("", true), Route::Rejected);
}

#[test]
fn handshake_yields_session() {
    let client = Client::new("HTTQ-LATTICE-1024", false, false);
    let session = client.perform_handshake("httq://h").unwrap();
    assert_eq!(session.algorithm, "HTTQ-LATTICE-1024");
    assert_eq!(session.security_bits, 128);
    assert_eq!(session.shared_secret.len(), 32);
    let again = client.perform_handshake("httq://h").unwrap();
    assert_ne!(again.shared_secret, session.shared_secret);
}

#[test]
fn response_builders() {
    let session = Session { shared_secret: vec![0; 32], algorithm: "A".to_string(), security_bits: 0 };
    let r = quantum_response(&session);
    assert_eq!(
        r.data,
        "{\"message\":\"Quantum-safe communication established!\",\"algorithm\":\"A\",\"security_bits\":0}"
    );
    let f = fallback_response();
    assert!(!f.quantum_safe);
    assert_eq!(f.status, 200);
    let _ = KemError::RandomnessUnavailable;
}
