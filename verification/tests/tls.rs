use hackline::error::GatewayError;
use hackline::string_map::StringMap;
use hackline::tls::{
    acme_cache_dir, acme_cache_files, acme_contact, alpn_protocols, challenge_reply,
    manual_pem_paths, require_http01, self_signed_names, use_cached_certificate, AcmeCacheDir,
};

#[test]
fn manual_mode_requires_both_paths() {
    assert_eq!(
        manual_pem_paths(None, Some("k.pem")),
        Err(GatewayError::Config("[tls] manual mode: cert_path required".to_string()))
    );
    assert_eq!(
        manual_pem_paths(None, None),
        Err(GatewayError::Config("[tls] manual mode: cert_path required".to_string()))
    );
    assert_eq!(
        manual_pem_paths(Some("c.pem"), None),
        Err(GatewayError::Config("[tls] manual mode: key_path required".to_string()))
    );
    assert_eq!(
        manual_pem_paths(Some("c.pem"), Some("k.pem")),
        Ok(("c.pem".to_string(), "k.pem".to_string()))
    );
}

#[test]
fn acme_locations() {
    assert_eq!(
        acme_cache_dir(Some("/etc/acme"), Some("/state".to_string()), None),
        AcmeCacheDir::Configured("/etc/acme".to_string())
    );
    assert_eq!(
        acme_cache_dir(None, Some("/state".to_string()), Some("/data".to_string())),
        AcmeCacheDir::Under("/state".to_string())
    );
    assert_eq!(
        acme_cache_dir(None, None, Some("/data".to_string())),
        AcmeCacheDir::Under("/data".to_string())
    );
    assert_eq!(acme_cache_dir(None, None, None), AcmeCacheDir::Under(".".to_string()));
    assert_eq!(
        acme_cache_files("gw.example.com"),
        (
            "gw.example.com.cert.pem".to_string(),
            "gw.example.com.key.pem".to_string(),
            "account.json".to_string()
        )
    );
    assert!(use_cached_certificate(true, true));
    assert!(!use_cached_certificate(true, false));
    assert!(!use_cached_certificate(false, true));
    assert_eq!(acme_contact("ops@example.com"), "mailto:ops@example.com");
}

#[test]
fn challenge_responder() {
    let mut tokens = StringMap::new();
    tokens.insert("tok1".to_string(), "tok1.thumb".to_string());
    assert_eq!(challenge_reply(&tokens, "tok1"), (200, "tok1.thumb".to_string()));
    assert_eq!(challenge_reply(&tokens, "other"), (404, String::new()));
}

#[test]
fn fixed_tls_parameters() {
    assert_eq!(self_signed_names(), vec!["localhost".to_string(), "127.0.0.1".to_string()]);
    assert_eq!(alpn_protocols(), vec![b"h2".to_vec(), b"http/1.1".to_vec()]);
}

#[test]
fn authorization_needs_http01() {
    assert_eq!(require_http01(Some(3u8)), Ok(3u8));
    assert_eq!(
        require_http01::<u8>(None),
        Err(GatewayError::Config("ACME: no HTTP-01 challenge offered".to_string()))
    );
}
