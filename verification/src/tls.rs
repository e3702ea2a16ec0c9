//! TLS termination rules. Three modes: ACME (certificates from Let's
//! Encrypt over an HTTP-01 challenge), manual (PEM files from disk) and
//! self-signed (an ephemeral certificate for development). Certificate
//! generation, the ACME exchange and the file system are the caller's;
//! this module decides names, locations, required settings and the
//! challenge responder's answers.

use vstd::prelude::*;

use crate::error::GatewayError;
use crate::string_map::StringMap;

verus! {

/// Where manual mode reads its certificate and key: both paths must be
/// configured; the certificate path is checked first.
pub fn manual_pem_paths(cert_path: Option<&str>, key_path: Option<&str>) -> (r: Result<(String, String), GatewayError>)
    ensures
        match (cert_path, key_path) {
            (None, _) => r matches Err(GatewayError::Config(m)) && m@ == "[tls] manual mode: cert_path required"@,
            (Some(_), None) => r matches Err(GatewayError::Config(m)) && m@ == "[tls] manual mode: key_path required"@,
            (Some(c), Some(k)) => r matches Ok((rc, rk)) && rc@ == c@ && rk@ == k@,
        },
{
    let cert = match cert_path {
        Some(c) => c,
        None => return Err(GatewayError::Config(String::from_str("[tls] manual mode: cert_path required"))),
    };
    let key = match key_path {
        Some(k) => k,
        None => return Err(GatewayError::Config(String::from_str("[tls] manual mode: key_path required"))),
    };
    Ok((String::from_str(cert), String::from_str(key)))
}

/// Names the self-signed development certificate is issued for.
pub fn self_signed_names() -> (names: Vec<String>)
    ensures
        names@.len() == 2,
        names@[0]@ == "localhost"@,
        names@[1]@ == "127.0.0.1"@,
{
    let mut names: Vec<String> = Vec::new();
    names.push(String::from_str("localhost"));
    names.push(String::from_str("127.0.0.1"));
    names
}

/// Directory of the ACME cache: the configured one, else `hackline/acme`
/// under the first base directory the platform offers.
#[derive(Debug, Clone, PartialEq, Eq)]
pub enum AcmeCacheDir {
    /// `acme_cache_dir` from the configuration, used as it is.
    Configured(String),
    /// `<base>/hackline/acme`.
    Under(String),
}

/// The ACME cache directory: the configured directory if any; else
/// `hackline/acme` under the state directory, the local data directory,
/// or `.`, the first that exists.
pub fn acme_cache_dir(
    configured: Option<&str>,
    state_dir: Option<String>,
    data_local_dir: Option<String>,
) -> (d: AcmeCacheDir)
    ensures
        match configured {
            Some(c) => d matches AcmeCacheDir::Configured(s) && s@ == c@,
            None => d matches AcmeCacheDir::Under(b) && b@ == match (state_dir, data_local_dir) {
                (Some(s), _) => s@,
                (None, Some(l)) => l@,
                (None, None) => "."@,
            },
        },
{
    match configured {
        Some(c) => AcmeCacheDir::Configured(String::from_str(c)),
        None => match state_dir {
            Some(s) => AcmeCacheDir::Under(s),
            None => match data_local_dir {
                Some(l) => AcmeCacheDir::Under(l),
                None => AcmeCacheDir::Under(String::from_str(".")),
            },
        },
    }
}

/// File names of the cached certificate chain and key of a domain, and
/// of the cached ACME account.
pub fn acme_cache_files(domain: &str) -> (r: (String, String, String))
    ensures
        r.0@ == domain@ + ".cert.pem"@,
        r.1@ == domain@ + ".key.pem"@,
        r.2@ == "account.json"@,
{
    let mut cert = String::from_str(domain);
    cert.append(".cert.pem");
    let mut key = String::from_str(domain);
    key.append(".key.pem");
    (cert, key, String::from_str("account.json"))
}

/// Whether the cached certificate is used instead of a new order: only
/// when both the chain and the key are cached.
pub fn use_cached_certificate(cert_cached: bool, key_cached: bool) -> (b: bool)
    ensures
        b == (cert_cached && key_cached),
{
    cert_cached && key_cached
}

/// Contact address of a new ACME account.
pub fn acme_contact(email: &str) -> (c: String)
    ensures
        c@ == "mailto:"@ + email@,
{
    let mut c = String::from_str("mailto:");
    c.append(email);
    c
}

/// The HTTP-01 challenge of an ACME authorization, which the gateway
/// needs: an authorization that offers none stops the order with a
/// configuration error.
pub fn require_http01<T>(challenge: Option<T>) -> (r: Result<T, GatewayError>)
    ensures
        match challenge {
            Some(c) => r == Ok::<T, GatewayError>(c),
            None => r matches Err(GatewayError::Config(m)) && m@ == "ACME: no HTTP-01 challenge offered"@,
        },
{
    match challenge {
        Some(c) => Ok(c),
        None => Err(GatewayError::Config(String::from_str("ACME: no HTTP-01 challenge offered"))),
    }
}

/// Answer of the HTTP-01 responder to
/// `GET /.well-known/acme-challenge/<token>`: 200 with the key
/// authorization of a known token, 404 with an empty body otherwise.
pub fn challenge_reply(tokens: &StringMap, token: &str) -> (r: (u16, String))
    ensures
        tokens@.contains_key(token@) ==> r.0 == 200 && r.1@ == tokens@[token@],
        !tokens@.contains_key(token@) ==> r.0 == 404 && r.1@ == Seq::<char>::empty(),
{
    match tokens.get(token) {
        Some(proof) => (200, proof.clone()),
        None => (404, String::new()),
    }
}

/// Protocols offered by ALPN on TLS tunnel sockets, most preferred first.
pub fn alpn_protocols() -> (p: Vec<Vec<u8>>)
    ensures
        p@.len() == 2,
        p@[0]@ == seq![104u8, 50u8],
        p@[1]@ == seq![104u8, 116u8, 116u8, 112u8, 47u8, 49u8, 46u8, 49u8],
{
    let mut p: Vec<Vec<u8>> = Vec::new();
    p.push(vec![104u8, 50u8]);
    p.push(vec![104u8, 116u8, 116u8, 112u8, 47u8, 49u8, 46u8, 49u8]);
    p
}

} // verus!
