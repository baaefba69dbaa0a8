//! Store endpoint URIs.
//!
//! An endpoint URI uses scheme `redis` (plain) or `rediss` (TLS) and must
//! name a host and a port; it may carry a password.  The general URI
//! grammar is the `url` crate's; what its parser returns on a given string
//! is named here and not restated.

use vstd::prelude::*;
use vstd::string::StringExecFns;

verus! {

/// Whether the `url` crate parses `s` as a URL.
pub uninterp spec fn url_parse_ok(s: Seq<char>) -> bool;

/// The scheme of the parsed URL.
pub uninterp spec fn url_scheme(s: Seq<char>) -> Seq<char>;

/// The password of the parsed URL, if it carries one.
pub uninterp spec fn url_password(s: Seq<char>) -> Option<Seq<char>>;

/// The host of the parsed URL, if it carries one.
pub uninterp spec fn url_host(s: Seq<char>) -> Option<Seq<char>>;

/// The port of the parsed URL, if it carries one.
pub uninterp spec fn url_port(s: Seq<char>) -> Option<u16>;

/// The components of a parsed URL, as plain values.
pub struct UrlParts {
    pub scheme: String,
    pub password: Option<String>,
    pub host: Option<String>,
    pub port: Option<u16>,
}

/// Relies on `url::Url::parse` and the accessors `Url::scheme`,
/// `Url::password`, `Url::host_str` and `Url::port`: parsing is a pure
/// function of the input string, and the accessors return the parsed
/// components.
#[verifier::external_body]
fn parse_url_parts(s: &str) -> (r: Option<UrlParts>)
    ensures
        r is Some <==> url_parse_ok(s@),
        match r {
            Some(p) => {
                &&& p.scheme@ == url_scheme(s@)
                &&& p.password.deep_view() == url_password(s@)
                &&& p.host.deep_view() == url_host(s@)
                &&& p.port == url_port(s@)
            },
            None => true,
        },
{
    match url::Url::parse(s) {
        Ok(u) => Some(
            UrlParts {
                scheme: u.scheme().to_string(),
                password: u.password().map(|p| p.to_string()),
                host: u.host_str().map(|h| h.to_string()),
                port: u.port(),
            },
        ),
        Err(_) => None,
    }
}

/// Why a URI was rejected.
#[derive(Clone, Copy, Debug, PartialEq, Eq, Structural)]
pub enum UriError {
    /// The string does not parse as a URL at all.
    InvalidUri,
    /// The scheme is neither `redis` nor `rediss`.
    InvalidScheme,
    /// The URL names no host.
    MissingHost,
    /// The URL names no port.
    MissingPort,
}

/// A validated store endpoint.
#[derive(Debug, Clone, PartialEq, Eq)]
pub struct RedisUri {
    pub is_tls: bool,
    pub password: Option<String>,
    pub host: String,
    pub port: u16,
}

/// The strings that name a valid store endpoint.
pub open spec fn spec_valid_redis_uri(s: Seq<char>) -> bool {
    &&& url_parse_ok(s)
    &&& (url_scheme(s) == "redis"@ || url_scheme(s) == "rediss"@)
    &&& url_host(s) is Some
    &&& url_port(s) is Some
}

/// Splits an endpoint URI into its parts: TLS exactly for scheme `rediss`,
/// and the password, host and port as the URL carries them.  Each rejected
/// string is reported with the first reason that applies.
pub fn parse_redis_uri(redis_uri: &str) -> (r: Result<RedisUri, UriError>)
    ensures
        r is Ok <==> spec_valid_redis_uri(redis_uri@),
        match r {
            Ok(u) => {
                &&& u.is_tls == (url_scheme(redis_uri@) == "rediss"@)
                &&& u.password.deep_view() == url_password(redis_uri@)
                &&& url_host(redis_uri@) == Some(u.host@)
                &&& url_port(redis_uri@) == Some(u.port)
            },
            Err(UriError::InvalidUri) => !url_parse_ok(redis_uri@),
            Err(UriError::InvalidScheme) => url_parse_ok(redis_uri@) && url_scheme(redis_uri@)
                != "redis"@ && url_scheme(redis_uri@) != "rediss"@,
            Err(UriError::MissingHost) => url_parse_ok(redis_uri@) && (url_scheme(redis_uri@)
                == "redis"@ || url_scheme(redis_uri@) == "rediss"@) && url_host(redis_uri@)
                is None,
            Err(UriError::MissingPort) => url_parse_ok(redis_uri@) && (url_scheme(redis_uri@)
                == "redis"@ || url_scheme(redis_uri@) == "rediss"@) && url_host(redis_uri@)
                is Some && url_port(redis_uri@) is None,
        },
{
    proof {
        reveal_strlit("redis");
        reveal_strlit("rediss");
        assert("redis"@.len() != "rediss"@.len());
    }
    let parts = match parse_url_parts(redis_uri) {
        Some(p) => p,
        None => {
            return Err(UriError::InvalidUri);
        },
    };
    let plain = String::from_str("redis");
    let tls = String::from_str("rediss");
    let is_tls: bool = if parts.scheme.eq(&plain) {
        false
    } else if parts.scheme.eq(&tls) {
        true
    } else {
        return Err(UriError::InvalidScheme);
    };
    let host = match parts.host {
        Some(h) => h,
        None => {
            return Err(UriError::MissingHost);
        },
    };
    let port = match parts.port {
        Some(p) => p,
        None => {
            return Err(UriError::MissingPort);
        },
    };
    Ok(RedisUri { is_tls, password: parts.password, host, port })
}

} // verus!
