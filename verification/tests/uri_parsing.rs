use dpn_state_sync::uri::parse_redis_uri;
use dpn_state_sync::uri::UriError;

#[test]
fn plain_uri_with_password() {
    let u = parse_redis_uri("redis://:secret@cache.example.com:6379").unwrap();
    assert!(!u.is_tls);
    assert_eq!(u.password, Some("secret".to_string()));
    assert_eq!(u.host, "cache.example.com".to_string());
    assert_eq!(u.port, 6379);
}

#[test]
fn tls_uri() {
    let u = parse_redis_uri("rediss://cache.example.com:6380").unwrap();
    assert!(u.is_tls);
    assert_eq!(u.password, None);
    assert_eq!(u.host, "cache.example.com".to_string());
    assert_eq!(u.port, 6380);
}

#[test]
fn unknown_scheme_is_rejected() {
    assert_eq!(
        parse_redis_uri("http://cache.example.com:6379"),
        Err(UriError::InvalidScheme)
    );
}

#[test]
fn missing_port_is_rejected() {
    assert_eq!(
        parse_redis_uri("redis://cache.example.com"),
        Err(UriError::MissingPort)
    );
}

#[test]
fn garbage_is_rejected() {
    assert_eq!(parse_redis_uri("not a uri at all"), Err(UriError::InvalidUri));
}
