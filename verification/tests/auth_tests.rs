use notification_server::handlers::web::reply_unauthorized;
use notification_server::utils::auth::{
    is_localhost, AuthConfig, AuthError, AuthHeader, AuthMiddleware, AuthRequest,
};

fn config() -> AuthConfig {
    AuthConfig::new(Some("admin".to_string()), Some("secret".to_string()))
}

fn remote(header: AuthHeader) -> AuthRequest {
    AuthRequest { remote_addr: Some("192.168.1.20:51234".to_string()), authorization: header }
}

fn basic(payload: &str) -> AuthHeader {
    AuthHeader::Text(format!("Basic {}", payload))
}

#[test]
fn auth_is_required_only_with_both_fields() {
    assert!(config().is_auth_required());
    assert!(!AuthConfig::new(Some("admin".to_string()), None).is_auth_required());
    assert!(!AuthConfig::new(None, Some("secret".to_string())).is_auth_required());
    assert!(!AuthConfig::new(None, None).is_auth_required());
}

#[test]
fn auth_config_keeps_its_fields() {
    let c = config();
    assert_eq!(c.username, Some("admin".to_string()));
    assert_eq!(c.password, Some("secret".to_string()));
    let d = c.duplicate();
    assert_eq!(d.username, c.username);
    assert_eq!(d.password, c.password);
}

#[test]
fn localhost_addresses() {
    assert!(is_localhost(Some("127.0.0.1")));
    assert!(is_localhost(Some("127.0.0.1:8080")));
    assert!(is_localhost(Some("::1")));
    assert!(is_localhost(Some("[::1]")));
    assert!(is_localhost(Some("[::1]:8080")));
    assert!(is_localhost(Some("localhost")));
    assert!(is_localhost(Some("localhost:3000")));
}

#[test]
fn other_addresses_are_not_localhost() {
    assert!(!is_localhost(Some("192.168.1.20:51234")));
    assert!(!is_localhost(Some("10.127.0.0.1")));
    assert!(!is_localhost(Some("")));
    assert!(!is_localhost(None));
}

#[test]
fn a_loopback_name_as_a_beginning_is_not_localhost() {
    for addr in [
        "localhost.evil.example",
        "127.0.0.1.evil.example",
        "127.0.0.10",
        "127.0.0.11:80",
        "::1f",
        "::1:8080",
        "[::1]x",
        "[::1",
        "localhostx",
        "localhost:",
        "localhost:80a",
        "localhost:8080:1",
        "127.0.0.1:",
        "127.0.0.1: 80",
        "127.0.0.1/",
        " 127.0.0.1",
        "Localhost",
    ] {
        assert!(!is_localhost(Some(addr)), "{}", addr);
    }
}

#[test]
fn a_loopback_name_as_a_beginning_needs_credentials() {
    for addr in ["localhost.evil.example", "127.0.0.1.evil.example", "::1f"] {
        let req = AuthRequest { remote_addr: Some(addr.to_string()), authorization: AuthHeader::Missing };
        assert_eq!(config().validate_auth_header(&req), Err(AuthError::MissingHeader));
        let req = AuthRequest {
            remote_addr: Some(addr.to_string()),
            authorization: basic("YWRtaW46c2VjcmV0"),
        };
        assert_eq!(config().validate_auth_header(&req), Ok(true));
    }
}

#[test]
fn loopback_passes_whatever_is_configured() {
    for addr in ["127.0.0.1:4000", "::1", "localhost"] {
        for header in [
            AuthHeader::Missing,
            AuthHeader::Unreadable,
            AuthHeader::Text("Bearer x".to_string()),
            basic("d3Jvbmc6d3Jvbmc="),
        ] {
            let req = AuthRequest { remote_addr: Some(addr.to_string()), authorization: header };
            assert_eq!(config().validate_auth_header(&req), Ok(true));
        }
    }
}

#[test]
fn remote_passes_where_nothing_is_configured() {
    let open = AuthConfig::new(None, None);
    assert_eq!(open.validate_auth_header(&remote(AuthHeader::Missing)), Ok(true));
    let half = AuthConfig::new(Some("admin".to_string()), None);
    assert_eq!(half.validate_auth_header(&remote(AuthHeader::Missing)), Ok(true));
    let unknown = AuthRequest { remote_addr: None, authorization: AuthHeader::Missing };
    assert_eq!(open.validate_auth_header(&unknown), Ok(true));
}

#[test]
fn remote_without_header_is_refused() {
    assert_eq!(
        config().validate_auth_header(&remote(AuthHeader::Missing)),
        Err(AuthError::MissingHeader)
    );
    let unknown = AuthRequest { remote_addr: None, authorization: AuthHeader::Missing };
    assert_eq!(config().validate_auth_header(&unknown), Err(AuthError::MissingHeader));
}

#[test]
fn remote_with_unreadable_header_is_refused() {
    assert_eq!(
        config().validate_auth_header(&remote(AuthHeader::Unreadable)),
        Err(AuthError::InvalidHeader)
    );
}

#[test]
fn remote_with_other_scheme_is_refused() {
    for value in ["Bearer YWRtaW46c2VjcmV0", "basic YWRtaW46c2VjcmV0", "BasicYWRtaW46c2VjcmV0", ""] {
        assert_eq!(
            config().validate_auth_header(&remote(AuthHeader::Text(value.to_string()))),
            Err(AuthError::InvalidScheme)
        );
    }
}

#[test]
fn remote_with_undecodable_payload_is_refused() {
    // not base64 at all, and base64 without its padding
    for payload in ["!!!!", "YWRtaW46c2VjcmV0A", "YWRtaW46c2VjcmU", " YWRtaW46c2VjcmV0"] {
        assert_eq!(
            config().validate_auth_header(&remote(basic(payload))),
            Err(AuthError::InvalidHeader)
        );
    }
    // base64 of the bytes ff fe, which are no UTF-8
    assert_eq!(
        config().validate_auth_header(&remote(basic("//4="))),
        Err(AuthError::InvalidHeader)
    );
}

#[test]
fn remote_with_credentials_without_colon_is_refused() {
    // "adminsecret"
    assert_eq!(
        config().validate_auth_header(&remote(basic("YWRtaW5zZWNyZXQ="))),
        Err(AuthError::InvalidFormat)
    );
    // the empty text
    assert_eq!(config().validate_auth_header(&remote(basic(""))), Err(AuthError::InvalidFormat));
}

#[test]
fn remote_with_wrong_credentials_is_refused() {
    // "admin:wrong", "root:secret", "admin:secret " and "admin:"
    for payload in ["YWRtaW46d3Jvbmc=", "cm9vdDpzZWNyZXQ=", "YWRtaW46c2VjcmV0IA==", "YWRtaW46"] {
        assert_eq!(
            config().validate_auth_header(&remote(basic(payload))),
            Err(AuthError::InvalidCredentials)
        );
    }
}

#[test]
fn remote_with_the_configured_credentials_passes() {
    // "admin:secret"
    assert_eq!(config().validate_auth_header(&remote(basic("YWRtaW46c2VjcmV0"))), Ok(true));
}

#[test]
fn credentials_are_split_at_the_first_colon() {
    let c = AuthConfig::new(Some("admin".to_string()), Some("pa:ss".to_string()));
    // "admin:pa:ss"
    assert_eq!(c.validate_auth_header(&remote(basic("YWRtaW46cGE6c3M="))), Ok(true));
    let c = AuthConfig::new(Some("ad:min".to_string()), Some("pass".to_string()));
    // "ad:min:pass"
    assert_eq!(
        c.validate_auth_header(&remote(basic("YWQ6bWluOnBhc3M="))),
        Err(AuthError::InvalidCredentials)
    );
}

#[test]
fn check_credentials_on_decoded_bytes() {
    let c = config();
    assert_eq!(c.check_credentials(b"admin:secret".to_vec()), Ok(true));
    assert_eq!(c.check_credentials(b"admin:nope".to_vec()), Err(AuthError::InvalidCredentials));
    assert_eq!(c.check_credentials(b"no colon".to_vec()), Err(AuthError::InvalidFormat));
    assert_eq!(c.check_credentials(vec![0xff, 0x3a, 0x41]), Err(AuthError::InvalidHeader));
    let c = AuthConfig::new(Some("j\u{fc}rgen".to_string()), Some("pa\u{df}".to_string()));
    assert_eq!(c.check_credentials("j\u{fc}rgen:pa\u{df}".as_bytes().to_vec()), Ok(true));
}

#[test]
fn auth_error_messages() {
    assert_eq!(AuthError::MissingHeader.message(), "Missing authorization header");
    assert_eq!(AuthError::InvalidHeader.message(), "Invalid authorization header");
    assert_eq!(AuthError::InvalidScheme.message(), "Invalid authorization type");
    assert_eq!(AuthError::InvalidFormat.message(), "Invalid credentials format");
    assert_eq!(AuthError::InvalidCredentials.message(), "Invalid credentials");
}

#[test]
fn unauthorized_reply() {
    let reply = reply_unauthorized(AuthError::InvalidCredentials);
    assert_eq!(reply.status, 401);
    assert_eq!(reply.body, "Invalid credentials");
}

#[test]
fn middleware_guards_its_service() {
    let middleware = AuthMiddleware::new(config());
    let guarded = middleware.new_transform(7u32);
    assert_eq!(*guarded.service(), 7);
    assert_eq!(guarded.authorize(&remote(basic("YWRtaW46c2VjcmV0"))), Ok(true));
    assert_eq!(guarded.authorize(&remote(AuthHeader::Missing)), Err(AuthError::MissingHeader));
    let local = AuthRequest {
        remote_addr: Some("127.0.0.1:9".to_string()),
        authorization: AuthHeader::Missing,
    };
    assert_eq!(guarded.authorize(&local), Ok(true));
}
