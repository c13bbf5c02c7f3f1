use sync_supervisor::redirect::{
    login_url, oauth_origin_from_redirect_uri, oauth_port_from_redirect_uri,
};

#[test]
fn oauth_port_defaults_to_8888_when_redirect_is_missing() {
    assert_eq!(oauth_port_from_redirect_uri(None), Some(8888));
}

#[test]
fn oauth_port_parses_explicit_port() {
    assert_eq!(
        oauth_port_from_redirect_uri(Some("http://127.0.0.1:9999/callback")),
        Some(9999)
    );
}

#[test]
fn oauth_port_skips_cleanup_when_no_explicit_port() {
    assert_eq!(
        oauth_port_from_redirect_uri(Some("http://127.0.0.1/callback")),
        None
    );
}

#[test]
fn oauth_origin_uses_redirect_host_and_port() {
    assert_eq!(
        oauth_origin_from_redirect_uri(Some("http://localhost:3456/callback")).as_str(),
        "http://localhost:3456"
    );
}

#[test]
fn oauth_origin_defaults_when_redirect_invalid() {
    assert_eq!(
        oauth_origin_from_redirect_uri(Some("https://127.0.0.1:8888/callback")).as_str(),
        "http://127.0.0.1:8888"
    );
}

#[test]
fn oauth_port_defaults_when_redirect_is_blank() {
    assert_eq!(oauth_port_from_redirect_uri(Some("")), Some(8888));
    assert_eq!(oauth_port_from_redirect_uri(Some("   ")), Some(8888));
}

#[test]
fn oauth_port_trims_surrounding_whitespace() {
    assert_eq!(
        oauth_port_from_redirect_uri(Some("  http://127.0.0.1:9999/callback  ")),
        Some(9999)
    );
}

#[test]
fn oauth_port_falls_back_when_port_text_is_not_numeric() {
    assert_eq!(
        oauth_port_from_redirect_uri(Some("http://127.0.0.1:abc/callback")),
        Some(8888)
    );
}

#[test]
fn oauth_port_falls_back_when_port_is_out_of_range() {
    assert_eq!(
        oauth_port_from_redirect_uri(Some("http://127.0.0.1:99999/callback")),
        Some(8888)
    );
}

#[test]
fn oauth_port_accepts_plus_prefixed_port() {
    assert_eq!(
        oauth_port_from_redirect_uri(Some("http://127.0.0.1:+443/callback")),
        Some(443)
    );
}

#[test]
fn oauth_port_uses_last_colon_of_host_segment() {
    assert_eq!(
        oauth_port_from_redirect_uri(Some("http://[::1]:8080/callback")),
        Some(8080)
    );
}

#[test]
fn oauth_origin_defaults_when_redirect_is_missing_or_blank() {
    assert_eq!(
        oauth_origin_from_redirect_uri(None).as_str(),
        "http://127.0.0.1:8888"
    );
    assert_eq!(
        oauth_origin_from_redirect_uri(Some("   ")).as_str(),
        "http://127.0.0.1:8888"
    );
}

#[test]
fn oauth_origin_defaults_when_host_segment_is_empty() {
    assert_eq!(
        oauth_origin_from_redirect_uri(Some("http:///callback")).as_str(),
        "http://127.0.0.1:8888"
    );
    assert_eq!(oauth_port_from_redirect_uri(Some("http:///callback")), None);
}

#[test]
fn oauth_origin_keeps_port_that_reclaim_skips() {
    // The documented asymmetry: no explicit port skips reclamation, yet the
    // origin is still derived from the host alone.
    assert_eq!(
        oauth_port_from_redirect_uri(Some("http://localhost/callback")),
        None
    );
    assert_eq!(
        oauth_origin_from_redirect_uri(Some("http://localhost/callback")).as_str(),
        "http://localhost"
    );
}

#[test]
fn login_url_appends_login_to_origin() {
    assert_eq!(
        login_url(Some("http://localhost:3456/callback")).as_str(),
        "http://localhost:3456/login"
    );
    assert_eq!(login_url(None).as_str(), "http://127.0.0.1:8888/login");
}
