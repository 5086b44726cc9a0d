use rpxy_backend::backend::upstream_opts::{same_text, UpstreamOption};
use rpxy_backend::error::RpxyError;

#[test]
fn each_identifier_gives_its_option() {
    assert_eq!(
        UpstreamOption::try_from("diaable_override_host"),
        Ok(UpstreamOption::DisableOverrideHost)
    );
    assert_eq!(
        UpstreamOption::try_from("upgrade_insecure_requests"),
        Ok(UpstreamOption::UpgradeInsecureRequests)
    );
    assert_eq!(
        UpstreamOption::try_from("force_http11_upstream"),
        Ok(UpstreamOption::ForceHttp11Upstream)
    );
    assert_eq!(
        UpstreamOption::try_from("force_http2_upstream"),
        Ok(UpstreamOption::ForceHttp2Upstream)
    );
}

#[test]
fn unknown_identifier_is_refused() {
    assert_eq!(UpstreamOption::try_from("bogus"), Err(RpxyError::UnsupportedUpstreamOption));
    assert_eq!(UpstreamOption::try_from(""), Err(RpxyError::UnsupportedUpstreamOption));
}

#[test]
fn corrected_spelling_is_not_an_identifier() {
    assert_eq!(
        UpstreamOption::try_from("disable_override_host"),
        Err(RpxyError::UnsupportedUpstreamOption)
    );
}

#[test]
fn match_is_exact() {
    for text in [
        "Force_http2_upstream",
        "FORCE_HTTP2_UPSTREAM",
        " force_http2_upstream",
        "force_http2_upstream ",
        "force_http2_upstream\n",
        "force_http2",
        "force_http2_upstreams",
        "force-http2-upstream",
        "force_http11_upstrean",
    ] {
        assert_eq!(UpstreamOption::try_from(text), Err(RpxyError::UnsupportedUpstreamOption));
    }
}

#[test]
fn try_into_agrees_with_try_from() {
    let parsed: Result<UpstreamOption, RpxyError> = "upgrade_insecure_requests".try_into();
    assert_eq!(parsed, Ok(UpstreamOption::UpgradeInsecureRequests));
}

#[test]
fn same_text_compares_every_character() {
    assert!(same_text("", ""));
    assert!(same_text("abc", "abc"));
    assert!(!same_text("abc", "abd"));
    assert!(!same_text("abc", "ab"));
    assert!(!same_text("ab", "abc"));
    assert!(!same_text("abc", "Abc"));
    assert!(same_text("h\u{e9}", "h\u{e9}"));
    assert!(!same_text("h\u{e9}", "he"));
}
