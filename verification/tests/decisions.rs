use redirect_scheme::evaluate;
use redirect_scheme::Outcome;
use redirect_scheme::RedirectScheme;
use redirect_scheme::RedirectSchemeBuilder;
use redirect_scheme::RequestFacts;

fn facts(scheme: &str, host: &str, uri: &str, path: &str) -> RequestFacts {
    RequestFacts::new(
        scheme.to_string(),
        host.to_string(),
        uri.to_string(),
        path.to_string(),
    )
}

fn expect_redirect(out: Outcome) -> (u16, String) {
    match out {
        Outcome::Redirect {
            status_code,
            location,
        } => (status_code, location),
        Outcome::Forward => panic!("expected a redirect, got a forward"),
    }
}

fn is_forward(out: Outcome) -> bool {
    matches!(out, Outcome::Forward)
}

#[test]
fn default_config_redirects_http_permanently() {
    let cfg = RedirectSchemeBuilder::new().build();
    let out = evaluate(&cfg, &facts("http", "example.com", "/a?x=1", "/a"));
    let (status, location) = expect_redirect(out);
    assert_eq!(status, 301);
    assert_eq!(location, "https://example.com/a?x=1");
}

#[test]
fn matching_scheme_forwards() {
    let cfg = RedirectSchemeBuilder::new().build();
    let out = evaluate(&cfg, &facts("https", "example.com", "/a?x=1", "/a"));
    assert!(is_forward(out));
}

#[test]
fn disabled_config_always_forwards() {
    let cfg = RedirectSchemeBuilder::new().enable(false).build();
    assert!(is_forward(evaluate(
        &cfg,
        &facts("http", "example.com", "/a", "/a")
    )));
    assert!(is_forward(evaluate(&cfg, &facts("", "", "", ""))));
}

#[test]
fn ignored_path_prefix_forwards() {
    let cfg = RedirectSchemeBuilder::new().ignore_path("/healthz").build();
    let out = evaluate(&cfg, &facts("http", "example.com", "/healthz/ready", "/healthz/ready"));
    assert!(is_forward(out));
}

#[test]
fn non_matching_ignore_path_still_redirects() {
    let cfg = RedirectSchemeBuilder::new().ignore_path("/healthz").build();
    let out = evaluate(&cfg, &facts("http", "example.com", "/metrics", "/metrics"));
    let (status, location) = expect_redirect(out);
    assert_eq!(status, 301);
    assert_eq!(location, "https://example.com/metrics");
}

#[test]
fn ignore_paths_accumulate() {
    let cfg = RedirectSchemeBuilder::new()
        .ignore_path("/healthz")
        .ignore_path("/metrics")
        .build();
    assert!(is_forward(evaluate(
        &cfg,
        &facts("http", "h", "/metrics", "/metrics")
    )));
    assert!(is_forward(evaluate(
        &cfg,
        &facts("http", "h", "/healthz", "/healthz")
    )));
    assert!(!is_forward(evaluate(&cfg, &facts("http", "h", "/x", "/x"))));
}

#[test]
fn empty_ignore_prefix_exempts_every_path() {
    let cfg = RedirectSchemeBuilder::new().ignore_path("").build();
    assert!(is_forward(evaluate(&cfg, &facts("http", "h", "/x", "/x"))));
    assert!(is_forward(evaluate(&cfg, &facts("http", "h", "", ""))));
}

#[test]
fn port_replacement_rewrites_host() {
    let cfg = RedirectSchemeBuilder::new()
        .replacements(vec![(":8080".to_string(), ":8443".to_string())])
        .build();
    let out = evaluate(&cfg, &facts("http", "dev.local:8080", "/", "/"));
    let (status, location) = expect_redirect(out);
    assert_eq!(status, 301);
    assert_eq!(location, "https://dev.local:8443/");
}

#[test]
fn replacements_chain_in_list_order() {
    let cfg = RedirectSchemeBuilder::new()
        .replacements(vec![
            ("a".to_string(), "b".to_string()),
            ("b".to_string(), "c".to_string()),
        ])
        .build();
    let out = evaluate(&cfg, &facts("http", "zaz", "/", "/"));
    let (_, location) = expect_redirect(out);
    assert!(location.contains('c'));
    assert!(!location.contains('b'));
    assert_eq!(location, "https://zcz/");
}

#[test]
fn replacements_last_call_wins() {
    let cfg = RedirectSchemeBuilder::new()
        .replacements(vec![("x".to_string(), "y".to_string())])
        .replacements(vec![("x".to_string(), "z".to_string())])
        .build();
    let out = evaluate(&cfg, &facts("http", "x", "/", "/"));
    let (_, location) = expect_redirect(out);
    assert_eq!(location, "https://z/");
}

#[test]
fn temporary_mode_answers_307() {
    let cfg = RedirectSchemeBuilder::new().temporary().build();
    let (status, _) = expect_redirect(evaluate(&cfg, &facts("http", "h", "/", "/")));
    assert_eq!(status, 307);
}

#[test]
fn permanent_false_equals_temporary() {
    let via_temporary = RedirectSchemeBuilder::new().temporary().build();
    let via_permanent = RedirectSchemeBuilder::new().permanent(false).build();
    let f = facts("http", "h", "/", "/");
    let (s1, l1) = expect_redirect(evaluate(&via_temporary, &f));
    let (s2, l2) = expect_redirect(evaluate(&via_permanent, &f));
    assert_eq!(s1, s2);
    assert_eq!(l1, l2);
}

#[test]
fn https_to_http_equals_http_to_https_false() {
    let terminal = RedirectSchemeBuilder::new().https_to_http().build();
    let boolean = RedirectSchemeBuilder::new().http_to_https(false).build();
    let f = facts("https", "h", "/", "/");
    let (s1, l1) = expect_redirect(evaluate(&terminal, &f));
    let (s2, l2) = expect_redirect(evaluate(&boolean, &f));
    assert_eq!(s1, s2);
    assert_eq!(l1, l2);
    assert_eq!(l1, "http://h/");
}

#[test]
fn location_scheme_matches_direction() {
    let to_https = RedirectScheme::simple(false);
    let (_, loc) = expect_redirect(evaluate(&to_https, &facts("http", "h", "/p", "/p")));
    assert!(loc.starts_with("https://"));
    let to_http = RedirectScheme::simple(true);
    let (_, loc) = expect_redirect(evaluate(&to_http, &facts("https", "h", "/p", "/p")));
    assert!(loc.starts_with("http://"));
}

#[test]
fn simple_config_redirects_toward_http() {
    let cfg = RedirectScheme::simple(true);
    let out = evaluate(&cfg, &facts("https", "example.com", "/", "/"));
    let (status, location) = expect_redirect(out);
    assert_eq!(status, 301);
    assert_eq!(location, "http://example.com/");
}

#[test]
fn with_replacements_config_rewrites() {
    let cfg = RedirectScheme::with_replacements(
        true,
        vec![(":8443".to_string(), ":8080".to_string())],
    );
    let out = evaluate(&cfg, &facts("https", "dev.local:8443", "/", "/"));
    let (status, location) = expect_redirect(out);
    assert_eq!(status, 301);
    assert_eq!(location, "http://dev.local:8080/");
}

#[test]
fn odd_scheme_still_redirects() {
    let cfg = RedirectSchemeBuilder::new().build();
    let (_, location) = expect_redirect(evaluate(&cfg, &facts("ftp", "h", "/", "/")));
    assert_eq!(location, "https://h/");
}

#[test]
fn empty_host_and_uri_give_bare_target() {
    let cfg = RedirectSchemeBuilder::new().build();
    let (_, location) = expect_redirect(evaluate(&cfg, &facts("http", "", "", "")));
    assert_eq!(location, "https://");
}

#[test]
fn exemption_is_per_request_only() {
    let cfg = RedirectSchemeBuilder::new().ignore_path("/healthz").build();
    assert!(is_forward(evaluate(
        &cfg,
        &facts("http", "h", "/healthz", "/healthz")
    )));
    let (status, location) = expect_redirect(evaluate(&cfg, &facts("http", "h", "/app", "/app")));
    assert_eq!(status, 301);
    assert_eq!(location, "https://h/app");
}
