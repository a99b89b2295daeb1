use mods_cf::web::{get_host, is_loopback_host, resolve_host_header_name, HttpConfig};

fn cfg(frontend_url: Option<&str>) -> HttpConfig {
    HttpConfig {
        host_header_name: "host".to_string(),
        frontend_url: frontend_url.map(|s| s.to_string()),
    }
}

#[test]
fn loopback_header_falls_back_to_frontend_url() {
    let r = get_host(Some("localhost:3000".to_string()), &cfg(Some("https://mods.cf")));
    assert_eq!(r, Some("https://mods.cf".to_string()));
}

#[test]
fn plain_header_wins_over_frontend_url() {
    let r = get_host(Some("example.com".to_string()), &cfg(Some("https://mods.cf")));
    assert_eq!(r, Some("example.com".to_string()));
}

#[test]
fn nothing_configured_resolves_to_nothing() {
    let r = get_host(None, &cfg(None));
    assert_eq!(r, None);
}

#[test]
fn absent_header_falls_back_to_frontend_url() {
    let r = get_host(None, &cfg(Some("https://mods.cf")));
    assert_eq!(r, Some("https://mods.cf".to_string()));
}

#[test]
fn scheme_prefixed_loopback_falls_back() {
    let r = get_host(
        Some("http://localhost:3000".to_string()),
        &cfg(Some("https://mods.cf")),
    );
    assert_eq!(r, Some("https://mods.cf".to_string()));
    let r = get_host(
        Some("https://127.0.0.1".to_string()),
        &cfg(Some("https://mods.cf")),
    );
    assert_eq!(r, Some("https://mods.cf".to_string()));
}

#[test]
fn loopback_without_fallback_is_retained() {
    let r = get_host(Some("127.0.0.1:8080".to_string()), &cfg(None));
    assert_eq!(r, Some("127.0.0.1:8080".to_string()));
}

#[test]
fn loopback_detection_matches_prefixes_only() {
    assert!(is_loopback_host("localhost"));
    assert!(is_loopback_host("localhost:3000"));
    assert!(is_loopback_host("127.0.0.1:8080"));
    assert!(is_loopback_host("http://localhost:3000"));
    assert!(is_loopback_host("https://127.0.0.1"));
    assert!(!is_loopback_host("example.com"));
    assert!(!is_loopback_host("http://example.com"));
    assert!(!is_loopback_host("mods.cf"));
    assert!(!is_loopback_host("my-localhost"));
}

#[test]
fn host_header_name_defaults_to_host() {
    assert_eq!(resolve_host_header_name(None), "host".to_string());
    assert_eq!(
        resolve_host_header_name(Some("x-forwarded-host".to_string())),
        "x-forwarded-host".to_string()
    );
}
