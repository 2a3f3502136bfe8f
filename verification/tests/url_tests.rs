use truehub_api::url::normalize_server_url;

#[test]
fn normalize_adds_scheme_and_path() {
    assert_eq!(normalize_server_url("192.168.1.70"), "wss://192.168.1.70/api/current");
}

#[test]
fn normalize_empty_and_blank_give_empty() {
    assert_eq!(normalize_server_url(""), "");
    assert_eq!(normalize_server_url("   \t\n"), "");
    assert_eq!(normalize_server_url(" /// "), "");
}

#[test]
fn normalize_rewrites_http_schemes() {
    assert_eq!(normalize_server_url("http://nas.local"), "ws://nas.local/api/current");
    assert_eq!(normalize_server_url("https://nas.local"), "wss://nas.local/api/current");
}

#[test]
fn normalize_keeps_websocket_schemes() {
    assert_eq!(normalize_server_url("ws://nas.local"), "ws://nas.local/api/current");
    assert_eq!(normalize_server_url("wss://nas.local:8443"), "wss://nas.local:8443/api/current");
}

#[test]
fn normalize_does_not_double_the_api_path() {
    assert_eq!(normalize_server_url("wss://nas.local/api/current"), "wss://nas.local/api/current");
    assert_eq!(normalize_server_url("https://nas.local/api/current/"), "wss://nas.local/api/current");
}

#[test]
fn normalize_trims_white_space_and_trailing_slashes() {
    assert_eq!(normalize_server_url("  https://nas.local///  "), "wss://nas.local/api/current");
    assert_eq!(normalize_server_url("\u{3000}nas.local\u{00A0}"), "wss://nas.local/api/current");
}

#[test]
fn normalize_strips_only_one_api_path() {
    assert_eq!(
        normalize_server_url("wss://h/api/current/api/current"),
        "wss://h/api/current/api/current"
    );
}

#[test]
fn normalize_bare_scheme_is_treated_as_a_host() {
    // "https://" loses its slashes first, so it no longer starts with a scheme.
    assert_eq!(normalize_server_url("https://"), "wss://https:/api/current");
}

#[test]
fn normalize_is_idempotent_on_examples() {
    for input in ["nas", " http://a/b/ ", "wss://x/api/current", "ws://y//", "https://z"] {
        let once = normalize_server_url(input);
        assert_eq!(normalize_server_url(&once), once);
    }
}
