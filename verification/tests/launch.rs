use parados::launch::{
    init_script, opens_in_browser, parse_args, parse_ipc, IpcMessage, BACK_BUTTON_JS, RULES_DISMISS_JS,
};

fn args(v: &[&str]) -> Vec<String> {
    v.iter().map(|s| s.to_string()).collect()
}

#[test]
fn no_arguments() {
    let o = parse_args(&args(&["parados"]));
    assert_eq!(o.initial_url, "parados://localhost/");
    assert!(!o.screenshot);
    let e = parse_args(&args(&[]));
    assert_eq!(e.initial_url, "parados://localhost/");
}

#[test]
fn url_and_screenshot() {
    let o = parse_args(&args(&["parados", "--url", "parados://localhost/games/capovolto.html", "--screenshot"]));
    assert_eq!(o.initial_url, "parados://localhost/games/capovolto.html");
    assert!(o.screenshot);
}

#[test]
fn last_url_wins_and_dangling_url_ignored() {
    let o = parse_args(&args(&["p", "--url", "a", "--url", "b", "--url"]));
    assert_eq!(o.initial_url, "b");
    assert!(!o.screenshot);
}

#[test]
fn url_value_is_not_an_option() {
    let o = parse_args(&args(&["p", "--url", "--screenshot"]));
    assert_eq!(o.initial_url, "--screenshot");
    assert!(!o.screenshot);
    let q = parse_args(&args(&["--screenshot"]));
    assert!(!q.screenshot);
}

#[test]
fn unknown_arguments_ignored() {
    let o = parse_args(&args(&["p", "-v", "--screenshot", "x"]));
    assert_eq!(o.initial_url, "parados://localhost/");
    assert!(o.screenshot);
}

#[test]
fn scripts() {
    assert_eq!(init_script(false), BACK_BUTTON_JS);
    assert_eq!(init_script(true), format!("{}\n{}", BACK_BUTTON_JS, RULES_DISMISS_JS));
    assert!(BACK_BUTTON_JS.contains("__parados_back"));
    assert!(RULES_DISMISS_JS.contains("closeRules"));
}

#[test]
fn web_addresses_leave_the_app() {
    assert!(opens_in_browser("https://wa.me/?text=hi"));
    assert!(opens_in_browser("http://example.com"));
    assert!(!opens_in_browser("parados://localhost/games/a.html"));
    assert!(!opens_in_browser("HTTPS://x"));
    assert!(!opens_in_browser("ftp://x"));
}

#[test]
fn ipc_messages() {
    match parse_ipc("open-external:https://game.ywesee.com/parados/") {
        IpcMessage::OpenExternal(u) => assert_eq!(u, "https://game.ywesee.com/parados/"),
        _ => panic!("expected an address"),
    }
    assert!(matches!(parse_ipc("update-games"), IpcMessage::UpdateGames));
    assert!(matches!(parse_ipc("update-games "), IpcMessage::Unknown));
    assert!(matches!(parse_ipc("hello"), IpcMessage::Unknown));
    match parse_ipc("open-external:") {
        IpcMessage::OpenExternal(u) => assert_eq!(u, ""),
        _ => panic!("expected an empty address"),
    }
}

#[test]
fn title_shows_version() {
    assert_eq!(parados::launch::window_title("1.0.2"), "Parados 1.0.2");
}

#[test]
fn data_folder_names() {
    assert_eq!(parados::launch::data_dir_name(true), "parados");
    assert_eq!(parados::launch::data_dir_name(false), "Parados");
}

#[test]
fn open_external_round_trip() {
    for u in ["https://game.ywesee.com/parados/", "", "x:y"] {
        match parse_ipc(&format!("open-external:{}", u)) {
            IpcMessage::OpenExternal(back) => assert_eq!(back, u),
            _ => panic!("expected an address"),
        }
    }
}
