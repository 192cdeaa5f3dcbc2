use parados::routing::{game_file, handle_request, not_found, ok};

const KANGY: &[u8] = &[0xff, 0xd8, 0xff, 0xe0, 1, 2, 3];
const ICON: &[u8] = &[0x89, b'P', b'N', b'G', 9, 9];

fn ask(path: &str, overlay: Option<Vec<u8>>, bundled: Option<Vec<u8>>) -> parados::routing::Reply {
    handle_request(path, overlay, bundled, KANGY, ICON)
}

#[test]
fn root_serves_downloaded_index() {
    let r = ask("/", Some(b"<html>fresh</html>".to_vec()), Some(b"<html>bundled</html>".to_vec()));
    assert_eq!(r.status, 200);
    assert_eq!(r.content_type, "text/html; charset=utf-8");
    assert!(r.no_store);
    assert_eq!(r.body, b"<html>fresh</html>".to_vec());
}

#[test]
fn root_falls_back_to_bundled_index() {
    let r = ask("/", None, Some(b"<html>bundled</html>".to_vec()));
    assert_eq!(r.status, 200);
    assert_eq!(r.content_type, "text/html; charset=utf-8");
    assert_eq!(r.body, b"<html>bundled</html>".to_vec());
}

#[test]
fn root_without_any_copy_is_404() {
    let r = ask("/", None, None);
    assert_eq!(r.status, 404);
    assert_eq!(r.body, b"<h1>404</h1><p>Not found: </p>".to_vec());
}

#[test]
fn menu_aliases_give_the_same_page() {
    let page = Some(b"<html>x</html>".to_vec());
    let a = ask("/", page.clone(), None);
    let b = ask("/index.html", page.clone(), None);
    let c = ask("", page.clone(), None);
    assert_eq!(a.body, b.body);
    assert_eq!(a.body, c.body);
    assert_eq!((a.status, a.content_type), (b.status, b.content_type));
}

#[test]
fn overlay_copy_wins() {
    let r = ask("/games/capovolto.html", Some(b"fresh".to_vec()), Some(b"old".to_vec()));
    assert_eq!(r.status, 200);
    assert_eq!(r.body, b"fresh".to_vec());
    assert_eq!(r.content_type, "text/html; charset=utf-8");
}

#[test]
fn bundled_copy_when_no_overlay() {
    let r = ask("/games/divided_loyalties_starting_positions.csv", None, Some(b"a,b".to_vec()));
    assert_eq!(r.status, 200);
    assert_eq!(r.body, b"a,b".to_vec());
    assert_eq!(r.content_type, "text/csv; charset=utf-8");
}

#[test]
fn missing_game_is_404() {
    let r = ask("/games/nope.html", None, None);
    assert_eq!(r.status, 404);
    assert!(!r.no_store);
    assert_eq!(r.content_type, "text/html; charset=utf-8");
    assert_eq!(r.body, b"<h1>404</h1><p>Not found: games/nope.html</p>".to_vec());
}

#[test]
fn assets_are_served() {
    let k = ask("/assets/kangy.jpg", None, None);
    assert_eq!((k.status, k.content_type), (200, "image/jpeg"));
    assert_eq!(k.body, KANGY.to_vec());
    let i = ask("//assets/icon.png", None, None);
    assert_eq!((i.status, i.content_type), (200, "image/png"));
    assert_eq!(i.body, ICON.to_vec());
}

#[test]
fn lookups_ignored_outside_games() {
    let r = ask("/assets/kangy.jpg", Some(b"x".to_vec()), Some(b"y".to_vec()));
    assert_eq!(r.body, KANGY.to_vec());
    let r = ask("/other", Some(b"x".to_vec()), None);
    assert_eq!(r.status, 404);
}

#[test]
fn unknown_path_is_404() {
    let r = ask("/nothing/here", None, None);
    assert_eq!(r.status, 404);
    assert_eq!(r.body, b"<h1>404</h1><p>Not found: nothing/here</p>".to_vec());
}

#[test]
fn every_answer_is_200_or_404() {
    for p in ["", "/", "/x", "/games/", "/games/a.js", "/assets/", "/index.htm"] {
        let r = ask(p, None, None);
        assert!(r.status == 200 || r.status == 404);
    }
}

#[test]
fn game_file_names() {
    assert_eq!(game_file("/games/capovolto.html"), Some("capovolto.html"));
    assert_eq!(game_file("games/x"), Some("x"));
    assert_eq!(game_file("/assets/kangy.jpg"), None);
    assert_eq!(game_file("/"), Some("index.html"));
    assert_eq!(game_file(""), Some("index.html"));
    assert_eq!(game_file("//index.html"), Some("index.html"));
    assert_eq!(game_file("/other"), None);
}

#[test]
fn ok_and_not_found_replies() {
    let r = ok(vec![1, 2], "image/png");
    assert_eq!((r.status, r.content_type, r.no_store, r.body), (200, "image/png", true, vec![1, 2]));
    let n = not_found("a<b");
    assert_eq!(n.status, 404);
    assert_eq!(n.body, b"<h1>404</h1><p>Not found: a<b</p>".to_vec());
}
