use parados::mime::guess_mime;

#[test]
fn known_extensions() {
    assert_eq!(guess_mime("a.html"), "text/html; charset=utf-8");
    assert_eq!(guess_mime("a.htm"), "text/html; charset=utf-8");
    assert_eq!(guess_mime("s.css"), "text/css; charset=utf-8");
    assert_eq!(guess_mime("s.js"), "application/javascript; charset=utf-8");
    assert_eq!(guess_mime("d.json"), "application/json; charset=utf-8");
    assert_eq!(guess_mime("p.csv"), "text/csv; charset=utf-8");
    assert_eq!(guess_mime("i.svg"), "image/svg+xml");
    assert_eq!(guess_mime("i.png"), "image/png");
    assert_eq!(guess_mime("i.jpg"), "image/jpeg");
    assert_eq!(guess_mime("i.jpeg"), "image/jpeg");
    assert_eq!(guess_mime("i.gif"), "image/gif");
    assert_eq!(guess_mime("i.webp"), "image/webp");
}

#[test]
fn unknown_extensions() {
    assert_eq!(guess_mime("a.txt"), "application/octet-stream");
    assert_eq!(guess_mime("noext"), "application/octet-stream");
    assert_eq!(guess_mime(""), "application/octet-stream");
    assert_eq!(guess_mime("a."), "application/octet-stream");
    assert_eq!(guess_mime("A.HTML"), "application/octet-stream");
}

#[test]
fn only_last_extension_counts() {
    assert_eq!(guess_mime("archive.tar.png"), "image/png");
    assert_eq!(guess_mime("a.html.gz"), "application/octet-stream");
    assert_eq!(guess_mime("dir.v2/page.css"), "text/css; charset=utf-8");
    assert_eq!(guess_mime("dir.css/page"), "application/octet-stream");
}

#[test]
fn bare_extension_name() {
    assert_eq!(guess_mime("html"), "text/html; charset=utf-8");
    assert_eq!(guess_mime(".js"), "application/javascript; charset=utf-8");
}
