use parados::index_html::render_button;
use parados::text::{push_decimal, starts_with, str_eq, strip_prefix, trim_slashes};

fn decimal(n: u64) -> String {
    let mut s = String::new();
    push_decimal(&mut s, n);
    s
}

#[test]
fn decimal_matches_display() {
    for n in [0u64, 7, 9, 10, 11, 99, 100, 200, 404, 65535, u64::MAX] {
        assert_eq!(decimal(n), n.to_string());
    }
}

#[test]
fn decimal_reads_back() {
    for n in [0u64, 5, 42, 1000, 123456789] {
        assert_eq!(decimal(n).parse::<u64>().unwrap(), n);
    }
}

#[test]
fn decimal_appends() {
    let mut s = String::from("HTTP ");
    push_decimal(&mut s, 301);
    assert_eq!(s, "HTTP 301");
}

#[test]
fn string_comparisons() {
    assert!(str_eq("index.html", "index.html"));
    assert!(!str_eq("index.html", "index.htm"));
    assert!(str_eq("", ""));
    assert!(str_eq("Ünïcödé", "Ünïcödé"));
    assert!(starts_with("https://x", "https://"));
    assert!(!starts_with("http", "https://"));
    assert!(starts_with("abc", ""));
}

#[test]
fn prefix_stripping() {
    assert_eq!(strip_prefix("games/capovolto.html", "games/"), Some("capovolto.html"));
    assert_eq!(strip_prefix("game/capovolto.html", "games/"), None);
    assert_eq!(strip_prefix("games/", "games/"), Some(""));
}

#[test]
fn leading_slashes_trimmed() {
    assert_eq!(trim_slashes("///games/a.html"), "games/a.html");
    assert_eq!(trim_slashes("/"), "");
    assert_eq!(trim_slashes("a/b/"), "a/b/");
}

fn label_of(label: &str) -> String {
    let b = render_button(0, label, "f.html", None);
    let start = b.find("\">").unwrap() + 2;
    b[start..b.len() - "</button>".len()].to_string()
}

fn file_of(file: &str) -> String {
    let b = render_button(0, "L", file, None);
    let start = b.find("games/").unwrap() + "games/".len();
    let end = b.find("\">").unwrap();
    b[start..end].to_string()
}

#[test]
fn text_escaping() {
    assert_eq!(label_of("a<b>&c"), "a&lt;b&gt;&amp;c");
    assert_eq!(label_of("Where's \"that\""), "Where's \"that\"");
    assert_eq!(label_of("plain — text"), "plain — text");
}

#[test]
fn attribute_escaping() {
    assert_eq!(file_of("\"'&<>"), "&quot;&#x27;&amp;&lt;&gt;");
    assert_eq!(file_of("a/b?c=d"), "a/b?c=d");
}

#[test]
fn escaped_text_cannot_open_tags() {
    for s in ["<script>", "a > b", "<<>>", "&lt;"] {
        let e = label_of(s);
        assert!(!e.contains('<') && !e.contains('>'));
    }
}

#[test]
fn escaped_attribute_stays_quoted() {
    for s in ["\" onclick=\"x", "' or '1'='1", "<a>"] {
        let e = file_of(s);
        assert!(!e.contains('"') && !e.contains('\'') && !e.contains('<') && !e.contains('>'));
    }
}
