use parados::update::{accepts_status, download_url, push_js_escaped, FetchOutcome, UpdateProgress};

#[test]
fn url_of_a_file() {
    assert_eq!(
        download_url("capovolto.html"),
        "https://raw.githubusercontent.com/zdavatz/parados/main/capovolto.html"
    );
}

#[test]
fn only_200_carries_a_file() {
    assert!(accepts_status(200));
    assert!(!accepts_status(204));
    assert!(!accepts_status(301));
}

#[test]
fn counting_and_last_error() {
    let mut p = UpdateProgress::new(6);
    p.record("a.html", FetchOutcome::Stored);
    p.record("b.html", FetchOutcome::HttpStatus(304));
    assert_eq!(p.last_error.as_deref(), Some("b.html: HTTP 304"));
    p.record("c.html", FetchOutcome::Stored);
    p.record("d.html", FetchOutcome::ReadFailed("eof".to_string()));
    assert_eq!(p.last_error.as_deref(), Some("d.html: read body failed: eof"));
    p.record("e.html", FetchOutcome::WriteFailed("disk full".to_string()));
    assert_eq!(p.last_error.as_deref(), Some("e.html: write failed: disk full"));
    p.record("f.html", FetchOutcome::RequestFailed("timeout".to_string()));
    assert_eq!(p.last_error.as_deref(), Some("f.html: timeout"));
    assert_eq!(p.updated, 2);
    assert_eq!(p.processed, 6);
    assert_eq!(p.total, 6);
}

#[test]
fn overlay_unavailable_is_silent() {
    let mut p = UpdateProgress::new(2);
    p.record("a.html", FetchOutcome::OverlayUnavailable);
    assert_eq!(p.updated, 0);
    assert_eq!(p.last_error, None);
    p.record("b.html", FetchOutcome::Stored);
    assert_eq!(p.updated, 1);
    assert_eq!(p.last_error, None);
}

#[test]
fn all_stored_reports_no_error() {
    let mut p = UpdateProgress::new(3);
    for n in ["a", "b", "c"] {
        p.record(n, FetchOutcome::Stored);
    }
    assert_eq!(p.updated, p.total);
    assert_eq!(
        p.done_script(),
        "if (typeof window.parados_update_done === 'function') { window.parados_update_done(3, 3, \"\"); }"
    );
}

#[test]
fn early_failures() {
    let p = UpdateProgress::without_data_dir(20);
    assert_eq!((p.updated, p.total), (0, 20));
    assert_eq!(p.last_error.as_deref(), Some("no data directory"));
    let q = UpdateProgress::mkdir_failed(20, "permission denied");
    assert_eq!(q.last_error.as_deref(), Some("mkdir failed: permission denied"));
    assert_eq!(
        q.done_script(),
        "if (typeof window.parados_update_done === 'function') { window.parados_update_done(0, 20, \"mkdir failed: permission denied\"); }"
    );
}

#[test]
fn error_is_escaped_for_javascript() {
    let mut p = UpdateProgress::new(1);
    p.record("x", FetchOutcome::RequestFailed("bad \"path\" C:\\tmp".to_string()));
    assert_eq!(
        p.done_script(),
        "if (typeof window.parados_update_done === 'function') { window.parados_update_done(0, 1, \"x: bad \\\"path\\\" C:\\\\tmp\"); }"
    );
}

fn unescape(s: &str) -> String {
    let mut out = String::new();
    let mut it = s.chars();
    while let Some(c) = it.next() {
        if c == '\\' {
            if let Some(d) = it.next() {
                out.push(d);
            } else {
                out.push(c);
            }
        } else {
            out.push(c);
        }
    }
    out
}

#[test]
fn escaping_round_trip() {
    for s in ["", "plain", "\"", "\\", "a\\\"b", "\\\\\"\"", "ünï\"cödé\\"] {
        let mut e = String::new();
        push_js_escaped(&mut e, s);
        assert_eq!(unescape(&e), s);
        assert_eq!(e, s.replace('\\', "\\\\").replace('"', "\\\""));
    }
}
