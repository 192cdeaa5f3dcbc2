//! "Spiele aktualisieren": the bookkeeping of the download of fresh game
//! files.  The caller fetches and stores each file and reports what
//! happened; this module keeps the count and the last error, and words
//! the report that goes back to the menu page.

use vstd::prelude::*;
use crate::text::{decimal, digits_value, lemma_decimal_round_trip, push_decimal};

verus! {

/// Where fresh game files are fetched from; a file's address is this
/// followed by its name.
pub const UPDATE_BASE_URL: &'static str = "https://raw.githubusercontent.com/zdavatz/parados/main/";

/// What became of one file.
pub enum FetchOutcome {
    /// Fetched, written to disk and put in the in-memory overlay.
    Stored,
    /// Fetched and written, but the overlay could not be locked; not
    /// counted, and no error reported.
    OverlayUnavailable,
    /// The body of the answer could not be read.
    ReadFailed(String),
    /// The file could not be written.
    WriteFailed(String),
    /// The server answered with another status than 200.
    HttpStatus(u16),
    /// The request itself failed.
    RequestFailed(String),
}

/// The state of a run: how many files were stored, how many have been
/// handled, out of how many, and the last error met.
pub struct UpdateProgress {
    pub updated: usize,
    pub processed: usize,
    pub total: usize,
    pub last_error: Option<String>,
}

/// The characters of an optional `String`.
pub open spec fn opt_string(o: Option<String>) -> Option<Seq<char>> {
    match o {
        Some(s) => Some(s@),
        None => None,
    }
}

impl UpdateProgress {
    /// No more files are stored than handled, nor handled than there are.
    pub open spec fn wf(&self) -> bool {
        self.updated <= self.processed <= self.total
    }

    /// A run over `total` files that has not begun.
    pub fn new(total: usize) -> (r: Self)
        ensures
            r.wf(),
            r.updated == 0,
            r.processed == 0,
            r.total == total,
            r.last_error is None,
    {
        UpdateProgress { updated: 0, processed: 0, total, last_error: None }
    }

    /// A run that could not begin because there is no data directory.
    pub fn without_data_dir(total: usize) -> (r: Self)
        ensures
            r.wf(),
            r.updated == 0,
            r.processed == 0,
            r.total == total,
            opt_string(r.last_error) == Some("no data directory"@),
    {
        UpdateProgress {
            updated: 0,
            processed: 0,
            total,
            last_error: Some(String::from_str("no data directory")),
        }
    }

    /// A run that could not begin because the games directory could not
    /// be created, for the given reason.
    pub fn mkdir_failed(total: usize, reason: &str) -> (r: Self)
        ensures
            r.wf(),
            r.updated == 0,
            r.processed == 0,
            r.total == total,
            opt_string(r.last_error) == Some("mkdir failed: "@ + reason@),
    {
        let mut e = String::from_str("mkdir failed: ");
        e.append(reason);
        UpdateProgress { updated: 0, processed: 0, total, last_error: Some(e) }
    }

    /// Records what became of the file `name`: a stored file is counted,
    /// a failure becomes the last error, a file that reached the disk but
    /// not the overlay leaves both as they were.
    pub fn record(&mut self, name: &str, outcome: FetchOutcome)
        requires
            old(self).wf(),
            old(self).processed < old(self).total,
        ensures
            final(self).wf(),
            final(self).total == old(self).total,
            final(self).processed == old(self).processed + 1,
            final(self).updated == old(self).updated + (if outcome is Stored {
                1int
            } else {
                0int
            }),
            opt_string(final(self).last_error) == (match outcome {
                FetchOutcome::Stored => opt_string(old(self).last_error),
                FetchOutcome::OverlayUnavailable => opt_string(old(self).last_error),
                FetchOutcome::ReadFailed(e) => Some(name@ + ": read body failed: "@ + e@),
                FetchOutcome::WriteFailed(e) => Some(name@ + ": write failed: "@ + e@),
                FetchOutcome::HttpStatus(s) => Some(name@ + ": HTTP "@ + decimal(s as nat)),
                FetchOutcome::RequestFailed(e) => Some(name@ + ": "@ + e@),
            }),
    {
        self.processed = self.processed + 1;
        match outcome {
            FetchOutcome::Stored => {
                self.updated = self.updated + 1;
            },
            FetchOutcome::OverlayUnavailable => {},
            FetchOutcome::ReadFailed(e) => {
                let mut m = String::from_str(name);
                m.append(": read body failed: ");
                m.append(e.as_str());
                self.last_error = Some(m);
            },
            FetchOutcome::WriteFailed(e) => {
                let mut m = String::from_str(name);
                m.append(": write failed: ");
                m.append(e.as_str());
                self.last_error = Some(m);
            },
            FetchOutcome::HttpStatus(s) => {
                let mut m = String::from_str(name);
                m.append(": HTTP ");
                push_decimal(&mut m, s as u64);
                self.last_error = Some(m);
            },
            FetchOutcome::RequestFailed(e) => {
                let mut m = String::from_str(name);
                m.append(": ");
                m.append(e.as_str());
                self.last_error = Some(m);
            },
        }
    }

    /// The script that hands the result to the menu page's toast:
    /// `window.parados_update_done(updated, total, "error")`, called only
    /// where the page defines it; a missing error is the empty string.
    pub fn done_script(&self) -> (r: String)
        ensures
            r@ == done_script_text(
                self.updated as nat,
                self.total as nat,
                match opt_string(self.last_error) {
                    Some(e) => e,
                    None => Seq::<char>::empty(),
                },
            ),
    {
        let mut s = String::from_str(
            "if (typeof window.parados_update_done === 'function') { window.parados_update_done(",
        );
        push_decimal(&mut s, self.updated as u64);
        s.append(", ");
        push_decimal(&mut s, self.total as u64);
        s.append(", \"");
        match &self.last_error {
            Some(e) => push_js_escaped(&mut s, e.as_str()),
            None => {},
        }
        s.append("\"); }");
        s
    }
}

/// The address a file is fetched from.
pub fn download_url(name: &str) -> (r: String)
    ensures
        r@ == UPDATE_BASE_URL@ + name@,
{
    let mut s = String::from_str(UPDATE_BASE_URL);
    s.append(name);
    s
}

/// Only an answer with status 200 carries a file.
pub fn accepts_status(status: u16) -> (r: bool)
    ensures
        r == (status == 200),
{
    status == 200
}

/// What a character becomes inside a double-quoted JavaScript string: a
/// backslash and a double quote get a backslash in front.
pub open spec fn js_char(c: char) -> Seq<char> {
    if c == '\\' {
        seq!['\\', '\\']
    } else if c == '"' {
        seq!['\\', '"']
    } else {
        seq![c]
    }
}

/// Text made safe for a double-quoted JavaScript string.
pub open spec fn js_escaped(s: Seq<char>) -> Seq<char>
    decreases s.len(),
{
    if s.len() == 0 {
        seq![]
    } else {
        js_char(s[0]) + js_escaped(s.drop_first())
    }
}

/// What a JavaScript string literal denotes, for the two escapes above:
/// a backslash stands for the character after it.
pub open spec fn js_unescaped(s: Seq<char>) -> Seq<char>
    decreases s.len(),
{
    if s.len() == 0 {
        seq![]
    } else if s[0] == '\\' && s.len() >= 2 {
        seq![s[1]] + js_unescaped(s.skip(2))
    } else {
        seq![s[0]] + js_unescaped(s.drop_first())
    }
}

/// The text of the report script.
pub open spec fn done_script_text(updated: nat, total: nat, error: Seq<char>) -> Seq<char> {
    "if (typeof window.parados_update_done === 'function') { window.parados_update_done("@
        + decimal(updated) + ", "@ + decimal(total) + ", \""@ + js_escaped(error) + "\"); }"@
}

/// Appends `t` escaped for a double-quoted JavaScript string.
pub fn push_js_escaped(s: &mut String, t: &str)
    ensures
        final(s)@ == old(s)@ + js_escaped(t@),
{
    let n = t.unicode_len();
    let mut i: usize = 0;
    assert(t@.skip(0) =~= t@);
    while i < n
        invariant
            n == t@.len(),
            i <= n,
            s@ + js_escaped(t@.skip(i as int)) == old(s)@ + js_escaped(t@),
        decreases n - i,
    {
        let c = t.get_char(i);
        proof {
            let rest = t@.skip(i as int);
            assert(rest[0] == c);
            assert(rest.drop_first() =~= t@.skip(i + 1));
            assert(js_escaped(rest) == js_char(c) + js_escaped(t@.skip(i + 1)));
        }
        let ghost before = s@;
        if c == '\\' {
            s.append("\\\\");
            proof {
                reveal_strlit("\\\\");
            }
        } else if c == '"' {
            s.append("\\\"");
            proof {
                reveal_strlit("\\\"");
            }
        } else {
            let one = t.substring_char(i, i + 1);
            s.append(one);
            assert(one@ =~= seq![c]);
        }
        assert(s@ =~= before + js_char(c));
        assert(s@ + js_escaped(t@.skip(i + 1)) =~= before + js_escaped(t@.skip(i as int)));
        i = i + 1;
    }
    assert(t@.skip(n as int) =~= Seq::<char>::empty());
    assert(s@ =~= old(s)@ + js_escaped(t@));
}

/// The page reads back exactly the error text that was sent: unescaping
/// undoes the escaping.
pub proof fn lemma_js_escape_round_trip(s: Seq<char>)
    ensures
        js_unescaped(js_escaped(s)) == s,
    decreases s.len(),
{
    if s.len() > 0 {
        lemma_js_escape_round_trip(s.drop_first());
        let e = js_escaped(s);
        let tail = js_escaped(s.drop_first());
        assert(e == js_char(s[0]) + tail);
        if s[0] == '\\' || s[0] == '"' {
            assert(e[0] == '\\');
            assert(e.skip(2) =~= tail);
            assert(e[1] == s[0]);
        } else {
            assert(e.drop_first() =~= tail);
            assert(e[0] == s[0]);
        }
        assert(js_unescaped(e) =~= s);
    }
}

/// The report's opening, before the first number.
pub open spec fn report_call() -> Seq<char> {
    "if (typeof window.parados_update_done === 'function') { window.parados_update_done("@
}

/// The report gives the number of stored files and the number of files,
/// whatever the error: read from just after the call's opening, the first
/// argument denotes `updated` and the second `total`, and a report with an
/// error agrees with the report without one up to the error text.
pub proof fn lemma_report_counts_do_not_depend_on_error(updated: nat, total: nat, error: Seq<char>)
    ensures
        ({
            let s = done_script_text(updated, total, error);
            let p = report_call().len() as int;
            let du = decimal(updated).len() as int;
            let dt = decimal(total).len() as int;
            &&& digits_value(s.subrange(p, p + du)) == updated as int
            &&& s[p + du] == ','
            &&& digits_value(s.subrange(p + du + 2, p + du + 2 + dt)) == total as int
            &&& s.subrange(0, p + du + 2 + dt) == done_script_text(updated, total, seq![]).subrange(
                0,
                p + du + 2 + dt,
            )
        }),
{
    reveal_strlit(", ");
    reveal_strlit(", \"");
    lemma_decimal_round_trip(updated);
    lemma_decimal_round_trip(total);
    let p = report_call().len() as int;
    let du = decimal(updated).len() as int;
    let dt = decimal(total).len() as int;
    let head = report_call() + decimal(updated) + ", "@ + decimal(total);
    let s = done_script_text(updated, total, error);
    let e = done_script_text(updated, total, seq![]);
    assert(s =~= head + (", \""@ + js_escaped(error) + "\"); }"@));
    assert(e =~= head + (", \""@ + js_escaped(seq![]) + "\"); }"@));
    assert(head.len() == p + du + 2 + dt);
    assert(s.subrange(p, p + du) =~= decimal(updated));
    assert(s.subrange(p + du + 2, p + du + 2 + dt) =~= decimal(total));
    assert(s.subrange(0, p + du + 2 + dt) =~= head);
    assert(e.subrange(0, p + du + 2 + dt) =~= head);
}

} // verus!
