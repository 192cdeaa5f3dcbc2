//! The `Content-Type` of a served file, from its name.

use vstd::prelude::*;
use crate::text::str_eq;

verus! {

/// What follows the last `.` of a file name; the whole name where it has
/// no `.`.
pub open spec fn extension(name: Seq<char>) -> Seq<char>
    decreases name.len(),
{
    if name.len() == 0 {
        name
    } else if name.last() == '.' {
        seq![]
    } else {
        extension(name.drop_last()).push(name.last())
    }
}

/// The MIME type served for an extension (case-sensitive), with
/// `application/octet-stream` for every extension not listed.
pub open spec fn mime_for_extension(ext: Seq<char>) -> Seq<char> {
    if ext == "html"@ || ext == "htm"@ {
        "text/html; charset=utf-8"@
    } else if ext == "css"@ {
        "text/css; charset=utf-8"@
    } else if ext == "js"@ {
        "application/javascript; charset=utf-8"@
    } else if ext == "json"@ {
        "application/json; charset=utf-8"@
    } else if ext == "csv"@ {
        "text/csv; charset=utf-8"@
    } else if ext == "svg"@ {
        "image/svg+xml"@
    } else if ext == "png"@ {
        "image/png"@
    } else if ext == "jpg"@ || ext == "jpeg"@ {
        "image/jpeg"@
    } else if ext == "gif"@ {
        "image/gif"@
    } else if ext == "webp"@ {
        "image/webp"@
    } else {
        "application/octet-stream"@
    }
}

/// Where the end of a name, from `k` on, holds no `.`, the extension is that
/// of the beginning followed by the end.
pub proof fn lemma_extension_split(s: Seq<char>, k: int)
    requires
        0 <= k <= s.len(),
        forall|j: int| k <= j < s.len() ==> s[j] != '.',
    ensures
        extension(s) == extension(s.take(k)) + s.skip(k),
    decreases s.len() - k,
{
    if k == s.len() {
        assert(s.take(k) =~= s);
        assert(s.skip(k) =~= Seq::<char>::empty());
    } else {
        let t = s.drop_last();
        lemma_extension_split(t, k);
        assert(t.take(k) =~= s.take(k));
        assert(s.skip(k) =~= t.skip(k).push(s.last()));
        assert(extension(s) == extension(t).push(s.last()));
        assert(extension(s) =~= extension(s.take(k)) + s.skip(k));
    }
}

/// The MIME type of a file, guessed from its extension.
pub fn guess_mime(filename: &str) -> (r: &'static str)
    ensures
        r@ == mime_for_extension(extension(filename@)),
{
    let len = filename.unicode_len();
    let mut i = len;
    while i > 0 && filename.get_char(i - 1) != '.'
        invariant
            len == filename@.len(),
            i <= len,
            forall|j: int| i <= j < len ==> filename@[j] != '.',
        decreases i,
    {
        i = i - 1;
    }
    proof {
        lemma_extension_split(filename@, i as int);
        if i > 0 {
            assert(filename@.take(i as int).last() == '.');
        } else {
            assert(filename@.take(0) =~= Seq::<char>::empty());
        }
    }
    let ext = filename.substring_char(i, len);
    assert(ext@ == extension(filename@));
    if str_eq(ext, "html") || str_eq(ext, "htm") {
        "text/html; charset=utf-8"
    } else if str_eq(ext, "css") {
        "text/css; charset=utf-8"
    } else if str_eq(ext, "js") {
        "application/javascript; charset=utf-8"
    } else if str_eq(ext, "json") {
        "application/json; charset=utf-8"
    } else if str_eq(ext, "csv") {
        "text/csv; charset=utf-8"
    } else if str_eq(ext, "svg") {
        "image/svg+xml"
    } else if str_eq(ext, "png") {
        "image/png"
    } else if str_eq(ext, "jpg") || str_eq(ext, "jpeg") {
        "image/jpeg"
    } else if str_eq(ext, "gif") {
        "image/gif"
    } else if str_eq(ext, "webp") {
        "image/webp"
    } else {
        "application/octet-stream"
    }
}

/// Only what follows the last `.` decides the type: any name, a dot and an
/// extension without a dot have the type of that extension.
pub proof fn lemma_mime_depends_on_last_extension(stem: Seq<char>, ext: Seq<char>)
    requires
        forall|j: int| 0 <= j < ext.len() ==> ext[j] != '.',
    ensures
        mime_for_extension(extension(stem.push('.') + ext)) == mime_for_extension(ext),
{
    let s = stem.push('.') + ext;
    let k: int = stem.len() as int + 1;
    assert forall|j: int| k <= j < s.len() implies s[j] != '.' by {
        assert(s[j] == ext[j - k]);
    }
    lemma_extension_split(s, k);
    assert(s.take(k) =~= stem.push('.'));
    assert(s.skip(k) =~= ext);
    assert(extension(stem.push('.')) =~= Seq::<char>::empty());
    assert(extension(s) =~= ext);
}

/// The types served: HTML for `html` and `htm`, JPEG for `jpg` and
/// `jpeg`, the text formats with UTF-8 as charset, and the generic
/// `application/octet-stream` for every extension not listed.
pub proof fn lemma_mime_table(other: Seq<char>)
    requires
        other != "html"@ && other != "htm"@ && other != "css"@ && other != "js"@ && other
            != "json"@ && other != "csv"@ && other != "svg"@ && other != "png"@ && other
            != "jpg"@ && other != "jpeg"@ && other != "gif"@ && other != "webp"@,
    ensures
        mime_for_extension("html"@) == "text/html; charset=utf-8"@,
        mime_for_extension("htm"@) == mime_for_extension("html"@),
        mime_for_extension("css"@) == "text/css; charset=utf-8"@,
        mime_for_extension("js"@) == "application/javascript; charset=utf-8"@,
        mime_for_extension("json"@) == "application/json; charset=utf-8"@,
        mime_for_extension("csv"@) == "text/csv; charset=utf-8"@,
        mime_for_extension("svg"@) == "image/svg+xml"@,
        mime_for_extension("png"@) == "image/png"@,
        mime_for_extension("jpg"@) == "image/jpeg"@,
        mime_for_extension("jpeg"@) == mime_for_extension("jpg"@),
        mime_for_extension("gif"@) == "image/gif"@,
        mime_for_extension("webp"@) == "image/webp"@,
        mime_for_extension(other) == "application/octet-stream"@,
{
    reveal_strlit("html");
    reveal_strlit("htm");
    reveal_strlit("css");
    reveal_strlit("js");
    reveal_strlit("json");
    reveal_strlit("csv");
    reveal_strlit("svg");
    reveal_strlit("png");
    reveal_strlit("jpg");
    reveal_strlit("jpeg");
    reveal_strlit("gif");
    reveal_strlit("webp");
    assert("htm"@.len() != "html"@.len());
    assert("css"@[0] != "html"@[0] && "css"@[0] != "htm"@[0]);
    assert("js"@.len() != "css"@.len() && "js"@.len() != "html"@.len() && "js"@.len() != "htm"@.len());
    assert("json"@[0] != "html"@[0]);
    assert("csv"@[0] != "htm"@[0] && "csv"@[2] != "css"@[2]);
    assert("svg"@[0] != "htm"@[0] && "svg"@[0] != "css"@[0] && "svg"@[0] != "csv"@[0]);
    assert("png"@[0] != "htm"@[0] && "png"@[0] != "css"@[0] && "png"@[0] != "csv"@[0] && "png"@[0] != "svg"@[0]);
    assert("jpg"@[0] != "htm"@[0] && "jpg"@[0] != "css"@[0] && "jpg"@[0] != "csv"@[0] && "jpg"@[0] != "svg"@[0] && "jpg"@[0] != "png"@[0]);
    assert("jpeg"@[0] != "html"@[0] && "jpeg"@[1] != "json"@[1]);
    assert("gif"@[0] != "htm"@[0] && "gif"@[0] != "css"@[0] && "gif"@[0] != "csv"@[0] && "gif"@[0] != "svg"@[0] && "gif"@[0] != "png"@[0] && "gif"@[0] != "jpg"@[0]);
    assert("webp"@[0] != "html"@[0] && "webp"@[0] != "json"@[0] && "webp"@[0] != "jpeg"@[0]);
}

} // verus!
