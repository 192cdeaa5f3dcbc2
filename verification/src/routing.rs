//! Answers to `parados://localhost/<path>` requests.

use vstd::prelude::*;
use vstd::utf8::encode_utf8;
use vstd::slice::slice_to_vec;
use crate::games::{opt_chars, update_files};
use crate::mime::{extension, guess_mime, mime_for_extension};
use crate::text::{str_eq, strip_prefix, trim_leading_slashes, trim_slashes};

verus! {

/// An HTTP answer of the custom protocol.  `no_store` asks the webview
/// not to cache it (`Cache-Control: no-store`).
pub struct Reply {
    pub status: u16,
    pub content_type: &'static str,
    pub no_store: bool,
    pub body: Vec<u8>,
}

/// The contents of a `Reply`.
pub struct ReplyView {
    pub status: u16,
    pub content_type: Seq<char>,
    pub no_store: bool,
    pub body: Seq<u8>,
}

impl View for Reply {
    type V = ReplyView;

    open spec fn view(&self) -> ReplyView {
        ReplyView {
            status: self.status,
            content_type: self.content_type@,
            no_store: self.no_store,
            body: self.body@,
        }
    }
}

/// A successful answer: status 200, not to be cached.
pub open spec fn ok_view(body: Seq<u8>, mime: Seq<char>) -> ReplyView {
    ReplyView { status: 200, content_type: mime, no_store: true, body }
}

/// The page of a 404 answer for `path`.
pub open spec fn not_found_page(path: Seq<char>) -> Seq<char> {
    "<h1>404</h1><p>Not found: "@ + path + "</p>"@
}

/// A 404 answer for `path`: an HTML page that names it.
pub open spec fn not_found_view(path: Seq<char>) -> ReplyView {
    ReplyView {
        status: 404,
        content_type: "text/html; charset=utf-8"@,
        no_store: false,
        body: encode_utf8(not_found_page(path)),
    }
}

/// Whether the path, without its leading slashes, names the landing page.
pub open spec fn is_menu_path(t: Seq<char>) -> bool {
    t.len() == 0 || t == "index.html"@
}

/// The file that a path (without leading slashes) asks for: the shared
/// landing page `index.html` for the menu paths, and what follows
/// `games/` for a game path.
pub open spec fn game_file_of(t: Seq<char>) -> Option<Seq<char>> {
    if is_menu_path(t) {
        Some("index.html"@)
    } else if "games/"@.is_prefix_of(t) {
        Some(t.skip("games/"@.len() as int))
    } else {
        None
    }
}

/// The answer to a request for `path`.  `overlay` is the downloaded copy
/// and `bundled` the built-in copy of the file that the path names (see
/// `game_file`); the downloaded copy wins.  So `/` serves the shared
/// `index.html` as "Spiele aktualisieren" last refreshed it, and the
/// built-in one before any refresh.  `kangy` and `icon` are the built-in
/// logo and icon.
pub open spec fn reply_for(
    path: Seq<char>,
    overlay: Option<Seq<u8>>,
    bundled: Option<Seq<u8>>,
    kangy: Seq<u8>,
    icon: Seq<u8>,
) -> ReplyView {
    let t = trim_leading_slashes(path);
    if game_file_of(t) is Some && overlay is Some {
        ok_view(overlay->0, mime_for_extension(extension(game_file_of(t)->0)))
    } else if game_file_of(t) is Some && bundled is Some {
        ok_view(bundled->0, mime_for_extension(extension(game_file_of(t)->0)))
    } else if t == "assets/kangy.jpg"@ {
        ok_view(kangy, "image/jpeg"@)
    } else if t == "assets/icon.png"@ {
        ok_view(icon, "image/png"@)
    } else {
        not_found_view(t)
    }
}

/// A successful answer with the given body and type.
pub fn ok(body: Vec<u8>, mime: &'static str) -> (r: Reply)
    ensures
        r@ == ok_view(body@, mime@),
{
    Reply { status: 200, content_type: mime, no_store: true, body }
}

/// The 404 answer for `path`.
pub fn not_found(path: &str) -> (r: Reply)
    ensures
        r@ == not_found_view(path@),
{
    let mut page = String::new();
    page.append("<h1>404</h1><p>Not found: ");
    page.append(path);
    page.append("</p>");
    let body = page.as_str().as_bytes_vec();
    Reply { status: 404, content_type: "text/html; charset=utf-8", no_store: false, body }
}

/// The file that a request path asks for (see `game_file_of`): the
/// landing page for `/` and `/index.html`, what follows `games/` for a
/// game path, nothing for any other path.
pub fn game_file(path: &str) -> (r: Option<&str>)
    ensures
        opt_chars(r) == game_file_of(trim_leading_slashes(path@)),
{
    let t = trim_slashes(path);
    if t.unicode_len() == 0 || str_eq(t, "index.html") {
        return Some("index.html");
    }
    strip_prefix(t, "games/")
}

/// Answers a request for `path` (see `reply_for`).  It never fails: a path
/// that names nothing gets a 404 page.
pub fn handle_request(
    path: &str,
    overlay: Option<Vec<u8>>,
    bundled: Option<Vec<u8>>,
    kangy: &[u8],
    icon: &[u8],
) -> (r: Reply)
    ensures
        r@ == reply_for(path@, vec_opt_view(overlay), vec_opt_view(bundled), kangy@, icon@),
{
    let t = trim_slashes(path);
    if let Some(name) = game_file(path) {
        match overlay {
            Some(b) => {
                return ok(b, guess_mime(name));
            },
            None => {},
        }
        match bundled {
            Some(b) => {
                return ok(b, guess_mime(name));
            },
            None => {},
        }
    }
    if str_eq(t, "assets/kangy.jpg") {
        return ok(slice_to_vec(kangy), "image/jpeg");
    }
    if str_eq(t, "assets/icon.png") {
        return ok(slice_to_vec(icon), "image/png");
    }
    not_found(t)
}

/// The bytes of an optional buffer.
pub open spec fn vec_opt_view(o: Option<Vec<u8>>) -> Option<Seq<u8>> {
    match o {
        Some(v) => Some(v@),
        None => None,
    }
}

/// `/`, the empty path and `/index.html` are the same page: the shared
/// landing page (where no copy of it exists at all, the 404 pages name the
/// path asked for, and so differ).
pub proof fn lemma_menu_aliases(
    overlay: Option<Seq<u8>>,
    bundled: Option<Seq<u8>>,
    kangy: Seq<u8>,
    icon: Seq<u8>,
)
    ensures
        overlay is Some || bundled is Some ==> reply_for("/"@, overlay, bundled, kangy, icon) == reply_for(
            "/index.html"@,
            overlay,
            bundled,
            kangy,
            icon,
        ),
        reply_for(seq![], overlay, bundled, kangy, icon) == reply_for(
            "/"@,
            overlay,
            bundled,
            kangy,
            icon,
        ),
{
    reveal_strlit("/");
    reveal_strlit("/index.html");
    reveal_strlit("index.html");
    assert("/"@.drop_first() =~= Seq::<char>::empty());
    assert(trim_leading_slashes("/"@) == trim_leading_slashes(Seq::<char>::empty()));
    assert("/index.html"@.drop_first() =~= "index.html"@);
    assert(trim_leading_slashes("index.html"@) == "index.html"@);
    assert(is_menu_path(trim_leading_slashes("/"@)));
    assert(is_menu_path(trim_leading_slashes(seq![])));
    assert(is_menu_path(trim_leading_slashes("/index.html"@)));
}

/// `/` serves the landing page as "Spiele aktualisieren" last downloaded
/// it, as HTML; before any download, the built-in copy.
pub proof fn lemma_root_serves_refreshed_index(
    downloaded: Option<Seq<u8>>,
    bundled: Seq<u8>,
    kangy: Seq<u8>,
    icon: Seq<u8>,
)
    ensures
        reply_for("/"@, downloaded, Some(bundled), kangy, icon) == ok_view(
            match downloaded {
                Some(b) => b,
                None => bundled,
            },
            "text/html; charset=utf-8"@,
        ),
{
    reveal_strlit("/");
    reveal_strlit("index.html");
    reveal_strlit("html");
    assert("/"@.drop_first() =~= Seq::<char>::empty());
    assert(trim_leading_slashes("/"@) == trim_leading_slashes(Seq::<char>::empty()));
    let name = "index.html"@;
    assert(name[5] == '.');
    lemma_extension_of_index(name);
}

proof fn lemma_extension_of_index(name: Seq<char>)
    requires
        name == "index.html"@,
    ensures
        extension(name) == "html"@,
{
    reveal_strlit("index.html");
    reveal_strlit("html");
    let t = name.take(6);
    assert(t.last() == '.');
    assert(extension(t) =~= Seq::<char>::empty());
    crate::mime::lemma_extension_split(name, 6);
    assert(name.take(6) =~= t);
    assert(name.skip(6) =~= "html"@);
}

/// The page that `/` and `/index.html` serve is the first file that
/// "Spiele aktualisieren" downloads.
pub proof fn lemma_landing_page_is_refreshed(t: Seq<char>)
    requires
        is_menu_path(t),
    ensures
        game_file_of(t) == Some(update_files()[0]),
{
}

/// A downloaded copy of a file is served in place of the built-in one,
/// whatever the built-in one holds.
pub proof fn lemma_downloaded_copy_wins(
    path: Seq<char>,
    downloaded: Seq<u8>,
    bundled: Option<Seq<u8>>,
    kangy: Seq<u8>,
    icon: Seq<u8>,
)
    requires
        game_file_of(trim_leading_slashes(path)) is Some,
    ensures
        reply_for(path, Some(downloaded), bundled, kangy, icon).status == 200,
        reply_for(path, Some(downloaded), bundled, kangy, icon).body == downloaded,
{
}

/// Every request is answered, with 200 or with 404; a 404 comes only for
/// a path that names neither a file that was found nor one of the two
/// images.
pub proof fn lemma_always_answered(
    path: Seq<char>,
    overlay: Option<Seq<u8>>,
    bundled: Option<Seq<u8>>,
    kangy: Seq<u8>,
    icon: Seq<u8>,
)
    ensures
        reply_for(path, overlay, bundled, kangy, icon).status == 200 || reply_for(
            path,
            overlay,
            bundled,
            kangy,
            icon,
        ).status == 404,
        reply_for(path, overlay, bundled, kangy, icon).status == 404 <==> {
            let t = trim_leading_slashes(path);
            &&& !(game_file_of(t) is Some && (overlay is Some || bundled is Some))
            &&& t != "assets/kangy.jpg"@
            &&& t != "assets/icon.png"@
        },
{
}

/// The `Content-Type` of a served file comes from its name alone: the
/// downloaded and the built-in copy of a file are labelled alike, and the
/// body is the copy itself.
pub proof fn lemma_type_follows_the_name(
    path: Seq<char>,
    overlay: Option<Seq<u8>>,
    bundled: Option<Seq<u8>>,
    kangy: Seq<u8>,
    icon: Seq<u8>,
)
    requires
        game_file_of(trim_leading_slashes(path)) is Some,
        overlay is Some || bundled is Some,
    ensures
        reply_for(path, overlay, bundled, kangy, icon).status == 200,
        reply_for(path, overlay, bundled, kangy, icon).content_type == mime_for_extension(
            extension(game_file_of(trim_leading_slashes(path))->0),
        ),
        reply_for(path, overlay, bundled, kangy, icon).body == (match overlay {
            Some(d) => d,
            None => bundled->0,
        }),
        overlay matches Some(d) ==> reply_for(path, overlay, bundled, kangy, icon).content_type
            == reply_for(path, None, Some(d), kangy, icon).content_type,
{
}

} // verus!
