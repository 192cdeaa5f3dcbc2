//! Launch options, the scripts injected into every page, and the
//! decisions of the webview's navigation and IPC handlers.

use vstd::prelude::*;
use crate::text::{starts_with, str_eq, strip_prefix};

verus! {

/// The page the window opens on unless `--url` says otherwise.
pub const DEFAULT_URL: &'static str = "parados://localhost/";

/// Injected at document start into every page: on every page but the
/// menu it adds an always visible "Menu" button that leads back to
/// `parados://localhost/`.
pub const BACK_BUTTON_JS: &'static str = r#"
(function () {
    if (window.location.pathname === '/' || window.location.pathname === '/index.html') {
        return; // menu page — no back button needed
    }
    function installBackButton() {
        if (document.getElementById('__parados_back')) return;
        var btn = document.createElement('button');
        btn.id = '__parados_back';
        btn.textContent = '← Menu';
        btn.style.cssText = [
            'position:fixed','top:12px','left:12px','z-index:2147483647',
            'background:#37474f','color:#ffd700','border:none','border-radius:18px',
            'padding:8px 14px','font:600 13px -apple-system,BlinkMacSystemFont,Segoe UI,Roboto,sans-serif',
            'box-shadow:0 2px 6px rgba(0,0,0,0.4)','cursor:pointer','opacity:0.85'
        ].join(';');
        btn.onmouseenter = function () { btn.style.opacity = '1.0'; };
        btn.onmouseleave = function () { btn.style.opacity = '0.85'; };
        btn.onclick = function () { window.location.href = 'parados://localhost/'; };
        document.body.appendChild(btn);
    }
    if (document.body) installBackButton();
    else document.addEventListener('DOMContentLoaded', installBackButton);
})();
"#;

/// Injected as well with `--screenshot`: closes the rules window that
/// every game opens, so that screenshots show the game itself.
pub const RULES_DISMISS_JS: &'static str = r#"
(function () {
    function dismiss() {
        try { if (typeof closeRules === 'function') { closeRules(); return; } } catch (e) {}
        try { if (typeof closeModal === 'function') { closeModal(); return; } } catch (e) {}
        var modals = document.querySelectorAll('#rulesModal, .rules-modal, .modal');
        modals.forEach(function (m) {
            if (getComputedStyle(m).display !== 'none') {
                var close = m.querySelector('.close, [onclick*="closeRules"], [onclick*="closeModal"]');
                if (close) close.click();
                else m.style.display = 'none';
            }
        });
    }
    function schedule() { setTimeout(dismiss, 350); setTimeout(dismiss, 900); }
    if (document.readyState !== 'loading') schedule();
    else document.addEventListener('DOMContentLoaded', schedule);
})();
"#;

/// The window title: the app's name and the running version, the same
/// on every platform.
pub fn window_title(version: &str) -> (r: String)
    ensures
        r@ == "Parados "@ + version@,
{
    let mut s = String::from_str("Parados ");
    s.append(version);
    s
}

/// The name of the app's folder in the user's data directory: `parados`
/// on Linux (`~/.local/share/parados/`), `Parados` on macOS and Windows.
/// Refreshed games go to its `games` subfolder.
pub fn data_dir_name(linux: bool) -> (r: &'static str)
    ensures
        r@ == (if linux {
            "parados"@
        } else {
            "Parados"@
        }),
{
    if linux {
        "parados"
    } else {
        "Parados"
    }
}

/// How the window is opened.
pub struct LaunchOptions {
    pub initial_url: String,
    pub screenshot: bool,
}

/// The options given by the arguments from position `i` on, starting from
/// `url` and `shot`: `--url <u>` sets the start page (the last one
/// wins; a `--url` without a value is ignored), `--screenshot` turns the
/// screenshot mode on, and every other argument is ignored.
pub open spec fn options_from(
    args: Seq<Seq<char>>,
    i: int,
    url: Seq<char>,
    shot: bool,
) -> (Seq<char>, bool)
    decreases args.len() - i,
{
    if i < 1 || i >= args.len() {
        (url, shot)
    } else if args[i] == "--url"@ && i + 1 < args.len() {
        options_from(args, i + 2, args[i + 1], shot)
    } else if args[i] == "--screenshot"@ {
        options_from(args, i + 1, url, true)
    } else {
        options_from(args, i + 1, url, shot)
    }
}

/// The options of a command line; its first element, the program, is not
/// looked at.
pub open spec fn launch_options(args: Seq<Seq<char>>) -> (Seq<char>, bool) {
    if args.len() <= 1 {
        (DEFAULT_URL@, false)
    } else {
        options_from(args, 1, DEFAULT_URL@, false)
    }
}

/// The characters of each argument.
pub open spec fn args_view(args: Seq<String>) -> Seq<Seq<char>> {
    args.map_values(|a: String| a@)
}

/// Reads the command line (see `launch_options`).
pub fn parse_args(args: &Vec<String>) -> (r: LaunchOptions)
    ensures
        (r.initial_url@, r.screenshot) == launch_options(args_view(args@)),
{
    let ghost a = args_view(args@);
    let mut initial_url = String::from_str(DEFAULT_URL);
    let mut screenshot = false;
    let n = args.len();
    let mut i: usize = 1;
    while i < n
        invariant
            n == args@.len(),
            a == args_view(args@),
            1 <= i <= n + 1,
            launch_options(a) == options_from(a, i as int, initial_url@, screenshot),
        decreases n + 1 - i,
    {
        if str_eq(args[i].as_str(), "--url") && i + 1 < n {
            initial_url = args[i + 1].clone();
            i = i + 2;
        } else if str_eq(args[i].as_str(), "--screenshot") {
            screenshot = true;
            i = i + 1;
        } else {
            i = i + 1;
        }
    }
    LaunchOptions { initial_url, screenshot }
}

/// The script injected into every page: the back button, followed in
/// screenshot mode by a line break and the rules dismisser.
pub open spec fn init_script_text(screenshot: bool) -> Seq<char> {
    if screenshot {
        BACK_BUTTON_JS@ + seq!['\n'] + RULES_DISMISS_JS@
    } else {
        BACK_BUTTON_JS@
    }
}

/// Builds the script injected into every page (see `init_script_text`).
pub fn init_script(screenshot: bool) -> (r: String)
    ensures
        r@ == init_script_text(screenshot),
{
    let mut s = String::from_str(BACK_BUTTON_JS);
    if screenshot {
        s.append("\n");
        s.append(RULES_DISMISS_JS);
        proof {
            reveal_strlit("\n");
        }
        assert("\n"@ =~= seq!['\n']);
    }
    s
}

/// Whether a navigation leaves the app for the user's browser: every
/// `http://` and `https://` address does, `parados://` stays inside.
pub open spec fn is_web_address(url: Seq<char>) -> bool {
    "http://"@.is_prefix_of(url) || "https://"@.is_prefix_of(url)
}

/// Decides where a navigation or a new-window request goes: `true` to
/// hand it to the default browser (and cancel it in the webview).
pub fn opens_in_browser(url: &str) -> (r: bool)
    ensures
        r == is_web_address(url@),
{
    starts_with(url, "http://") || starts_with(url, "https://")
}

/// A message from the menu page.
pub enum IpcMessage {
    /// `open-external:<url>`: open the address in the default browser.
    OpenExternal(String),
    /// `update-games`: start "Spiele aktualisieren".
    UpdateGames,
    /// Anything else; it is ignored.
    Unknown,
}

/// What a message from the page asks for.
pub open spec fn ipc_meaning(body: Seq<char>) -> Option<Option<Seq<char>>> {
    if "open-external:"@.is_prefix_of(body) {
        Some(Some(body.skip("open-external:"@.len() as int)))
    } else if body == "update-games"@ {
        Some(None)
    } else {
        None
    }
}

/// Reads a message from the page: `Some(Some(url))` for an address to
/// open, `Some(None)` for an update, `None` for anything else.
pub fn parse_ipc(body: &str) -> (r: IpcMessage)
    ensures
        ipc_meaning(body@) == match r {
            IpcMessage::OpenExternal(u) => Some(Some(u@)),
            IpcMessage::UpdateGames => Some(None::<Seq<char>>),
            IpcMessage::Unknown => None::<Option<Seq<char>>>,
        },
{
    if let Some(url) = strip_prefix(body, "open-external:") {
        return IpcMessage::OpenExternal(url.to_owned());
    }
    if str_eq(body, "update-games") {
        IpcMessage::UpdateGames
    } else {
        IpcMessage::Unknown
    }
}

/// The page sends `open-external:` followed by an address; reading the
/// message gives back exactly that address.
pub proof fn lemma_open_external_round_trip(url: Seq<char>)
    ensures
        ipc_meaning("open-external:"@ + url) == Some(Some(url)),
{
    let m = "open-external:"@ + url;
    assert("open-external:"@ =~= m.subrange(0, "open-external:"@.len() as int));
    assert(m.skip("open-external:"@.len() as int) =~= url);
}

proof fn lemma_flags_differ()
    ensures
        "--screenshot"@ != "--url"@,
{
    reveal_strlit("--screenshot");
    reveal_strlit("--url");
    assert("--screenshot"@.len() != "--url"@.len());
}

/// `--screenshot` takes no value: it turns the screenshot mode on and the
/// very next argument is read as an argument of its own.
pub proof fn lemma_screenshot_consumes_only_itself(
    a: Seq<Seq<char>>,
    i: int,
    url: Seq<char>,
    shot: bool,
)
    requires
        1 <= i < a.len(),
        a[i] == "--screenshot"@,
    ensures
        options_from(a, i, url, shot) == options_from(a, i + 1, url, true),
{
    lemma_flags_differ();
}

/// `--url` takes the next argument, whatever it is, as the start page and
/// goes on after it.
pub proof fn lemma_url_takes_its_value(a: Seq<Seq<char>>, i: int, url: Seq<char>, shot: bool)
    requires
        1 <= i,
        i + 1 < a.len(),
        a[i] == "--url"@,
    ensures
        options_from(a, i, url, shot) == options_from(a, i + 2, a[i + 1], shot),
{
}

/// Any argument that is neither `--url` nor `--screenshot` changes nothing.
pub proof fn lemma_other_arguments_ignored(a: Seq<Seq<char>>, i: int, url: Seq<char>, shot: bool)
    requires
        1 <= i < a.len(),
        a[i] != "--url"@,
        a[i] != "--screenshot"@,
    ensures
        options_from(a, i, url, shot) == options_from(a, i + 1, url, shot),
{
}

/// The two options can come in either order.
pub proof fn lemma_options_in_either_order(p: Seq<char>, u: Seq<char>)
    ensures
        launch_options(seq![p, "--screenshot"@, "--url"@, u]) == (u, true),
        launch_options(seq![p, "--url"@, u, "--screenshot"@]) == (u, true),
{
    lemma_flags_differ();
    let a = seq![p, "--screenshot"@, "--url"@, u];
    lemma_screenshot_consumes_only_itself(a, 1, DEFAULT_URL@, false);
    lemma_url_takes_its_value(a, 2, DEFAULT_URL@, true);
    let b = seq![p, "--url"@, u, "--screenshot"@];
    lemma_url_takes_its_value(b, 1, DEFAULT_URL@, false);
    lemma_screenshot_consumes_only_itself(b, 3, u, false);
}

/// The start page is the default one or the value given to some `--url`.
pub proof fn lemma_start_page_comes_from_url(a: Seq<Seq<char>>, i: int, url: Seq<char>, shot: bool)
    ensures
        options_from(a, i, url, shot).0 == url || exists|j: int|
            1 <= j && j + 1 < a.len() && a[j] == "--url"@ && #[trigger] a[j + 1] == options_from(
                a,
                i,
                url,
                shot,
            ).0,
    decreases a.len() - i,
{
    if i < 1 || i >= a.len() {
    } else if a[i] == "--url"@ && i + 1 < a.len() {
        lemma_start_page_comes_from_url(a, i + 2, a[i + 1], shot);
    } else if a[i] == "--screenshot"@ {
        lemma_start_page_comes_from_url(a, i + 1, url, true);
    } else {
        lemma_start_page_comes_from_url(a, i + 1, url, shot);
    }
}

} // verus!
