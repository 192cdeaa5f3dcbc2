//! The menu page: the game cards between a fixed head and tail.

use vstd::prelude::*;
use crate::games::{Game, GameView, VariantView, games_view, opt_chars};
use crate::escape::{escape_attribute, escape_text, escaped_attribute, escaped_text};
use crate::text::{decimal, digit};

verus! {

/// The page up to the first card: document head, style sheet, header with
/// the kangaroo update button, and the opening of `<main>`.
pub const PAGE_HEAD: &'static str = r##"<!DOCTYPE html>
<html lang="en">
<head>
<meta charset="utf-8">
<meta name="viewport" content="width=device-width, initial-scale=1, viewport-fit=cover">
<title>Parados</title>
<style>
  *, *::before, *::after { box-sizing: border-box; }
  html, body {
    margin: 0;
    padding: 0;
    background: #263238;
    color: #cfd8dc;
    font-family: -apple-system, BlinkMacSystemFont, "Segoe UI", Roboto, "Helvetica Neue", Arial, sans-serif;
    min-height: 100vh;
  }
  header {
    position: sticky;
    top: 0;
    z-index: 10;
    display: flex;
    align-items: center;
    justify-content: space-between;
    padding: 12px 20px;
    background: #263238;
    border-bottom: 1px solid #1c272c;
  }
  header h1 {
    margin: 0;
    font-size: 20px;
    font-weight: 700;
    letter-spacing: 2px;
    color: #ffd700;
  }
  header button.kangy {
    appearance: none;
    border: none;
    padding: 0;
    margin: 0;
    cursor: pointer;
    background: transparent;
    line-height: 0;
    position: relative;
  }
  header button.kangy img.logo {
    width: 40px;
    height: 40px;
    border-radius: 8px;
    object-fit: cover;
    background: #f5f0e8;
    transition: transform 0.15s ease, opacity 0.2s ease;
  }
  header button.kangy:hover img.logo { transform: scale(1.05); }
  header button.kangy.updating img.logo {
    opacity: 0.5;
    animation: kangy-spin 0.9s linear infinite;
  }
  @keyframes kangy-spin {
    from { transform: rotate(0deg); }
    to   { transform: rotate(360deg); }
  }
  #toast {
    position: fixed;
    left: 50%;
    bottom: 24px;
    transform: translateX(-50%) translateY(40px);
    background: #37474f;
    color: #ffd700;
    padding: 10px 18px;
    border-radius: 24px;
    font-size: 14px;
    font-weight: 600;
    box-shadow: 0 4px 14px rgba(0,0,0,0.5);
    opacity: 0;
    pointer-events: none;
    transition: transform 0.25s ease, opacity 0.25s ease;
    z-index: 100;
  }
  #toast.show {
    opacity: 1;
    transform: translateX(-50%) translateY(0);
  }
  main {
    max-width: 720px;
    margin: 0 auto;
    padding: 16px;
    display: flex;
    flex-direction: column;
    gap: 12px;
  }
  .card {
    background: #37474f;
    border-radius: 12px;
    padding: 16px;
  }
  .card .title {
    font-size: 18px;
    font-weight: 700;
    color: #ffd700;
    margin: 0 0 6px;
  }
  .card .players {
    font-size: 13px;
    color: #90a4ae;
    margin: 0 0 8px;
  }
  .card .description {
    font-size: 14px;
    color: #cfd8dc;
    line-height: 1.45;
    margin: 0 0 12px;
  }
  .buttons {
    display: flex;
    flex-wrap: wrap;
    gap: 8px;
  }
  .buttons .btn {
    flex: 1 1 0;
    min-width: 80px;
    border: none;
    border-radius: 20px;
    padding: 10px 14px;
    font-size: 14px;
    font-weight: 600;
    color: white;
    cursor: pointer;
    text-align: center;
  }
  .btn[data-color="0"] { background: #43a047; }
  .btn[data-color="1"] { background: #1e88e5; }
  .btn[data-color="2"] { background: #ff9800; color: #263238; }
  .btn[data-color="3"] { background: #e53935; }
  .btn[data-color="4"] { background: #8e24aa; }
  .btn:hover  { filter: brightness(1.10); }
  .btn:active { filter: brightness(0.92); }
  footer {
    text-align: center;
    padding: 24px 16px 32px;
    color: #607d8b;
    font-size: 12px;
  }
  footer a { color: #90a4ae; text-decoration: none; }
</style>
</head>
<body>
  <header>
    <h1>PARADOS</h1>
    <button class="kangy" id="updateBtn" title="Spiele aktualisieren">
      <img class="logo" src="parados://localhost/assets/kangy.jpg" alt="Parados">
    </button>
  </header>
  <div id="toast"></div>
  <main>
"##;

/// The page after the last card: the end of `<main>`, the footer and the
/// script that routes button clicks and drives the update toast.
pub const PAGE_TAIL: &'static str = r##"  </main>
  <footer>
    Parados — Think Ahead Games · <a href="https://game.ywesee.com/parados/" data-external="https://game.ywesee.com/parados/">game.ywesee.com/parados</a>
  </footer>
<script>
  // Route every "Play / variant" click through a single delegated
  // handler.  Local games navigate inside the webview; remote
  // (PeerJS / WebRTC) games are sent back to Rust as
  // `open-external:<url>` IPC messages so they open in the user's
  // default browser — same UX as iOS / Android.
  document.addEventListener('click', function(ev) {
    const el = ev.target.closest('[data-href], [data-external]');
    if (!el) return;
    ev.preventDefault();
    const ext = el.getAttribute('data-external');
    if (ext) {
      try { window.ipc.postMessage('open-external:' + ext); }
      catch (e) { window.location.href = ext; }
      return;
    }
    const href = el.getAttribute('data-href');
    if (href) { window.location.href = href; }
  });

  // "Spiele aktualisieren" — kangaroo top-right kicks off a
  // background download of every game HTML from
  // raw.githubusercontent.com/zdavatz/parados/main/.  Same UX as the
  // iOS Menu / Android toolbar.  Rust's worker thread fires
  // `window.parados_update_done(updated, total, error)` when done.
  const updateBtn = document.getElementById('updateBtn');
  const toast = document.getElementById('toast');
  let updateBusy = false;

  function showToast(msg, ms) {
    toast.textContent = msg;
    toast.classList.add('show');
    clearTimeout(showToast._t);
    showToast._t = setTimeout(function () {
      toast.classList.remove('show');
    }, ms || 3000);
  }

  updateBtn.addEventListener('click', function () {
    if (updateBusy) return;
    updateBusy = true;
    updateBtn.classList.add('updating');
    showToast('Spiele werden aktualisiert…', 30000);
    try { window.ipc.postMessage('update-games'); }
    catch (e) {
      updateBusy = false;
      updateBtn.classList.remove('updating');
      showToast('Update fehlgeschlagen: IPC nicht verfügbar', 4000);
    }
  });

  window.parados_update_done = function (updated, total, error) {
    updateBusy = false;
    updateBtn.classList.remove('updating');
    if (error && updated === 0) {
      showToast('Update fehlgeschlagen: ' + error, 5000);
    } else if (updated === total) {
      showToast(updated + ' Spiele aktualisiert');
    } else if (updated > 0) {
      showToast(updated + ' / ' + total + ' aktualisiert (' + (error || '?') + ')', 5000);
    } else {
      showToast('Keine Updates verfügbar');
    }
  };
</script>
</body>
</html>
"##;

/// Buttons cycle through five colours.
pub const BUTTON_COLORS: usize = 5;

/// One button.  A remote edition (`url` given) carries its address in
/// `data-external`; any other opens the bundled game file through
/// `data-href`.  The colour is the button's position modulo five.
pub open spec fn button_html(
    idx: nat,
    label: Seq<char>,
    filename: Seq<char>,
    url: Option<Seq<char>>,
) -> Seq<char> {
    match url {
        Some(u) => "<button class=\"btn\" data-color=\""@ + decimal(idx % (BUTTON_COLORS as nat)) + "\" data-external=\""@
            + escaped_attribute(u) + "\">"@ + escaped_text(label) + "</button>"@,
        None => "<button class=\"btn\" data-color=\""@ + decimal(idx % (BUTTON_COLORS as nat))
            + "\" data-href=\"parados://localhost/games/"@ + escaped_attribute(filename) + "\">"@
            + escaped_text(label) + "</button>"@,
    }
}

/// The buttons of the variants, the `i`-th with position `i`.
pub open spec fn variant_buttons(vs: Seq<VariantView>) -> Seq<char>
    decreases vs.len(),
{
    if vs.len() == 0 {
        seq![]
    } else {
        variant_buttons(vs.drop_last()) + button_html(
            (vs.len() - 1) as nat,
            vs.last().label,
            vs.last().filename,
            vs.last().url,
        )
    }
}

/// The buttons of a card: one "Play" button for a game without variants,
/// else one button per variant.
pub open spec fn buttons_html(g: GameView) -> Seq<char> {
    if g.variants.len() == 0 {
        button_html(0, "Play"@, g.filename, None)
    } else {
        variant_buttons(g.variants)
    }
}

/// One card: escaped title, players and description, then the buttons.
pub open spec fn card_html(g: GameView) -> Seq<char> {
    "    <div class=\"card\">\n      <h2 class=\"title\">"@ + escaped_text(g.title)
        + "</h2>\n      <p class=\"players\">"@ + escaped_text(g.players)
        + "</p>\n      <p class=\"description\">"@ + escaped_text(g.description)
        + "</p>\n      <div class=\"buttons\">"@ + buttons_html(g) + "</div>\n    </div>\n"@
}

/// The cards of the games, in order.
pub open spec fn cards_html(gs: Seq<GameView>) -> Seq<char>
    decreases gs.len(),
{
    if gs.len() == 0 {
        seq![]
    } else {
        cards_html(gs.drop_last()) + card_html(gs.last())
    }
}

/// The whole menu page for the given games.
pub open spec fn page_html(gs: Seq<GameView>) -> Seq<char> {
    PAGE_HEAD@ + cards_html(gs) + PAGE_TAIL@
}

/// Appends a string slice.
fn push_str(s: &mut String, t: &str)
    ensures
        final(s)@ == old(s)@ + t@,
{
    s.append(t);
}

/// Renders one button (see `button_html`).
pub fn render_button(idx: usize, label: &str, filename: &str, url: Option<&str>) -> (r: String)
    ensures
        r@ == button_html(idx as nat, label@, filename@, opt_chars(url)),
{
    let label = escape_text(label);
    let color = idx % BUTTON_COLORS;
    let mut s = String::new();
    push_str(&mut s, "<button class=\"btn\" data-color=\"");
    push_str(&mut s, digit(color as u64));
    assert(decimal((idx % BUTTON_COLORS) as nat) =~= seq![crate::text::digit_char(color as int)]);
    match url {
        Some(u) => {
            push_str(&mut s, "\" data-external=\"");
            let u = escape_attribute(u);
            push_str(&mut s, u.as_str());
        },
        None => {
            push_str(&mut s, "\" data-href=\"parados://localhost/games/");
            let f = escape_attribute(filename);
            push_str(&mut s, f.as_str());
        },
    }
    push_str(&mut s, "\">");
    push_str(&mut s, label.as_str());
    push_str(&mut s, "</button>");
    s
}

/// Renders one card (see `card_html`).
pub fn render_card(game: &Game) -> (r: String)
    ensures
        r@ == card_html(game@),
{
    let mut buttons = String::new();
    let n = game.variants.len();
    if n == 0 {
        let b = render_button(0, "Play", game.filename, None);
        push_str(&mut buttons, b.as_str());
    } else {
        let ghost vs = game@.variants;
        let mut i: usize = 0;
        while i < n
            invariant
                n == game.variants@.len(),
                vs == game@.variants,
                i <= n,
                buttons@ == variant_buttons(vs.take(i as int)),
            decreases n - i,
        {
            let v = &game.variants[i];
            let b = render_button(i, v.label, v.filename, v.url);
            push_str(&mut buttons, b.as_str());
            assert(vs.take(i + 1).drop_last() =~= vs.take(i as int));
            i = i + 1;
        }
        assert(vs.take(n as int) =~= vs);
    }
    let mut s = String::new();
    push_str(&mut s, "    <div class=\"card\">\n      <h2 class=\"title\">");
    let t = escape_text(game.title);
    push_str(&mut s, t.as_str());
    push_str(&mut s, "</h2>\n      <p class=\"players\">");
    let p = escape_text(game.players);
    push_str(&mut s, p.as_str());
    push_str(&mut s, "</p>\n      <p class=\"description\">");
    let d = escape_text(game.description);
    push_str(&mut s, d.as_str());
    push_str(&mut s, "</p>\n      <div class=\"buttons\">");
    push_str(&mut s, buttons.as_str());
    push_str(&mut s, "</div>\n    </div>\n");
    s
}

/// Renders the menu page for the given game cards: the fixed head, one
/// card per game in order, the fixed tail.  It reads nothing and changes
/// nothing.
pub fn render(list: &Vec<Game>) -> (r: String)
    ensures
        r@ == page_html(games_view(list@)),
{
    let ghost gs = games_view(list@);
    let n = list.len();
    let mut cards = String::new();
    let mut i: usize = 0;
    while i < n
        invariant
            n == list@.len(),
            gs == games_view(list@),
            i <= n,
            cards@ == cards_html(gs.take(i as int)),
        decreases n - i,
    {
        let c = render_card(&list[i]);
        push_str(&mut cards, c.as_str());
        assert(gs.take(i + 1).drop_last() =~= gs.take(i as int));
        i = i + 1;
    }
    assert(gs.take(n as int) =~= gs);
    let mut s = String::new();
    push_str(&mut s, PAGE_HEAD);
    push_str(&mut s, cards.as_str());
    push_str(&mut s, PAGE_TAIL);
    s
}

/// Buttons five places apart look alike: the colours cycle.
pub proof fn lemma_colours_cycle(idx: nat, label: Seq<char>, filename: Seq<char>, url: Option<Seq<char>>)
    ensures
        button_html(idx + 5, label, filename, url) == button_html(idx, label, filename, url),
{
    assert((idx + 5) % 5 == idx % 5);
}

/// A card has one button per variant, in order: the buttons of the first
/// `k + 1` variants are those of the first `k` followed by the button of
/// variant `k`, with position `k`, its label, its file and its address.
pub proof fn lemma_one_button_per_variant(vs: Seq<VariantView>, k: int)
    requires
        0 <= k < vs.len(),
    ensures
        variant_buttons(vs.take(k + 1)) == variant_buttons(vs.take(k)) + button_html(
            k as nat,
            vs[k].label,
            vs[k].filename,
            vs[k].url,
        ),
        variant_buttons(vs.take(vs.len() as int)) == variant_buttons(vs),
{
    let t = vs.take(k + 1);
    assert(t.drop_last() =~= vs.take(k));
    assert(t.last() == vs[k]);
    assert(vs.take(vs.len() as int) =~= vs);
}

/// A game without variants gets one "Play" button for its own file; a game
/// with variants gets exactly the buttons of its variants.
pub proof fn lemma_card_buttons(g: GameView)
    ensures
        g.variants.len() == 0 ==> buttons_html(g) == button_html(0, "Play"@, g.filename, None),
        g.variants.len() > 0 ==> buttons_html(g) == variant_buttons(g.variants),
{
}

} // verus!
