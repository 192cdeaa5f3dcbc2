# Parados desktop

A desktop launcher for the seven Think Ahead board games, built around a
library verified with Verus.

- `src/` — the verified library: request routing (`routing`), MIME types
  (`mime`), command line, window title, data folder, page scripts and IPC
  messages (`launch`), the bookkeeping of "Spiele aktualisieren"
  (`update`), the list of files it downloads (`games`), icon decoding
  (`icon`, through `image`), HTML escaping (`escape`, through
  `html_escape`) and string tools (`text`).
- `app/` — the program: window (`tao`), webview (`wry`), downloads
  (`ureq`), files and data directory (`dirs`), the default browser
  (`open`) and the embedded game files (`include_dir`).
- `tests/` — tests of the library.

## The landing page

`/` and `/index.html` serve the shared `index.html` — the same page the
website and the mobile editions ship.  It is the first file that
"Spiele aktualisieren" downloads; a downloaded copy is served before the
one built into the binary.

`index_html::render` builds a menu page of game cards from a list of
games that the caller passes in.  The app does not use it for `/`, and
the library holds no game list of its own: the list such a page was once
built from is not part of the sources.
