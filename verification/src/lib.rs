//! Parados desktop: the verified core of the launcher that embeds the
//! Think Ahead board games in a webview.
//!
//! Everything that decides something lives here: the menu page, the
//! `parados://` request routing, MIME guessing, command-line and IPC
//! parsing, and the bookkeeping of the "refresh games" download.  The
//! window, the webview, the network and the disk are driven by `app/`.

pub mod escape;
pub mod games;
pub mod icon;
pub mod index_html;
pub mod launch;
pub mod mime;
pub mod routing;
pub mod text;
pub mod update;
