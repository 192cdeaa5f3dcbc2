//! Game cards of a menu page, and the files that "Spiele aktualisieren"
//! downloads.

use vstd::prelude::*;

verus! {

/// One way to start a game: a language edition or a remote-multiplayer
/// edition.  A remote edition carries the `https://` address that opens
/// in the user's browser.
pub struct Variant {
    pub label: &'static str,
    pub filename: &'static str,
    pub url: Option<&'static str>,
}

/// A game card of the menu page.
pub struct Game {
    pub title: &'static str,
    pub players: &'static str,
    pub description: &'static str,
    pub filename: &'static str,
    pub variants: Vec<Variant>,
}

/// The characters of a `Variant`.
#[verifier::ext_equal]
pub struct VariantView {
    pub label: Seq<char>,
    pub filename: Seq<char>,
    pub url: Option<Seq<char>>,
}

/// The characters of a `Game`.
#[verifier::ext_equal]
pub struct GameView {
    pub title: Seq<char>,
    pub players: Seq<char>,
    pub description: Seq<char>,
    pub filename: Seq<char>,
    pub variants: Seq<VariantView>,
}

/// The characters of an optional string.
pub open spec fn opt_chars(o: Option<&str>) -> Option<Seq<char>> {
    match o {
        Some(s) => Some(s@),
        None => None,
    }
}

impl View for Variant {
    type V = VariantView;

    open spec fn view(&self) -> VariantView {
        VariantView { label: self.label@, filename: self.filename@, url: opt_chars(self.url) }
    }
}

impl View for Game {
    type V = GameView;

    open spec fn view(&self) -> GameView {
        GameView {
            title: self.title@,
            players: self.players@,
            description: self.description@,
            filename: self.filename@,
            variants: self.variants@.map_values(|v: Variant| v@),
        }
    }
}

/// The characters of a list of games.
pub open spec fn games_view(games: Seq<Game>) -> Seq<GameView> {
    games.map_values(|g: Game| g@)
}

/// The names of every file that "Spiele aktualisieren" downloads, in
/// download order.
pub open spec fn update_files() -> Seq<Seq<char>> {
    seq![
        "index.html"@,
        "kangaroo.html"@,
        "kangaroo_en.html"@,
        "kangaroo_jp.html"@,
        "kangaroo_cn.html"@,
        "kangaroo_ua.html"@,
        "capovolto.html"@,
        "divided_loyalties.html"@,
        "divided_loyalties_en.html"@,
        "divided_loyalties_starting_positions.csv"@,
        "democracy.html"@,
        "democracy_en.html"@,
        "democracy_remote.html"@,
        "frankenstein.html"@,
        "rainbow_blackjack.html"@,
        "rainbow_blackjack_en.html"@,
        "rainbow_blackjack_remote.html"@,
        "makalaina.html"@,
        "makalaina_remote.html"@,
        "startpositionen.html"@,
    ]
}

/// Every file that "Spiele aktualisieren" downloads, in download order.
pub fn all_filenames() -> (r: Vec<&'static str>)
    ensures
        r@.map_values(|n: &'static str| n@) == update_files(),
{
    let r = vec![
        "index.html",
        "kangaroo.html",
        "kangaroo_en.html",
        "kangaroo_jp.html",
        "kangaroo_cn.html",
        "kangaroo_ua.html",
        "capovolto.html",
        "divided_loyalties.html",
        "divided_loyalties_en.html",
        "divided_loyalties_starting_positions.csv",
        "democracy.html",
        "democracy_en.html",
        "democracy_remote.html",
        "frankenstein.html",
        "rainbow_blackjack.html",
        "rainbow_blackjack_en.html",
        "rainbow_blackjack_remote.html",
        "makalaina.html",
        "makalaina_remote.html",
        "startpositionen.html",
    ];
    assert(r@.map_values(|n: &'static str| n@) =~= update_files());
    r
}

/// "Spiele aktualisieren" fetches twenty files, the shared landing page
/// first: the page and every edition of the seven games (the five
/// languages of DUK, Capovolto, Divided Loyalties with its starting
/// positions, Democracy in Space, Frankenstein, Rainbow Blackjack and
/// MAKA LAINA with their remote editions, and the starting-position page).
#[verifier::rlimit(60)]
pub proof fn lemma_download_list()
    ensures
        update_files().len() == 20,
        update_files()[0] == "index.html"@,
        forall|i: int, j: int|
            0 <= i < j < 20 ==> #[trigger] update_files()[i] != #[trigger] update_files()[j],
        update_files().contains("index.html"@),
        update_files().contains("kangaroo.html"@),
        update_files().contains("kangaroo_en.html"@),
        update_files().contains("kangaroo_jp.html"@),
        update_files().contains("kangaroo_cn.html"@),
        update_files().contains("kangaroo_ua.html"@),
        update_files().contains("capovolto.html"@),
        update_files().contains("divided_loyalties.html"@),
        update_files().contains("divided_loyalties_en.html"@),
        update_files().contains("divided_loyalties_starting_positions.csv"@),
        update_files().contains("democracy.html"@),
        update_files().contains("democracy_en.html"@),
        update_files().contains("democracy_remote.html"@),
        update_files().contains("frankenstein.html"@),
        update_files().contains("rainbow_blackjack.html"@),
        update_files().contains("rainbow_blackjack_en.html"@),
        update_files().contains("rainbow_blackjack_remote.html"@),
        update_files().contains("makalaina.html"@),
        update_files().contains("makalaina_remote.html"@),
        update_files().contains("startpositionen.html"@),
{
    reveal_strlit("index.html");
    reveal_strlit("kangaroo.html");
    reveal_strlit("kangaroo_en.html");
    reveal_strlit("kangaroo_jp.html");
    reveal_strlit("kangaroo_cn.html");
    reveal_strlit("kangaroo_ua.html");
    reveal_strlit("capovolto.html");
    reveal_strlit("divided_loyalties.html");
    reveal_strlit("divided_loyalties_en.html");
    reveal_strlit("divided_loyalties_starting_positions.csv");
    reveal_strlit("democracy.html");
    reveal_strlit("democracy_en.html");
    reveal_strlit("democracy_remote.html");
    reveal_strlit("frankenstein.html");
    reveal_strlit("rainbow_blackjack.html");
    reveal_strlit("rainbow_blackjack_en.html");
    reveal_strlit("rainbow_blackjack_remote.html");
    reveal_strlit("makalaina.html");
    reveal_strlit("makalaina_remote.html");
    reveal_strlit("startpositionen.html");
    let u = update_files();
    assert forall|i: int, j: int| 0 <= i < j < 20 implies #[trigger] u[i] != #[trigger] u[j] by {
        if i == 0 {
            if j == 1 {
                assert(u[0].len() != u[1].len());
            } else if j == 2 {
                assert(u[0].len() != u[2].len());
            } else if j == 3 {
                assert(u[0].len() != u[3].len());
            } else if j == 4 {
                assert(u[0].len() != u[4].len());
            } else if j == 5 {
                assert(u[0].len() != u[5].len());
            } else if j == 6 {
                assert(u[0].len() != u[6].len());
            } else if j == 7 {
                assert(u[0].len() != u[7].len());
            } else if j == 8 {
                assert(u[0].len() != u[8].len());
            } else if j == 9 {
                assert(u[0].len() != u[9].len());
            } else if j == 10 {
                assert(u[0].len() != u[10].len());
            } else if j == 11 {
                assert(u[0].len() != u[11].len());
            } else if j == 12 {
                assert(u[0].len() != u[12].len());
            } else if j == 13 {
                assert(u[0].len() != u[13].len());
            } else if j == 14 {
                assert(u[0].len() != u[14].len());
            } else if j == 15 {
                assert(u[0].len() != u[15].len());
            } else if j == 16 {
                assert(u[0].len() != u[16].len());
            } else if j == 17 {
                assert(u[0].len() != u[17].len());
            } else if j == 18 {
                assert(u[0].len() != u[18].len());
            } else if j == 19 {
                assert(u[0].len() != u[19].len());
            }
        } else if i == 1 {
            if j == 2 {
                assert(u[1].len() != u[2].len());
            } else if j == 3 {
                assert(u[1].len() != u[3].len());
            } else if j == 4 {
                assert(u[1].len() != u[4].len());
            } else if j == 5 {
                assert(u[1].len() != u[5].len());
            } else if j == 6 {
                assert(u[1].len() != u[6].len());
            } else if j == 7 {
                assert(u[1].len() != u[7].len());
            } else if j == 8 {
                assert(u[1].len() != u[8].len());
            } else if j == 9 {
                assert(u[1].len() != u[9].len());
            } else if j == 10 {
                assert(u[1].len() != u[10].len());
            } else if j == 11 {
                assert(u[1].len() != u[11].len());
            } else if j == 12 {
                assert(u[1].len() != u[12].len());
            } else if j == 13 {
                assert(u[1].len() != u[13].len());
            } else if j == 14 {
                assert(u[1].len() != u[14].len());
            } else if j == 15 {
                assert(u[1].len() != u[15].len());
            } else if j == 16 {
                assert(u[1].len() != u[16].len());
            } else if j == 17 {
                assert(u[1].len() != u[17].len());
            } else if j == 18 {
                assert(u[1].len() != u[18].len());
            } else if j == 19 {
                assert(u[1].len() != u[19].len());
            }
        } else if i == 2 {
            if j == 3 {
                assert(u[2][9] != u[3][9]);
            } else if j == 4 {
                assert(u[2][9] != u[4][9]);
            } else if j == 5 {
                assert(u[2][9] != u[5][9]);
            } else if j == 6 {
                assert(u[2].len() != u[6].len());
            } else if j == 7 {
                assert(u[2].len() != u[7].len());
            } else if j == 8 {
                assert(u[2].len() != u[8].len());
            } else if j == 9 {
                assert(u[2].len() != u[9].len());
            } else if j == 10 {
                assert(u[2].len() != u[10].len());
            } else if j == 11 {
                assert(u[2].len() != u[11].len());
            } else if j == 12 {
                assert(u[2].len() != u[12].len());
            } else if j == 13 {
                assert(u[2].len() != u[13].len());
            } else if j == 14 {
                assert(u[2].len() != u[14].len());
            } else if j == 15 {
                assert(u[2].len() != u[15].len());
            } else if j == 16 {
                assert(u[2].len() != u[16].len());
            } else if j == 17 {
                assert(u[2].len() != u[17].len());
            } else if j == 18 {
                assert(u[2].len() != u[18].len());
            } else if j == 19 {
                assert(u[2].len() != u[19].len());
            }
        } else if i == 3 {
            if j == 4 {
                assert(u[3][9] != u[4][9]);
            } else if j == 5 {
                assert(u[3][9] != u[5][9]);
            } else if j == 6 {
                assert(u[3].len() != u[6].len());
            } else if j == 7 {
                assert(u[3].len() != u[7].len());
            } else if j == 8 {
                assert(u[3].len() != u[8].len());
            } else if j == 9 {
                assert(u[3].len() != u[9].len());
            } else if j == 10 {
                assert(u[3].len() != u[10].len());
            } else if j == 11 {
                assert(u[3].len() != u[11].len());
            } else if j == 12 {
                assert(u[3].len() != u[12].len());
            } else if j == 13 {
                assert(u[3].len() != u[13].len());
            } else if j == 14 {
                assert(u[3].len() != u[14].len());
            } else if j == 15 {
                assert(u[3].len() != u[15].len());
            } else if j == 16 {
                assert(u[3].len() != u[16].len());
            } else if j == 17 {
                assert(u[3].len() != u[17].len());
            } else if j == 18 {
                assert(u[3].len() != u[18].len());
            } else if j == 19 {
                assert(u[3].len() != u[19].len());
            }
        } else if i == 4 {
            if j == 5 {
                assert(u[4][9] != u[5][9]);
            } else if j == 6 {
                assert(u[4].len() != u[6].len());
            } else if j == 7 {
                assert(u[4].len() != u[7].len());
            } else if j == 8 {
                assert(u[4].len() != u[8].len());
            } else if j == 9 {
                assert(u[4].len() != u[9].len());
            } else if j == 10 {
                assert(u[4].len() != u[10].len());
            } else if j == 11 {
                assert(u[4].len() != u[11].len());
            } else if j == 12 {
                assert(u[4].len() != u[12].len());
            } else if j == 13 {
                assert(u[4].len() != u[13].len());
            } else if j == 14 {
                assert(u[4].len() != u[14].len());
            } else if j == 15 {
                assert(u[4].len() != u[15].len());
            } else if j == 16 {
                assert(u[4].len() != u[16].len());
            } else if j == 17 {
                assert(u[4].len() != u[17].len());
            } else if j == 18 {
                assert(u[4].len() != u[18].len());
            } else if j == 19 {
                assert(u[4].len() != u[19].len());
            }
        } else if i == 5 {
            if j == 6 {
                assert(u[5].len() != u[6].len());
            } else if j == 7 {
                assert(u[5].len() != u[7].len());
            } else if j == 8 {
                assert(u[5].len() != u[8].len());
            } else if j == 9 {
                assert(u[5].len() != u[9].len());
            } else if j == 10 {
                assert(u[5].len() != u[10].len());
            } else if j == 11 {
                assert(u[5].len() != u[11].len());
            } else if j == 12 {
                assert(u[5].len() != u[12].len());
            } else if j == 13 {
                assert(u[5].len() != u[13].len());
            } else if j == 14 {
                assert(u[5].len() != u[14].len());
            } else if j == 15 {
                assert(u[5].len() != u[15].len());
            } else if j == 16 {
                assert(u[5].len() != u[16].len());
            } else if j == 17 {
                assert(u[5].len() != u[17].len());
            } else if j == 18 {
                assert(u[5].len() != u[18].len());
            } else if j == 19 {
                assert(u[5].len() != u[19].len());
            }
        } else if i == 6 {
            if j == 7 {
                assert(u[6].len() != u[7].len());
            } else if j == 8 {
                assert(u[6].len() != u[8].len());
            } else if j == 9 {
                assert(u[6].len() != u[9].len());
            } else if j == 10 {
                assert(u[6][0] != u[10][0]);
            } else if j == 11 {
                assert(u[6].len() != u[11].len());
            } else if j == 12 {
                assert(u[6].len() != u[12].len());
            } else if j == 13 {
                assert(u[6].len() != u[13].len());
            } else if j == 14 {
                assert(u[6].len() != u[14].len());
            } else if j == 15 {
                assert(u[6].len() != u[15].len());
            } else if j == 16 {
                assert(u[6].len() != u[16].len());
            } else if j == 17 {
                assert(u[6][0] != u[17][0]);
            } else if j == 18 {
                assert(u[6].len() != u[18].len());
            } else if j == 19 {
                assert(u[6].len() != u[19].len());
            }
        } else if i == 7 {
            if j == 8 {
                assert(u[7].len() != u[8].len());
            } else if j == 9 {
                assert(u[7].len() != u[9].len());
            } else if j == 10 {
                assert(u[7].len() != u[10].len());
            } else if j == 11 {
                assert(u[7].len() != u[11].len());
            } else if j == 12 {
                assert(u[7].len() != u[12].len());
            } else if j == 13 {
                assert(u[7].len() != u[13].len());
            } else if j == 14 {
                assert(u[7][0] != u[14][0]);
            } else if j == 15 {
                assert(u[7].len() != u[15].len());
            } else if j == 16 {
                assert(u[7].len() != u[16].len());
            } else if j == 17 {
                assert(u[7].len() != u[17].len());
            } else if j == 18 {
                assert(u[7].len() != u[18].len());
            } else if j == 19 {
                assert(u[7].len() != u[19].len());
            }
        } else if i == 8 {
            if j == 9 {
                assert(u[8].len() != u[9].len());
            } else if j == 10 {
                assert(u[8].len() != u[10].len());
            } else if j == 11 {
                assert(u[8].len() != u[11].len());
            } else if j == 12 {
                assert(u[8].len() != u[12].len());
            } else if j == 13 {
                assert(u[8].len() != u[13].len());
            } else if j == 14 {
                assert(u[8].len() != u[14].len());
            } else if j == 15 {
                assert(u[8][0] != u[15][0]);
            } else if j == 16 {
                assert(u[8].len() != u[16].len());
            } else if j == 17 {
                assert(u[8].len() != u[17].len());
            } else if j == 18 {
                assert(u[8].len() != u[18].len());
            } else if j == 19 {
                assert(u[8].len() != u[19].len());
            }
        } else if i == 9 {
            if j == 10 {
                assert(u[9].len() != u[10].len());
            } else if j == 11 {
                assert(u[9].len() != u[11].len());
            } else if j == 12 {
                assert(u[9].len() != u[12].len());
            } else if j == 13 {
                assert(u[9].len() != u[13].len());
            } else if j == 14 {
                assert(u[9].len() != u[14].len());
            } else if j == 15 {
                assert(u[9].len() != u[15].len());
            } else if j == 16 {
                assert(u[9].len() != u[16].len());
            } else if j == 17 {
                assert(u[9].len() != u[17].len());
            } else if j == 18 {
                assert(u[9].len() != u[18].len());
            } else if j == 19 {
                assert(u[9].len() != u[19].len());
            }
        } else if i == 10 {
            if j == 11 {
                assert(u[10].len() != u[11].len());
            } else if j == 12 {
                assert(u[10].len() != u[12].len());
            } else if j == 13 {
                assert(u[10].len() != u[13].len());
            } else if j == 14 {
                assert(u[10].len() != u[14].len());
            } else if j == 15 {
                assert(u[10].len() != u[15].len());
            } else if j == 16 {
                assert(u[10].len() != u[16].len());
            } else if j == 17 {
                assert(u[10][0] != u[17][0]);
            } else if j == 18 {
                assert(u[10].len() != u[18].len());
            } else if j == 19 {
                assert(u[10].len() != u[19].len());
            }
        } else if i == 11 {
            if j == 12 {
                assert(u[11].len() != u[12].len());
            } else if j == 13 {
                assert(u[11][0] != u[13][0]);
            } else if j == 14 {
                assert(u[11].len() != u[14].len());
            } else if j == 15 {
                assert(u[11].len() != u[15].len());
            } else if j == 16 {
                assert(u[11].len() != u[16].len());
            } else if j == 17 {
                assert(u[11].len() != u[17].len());
            } else if j == 18 {
                assert(u[11].len() != u[18].len());
            } else if j == 19 {
                assert(u[11].len() != u[19].len());
            }
        } else if i == 12 {
            if j == 13 {
                assert(u[12].len() != u[13].len());
            } else if j == 14 {
                assert(u[12].len() != u[14].len());
            } else if j == 15 {
                assert(u[12].len() != u[15].len());
            } else if j == 16 {
                assert(u[12].len() != u[16].len());
            } else if j == 17 {
                assert(u[12].len() != u[17].len());
            } else if j == 18 {
                assert(u[12][0] != u[18][0]);
            } else if j == 19 {
                assert(u[12].len() != u[19].len());
            }
        } else if i == 13 {
            if j == 14 {
                assert(u[13].len() != u[14].len());
            } else if j == 15 {
                assert(u[13].len() != u[15].len());
            } else if j == 16 {
                assert(u[13].len() != u[16].len());
            } else if j == 17 {
                assert(u[13].len() != u[17].len());
            } else if j == 18 {
                assert(u[13].len() != u[18].len());
            } else if j == 19 {
                assert(u[13].len() != u[19].len());
            }
        } else if i == 14 {
            if j == 15 {
                assert(u[14].len() != u[15].len());
            } else if j == 16 {
                assert(u[14].len() != u[16].len());
            } else if j == 17 {
                assert(u[14].len() != u[17].len());
            } else if j == 18 {
                assert(u[14].len() != u[18].len());
            } else if j == 19 {
                assert(u[14].len() != u[19].len());
            }
        } else if i == 15 {
            if j == 16 {
                assert(u[15].len() != u[16].len());
            } else if j == 17 {
                assert(u[15].len() != u[17].len());
            } else if j == 18 {
                assert(u[15].len() != u[18].len());
            } else if j == 19 {
                assert(u[15].len() != u[19].len());
            }
        } else if i == 16 {
            if j == 17 {
                assert(u[16].len() != u[17].len());
            } else if j == 18 {
                assert(u[16].len() != u[18].len());
            } else if j == 19 {
                assert(u[16].len() != u[19].len());
            }
        } else if i == 17 {
            if j == 18 {
                assert(u[17].len() != u[18].len());
            } else if j == 19 {
                assert(u[17].len() != u[19].len());
            }
        } else if i == 18 {
            if j == 19 {
                assert(u[18].len() != u[19].len());
            }
        }
    }
    assert(u[0] == "index.html"@);
    assert(u[1] == "kangaroo.html"@);
    assert(u[2] == "kangaroo_en.html"@);
    assert(u[3] == "kangaroo_jp.html"@);
    assert(u[4] == "kangaroo_cn.html"@);
    assert(u[5] == "kangaroo_ua.html"@);
    assert(u[6] == "capovolto.html"@);
    assert(u[7] == "divided_loyalties.html"@);
    assert(u[8] == "divided_loyalties_en.html"@);
    assert(u[9] == "divided_loyalties_starting_positions.csv"@);
    assert(u[10] == "democracy.html"@);
    assert(u[11] == "democracy_en.html"@);
    assert(u[12] == "democracy_remote.html"@);
    assert(u[13] == "frankenstein.html"@);
    assert(u[14] == "rainbow_blackjack.html"@);
    assert(u[15] == "rainbow_blackjack_en.html"@);
    assert(u[16] == "rainbow_blackjack_remote.html"@);
    assert(u[17] == "makalaina.html"@);
    assert(u[18] == "makalaina_remote.html"@);
    assert(u[19] == "startpositionen.html"@);
}

} // verus!
