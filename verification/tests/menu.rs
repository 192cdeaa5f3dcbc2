use parados::games::{all_filenames, Game, Variant};
use parados::index_html::{render, render_button, render_card, PAGE_HEAD, PAGE_TAIL};

/// The card markup, written the way the page template words it.
fn expected_button(idx: usize, label: &str, filename: &str, url: Option<&str>) -> String {
    let label = html_escape::encode_text(label);
    let color = idx % 5;
    match url {
        Some(u) => format!(
            r#"<button class="btn" data-color="{color}" data-external="{url}">{label}</button>"#,
            url = html_escape::encode_quoted_attribute(u),
        ),
        None => format!(
            r#"<button class="btn" data-color="{color}" data-href="parados://localhost/games/{file}">{label}</button>"#,
            file = html_escape::encode_quoted_attribute(filename),
        ),
    }
}

fn expected_card(game: &Game) -> String {
    let title = html_escape::encode_text(game.title);
    let players = html_escape::encode_text(game.players);
    let description = html_escape::encode_text(game.description);
    let mut buttons = String::new();
    if game.variants.is_empty() {
        buttons.push_str(&expected_button(0, "Play", game.filename, None));
    } else {
        for (i, v) in game.variants.iter().enumerate() {
            buttons.push_str(&expected_button(i, v.label, v.filename, v.url));
        }
    }
    format!(
        "    <div class=\"card\">\n\
         \x20     <h2 class=\"title\">{title}</h2>\n\
         \x20     <p class=\"players\">{players}</p>\n\
         \x20     <p class=\"description\">{description}</p>\n\
         \x20     <div class=\"buttons\">{buttons}</div>\n\
         \x20   </div>\n",
    )
}

#[test]
fn local_button() {
    assert_eq!(
        render_button(0, "Play", "capovolto.html", None),
        "<button class=\"btn\" data-color=\"0\" data-href=\"parados://localhost/games/capovolto.html\">Play</button>"
    );
}

#[test]
fn remote_button() {
    assert_eq!(
        render_button(2, "Remote", "x.html", Some("https://game.ywesee.com/parados/x.html?a=1&b=2")),
        "<button class=\"btn\" data-color=\"2\" data-external=\"https://game.ywesee.com/parados/x.html?a=1&amp;b=2\">Remote</button>"
    );
}

#[test]
fn button_colours_cycle_through_five() {
    for i in 0..12usize {
        let b = render_button(i, "L", "f.html", None);
        assert!(b.contains(&format!("data-color=\"{}\"", i % 5)));
    }
    assert_eq!(render_button(7, "L", "f.html", None), render_button(2, "L", "f.html", None));
}

#[test]
fn button_escapes_label_and_file() {
    assert_eq!(
        render_button(1, "<b>", "a\"b.html", None),
        "<button class=\"btn\" data-color=\"1\" data-href=\"parados://localhost/games/a&quot;b.html\">&lt;b&gt;</button>"
    );
}

#[test]
fn card_without_variants_has_play_button() {
    let g = Game {
        title: "A & B",
        players: "2 players",
        description: "x < y",
        filename: "ab.html",
        variants: vec![],
    };
    let c = render_card(&g);
    assert_eq!(c, expected_card(&g));
    assert!(c.contains("<h2 class=\"title\">A &amp; B</h2>"));
    assert!(c.contains(">Play</button>"));
}

#[test]
fn card_with_variants_has_one_button_each() {
    let g = Game {
        title: "T",
        players: "1 player",
        description: "d",
        filename: "t.html",
        variants: vec![
            Variant { label: "DE", filename: "t.html", url: None },
            Variant { label: "EN", filename: "t_en.html", url: None },
            Variant { label: "Remote", filename: "t_r.html", url: Some("https://h/t_r.html") },
        ],
    };
    let c = render_card(&g);
    assert_eq!(c, expected_card(&g));
    assert_eq!(c.matches("<button").count(), 3);
    assert!(!c.contains(">Play<"));
    assert!(c.contains("data-color=\"2\" data-external=\"https://h/t_r.html\""));
}

fn sample_games() -> Vec<Game> {
    vec![
        Game {
            title: "First & <Best>",
            players: "1 player",
            description: "one",
            filename: "first.html",
            variants: vec![],
        },
        Game {
            title: "Second — Where's it?",
            players: "1–4 players",
            description: "two",
            filename: "second.html",
            variants: vec![
                Variant { label: "DE", filename: "second.html", url: None },
                Variant { label: "Remote", filename: "second_remote.html", url: Some("https://h/second_remote.html") },
            ],
        },
    ]
}

#[test]
fn page_is_head_cards_tail() {
    let list = sample_games();
    let page = render(&list);
    let mut cards = String::new();
    for g in list.iter() {
        cards.push_str(&expected_card(g));
    }
    assert_eq!(page, format!("{}{}{}", PAGE_HEAD, cards, PAGE_TAIL));
    assert!(page.starts_with("<!DOCTYPE html>\n<html lang=\"en\">"));
    assert!(page.ends_with("</html>\n"));
    assert!(page.contains("  <main>\n    <div class=\"card\">"));
    assert!(page.contains("</div>\n  </main>\n  <footer>"));
}

#[test]
fn page_has_one_card_per_game() {
    let page = render(&sample_games());
    assert_eq!(page.matches("<div class=\"card\">").count(), 2);
    assert!(page.contains("<h2 class=\"title\">First &amp; &lt;Best&gt;</h2>"));
    assert!(page.contains("<h2 class=\"title\">Second — Where's it?</h2>"));
}

#[test]
fn empty_list_gives_head_and_tail() {
    assert_eq!(render(&vec![]), format!("{}{}", PAGE_HEAD, PAGE_TAIL));
}

#[test]
fn page_template_unescaped_braces() {
    let page = render(&sample_games());
    assert!(page.contains("*, *::before, *::after { box-sizing: border-box; }"));
    assert!(!page.contains("{{"));
    assert!(page.contains("window.parados_update_done = function (updated, total, error) {"));
}

#[test]
fn render_is_pure() {
    assert_eq!(render(&sample_games()), render(&sample_games()));
}

#[test]
fn remote_variants_open_externally() {
    let page = render(&sample_games());
    assert!(page.contains("data-external=\"https://h/second_remote.html\""));
    assert!(page.contains("data-href=\"parados://localhost/games/first.html\""));
}

#[test]
fn landing_page_is_downloaded_first() {
    let names = all_filenames();
    assert_eq!(names.len(), 20);
    assert_eq!(names[0], "index.html");
    assert!(names.contains(&"divided_loyalties_starting_positions.csv"));
    assert_eq!(names[19], "startpositionen.html");
}
