use phoneme_reverser::synth::Language;
use phoneme_reverser::tui::app::{App, PlaybackStatus, View};
use phoneme_reverser::tui::phoneme_db::PhonemeDatabase;
use phoneme_reverser::tui::ui::{
    phoneme_label, preview_lines, selection_lines, sequence_text, status_bar, status_text,
};

#[test]
fn label_shows_key_description_and_identifier() {
    let db = PhonemeDatabase::new();
    assert_eq!(phoneme_label(db.get_by_key('a').unwrap()), "[a] 日本語「あ」 (a)");
    assert_eq!(phoneme_label(db.get_by_key('@').unwrap()), "[@] 曖昧母音 (about) (ə)");
    assert_eq!(phoneme_label(db.get_by_key('y').unwrap()), "[y] 有声硬口蓋接近音「や」 (j)");
    for p in db.get_vowels().iter().chain(db.get_consonants().iter()) {
        assert_eq!(phoneme_label(p), format!("[{}] {} ({})", p.key, p.description_ja, p.ipa));
    }
}

#[test]
fn selection_panel_hints_while_empty() {
    assert_eq!(
        selection_lines(&Vec::new()),
        vec!["(No phonemes selected)", "", "Press letter keys to add"]
    );
}

#[test]
fn selection_panel_numbers_the_units_from_one() {
    let mut app = App::new().unwrap();
    app.select_phoneme('a');
    app.select_phoneme('k');
    assert_eq!(
        selection_lines(&app.selected_phonemes),
        vec![
            "1. [a] 日本語「あ」",
            "2. [k] 無声軟口蓋破裂音「か」",
            "",
            "Total: 2",
            "",
            "[Enter] Preview",
            "[Backspace] Delete",
        ]
    );
    for _ in 0..10 {
        app.select_phoneme('u');
    }
    let lines = selection_lines(&app.selected_phonemes);
    assert_eq!(lines[11], "12. [u] 日本語「う」");
    assert_eq!(lines[13], "Total: 12");
}

#[test]
fn sequence_is_bracketed_and_spaced() {
    let mut app = App::new().unwrap();
    assert_eq!(sequence_text(&app.selected_phonemes), "");
    app.select_phoneme('a');
    assert_eq!(sequence_text(&app.selected_phonemes), "[a]");
    app.select_phoneme('k');
    app.select_phoneme('u');
    assert_eq!(sequence_text(&app.selected_phonemes), "[a] [k] [u]");
    assert_eq!(sequence_text(&app.get_reversed_phonemes()), "[u] [k] [a]");
}

#[test]
fn status_reads_like_its_debug_form() {
    for status in [
        PlaybackStatus::Idle,
        PlaybackStatus::Synthesizing,
        PlaybackStatus::Playing,
        PlaybackStatus::Error("No phonemes selected".to_string()),
        PlaybackStatus::Error("a \"quoted\" \\ path\n".to_string()),
        PlaybackStatus::Error(String::new()),
    ] {
        assert_eq!(status_text(&status), format!("{:?}", status));
    }
    assert_eq!(
        status_text(&PlaybackStatus::Error("x\ty".to_string())),
        "Error(\"x\\ty\")"
    );
}

#[test]
fn preview_shows_both_orders_and_the_status() {
    let mut app = App::new().unwrap();
    app.select_phoneme('a');
    app.select_phoneme('k');
    app.select_phoneme('u');
    app.play_original();
    assert_eq!(
        preview_lines(&app),
        vec![
            "",
            "Original:  [a] [k] [u]",
            "Reversed:  [u] [k] [a]",
            "",
            "[p] Play Original",
            "[r] Play Reversed",
            "[s] Save to <timestamp>.wav",
            "",
            "Status: Synthesizing",
        ]
    );
}

#[test]
fn status_bar_names_the_language_and_the_keys() {
    assert_eq!(
        status_bar(Language::Japanese, View::PhonemeSelection),
        "Language: 日本語  |  [l] Switch  |  [q] Quit"
    );
    assert_eq!(
        status_bar(Language::English, View::Preview),
        "Language: English  |  [l] Switch  |  [Esc] Back  |  [q] Quit"
    );
}
