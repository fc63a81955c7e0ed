use phoneme_reverser::synth::Language;
use phoneme_reverser::tui::app::{App, PipelineStep, PlaybackStatus, View};
use phoneme_reverser::tui::event::{handle_key_event, Key};

fn press(app: &mut App, keys: &str) {
    for key in keys.chars() {
        handle_key_event(app, Key::Char(key));
    }
}

#[test]
fn letters_select_on_the_selection_screen() {
    let mut app = App::new().unwrap();
    press(&mut app, "aku");
    let ipa: Vec<&str> = app.selected_phonemes.iter().map(|p| p.ipa.as_str()).collect();
    assert_eq!(ipa, vec!["a", "k", "u"]);
    assert!(matches!(
        handle_key_event(&mut app, Key::Char('X')),
        PipelineStep::Finished
    ));
    assert_eq!(app.selected_phonemes.len(), 3);
}

#[test]
fn q_quits_on_both_screens() {
    let mut app = App::new().unwrap();
    handle_key_event(&mut app, Key::Char('q'));
    assert!(app.should_quit);
    assert_eq!(app.selected_phonemes.len(), 0);

    let mut app = App::new().unwrap();
    app.toggle_view();
    handle_key_event(&mut app, Key::Char('q'));
    assert!(app.should_quit);
}

#[test]
fn l_switches_the_language_and_selects_nothing() {
    let mut app = App::new().unwrap();
    handle_key_event(&mut app, Key::Char('l'));
    assert_eq!(app.current_language(), Language::English);
    assert_eq!(app.selected_phonemes.len(), 0);
    app.toggle_view();
    handle_key_event(&mut app, Key::Char('l'));
    assert_eq!(app.current_language(), Language::Japanese);
}

#[test]
fn backspace_takes_the_last_unit_back() {
    let mut app = App::new().unwrap();
    press(&mut app, "ak");
    handle_key_event(&mut app, Key::Backspace);
    assert_eq!(app.selected_phonemes.len(), 1);
    assert_eq!(app.selected_phonemes[0].ipa, "a");
    handle_key_event(&mut app, Key::Backspace);
    handle_key_event(&mut app, Key::Backspace);
    assert_eq!(app.selected_phonemes.len(), 0);
}

#[test]
fn enter_opens_the_preview_only_with_a_selection() {
    let mut app = App::new().unwrap();
    handle_key_event(&mut app, Key::Enter);
    assert_eq!(app.current_view, View::PhonemeSelection);
    press(&mut app, "a");
    handle_key_event(&mut app, Key::Enter);
    assert_eq!(app.current_view, View::Preview);
    handle_key_event(&mut app, Key::Enter);
    assert_eq!(app.current_view, View::Preview);
    handle_key_event(&mut app, Key::Esc);
    assert_eq!(app.current_view, View::PhonemeSelection);
    handle_key_event(&mut app, Key::Esc);
    assert_eq!(app.current_view, View::PhonemeSelection);
}

#[test]
fn preview_keys_start_the_runs() {
    let mut app = App::new().unwrap();
    press(&mut app, "aku");
    handle_key_event(&mut app, Key::Enter);

    match handle_key_event(&mut app, Key::Char('p')) {
        PipelineStep::Convert(symbols) => assert_eq!(symbols, vec!["a", "k", "u"]),
        other => panic!("unexpected step {:?}", other),
    }
    match handle_key_event(&mut app, Key::Char('r')) {
        PipelineStep::Convert(symbols) => assert_eq!(symbols, vec!["u", "k", "a"]),
        other => panic!("unexpected step {:?}", other),
    }
    match handle_key_event(&mut app, Key::Char('s')) {
        PipelineStep::Convert(symbols) => assert_eq!(symbols, vec!["u", "k", "a"]),
        other => panic!("unexpected step {:?}", other),
    }
    assert_eq!(app.playback_status, PlaybackStatus::Synthesizing);
    assert_eq!(app.selected_phonemes.len(), 3);
}

#[test]
fn preview_keys_without_selection_report_it() {
    let mut app = App::new().unwrap();
    app.toggle_view();
    assert!(matches!(
        handle_key_event(&mut app, Key::Char('p')),
        PipelineStep::Finished
    ));
    assert_eq!(
        app.playback_status,
        PlaybackStatus::Error("No phonemes selected".to_string())
    );
    assert!(matches!(
        handle_key_event(&mut app, Key::Char('s')),
        PipelineStep::Failed(_)
    ));
    assert_eq!(
        app.playback_status,
        PlaybackStatus::Error("Synthesis error: No phonemes to save".to_string())
    );
}

#[test]
fn other_keys_do_nothing() {
    let mut app = App::new().unwrap();
    press(&mut app, "a");
    handle_key_event(&mut app, Key::Other);
    handle_key_event(&mut app, Key::Esc);
    assert_eq!(app.current_view, View::PhonemeSelection);
    assert_eq!(app.selected_phonemes.len(), 1);
    app.toggle_view();
    handle_key_event(&mut app, Key::Other);
    handle_key_event(&mut app, Key::Backspace);
    handle_key_event(&mut app, Key::Char('a'));
    assert_eq!(app.current_view, View::Preview);
    assert_eq!(app.selected_phonemes.len(), 1);
    assert_eq!(app.playback_status, PlaybackStatus::Idle);
}
