//! What a key does on each screen.

use vstd::prelude::*;
use vstd::view::View as _;
use crate::synth::SynthConfig;
use crate::tui::app::{
    selected_with,
    started,
    without_last,
    App,
    AppView,
    PipelineStep,
    PlaybackStatus,
    consistent,
    Run,
    StatusView,
    StepView,
    View,
};

verus! {

/// A key press, as far as the application tells keys apart.
#[derive(Debug, Clone, Copy, PartialEq, Eq, Structural)]
pub enum Key {
    Char(char),
    Backspace,
    Enter,
    Esc,
    /// Any other key.
    Other,
}

/// The state with the other screen showing.
pub open spec fn view_toggled(app: AppView) -> AppView {
    AppView {
        current_view: match app.current_view {
            View::PhonemeSelection => View::Preview,
            View::Preview => View::PhonemeSelection,
        },
        ..app
    }
}

/// The state with the other language chosen.
pub open spec fn language_toggled(app: AppView) -> AppView {
    AppView {
        config: SynthConfig { language: app.config.language.other(), ..app.config },
        ..app
    }
}

/// What a key does on the selection screen: `q` quits and `l` switches the
/// language; any other character selects its unit, if it has one; backspace
/// takes the last unit back; enter opens the preview once something is
/// selected.
pub open spec fn selection_key(app: AppView, key: Key) -> AppView {
    match key {
        Key::Char(c) => if c == 'q' {
            AppView { should_quit: true, ..app }
        } else if c == 'l' {
            language_toggled(app)
        } else {
            selected_with(app, c)
        },
        Key::Backspace => without_last(app),
        Key::Enter => if app.selected.len() > 0 {
            view_toggled(app)
        } else {
            app
        },
        _ => app,
    }
}

/// What the start of a save amounts to on the preview screen: where the
/// save fails at once, the status shows the message of its error.
pub open spec fn save_started(app: AppView) -> (AppView, StepView) {
    let (after, step) = started(app, Run::SaveReversed);
    match step {
        StepView::Failed(e) => (AppView { status: StatusView::Error(e.message()), ..after }, step),
        _ => (after, step),
    }
}

/// What a key does on the preview screen: `q` quits, `l` switches the
/// language and escape returns to the selection; `p` starts a run in the
/// order of the selection, `r` one in reverse order, and `s` a save of the
/// reversed selection.
pub open spec fn preview_key(app: AppView, key: Key) -> (AppView, StepView) {
    match key {
        Key::Char(c) => if c == 'q' {
            (AppView { should_quit: true, ..app }, StepView::Finished)
        } else if c == 'l' {
            (language_toggled(app), StepView::Finished)
        } else if c == 'p' {
            started(app, Run::PlayOriginal)
        } else if c == 'r' {
            started(app, Run::PlayReversed)
        } else if c == 's' {
            save_started(app)
        } else {
            (app, StepView::Finished)
        },
        Key::Esc => (view_toggled(app), StepView::Finished),
        _ => (app, StepView::Finished),
    }
}

/// What a key does on the screen that is showing, and the step that it asks
/// of the caller.
pub open spec fn key_outcome(app: AppView, key: Key) -> (AppView, StepView) {
    match app.current_view {
        View::PhonemeSelection => (selection_key(app, key), StepView::Finished),
        View::Preview => preview_key(app, key),
    }
}

/// No key makes the status shown disagree with where the run stands, and
/// no key touches the selection on the preview screen.
pub proof fn lemma_keys_keep_consistency(app: AppView, key: Key)
    ensures
        consistent(app) ==> consistent(key_outcome(app, key).0),
        app.current_view == View::Preview ==> key_outcome(app, key).0.selected == app.selected,
{
}

fn handle_phoneme_selection_keys(app: &mut App, key: Key)
    ensures
        final(app)@ == selection_key(old(app)@, key),
{
    match key {
        Key::Char('q') => app.quit(),
        Key::Char('l') => app.toggle_language(),
        Key::Char(c) => app.select_phoneme(c),
        Key::Backspace => app.delete_last_phoneme(),
        Key::Enter => {
            if app.selected_phonemes.len() > 0 {
                app.toggle_view();
            }
        },
        _ => {},
    }
}

fn handle_preview_keys(app: &mut App, key: Key) -> (step: PipelineStep)
    ensures
        (final(app)@, step@) == preview_key(old(app)@, key),
{
    match key {
        Key::Char('q') => {
            app.quit();
            PipelineStep::Finished
        },
        Key::Char('l') => {
            app.toggle_language();
            PipelineStep::Finished
        },
        Key::Esc => {
            app.toggle_view();
            PipelineStep::Finished
        },
        Key::Char('p') => app.play_original(),
        Key::Char('r') => app.play_reversed(),
        Key::Char('s') => {
            let step = app.save_reversed();
            match &step {
                PipelineStep::Failed(e) => {
                    app.playback_status = PlaybackStatus::Error(e.message());
                },
                _ => {},
            }
            step
        },
        _ => PipelineStep::Finished,
    }
}

/// Applies a key press to the application and answers with the step that
/// the key asks of the caller, which is `Finished` for a key that starts no
/// run.
pub fn handle_key_event(app: &mut App, key: Key) -> (step: PipelineStep)
    ensures
        (final(app)@, step@) == key_outcome(old(app)@, key),
{
    match app.current_view {
        View::PhonemeSelection => {
            handle_phoneme_selection_keys(app, key);
            PipelineStep::Finished
        },
        View::Preview => handle_preview_keys(app, key),
    }
}

} // verus!
