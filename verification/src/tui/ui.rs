//! The texts that the screens show. Laying them out and drawing them is the
//! caller's part.

use vstd::prelude::*;
use vstd::view::View as _;
use crate::synth::Language;
use crate::text::{decimal_text, join, joined, push_char, unsigned_string};
use crate::tui::app::{reversed, App, AppView, PlaybackStatus, StatusView, View};
use crate::tui::phoneme_db::{Phoneme, PhonemeView};

verus! {

/// Names the text that the `Debug` form of a string consists of: the string
/// between double quotes, with the escapes that `Debug` writes.
pub uninterp spec fn debug_quoted(text: Seq<char>) -> Seq<char>;

/// The string in its `Debug` form.
///
/// Wraps the formatting of a `str` with `{:?}`, whose result depends on the
/// characters of the string alone.
#[verifier::external_body]
fn quoted(text: &str) -> (form: String)
    ensures
        form@ == debug_quoted(text@),
{
    format!("{:?}", text)
}

/// How a unit appears in the lists of the table: its key, its label and its
/// identifier.
pub open spec fn label_of(phoneme: PhonemeView) -> Seq<char> {
    seq!['['].push(phoneme.key) + "] "@ + phoneme.description_ja + " ("@ + phoneme.ipa + ")"@
}

/// How a unit appears in the selection: its place, counted from one, its
/// identifier and its label.
pub open spec fn selected_line_of(index: int, phoneme: PhonemeView) -> Seq<char> {
    decimal_text(index + 1) + ". ["@ + phoneme.ipa + "] "@ + phoneme.description_ja
}

/// What the selection panel shows: a hint while nothing is selected, else a
/// line for each unit, the total and the keys that act on the selection.
pub open spec fn selection_lines_of(selected: Seq<PhonemeView>) -> Seq<Seq<char>> {
    if selected.len() == 0 {
        seq!["(No phonemes selected)"@, ""@, "Press letter keys to add"@]
    } else {
        Seq::new(selected.len(), |i: int| selected_line_of(i, selected[i])) + seq![
            ""@,
            "Total: "@ + decimal_text(selected.len() as int),
            ""@,
            "[Enter] Preview"@,
            "[Backspace] Delete"@,
        ]
    }
}

/// A unit as it appears in a sequence: its identifier between square
/// brackets.
pub open spec fn bracketed_ipa(phoneme: PhonemeView) -> Seq<char> {
    "["@ + phoneme.ipa + "]"@
}

/// A sequence of units on one line: each between square brackets, with a
/// space between neighbours.
pub open spec fn sequence_text_of(phonemes: Seq<PhonemeView>) -> Seq<char> {
    joined(Seq::new(phonemes.len(), |i: int| bracketed_ipa(phonemes[i])), " "@)
}

/// The status as the preview shows it.
pub open spec fn status_text_of(status: StatusView) -> Seq<char> {
    match status {
        StatusView::Idle => "Idle"@,
        StatusView::Synthesizing => "Synthesizing"@,
        StatusView::Playing => "Playing"@,
        StatusView::Error(message) => "Error("@ + debug_quoted(message) + ")"@,
    }
}

/// What the preview shows: the selection in both orders, the keys that
/// start a run, and the status.
pub open spec fn preview_lines_of(app: AppView) -> Seq<Seq<char>> {
    seq![
        ""@,
        "Original:  "@ + sequence_text_of(app.selected),
        "Reversed:  "@ + sequence_text_of(app.selected.reverse()),
        ""@,
        "[p] Play Original"@,
        "[r] Play Reversed"@,
        "[s] Save to <timestamp>.wav"@,
        ""@,
        "Status: "@ + status_text_of(app.status),
    ]
}

/// What the status bar of a screen shows: the language and the keys that
/// work everywhere on that screen.
pub open spec fn status_bar_of(language: Language, view: View) -> Seq<char> {
    "Language: "@ + language.name() + match view {
        View::PhonemeSelection => "  |  [l] Switch  |  [q] Quit"@,
        View::Preview => "  |  [l] Switch  |  [Esc] Back  |  [q] Quit"@,
    }
}

/// The line of a unit in the lists of the table.
pub fn phoneme_label(phoneme: &Phoneme) -> (label: String)
    ensures
        label@ == label_of(phoneme@),
{
    let mut label = String::new();
    push_char(&mut label, '[');
    push_char(&mut label, phoneme.key);
    label.append("] ");
    label.append(phoneme.description_ja.as_str());
    label.append(" (");
    label.append(phoneme.ipa.as_str());
    label.append(")");
    label
}

fn selected_line(index: usize, phoneme: &Phoneme) -> (line: String)
    requires
        index < usize::MAX,
    ensures
        line@ == selected_line_of(index as int, phoneme@),
{
    let mut line = unsigned_string((index + 1) as u64);
    line.append(". [");
    line.append(phoneme.ipa.as_str());
    line.append("] ");
    line.append(phoneme.description_ja.as_str());
    line
}

/// The lines of the selection panel.
pub fn selection_lines(selected: &Vec<Phoneme>) -> (lines: Vec<String>)
    ensures
        lines.deep_view() == selection_lines_of(selected.deep_view()),
{
    let mut lines: Vec<String> = Vec::new();
    if selected.len() == 0 {
        lines.push(String::from_str("(No phonemes selected)"));
        lines.push(String::from_str(""));
        lines.push(String::from_str("Press letter keys to add"));
        return lines;
    }
    let mut i: usize = 0;
    while i < selected.len()
        invariant
            i <= selected.len(),
            lines@.len() == i,
            forall|j: int| 0 <= j < i ==> lines@[j]@ == selected_line_of(j, selected@[j]@),
        decreases selected.len() - i,
    {
        lines.push(selected_line(i, &selected[i]));
        i = i + 1;
    }
    let mut total = String::from_str("Total: ");
    total.append(unsigned_string(selected.len() as u64).as_str());
    lines.push(String::from_str(""));
    lines.push(total);
    lines.push(String::from_str(""));
    lines.push(String::from_str("[Enter] Preview"));
    lines.push(String::from_str("[Backspace] Delete"));
    lines
}

/// A sequence of units on one line.
pub fn sequence_text(phonemes: &Vec<Phoneme>) -> (text: String)
    ensures
        text@ == sequence_text_of(phonemes.deep_view()),
{
    let mut parts: Vec<String> = Vec::new();
    let mut i: usize = 0;
    while i < phonemes.len()
        invariant
            i <= phonemes.len(),
            parts@.len() == i,
            forall|j: int| 0 <= j < i ==> parts@[j]@ == bracketed_ipa(phonemes@[j]@),
        decreases phonemes.len() - i,
    {
        let mut part = String::from_str("[");
        part.append(phonemes[i].ipa.as_str());
        part.append("]");
        parts.push(part);
        i = i + 1;
    }
    proof {
        assert(parts.deep_view() =~= Seq::new(
            phonemes.deep_view().len(),
            |i: int| bracketed_ipa(phonemes.deep_view()[i]),
        ));
    }
    join(&parts, " ")
}

/// The status as the preview shows it.
pub fn status_text(status: &PlaybackStatus) -> (text: String)
    ensures
        text@ == status_text_of(status@),
{
    match status {
        PlaybackStatus::Idle => String::from_str("Idle"),
        PlaybackStatus::Synthesizing => String::from_str("Synthesizing"),
        PlaybackStatus::Playing => String::from_str("Playing"),
        PlaybackStatus::Error(message) => {
            let mut text = String::from_str("Error(");
            text.append(quoted(message.as_str()).as_str());
            text.append(")");
            text
        },
    }
}

/// The lines of the preview.
pub fn preview_lines(app: &App) -> (lines: Vec<String>)
    ensures
        lines.deep_view() == preview_lines_of(app@),
{
    let mut original = String::from_str("Original:  ");
    original.append(sequence_text(&app.selected_phonemes).as_str());
    let mut reverse = String::from_str("Reversed:  ");
    reverse.append(sequence_text(&reversed(&app.selected_phonemes)).as_str());
    let mut status = String::from_str("Status: ");
    status.append(status_text(&app.playback_status).as_str());
    let mut lines: Vec<String> = Vec::new();
    lines.push(String::from_str(""));
    lines.push(original);
    lines.push(reverse);
    lines.push(String::from_str(""));
    lines.push(String::from_str("[p] Play Original"));
    lines.push(String::from_str("[r] Play Reversed"));
    lines.push(String::from_str("[s] Save to <timestamp>.wav"));
    lines.push(String::from_str(""));
    lines.push(status);
    lines
}

/// The text of the status bar of a screen.
pub fn status_bar(language: Language, view: View) -> (text: String)
    ensures
        text@ == status_bar_of(language, view),
{
    let mut text = String::from_str("Language: ");
    text.append(language.display_name());
    match view {
        View::PhonemeSelection => text.append("  |  [l] Switch  |  [q] Quit"),
        View::Preview => text.append("  |  [l] Switch  |  [Esc] Back  |  [q] Quit"),
    }
    text
}

} // verus!
