//! The selection and the pipeline that turns it into sound.
//!
//! The pipeline is a state machine. Starting a run and feeding it the
//! outcome of each step both answer with the next step for the caller to
//! perform: converting symbols, synthesizing, decoding, playing. The machine
//! itself performs none of them; it tracks where the run stands and what the
//! user is shown.

use vstd::prelude::*;
use vstd::view::View as _;
use crate::error::{ErrorView, PhonemeReverserError};
use crate::playback::AudioPlayer;
use crate::synth::{Language, SynthConfig};
use crate::tui::phoneme_db::{is_registered, lookup, Phoneme, PhonemeDatabase, PhonemeView};

verus! {

/// The screen that the user is on.
#[derive(Debug, Clone, Copy, PartialEq, Eq, Structural)]
pub enum View {
    PhonemeSelection,
    Preview,
}

/// What the user is shown of the pipeline.
#[derive(Debug, PartialEq)]
pub enum PlaybackStatus {
    Idle,
    Synthesizing,
    Playing,
    Error(String),
}

/// The mathematical value of a [`PlaybackStatus`].
pub enum StatusView {
    Idle,
    Synthesizing,
    Playing,
    Error(Seq<char>),
}

impl vstd::view::View for PlaybackStatus {
    type V = StatusView;

    open spec fn view(&self) -> StatusView {
        match self {
            PlaybackStatus::Idle => StatusView::Idle,
            PlaybackStatus::Synthesizing => StatusView::Synthesizing,
            PlaybackStatus::Playing => StatusView::Playing,
            PlaybackStatus::Error(message) => StatusView::Error(message@),
        }
    }
}

impl Clone for PlaybackStatus {
    fn clone(&self) -> (copy: Self)
        ensures
            copy == *self,
    {
        match self {
            PlaybackStatus::Idle => PlaybackStatus::Idle,
            PlaybackStatus::Synthesizing => PlaybackStatus::Synthesizing,
            PlaybackStatus::Playing => PlaybackStatus::Playing,
            PlaybackStatus::Error(message) => PlaybackStatus::Error(message.clone()),
        }
    }
}

/// The three runs of the pipeline.
#[derive(Debug, Clone, Copy, PartialEq, Eq, Structural)]
pub enum Run {
    /// Speak the selection in the order in which it was made.
    PlayOriginal,
    /// Speak the selection in reverse order.
    PlayReversed,
    /// Synthesize the reversed selection into a file that stays.
    SaveReversed,
}

/// Where a run stands.
#[derive(Debug)]
pub enum Stage {
    /// No run is in flight.
    Ready,
    /// The symbols are with the conversion collaborator.
    Converting(Run),
    /// The notation is with the synthesizer, which renders it into a
    /// temporary file.
    Rendering,
    /// The notation is with the synthesizer, which renders it into the file
    /// at this path.
    Saving(String),
    /// The temporary file is being decoded.
    Decoding,
    /// The decoded buffer is with the playback engine.
    Playing,
}

/// The mathematical value of a [`Stage`].
pub enum StageView {
    Ready,
    Converting(Run),
    Rendering,
    Saving(Seq<char>),
    Decoding,
    Playing,
}

impl vstd::view::View for Stage {
    type V = StageView;

    open spec fn view(&self) -> StageView {
        match self {
            Stage::Ready => StageView::Ready,
            Stage::Converting(run) => StageView::Converting(*run),
            Stage::Rendering => StageView::Rendering,
            Stage::Saving(path) => StageView::Saving(path@),
            Stage::Decoding => StageView::Decoding,
            Stage::Playing => StageView::Playing,
        }
    }
}

/// Where the synthesizer writes its waveform.
#[derive(Debug)]
pub enum Output {
    /// Into a temporary file that lives as long as the run, and is removed
    /// however the run ends.
    Temporary,
    /// Into the file `name` of `directory`, which is created if absent.
    File { directory: String, name: String },
}

/// The mathematical value of an [`Output`].
pub enum OutputView {
    Temporary,
    File { directory: Seq<char>, name: Seq<char> },
}

impl vstd::view::View for Output {
    type V = OutputView;

    open spec fn view(&self) -> OutputView {
        match self {
            Output::Temporary => OutputView::Temporary,
            Output::File { directory, name } => OutputView::File {
                directory: directory@,
                name: name@,
            },
        }
    }
}

/// What the caller does next for the run in flight.
#[derive(Debug)]
pub enum PipelineStep {
    /// Nothing: no run is in flight. The status tells how the last one
    /// ended.
    Finished,
    /// Nothing new: the run does not wait for the outcome that was
    /// reported, and stands where it stood.
    Ignored,
    /// Nothing: the run has written the file at this path.
    Saved(String),
    /// Nothing: the run has ended with this error.
    Failed(PhonemeReverserError),
    /// Submit these symbols, in this order, to the conversion collaborator.
    Convert(Vec<String>),
    /// Hand this notation to the synthesizer.
    Synthesize { notation: String, config: SynthConfig, output: Output },
    /// Decode the temporary file.
    Decode,
    /// Hand the decoded buffer to the playback engine and wait for it.
    Play,
}

/// The mathematical value of a [`PipelineStep`].
pub enum StepView {
    Finished,
    Ignored,
    Saved(Seq<char>),
    Failed(ErrorView),
    Convert(Seq<Seq<char>>),
    Synthesize { notation: Seq<char>, config: SynthConfig, output: OutputView },
    Decode,
    Play,
}

impl vstd::view::View for PipelineStep {
    type V = StepView;

    open spec fn view(&self) -> StepView {
        match self {
            PipelineStep::Finished => StepView::Finished,
            PipelineStep::Ignored => StepView::Ignored,
            PipelineStep::Saved(path) => StepView::Saved(path@),
            PipelineStep::Failed(e) => StepView::Failed(e@),
            PipelineStep::Convert(symbols) => StepView::Convert(symbols.deep_view()),
            PipelineStep::Synthesize { notation, config, output } => StepView::Synthesize {
                notation: notation@,
                config: *config,
                output: output@,
            },
            PipelineStep::Decode => StepView::Decode,
            PipelineStep::Play => StepView::Play,
        }
    }
}

/// The outcome of a step, as the caller reports it.
#[derive(Debug)]
pub enum PipelineEvent {
    /// The conversion collaborator answered: the converted notation, or its
    /// failure.
    Converted(Result<String, PhonemeReverserError>),
    /// The synthesizer is done.
    Synthesized(Result<(), PhonemeReverserError>),
    /// The temporary file was decoded.
    Decoded(Result<(), PhonemeReverserError>),
    /// The playback engine has returned.
    Played(Result<(), PhonemeReverserError>),
}

/// The mathematical value of a [`PipelineEvent`].
pub enum EventView {
    Converted(Result<Seq<char>, ErrorView>),
    Synthesized(Result<(), ErrorView>),
    Decoded(Result<(), ErrorView>),
    Played(Result<(), ErrorView>),
}

/// The value of the outcome of a step that yields nothing.
pub open spec fn outcome_view(outcome: Result<(), PhonemeReverserError>) -> Result<(), ErrorView> {
    match outcome {
        Ok(()) => Ok(()),
        Err(e) => Err(e@),
    }
}

impl vstd::view::View for PipelineEvent {
    type V = EventView;

    open spec fn view(&self) -> EventView {
        match self {
            PipelineEvent::Converted(Ok(notation)) => EventView::Converted(Ok(notation@)),
            PipelineEvent::Converted(Err(e)) => EventView::Converted(Err(e@)),
            PipelineEvent::Synthesized(outcome) => EventView::Synthesized(outcome_view(*outcome)),
            PipelineEvent::Decoded(outcome) => EventView::Decoded(outcome_view(*outcome)),
            PipelineEvent::Played(outcome) => EventView::Played(outcome_view(*outcome)),
        }
    }
}

/// The mathematical value of an [`App`].
pub struct AppView {
    pub should_quit: bool,
    pub current_view: View,
    /// The selection, in the order in which it was made.
    pub selected: Seq<PhonemeView>,
    pub is_playing: bool,
    pub status: StatusView,
    /// The settings that the next synthesis runs with.
    pub config: SynthConfig,
    pub stage: StageView,
}

/// The canonical identifiers of a sequence of units, in its order.
pub open spec fn ipa_symbols(phonemes: Seq<PhonemeView>) -> Seq<Seq<char>> {
    Seq::new(phonemes.len(), |i: int| phonemes[i].ipa)
}

/// The selection in the order that a run speaks it.
pub open spec fn run_order(run: Run, selected: Seq<PhonemeView>) -> Seq<PhonemeView> {
    match run {
        Run::PlayOriginal => selected,
        Run::PlayReversed => selected.reverse(),
        Run::SaveReversed => selected.reverse(),
    }
}

/// The name of the file that a save made at `timestamp` writes.
pub open spec fn saved_name(timestamp: Seq<char>) -> Seq<char> {
    timestamp + ".wav"@
}

/// The path, relative to the working directory, of the file that a save
/// made at `timestamp` writes.
pub open spec fn saved_path(timestamp: Seq<char>) -> Seq<char> {
    "wav/"@ + saved_name(timestamp)
}

/// The state after a selection attempt with `key`: the unit that the key
/// selects joins the selection at its end; a key that selects nothing
/// changes nothing.
pub open spec fn selected_with(app: AppView, key: char) -> AppView {
    match lookup(key) {
        Some(phoneme) => AppView { selected: app.selected.push(phoneme), ..app },
        None => app,
    }
}

/// The state after the last unit of the selection was taken back; an empty
/// selection stays empty.
pub open spec fn without_last(app: AppView) -> AppView {
    if app.selected.len() > 0 {
        AppView { selected: app.selected.drop_last(), ..app }
    } else {
        app
    }
}

/// The state and the first step when a run starts.
///
/// Without a selection no run starts: the status reports that no phonemes
/// are selected, and a save ends with an error besides. With a selection
/// the status turns to synthesizing and its symbols, in the order of the
/// run, go to the conversion collaborator.
pub open spec fn started(app: AppView, run: Run) -> (AppView, StepView) {
    if app.selected.len() == 0 {
        (
            AppView {
                status: StatusView::Error("No phonemes selected"@),
                stage: StageView::Ready,
                ..app
            },
            match run {
                Run::SaveReversed => StepView::Failed(ErrorView::Synthesis("No phonemes to save"@)),
                _ => StepView::Finished,
            },
        )
    } else {
        (
            AppView {
                status: StatusView::Synthesizing,
                stage: StageView::Converting(run),
                ..app
            },
            StepView::Convert(ipa_symbols(run_order(run, app.selected))),
        )
    }
}

/// The state and the step when a run fails: the status shows the message
/// of the error and no run is in flight any more.
pub open spec fn failed(app: AppView, e: ErrorView) -> (AppView, StepView) {
    (
        AppView { status: StatusView::Error(e.message()), stage: StageView::Ready, ..app },
        StepView::Failed(e),
    )
}

/// The state and the next step when the caller reports the outcome of a
/// step.
///
/// A success moves the run on to its next stage: from conversion to
/// synthesis, from there to decoding and to playback for a play run, and
/// back to idle at the end. A save run names its file after `timestamp`
/// when the notation arrives and ends when the synthesizer has written it.
/// A failure at any stage ends the run with the status showing its message.
/// An outcome that the stage does not wait for is ignored and changes
/// nothing.
pub open spec fn transition(app: AppView, event: EventView, timestamp: Seq<char>) -> (
    AppView,
    StepView,
) {
    match (app.stage, event) {
        (StageView::Converting(run), EventView::Converted(Ok(notation))) => match run {
            Run::SaveReversed => (
                AppView { stage: StageView::Saving(saved_path(timestamp)), ..app },
                StepView::Synthesize {
                    notation,
                    config: app.config,
                    output: OutputView::File { directory: "wav"@, name: saved_name(timestamp) },
                },
            ),
            _ => (
                AppView { stage: StageView::Rendering, ..app },
                StepView::Synthesize {
                    notation,
                    config: app.config,
                    output: OutputView::Temporary,
                },
            ),
        },
        (StageView::Converting(_), EventView::Converted(Err(e))) => failed(app, e),
        (StageView::Rendering, EventView::Synthesized(Ok(()))) => (
            AppView { stage: StageView::Decoding, ..app },
            StepView::Decode,
        ),
        (StageView::Rendering, EventView::Synthesized(Err(e))) => failed(app, e),
        (StageView::Saving(path), EventView::Synthesized(Ok(()))) => (
            AppView { status: StatusView::Idle, stage: StageView::Ready, ..app },
            StepView::Saved(path),
        ),
        (StageView::Saving(_), EventView::Synthesized(Err(e))) => failed(app, e),
        (StageView::Decoding, EventView::Decoded(Ok(()))) => (
            AppView { status: StatusView::Playing, stage: StageView::Playing, ..app },
            StepView::Play,
        ),
        (StageView::Decoding, EventView::Decoded(Err(e))) => failed(app, e),
        (StageView::Playing, EventView::Played(Ok(()))) => (
            AppView { status: StatusView::Idle, stage: StageView::Ready, ..app },
            StepView::Finished,
        ),
        (StageView::Playing, EventView::Played(Err(e))) => failed(app, e),
        _ => (app, StepView::Ignored),
    }
}

/// Whether a stage needs the time when this event arrives: only a save run
/// does, when its notation arrives.
pub open spec fn needs_timestamp(stage: StageView, event: EventView) -> bool {
    stage == StageView::Converting(Run::SaveReversed) && event matches EventView::Converted(Ok(_))
}

/// The local time as text.
///
/// Wraps `chrono::Local::now` and `DateTime::format`. The text depends on
/// the clock and the time zone of the machine, so the contract promises
/// nothing of it. It admits the one format that consists of the year, the
/// month, the day, the hour, the minute and the second, each a specifier
/// that chrono documents. The call panics where the clock of the machine
/// stands before 1970 or chrono cannot tell the offset of the local time.
#[verifier::external_body]
fn local_time_text(format: &str) -> (text: String)
    requires
        format@ == "%Y%m%d%H%M%S"@,
{
    chrono::Local::now().format(format).to_string()
}

/// The state of the application: what the user sees, what the user has
/// selected, and where the pipeline stands.
pub struct App {
    pub should_quit: bool,
    pub current_view: View,
    /// The selection, in the order in which it was made.
    pub selected_phonemes: Vec<Phoneme>,
    pub phoneme_db: PhonemeDatabase,
    pub is_playing: bool,
    pub playback_status: PlaybackStatus,
    /// The settings that the next synthesis runs with.
    pub synth_config: SynthConfig,
    /// Where the pipeline stands.
    pub stage: Stage,
    pub player: AudioPlayer,
}

fn symbols_of(phonemes: &Vec<Phoneme>) -> (symbols: Vec<String>)
    ensures
        symbols.deep_view() == ipa_symbols(phonemes.deep_view()),
{
    let mut symbols: Vec<String> = Vec::new();
    let mut i: usize = 0;
    while i < phonemes.len()
        invariant
            i <= phonemes.len(),
            symbols@.len() == i,
            forall|j: int| 0 <= j < i ==> symbols@[j]@ == phonemes@[j].ipa@,
        decreases phonemes.len() - i,
    {
        symbols.push(phonemes[i].ipa.clone());
        i = i + 1;
    }
    symbols
}

/// The units of `phonemes` in reverse order.
pub fn reversed(phonemes: &Vec<Phoneme>) -> (reverse: Vec<Phoneme>)
    ensures
        reverse.deep_view() == phonemes.deep_view().reverse(),
        reverse@.len() == phonemes@.len(),
{
    let n = phonemes.len();
    let mut reverse: Vec<Phoneme> = Vec::new();
    let mut i: usize = 0;
    while i < n
        invariant
            n == phonemes.len(),
            i <= n,
            reverse@.len() == i,
            forall|j: int| 0 <= j < i ==> reverse@[j] == phonemes@[n - 1 - j],
        decreases n - i,
    {
        reverse.push(phonemes[n - 1 - i].clone());
        i = i + 1;
    }
    reverse
}

/// Reversing a sequence of units twice gives the sequence back.
pub proof fn lemma_reversed_twice(phonemes: Seq<PhonemeView>)
    ensures
        phonemes.reverse().reverse() == phonemes,
{
}

/// Neither the start of a run nor the outcome of a step touches the
/// selection, the screen or the settings: a run that failed can be started
/// again as it was.
pub proof fn lemma_run_keeps_selection(
    app: AppView,
    run: Run,
    event: EventView,
    timestamp: Seq<char>,
)
    ensures
        started(app, run).0.selected == app.selected,
        started(app, run).0.config == app.config,
        started(app, run).0.current_view == app.current_view,
        transition(app, event, timestamp).0.selected == app.selected,
        transition(app, event, timestamp).0.config == app.config,
        transition(app, event, timestamp).0.current_view == app.current_view,
{
}

/// A play run whose steps all succeed asks for each step in turn and ends
/// idle, with the selection as it was.
pub proof fn lemma_play_run_ends_idle(
    app: AppView,
    run: Run,
    notation: Seq<char>,
    timestamp: Seq<char>,
)
    requires
        app.selected.len() > 0,
        run != Run::SaveReversed,
    ensures
        ({
            let (converting, first) = started(app, run);
            let (rendering, second) = transition(
                converting,
                EventView::Converted(Ok(notation)),
                timestamp,
            );
            let (decoding, third) = transition(
                rendering,
                EventView::Synthesized(Ok(())),
                timestamp,
            );
            let (playing, fourth) = transition(decoding, EventView::Decoded(Ok(())), timestamp);
            let (done, last) = transition(playing, EventView::Played(Ok(())), timestamp);
            &&& first == StepView::Convert(ipa_symbols(run_order(run, app.selected)))
            &&& converting.status == StatusView::Synthesizing
            &&& second == StepView::Synthesize {
                notation,
                config: app.config,
                output: OutputView::Temporary,
            }
            &&& third == StepView::Decode
            &&& decoding.status == StatusView::Synthesizing
            &&& fourth == StepView::Play
            &&& playing.status == StatusView::Playing
            &&& last == StepView::Finished
            &&& done == AppView { status: StatusView::Idle, stage: StageView::Ready, ..app }
        }),
{
}

/// A save run whose steps all succeed has the reversed selection
/// synthesized into the file named after the time at which the notation
/// arrived, and ends idle with the path of that file.
pub proof fn lemma_save_run_ends_idle(app: AppView, notation: Seq<char>, timestamp: Seq<char>)
    requires
        app.selected.len() > 0,
    ensures
        ({
            let (converting, first) = started(app, Run::SaveReversed);
            let (saving, second) = transition(
                converting,
                EventView::Converted(Ok(notation)),
                timestamp,
            );
            let (done, last) = transition(saving, EventView::Synthesized(Ok(())), Seq::empty());
            &&& first == StepView::Convert(ipa_symbols(app.selected.reverse()))
            &&& second == StepView::Synthesize {
                notation,
                config: app.config,
                output: OutputView::File { directory: "wav"@, name: timestamp + ".wav"@ },
            }
            &&& last == StepView::Saved("wav/"@ + (timestamp + ".wav"@))
            &&& done == AppView { status: StatusView::Idle, stage: StageView::Ready, ..app }
        }),
{
}

/// Whether a run at this stage holds its temporary file: from the moment
/// the synthesizer is asked to render into it until playback has returned.
pub open spec fn holds_artifact(stage: StageView) -> bool {
    stage is Rendering || stage is Decoding || stage is Playing
}

/// Whether a step ends the run.
pub open spec fn ends_run(step: StepView) -> bool {
    step is Finished || step is Saved || step is Failed
}

/// Whether the status shown agrees with where the run stands: idle or an
/// error while no run is in flight, synthesizing until the waveform is
/// decoded, playing while the playback engine has it.
pub open spec fn consistent(app: AppView) -> bool {
    match app.stage {
        StageView::Ready => app.status is Idle || app.status is Error,
        StageView::Playing => app.status is Playing,
        _ => app.status is Synthesizing,
    }
}

/// A run is over exactly when the machine says so, and a run that is over
/// holds no temporary file: whichever step fails, the file may go. The
/// status shown keeps agreeing with where the run stands.
pub proof fn lemma_run_over_releases_artifact(
    app: AppView,
    run: Run,
    event: EventView,
    timestamp: Seq<char>,
)
    ensures
        ends_run(started(app, run).1) <==> started(app, run).0.stage is Ready,
        !holds_artifact(started(app, run).0.stage),
        consistent(started(app, run).0),
        awaited(app.stage, event) ==> (ends_run(transition(app, event, timestamp).1)
            <==> transition(app, event, timestamp).0.stage is Ready),
        ends_run(transition(app, event, timestamp).1) ==> !holds_artifact(
            transition(app, event, timestamp).0.stage,
        ),
        consistent(app) ==> consistent(transition(app, event, timestamp).0),
{
}

/// Whether a stage waits for an event.
pub open spec fn awaited(stage: StageView, event: EventView) -> bool {
    match (stage, event) {
        (StageView::Converting(_), EventView::Converted(_)) => true,
        (StageView::Rendering, EventView::Synthesized(_)) => true,
        (StageView::Saving(_), EventView::Synthesized(_)) => true,
        (StageView::Decoding, EventView::Decoded(_)) => true,
        (StageView::Playing, EventView::Played(_)) => true,
        _ => false,
    }
}

/// The error that an event reports, if it reports one.
pub open spec fn failure_of(event: EventView) -> Option<ErrorView> {
    match event {
        EventView::Converted(Err(e)) => Some(e),
        EventView::Synthesized(Err(e)) => Some(e),
        EventView::Decoded(Err(e)) => Some(e),
        EventView::Played(Err(e)) => Some(e),
        _ => None,
    }
}

/// A failure of the step that the run waits for ends the run: the status
/// shows the message of the error, no run is in flight, and nothing else
/// has changed. An event that the run does not wait for changes nothing at
/// all.
pub proof fn lemma_failure_ends_run(app: AppView, event: EventView, timestamp: Seq<char>)
    ensures
        awaited(app.stage, event) && failure_of(event) is Some ==> transition(
            app,
            event,
            timestamp,
        ) == (
            AppView {
                status: StatusView::Error(failure_of(event).unwrap().message()),
                stage: StageView::Ready,
                ..app
            },
            StepView::Failed(failure_of(event).unwrap()),
        ),
        !awaited(app.stage, event) ==> transition(app, event, timestamp) == (
            app,
            StepView::Ignored,
        ),
{
}

impl App {
    /// A fresh application: the selection screen, nothing selected, the
    /// pipeline idle, the default settings.
    pub fn new() -> (app: Result<Self, PhonemeReverserError>)
        ensures
            app matches Ok(a) && a@ == (AppView {
                should_quit: false,
                current_view: View::PhonemeSelection,
                selected: Seq::empty(),
                is_playing: false,
                status: StatusView::Idle,
                config: SynthConfig { language: Language::Japanese, speed: 175, pitch: 50 },
                stage: StageView::Ready,
            }),
    {
        let player = match AudioPlayer::new() {
            Ok(player) => player,
            Err(e) => {
                return Err(e);
            },
        };
        let app = Self {
            should_quit: false,
            current_view: View::PhonemeSelection,
            selected_phonemes: Vec::new(),
            phoneme_db: PhonemeDatabase::new(),
            is_playing: false,
            playback_status: PlaybackStatus::Idle,
            synth_config: SynthConfig::default(),
            stage: Stage::Ready,
            player,
        };
        proof {
            assert(app@.selected =~= Seq::empty());
        }
        Ok(app)
    }

    /// Appends the unit that `key` selects to the selection. A key that
    /// selects nothing is ignored.
    pub fn select_phoneme(&mut self, key: char)
        ensures
            final(self)@ == selected_with(old(self)@, key),
            is_registered(key) ==> final(self)@.selected.len() == old(self)@.selected.len() + 1,
            !is_registered(key) ==> final(self)@.selected.len() == old(self)@.selected.len(),
    {
        if let Some(phoneme) = self.phoneme_db.get_by_key(key) {
            let chosen = phoneme.clone();
            self.selected_phonemes.push(chosen);
            proof {
                assert(final(self)@.selected =~= old(self)@.selected.push(chosen@));
            }
        }
    }

    /// Takes back the last unit of the selection. An empty selection stays
    /// as it is.
    pub fn delete_last_phoneme(&mut self)
        ensures
            final(self)@ == without_last(old(self)@),
            old(self)@.selected.len() == 0 ==> final(self)@.selected.len() == 0,
    {
        self.selected_phonemes.pop();
        proof {
            if old(self)@.selected.len() > 0 {
                assert(final(self)@.selected =~= old(self)@.selected.drop_last());
            }
        }
    }

    /// The selection in reverse order.
    pub fn get_reversed_phonemes(&self) -> (reverse: Vec<Phoneme>)
        ensures
            reverse.deep_view() == self@.selected.reverse(),
    {
        reversed(&self.selected_phonemes)
    }

    /// Switches between the selection screen and the preview.
    pub fn toggle_view(&mut self)
        ensures
            final(self)@ == (AppView {
                current_view: match old(self)@.current_view {
                    View::PhonemeSelection => View::Preview,
                    View::Preview => View::PhonemeSelection,
                },
                ..old(self)@
            }),
    {
        self.current_view = match self.current_view {
            View::PhonemeSelection => View::Preview,
            View::Preview => View::PhonemeSelection,
        };
    }

    /// Asks the application to end.
    pub fn quit(&mut self)
        ensures
            final(self)@ == (AppView { should_quit: true, ..old(self)@ }),
    {
        self.should_quit = true;
    }

    /// The language that the next synthesis speaks.
    pub fn current_language(&self) -> (language: Language)
        ensures
            language == self@.config.language,
    {
        self.synth_config.language
    }

    /// Switches the language of the next synthesis to the other one.
    pub fn toggle_language(&mut self)
        ensures
            final(self)@ == (AppView {
                config: SynthConfig {
                    language: old(self)@.config.language.other(),
                    ..old(self)@.config
                },
                ..old(self)@
            }),
    {
        self.synth_config.language = match self.synth_config.language {
            Language::Japanese => Language::English,
            Language::English => Language::Japanese,
        };
    }

    fn start(&mut self, run: Run) -> (step: PipelineStep)
        ensures
            (final(self)@, step@) == started(old(self)@, run),
    {
        if self.selected_phonemes.len() == 0 {
            self.playback_status = PlaybackStatus::Error(String::from_str("No phonemes selected"));
            self.stage = Stage::Ready;
            match run {
                Run::SaveReversed => PipelineStep::Failed(
                    PhonemeReverserError::Synthesis(String::from_str("No phonemes to save")),
                ),
                _ => PipelineStep::Finished,
            }
        } else {
            self.playback_status = PlaybackStatus::Synthesizing;
            self.stage = Stage::Converting(run);
            let symbols = match run {
                Run::PlayOriginal => symbols_of(&self.selected_phonemes),
                _ => symbols_of(&self.get_reversed_phonemes()),
            };
            PipelineStep::Convert(symbols)
        }
    }

    /// Starts a run that speaks the selection in its own order.
    ///
    /// Without a selection nothing is asked of any collaborator: the status
    /// reports that no phonemes are selected and the run is over.
    pub fn play_original(&mut self) -> (step: PipelineStep)
        ensures
            (final(self)@, step@) == started(old(self)@, Run::PlayOriginal),
            old(self)@.selected.len() == 0 ==> step@ == StepView::Finished && final(self)@.status
                == StatusView::Error("No phonemes selected"@),
    {
        self.start(Run::PlayOriginal)
    }

    /// Starts a run that speaks the selection in reverse order.
    ///
    /// Without a selection nothing is asked of any collaborator: the status
    /// reports that no phonemes are selected and the run is over.
    pub fn play_reversed(&mut self) -> (step: PipelineStep)
        ensures
            (final(self)@, step@) == started(old(self)@, Run::PlayReversed),
            old(self)@.selected.len() == 0 ==> step@ == StepView::Finished && final(self)@.status
                == StatusView::Error("No phonemes selected"@),
    {
        self.start(Run::PlayReversed)
    }

    /// Starts a run that synthesizes the reversed selection into a file
    /// named after the local time.
    ///
    /// Without a selection the run fails at once, before any synthesis
    /// work.
    pub fn save_reversed(&mut self) -> (step: PipelineStep)
        ensures
            (final(self)@, step@) == started(old(self)@, Run::SaveReversed),
            old(self)@.selected.len() == 0 ==> step@ == StepView::Failed(
                ErrorView::Synthesis("No phonemes to save"@),
            ) && final(self)@.status == StatusView::Error("No phonemes selected"@),
    {
        self.start(Run::SaveReversed)
    }

    fn fail(&mut self, e: PhonemeReverserError) -> (step: PipelineStep)
        ensures
            (final(self)@, step@) == failed(old(self)@, e@),
    {
        self.playback_status = PlaybackStatus::Error(e.message());
        self.stage = Stage::Ready;
        PipelineStep::Failed(e)
    }

    /// Whether the run in flight holds its temporary file.
    pub fn holds_artifact(&self) -> (held: bool)
        ensures
            held == holds_artifact(self@.stage),
    {
        match &self.stage {
            Stage::Rendering => true,
            Stage::Decoding => true,
            Stage::Playing => true,
            _ => false,
        }
    }

    /// Whether the run needs the time when this event arrives.
    pub fn wants_timestamp(&self, event: &PipelineEvent) -> (wanted: bool)
        ensures
            wanted == needs_timestamp(self@.stage, event@),
    {
        match (&self.stage, event) {
            (Stage::Converting(Run::SaveReversed), PipelineEvent::Converted(Ok(_))) => true,
            _ => false,
        }
    }

    /// Takes the outcome of the step that the caller performed and answers
    /// with the next one, naming the file of a save after `timestamp`.
    pub fn advance_at(&mut self, event: PipelineEvent, timestamp: &str) -> (step: PipelineStep)
        ensures
            (final(self)@, step@) == transition(old(self)@, event@, timestamp@),
            final(self)@.selected == old(self)@.selected,
    {
        match event {
            PipelineEvent::Converted(outcome) => {
                let run = match &self.stage {
                    Stage::Converting(run) => *run,
                    _ => {
                        return PipelineStep::Ignored;
                    },
                };
                match outcome {
                    Err(e) => self.fail(e),
                    Ok(notation) => match run {
                        Run::SaveReversed => {
                            let name = String::from_str(timestamp).concat(".wav");
                            let path = String::from_str("wav/").concat(name.as_str());
                            self.stage = Stage::Saving(path);
                            PipelineStep::Synthesize {
                                notation,
                                config: self.synth_config.clone(),
                                output: Output::File { directory: String::from_str("wav"), name },
                            }
                        },
                        _ => {
                            self.stage = Stage::Rendering;
                            PipelineStep::Synthesize {
                                notation,
                                config: self.synth_config.clone(),
                                output: Output::Temporary,
                            }
                        },
                    },
                }
            },
            PipelineEvent::Synthesized(outcome) => {
                match &self.stage {
                    Stage::Rendering => match outcome {
                        Ok(()) => {
                            self.stage = Stage::Decoding;
                            PipelineStep::Decode
                        },
                        Err(e) => self.fail(e),
                    },
                    Stage::Saving(path) => {
                        let path = path.clone();
                        match outcome {
                            Ok(()) => {
                                self.stage = Stage::Ready;
                                self.playback_status = PlaybackStatus::Idle;
                                PipelineStep::Saved(path)
                            },
                            Err(e) => self.fail(e),
                        }
                    },
                    _ => PipelineStep::Ignored,
                }
            },
            PipelineEvent::Decoded(outcome) => {
                match &self.stage {
                    Stage::Decoding => match outcome {
                        Ok(()) => {
                            self.stage = Stage::Playing;
                            self.playback_status = PlaybackStatus::Playing;
                            PipelineStep::Play
                        },
                        Err(e) => self.fail(e),
                    },
                    _ => PipelineStep::Ignored,
                }
            },
            PipelineEvent::Played(outcome) => {
                match &self.stage {
                    Stage::Playing => match outcome {
                        Ok(()) => {
                            self.stage = Stage::Ready;
                            self.playback_status = PlaybackStatus::Idle;
                            PipelineStep::Finished
                        },
                        Err(e) => self.fail(e),
                    },
                    _ => PipelineStep::Ignored,
                }
            },
        }
    }

    /// Takes the outcome of the step that the caller performed and answers
    /// with the next one. A save run names its file after the local time at
    /// which its notation arrives.
    pub fn advance(&mut self, event: PipelineEvent) -> (step: PipelineStep)
        ensures
            exists|timestamp: Seq<char>|
                (final(self)@, step@) == #[trigger] transition(old(self)@, event@, timestamp),
            !needs_timestamp(old(self)@.stage, event@) ==> (final(self)@, step@) == transition(
                old(self)@,
                event@,
                Seq::empty(),
            ),
            final(self)@.selected == old(self)@.selected,
    {
        if self.wants_timestamp(&event) {
            let timestamp = local_time_text("%Y%m%d%H%M%S");
            self.advance_at(event, timestamp.as_str())
        } else {
            let step = self.advance_at(event, "");
            proof {
                reveal_strlit("");
            }
            step
        }
    }
}

impl vstd::view::View for App {
    type V = AppView;

    open spec fn view(&self) -> AppView {
        AppView {
            should_quit: self.should_quit,
            current_view: self.current_view,
            selected: self.selected_phonemes.deep_view(),
            is_playing: self.is_playing,
            status: self.playback_status@,
            config: self.synth_config,
            stage: self.stage@,
        }
    }
}

} // verus!
