//! The boundary to the speech synthesizer: what to run and how to read what
//! came of it.

use vstd::prelude::*;
use crate::command::{CommandLine, CommandLineView};
use crate::error::{ErrorView, PhonemeReverserError};
use crate::text::{decimal_string, decimal_text};

verus! {

/// The language whose voice the synthesizer speaks with.
#[derive(Debug, Clone, Copy, PartialEq, Eq, Structural)]
pub enum Language {
    Japanese,
    English,
}

impl Language {
    /// The voice code of the language.
    pub open spec fn espeak_code(self) -> Seq<char> {
        match self {
            Language::Japanese => "ja"@,
            Language::English => "en-us"@,
        }
    }

    /// The name of the language as shown to the user.
    pub open spec fn name(self) -> Seq<char> {
        match self {
            Language::Japanese => "日本語"@,
            Language::English => "English"@,
        }
    }

    /// The other of the two languages.
    pub open spec fn other(self) -> Language {
        match self {
            Language::Japanese => Language::English,
            Language::English => Language::Japanese,
        }
    }

    /// The code by which the synthesizer knows the language.
    pub fn to_espeak_code(&self) -> (code: &str)
        ensures
            code@ == self.espeak_code(),
    {
        match self {
            Language::Japanese => "ja",
            Language::English => "en-us",
        }
    }

    /// The name of the language as shown to the user.
    pub fn display_name(&self) -> (name: &str)
        ensures
            name@ == self.name(),
    {
        match self {
            Language::Japanese => "日本語",
            Language::English => "English",
        }
    }
}

impl Default for Language {
    fn default() -> (language: Self)
        ensures
            language == Language::Japanese,
    {
        Language::Japanese
    }
}

/// The settings of one synthesis run.
#[derive(Debug)]
pub struct SynthConfig {
    pub language: Language,
    /// Words per minute.
    pub speed: u32,
    /// From 0 to 100.
    pub pitch: u32,
}

impl SynthConfig {
    /// Settings are well formed when the speed is positive and the pitch is
    /// at most 100.
    pub open spec fn well_formed(&self) -> bool {
        self.speed > 0 && self.pitch <= 100
    }

    /// Whether the speed is positive and the pitch at most 100.
    pub fn is_well_formed(&self) -> (answer: bool)
        ensures
            answer == self.well_formed(),
    {
        self.speed > 0 && self.pitch <= 100
    }
}

impl Clone for SynthConfig {
    fn clone(&self) -> (copy: Self)
        ensures
            copy == *self,
    {
        SynthConfig { language: self.language, speed: self.speed, pitch: self.pitch }
    }
}

impl Default for SynthConfig {
    fn default() -> (config: Self)
        ensures
            config == (SynthConfig { language: Language::Japanese, speed: 175, pitch: 50 }),
            config.well_formed(),
    {
        Self { language: Language::default(), speed: 175, pitch: 50 }
    }
}

/// The phoneme input as the synthesizer wants it: between double square
/// brackets.
pub open spec fn bracketed(espeak_phonemes: Seq<char>) -> Seq<char> {
    "[["@ + espeak_phonemes + "]]"@
}

/// The command that renders `espeak_phonemes` to a waveform at
/// `output_path`.
pub open spec fn synthesis_command_of(
    espeak_phonemes: Seq<char>,
    output_path: Seq<char>,
    language: Language,
) -> CommandLineView {
    CommandLineView {
        program: "espeak-ng"@,
        arguments: seq![
            "-v"@,
            language.espeak_code(),
            bracketed(espeak_phonemes),
            "-w"@,
            output_path,
        ],
    }
}

/// The command that renders `espeak_phonemes` to a waveform container at
/// `output_path`, in the voice of the configured language.
pub fn synthesis_command(
    espeak_phonemes: &str,
    output_path: &str,
    config: &SynthConfig,
) -> (command: CommandLine)
    ensures
        command@ == synthesis_command_of(espeak_phonemes@, output_path@, config.language),
{
    let mut input = String::from_str("[[");
    input.append(espeak_phonemes);
    input.append("]]");
    let mut arguments: Vec<String> = Vec::new();
    arguments.push(String::from_str("-v"));
    arguments.push(String::from_str(config.language.to_espeak_code()));
    arguments.push(input);
    arguments.push(String::from_str("-w"));
    arguments.push(String::from_str(output_path));
    let command = CommandLine { program: String::from_str("espeak-ng"), arguments };
    proof {
        assert(command@.arguments =~= synthesis_command_of(
            espeak_phonemes@,
            output_path@,
            config.language,
        ).arguments);
    }
    command
}

/// What came of running the synthesizer.
#[derive(Debug)]
pub enum SynthesisOutcome {
    /// The program could not be started; the diagnostic says why.
    LaunchFailed(String),
    /// The program ran to its end.
    Completed {
        /// Whether it reported success.
        success: bool,
        /// Its exit code, where it has one.
        code: Option<i32>,
        /// What it wrote to its error stream.
        stderr: String,
        /// Whether the output file exists afterwards.
        output_exists: bool,
    },
}

/// An exit code as it appears in a diagnostic.
pub open spec fn exit_code_text(code: Option<i32>) -> Seq<char> {
    match code {
        Some(c) => "Some("@ + decimal_text(c as int) + ")"@,
        None => "None"@,
    }
}

/// What a synthesis run amounts to: success, or the error of its failure.
pub open spec fn synthesis_verdict(outcome: SynthesisOutcome) -> Result<(), ErrorView> {
    match outcome {
        SynthesisOutcome::LaunchFailed(reason) => Err(
            ErrorView::Synthesis(
                "Failed to execute espeak-ng: "@ + reason@ + ". Is espeak-ng installed?"@,
            ),
        ),
        SynthesisOutcome::Completed { success, code, stderr, output_exists } => {
            if !success {
                Err(
                    ErrorView::Synthesis(
                        "espeak-ng failed with exit code "@ + exit_code_text(code) + ": "@
                            + stderr@,
                    ),
                )
            } else if !output_exists {
                Err(ErrorView::Synthesis("espeak-ng did not create output file"@))
            } else {
                Ok(())
            }
        },
    }
}

/// Judges a synthesis run: it succeeded when the program reported success
/// and left its output file behind; anything else is a synthesis error that
/// carries the diagnostic.
pub fn synthesis_result(outcome: &SynthesisOutcome) -> (result: Result<(), PhonemeReverserError>)
    ensures
        match result {
            Ok(()) => synthesis_verdict(*outcome) == Ok::<(), ErrorView>(()),
            Err(e) => synthesis_verdict(*outcome) == Err::<(), ErrorView>(e@),
        },
{
    match outcome {
        SynthesisOutcome::LaunchFailed(reason) => {
            let mut text = String::from_str("Failed to execute espeak-ng: ");
            text.append(reason.as_str());
            text.append(". Is espeak-ng installed?");
            Err(PhonemeReverserError::Synthesis(text))
        },
        SynthesisOutcome::Completed { success, code, stderr, output_exists } => {
            if !*success {
                let mut text = String::from_str("espeak-ng failed with exit code ");
                match code {
                    Some(c) => {
                        text.append("Some(");
                        text.append(decimal_string(*c as i64).as_str());
                        text.append(")");
                    },
                    None => {
                        text.append("None");
                    },
                }
                text.append(": ");
                text.append(stderr.as_str());
                proof {
                    assert(text@ =~= "espeak-ng failed with exit code "@ + exit_code_text(*code)
                        + ": "@ + stderr@);
                }
                Err(PhonemeReverserError::Synthesis(text))
            } else if !*output_exists {
                Err(
                    PhonemeReverserError::Synthesis(
                        String::from_str("espeak-ng did not create output file"),
                    ),
                )
            } else {
                Ok(())
            }
        },
    }
}

} // verus!
