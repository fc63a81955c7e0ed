//! The boundary to the symbolic-conversion collaborator: what to run and how
//! to read what came of it.

use vstd::prelude::*;
use crate::command::{CommandLine, CommandLineView};
use crate::error::{ErrorView, PhonemeReverserError};
use crate::text::{decimal_string, decimal_text, join, joined, trim, trimmed};

verus! {

/// Converts symbols of the phonetic alphabet to the notation of the
/// synthesizer, with the help of an outside program.
#[derive(Debug)]
pub struct PhonemeConverter;

/// What came of running the conversion program.
#[derive(Debug)]
pub enum ConversionOutcome {
    /// The program could not be started; the diagnostic says why.
    LaunchFailed(String),
    /// The program ran to its end.
    Completed { returncode: i32, stdout: String, stderr: String },
}

/// The command that converts `ipa_phonemes`: the symbols travel as one
/// argument, joined by single spaces.
pub open spec fn conversion_command_of(
    program: Seq<char>,
    ipa_phonemes: Seq<Seq<char>>,
) -> CommandLineView {
    CommandLineView {
        program,
        arguments: seq![
            "--phones2phones"@,
            "unicode-ipa"@,
            "espeak"@,
            joined(ipa_phonemes, " "@),
        ],
    }
}

/// What a conversion run amounts to: the converted notation, or the error of
/// its failure.
pub open spec fn conversion_verdict(outcome: ConversionOutcome) -> Result<Seq<char>, ErrorView> {
    match outcome {
        ConversionOutcome::LaunchFailed(reason) => Err(
            ErrorView::PhonemeConversion("Failed to run lexconvert: "@ + reason@),
        ),
        ConversionOutcome::Completed { returncode, stdout, stderr } => {
            if returncode != 0 {
                Err(
                    ErrorView::PhonemeConversion(
                        "lexconvert failed with code "@ + decimal_text(returncode as int) + ": "@
                            + stderr@,
                    ),
                )
            } else {
                Ok(trimmed(stdout@))
            }
        },
    }
}

impl PhonemeConverter {
    /// Where the conversion program lives, relative to the working
    /// directory.
    pub fn program_path() -> (path: &'static str)
        ensures
            path@ == ".venv/bin/lexconvert"@,
    {
        ".venv/bin/lexconvert"
    }

    /// Where the packages of the virtual environment live, relative to the
    /// working directory.
    pub fn site_packages_path() -> (path: &'static str)
        ensures
            path@ == ".venv/lib/python3.13/site-packages"@,
    {
        ".venv/lib/python3.13/site-packages"
    }

    /// The command that converts `ipa_phonemes` with the program at
    /// `program`.
    pub fn conversion_command(&self, program: &str, ipa_phonemes: &Vec<String>) -> (command:
        CommandLine)
        ensures
            command@ == conversion_command_of(program@, ipa_phonemes.deep_view()),
    {
        let mut arguments: Vec<String> = Vec::new();
        arguments.push(String::from_str("--phones2phones"));
        arguments.push(String::from_str("unicode-ipa"));
        arguments.push(String::from_str("espeak"));
        arguments.push(join(ipa_phonemes, " "));
        let command = CommandLine { program: String::from_str(program), arguments };
        proof {
            assert(command@.arguments =~= conversion_command_of(
                program@,
                ipa_phonemes.deep_view(),
            ).arguments);
        }
        command
    }

    /// Judges a conversion run: a run that ended with code zero yields what
    /// it printed, without the white space around it; anything else is a
    /// conversion error that carries the diagnostic.
    pub fn conversion_result(&self, outcome: &ConversionOutcome) -> (result: Result<
        String,
        PhonemeReverserError,
    >)
        ensures
            match result {
                Ok(notation) => conversion_verdict(*outcome) == Ok::<Seq<char>, ErrorView>(
                    notation@,
                ),
                Err(e) => conversion_verdict(*outcome) == Err::<Seq<char>, ErrorView>(e@),
            },
    {
        match outcome {
            ConversionOutcome::LaunchFailed(reason) => {
                let mut text = String::from_str("Failed to run lexconvert: ");
                text.append(reason.as_str());
                Err(PhonemeReverserError::PhonemeConversion(text))
            },
            ConversionOutcome::Completed { returncode, stdout, stderr } => {
                if *returncode != 0 {
                    let mut text = String::from_str("lexconvert failed with code ");
                    text.append(decimal_string(*returncode as i64).as_str());
                    text.append(": ");
                    text.append(stderr.as_str());
                    Err(PhonemeReverserError::PhonemeConversion(text))
                } else {
                    Ok(trim(stdout.as_str()))
                }
            },
        }
    }
}

} // verus!
