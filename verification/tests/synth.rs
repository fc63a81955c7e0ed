use phoneme_reverser::error::PhonemeReverserError;
use phoneme_reverser::synth::{
    synthesis_command, synthesis_result, Language, SynthConfig, SynthesisOutcome,
};

#[test]
fn test_language_default_is_japanese() {
    assert_eq!(Language::default(), Language::Japanese);
}

#[test]
fn test_language_to_espeak_code() {
    assert_eq!(Language::Japanese.to_espeak_code(), "ja");
    assert_eq!(Language::English.to_espeak_code(), "en-us");
}

#[test]
fn test_language_display_name() {
    assert_eq!(Language::Japanese.display_name(), "日本語");
    assert_eq!(Language::English.display_name(), "English");
}

#[test]
fn test_synth_config_default_is_japanese() {
    let config = SynthConfig::default();
    assert_eq!(config.language, Language::Japanese);
}

#[test]
fn default_config_speaks_at_175_words_and_pitch_50() {
    let config = SynthConfig::default();
    assert_eq!(config.speed, 175);
    assert_eq!(config.pitch, 50);
    let copy = config.clone();
    assert_eq!(copy.language, config.language);
    assert_eq!(copy.speed, 175);
    assert_eq!(copy.pitch, 50);
}

#[test]
fn command_brackets_the_phonemes_and_names_the_voice() {
    let command = synthesis_command("h @ l oU", "/tmp/out.wav", &SynthConfig::default());
    assert_eq!(command.program, "espeak-ng");
    assert_eq!(command.arguments, vec!["-v", "ja", "[[h @ l oU]]", "-w", "/tmp/out.wav"]);

    let english = SynthConfig { language: Language::English, speed: 120, pitch: 70 };
    let command = synthesis_command("a i u e o", "wav/20240131235959.wav", &english);
    assert_eq!(
        command.arguments,
        vec!["-v", "en-us", "[[a i u e o]]", "-w", "wav/20240131235959.wav"]
    );
}

fn reason_of(outcome: SynthesisOutcome) -> String {
    match synthesis_result(&outcome) {
        Err(PhonemeReverserError::Synthesis(reason)) => reason,
        other => panic!("unexpected result {:?}", other),
    }
}

#[test]
fn successful_run_with_output_is_ok() {
    let outcome = SynthesisOutcome::Completed {
        success: true,
        code: Some(0),
        stderr: String::new(),
        output_exists: true,
    };
    assert!(synthesis_result(&outcome).is_ok());
}

#[test]
fn launch_failure_asks_whether_the_program_is_installed() {
    assert_eq!(
        reason_of(SynthesisOutcome::LaunchFailed("No such file or directory (os error 2)".to_string())),
        "Failed to execute espeak-ng: No such file or directory (os error 2). Is espeak-ng installed?"
    );
}

#[test]
fn failed_run_carries_exit_code_and_diagnostic() {
    assert_eq!(
        reason_of(SynthesisOutcome::Completed {
            success: false,
            code: Some(1),
            stderr: "bad phoneme\n".to_string(),
            output_exists: true,
        }),
        "espeak-ng failed with exit code Some(1): bad phoneme\n"
    );
    assert_eq!(
        reason_of(SynthesisOutcome::Completed {
            success: false,
            code: Some(-11),
            stderr: String::new(),
            output_exists: false,
        }),
        "espeak-ng failed with exit code Some(-11): "
    );
    assert_eq!(
        reason_of(SynthesisOutcome::Completed {
            success: false,
            code: None,
            stderr: "killed".to_string(),
            output_exists: false,
        }),
        "espeak-ng failed with exit code None: killed"
    );
    assert_eq!(
        reason_of(SynthesisOutcome::Completed {
            success: false,
            code: Some(i32::MIN),
            stderr: "x".to_string(),
            output_exists: false,
        }),
        format!("espeak-ng failed with exit code {:?}: x", Some(i32::MIN))
    );
}

#[test]
fn missing_output_is_a_failure() {
    assert_eq!(
        reason_of(SynthesisOutcome::Completed {
            success: true,
            code: Some(0),
            stderr: String::new(),
            output_exists: false,
        }),
        "espeak-ng did not create output file"
    );
}

#[test]
fn settings_need_positive_speed_and_pitch_up_to_100() {
    assert!(SynthConfig::default().is_well_formed());
    assert!(SynthConfig { language: Language::English, speed: 1, pitch: 100 }.is_well_formed());
    assert!(!SynthConfig { language: Language::English, speed: 0, pitch: 50 }.is_well_formed());
    assert!(!SynthConfig { language: Language::English, speed: 175, pitch: 101 }.is_well_formed());
}
