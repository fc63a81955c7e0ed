use phoneme_reverser::audio::AudioData;
use phoneme_reverser::error::PhonemeReverserError;
use phoneme_reverser::playback::{AudioPlayer, DeviceFailure, OutputFormat, WaitTime};

#[test]
fn test_audio_player_creation() {
    let player = AudioPlayer::new();
    assert!(player.is_ok(), "Failed to create AudioPlayer");
}

#[test]
fn chunk_within_the_buffer_is_copied() {
    let samples = [0.1f32, 0.2, 0.3, 0.4, 0.5];
    let mut output = [9.0f32; 3];
    let next = AudioPlayer::fill_output(&samples, 1, &mut output, 0.0);
    assert_eq!(output, [0.2, 0.3, 0.4]);
    assert_eq!(next, 4);
}

#[test]
fn exhausted_buffer_yields_exact_zeros() {
    let samples = [0.1f32, 0.2, 0.3];
    let mut output = [9.0f32; 8];
    let next = AudioPlayer::fill_output(&samples, 0, &mut output, 0.0);
    assert_eq!(output, [0.1, 0.2, 0.3, 0.0, 0.0, 0.0, 0.0, 0.0]);
    assert_eq!(next, 3);

    let mut later = [9.0f32; 4];
    let next = AudioPlayer::fill_output(&samples, next, &mut later, 0.0);
    assert_eq!(later, [0.0; 4]);
    assert!(later.iter().all(|s| s.to_bits() == 0));
    assert_eq!(next, 3);
}

#[test]
fn tail_of_an_odd_stereo_buffer_is_padded_with_silence() {
    // five samples on two channels: the last frame has one sample only
    let samples = [1.0f32, -1.0, 0.5, -0.5, 0.25];
    let mut first = [9.0f32; 4];
    let cursor = AudioPlayer::fill_output(&samples, 0, &mut first, 0.0);
    assert_eq!(first, [1.0, -1.0, 0.5, -0.5]);
    let mut second = [9.0f32; 4];
    let cursor = AudioPlayer::fill_output(&samples, cursor, &mut second, 0.0);
    assert_eq!(second, [0.25, 0.0, 0.0, 0.0]);
    assert_eq!(cursor, 5);
}

#[test]
fn cursor_beyond_the_buffer_yields_silence_and_stays() {
    let samples = [1i16, 2, 3];
    let mut output = [7i16; 2];
    let next = AudioPlayer::fill_output(&samples, 10, &mut output, 0);
    assert_eq!(output, [0, 0]);
    assert_eq!(next, 10);
}

#[test]
fn empty_chunk_and_empty_buffer() {
    let samples = [1i16, 2, 3];
    let mut nothing: [i16; 0] = [];
    assert_eq!(AudioPlayer::fill_output(&samples, 2, &mut nothing, 0), 2);
    let empty: [i16; 0] = [];
    let mut output = [5i16; 3];
    assert_eq!(AudioPlayer::fill_output(&empty, 0, &mut output, 0), 0);
    assert_eq!(output, [0, 0, 0]);
}

#[test]
fn chunks_play_the_whole_buffer_in_order_once() {
    let samples: Vec<f32> = (0..1000).map(|i| i as f32 / 1000.0).collect();
    let mut played: Vec<f32> = Vec::new();
    let mut cursor = 0;
    for _ in 0..10 {
        let mut chunk = [9.0f32; 128];
        let next = AudioPlayer::fill_output(&samples, cursor, &mut chunk, 0.0);
        assert!(next >= cursor);
        assert!(next <= samples.len());
        cursor = next;
        played.extend_from_slice(&chunk);
    }
    assert_eq!(cursor, 1000);
    assert_eq!(&played[..1000], &samples[..]);
    assert!(played[1000..].iter().all(|&s| s == 0.0));
}

#[test]
fn wait_is_the_length_of_the_buffer_and_half_a_second() {
    let second = AudioData { samples: vec![0.0f32; 44100], sample_rate: 44100, channels: 1 };
    assert_eq!(AudioPlayer::wait_time(&second), WaitTime { secs: 1, nanos: 500_000_000 });

    let stereo = AudioData { samples: vec![0.0f32; 44100], sample_rate: 44100, channels: 2 };
    assert_eq!(AudioPlayer::wait_time(&stereo), WaitTime { secs: 1, nanos: 0 });

    let nothing: AudioData<f32> = AudioData { samples: vec![], sample_rate: 22050, channels: 1 };
    assert_eq!(AudioPlayer::wait_time(&nothing), WaitTime { secs: 0, nanos: 500_000_000 });

    let third = AudioData { samples: vec![0i16; 1], sample_rate: 3, channels: 1 };
    assert_eq!(AudioPlayer::wait_time(&third), WaitTime { secs: 0, nanos: 833_333_333 });

    let two_thirds = AudioData { samples: vec![0i16; 2], sample_rate: 3, channels: 1 };
    assert_eq!(AudioPlayer::wait_time(&two_thirds), WaitTime { secs: 1, nanos: 166_666_666 });

    let long = AudioData { samples: vec![0u8; 100_000], sample_rate: 1, channels: 3 };
    assert_eq!(AudioPlayer::wait_time(&long), WaitTime { secs: 33_333, nanos: 833_333_333 });
}

#[test]
fn only_float_output_is_played() {
    let player = AudioPlayer::new().unwrap();
    assert!(player.check_format(OutputFormat::F32).is_ok());
    match player.check_format(OutputFormat::Other) {
        Err(PhonemeReverserError::UnsupportedFormat(reason)) => {
            assert_eq!(reason, "Unsupported sample format (only F32 is supported)")
        }
        other => panic!("unexpected result {:?}", other),
    }
}

#[test]
fn prepare_refuses_before_it_plans() {
    let player = AudioPlayer::new().unwrap();
    let audio = AudioData { samples: vec![0.0f32; 22050], sample_rate: 22050, channels: 1 };
    assert_eq!(
        player.prepare(&audio, OutputFormat::F32).unwrap(),
        WaitTime { secs: 1, nanos: 500_000_000 }
    );
    match player.prepare(&audio, OutputFormat::Other) {
        Err(e) => assert_eq!(
            e.message(),
            "Audio playback error: Unsupported sample format (only F32 is supported)"
        ),
        Ok(wait) => panic!("unexpected plan {:?}", wait),
    }
}

#[test]
fn device_failures_carry_the_diagnostic() {
    let player = AudioPlayer::new().unwrap();
    let cases = vec![
        (DeviceFailure::NoDevice, "Audio playback error: No output device available"),
        (
            DeviceFailure::Config("busy".to_string()),
            "Audio playback error: Failed to get default config: busy",
        ),
        (
            DeviceFailure::Build("no such format".to_string()),
            "Audio playback error: Failed to build stream: no such format",
        ),
        (
            DeviceFailure::Start("gone".to_string()),
            "Audio playback error: Failed to play stream: gone",
        ),
    ];
    for (failure, message) in cases {
        let error = player.device_error(&failure);
        assert!(matches!(error, PhonemeReverserError::AudioPlayback(_)));
        assert_eq!(error.message(), message);
    }
}

/// Plays a buffer the way the device does: in chunks of `chunk` slots, for
/// as long as the engine says playback takes, and returns what came out.
fn play_into_memory(
    player: &AudioPlayer,
    audio: &AudioData<f32>,
    chunk: usize,
) -> Result<Vec<f32>, PhonemeReverserError> {
    let wait = player.prepare(audio, OutputFormat::F32)?;
    let frames = (wait.secs as usize + 1) * audio.sample_rate as usize;
    let slots = frames * audio.channels as usize;
    let mut played = Vec::new();
    let mut cursor = 0;
    while played.len() < slots {
        let mut data = vec![f32::NAN; chunk];
        cursor = AudioPlayer::fill_output(&audio.samples, cursor, &mut data, 0.0);
        played.extend_from_slice(&data);
    }
    assert_eq!(cursor, audio.samples.len());
    Ok(played)
}

#[test]
fn test_play_simple_audio() {
    let player = AudioPlayer::new().unwrap();

    let sample_rate = 44100;
    let duration = 1.0;
    let frequency = 440.0;
    let samples: Vec<f32> = (0..(sample_rate as f32 * duration) as usize)
        .map(|i| {
            let t = i as f32 / sample_rate as f32;
            (2.0 * std::f32::consts::PI * frequency * t).sin() * 0.5
        })
        .collect();

    let audio = AudioData { samples, sample_rate, channels: 1 };

    let result = play_into_memory(&player, &audio, 512);
    assert!(result.is_ok(), "Failed to play audio: {:?}", result.err());

    let played = result.unwrap();
    assert_eq!(&played[..audio.samples.len()], &audio.samples[..]);
    assert!(played[audio.samples.len()..].iter().all(|s| s.to_bits() == 0));
    assert_eq!(AudioPlayer::wait_time(&audio), WaitTime { secs: 1, nanos: 500_000_000 });
}

#[test]
fn test_play_stereo_audio() {
    let player = AudioPlayer::new().unwrap();

    let sample_rate = 44100;
    let duration = 0.5;
    let mut samples = Vec::new();

    for i in 0..(sample_rate as f32 * duration) as usize {
        let t = i as f32 / sample_rate as f32;
        let left = (2.0 * std::f32::consts::PI * 440.0 * t).sin() * 0.3;
        let right = (2.0 * std::f32::consts::PI * 880.0 * t).sin() * 0.3;
        samples.push(left);
        samples.push(right);
    }

    let audio = AudioData { samples, sample_rate, channels: 2 };

    let result = play_into_memory(&player, &audio, 2 * 441);
    assert!(result.is_ok(), "Failed to play stereo audio: {:?}", result.err());

    let played = result.unwrap();
    assert_eq!(&played[..audio.samples.len()], &audio.samples[..]);
    assert!(played[audio.samples.len()..].iter().all(|s| s.to_bits() == 0));
    assert_eq!(AudioPlayer::wait_time(&audio), WaitTime { secs: 1, nanos: 0 });
}
