//! The playback engine: what each output slot receives, how long playback
//! takes, and what a device failure is reported as.
//!
//! The device itself stays with the caller. Its real-time callback hands
//! each chunk to [`AudioPlayer::fill_output`] together with the cursor that
//! it keeps under its lock; the calling thread waits for
//! [`AudioPlayer::wait_time`].

use vstd::prelude::*;
use vstd::arithmetic::div_mod::{lemma_fundamental_div_mod, lemma_fundamental_div_mod_converse};
use crate::audio::AudioData;
use crate::error::{ErrorView, PhonemeReverserError};

verus! {

/// Plays sample buffers on the default output device.
#[derive(Debug)]
pub struct AudioPlayer {}

/// The sample format that the output device negotiated.
#[derive(Debug, Clone, Copy, PartialEq, Eq, Structural)]
pub enum OutputFormat {
    /// 32-bit floating point, the one format that is played.
    F32,
    /// Any other format.
    Other,
}

/// The step at which the output device failed, with its diagnostic.
#[derive(Debug)]
pub enum DeviceFailure {
    /// There is no output device.
    NoDevice,
    /// The device has no default configuration.
    Config(String),
    /// The stream could not be built.
    Build(String),
    /// The stream could not be started.
    Start(String),
}

/// A span of time: whole seconds and the nanoseconds beyond them.
#[derive(Debug, Clone, Copy, PartialEq, Eq, Structural)]
pub struct WaitTime {
    pub secs: u64,
    pub nanos: u32,
}

impl WaitTime {
    /// The span in nanoseconds.
    pub open spec fn total_nanos(self) -> nat {
        (self.secs * NANOS_PER_SECOND + self.nanos) as nat
    }
}

pub const NANOS_PER_SECOND: u32 = 1_000_000_000;

/// The margin, in nanoseconds, added to the length of a buffer to absorb the
/// latency of the device: half a second.
pub const MARGIN_NANOS: u32 = 500_000_000;

/// The length of a buffer in whole nanoseconds:
/// `total_samples / (sample_rate * channels)` seconds.
pub open spec fn playback_nanos(total_samples: nat, sample_rate: nat, channels: nat) -> nat {
    total_samples * NANOS_PER_SECOND as nat / (sample_rate * channels)
}

/// What the output slot `slot` of a chunk receives when the cursor stands at
/// `cursor`: the sample at `cursor + slot`, or silence once the buffer is
/// exhausted.
pub open spec fn slot_value<S>(samples: Seq<S>, cursor: int, slot: int, silence: S) -> S {
    if cursor + slot < samples.len() {
        samples[cursor + slot]
    } else {
        silence
    }
}

/// Where the cursor stands after a chunk of `chunk` slots: as many samples
/// further as were copied, and never beyond the end of the buffer.
pub open spec fn cursor_after(len: int, cursor: int, chunk: int) -> int {
    if cursor >= len {
        cursor
    } else if cursor + chunk < len {
        cursor + chunk
    } else {
        len
    }
}

/// Once the cursor has reached the end of the buffer, every slot of every
/// chunk is silent and the cursor stays where it is.
pub proof fn lemma_exhausted_is_silent<S>(
    samples: Seq<S>,
    cursor: int,
    chunk: int,
    slot: int,
    silence: S,
)
    requires
        cursor >= samples.len(),
        0 <= slot,
    ensures
        slot_value(samples, cursor, slot, silence) == silence,
        cursor_after(samples.len() as int, cursor, chunk) == cursor,
{
}

/// Two chunks in a row give each slot what one chunk of both lengths gives
/// it, and leave the cursor where that chunk leaves it: however the device
/// cuts its requests, the buffer is played once and in order.
pub proof fn lemma_chunks_continue<S>(
    samples: Seq<S>,
    cursor: int,
    first: int,
    second: int,
    slot: int,
    silence: S,
)
    requires
        0 <= cursor <= samples.len(),
        0 <= first,
        0 <= second,
        0 <= slot,
    ensures
        slot_value(samples, cursor_after(samples.len() as int, cursor, first), slot, silence)
            == slot_value(samples, cursor, first + slot, silence),
        cursor_after(
            samples.len() as int,
            cursor_after(samples.len() as int, cursor, first),
            second,
        ) == cursor_after(samples.len() as int, cursor, first + second),
{
}

/// What a device failure is reported as.
pub open spec fn device_error_of(failure: DeviceFailure) -> ErrorView {
    match failure {
        DeviceFailure::NoDevice => ErrorView::AudioPlayback("No output device available"@),
        DeviceFailure::Config(reason) => ErrorView::AudioPlayback(
            "Failed to get default config: "@ + reason@,
        ),
        DeviceFailure::Build(reason) => ErrorView::AudioPlayback(
            "Failed to build stream: "@ + reason@,
        ),
        DeviceFailure::Start(reason) => ErrorView::AudioPlayback(
            "Failed to play stream: "@ + reason@,
        ),
    }
}

impl AudioPlayer {
    /// A player. It holds no state, so making one cannot fail.
    pub fn new() -> (player: Result<Self, PhonemeReverserError>)
        ensures
            player is Ok,
    {
        Ok(Self {  })
    }

    /// Accepts the 32-bit floating-point output format and refuses any
    /// other, before any audio is emitted.
    pub fn check_format(&self, format: OutputFormat) -> (checked: Result<(), PhonemeReverserError>)
        ensures
            checked is Ok <==> format == OutputFormat::F32,
            checked matches Err(e) ==> e@ == ErrorView::UnsupportedFormat(
                "Unsupported sample format (only F32 is supported)"@,
            ),
    {
        match format {
            OutputFormat::F32 => Ok(()),
            OutputFormat::Other => Err(
                PhonemeReverserError::UnsupportedFormat(
                    String::from_str("Unsupported sample format (only F32 is supported)"),
                ),
            ),
        }
    }

    /// The playback error for a device failure, carrying the diagnostic of
    /// the device.
    pub fn device_error(&self, failure: &DeviceFailure) -> (error: PhonemeReverserError)
        ensures
            error@ == device_error_of(*failure),
    {
        match failure {
            DeviceFailure::NoDevice => PhonemeReverserError::AudioPlayback(
                String::from_str("No output device available"),
            ),
            DeviceFailure::Config(reason) => PhonemeReverserError::AudioPlayback(
                String::from_str("Failed to get default config: ").concat(reason.as_str()),
            ),
            DeviceFailure::Build(reason) => PhonemeReverserError::AudioPlayback(
                String::from_str("Failed to build stream: ").concat(reason.as_str()),
            ),
            DeviceFailure::Start(reason) => PhonemeReverserError::AudioPlayback(
                String::from_str("Failed to play stream: ").concat(reason.as_str()),
            ),
        }
    }

    /// Fills one chunk of device output from the buffer and returns the new
    /// cursor.
    ///
    /// Slot `j` of the chunk receives the sample at `cursor + j`. Once the
    /// cursor has reached the end of the buffer every further slot, in this
    /// chunk and in all later ones, receives `silence`: an exhausted buffer
    /// is neither read out of bounds nor repeated. Frames are runs of
    /// consecutive slots, so grouping the chunk into frames of the channel
    /// count changes nothing of what a slot receives. The cursor never
    /// moves back and never passes the end of the buffer.
    pub fn fill_output<S: Copy>(
        samples: &[S],
        cursor: usize,
        output: &mut [S],
        silence: S,
    ) -> (next: usize)
        ensures
            final(output)@.len() == old(output)@.len(),
            forall|j: int|
                0 <= j < old(output)@.len() ==> final(output)@[j] == slot_value(
                    samples@,
                    cursor as int,
                    j,
                    silence,
                ),
            forall|j: int|
                0 <= j < old(output)@.len() && cursor + j >= samples@.len() ==> final(output)@[j]
                    == silence,
            next == cursor_after(samples@.len() as int, cursor as int, old(output)@.len() as int),
            cursor <= next,
            cursor <= samples@.len() ==> next <= samples@.len(),
    {
        let chunk = output.len();
        let mut slot: usize = 0;
        let mut position: usize = cursor;
        while slot < chunk
            invariant
                output@.len() == chunk,
                chunk == old(output)@.len(),
                slot <= chunk,
                position == cursor_after(samples@.len() as int, cursor as int, slot as int),
                forall|j: int|
                    0 <= j < slot ==> output@[j] == slot_value(samples@, cursor as int, j, silence),
            decreases chunk - slot,
        {
            if position < samples.len() {
                output[slot] = samples[position];
                position = position + 1;
            } else {
                output[slot] = silence;
            }
            slot = slot + 1;
        }
        position
    }

    /// How long the calling thread waits for a buffer to play: the length
    /// of the buffer, `total_samples / (sample_rate * channels)` seconds in
    /// whole nanoseconds, and half a second on top.
    pub fn wait_time<S>(audio: &AudioData<S>) -> (wait: WaitTime)
        requires
            audio.well_formed(),
        ensures
            wait.nanos < NANOS_PER_SECOND,
            wait.total_nanos() == playback_nanos(
                audio.samples@.len(),
                audio.sample_rate as nat,
                audio.channels as nat,
            ) + MARGIN_NANOS,
    {
        let rate = audio.sample_rate as u64;
        let channels = audio.channels as u64;
        assert(0 < rate * channels <= 0xffff_ffff * 0xffff) by (nonlinear_arith)
            requires
                0 < rate <= 0xffff_ffff,
                0 < channels <= 0xffff,
        ;
        let per_second: u64 = rate * channels;
        let total = audio.samples.len() as u64;
        let whole: u64 = total / per_second;
        let rest: u64 = total % per_second;
        assert(rest * 1_000_000_000 <= 0xffff_ffff * 0xffff * 1_000_000_000) by (nonlinear_arith)
            requires
                rest <= 0xffff_ffff * 0xffff,
        ;
        let scaled: u128 = rest as u128 * 1_000_000_000u128;
        let fraction: u128 = scaled / (per_second as u128);
        proof {
            let d = per_second as int;
            let t = total as int;
            let q = whole as int;
            let r = rest as int;
            let f = fraction as int;
            let g = (scaled % (per_second as u128)) as int;
            lemma_fundamental_div_mod(t, d);
            assert(t == q * d + r) by (nonlinear_arith)
                requires
                    t == d * q + r,
            ;
            assert(r * 1_000_000_000 == f * d + g) by (nonlinear_arith)
                requires
                    d > 0,
                    f == (r * 1_000_000_000) / d,
                    g == (r * 1_000_000_000) % d,
            ;
            assert(f < 1_000_000_000) by (nonlinear_arith)
                requires
                    d > 0,
                    0 <= r < d,
                    0 <= g,
                    r * 1_000_000_000 == f * d + g,
            ;
            assert(t * 1_000_000_000 == (q * 1_000_000_000 + f) * d + g) by (nonlinear_arith)
                requires
                    t == q * d + r,
                    r * 1_000_000_000 == f * d + g,
            ;
            lemma_fundamental_div_mod_converse(
                t * 1_000_000_000,
                d,
                q * 1_000_000_000 + f,
                g,
            );
            if f >= 500_000_000 {
                assert(r > 0) by (nonlinear_arith)
                    requires
                        d > 0,
                        0 <= r,
                        0 <= g < d,
                        f >= 1,
                        r * 1_000_000_000 == f * d + g,
                ;
                assert(q < 0xffff_ffff_ffff_ffff) by (nonlinear_arith)
                    requires
                        t == q * d + r,
                        0 < r < d,
                        0 <= q,
                        t <= 0xffff_ffff_ffff_ffff,
                ;
            }
        }
        let nanos: u32 = fraction as u32 + MARGIN_NANOS;
        if nanos >= NANOS_PER_SECOND {
            WaitTime { secs: whole + 1, nanos: nanos - NANOS_PER_SECOND }
        } else {
            WaitTime { secs: whole, nanos }
        }
    }
}

impl AudioPlayer {
    /// Decides how a buffer is played on a device that negotiated `format`:
    /// any format other than 32-bit floating point is refused before any
    /// audio is emitted; else the answer is how long to wait for the buffer
    /// to play.
    pub fn prepare<S>(&self, audio: &AudioData<S>, format: OutputFormat) -> (plan: Result<
        WaitTime,
        PhonemeReverserError,
    >)
        requires
            audio.well_formed(),
        ensures
            plan is Ok <==> format == OutputFormat::F32,
            plan matches Ok(wait) ==> wait.nanos < NANOS_PER_SECOND && wait.total_nanos()
                == playback_nanos(
                audio.samples@.len(),
                audio.sample_rate as nat,
                audio.channels as nat,
            ) + MARGIN_NANOS,
            plan matches Err(e) ==> e@ == ErrorView::UnsupportedFormat(
                "Unsupported sample format (only F32 is supported)"@,
            ),
    {
        match self.check_format(format) {
            Ok(()) => Ok(Self::wait_time(audio)),
            Err(e) => Err(e),
        }
    }
}

impl Default for AudioPlayer {
    fn default() -> Self {
        Self {  }
    }
}

} // verus!
