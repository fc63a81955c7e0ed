//! The waveform codec: containers of 16-bit samples, read from and written
//! to bytes.
//!
//! A sample buffer is generic in its sample type. The codec itself works on
//! 16-bit integers, the form in which a container stores them; the amplitude
//! that a sample `s` stands for is `s / 32767`.

use vstd::prelude::*;
use vstd::slice::slice_to_vec;
use crate::error::{ErrorView, PhonemeReverserError};

verus! {

/// Interleaved samples with their rate and channel count.
///
/// For `n` channels the sample at index `i` belongs to channel `i mod n`.
/// The number of samples need not be a multiple of the channel count.
#[derive(Debug)]
pub struct AudioData<S> {
    pub samples: Vec<S>,
    /// Samples per second and channel.
    pub sample_rate: u32,
    pub channels: u16,
}

impl<S> AudioData<S> {
    /// A buffer is well formed when its rate and its channel count are
    /// positive.
    pub open spec fn well_formed(&self) -> bool {
        self.sample_rate > 0 && self.channels > 0
    }

    /// Whether the rate and the channel count are positive.
    pub fn is_well_formed(&self) -> (answer: bool)
        ensures
            answer == self.well_formed(),
    {
        self.sample_rate > 0 && self.channels > 0
    }
}

/// The sample that stands for the amplitude one. An amplitude is its sample
/// divided by this, the largest 16-bit sample, not by its successor.
pub const FULL_SCALE: i16 = 32767;

/// How a container stores a sample.
#[derive(Debug, Clone, Copy, PartialEq, Eq, Structural)]
pub enum SampleFormat {
    /// As a 32-bit floating-point number.
    Float,
    /// As a signed integer.
    Int,
}

/// The header of a container.
#[derive(Debug, Clone, Copy, PartialEq, Eq, Structural)]
pub struct WavSpec {
    pub channels: u16,
    pub sample_rate: u32,
    pub bits_per_sample: u16,
    pub sample_format: SampleFormat,
}

/// The header under which a buffer is written: 16-bit integers at the
/// buffer's own rate and channel count.
pub open spec fn pcm16_spec(sample_rate: u32, channels: u16) -> WavSpec {
    WavSpec { channels, sample_rate, bits_per_sample: 16, sample_format: SampleFormat::Int }
}

/// The most bytes that the header of a written container takes after its
/// first eight.
pub const HEADER_ROOM: u32 = 60;

/// Whether a container of 16-bit samples can hold `len` samples at this rate
/// and channel count: both are positive, the bytes of one second fit the
/// 32-bit field of the header, and so does the size of the whole file.
pub open spec fn fits_container(sample_rate: u32, channels: u16, len: nat) -> bool {
    &&& sample_rate > 0
    &&& channels > 0
    &&& 2 * sample_rate * channels <= u32::MAX
    &&& 2 * len + HEADER_ROOM <= u32::MAX
}

#[verifier::external_type_specification]
#[verifier::external_body]
#[verifier::reject_recursive_types(R)]
pub struct ExWavReader<R>(hound::WavReader<R>);

#[verifier::external_type_specification]
#[verifier::external_body]
#[verifier::reject_recursive_types(T)]
pub struct ExCursor<T>(std::io::Cursor<T>);

#[verifier::external_type_specification]
#[verifier::external_body]
pub struct ExHoundError(hound::Error);

/// Names what `hound::WavReader::new` makes of a container: nothing where it
/// refuses the bytes, else the header that it read and what the reader will
/// yield as 16-bit samples, one entry for each read, `None` for a read that
/// fails.
pub uninterp spec fn parsed(bytes: Seq<u8>) -> Option<(WavSpec, Seq<Option<i16>>)>;

/// Names the header that a reader holds, as `hound::WavReader::spec` gives
/// it.
pub uninterp spec fn header(reader: hound::WavReader<std::io::Cursor<Vec<u8>>>) -> WavSpec;

/// Names what a reader has yet to yield as 16-bit samples: one entry for
/// each read to come, `None` for a read that fails.
pub uninterp spec fn pending(reader: hound::WavReader<std::io::Cursor<Vec<u8>>>) -> Seq<
    Option<i16>,
>;

/// Names the container that hound writes for 16-bit samples under a header,
/// or nothing where it reports an error.
pub uninterp spec fn encoded(spec: WavSpec, samples: Seq<i16>) -> Option<Seq<u8>>;

/// Opens a reader on the bytes of a container.
///
/// Wraps `hound::WavReader::new` on an in-memory cursor. The call parses the
/// header chunks and fails on ill-formed ones; what it returns depends on
/// the bytes alone, which is all that the contract claims.
#[verifier::external_body]
fn wav_open(bytes: Vec<u8>) -> (opened: Result<
    hound::WavReader<std::io::Cursor<Vec<u8>>>,
    hound::Error,
>)
    ensures
        match opened {
            Ok(reader) => parsed(bytes@) == Some((header(reader), pending(reader))),
            Err(_) => parsed(bytes@) is None,
        },
{
    hound::WavReader::new(std::io::Cursor::new(bytes))
}

/// The header that the reader found.
///
/// Wraps `hound::WavReader::spec`, which returns the stored header; the body
/// copies it field by field.
#[verifier::external_body]
fn wav_spec(reader: &hound::WavReader<std::io::Cursor<Vec<u8>>>) -> (spec: WavSpec)
    ensures
        spec == header(*reader),
{
    let found = reader.spec();
    WavSpec {
        channels: found.channels,
        sample_rate: found.sample_rate,
        bits_per_sample: found.bits_per_sample,
        sample_format: match found.sample_format {
            hound::SampleFormat::Float => SampleFormat::Float,
            hound::SampleFormat::Int => SampleFormat::Int,
        },
    }
}

/// Reads the next sample as a 16-bit integer.
///
/// Wraps `next` on `hound::WavReader::samples::<i16>()`. The iterator ends
/// when as many samples were read as the data chunk announced, and leaves
/// the reader as it was then; every other call counts as one read, whether
/// it yields a sample or an error.
#[verifier::external_body]
fn next_sample(reader: &mut hound::WavReader<std::io::Cursor<Vec<u8>>>) -> (item: Option<
    Result<i16, hound::Error>,
>)
    ensures
        header(*final(reader)) == header(*old(reader)),
        match item {
            None => pending(*old(reader)).len() == 0 && pending(*final(reader)).len() == 0,
            Some(read) => {
                &&& pending(*old(reader)).len() > 0
                &&& pending(*final(reader)) == pending(*old(reader)).drop_first()
                &&& match read {
                    Ok(sample) => pending(*old(reader))[0] == Some(sample),
                    Err(_) => pending(*old(reader))[0] is None,
                }
            },
        },
{
    reader.samples::<i16>().next()
}

/// The diagnostic of a codec error.
///
/// Wraps the `Display` of `hound::Error`.
#[verifier::external_body]
fn fault_text(fault: &hound::Error) -> (text: String) {
    fault.to_string()
}

/// Writes a container of 16-bit samples into memory.
///
/// Wraps `hound::WavWriter::new`, `write_sample` for each sample and
/// `finalize`, on an in-memory cursor. The writer divides by the sample rate
/// and by the channel count and adds up byte counts in 32 bits, so the
/// contract asks that the buffer fits the container. It reports an error
/// when the number of samples is no multiple of the channel count. What it
/// writes depends on the header and the samples alone.
#[verifier::external_body]
fn wav_encode(spec: WavSpec, samples: &Vec<i16>) -> (written: Result<Vec<u8>, hound::Error>)
    requires
        spec == pcm16_spec(spec.sample_rate, spec.channels),
        fits_container(spec.sample_rate, spec.channels, samples@.len()),
    ensures
        match written {
            Ok(bytes) => encoded(spec, samples@) == Some(bytes@),
            Err(_) => encoded(spec, samples@) is None,
        },
        samples@.len() % (spec.channels as nat) != 0 ==> written is Err,
{
    let sample_format = match spec.sample_format {
        SampleFormat::Float => hound::SampleFormat::Float,
        SampleFormat::Int => hound::SampleFormat::Int,
    };
    let WavSpec { channels, sample_rate, bits_per_sample, .. } = spec;
    let layout = hound::WavSpec { channels, sample_rate, bits_per_sample, sample_format };
    let mut cursor = std::io::Cursor::new(Vec::new());
    let mut writer = hound::WavWriter::new(&mut cursor, layout)?;
    for sample in samples.iter() {
        writer.write_sample(*sample)?;
    }
    writer.finalize()?;
    Ok(cursor.into_inner())
}

/// What came of fetching the bytes of a container.
#[derive(Debug)]
pub enum WavSource {
    /// The source does not exist; the diagnostic says so.
    Missing(String),
    /// The source exists and could not be read.
    Unreadable(String),
    /// The bytes of the container.
    Bytes(Vec<u8>),
}

/// A decoded container.
#[derive(Debug)]
pub enum Decoded {
    /// The container stores integers: its samples as 16-bit integers, with
    /// the rate and channel count of its header.
    Int(AudioData<i16>),
    /// The container stores floating-point samples under this header. They
    /// pass through unchanged and are not read here.
    Float(WavSpec),
}

/// Whether every read of a reader succeeds.
pub open spec fn all_read(items: Seq<Option<i16>>) -> bool {
    forall|i: int| 0 <= i < items.len() ==> (#[trigger] items[i]) is Some
}

/// The samples that successful reads yield.
pub open spec fn samples_of(items: Seq<Option<i16>>) -> Seq<i16> {
    Seq::new(items.len(), |i: int| items[i].unwrap())
}

/// Whether a header names a positive rate and a positive channel count.
pub open spec fn header_valid(spec: WavSpec) -> bool {
    spec.sample_rate > 0 && spec.channels > 0
}

/// Whether the bytes decode: the container parses, its header is valid, and
/// where it stores integers, each of them can be read as 16 bits.
pub open spec fn decodable(bytes: Seq<u8>) -> bool {
    match parsed(bytes) {
        None => false,
        Some((spec, items)) => header_valid(spec) && (spec.sample_format is Int ==> all_read(
            items,
        )),
    }
}

/// Accepts a header with a positive rate and a positive channel count, and
/// reports any other as a malformed container.
pub fn check_header(spec: &WavSpec) -> (checked: Result<(), PhonemeReverserError>)
    ensures
        checked is Ok <==> header_valid(*spec),
        checked matches Err(e) ==> e@ == ErrorView::AudioFile(
            "Ill-formed WAVE file: sample rate and channel count must be positive"@,
        ),
{
    if spec.sample_rate > 0 && spec.channels > 0 {
        Ok(())
    } else {
        Err(
            PhonemeReverserError::AudioFile(
                String::from_str(
                    "Ill-formed WAVE file: sample rate and channel count must be positive",
                ),
            ),
        )
    }
}

/// Reads every sample that the reader has yet to yield, or stops at the
/// first read that fails.
fn read_samples(reader: &mut hound::WavReader<std::io::Cursor<Vec<u8>>>) -> (samples: Result<
    Vec<i16>,
    PhonemeReverserError,
>)
    ensures
        match samples {
            Ok(read) => all_read(pending(*old(reader))) && read@ == samples_of(
                pending(*old(reader)),
            ),
            Err(e) => !all_read(pending(*old(reader))) && e is AudioFile,
        },
{
    let ghost items = pending(*reader);
    let mut samples: Vec<i16> = Vec::new();
    loop
        invariant
            items == pending(*old(reader)),
            samples@.len() + pending(*reader).len() == items.len(),
            pending(*reader) == items.skip(samples@.len() as int),
            forall|i: int| 0 <= i < samples@.len() ==> items[i] == Some(samples@[i]),
        decreases pending(*reader).len(),
    {
        match next_sample(reader) {
            None => {
                return Ok(samples);
            },
            Some(Ok(sample)) => {
                samples.push(sample);
            },
            Some(Err(fault)) => {
                return Err(PhonemeReverserError::AudioFile(fault_text(&fault)));
            },
        }
    }
}

/// Decodes a container.
///
/// A source that does not exist is reported as not found, one that could
/// not be read as a malformed container. Bytes decode when the container
/// parses, its header names a positive rate and channel count, and, where it
/// stores integers, each sample can be read as 16 bits; the buffer then
/// holds those samples in order, with the rate and channel count of the
/// header. A container of floating-point samples yields its header. Bytes
/// that do not decode are reported as a malformed container.
pub fn read_wav(source: &WavSource) -> (decoded: Result<Decoded, PhonemeReverserError>)
    ensures
        match *source {
            WavSource::Missing(reason) => decoded matches Err(e) && e@ == ErrorView::NotFound(
                reason@,
            ),
            WavSource::Unreadable(reason) => decoded matches Err(e) && e@ == ErrorView::AudioFile(
                reason@,
            ),
            WavSource::Bytes(bytes) => match decoded {
                Ok(Decoded::Int(audio)) => {
                    &&& decodable(bytes@)
                    &&& parsed(bytes@) matches Some((spec, items))
                    &&& spec.sample_format is Int
                    &&& audio.samples@ == samples_of(items)
                    &&& audio.sample_rate == spec.sample_rate
                    &&& audio.channels == spec.channels
                    &&& audio.well_formed()
                },
                Ok(Decoded::Float(found)) => {
                    &&& decodable(bytes@)
                    &&& parsed(bytes@) matches Some((spec, _))
                    &&& spec.sample_format is Float
                    &&& found == spec
                },
                Err(e) => !decodable(bytes@) && e is AudioFile,
            },
        },
{
    match source {
        WavSource::Missing(reason) => Err(PhonemeReverserError::NotFound(reason.clone())),
        WavSource::Unreadable(reason) => Err(PhonemeReverserError::AudioFile(reason.clone())),
        WavSource::Bytes(bytes) => {
            let copy = slice_to_vec(bytes.as_slice());
            let mut reader = match wav_open(copy) {
                Ok(reader) => reader,
                Err(fault) => {
                    return Err(PhonemeReverserError::AudioFile(fault_text(&fault)));
                },
            };
            let spec = wav_spec(&reader);
            match check_header(&spec) {
                Ok(()) => {},
                Err(e) => {
                    return Err(e);
                },
            }
            match spec.sample_format {
                SampleFormat::Float => Ok(Decoded::Float(spec)),
                SampleFormat::Int => {
                    match read_samples(&mut reader) {
                        Ok(samples) => Ok(
                            Decoded::Int(
                                AudioData {
                                    samples,
                                    sample_rate: spec.sample_rate,
                                    channels: spec.channels,
                                },
                            ),
                        ),
                        Err(e) => Err(e),
                    }
                },
            }
        },
    }
}

/// Whether a container of 16-bit samples can hold the buffer.
pub fn can_encode(data: &AudioData<i16>) -> (answer: bool)
    ensures
        answer == fits_container(data.sample_rate, data.channels, data.samples@.len()),
{
    let rate = data.sample_rate as u64;
    let channels = data.channels as u64;
    assert(2 * rate * channels <= 0x2_0000_0000 * 0x1_0000) by (nonlinear_arith)
        requires
            rate <= 0xffff_ffff,
            channels <= 0xffff,
    ;
    let room = (u32::MAX - HEADER_ROOM) as usize / 2;
    rate > 0 && channels > 0 && 2 * rate * channels <= u32::MAX as u64 && data.samples.len()
        <= room
}

/// Encodes a buffer as a container of 16-bit integers at the buffer's own
/// rate and channel count.
///
/// A buffer that no such container can hold is refused. For any other the
/// result is what the codec writes, and an error where the codec reports
/// one, as it does when the number of samples is no multiple of the channel
/// count.
pub fn write_wav(data: &AudioData<i16>) -> (written: Result<Vec<u8>, PhonemeReverserError>)
    ensures
        match written {
            Ok(bytes) => {
                &&& fits_container(data.sample_rate, data.channels, data.samples@.len())
                &&& encoded(pcm16_spec(data.sample_rate, data.channels), data.samples@) == Some(
                    bytes@,
                )
            },
            Err(e) => {
                &&& e is AudioFile
                &&& !fits_container(data.sample_rate, data.channels, data.samples@.len())
                    || encoded(pcm16_spec(data.sample_rate, data.channels), data.samples@) is None
            },
        },
        data.channels > 0 && data.samples@.len() % (data.channels as nat) != 0 ==> written is Err,
{
    if !can_encode(data) {
        return Err(
            PhonemeReverserError::AudioFile(
                String::from_str("the buffer does not fit a container of 16-bit samples"),
            ),
        );
    }
    let spec = WavSpec {
        channels: data.channels,
        sample_rate: data.sample_rate,
        bits_per_sample: 16,
        sample_format: SampleFormat::Int,
    };
    match wav_encode(spec, &data.samples) {
        Ok(bytes) => Ok(bytes),
        Err(fault) => Err(PhonemeReverserError::AudioFile(fault_text(&fault))),
    }
}

/// Judges the writing of an encoded container to its destination: a write
/// that failed is a filesystem error that carries the diagnostic.
pub fn write_result(failure: Option<String>) -> (result: Result<(), PhonemeReverserError>)
    ensures
        match failure {
            None => result is Ok,
            Some(reason) => result matches Err(e) && e@ == ErrorView::Io(reason@),
        },
{
    match failure {
        None => Ok(()),
        Some(reason) => Err(PhonemeReverserError::Io(reason)),
    }
}

/// Plays nothing: playback belongs to the playback engine.
pub fn play_audio<S>(_data: &AudioData<S>) -> (played: Result<(), PhonemeReverserError>)
    ensures
        played is Ok,
{
    Ok(())
}

} // verus!
