//! Decoder adapter: opens a media stream from bytes, yields interleaved
//! samples as 32-bit float bit patterns, and seeks.
//!
//! The container probing and codec work is symphonia's; this module wraps
//! each call it makes and keeps the adapter's own logic -- track selection
//! bookkeeping, the packet-skipping rules (wrong track, recoverable decode
//! error), duration arithmetic and parameter defaults -- verified. The host
//! reads the file; the adapter takes the bytes, so nothing here touches the
//! file system.

use vstd::prelude::*;
use symphonia_core::audio::sample::SampleFormat;
use symphonia_core::audio::Audio;
use symphonia_core::audio::GenericAudioBuffer;
use symphonia_core::codecs::audio::AudioDecoder as SymAudioDecoder;
use symphonia_core::codecs::CodecParameters;
use symphonia_core::formats::FormatReader;
use symphonia_core::formats::SeekMode;
use symphonia_core::formats::SeekTo;
use symphonia_core::formats::TrackType;
use symphonia_core::packet::Packet;
use symphonia_core::units::Time;

verus! {

/// Why `next_samples` stopped: the stream ended, or a fatal error.
pub enum DecodeStatus {
    EndOfStream,
    Error(String),
}

/// An open container: symphonia's format reader for the probed stream.
/// Opaque to the verifier; every use goes through a wrapper below.
#[verifier::external_body]
pub struct ExtFormat {
    reader: Box<dyn FormatReader + 'static>,
}

/// An open codec: symphonia's audio decoder for the selected track.
/// Opaque to the verifier; every use goes through a wrapper below.
#[verifier::external_body]
pub struct ExtDecoder {
    decoder: Box<dyn SymAudioDecoder>,
}

#[verifier::external_type_specification]
#[verifier::external_body]
pub struct ExPacket(Packet);

/// The plain facts `open` reads off the selected track.
pub struct TrackParams {
    pub track_id: u32,
    pub sample_rate: Option<u32>,
    pub channels: Option<usize>,
    pub bits_per_sample: Option<u32>,
    pub n_frames: Option<u64>,
}

/// What one decode attempt produced.
pub enum DecodeOutcome {
    /// Interleaved samples, each an IEEE-754 bit pattern.
    Samples(Vec<u32>),
    /// A per-packet decode error; the packet is to be skipped.
    Recoverable,
    Fatal(String),
}

/// Relies on symphonia's probe: builds a seekable stream over the bytes,
/// hints the container format with the file extension if one is given, and
/// probes for a format reader.
#[verifier::external_body]
fn open_format(data: Vec<u8>, ext_hint: &Option<String>) -> (r: Result<ExtFormat, String>) {
    let source = Box::new(std::io::Cursor::new(data));
    let mss = symphonia_core::io::MediaSourceStream::new(source, Default::default());
    let mut hint = symphonia_core::formats::probe::Hint::new();
    if let Some(ext) = ext_hint {
        hint.with_extension(ext.as_str());
    }
    let probe = symphonia::default::get_probe();
    match probe.probe(&hint, mss, Default::default(), Default::default()) {
        Ok(reader) => Ok(ExtFormat { reader }),
        Err(e) => Err(e.to_string()),
    }
}

/// Relies on symphonia's track list: picks the first audio track with a
/// known (non-null) codec and hands its parameters out as plain values.
#[verifier::external_body]
fn select_audio_track(f: &ExtFormat) -> (r: Option<TrackParams>) {
    let track = f.reader.first_track_known_codec(TrackType::Audio)?;
    match &track.codec_params {
        Some(CodecParameters::Audio(p)) => Some(TrackParams {
            track_id: track.id,
            sample_rate: p.sample_rate,
            channels: p.channels.as_ref().map(|c| c.count()),
            bits_per_sample: p.bits_per_sample,
            n_frames: track.num_frames,
        }),
        _ => None,
    }
}

/// Relies on symphonia's codec registry: builds the decoder for the track
/// with the given id.
#[verifier::external_body]
fn make_decoder(f: &ExtFormat, track_id: u32) -> (r: Result<ExtDecoder, String>) {
    let track = match f.reader.tracks().iter().find(|t| t.id == track_id) {
        Some(t) => t,
        None => return Err("track disappeared during open".to_string()),
    };
    let params = match &track.codec_params {
        Some(CodecParameters::Audio(p)) => p,
        _ => return Err("track has no audio parameters".to_string()),
    };
    match symphonia::default::get_codecs().make_audio_decoder(params, &Default::default()) {
        Ok(decoder) => Ok(ExtDecoder { decoder }),
        Err(e) => Err(e.to_string()),
    }
}

/// Relies on symphonia's demuxer: reads the next packet; `Ok(None)` is the
/// end of the stream.
#[verifier::external_body]
fn next_packet(f: &mut ExtFormat) -> (r: Result<Option<Packet>, String>) {
    f.reader.next_packet().map_err(|e| e.to_string())
}

/// Relies on the packet's track id field.
#[verifier::external_body]
fn packet_track_id(p: &Packet) -> (r: u32) {
    p.track_id
}

/// Relies on symphonia's decoder and sample conversion: decodes one packet
/// and converts the frames to interleaved 32-bit floats, handed out as
/// their bit patterns. A `DecodeError` is recoverable per symphonia's
/// contract; everything else is fatal.
#[verifier::external_body]
fn decode_packet(d: &mut ExtDecoder, p: &Packet) -> (r: DecodeOutcome) {
    match d.decoder.decode(p) {
        Ok(decoded) => {
            let mut fbuf = GenericAudioBuffer::new(
                SampleFormat::F32, decoded.spec().clone(), decoded.frames());
            fbuf.resize_uninit(decoded.frames());
            if let GenericAudioBuffer::F32(fb) = &mut fbuf {
                decoded.copy_to(fb);
                DecodeOutcome::Samples(fb.iter_interleaved().map(|s| s.to_bits()).collect())
            } else {
                DecodeOutcome::Fatal("float sample buffer not available".to_string())
            }
        },
        Err(symphonia_core::errors::Error::DecodeError(_)) => DecodeOutcome::Recoverable,
        Err(e) => DecodeOutcome::Fatal(e.to_string()),
    }
}

/// Relies on symphonia's seek: accurate seek of the whole stream to the
/// given time, expressed as whole seconds plus nanoseconds.
#[verifier::external_body]
fn seek_format(f: &mut ExtFormat, track_id: u32, seconds: u64, nanos: u32) -> (r: Result<
    (),
    String,
>) {
    let time = match Time::try_new(seconds as i64, nanos) {
        Some(t) => t,
        None => return Err("seek time out of range".to_string()),
    };
    let to = SeekTo::Time { time, track_id: Some(track_id) };
    match f.reader.seek(SeekMode::Accurate, to) {
        Ok(_) => Ok(()),
        Err(e) => Err(e.to_string()),
    }
}

/// Relies on symphonia's decoder reset, required after a seek.
#[verifier::external_body]
fn reset_decoder(d: &mut ExtDecoder) {
    d.decoder.reset();
}

/// Sample rate assumed when the container does not state one.
pub const DEFAULT_SAMPLE_RATE: u32 = 44100;

/// Channel count assumed when the container does not state one: stereo.
pub const DEFAULT_CHANNELS: usize = 2;

/// Consecutive packets `next_samples` is willing to skip (wrong track or
/// recoverable decode error) before declaring the stream corrupt. Keeps a
/// damaged file from spinning the worker forever.
pub const MAX_SKIPPED_PACKETS: usize = 1000000;

/// Track duration in milliseconds: frame count times 1000 over the rate,
/// rounded down and saturating; zero when the container gives no count.
pub open spec fn spec_duration_ms(n_frames: Option<u64>, rate: u32) -> u64 {
    match n_frames {
        Some(n) => if rate > 0 {
            let d = (n * 1000) / (rate as int);
            if d > u64::MAX {
                u64::MAX
            } else {
                d as u64
            }
        } else {
            0
        },
        None => 0,
    }
}

/// The open container with its selected track and its parameters.
pub struct AudioDecoder {
    format: ExtFormat,
    decoder: ExtDecoder,
    track_id: u32,
    sample_rate: u32,
    channels: usize,
    bit_depth: Option<u8>,
    duration_ms: u64,
}

impl AudioDecoder {
    /// The adapter's bookkeeping is in terms of these plain fields.
    pub closed spec fn wf(&self) -> bool {
        &&& 1 <= self.channels
    }

    /// The channel count is always at least one.
    pub proof fn lemma_wf_channels(&self)
        requires
            self.wf(),
        ensures
            1 <= self.spec_channels(),
    {
    }

    pub closed spec fn spec_sample_rate(&self) -> u32 {
        self.sample_rate
    }

    pub closed spec fn spec_channels(&self) -> usize {
        self.channels
    }

    pub closed spec fn spec_bit_depth(&self) -> Option<u8> {
        self.bit_depth
    }

    pub closed spec fn spec_duration_ms(&self) -> u64 {
        self.duration_ms
    }

    /// Open a stream over the bytes of a media file, probing the container
    /// (with the file extension as a hint if given), selecting the first
    /// audio track with a known codec, and building its decoder. The
    /// resulting adapter carries the track's rate (44100 when unstated),
    /// channel count (stereo when unstated), bit depth, and the duration
    /// computed from the frame count.
    pub fn open(data: Vec<u8>, ext_hint: Option<String>) -> (r: Result<AudioDecoder, String>)
        ensures
            (match r {
                Ok(d) => d.wf(),
                Err(_) => true,
            }),
    {
        let format = match open_format(data, &ext_hint) {
            Ok(f) => f,
            Err(e) => {
                return Err(e);
            },
        };
        let params = match select_audio_track(&format) {
            Some(p) => p,
            None => {
                return Err(String::from_str("No audio tracks found"));
            },
        };
        let decoder = match make_decoder(&format, params.track_id) {
            Ok(d) => d,
            Err(e) => {
                return Err(e);
            },
        };
        Ok(Self::assemble(format, decoder, params))
    }

    /// The verified tail of `open`: turn the track parameters into the
    /// adapter's fields, with the documented defaults and the duration
    /// formula pinned exactly.
    fn assemble(format: ExtFormat, decoder: ExtDecoder, params: TrackParams) -> (r: AudioDecoder)
        ensures
            r.wf(),
            r.spec_sample_rate() == (match params.sample_rate {
                Some(sr) => sr,
                None => DEFAULT_SAMPLE_RATE,
            }),
            r.spec_channels() == (match params.channels {
                Some(c) => if c >= 1 {
                    c
                } else {
                    DEFAULT_CHANNELS
                },
                None => DEFAULT_CHANNELS,
            }),
            r.spec_bit_depth() == (match params.bits_per_sample {
                Some(b) => if b <= 255 {
                    Some(b as u8)
                } else {
                    None::<u8>
                },
                None => None::<u8>,
            }),
            r.spec_duration_ms() == spec_duration_ms(
                params.n_frames,
                match params.sample_rate {
                    Some(sr) => sr,
                    None => DEFAULT_SAMPLE_RATE,
                },
            ),
    {
        let sample_rate = match params.sample_rate {
            Some(sr) => sr,
            None => DEFAULT_SAMPLE_RATE,
        };
        let channels = match params.channels {
            Some(c) => if c >= 1 {
                c
            } else {
                DEFAULT_CHANNELS
            },
            None => DEFAULT_CHANNELS,
        };
        let bit_depth = match params.bits_per_sample {
            Some(b) => if b <= 255 {
                Some(b as u8)
            } else {
                None
            },
            None => None,
        };
        let duration_ms = match params.n_frames {
            Some(n) => if sample_rate > 0 {
                let total: u128 = (n as u128) * 1000 / (sample_rate as u128);
                if total > u64::MAX as u128 {
                    u64::MAX
                } else {
                    total as u64
                }
            } else {
                0
            },
            None => 0,
        };
        AudioDecoder {
            format,
            decoder,
            track_id: params.track_id,
            sample_rate,
            channels,
            bit_depth,
            duration_ms,
        }
    }

    pub fn sample_rate(&self) -> (r: u32)
        ensures
            r == self.spec_sample_rate(),
    {
        self.sample_rate
    }

    pub fn channels(&self) -> (r: usize)
        ensures
            r == self.spec_channels(),
    {
        self.channels
    }

    pub fn bit_depth(&self) -> (r: Option<u8>)
        ensures
            r == self.spec_bit_depth(),
    {
        self.bit_depth
    }

    pub fn duration_ms(&self) -> (r: u64)
        ensures
            r == self.spec_duration_ms(),
    {
        self.duration_ms
    }

    /// Decode the next chunk of the selected track: packets of other
    /// tracks are skipped, a recoverable per-packet decode error skips that
    /// packet silently, the end of the stream is `Err(EndOfStream)`, and
    /// any other failure is fatal. The samples come out interleaved, as
    /// float bit patterns. The adapter's parameters never change.
    pub fn next_samples(&mut self) -> (r: Result<Vec<u32>, DecodeStatus>)
        requires
            old(self).wf(),
        ensures
            final(self).wf(),
            final(self).spec_sample_rate() == old(self).spec_sample_rate(),
            final(self).spec_channels() == old(self).spec_channels(),
            final(self).spec_duration_ms() == old(self).spec_duration_ms(),
    {
        let mut tries: usize = 0;
        while tries < MAX_SKIPPED_PACKETS
            invariant
                self.wf(),
                self.spec_sample_rate() == old(self).spec_sample_rate(),
                self.spec_channels() == old(self).spec_channels(),
                self.spec_duration_ms() == old(self).spec_duration_ms(),
                self.track_id == old(self).track_id,
            decreases MAX_SKIPPED_PACKETS - tries,
        {
            let packet = match next_packet(&mut self.format) {
                Err(e) => {
                    return Err(DecodeStatus::Error(e));
                },
                Ok(None) => {
                    return Err(DecodeStatus::EndOfStream);
                },
                Ok(Some(p)) => p,
            };
            if packet_track_id(&packet) != self.track_id {
                tries = tries + 1;
                continue ;
            }
            match decode_packet(&mut self.decoder, &packet) {
                DecodeOutcome::Samples(v) => {
                    return Ok(v);
                },
                DecodeOutcome::Recoverable => {
                    tries = tries + 1;
                },
                DecodeOutcome::Fatal(e) => {
                    return Err(DecodeStatus::Error(e));
                },
            }
        }
        Err(DecodeStatus::Error(String::from_str("too many unusable packets in stream")))
    }

    /// Accurate seek to a position in milliseconds; the decoder is reset
    /// afterwards, as symphonia requires. On failure the stream continues
    /// from its previous position. The adapter's parameters never change.
    pub fn seek(&mut self, position_ms: u64) -> (r: Result<(), String>)
        requires
            old(self).wf(),
        ensures
            final(self).wf(),
            final(self).spec_sample_rate() == old(self).spec_sample_rate(),
            final(self).spec_channels() == old(self).spec_channels(),
            final(self).spec_duration_ms() == old(self).spec_duration_ms(),
    {
        let seconds = position_ms / 1000;
        let nanos = ((position_ms % 1000) as u32) * 1000000;
        match seek_format(&mut self.format, self.track_id, seconds, nanos) {
            Ok(_) => {
                reset_decoder(&mut self.decoder);
                Ok(())
            },
            Err(e) => Err(e),
        }
    }
}

} // verus!
