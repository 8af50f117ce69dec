//! The engine: command dispatch, playback state, atomic mirrors, and the
//! decoder worker's decisions.
//!
//! The real engine runs on its own thread, spawns a decoder worker per
//! track, and builds an OS output stream whose callback drains the ring
//! buffer; sleeps, channels and the stream itself are the host's. What
//! this module verifies is every decision that loop takes: what each
//! command does to the state and the mirrors, when the device's supported
//! configurations force resampling, when the path counts as bit-perfect,
//! how the worker reacts to seek requests, pauses and backpressure, and
//! the exact integer arithmetic behind positions, durations and
//! diagnostics. The host performs the actions (sleep, spawn, build, drop)
//! in the documented order and feeds events back in.
//!
//! Times are milliseconds; volumes and gains are IEEE-754 bit patterns.

use vstd::prelude::*;
use crate::bits::{clamp_unit, clamp_unit_spec, near_unity_spec, ONE_BITS};
use crate::gain::{GainComputation, ReplayGainInfo, ReplayGainMode, ReplayGainState, spec_gain_request};
use crate::ring::{is_pow2, RingBuffer};
use crate::RING_BUFFER_SIZE;
use crate::FADE_RAMP_SAMPLES;

verus! {

/// Commands the host sends the engine. Seek positions are in
/// milliseconds and the volume is the bit pattern of a float; the host
/// converts at the boundary.
pub enum AudioCommand {
    Play(String),
    Pause,
    Resume,
    Stop,
    Seek(u64),
    SetVolume(u32),
    SetReplayGain(ReplayGainMode),
    SetClippingPrevention(bool),
    Shutdown,
}

/// Snapshot of playback for the host, in integer units.
pub struct PlaybackState {
    pub is_playing: bool,
    pub is_paused: bool,
    pub position_ms: u64,
    pub duration_ms: u64,
    pub sample_rate: u32,
    pub bit_depth: Option<u8>,
    pub channels: u32,
    pub current_file: Option<String>,
    /// True when the OS is resampling because the device does not support
    /// the file's native rate.
    pub resampled: bool,
}

/// The stopped state: nothing playing, everything zero.
pub open spec fn spec_default_playback_state() -> PlaybackState {
    PlaybackState {
        is_playing: false,
        is_paused: false,
        position_ms: 0,
        duration_ms: 0,
        sample_rate: 0,
        bit_depth: None,
        channels: 0,
        current_file: None,
        resampled: false,
    }
}

impl Default for PlaybackState {
    fn default() -> (r: Self)
        ensures
            r == spec_default_playback_state(),
    {
        PlaybackState {
            is_playing: false,
            is_paused: false,
            position_ms: 0,
            duration_ms: 0,
            sample_rate: 0,
            bit_depth: None,
            channels: 0,
            current_file: None,
            resampled: false,
        }
    }
}

/// Live audio diagnostics, in integer units: the fill level in per mille
/// of the capacity and the estimated latency in milliseconds.
pub struct AudioDiagnostics {
    pub buffer_capacity: usize,
    pub buffer_filled: usize,
    pub buffer_fill_permille: u32,
    pub latency_ms: u64,
    pub dropout_count: u64,
    pub output_sample_rate: u32,
    pub output_channels: u32,
    pub is_bit_perfect: bool,
    /// The output stream always runs in the platform's shared mode.
    pub shared_mode: bool,
}

/// One output device, as the host enumerates them.
pub struct AudioDeviceInfo {
    pub name: String,
    pub is_default: bool,
}

/// One supported configuration range of the output device: a closed
/// sample-rate interval and a channel count.
pub struct ConfigRange {
    pub min_rate: u32,
    pub max_rate: u32,
    pub channels: u32,
}

/// Whether some supported range covers the rate with enough channels.
pub open spec fn spec_rate_supported(ranges: Seq<ConfigRange>, rate: u32, channels: u32) -> bool {
    exists|i: int|
        0 <= i < ranges.len() && ranges[i].min_rate <= rate && rate <= ranges[i].max_rate
            && ranges[i].channels >= channels
}

/// Scan the device's supported configurations for one that covers the
/// file's sample rate with at least its channel count.
pub fn rate_supported(ranges: &Vec<ConfigRange>, rate: u32, channels: u32) -> (r: bool)
    ensures
        r == spec_rate_supported(ranges@, rate, channels),
{
    let mut i: usize = 0;
    while i < ranges.len()
        invariant
            i <= ranges@.len(),
            forall|j: int|
                0 <= j < i ==> !(ranges@[j].min_rate <= rate && rate <= ranges@[j].max_rate
                    && ranges@[j].channels >= channels),
        decreases ranges@.len() - i,
    {
        let c = &ranges[i];
        if c.min_rate <= rate && rate <= c.max_rate && c.channels >= channels {
            return true;
        }
        i = i + 1;
    }
    false
}

/// Bit-perfect means: the volume is (within f32::EPSILON of) exactly 1.0,
/// replay-gain is off, and the OS is not resampling.
pub open spec fn spec_bit_perfect(volume: u32, mode: ReplayGainMode, resampled: bool) -> bool {
    near_unity_spec(volume) && mode == ReplayGainMode::Off && !resampled
}

/// Latency of `filled` queued samples at `rate` Hz over `channels`
/// channels, in whole milliseconds; zero when the rate is unknown.
pub open spec fn spec_latency_ms(filled: int, rate: u32, channels: u32) -> int {
    let ch: int = if channels >= 1 {
        channels as int
    } else {
        1
    };
    if rate > 0 {
        (filled * 1000) / (ch * rate)
    } else {
        0
    }
}

/// The engine thread's owned state: the playback snapshot, the ring
/// buffer, the replay-gain state, and the values mirrored to the host in
/// atomics (here plain fields; the host keeps the real atomics in step by
/// performing exactly the writes each transition's contract states).
pub struct EngineCore {
    pub state: PlaybackState,
    pub ring: RingBuffer,
    pub rg: ReplayGainState,
    /// Volume as float bits; always kept clamped to [0, 1].
    pub volume: u32,
    pub position_ms: u64,
    pub duration_ms: u64,
    pub is_playing: bool,
    pub is_paused: bool,
    pub dropout_count: u64,
    pub current_sample_rate: u32,
    pub current_channels: u32,
    pub is_bit_perfect: bool,
    /// The one-shot fade request flags the output callback consumes.
    pub fade_req_pause: bool,
    pub fade_req_resume: bool,
    pub fade_req_stop: bool,
    /// Worker lifecycle flags and the pending seek target.
    pub decoder_running: bool,
    pub decoder_paused: bool,
    pub seek_request_ms: Option<u64>,
}

impl EngineCore {
    /// The engine's invariant: a well-formed ring and replay-gain state,
    /// and a bit-perfect mirror that is exactly the predicate over the
    /// volume, the mode and the resampling flag.
    pub open spec fn wf(&self) -> bool {
        &&& self.ring.wf()
        &&& self.rg.wf()
        &&& self.is_bit_perfect == spec_bit_perfect(
            self.volume,
            self.rg.mode,
            self.state.resampled,
        )
    }

    /// A fresh engine: stopped, unit volume, replay-gain off, empty ring
    /// of the fixed power-of-two capacity, bit-perfect.
    pub fn new() -> (r: EngineCore)
        ensures
            r.wf(),
            r.state == spec_default_playback_state(),
            r.volume == ONE_BITS,
            r.position_ms == 0 && r.duration_ms == 0,
            !r.is_playing && !r.is_paused,
            r.dropout_count == 0,
            r.current_sample_rate == 0 && r.current_channels == 0,
            r.is_bit_perfect,
            !r.fade_req_pause && !r.fade_req_resume && !r.fade_req_stop,
            !r.decoder_running && !r.decoder_paused,
            r.seek_request_ms.is_none(),
            r.ring.cap() == RING_BUFFER_SIZE,
            r.ring.contents() == Seq::<u32>::empty(),
    {
        proof {
            assert(is_pow2(RING_BUFFER_SIZE as nat)) by {
                reveal_with_fuel(is_pow2, 19);
            };
        }
        EngineCore {
            state: PlaybackState::default(),
            ring: RingBuffer::new(RING_BUFFER_SIZE),
            rg: ReplayGainState::new(),
            volume: ONE_BITS,
            position_ms: 0,
            duration_ms: 0,
            is_playing: false,
            is_paused: false,
            dropout_count: 0,
            current_sample_rate: 0,
            current_channels: 0,
            is_bit_perfect: true,
            fade_req_pause: false,
            fade_req_resume: false,
            fade_req_stop: false,
            decoder_running: false,
            decoder_paused: false,
            seek_request_ms: None,
        }
    }

    /// Pause: ask the callback to fade out, stop the worker producing,
    /// and mark the state paused.
    pub fn on_pause(&mut self)
        requires
            old(self).wf(),
        ensures
            final(self).wf(),
            *final(self) == (EngineCore {
                fade_req_pause: true,
                decoder_paused: true,
                is_paused: true,
                is_playing: false,
                state: PlaybackState { is_paused: true, is_playing: false, ..old(self).state },
                ..*old(self)
            }),
    {
        self.fade_req_pause = true;
        self.decoder_paused = true;
        self.is_paused = true;
        self.is_playing = false;
        self.state.is_paused = true;
        self.state.is_playing = false;
    }

    /// Resume: let the worker produce again, ask the callback to fade in,
    /// and mark the state playing.
    pub fn on_resume(&mut self)
        requires
            old(self).wf(),
        ensures
            final(self).wf(),
            *final(self) == (EngineCore {
                fade_req_resume: true,
                decoder_paused: false,
                is_paused: false,
                is_playing: true,
                state: PlaybackState { is_paused: false, is_playing: true, ..old(self).state },
                ..*old(self)
            }),
    {
        self.decoder_paused = false;
        self.fade_req_resume = true;
        self.is_paused = false;
        self.is_playing = true;
        self.state.is_paused = false;
        self.state.is_playing = true;
    }

    /// First phase of Stop and of Shutdown: ask the callback to fade out.
    /// The host then sleeps `stop_fade_wait_ms` before the teardown.
    pub fn begin_stop(&mut self)
        requires
            old(self).wf(),
        ensures
            final(self).wf(),
            *final(self) == (EngineCore { fade_req_stop: true, ..*old(self) }),
    {
        self.fade_req_stop = true;
    }

    /// How long the host must wait for the stop fade to complete: the
    /// ramp's duration at the current rate, plus a small margin.
    pub fn stop_fade_wait_ms(&self) -> (r: u64)
        ensures
            r == (FADE_RAMP_SAMPLES * 1000) as u64 / (if self.current_sample_rate >= 1 {
                self.current_sample_rate as u64
            } else {
                1u64
            }) + 5,
    {
        let sr: u64 = if self.current_sample_rate >= 1 {
            self.current_sample_rate as u64
        } else {
            1
        };
        ((FADE_RAMP_SAMPLES as u64) * 1000) / sr + 5
    }

    /// Second phase of Stop, after the fade has completed and the host has
    /// dropped the stream: stop the worker, clear the ring, and reset the
    /// state to the default.
    pub fn finish_stop(&mut self)
        requires
            old(self).wf(),
        ensures
            final(self).wf(),
            final(self).decoder_running == false,
            final(self).is_playing == false && final(self).is_paused == false,
            final(self).position_ms == 0,
            final(self).state == spec_default_playback_state(),
            final(self).ring.contents() == Seq::<u32>::empty(),
            final(self).ring.cap() == old(self).ring.cap(),
            final(self).volume == old(self).volume,
            final(self).rg == old(self).rg,
            final(self).duration_ms == old(self).duration_ms,
            final(self).dropout_count == old(self).dropout_count,
            final(self).current_sample_rate == old(self).current_sample_rate,
            final(self).current_channels == old(self).current_channels,
            final(self).fade_req_pause == old(self).fade_req_pause,
            final(self).fade_req_resume == old(self).fade_req_resume,
            final(self).fade_req_stop == old(self).fade_req_stop,
            final(self).decoder_paused == old(self).decoder_paused,
            final(self).seek_request_ms == old(self).seek_request_ms,
            final(self).is_bit_perfect == spec_bit_perfect(old(self).volume, old(self).rg.mode, false),
    {
        self.decoder_running = false;
        self.ring.clear();
        self.is_playing = false;
        self.is_paused = false;
        self.position_ms = 0;
        self.state = PlaybackState::default();
        self.update_bit_perfect();
    }

    /// Seek: publish the target for the worker and move the position
    /// mirror at once. Fire-and-forget; the worker picks it up on its next
    /// iteration.
    pub fn on_seek(&mut self, position_ms: u64)
        requires
            old(self).wf(),
        ensures
            final(self).wf(),
            *final(self) == (EngineCore {
                seek_request_ms: Some(position_ms),
                position_ms: position_ms,
                ..*old(self)
            }),
    {
        self.seek_request_ms = Some(position_ms);
        self.position_ms = position_ms;
    }

    /// Set the volume, clamped to [0, 1] as float bits, and recompute the
    /// bit-perfect flag.
    pub fn on_set_volume(&mut self, volume_bits: u32)
        requires
            old(self).wf(),
        ensures
            final(self).wf(),
            *final(self) == (EngineCore {
                volume: clamp_unit_spec(volume_bits),
                is_bit_perfect: spec_bit_perfect(
                    clamp_unit_spec(volume_bits),
                    old(self).rg.mode,
                    old(self).state.resampled,
                ),
                ..*old(self)
            }),
    {
        self.volume = clamp_unit(volume_bits);
        self.update_bit_perfect();
    }

    /// Change the replay-gain mode and recompute the bit-perfect flag.
    /// Returns what the host must now evaluate (see `GainComputation`);
    /// the host hands the result back through `provide_gain`.
    pub fn on_set_replaygain(&mut self, mode: ReplayGainMode) -> (r: Option<GainComputation>)
        requires
            old(self).wf(),
        ensures
            final(self).wf(),
            final(self).rg.mode == mode,
            final(self).rg.info == old(self).rg.info,
            final(self).rg.clipping_prevention == old(self).rg.clipping_prevention,
            final(self).is_bit_perfect == spec_bit_perfect(
                old(self).volume,
                mode,
                old(self).state.resampled,
            ),
            r.is_some() == spec_gain_request(
                mode,
                old(self).rg.clipping_prevention,
                old(self).rg.info,
            ).is_some(),
            final(self).state == old(self).state,
            final(self).ring == old(self).ring,
            final(self).volume == old(self).volume,
    {
        self.rg.set_mode(mode);
        self.update_bit_perfect();
        self.rg.gain_request()
    }

    /// Switch clipping prevention; same protocol as `on_set_replaygain`.
    pub fn on_set_clipping_prevention(&mut self, on: bool) -> (r: Option<GainComputation>)
        requires
            old(self).wf(),
        ensures
            final(self).wf(),
            final(self).rg.mode == old(self).rg.mode,
            final(self).rg.info == old(self).rg.info,
            final(self).rg.clipping_prevention == on,
            final(self).is_bit_perfect == old(self).is_bit_perfect,
            r.is_some() == spec_gain_request(old(self).rg.mode, on, old(self).rg.info).is_some(),
            final(self).state == old(self).state,
            final(self).ring == old(self).ring,
            final(self).volume == old(self).volume,
    {
        self.rg.set_clipping_prevention(on);
        self.update_bit_perfect();
        self.rg.gain_request()
    }

    /// Store the linear gain the host evaluated for the current decision.
    /// Guarded: when no gain is wanted the cached gain stays exactly 1.0.
    pub fn provide_gain(&mut self, bits: u32)
        requires
            old(self).wf(),
        ensures
            final(self).wf(),
            final(self).rg.mode == old(self).rg.mode,
            final(self).rg.info == old(self).rg.info,
            final(self).rg.clipping_prevention == old(self).rg.clipping_prevention,
            final(self).state == old(self).state,
            final(self).ring == old(self).ring,
            final(self).is_bit_perfect == old(self).is_bit_perfect,
            final(self).volume == old(self).volume,
            spec_gain_request(old(self).rg.mode, old(self).rg.clipping_prevention, old(self).rg.info).is_none()
                ==> final(self).rg.gain_linear == ONE_BITS,
    {
        self.rg.set_gain_linear(bits);
        self.update_bit_perfect();
    }

    /// First phase of Play: stop whatever runs. The host then drops its
    /// stream and sleeps ~50 ms so the callback quiesces.
    pub fn begin_play(&mut self)
        requires
            old(self).wf(),
        ensures
            final(self).wf(),
            *final(self) == (EngineCore { decoder_running: false, ..*old(self) }),
    {
        self.decoder_running = false;
    }

    /// Second phase of Play, once the decoder opened: install the track's
    /// parameters and the replay-gain tags, decide whether the OS will
    /// resample (the device ranges are `None` when the query failed, in
    /// which case the engine hopes for the best), reset the ring and all
    /// flags, and mark the worker running. Returns the gain decision the
    /// host must evaluate (then hand back through `provide_gain`). The
    /// host then spawns the worker and builds the stream at the native
    /// rate, letting the OS resample if it must.
    pub fn on_play_opened(
        &mut self,
        path: String,
        rate: u32,
        channels: u32,
        duration_ms: u64,
        bit_depth: Option<u8>,
        info: ReplayGainInfo,
        device_ranges: &Option<Vec<ConfigRange>>,
    ) -> (r: Option<GainComputation>)
        requires
            old(self).wf(),
        ensures
            final(self).wf(),
            ({
                let resampled = match device_ranges {
                    Some(ranges) => !spec_rate_supported(ranges@, rate, channels),
                    None => false,
                };
                &&& final(self).state == (PlaybackState {
                    is_playing: true,
                    is_paused: false,
                    position_ms: 0,
                    duration_ms: duration_ms,
                    sample_rate: rate,
                    bit_depth: bit_depth,
                    channels: channels,
                    current_file: Some(path),
                    resampled: resampled,
                })
                &&& final(self).is_playing && !final(self).is_paused
                &&& final(self).position_ms == 0
                &&& final(self).duration_ms == duration_ms
                &&& final(self).current_sample_rate == rate
                &&& final(self).current_channels == channels
                &&& final(self).dropout_count == 0
                &&& final(self).rg.info == info
                &&& final(self).rg.mode == old(self).rg.mode
                &&& final(self).rg.clipping_prevention == old(self).rg.clipping_prevention
                &&& final(self).is_bit_perfect == spec_bit_perfect(
                    old(self).volume,
                    old(self).rg.mode,
                    resampled,
                )
                &&& final(self).ring.contents() == Seq::<u32>::empty()
                &&& final(self).ring.cap() == old(self).ring.cap()
                &&& !final(self).fade_req_pause
                &&& !final(self).fade_req_resume
                &&& !final(self).fade_req_stop
                &&& !final(self).decoder_paused
                &&& final(self).seek_request_ms.is_none()
                &&& final(self).decoder_running
                &&& final(self).volume == old(self).volume
                &&& r.is_some() == spec_gain_request(
                    old(self).rg.mode,
                    old(self).rg.clipping_prevention,
                    info,
                ).is_some()
            }),
    {
        let resampled = match device_ranges {
            Some(ranges) => !rate_supported(ranges, rate, channels),
            None => false,
        };
        self.rg.load_info(info);
        self.state = PlaybackState {
            is_playing: true,
            is_paused: false,
            position_ms: 0,
            duration_ms,
            sample_rate: rate,
            bit_depth,
            channels,
            current_file: Some(path),
            resampled,
        };
        self.is_playing = true;
        self.is_paused = false;
        self.duration_ms = duration_ms;
        self.position_ms = 0;
        self.current_sample_rate = rate;
        self.current_channels = channels;
        self.dropout_count = 0;
        self.update_bit_perfect();
        self.ring.clear();
        self.fade_req_pause = false;
        self.fade_req_resume = false;
        self.fade_req_stop = false;
        self.decoder_paused = false;
        self.seek_request_ms = None;
        self.decoder_running = true;
        self.rg.gain_request()
    }

    /// The command-receive timeout fired: when the worker has exited while
    /// the state still says playing and the ring has drained, the track
    /// ended on its own; clear the playing flags and rest the position at
    /// zero. Returns whether the host must now drop its stream.
    pub fn on_timeout(&mut self) -> (drop_stream: bool)
        requires
            old(self).wf(),
        ensures
            final(self).wf(),
            drop_stream == (!old(self).decoder_running && old(self).is_playing && old(
                self,
            ).ring.contents().len() == 0),
            drop_stream ==> *final(self) == (EngineCore {
                is_playing: false,
                is_paused: false,
                position_ms: 0,
                state: PlaybackState {
                    is_playing: false,
                    is_paused: false,
                    position_ms: 0,
                    ..old(self).state
                },
                ..*old(self)
            }),
            !drop_stream ==> *final(self) == *old(self),
    {
        let drained = self.ring.available_read() == 0;
        if !self.decoder_running && self.is_playing && drained {
            self.is_playing = false;
            self.is_paused = false;
            self.position_ms = 0;
            self.state.is_playing = false;
            self.state.is_paused = false;
            self.state.position_ms = 0;
            true
        } else {
            false
        }
    }

    /// Snapshot for the host: the guarded state with the atomic mirrors
    /// folded in: atomics first, then the lock-guarded tail.
    pub fn get_state(&self) -> (r: PlaybackState)
        ensures
            r == (PlaybackState {
                position_ms: self.position_ms,
                duration_ms: self.duration_ms,
                is_playing: self.is_playing,
                is_paused: self.is_paused,
                ..self.state
            }),
    {
        PlaybackState {
            is_playing: self.is_playing,
            is_paused: self.is_paused,
            position_ms: self.position_ms,
            duration_ms: self.duration_ms,
            sample_rate: self.state.sample_rate,
            bit_depth: self.state.bit_depth,
            channels: self.state.channels,
            current_file: match &self.state.current_file {
                Some(f) => Some(f.clone()),
                None => None,
            },
            resampled: self.state.resampled,
        }
    }

    pub fn get_position_ms(&self) -> (r: u64)
        ensures
            r == self.position_ms,
    {
        self.position_ms
    }

    pub fn get_duration_ms(&self) -> (r: u64)
        ensures
            r == self.duration_ms,
    {
        self.duration_ms
    }

    /// Live diagnostics, with the fill level and latency computed by the
    /// exact integer formulas.
    pub fn get_diagnostics(&self) -> (r: AudioDiagnostics)
        requires
            self.wf(),
        ensures
            r.buffer_capacity == self.ring.cap(),
            r.buffer_filled == self.ring.contents().len(),
            r.buffer_fill_permille == (self.ring.contents().len() * 1000) as int / self.ring.cap(),
            r.latency_ms == vstd::math::min(
                spec_latency_ms(
                    self.ring.contents().len() as int,
                    self.current_sample_rate,
                    self.current_channels,
                ),
                u64::MAX as int,
            ),
            r.dropout_count == self.dropout_count,
            r.output_sample_rate == self.current_sample_rate,
            r.output_channels == (if self.current_channels >= 1 {
                self.current_channels
            } else {
                1
            }),
            r.is_bit_perfect == self.is_bit_perfect,
            r.shared_mode == true,
    {
        proof {
            crate::ring::lemma_ring_accounting(&self.ring);
        }
        let filled = self.ring.available_read();
        let avail_write = self.ring.available_write();
        let capacity = filled + avail_write + 1;
        let ch: u32 = if self.current_channels >= 1 {
            self.current_channels
        } else {
            1
        };
        let sr = self.current_sample_rate;
        proof {
            assert(ch as int * sr as int <= 0xffff_ffff * 0xffff_ffffint) by (nonlinear_arith)
                requires
                    ch <= u32::MAX,
                    sr <= u32::MAX,
            ;
            assert(ch >= 1 && sr >= 1 ==> ch as int * sr as int >= 1) by (nonlinear_arith);
        }
        let lat_wide: u128 = if sr > 0 {
            ((filled as u128) * 1000) / ((ch as u128) * (sr as u128))
        } else {
            0
        };
        let latency_ms: u64 = if lat_wide > u64::MAX as u128 {
            u64::MAX
        } else {
            lat_wide as u64
        };
        proof {
            assert((filled as int * 1000) / (capacity as int) <= 1000) by (nonlinear_arith)
                requires
                    0 <= filled,
                    1 <= capacity,
                    filled < capacity,
            ;
        }
        let fill_permille: u32 = (((filled as u128) * 1000) / (capacity as u128)) as u32;
        AudioDiagnostics {
            buffer_capacity: capacity,
            buffer_filled: filled,
            buffer_fill_permille: fill_permille,
            latency_ms,
            dropout_count: self.dropout_count,
            output_sample_rate: sr,
            output_channels: ch,
            is_bit_perfect: self.is_bit_perfect,
            shared_mode: true,
        }
    }

    /// Recompute the bit-perfect mirror from the volume, the replay-gain
    /// mode and the resampling flag.
    fn update_bit_perfect(&mut self)
        ensures
            *final(self) == (EngineCore {
                is_bit_perfect: spec_bit_perfect(
                    old(self).volume,
                    old(self).rg.mode,
                    old(self).state.resampled,
                ),
                ..*old(self)
            }),
    {
        let near_one = crate::bits::near_unity(self.volume);
        let mode_off = match self.rg.mode {
            ReplayGainMode::Off => true,
            _ => false,
        };
        self.is_bit_perfect = near_one && mode_off && !self.state.resampled;
    }

}

/// When the mirrors say bit-perfect, the whole data path is a no-op: the
/// volume is within epsilon of 1.0, replay-gain is off -- so, by the
/// replay-gain invariant, the worker's cached gain is exactly 1.0 and its
/// apply plan touches nothing -- and the OS is not resampling. Combined
/// with the render plan's passthrough guarantee and the ring's FIFO law,
/// every sample the callback emits is the decoder's, bit for bit.
pub proof fn lemma_engine_bit_perfect(core: &EngineCore)
    requires
        core.wf(),
        core.is_bit_perfect,
    ensures
        near_unity_spec(core.volume),
        core.rg.mode == ReplayGainMode::Off,
        !core.state.resampled,
        core.rg.gain_linear == ONE_BITS,
        near_unity_spec(core.rg.gain_linear),
{
}

/// What the decoder worker does next, in priority order.
#[derive(Clone, Copy, PartialEq, Eq, Structural, Debug)]
pub enum WorkerStep {
    /// Clear the ring, seek the decoder to this time, recompute the
    /// decoded-samples counter, drop any pending remainder (it belongs to
    /// the audio before the seek), clear the request.
    HandleSeek(u64),
    /// Paused: sleep 10 ms and look again.
    SleepPaused,
    /// The ring already holds at least a second of audio: sleep 5 ms.
    SleepBackpressure,
    /// Offer the pending remainder of the last chunk to the ring again
    /// (see `offer_chunk`): no decoded sample is dropped or reordered.
    WritePending,
    /// Ask the decoder for the next chunk.
    Decode,
}

/// The worker's next step: a pending seek wins, then a pause, then
/// backpressure once more than `rate * channels` samples (one second of
/// audio) sit in the ring; then any still-unwritten remainder of the last
/// chunk; otherwise decode.
pub open spec fn spec_worker_step(
    seek_request: Option<u64>,
    paused: bool,
    has_pending: bool,
    available: usize,
    rate: u32,
    channels: u32,
) -> WorkerStep {
    match seek_request {
        Some(ms) => WorkerStep::HandleSeek(ms),
        None => if paused {
            WorkerStep::SleepPaused
        } else if available > (rate as int) * (channels as int) {
            WorkerStep::SleepBackpressure
        } else if has_pending {
            WorkerStep::WritePending
        } else {
            WorkerStep::Decode
        },
    }
}

/// Decide the worker's next step; see `spec_worker_step`.
pub fn worker_step(
    seek_request: &Option<u64>,
    paused: bool,
    has_pending: bool,
    available: usize,
    rate: u32,
    channels: u32,
) -> (r: WorkerStep)
    ensures
        r == spec_worker_step(*seek_request, paused, has_pending, available, rate, channels),
{
    match seek_request {
        Some(ms) => WorkerStep::HandleSeek(*ms),
        None => {
            if paused {
                WorkerStep::SleepPaused
            } else {
                proof {
                    assert(rate as int * channels as int <= 0xffff_ffff * 0xffff_ffffint)
                        by (nonlinear_arith)
                        requires
                            rate <= u32::MAX,
                            channels <= u32::MAX,
                    ;
                }
                let threshold: u128 = (rate as u128) * (channels as u128);
                if (available as u128) > threshold {
                    WorkerStep::SleepBackpressure
                } else if has_pending {
                    WorkerStep::WritePending
                } else {
                    WorkerStep::Decode
                }
            }
        },
    }
}

/// Offer a chunk (or a remainder of one) to the ring: as much as fits is
/// queued, and exactly the rest comes back, in order, to be offered again.
/// Splitting is exact -- what entered plus what came back is the chunk --
/// so across retries every decoded sample reaches the ring exactly once
/// and in decode order.
pub fn offer_chunk(ring: &mut RingBuffer, chunk: &Vec<u32>) -> (rest: Vec<u32>)
    requires
        old(ring).wf(),
    ensures
        final(ring).wf(),
        final(ring).cap() == old(ring).cap(),
        rest@.len() == chunk@.len() - vstd::math::min(
            chunk@.len() as int,
            old(ring).available_write_spec(),
        ),
        final(ring).contents() == old(ring).contents() + chunk@.take(
            (chunk@.len() - rest@.len()) as int,
        ),
        rest@ == chunk@.skip((chunk@.len() - rest@.len()) as int),
        chunk@.take((chunk@.len() - rest@.len()) as int) + rest@ == chunk@,
        final(ring).history_in() == old(ring).history_in() + chunk@.take(
            (chunk@.len() - rest@.len()) as int,
        ),
        final(ring).history_out() == old(ring).history_out(),
{
    let written = ring.write(chunk);
    let mut rest: Vec<u32> = Vec::new();
    let mut i: usize = written;
    while i < chunk.len()
        invariant
            written <= i <= chunk@.len(),
            rest@.len() == i - written,
            forall|j: int| 0 <= j < i - written ==> rest@[j] == chunk@[written + j],
        decreases chunk@.len() - i,
    {
        rest.push(chunk[i]);
        i = i + 1;
    }
    proof {
        assert(rest@ =~= chunk@.skip(written as int));
        assert(chunk@.take(written as int) + rest@ =~= chunk@);
    }
    rest
}

/// The worker's accounting after one decoded chunk: the new total of
/// decoded frames (saturating) and the position mirror in milliseconds,
/// `frames * 1000 / rate` rounded down.
pub fn worker_on_chunk(samples_decoded: u64, chunk_len: usize, channels: u32, rate: u32) -> (r: (
    u64,
    u64,
))
    requires
        channels >= 1,
    ensures
        r.0 == (if samples_decoded + (chunk_len as int / channels as int) <= u64::MAX {
            samples_decoded + (chunk_len as int / channels as int)
        } else {
            u64::MAX as int
        }),
        r.1 == (if rate > 0 {
            vstd::math::min((r.0 * 1000) as int / (rate as int), u64::MAX as int)
        } else {
            0
        }),
{
    let frames: u64 = (chunk_len as u64) / (channels as u64);
    let total: u64 = if samples_decoded <= u64::MAX - frames {
        samples_decoded + frames
    } else {
        u64::MAX
    };
    let pos_ms: u64 = if rate > 0 {
        let p: u128 = ((total as u128) * 1000) / (rate as u128);
        if p > u64::MAX as u128 {
            u64::MAX
        } else {
            p as u64
        }
    } else {
        0
    };
    (total, pos_ms)
}

/// The decoded-samples counter after a seek: the target time in frames,
/// `ms * rate / 1000` rounded down and saturating.
pub fn worker_after_seek(position_ms: u64, rate: u32) -> (r: u64)
    ensures
        r == vstd::math::min((position_ms * rate as int) / 1000, u64::MAX as int),
{
    proof {
        assert(position_ms as int * rate as int <= 0xffff_ffff_ffff_ffff_ffff_ffff_ffffint)
            by (nonlinear_arith)
            requires
                position_ms <= u64::MAX,
                rate <= u32::MAX,
        ;
    }
    let p: u128 = ((position_ms as u128) * (rate as u128)) / 1000;
    if p > u64::MAX as u128 {
        u64::MAX
    } else {
        p as u64
    }
}

} // verus!
