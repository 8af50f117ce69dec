//! Replay-gain: tag values, mode, and the derived linear gain.
//!
//! Gain tags are stored in milli-decibels (a tag of "-7.5 dB" becomes
//! -7500) and peaks in millionths (a tag of "0.988" becomes 988000): the
//! library works on exact integers and leaves the one float formula --
//! `gain = 10^(dB/20)`, clamped to `1/peak` when clipping prevention asks
//! for it -- to the host, as a `GainComputation` it must evaluate. The host
//! hands the resulting bit pattern back through `set_gain_linear`; the
//! state guards that call, so that whenever no gain is to be applied the
//! cached gain is exactly the bit pattern of 1.0 and the signal path stays
//! bit-perfect.

use vstd::prelude::*;
use crate::bits::{near_unity_spec, near_unity, ONE_BITS};
use crate::text::{
    chars_of, parse_scaled, spec_parse_scaled, spec_strip_all_suffix, spec_trim, strip_all_suffix,
    trim_chars,
};

verus! {

#[derive(Clone, Copy, PartialEq, Eq, Structural, Debug)]
pub enum ReplayGainMode {
    Off,
    Track,
    Album,
}

/// Per-track replay-gain values read from metadata tags. Gains are in
/// milli-decibels, peaks in millionths of the linear full-scale value.
#[derive(Clone, Copy, Debug)]
pub struct ReplayGainInfo {
    pub track_gain_db: Option<i64>,
    pub track_peak: Option<i64>,
    pub album_gain_db: Option<i64>,
    pub album_peak: Option<i64>,
}

impl Default for ReplayGainInfo {
    /// No tags at all.
    fn default() -> (r: Self)
        ensures
            r.track_gain_db.is_none(),
            r.track_peak.is_none(),
            r.album_gain_db.is_none(),
            r.album_peak.is_none(),
    {
        ReplayGainInfo { track_gain_db: None, track_peak: None, album_gain_db: None, album_peak: None }
    }
}

/// What the host must evaluate to produce the linear gain: `10^(gain_db /
/// 20000)` as a float, and, when `peak_cap` is `Some(p)`, clamped so that
/// the gain times `p / 1000000` does not exceed 1.
#[derive(Clone, Copy, Debug)]
pub struct GainComputation {
    /// Chosen gain in milli-decibels.
    pub gain_db: i64,
    /// Peak in millionths; present exactly when clipping prevention must
    /// cap the gain at its reciprocal.
    pub peak_cap: Option<i64>,
}

/// The gain tag the mode selects: the track tag in `Track` mode, the album
/// tag with a fall-back to the track tag in `Album` mode.
pub open spec fn spec_chosen_gain_db(mode: ReplayGainMode, info: ReplayGainInfo) -> Option<i64> {
    match mode {
        ReplayGainMode::Off => None,
        ReplayGainMode::Track => info.track_gain_db,
        ReplayGainMode::Album => if info.album_gain_db.is_some() {
            info.album_gain_db
        } else {
            info.track_gain_db
        },
    }
}

/// The peak tag the mode selects, with the same album-to-track fall-back.
pub open spec fn spec_chosen_peak(mode: ReplayGainMode, info: ReplayGainInfo) -> Option<i64> {
    match mode {
        ReplayGainMode::Off => None,
        ReplayGainMode::Track => info.track_peak,
        ReplayGainMode::Album => if info.album_peak.is_some() {
            info.album_peak
        } else {
            info.track_peak
        },
    }
}

/// The whole decision: `None` means the gain is exactly 1.0 (mode off, or
/// no usable tag); otherwise the selected decibel value, with the peak cap
/// exactly when clipping prevention is on and a positive peak is known.
pub open spec fn spec_gain_request(
    mode: ReplayGainMode,
    clipping_prevention: bool,
    info: ReplayGainInfo,
) -> Option<GainComputation> {
    match spec_chosen_gain_db(mode, info) {
        None => None,
        Some(db) => Some(
            GainComputation {
                gain_db: db,
                peak_cap: match spec_chosen_peak(mode, info) {
                    Some(p) => if clipping_prevention && p > 0 {
                        Some(p)
                    } else {
                        None
                    },
                    None => None,
                },
            },
        ),
    }
}

/// Replay-gain mode, tag values and the cached linear gain (an IEEE-754
/// bit pattern) that the decoder worker multiplies by.
pub struct ReplayGainState {
    pub mode: ReplayGainMode,
    pub clipping_prevention: bool,
    pub info: ReplayGainInfo,
    /// Bits of the cached linear gain. Exactly `ONE_BITS` whenever the
    /// decision asks for no gain.
    pub gain_linear: u32,
}

impl ReplayGainState {
    /// The state's one invariant: when nothing asks for a gain, the cached
    /// gain is exactly 1.0, which keeps the path bit-perfect.
    pub open spec fn wf(&self) -> bool {
        spec_gain_request(self.mode, self.clipping_prevention, self.info).is_none()
            ==> self.gain_linear == ONE_BITS
    }

    /// Mode off, clipping prevention on, no tags, unit gain.
    pub fn new() -> (r: ReplayGainState)
        ensures
            r.wf(),
            r.mode == ReplayGainMode::Off,
            r.clipping_prevention == true,
            r.info.track_gain_db.is_none(),
            r.info.track_peak.is_none(),
            r.info.album_gain_db.is_none(),
            r.info.album_peak.is_none(),
            r.gain_linear == ONE_BITS,
    {
        ReplayGainState {
            mode: ReplayGainMode::Off,
            clipping_prevention: true,
            info: ReplayGainInfo::default(),
            gain_linear: ONE_BITS,
        }
    }

    /// What the host must evaluate, given the current mode and tags;
    /// `None` means the gain is unity and nothing is to be computed.
    pub fn gain_request(&self) -> (r: Option<GainComputation>)
        ensures
            (match (r, spec_gain_request(self.mode, self.clipping_prevention, self.info)) {
                (None, None) => true,
                (Some(a), Some(b)) => a.gain_db == b.gain_db && a.peak_cap == b.peak_cap,
                _ => false,
            }),
            r.is_some() == spec_gain_request(
                self.mode,
                self.clipping_prevention,
                self.info,
            ).is_some(),
    {
        let db = match self.mode {
            ReplayGainMode::Off => None,
            ReplayGainMode::Track => self.info.track_gain_db,
            ReplayGainMode::Album => match self.info.album_gain_db {
                Some(a) => Some(a),
                None => self.info.track_gain_db,
            },
        };
        match db {
            None => None,
            Some(db) => {
                let peak = match self.mode {
                    ReplayGainMode::Off => None,
                    ReplayGainMode::Track => self.info.track_peak,
                    ReplayGainMode::Album => match self.info.album_peak {
                        Some(p) => Some(p),
                        None => self.info.track_peak,
                    },
                };
                let peak_cap = match peak {
                    Some(p) => if self.clipping_prevention && p > 0 {
                        Some(p)
                    } else {
                        None
                    },
                    None => None,
                };
                Some(GainComputation { gain_db: db, peak_cap })
            },
        }
    }

    /// Store the linear gain the host evaluated from `gain_request`. The
    /// call guards itself: when the current decision asks for no gain the
    /// cached gain becomes exactly 1.0, whatever was handed in.
    pub fn set_gain_linear(&mut self, bits: u32)
        ensures
            final(self).mode == old(self).mode,
            final(self).clipping_prevention == old(self).clipping_prevention,
            final(self).info == old(self).info,
            final(self).gain_linear == (if spec_gain_request(
                old(self).mode,
                old(self).clipping_prevention,
                old(self).info,
            ).is_none() {
                ONE_BITS
            } else {
                bits
            }),
            final(self).wf(),
    {
        let req = self.gain_request();
        match req {
            None => {
                self.gain_linear = ONE_BITS;
            },
            Some(_) => {
                self.gain_linear = bits;
            },
        }
    }

    /// Change the mode. When the new decision asks for no gain, the cached
    /// gain resets to 1.0 at once; otherwise the host must evaluate the new
    /// `gain_request` and call `set_gain_linear`.
    pub fn set_mode(&mut self, mode: ReplayGainMode)
        ensures
            final(self).mode == mode,
            final(self).clipping_prevention == old(self).clipping_prevention,
            final(self).info == old(self).info,
            final(self).wf(),
            spec_gain_request(mode, old(self).clipping_prevention, old(self).info).is_none()
                ==> final(self).gain_linear == ONE_BITS,
    {
        self.mode = mode;
        if self.gain_request().is_none() {
            self.gain_linear = ONE_BITS;
        }
    }

    /// Switch clipping prevention, with the same refresh protocol as
    /// `set_mode`.
    pub fn set_clipping_prevention(&mut self, on: bool)
        ensures
            final(self).mode == old(self).mode,
            final(self).clipping_prevention == on,
            final(self).info == old(self).info,
            final(self).wf(),
            spec_gain_request(old(self).mode, on, old(self).info).is_none()
                ==> final(self).gain_linear == ONE_BITS,
    {
        self.clipping_prevention = on;
        if self.gain_request().is_none() {
            self.gain_linear = ONE_BITS;
        }
    }

    /// Install tag values read from a file, with the same refresh protocol
    /// as `set_mode`.
    pub fn load_info(&mut self, info: ReplayGainInfo)
        ensures
            final(self).mode == old(self).mode,
            final(self).clipping_prevention == old(self).clipping_prevention,
            final(self).info == info,
            final(self).wf(),
            spec_gain_request(old(self).mode, old(self).clipping_prevention, info).is_none()
                ==> final(self).gain_linear == ONE_BITS,
    {
        self.info = info;
        if self.gain_request().is_none() {
            self.gain_linear = ONE_BITS;
        }
    }

    pub fn get_mode(&self) -> (r: ReplayGainMode)
        ensures
            r == self.mode,
    {
        self.mode
    }

    pub fn get_info(&self) -> (r: &ReplayGainInfo)
        ensures
            r == self.info,
    {
        &self.info
    }

    /// The plan for applying replay-gain to a chunk of samples: `None`
    /// means leave every sample untouched, bit for bit (the fast path,
    /// taken exactly when the cached gain is within f32::EPSILON of 1.0);
    /// `Some(g)` means multiply every sample by the float whose bits are
    /// `g`.
    pub fn apply(&self) -> (r: Option<u32>)
        ensures
            r == (if near_unity_spec(self.gain_linear) {
                None
            } else {
                Some(self.gain_linear)
            }),
            (self.wf() && self.mode == ReplayGainMode::Off) ==> r.is_none(),
    {
        if near_unity(self.gain_linear) {
            None
        } else {
            Some(self.gain_linear)
        }
    }
}

/// Replay-gain identity: with the mode off -- and likewise whenever the
/// cached linear gain is within f32::EPSILON of 1.0 -- the apply plan
/// touches nothing, so the chunk the worker writes to the ring is
/// bit-identical to what the decoder produced.
pub proof fn lemma_rg_identity(st: ReplayGainState)
    requires
        st.wf(),
        st.mode == ReplayGainMode::Off || near_unity_spec(st.gain_linear),
    ensures
        near_unity_spec(st.gain_linear),
{
}

/// Replay-gain selection: in `Track` mode with a track gain tag of `g`
/// milli-decibels and clipping prevention off, the decision tells the host
/// to scale by exactly `10^(g/20000)` with no cap; every output sample is
/// then that multiple of the input.
pub proof fn lemma_rg_track_decision(st: ReplayGainState, g: i64)
    requires
        st.mode == ReplayGainMode::Track,
        st.info.track_gain_db == Some(g),
        !st.clipping_prevention,
    ensures
        spec_gain_request(st.mode, st.clipping_prevention, st.info) == Some(
            GainComputation { gain_db: g, peak_cap: None },
        ),
{
}

/// Clipping clamp: with clipping prevention on and a positive peak tag
/// selected, the decision carries that exact peak as the cap, and the
/// host's clamp `gain <= 1/peak` makes `gain * peak <= 1`.
pub proof fn lemma_rg_clipping_cap(st: ReplayGainState, g: i64, p: i64)
    requires
        st.clipping_prevention,
        spec_chosen_gain_db(st.mode, st.info) == Some(g),
        spec_chosen_peak(st.mode, st.info) == Some(p),
        p > 0,
    ensures
        spec_gain_request(st.mode, st.clipping_prevention, st.info) == Some(
            GainComputation { gain_db: g, peak_cap: Some(p) },
        ),
{
}

/// Milli-decibels in a gain tag: the value before an optional " dB"
/// suffix (in any of its three spellings), surrounded by optional
/// whitespace.
pub open spec fn spec_parse_gain(s: Seq<char>) -> Option<i64> {
    spec_parse_scaled(
        spec_trim(
            spec_strip_all_suffix(
                spec_strip_all_suffix(
                    spec_strip_all_suffix(spec_trim(s), seq![' ', 'd', 'B']),
                    seq![' ', 'd', 'b'],
                ),
                seq!['d', 'B'],
            ),
        ),
        3,
    )
}

/// Millionths in a peak tag: a bare decimal, surrounded by optional
/// whitespace.
pub open spec fn spec_parse_peak(s: Seq<char>) -> Option<i64> {
    spec_parse_scaled(spec_trim(s), 6)
}

/// Parse a gain tag like "-7.5 dB" into milli-decibels (-7500).
pub fn parse_gain_value(s: &Option<String>) -> (r: Option<i64>)
    ensures
        r == (match s {
            Some(v) => spec_parse_gain(v@),
            None => None::<i64>,
        }),
{
    match s {
        None => None,
        Some(v) => {
            let cs = chars_of(v.as_str());
            let t1 = trim_chars(&cs);
            let mut suf1: Vec<char> = Vec::new();
            suf1.push(' ');
            suf1.push('d');
            suf1.push('B');
            let mut suf2: Vec<char> = Vec::new();
            suf2.push(' ');
            suf2.push('d');
            suf2.push('b');
            let mut suf3: Vec<char> = Vec::new();
            suf3.push('d');
            suf3.push('B');
            proof {
                assert(suf1@ =~= seq![' ', 'd', 'B']);
                assert(suf2@ =~= seq![' ', 'd', 'b']);
                assert(suf3@ =~= seq!['d', 'B']);
            }
            let t2 = strip_all_suffix(&t1, &suf1);
            let t3 = strip_all_suffix(&t2, &suf2);
            let t4 = strip_all_suffix(&t3, &suf3);
            let t5 = trim_chars(&t4);
            parse_scaled(&t5, 3)
        },
    }
}

/// Parse a peak tag like "0.988" into millionths (988000).
pub fn parse_peak_value(s: &Option<String>) -> (r: Option<i64>)
    ensures
        r == (match s {
            Some(v) => spec_parse_peak(v@),
            None => None::<i64>,
        }),
{
    match s {
        None => None,
        Some(v) => {
            let cs = chars_of(v.as_str());
            let t = trim_chars(&cs);
            parse_scaled(&t, 6)
        },
    }
}

/// Assemble tag values into a `ReplayGainInfo`, parsing each of the four
/// strings into the library's integer units.
pub fn info_from_tags(
    track_gain: Option<String>,
    track_peak: Option<String>,
    album_gain: Option<String>,
    album_peak: Option<String>,
) -> (r: ReplayGainInfo)
    ensures
        r.track_gain_db == (match track_gain {
            Some(v) => spec_parse_gain(v@),
            None => None::<i64>,
        }),
        r.track_peak == (match track_peak {
            Some(v) => spec_parse_peak(v@),
            None => None::<i64>,
        }),
        r.album_gain_db == (match album_gain {
            Some(v) => spec_parse_gain(v@),
            None => None::<i64>,
        }),
        r.album_peak == (match album_peak {
            Some(v) => spec_parse_peak(v@),
            None => None::<i64>,
        }),
{
    ReplayGainInfo {
        track_gain_db: parse_gain_value(&track_gain),
        track_peak: parse_peak_value(&track_peak),
        album_gain_db: parse_gain_value(&album_gain),
        album_peak: parse_peak_value(&album_peak),
    }
}

} // verus!
