//! The output callback's private state: the fade state machine and the
//! per-callback rendering plan.
//!
//! The callback must fill a slice of `n` samples under a hard real-time
//! deadline. This module does everything about that work that is not float
//! arithmetic: it drains the ring buffer, decides bit-for-bit what each
//! output slot holds on the bit-perfect path, zero-fills what has no audio,
//! drives the fade counter, and detects dropouts. For slots that need float
//! arithmetic (volume, the hard limiter, the equal-power curve) the plan
//! names the exact operation and the fade progress `num / den`; the host
//! evaluates `sin(num/den * pi/2)` and the multiplications. The plan pins
//! which operation applies to which slot, so the bit-perfect guarantee --
//! every slot is `Keep` when nothing may touch the signal -- is proved here.

use vstd::prelude::*;
use crate::FADE_RAMP_SAMPLES;
use crate::ring::RingBuffer;

verus! {

/// The fade state machine. Lives only inside the output callback.
#[derive(Clone, Copy, PartialEq, Eq, Structural, Debug)]
pub enum FadeState {
    Playing,
    FadingOut,
    Silent,
    FadingIn,
}

/// What the host must do to one output slot. `data` below is the sample
/// read from the ring for that slot; `volume` is the callback's volume;
/// `eq(p)` is the equal-power curve `sin(p * pi/2)`.
#[derive(Clone, Copy, PartialEq, Eq, Structural, Debug)]
pub enum SampleOp {
    /// Output the sample untouched, bit for bit.
    Keep,
    /// Output exactly 0.0.
    Zero,
    /// Output `hard_limit(sample * volume)`.
    Vol,
    /// Output `sample * eq(num/den)`: a fade on the bit-perfect path.
    FadeOnly { num: usize, den: usize },
    /// Output `hard_limit(sample * volume) * eq(num/den)`: the underrun
    /// tail fade applied after the normal volume pass.
    VolThenFade { num: usize, den: usize },
    /// Output `hard_limit(sample * volume * eq(num/den))`: a fade in
    /// normal (non-bit-perfect) mode.
    VolFade { num: usize, den: usize },
}

/// The callback's private state between invocations.
pub struct CallbackState {
    pub fade: FadeState,
    /// Position on the fade ramp, in frames; at most `FADE_RAMP_SAMPLES`.
    pub fade_ctr: usize,
    /// Channel count of the stream; fixed and at least 1.
    pub channels: usize,
}

impl CallbackState {
    pub open spec fn wf(&self) -> bool {
        &&& self.fade_ctr <= FADE_RAMP_SAMPLES
        &&& 1 <= self.channels
    }

    /// State for a freshly built stream: playing, ramp complete.
    pub fn new(channels: usize) -> (r: CallbackState)
        requires
            1 <= channels,
        ensures
            r.wf(),
            r.fade == FadeState::Playing,
            r.fade_ctr == FADE_RAMP_SAMPLES,
            r.channels == channels,
    {
        CallbackState { fade: FadeState::Playing, fade_ctr: FADE_RAMP_SAMPLES, channels }
    }

    /// Consume the three one-shot request flags, in priority
    /// order: stop always starts a fade-out; pause starts one only out of
    /// `Playing` or `FadingIn`; resume starts a fade-in only out of
    /// `Silent` or `FadingOut`.
    pub fn apply_fade_requests(&mut self, stop: bool, pause: bool, resume: bool)
        requires
            old(self).wf(),
        ensures
            final(self).wf(),
            final(self).channels == old(self).channels,
            *final(self) == spec_after_requests(*old(self), stop, pause, resume),
    {
        if stop {
            self.fade = FadeState::FadingOut;
            self.fade_ctr = FADE_RAMP_SAMPLES;
        }
        if pause {
            if self.fade == FadeState::Playing || self.fade == FadeState::FadingIn {
                self.fade = FadeState::FadingOut;
                self.fade_ctr = FADE_RAMP_SAMPLES;
            }
        }
        if resume {
            if self.fade == FadeState::Silent || self.fade == FadeState::FadingOut {
                self.fade = FadeState::FadingIn;
                self.fade_ctr = 0;
            }
        }
    }
}

/// The fade state machine's transition on the request flags.
pub open spec fn spec_after_requests(
    cb: CallbackState,
    stop: bool,
    pause: bool,
    resume: bool,
) -> CallbackState {
    let s1 = if stop {
        CallbackState { fade: FadeState::FadingOut, fade_ctr: FADE_RAMP_SAMPLES, ..cb }
    } else {
        cb
    };
    let s2 = if pause && (s1.fade == FadeState::Playing || s1.fade == FadeState::FadingIn) {
        CallbackState { fade: FadeState::FadingOut, fade_ctr: FADE_RAMP_SAMPLES, ..s1 }
    } else {
        s1
    };
    if resume && (s2.fade == FadeState::Silent || s2.fade == FadeState::FadingOut) {
        CallbackState { fade: FadeState::FadingIn, fade_ctr: 0, ..s2 }
    } else {
        s2
    }
}

/// How many samples a callback in state `fade` drains from a ring holding
/// `avail` samples when asked for `n`: nothing when silent, otherwise as
/// many as are there, up to `n`.
pub open spec fn spec_read_len(fade: FadeState, n: int, avail: int) -> int {
    if fade == FadeState::Silent {
        0
    } else {
        vstd::math::min(n, avail)
    }
}

/// The plan for one slot of a `Playing` callback: live samples pass
/// through (bit-perfect) or get the volume-and-limit treatment; on a short
/// read the last `min(read, ramp)` live samples additionally fade out with
/// progress `(read - i) / min(read, ramp)`, and the tail is zeroed.
pub open spec fn spec_playing_op(bp: bool, read: int, n: int, i: int) -> SampleOp {
    let rampp = vstd::math::min(read, FADE_RAMP_SAMPLES as int);
    if i >= read {
        SampleOp::Zero
    } else if read < n && i >= read - rampp {
        if bp {
            SampleOp::FadeOnly { num: (read - i) as usize, den: rampp as usize }
        } else {
            SampleOp::VolThenFade { num: (read - i) as usize, den: rampp as usize }
        }
    } else if bp {
        SampleOp::Keep
    } else {
        SampleOp::Vol
    }
}

/// The plan for one slot of a `FadingOut` callback: frame `f = i / ch`
/// gets gain progress `(ctr - f) / ramp` while the counter lasts, and
/// silence afterwards.
pub open spec fn spec_fading_out_op(bp: bool, read: int, ctr: int, ch: int, i: int) -> SampleOp {
    if i >= read {
        SampleOp::Zero
    } else {
        let f = i / ch;
        if f < ctr {
            if bp {
                SampleOp::FadeOnly { num: (ctr - f) as usize, den: FADE_RAMP_SAMPLES }
            } else {
                SampleOp::VolFade { num: (ctr - f) as usize, den: FADE_RAMP_SAMPLES }
            }
        } else {
            SampleOp::Zero
        }
    }
}

/// The plan for one slot of a `FadingIn` callback: frame `f = i / ch` gets
/// gain progress `min(ctr + f, ramp) / ramp`; once the ramp is complete the
/// bit-perfect path passes samples through untouched.
pub open spec fn spec_fading_in_op(bp: bool, read: int, ctr: int, ch: int, i: int) -> SampleOp {
    if i >= read {
        SampleOp::Zero
    } else {
        let f = i / ch;
        let c = vstd::math::min(ctr + f, FADE_RAMP_SAMPLES as int);
        if bp && c >= FADE_RAMP_SAMPLES {
            SampleOp::Keep
        } else if bp {
            SampleOp::FadeOnly { num: c as usize, den: FADE_RAMP_SAMPLES }
        } else {
            SampleOp::VolFade { num: c as usize, den: FADE_RAMP_SAMPLES }
        }
    }
}

/// The whole plan for one callback.
pub open spec fn spec_render_ops(
    fade: FadeState,
    bp: bool,
    read: int,
    n: int,
    ctr: int,
    ch: int,
) -> Seq<SampleOp> {
    Seq::new(
        n as nat,
        |i: int|
            match fade {
                FadeState::Silent => SampleOp::Zero,
                FadeState::Playing => spec_playing_op(bp, read, n, i),
                FadeState::FadingOut => spec_fading_out_op(bp, read, ctr, ch, i),
                FadeState::FadingIn => spec_fading_in_op(bp, read, ctr, ch, i),
            },
    )
}

/// Number of frames a callback touches when `read` samples came out of the
/// ring: one per started group of `ch` samples.
pub open spec fn spec_frames(read: int, ch: int) -> int {
    if read == 0 {
        0
    } else {
        (read - 1) / ch + 1
    }
}

/// The fade state machine's transition at the end of one callback.
pub open spec fn spec_next_state(cb: CallbackState, read: int) -> CallbackState {
    let frames = spec_frames(read, cb.channels as int);
    match cb.fade {
        FadeState::Silent => cb,
        FadeState::Playing => cb,
        FadeState::FadingOut => {
            let c = if frames >= cb.fade_ctr {
                0
            } else {
                cb.fade_ctr - frames
            };
            CallbackState {
                fade: if c == 0 {
                    FadeState::Silent
                } else {
                    FadeState::FadingOut
                },
                fade_ctr: c as usize,
                ..cb
            }
        },
        FadeState::FadingIn => {
            let c = vstd::math::min(cb.fade_ctr + frames, FADE_RAMP_SAMPLES as int);
            CallbackState {
                fade: if c >= FADE_RAMP_SAMPLES {
                    FadeState::Playing
                } else {
                    FadeState::FadingIn
                },
                fade_ctr: c as usize,
                ..cb
            }
        },
    }
}

/// One callback's result: the raw samples drained from the ring (tail
/// zero-filled) and the operation for each output slot.
pub struct RenderResult {
    pub data: Vec<u32>,
    pub ops: Vec<SampleOp>,
    /// Whether this callback counts as a dropout: it got some samples but
    /// fewer than it asked for, while playing. A fully empty read is not a
    /// dropout.
    pub dropout: bool,
}

/// One invocation of the output callback, minus the float arithmetic.
///
/// Bit-perfect guarantee: when `bit_perfect` holds, the state is `Playing`
/// and the ring holds at least `n` samples, the plan is `Keep` everywhere
/// and `data` is bit-identical to the next `n` samples of the ring's
/// contents -- which, by the ring's FIFO law, are the next `n` samples the
/// decoder produced.
pub fn render(cb: &mut CallbackState, ring: &mut RingBuffer, n: usize, bit_perfect: bool) -> (r:
    RenderResult)
    requires
        old(cb).wf(),
        old(ring).wf(),
    ensures
        final(cb).wf(),
        final(ring).wf(),
        final(ring).cap() == old(ring).cap(),
        *final(cb) == spec_next_state(
            *old(cb),
            spec_read_len(old(cb).fade, n as int, old(ring).contents().len() as int),
        ),
        r.data@.len() == n,
        r.ops@.len() == n,
        ({
            let read = spec_read_len(old(cb).fade, n as int, old(ring).contents().len() as int);
            &&& r.ops@ == spec_render_ops(
                old(cb).fade,
                bit_perfect,
                read,
                n as int,
                old(cb).fade_ctr as int,
                old(cb).channels as int,
            )
            &&& r.data@.take(read) == old(ring).contents().take(read)
            &&& (forall|i: int| read <= i < n ==> r.data@[i] == 0u32)
            &&& final(ring).contents() == old(ring).contents().skip(read)
            &&& final(ring).history_in() == old(ring).history_in()
            &&& final(ring).history_out() == old(ring).history_out() + old(
                ring,
            ).contents().take(read)
            &&& r.dropout == (old(cb).fade == FadeState::Playing && 0 < read < n)
        }),
        (old(cb).fade == FadeState::Playing && bit_perfect && old(ring).contents().len() >= n)
            ==> (r.ops@ == Seq::new(n as nat, |i: int| SampleOp::Keep) && r.data@ == old(
            ring,
        ).contents().take(n as int)),
{
    let ghost old_ring = *ring;
    let ghost old_cb = *cb;

    let mut data: Vec<u32> = Vec::new();
    let mut k: usize = 0;
    while k < n
        invariant
            k <= n,
            data@.len() == k,
            forall|i: int| 0 <= i < k ==> data@[i] == 0u32,
        decreases n - k,
    {
        data.push(0u32);
        k = k + 1;
    }

    let is_silent = match cb.fade {
        FadeState::Silent => true,
        _ => false,
    };
    let ghost zeroed = data@;
    let read: usize = if is_silent {
        0
    } else {
        ring.read(&mut data)
    };
    let ghost read_s = spec_read_len(old_cb.fade, n as int, old_ring.contents().len() as int);
    proof {
        assert(read == read_s);
        assert(data@.take(read as int) =~= old_ring.contents().take(read as int));
        if is_silent {
            assert(ring.contents() =~= old_ring.contents().skip(0));
            assert(ring.history_out() =~= old_ring.history_out() + old_ring.contents().take(0));
        } else {
            assert forall|i: int| read <= i < n implies data@[i] == 0u32 by {
                assert(data@.skip(read as int)[i - read] == zeroed.skip(read as int)[i - read]);
            }
        }
    }

    let ch = cb.channels;
    let mut ops: Vec<SampleOp> = Vec::new();
    let mut dropout = false;

    match cb.fade {
        FadeState::Silent => {
            let mut i: usize = 0;
            while i < n
                invariant
                    i <= n,
                    ops@.len() == i,
                    forall|j: int| 0 <= j < i ==> ops@[j] == SampleOp::Zero,
                decreases n - i,
            {
                ops.push(SampleOp::Zero);
                i = i + 1;
            }
        },
        FadeState::Playing => {
            let rampp = if read < FADE_RAMP_SAMPLES {
                read
            } else {
                FADE_RAMP_SAMPLES
            };
            let mut i: usize = 0;
            while i < n
                invariant
                    i <= n,
                    read <= n,
                    rampp == vstd::math::min(read as int, FADE_RAMP_SAMPLES as int),
                    ops@.len() == i,
                    forall|j: int|
                        0 <= j < i ==> ops@[j] == spec_playing_op(
                            bit_perfect,
                            read as int,
                            n as int,
                            j,
                        ),
                decreases n - i,
            {
                let op = if i >= read {
                    SampleOp::Zero
                } else if read < n && i >= read - rampp {
                    if bit_perfect {
                        SampleOp::FadeOnly { num: read - i, den: rampp }
                    } else {
                        SampleOp::VolThenFade { num: read - i, den: rampp }
                    }
                } else if bit_perfect {
                    SampleOp::Keep
                } else {
                    SampleOp::Vol
                };
                ops.push(op);
                i = i + 1;
            }
            dropout = read > 0 && read < n;
        },
        FadeState::FadingOut => {
            let ctr0 = cb.fade_ctr;
            let mut i: usize = 0;
            while i < n
                invariant
                    i <= n,
                    read <= n,
                    1 <= ch,
                    ops@.len() == i,
                    forall|j: int|
                        0 <= j < i ==> ops@[j] == spec_fading_out_op(
                            bit_perfect,
                            read as int,
                            ctr0 as int,
                            ch as int,
                            j,
                        ),
                decreases n - i,
            {
                let op = if i >= read {
                    SampleOp::Zero
                } else {
                    let f = i / ch;
                    if f < ctr0 {
                        if bit_perfect {
                            SampleOp::FadeOnly { num: ctr0 - f, den: FADE_RAMP_SAMPLES }
                        } else {
                            SampleOp::VolFade { num: ctr0 - f, den: FADE_RAMP_SAMPLES }
                        }
                    } else {
                        SampleOp::Zero
                    }
                };
                ops.push(op);
                i = i + 1;
            }
            let frames = if read == 0 {
                0
            } else {
                (read - 1) / ch + 1
            };
            proof {
                assert(frames == spec_frames(read as int, ch as int));
            }
            let c = if frames >= ctr0 {
                0
            } else {
                ctr0 - frames
            };
            cb.fade_ctr = c;
            if c == 0 {
                cb.fade = FadeState::Silent;
            }
        },
        FadeState::FadingIn => {
            let ctr0 = cb.fade_ctr;
            let mut i: usize = 0;
            while i < n
                invariant
                    i <= n,
                    read <= n,
                    1 <= ch,
                    ctr0 <= FADE_RAMP_SAMPLES,
                    ops@.len() == i,
                    forall|j: int|
                        0 <= j < i ==> ops@[j] == spec_fading_in_op(
                            bit_perfect,
                            read as int,
                            ctr0 as int,
                            ch as int,
                            j,
                        ),
                decreases n - i,
            {
                let op = if i >= read {
                    SampleOp::Zero
                } else {
                    let f = i / ch;
                    let c = if f >= FADE_RAMP_SAMPLES || ctr0 + f >= FADE_RAMP_SAMPLES {
                        FADE_RAMP_SAMPLES
                    } else {
                        ctr0 + f
                    };
                    if bit_perfect && c >= FADE_RAMP_SAMPLES {
                        SampleOp::Keep
                    } else if bit_perfect {
                        SampleOp::FadeOnly { num: c, den: FADE_RAMP_SAMPLES }
                    } else {
                        SampleOp::VolFade { num: c, den: FADE_RAMP_SAMPLES }
                    }
                };
                ops.push(op);
                i = i + 1;
            }
            let frames = if read == 0 {
                0
            } else {
                (read - 1) / ch + 1
            };
            proof {
                assert(frames == spec_frames(read as int, ch as int));
            }
            let c = if frames >= FADE_RAMP_SAMPLES || ctr0 + frames >= FADE_RAMP_SAMPLES {
                FADE_RAMP_SAMPLES
            } else {
                ctr0 + frames
            };
            cb.fade_ctr = c;
            if c >= FADE_RAMP_SAMPLES {
                cb.fade = FadeState::Playing;
            }
        },
    }

    proof {
        assert(ops@ =~= spec_render_ops(
            old_cb.fade,
            bit_perfect,
            read_s,
            n as int,
            old_cb.fade_ctr as int,
            old_cb.channels as int,
        ));
        if old_cb.fade == FadeState::Playing && bit_perfect && old_ring.contents().len() >= n {
            assert(ops@ =~= Seq::new(n as nat, |i: int| SampleOp::Keep));
            assert(data@ =~= old_ring.contents().take(n as int));
        }
    }

    RenderResult { data, ops, dropout }
}

/// The progress `num / den` named by any fade operation in any plan is a
/// well-formed fraction in (0, 1]: the gain the host computes from it with
/// the equal-power curve `sin(p * pi/2)`, which carries [0, 1] into [0, 1]
/// and is increasing there, is therefore always in [0, 1].
pub proof fn lemma_fade_gain_bounded(
    fade: FadeState,
    bp: bool,
    read: int,
    n: int,
    ctr: int,
    ch: int,
    i: int,
)
    requires
        1 <= ch,
        0 <= ctr <= FADE_RAMP_SAMPLES,
        0 <= read <= n <= usize::MAX,
        0 <= i < n,
    ensures
        spec_op_progress_ok(spec_render_ops(fade, bp, read, n, ctr, ch)[i]),
{
    if fade == FadeState::FadingOut || fade == FadeState::FadingIn {
        if i < read {
            vstd::arithmetic::div_mod::lemma_div_pos_is_pos(i, ch);
        }
    }
}

/// A fade operation's progress fraction lies in (0, 1]; operations without
/// a fraction are trivially fine.
pub open spec fn spec_op_progress_ok(op: SampleOp) -> bool {
    match op {
        SampleOp::FadeOnly { num, den } => 0 < den && num <= den,
        SampleOp::VolThenFade { num, den } => 0 < den && num <= den,
        SampleOp::VolFade { num, den } => 0 < den && num <= den,
        _ => true,
    }
}

/// The progress a plan assigns to slot `i`, if any.
pub open spec fn spec_op_progress(op: SampleOp) -> Option<(int, int)> {
    match op {
        SampleOp::FadeOnly { num, den } => Some((num as int, den as int)),
        SampleOp::VolThenFade { num, den } => Some((num as int, den as int)),
        SampleOp::VolFade { num, den } => Some((num as int, den as int)),
        _ => None,
    }
}

/// During a fade-out, the planned gain never rises: a later slot's progress
/// numerator is never above an earlier one's (the denominator is the fixed
/// ramp). With the equal-power curve increasing on [0, 1], the gain the
/// host applies is monotonically non-increasing across the callback.
pub proof fn lemma_fading_out_monotone(
    bp: bool,
    read: int,
    ctr: int,
    ch: int,
    i1: int,
    i2: int,
)
    requires
        1 <= ch,
        0 <= ctr <= FADE_RAMP_SAMPLES,
        0 <= i1 <= i2,
    ensures
        (match (
            spec_op_progress(spec_fading_out_op(bp, read, ctr, ch, i1)),
            spec_op_progress(spec_fading_out_op(bp, read, ctr, ch, i2)),
        ) {
            (Some((n1, _)), Some((n2, _))) => n2 <= n1,
            _ => true,
        }),
{
    vstd::arithmetic::div_mod::lemma_div_is_ordered(i1, i2, ch);
}

/// During a fade-in, the planned gain never falls: a later slot's progress
/// numerator is at least an earlier one's.
pub proof fn lemma_fading_in_monotone(bp: bool, read: int, ctr: int, ch: int, i1: int, i2: int)
    requires
        1 <= ch,
        0 <= i1 <= i2,
        0 <= ctr,
    ensures
        (match (
            spec_op_progress(spec_fading_in_op(bp, read, ctr, ch, i1)),
            spec_op_progress(spec_fading_in_op(bp, read, ctr, ch, i2)),
        ) {
            (Some((n1, _)), Some((n2, _))) => n1 <= n2,
            _ => true,
        }),
{
    vstd::arithmetic::div_mod::lemma_div_is_ordered(i1, i2, ch);
}

} // verus!
