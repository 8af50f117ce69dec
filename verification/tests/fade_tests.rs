use playback_core::fade::{render, CallbackState, FadeState, SampleOp};
use playback_core::ring::RingBuffer;
use playback_core::FADE_RAMP_SAMPLES;

fn filled_ring(n: u32) -> RingBuffer {
    let mut ring = RingBuffer::new(131072);
    let data: Vec<u32> = (1..=n).collect();
    assert_eq!(ring.write(&data), n as usize);
    ring
}

#[test]
fn fade_requests_follow_the_state_machine() {
    let mut cb = CallbackState::new(2);
    assert_eq!(cb.fade, FadeState::Playing);

    // pause out of Playing starts a fade-out
    cb.apply_fade_requests(false, true, false);
    assert_eq!(cb.fade, FadeState::FadingOut);
    assert_eq!(cb.fade_ctr, FADE_RAMP_SAMPLES);

    // resume out of FadingOut starts a fade-in from zero
    cb.apply_fade_requests(false, false, true);
    assert_eq!(cb.fade, FadeState::FadingIn);
    assert_eq!(cb.fade_ctr, 0);

    // pause out of FadingIn fades out again
    cb.apply_fade_requests(false, true, false);
    assert_eq!(cb.fade, FadeState::FadingOut);

    // stop always fades out, and resume out of Silent fades in
    let mut cb2 = CallbackState::new(2);
    cb2.apply_fade_requests(true, false, false);
    assert_eq!(cb2.fade, FadeState::FadingOut);
    cb2.fade = FadeState::Silent;
    cb2.apply_fade_requests(false, false, true);
    assert_eq!(cb2.fade, FadeState::FadingIn);

    // a resume while Playing changes nothing
    let mut cb3 = CallbackState::new(2);
    cb3.apply_fade_requests(false, false, true);
    assert_eq!(cb3.fade, FadeState::Playing);
}

#[test]
fn silent_outputs_zeros_and_reads_nothing() {
    let mut cb = CallbackState::new(2);
    cb.fade = FadeState::Silent;
    let mut ring = filled_ring(100);
    let r = render(&mut cb, &mut ring, 64, true);
    assert_eq!(r.data.len(), 64);
    assert_eq!(r.ops.len(), 64);
    assert!(r.ops.iter().all(|op| *op == SampleOp::Zero));
    assert!(!r.dropout);
    assert_eq!(ring.available_read(), 100);
}

#[test]
fn bit_perfect_playing_is_pure_passthrough() {
    // with enough audio queued, every slot is Keep and the data is the
    // ring's contents, bit for bit
    let mut cb = CallbackState::new(2);
    let mut ring = filled_ring(1000);
    let r = render(&mut cb, &mut ring, 256, true);
    assert!(r.ops.iter().all(|op| *op == SampleOp::Keep));
    assert_eq!(r.data, (1..=256).collect::<Vec<u32>>());
    assert!(!r.dropout);
    assert_eq!(cb.fade, FadeState::Playing);
}

#[test]
fn normal_playing_applies_volume_and_limiter() {
    let mut cb = CallbackState::new(2);
    let mut ring = filled_ring(1000);
    let r = render(&mut cb, &mut ring, 256, false);
    assert!(r.ops.iter().all(|op| *op == SampleOp::Vol));
    assert!(!r.dropout);
}

#[test]
fn underrun_counts_a_dropout_and_fades_the_tail() {
    // a short read while playing: one dropout, an equal-power fade over
    // the last min(read, ramp) samples, zeros afterwards
    let mut cb = CallbackState::new(2);
    let mut ring = filled_ring(100);
    let r = render(&mut cb, &mut ring, 256, true);
    assert!(r.dropout);
    // all 100 live samples are inside the fade window (100 < ramp)
    for i in 0..100usize {
        assert_eq!(r.ops[i], SampleOp::FadeOnly { num: 100 - i, den: 100 });
    }
    for i in 100..256usize {
        assert_eq!(r.ops[i], SampleOp::Zero);
    }
    assert_eq!(&r.data[..100], &(1..=100).collect::<Vec<u32>>()[..]);
    assert!(r.data[100..].iter().all(|b| *b == 0));
}

#[test]
fn empty_read_is_not_a_dropout() {
    let mut cb = CallbackState::new(2);
    let mut ring = RingBuffer::new(8);
    let r = render(&mut cb, &mut ring, 16, true);
    assert!(!r.dropout);
    assert!(r.ops.iter().all(|op| *op == SampleOp::Zero));
}

#[test]
fn fading_out_gain_is_monotone_and_bounded() {
    // fade bounds: during a fade the progress stays in [0, 1] and never
    // rises; the counter steps once per frame
    let mut cb = CallbackState::new(2);
    cb.fade = FadeState::FadingOut;
    cb.fade_ctr = FADE_RAMP_SAMPLES;
    let mut ring = filled_ring(1024);
    let r = render(&mut cb, &mut ring, 512, false);
    let mut last_num = FADE_RAMP_SAMPLES + 1;
    for (i, op) in r.ops.iter().enumerate() {
        match op {
            SampleOp::VolFade { num, den } => {
                assert_eq!(*den, FADE_RAMP_SAMPLES);
                assert!(*num <= *den);
                assert!(*num >= 1);
                assert!(*num <= last_num);
                last_num = *num;
                assert_eq!(*num, FADE_RAMP_SAMPLES - i / 2);
            },
            other => panic!("unexpected op {:?}", other),
        }
    }
    assert_eq!(cb.fade, FadeState::Silent);
    assert_eq!(cb.fade_ctr, 0);
}

#[test]
fn fading_in_reaches_playing_and_rises() {
    let mut cb = CallbackState::new(2);
    cb.fade = FadeState::FadingIn;
    cb.fade_ctr = 0;
    let mut ring = filled_ring(2048);
    let r = render(&mut cb, &mut ring, 1024, true);
    let mut last_num = 0usize;
    for op in r.ops.iter() {
        match op {
            SampleOp::FadeOnly { num, den } => {
                assert_eq!(*den, FADE_RAMP_SAMPLES);
                assert!(*num <= *den);
                assert!(*num >= last_num);
                last_num = *num;
            },
            SampleOp::Keep => {
                // ramp complete: bit-perfect passthrough resumes
                assert!(last_num + 1 >= FADE_RAMP_SAMPLES);
            },
            other => panic!("unexpected op {:?}", other),
        }
    }
    assert_eq!(cb.fade, FadeState::Playing);
    assert_eq!(cb.fade_ctr, FADE_RAMP_SAMPLES);
}

#[test]
fn fading_out_with_empty_counter_goes_silent() {
    let mut cb = CallbackState::new(2);
    cb.fade = FadeState::FadingOut;
    cb.fade_ctr = 0;
    let mut ring = filled_ring(64);
    let r = render(&mut cb, &mut ring, 32, true);
    assert!(r.ops.iter().all(|op| *op == SampleOp::Zero));
    assert_eq!(cb.fade, FadeState::Silent);
}

#[test]
fn pause_fades_to_silence_within_one_ramp() {
    // after a pause request, no callback later than ramp/rate seconds may
    // produce a non-silent plan until a resume arrives
    let mut cb = CallbackState::new(2);
    let mut ring = filled_ring(100000);
    cb.apply_fade_requests(false, true, false);
    assert_eq!(cb.fade, FadeState::FadingOut);

    // one callback of 512 samples covers the whole 256-frame ramp
    let _ = render(&mut cb, &mut ring, 512, true);
    assert_eq!(cb.fade, FadeState::Silent);
    let r = render(&mut cb, &mut ring, 512, true);
    assert!(r.ops.iter().all(|op| *op == SampleOp::Zero));

    // resume: audio continues, rising back to passthrough
    cb.apply_fade_requests(false, false, true);
    assert_eq!(cb.fade, FadeState::FadingIn);
    let r = render(&mut cb, &mut ring, 1024, true);
    assert!(r.ops.iter().any(|op| matches!(op, SampleOp::FadeOnly { .. })));
    assert_eq!(cb.fade, FadeState::Playing);
}
