use playback_core::decoder::{AudioDecoder, DecodeStatus};
use playback_core::fade::{render, CallbackState, SampleOp};
use playback_core::null_test::{compare_decodes, decode_all, run_null_test};
use playback_core::ring::RingBuffer;

/// A minimal 16-bit PCM WAV holding a 440 Hz sine, built in memory.
fn wav_bytes(rate: u32, channels: u16, frames: usize) -> Vec<u8> {
    let mut samples: Vec<i16> = Vec::new();
    for i in 0..frames {
        let t = i as f32 / rate as f32;
        let v = (t * 440.0 * 2.0 * std::f32::consts::PI).sin();
        let s = (v * 20000.0) as i16;
        for _ in 0..channels {
            samples.push(s);
        }
    }
    let data_len = (samples.len() * 2) as u32;
    let block_align: u16 = channels * 2;
    let mut b: Vec<u8> = Vec::new();
    b.extend_from_slice(b"RIFF");
    b.extend_from_slice(&(36 + data_len).to_le_bytes());
    b.extend_from_slice(b"WAVE");
    b.extend_from_slice(b"fmt ");
    b.extend_from_slice(&16u32.to_le_bytes());
    b.extend_from_slice(&1u16.to_le_bytes());
    b.extend_from_slice(&channels.to_le_bytes());
    b.extend_from_slice(&rate.to_le_bytes());
    b.extend_from_slice(&(rate * block_align as u32).to_le_bytes());
    b.extend_from_slice(&block_align.to_le_bytes());
    b.extend_from_slice(&16u16.to_le_bytes());
    b.extend_from_slice(b"data");
    b.extend_from_slice(&data_len.to_le_bytes());
    for s in &samples {
        b.extend_from_slice(&s.to_le_bytes());
    }
    b
}

#[test]
fn open_reads_track_parameters() {
    let data = wav_bytes(44100, 2, 3 * 44100);
    let d = AudioDecoder::open(data, Some("wav".to_string())).unwrap();
    assert_eq!(d.sample_rate(), 44100);
    assert_eq!(d.channels(), 2);
    assert_eq!(d.duration_ms(), 3000);
    assert_eq!(d.bit_depth(), Some(16));
}

#[test]
fn decode_yields_every_frame() {
    let frames: usize = 44100;
    let data = wav_bytes(44100, 1, frames);
    let samples = decode_all(data, Some("wav".to_string())).unwrap();
    assert_eq!(samples.len(), frames);
}

#[test]
fn decoded_samples_are_finite_floats() {
    let data = wav_bytes(22050, 2, 2205);
    let samples = decode_all(data, Some("wav".to_string())).unwrap();
    assert!(!samples.is_empty());
    for bits in &samples {
        let v = f32::from_bits(*bits);
        assert!(v.is_finite());
        assert!(v.abs() <= 1.0);
    }
}

#[test]
fn next_samples_reaches_end_of_stream() {
    let data = wav_bytes(8000, 1, 800);
    let mut d = AudioDecoder::open(data, Some("wav".to_string())).unwrap();
    let mut total: usize = 0;
    loop {
        match d.next_samples() {
            Ok(chunk) => total += chunk.len(),
            Err(DecodeStatus::EndOfStream) => break,
            Err(DecodeStatus::Error(e)) => panic!("decode failed: {}", e),
        }
    }
    assert_eq!(total, 800);
}

#[test]
fn null_test_passes_on_any_supported_file() {
    // decode twice, compare: a deterministic decoder gives zero diffs
    let data = wav_bytes(44100, 2, 44100);
    let out = run_null_test(&data, Some("wav".to_string())).unwrap();
    assert!(out.passed);
    assert_eq!(out.diff_samples, 0);
    assert_eq!(out.total_samples, 2 * 44100);
}

#[test]
fn null_test_decodes_are_bit_identical() {
    let data = wav_bytes(32000, 1, 32000);
    let a = decode_all(data.clone(), Some("wav".to_string())).unwrap();
    let b = decode_all(data, Some("wav".to_string())).unwrap();
    assert_eq!(a, b);
}

#[test]
fn compare_detects_differences() {
    let a: Vec<u32> = vec![1, 2, 3, 4];
    let mut b = a.clone();
    b[2] = 9;
    let out = compare_decodes(&a, &b);
    assert!(!out.passed);
    assert_eq!(out.diff_samples, 1);
    assert_eq!(out.total_samples, 4);

    // a pure length mismatch also fails
    let c: Vec<u32> = vec![1, 2, 3];
    let out = compare_decodes(&a, &c);
    assert!(!out.passed);
    assert_eq!(out.diff_samples, 1);
    assert_eq!(out.total_samples, 3);

    // equal streams pass
    let out = compare_decodes(&a, &a.clone());
    assert!(out.passed);
    assert_eq!(out.diff_samples, 0);
}

#[test]
fn seek_within_the_track_succeeds() {
    let data = wav_bytes(44100, 1, 3 * 44100);
    let mut d = AudioDecoder::open(data, Some("wav".to_string())).unwrap();
    assert!(d.seek(1000).is_ok());
    // decoding continues from near the seek point to the end
    let mut total: usize = 0;
    loop {
        match d.next_samples() {
            Ok(chunk) => total += chunk.len(),
            Err(DecodeStatus::EndOfStream) => break,
            Err(DecodeStatus::Error(e)) => panic!("decode failed: {}", e),
        }
    }
    assert!(total <= 2 * 44100 + 8192);
}

#[test]
fn seek_past_eof_fails_and_stream_still_ends() {
    // seeking to 10 s in a 3 s file is out of range: the seek reports the
    // failure and the decoder continues from its previous position, so the
    // stream still drains to EndOfStream
    let data = wav_bytes(44100, 1, 3 * 44100);
    let mut d = AudioDecoder::open(data, Some("wav".to_string())).unwrap();
    assert!(d.seek(10000).is_err());
    let mut total: usize = 0;
    loop {
        match d.next_samples() {
            Ok(chunk) => total += chunk.len(),
            Err(DecodeStatus::EndOfStream) => break,
            Err(DecodeStatus::Error(e)) => panic!("decode failed: {}", e),
        }
    }
    assert_eq!(total, 3 * 44100);
}

#[test]
fn open_rejects_garbage() {
    let data: Vec<u8> = vec![0x42u8; 64];
    assert!(AudioDecoder::open(data, None).is_err());
}

#[test]
fn bit_perfect_path_reproduces_decoded_samples() {
    // decoder output through the ring and a bit-perfect callback: the
    // emitted data is the decoded stream, bit for bit
    let data = wav_bytes(44100, 2, 4096);
    let decoded = decode_all(data, Some("wav".to_string())).unwrap();
    let mut ring = RingBuffer::new(131072);
    assert_eq!(ring.write(&decoded), decoded.len());

    let mut cb = CallbackState::new(2);
    let mut emitted: Vec<u32> = Vec::new();
    while ring.available_read() >= 1024 {
        let r = render(&mut cb, &mut ring, 1024, true);
        assert!(r.ops.iter().all(|op| *op == SampleOp::Keep));
        emitted.extend_from_slice(&r.data);
    }
    assert_eq!(&emitted[..], &decoded[..emitted.len()]);
    assert!(emitted.len() >= decoded.len() - 1024);
}

#[test]
fn null_test_errors_name_the_failing_pass() {
    // bytes no container matches: the first decode pass fails to open,
    // and the error says so
    let garbage: Vec<u8> = vec![0x42u8; 64];
    let err = match run_null_test(&garbage, None) {
        Err(e) => e,
        Ok(_) => panic!("garbage must not decode"),
    };
    assert!(err.starts_with("Decode pass 1 failed: "), "{}", err);
}
