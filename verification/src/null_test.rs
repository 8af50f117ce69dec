//! Bit-perfect verification: decode a file twice, independently, and
//! compare every sample.
//!
//! The decode path is symphonia's; what this module establishes exactly is
//! the comparison: the test passes precisely when the two decoded sample
//! sequences are bit-identical. Decoding the same bytes twice through the
//! adapter and passing is therefore exactly decoder determinism, and since
//! the adapter hands out the very bit patterns the playback path carries,
//! a passing test certifies the data path introduces no noise.
//!
//! The host computes the float diff statistics (maximum and RMS of the
//! differences) from the two streams itself; `decode_all` hands them out.

use vstd::prelude::*;
use crate::decoder::{AudioDecoder, DecodeStatus};

verus! {

/// Outcome of a null test. `diff_samples` counts positions where the two
/// streams differ plus the length difference; `passed` holds exactly when
/// there is none of either.
pub struct NullTestResult {
    pub passed: bool,
    /// Samples compared: the length of the shorter stream.
    pub total_samples: u64,
    /// Positions that differ, plus the difference of the lengths.
    pub diff_samples: u64,
}

/// Number of positions below `n` where the two sequences differ.
pub open spec fn spec_mismatches(a: Seq<u32>, b: Seq<u32>, n: int) -> int
    decreases n,
{
    if n <= 0 {
        0
    } else {
        spec_mismatches(a, b, n - 1) + if a[n - 1] != b[n - 1] {
            1int
        } else {
            0int
        }
    }
}

/// There are never more mismatches than positions.
pub proof fn lemma_mismatches_bound(a: Seq<u32>, b: Seq<u32>, n: int)
    ensures
        0 <= spec_mismatches(a, b, n) <= (if n >= 0 {
            n
        } else {
            0
        }),
    decreases n,
{
    if n > 0 {
        lemma_mismatches_bound(a, b, n - 1);
    }
}

/// Zero mismatches below `n` means the first `n` positions agree.
pub proof fn lemma_no_mismatches(a: Seq<u32>, b: Seq<u32>, n: int)
    requires
        spec_mismatches(a, b, n) == 0,
    ensures
        forall|i: int| 0 <= i < n ==> a[i] == b[i],
    decreases n,
{
    if n > 0 {
        lemma_mismatches_bound(a, b, n - 1);
        lemma_no_mismatches(a, b, n - 1);
    }
}

/// Compare two decoded streams sample by sample. The verdict is exact:
/// `passed` holds if and only if the two sequences are equal, bit for bit
/// and in length; `diff_samples` is the number of differing positions plus
/// the length difference, and `total_samples` the compared length.
pub fn compare_decodes(a: &Vec<u32>, b: &Vec<u32>) -> (r: NullTestResult)
    ensures
        r.passed <==> a@ == b@,
        r.total_samples == vstd::math::min(a@.len() as int, b@.len() as int),
        r.diff_samples == spec_mismatches(a@, b@, vstd::math::min(a@.len() as int, b@.len() as int))
            + (if a@.len() >= b@.len() {
            a@.len() - b@.len()
        } else {
            b@.len() - a@.len()
        }),
{
    let len = if a.len() < b.len() {
        a.len()
    } else {
        b.len()
    };
    let mut diff: u64 = 0;
    let mut i: usize = 0;
    while i < len
        invariant
            i <= len,
            len == vstd::math::min(a@.len() as int, b@.len() as int),
            diff == spec_mismatches(a@, b@, i as int),
            diff <= i,
        decreases len - i,
    {
        proof {
            lemma_mismatches_bound(a@, b@, i as int);
        }
        if a[i] != b[i] {
            diff = diff + 1;
        }
        i = i + 1;
    }
    let len_diff: usize = if a.len() >= b.len() {
        a.len() - b.len()
    } else {
        b.len() - a.len()
    };
    let diff_samples = diff + (len_diff as u64);
    let passed = diff_samples == 0 && a.len() == b.len();
    proof {
        if passed {
            lemma_no_mismatches(a@, b@, len as int);
            assert(a@ =~= b@);
        }
        if a@ == b@ {
            lemma_equal_no_mismatches(a@, b@, len as int);
        }
    }
    NullTestResult { passed, total_samples: len as u64, diff_samples }
}

/// An exact copy of the bytes, so that each decode pass owns its input.
fn copy_bytes(v: &Vec<u8>) -> (r: Vec<u8>)
    ensures
        r@ == v@,
{
    let mut r: Vec<u8> = Vec::new();
    let mut i: usize = 0;
    while i < v.len()
        invariant
            i <= v@.len(),
            r@.len() == i,
            forall|j: int| 0 <= j < i ==> r@[j] == v@[j],
        decreases v@.len() - i,
    {
        r.push(v[i]);
        i = i + 1;
    }
    proof {
        assert(r@ =~= v@);
    }
    r
}

/// Chunks a single decode pass is willing to read before declaring the
/// stream endless.
pub const MAX_DECODE_CHUNKS: usize = 100000000;

/// Decode an entire stream to its interleaved sample bit patterns.
pub fn decode_all(data: Vec<u8>, ext_hint: Option<String>) -> (r: Result<Vec<u32>, String>) {
    let mut decoder = match AudioDecoder::open(data, ext_hint) {
        Ok(d) => d,
        Err(e) => {
            return Err(e);
        },
    };
    let mut samples: Vec<u32> = Vec::new();
    let mut chunks: usize = 0;
    while chunks < MAX_DECODE_CHUNKS
        invariant
            decoder.wf(),
        decreases MAX_DECODE_CHUNKS - chunks,
    {
        match decoder.next_samples() {
            Ok(mut chunk) => {
                samples.append(&mut chunk);
            },
            Err(DecodeStatus::EndOfStream) => {
                return Ok(samples);
            },
            Err(DecodeStatus::Error(e)) => {
                return Err(e);
            },
        }
        chunks = chunks + 1;
    }
    Err(String::from_str("stream did not end"))
}

/// The label in front of an error from the first decode pass.
pub open spec fn spec_pass1_label() -> Seq<char> {
    "Decode pass 1 failed: "@
}

/// The label in front of an error from the second decode pass.
pub open spec fn spec_pass2_label() -> Seq<char> {
    "Decode pass 2 failed: "@
}

/// Decode the file's bytes twice, independently, and compare. On both
/// passes succeeding, the verdict is exact: `passed` holds if and only if
/// the two decodes agree sample for sample, which `diff_samples == 0`
/// witnesses. A failure identifies which pass failed: the message is one
/// of the two pass labels followed by the underlying error text.
pub fn run_null_test(data: &Vec<u8>, ext_hint: Option<String>) -> (r: Result<
    NullTestResult,
    String,
>)
    ensures
        (match r {
            Ok(out) => out.passed <==> out.diff_samples == 0,
            Err(m) => m@.take(spec_pass1_label().len() as int) == spec_pass1_label() || m@.take(
                spec_pass2_label().len() as int,
            ) == spec_pass2_label(),
        }),
{
    let hint_a = match &ext_hint {
        Some(h) => Some(h.clone()),
        None => None,
    };
    let samples_a = match decode_all(copy_bytes(data), hint_a) {
        Ok(s) => s,
        Err(e) => {
            let m = String::from_str("Decode pass 1 failed: ").concat(e.as_str());
            proof {
                reveal_strlit("Decode pass 1 failed: ");
                assert(m@.take(spec_pass1_label().len() as int) =~= spec_pass1_label());
            }
            return Err(m);
        },
    };
    let samples_b = match decode_all(copy_bytes(data), ext_hint) {
        Ok(s) => s,
        Err(e) => {
            let m = String::from_str("Decode pass 2 failed: ").concat(e.as_str());
            proof {
                reveal_strlit("Decode pass 2 failed: ");
                assert(m@.take(spec_pass2_label().len() as int) =~= spec_pass2_label());
            }
            return Err(m);
        },
    };
    let out = compare_decodes(&samples_a, &samples_b);
    proof {
        let n = vstd::math::min(samples_a@.len() as int, samples_b@.len() as int);
        lemma_mismatches_bound(samples_a@, samples_b@, n);
        if out.diff_samples == 0 {
            lemma_no_mismatches(samples_a@, samples_b@, n);
            assert(samples_a@ =~= samples_b@);
        }
        if out.passed {
            lemma_equal_no_mismatches(samples_a@, samples_b@, n);
        }
    }
    Ok(out)
}

/// Null-test determinism, seen from inside the library: comparing any
/// stream against an equal stream passes with zero differing samples. A
/// deterministic decoder therefore always passes the null test.
pub proof fn lemma_null_test_reflexive(a: Seq<u32>, b: Seq<u32>)
    requires
        a == b,
    ensures
        spec_mismatches(a, b, vstd::math::min(a.len() as int, b.len() as int)) == 0,
    decreases a.len(),
{
    lemma_equal_no_mismatches(a, b, a.len() as int);
}

proof fn lemma_equal_no_mismatches(a: Seq<u32>, b: Seq<u32>, n: int)
    requires
        forall|i: int| 0 <= i < n ==> a[i] == b[i],
    ensures
        spec_mismatches(a, b, n) == 0,
    decreases n,
{
    if n > 0 {
        lemma_equal_no_mismatches(a, b, n - 1);
    }
}

} // verus!
