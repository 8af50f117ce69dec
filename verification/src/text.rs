//! Verified text helpers: character extraction, whitespace trimming,
//! suffix stripping, and parsing of plain decimal numbers into scaled
//! integers. Replay-gain tags carry values like "-7.5 dB" and "0.988";
//! this library stores them as integers in fixed decimal units, so the
//! parser here maps a digit string with an optional sign and decimal dot
//! to `round-toward-zero(value * 10^decimals)`.

use vstd::prelude::*;

verus! {

/// The view of an ASCII space, tab, carriage return or line feed.
pub open spec fn spec_is_space(c: char) -> bool {
    c == ' ' || c == '\t' || c == '\r' || c == '\n'
}

/// A decimal digit (code points 48 through 57).
pub open spec fn spec_is_digit(c: char) -> bool {
    48 <= c as int && c as int <= 57
}

/// The numeric value of a digit.
pub open spec fn spec_digit(c: char) -> int {
    c as int - 48
}

/// The value of a pure digit string, most significant first.
pub open spec fn spec_digits_val(s: Seq<char>) -> int
    decreases s.len(),
{
    if s.len() == 0 {
        0
    } else {
        spec_digits_val(s.drop_last()) * 10 + spec_digit(s.last())
    }
}

/// Every character is a digit.
pub open spec fn spec_all_digits(s: Seq<char>) -> bool {
    forall|i: int| 0 <= i < s.len() ==> spec_is_digit(#[trigger] s[i])
}

/// Ten to the `n`.
pub open spec fn spec_pow10(n: int) -> int
    decreases n,
{
    if n <= 0 {
        1
    } else {
        10 * spec_pow10(n - 1)
    }
}

/// Index of the first dot, or the length if there is none.
pub open spec fn spec_find_dot(s: Seq<char>) -> int
    decreases s.len(),
{
    if s.len() == 0 {
        0
    } else if s[0] == '.' {
        0
    } else {
        1 + spec_find_dot(s.skip(1))
    }
}

/// Longest prefix without the leading and trailing characters that are
/// ASCII whitespace.
pub open spec fn spec_trim(s: Seq<char>) -> Seq<char>
    decreases s.len(),
{
    if s.len() == 0 {
        s
    } else if spec_is_space(s[0]) {
        spec_trim(s.skip(1))
    } else if spec_is_space(s.last()) {
        spec_trim(s.drop_last())
    } else {
        s
    }
}

/// `s` with every trailing repetition of `suf` removed, as
/// `str::trim_end_matches` does for a non-empty pattern.
pub open spec fn spec_strip_all_suffix(s: Seq<char>, suf: Seq<char>) -> Seq<char>
    decreases s.len(),
{
    if suf.len() > 0 && s.len() >= suf.len() && s.skip(s.len() - suf.len()) == suf {
        spec_strip_all_suffix(s.take(s.len() - suf.len()), suf)
    } else {
        s
    }
}

/// Largest number of leading integer digits the parser accepts; enough for
/// any sane tag and small enough that the scaled value fits an `i64`.
pub const MAX_INT_DIGITS: usize = 12;

/// Number of fractional digits kept by the parser.
pub const MAX_FRAC_DIGITS: usize = 6;

/// What parsing `s` as a plain decimal, scaled by `10^decimals`, yields:
/// an optional sign, digits, at most one dot, at least one digit in all,
/// at most `MAX_INT_DIGITS` integer digits; fractional digits beyond
/// `decimals` are dropped (truncation toward zero). Anything else is
/// rejected. Exponents and the words infinity and NaN are not numbers
/// here.
pub open spec fn spec_parse_scaled(s: Seq<char>, decimals: int) -> Option<i64> {
    if s.len() == 0 {
        None
    } else {
        let neg = s[0] == '-';
        let body = if s[0] == '-' || s[0] == '+' {
            s.skip(1)
        } else {
            s
        };
        let d = spec_find_dot(body);
        let ip = body.take(d);
        let fp = if d < body.len() {
            body.skip(d + 1)
        } else {
            Seq::empty()
        };
        if ip.len() + fp.len() >= 1 && spec_all_digits(ip) && spec_all_digits(fp) && ip.len()
            <= MAX_INT_DIGITS && 0 <= decimals <= MAX_FRAC_DIGITS {
            let kept = if fp.len() <= decimals {
                fp
            } else {
                fp.take(decimals)
            };
            let v = spec_digits_val(ip) * spec_pow10(decimals) + spec_digits_val(kept)
                * spec_pow10(decimals - kept.len());
            Some((if neg { -v } else { v }) as i64)
        } else {
            None
        }
    }
}

/// A character's code point, usable on both sides of the spec boundary.
pub fn char_code(c: char) -> (r: u32)
    ensures
        r as int == c as int,
{
    c as u32
}

/// Relies on String::push: appends one character to the string.
#[verifier::external_body]
pub fn push_char(s: &mut String, c: char)
    ensures
        final(s)@ == old(s)@.push(c),
{
    s.push(c);
}

/// Build a string from its characters.
pub fn string_from_chars(v: &Vec<char>) -> (r: String)
    ensures
        r@ == v@,
{
    let mut r = String::new();
    let mut i: usize = 0;
    while i < v.len()
        invariant
            i <= v@.len(),
            r@.len() == i,
            forall|j: int| 0 <= j < i ==> r@[j] == v@[j],
        decreases v@.len() - i,
    {
        push_char(&mut r, v[i]);
        i = i + 1;
    }
    proof {
        assert(r@ =~= v@);
    }
    r
}

/// The characters of a string, in order.
pub fn chars_of(s: &str) -> (r: Vec<char>)
    ensures
        r@ == s@,
{
    let n = s.unicode_len();
    let mut r: Vec<char> = Vec::new();
    let mut i: usize = 0;
    while i < n
        invariant
            i <= n,
            n == s@.len(),
            r@.len() == i,
            forall|j: int| 0 <= j < i ==> r@[j] == s@[j],
        decreases n - i,
    {
        let c = s.get_char(i);
        r.push(c);
        i = i + 1;
    }
    proof {
        assert(r@ =~= s@);
    }
    r
}

fn is_space(c: char) -> (r: bool)
    ensures
        r == spec_is_space(c),
{
    c == ' ' || c == '\t' || c == '\r' || c == '\n'
}

/// Drop leading and trailing ASCII whitespace.
pub fn trim_chars(s: &Vec<char>) -> (r: Vec<char>)
    ensures
        r@ == spec_trim(s@),
{
    let mut lo: usize = 0;
    let mut hi: usize = s.len();
    proof {
        assert(s@.subrange(0, s@.len() as int) =~= s@);
    }
    while lo < hi && is_space(s[lo])
        invariant
            lo <= hi <= s@.len(),
            spec_trim(s@) == spec_trim(s@.subrange(lo as int, hi as int)),
        decreases hi - lo,
    {
        proof {
            assert(s@.subrange(lo as int, hi as int).skip(1) =~= s@.subrange(
                lo + 1,
                hi as int,
            ));
        }
        lo = lo + 1;
    }
    while lo < hi && is_space(s[hi - 1])
        invariant
            lo <= hi <= s@.len(),
            spec_trim(s@) == spec_trim(s@.subrange(lo as int, hi as int)),
            lo < hi ==> !spec_is_space(s@[lo as int]),
        decreases hi - lo,
    {
        proof {
            assert(s@.subrange(lo as int, hi as int).drop_last() =~= s@.subrange(
                lo as int,
                hi - 1,
            ));
        }
        hi = hi - 1;
    }
    let mut r: Vec<char> = Vec::new();
    let mut i: usize = lo;
    while i < hi
        invariant
            lo <= i <= hi <= s@.len(),
            r@.len() == i - lo,
            forall|j: int| 0 <= j < i - lo ==> r@[j] == s@[lo + j],
        decreases hi - i,
    {
        r.push(s[i]);
        i = i + 1;
    }
    proof {
        assert(r@ =~= s@.subrange(lo as int, hi as int));
        if lo < hi {
            assert(spec_trim(s@.subrange(lo as int, hi as int)) =~= s@.subrange(
                lo as int,
                hi as int,
            ));
        } else {
            assert(s@.subrange(lo as int, hi as int) =~= Seq::<char>::empty());
        }
    }
    r
}

/// Whether `s` ends with `suf`.
fn ends_with(s: &Vec<char>, suf: &Vec<char>) -> (r: bool)
    ensures
        r == (s@.len() >= suf@.len() && s@.skip(s@.len() - suf@.len()) == suf@),
{
    if s.len() < suf.len() {
        proof {
            assert(!(s@.len() >= suf@.len()));
        }
        return false;
    }
    let off = s.len() - suf.len();
    let suflen = suf.len();
    let slen = s.len();
    let mut i: usize = 0;
    while i < suflen
        invariant
            i <= suflen,
            suflen == suf@.len(),
            slen == s@.len(),
            off == s@.len() - suf@.len(),
            s@.len() >= suf@.len(),
            forall|j: int| 0 <= j < i ==> s@[off + j] == suf@[j],
        decreases suflen - i,
    {
        if s[off + i] != suf[i] {
            proof {
                assert(s@.skip(off as int)[i as int] != suf@[i as int]);
            }
            return false;
        }
        i = i + 1;
    }
    proof {
        assert(s@.skip(off as int) =~= suf@);
    }
    true
}

/// Remove every trailing repetition of `suf` from `s`.
pub fn strip_all_suffix(s: &Vec<char>, suf: &Vec<char>) -> (r: Vec<char>)
    requires
        suf@.len() > 0,
    ensures
        r@ == spec_strip_all_suffix(s@, suf@),
    decreases s@.len(),
{
    if ends_with(s, suf) {
        let keep = s.len() - suf.len();
        let mut shorter: Vec<char> = Vec::new();
        let mut i: usize = 0;
        while i < keep
            invariant
                i <= keep,
                keep <= s@.len(),
                shorter@.len() == i,
                forall|j: int| 0 <= j < i ==> shorter@[j] == s@[j],
            decreases keep - i,
        {
            shorter.push(s[i]);
            i = i + 1;
        }
        proof {
            assert(shorter@ =~= s@.take(keep as int));
        }
        strip_all_suffix(&shorter, suf)
    } else {
        let mut r: Vec<char> = Vec::new();
        let mut i: usize = 0;
        while i < s.len()
            invariant
                i <= s@.len(),
                r@.len() == i,
                forall|j: int| 0 <= j < i ==> r@[j] == s@[j],
            decreases s@.len() - i,
        {
            r.push(s[i]);
            i = i + 1;
        }
        proof {
            assert(r@ =~= s@);
        }
        r
    }
}

/// Parse a plain decimal into an integer scaled by `10^decimals`,
/// truncating extra fractional digits toward zero. Returns `None` exactly
/// where `spec_parse_scaled` does.
#[verifier::rlimit(60)]
pub fn parse_scaled(s: &Vec<char>, decimals: usize) -> (r: Option<i64>)
    requires
        decimals <= MAX_FRAC_DIGITS,
    ensures
        r == spec_parse_scaled(s@, decimals as int),
{
    if s.len() == 0 {
        return None;
    }
    let ch0 = s[0];
    let neg = ch0 == '-';
    let start: usize = if ch0 == '-' || ch0 == '+' {
        1
    } else {
        0
    };
    let ghost body = s@.skip(start as int);
    proof {
        if start == 0 {
            assert(body =~= s@);
        }
    }

    // find the dot
    let mut d: usize = start;
    while d < s.len() && s[d] != '.'
        invariant
            1 <= s@.len(),
            start <= 1,
            start <= d <= s@.len(),
            forall|j: int| start <= j < d ==> s@[j] != '.',
        decreases s@.len() - d,
    {
        d = d + 1;
    }
    proof {
        assert forall|j: int| 0 <= j < d - start implies body[j] != '.' by {
            assert(body[j] == s@[j + start]);
        }
        if d < s@.len() {
            assert(body[d - start] == s@[d as int]);
        }
        lemma_find_dot_at(body, d - start);
    }
    let ghost ip = body.take(d - start);
    let ghost fps = if d < s@.len() {
        body.skip(d - start + 1)
    } else {
        Seq::<char>::empty()
    };
    proof {
        assert(ip.len() == d - start);
        if d < s@.len() {
            assert(fps.len() == s@.len() - d - 1);
            assert forall|j: int| 0 <= j < fps.len() implies fps[j] == s@[d + 1 + j] by {
                assert(fps[j] == body[j + (d - start + 1)]);
                assert(body[j + (d - start + 1)] == s@[j + (d - start + 1) + start]);
            }
        }
    }

    let ip_len = d - start;
    if ip_len > MAX_INT_DIGITS {
        return None;
    }

    // integer part
    proof {
        lemma_pow10_mono(0, MAX_INT_DIGITS as int);
        assert(spec_pow10(MAX_INT_DIGITS as int) == 1_000_000_000_000) by {
            reveal_with_fuel(spec_pow10, 13);
        };
        assert(body.take(0) =~= Seq::<char>::empty());
    }
    let mut acc: i64 = 0;
    let mut i: usize = start;
    while i < d
        invariant
            1 <= s@.len(),
            start <= 1,
            start <= i <= d <= s@.len(),
            d - start <= MAX_INT_DIGITS,
            body == s@.skip(start as int),
            start == 0 ==> body == s@,
            neg == (s@[0] == '-'),
            (start == 1) <==> (s@[0] == '-' || s@[0] == '+'),
            spec_find_dot(body) == d - start,
            spec_all_digits(body.take(i - start)),
            acc == spec_digits_val(body.take(i - start)),
            0 <= acc,
            acc < spec_pow10(i - start),
            spec_pow10(MAX_INT_DIGITS as int) == 1_000_000_000_000,
        decreases d - i,
    {
        let c = s[i];
        proof {
            assert(body[i - start] == s@[i as int]);
        }
        if c < '0' || c > '9' {
            proof {
                assert(!spec_is_digit(body[i - start]));
                assert(body.take(d - start)[i - start] == body[i - start]);
                assert(!spec_all_digits(body.take(d - start)));
            }
            return None;
        }
        proof {
            lemma_pow10_mono(i + 1 - start, MAX_INT_DIGITS as int);
            assert(spec_pow10(i + 1 - start) == 10 * spec_pow10(i - start));
            assert(body.take(i + 1 - start).drop_last() =~= body.take(i - start));
            assert(body.take(i + 1 - start).last() == body[i - start]);
            assert forall|j: int| 0 <= j < i + 1 - start implies spec_is_digit(
                #[trigger] body.take(i + 1 - start)[j],
            ) by {
                if j < i - start {
                    assert(body.take(i - start)[j] == body.take(i + 1 - start)[j]);
                }
            }
        }
        let cv = c as u32;
        acc = acc * 10 + (cv as i64 - 48);
        i = i + 1;
    }

    proof {
        lemma_pow10_mono((d - start) as int, MAX_INT_DIGITS as int);
    }

    // fractional part
    proof {
        assert(fps.take(0) =~= Seq::<char>::empty());
        lemma_pow10_mono(0, MAX_FRAC_DIGITS as int);
        assert(spec_pow10(MAX_FRAC_DIGITS as int) == 1_000_000) by {
            reveal_with_fuel(spec_pow10, 7);
        };
    }
    let mut frac: i64 = 0;
    let mut kept: usize = 0;
    let fstart: usize = if d < s.len() {
        d + 1
    } else {
        d
    };
    let mut j: usize = fstart;
    while j < s.len()
        invariant
            1 <= s@.len(),
            start <= 1,
            start <= d <= s@.len(),
            body == s@.skip(start as int),
            start == 0 ==> body == s@,
            neg == (s@[0] == '-'),
            (start == 1) <==> (s@[0] == '-' || s@[0] == '+'),
            spec_find_dot(body) == d - start,
            fps == (if d < s@.len() {
                body.skip(d - start + 1)
            } else {
                Seq::<char>::empty()
            }),
            fstart == (if d < s@.len() {
                d + 1
            } else {
                d as int
            }),
            fstart <= j <= s@.len(),
            d < s@.len() ==> fps.len() == s@.len() - fstart,
            d >= s@.len() ==> (fps.len() == 0 && j == d),
            spec_all_digits(fps.take(j - fstart)),
            kept == vstd::math::min((j - fstart) as int, decimals as int),
            frac == spec_digits_val(fps.take(kept as int)),
            0 <= frac,
            frac < spec_pow10(kept as int),
            kept <= decimals <= MAX_FRAC_DIGITS,
            spec_pow10(MAX_FRAC_DIGITS as int) == 1_000_000,
        decreases s@.len() - j,
    {
        let c = s[j];
        proof {
            assert(fps[j - fstart] == body[(j - fstart) + (d - start + 1)]);
            assert(body[(j - fstart) + (d - start + 1)] == s@[j as int]);
        }
        if c < '0' || c > '9' {
            proof {
                assert(!spec_is_digit(fps[j - fstart]));
                assert(!spec_all_digits(fps));
            }
            return None;
        }
        if kept < decimals {
            proof {
                lemma_pow10_mono(kept + 1, MAX_FRAC_DIGITS as int);
                assert(spec_pow10(kept + 1) == 10 * spec_pow10(kept as int));
                assert(fps.take(kept + 1).drop_last() =~= fps.take(kept as int));
                assert(fps.take(kept + 1).last() == fps[kept as int]);
                assert(fps[kept as int] == fps[j - fstart]);
            }
            let cv = c as u32;
            frac = frac * 10 + (cv as i64 - 48);
            kept = kept + 1;
        }
        proof {
            assert forall|jj: int| 0 <= jj < j + 1 - fstart implies spec_is_digit(
                #[trigger] fps.take(j + 1 - fstart)[jj],
            ) by {
                if jj < j - fstart {
                    assert(fps.take(j - fstart)[jj] == fps.take(j + 1 - fstart)[jj]);
                } else {
                    assert(fps.take(j + 1 - fstart)[jj] == fps[j - fstart]);
                }
            }
        }
        j = j + 1;
    }
    proof {
        assert(fps.take(fps.len() as int) =~= fps);
    }

    if ip_len == 0 && s.len() == fstart {
        // neither integer nor fractional digits
        return None;
    }

    // assemble: acc * 10^decimals + frac * 10^(decimals - kept)
    let scale = pow10_exec(decimals);
    let pad = pow10_exec(decimals - kept);
    proof {
        lemma_pow10_mono(kept as int, MAX_FRAC_DIGITS as int);
        lemma_pow10_mono(decimals as int, MAX_FRAC_DIGITS as int);
        lemma_pow10_mono((decimals - kept) as int, MAX_FRAC_DIGITS as int);
        assert(spec_pow10(MAX_FRAC_DIGITS as int) == 1_000_000) by {
            reveal_with_fuel(spec_pow10, 7);
        };
        assert(acc * scale <= 999_999_999_999 * 1_000_000int) by (nonlinear_arith)
            requires
                0 <= acc <= 999_999_999_999,
                0 <= scale <= 1_000_000,
        ;
        assert(0 <= acc * scale) by (nonlinear_arith)
            requires
                0 <= acc,
                0 <= scale,
        ;
        assert(frac * pad <= 999_999 * 1_000_000int) by (nonlinear_arith)
            requires
                0 <= frac <= 999_999,
                0 <= pad <= 1_000_000,
        ;
        assert(0 <= frac * pad) by (nonlinear_arith)
            requires
                0 <= frac,
                0 <= pad,
        ;
    }
    let v = acc * scale + frac * pad;
    let r = if neg {
        -v
    } else {
        v
    };
    proof {
        let kspec = if fps.len() <= decimals {
            fps
        } else {
            fps.take(decimals as int)
        };
        assert(kspec =~= fps.take(kept as int));
        assert(kept as int == kspec.len());
        assert(ip =~= body.take(d - start));
    }
    Some(r)
}

/// `10^n` for small `n`.
fn pow10_exec(n: usize) -> (r: i64)
    requires
        n <= MAX_FRAC_DIGITS,
    ensures
        r == spec_pow10(n as int),
{
    let mut r: i64 = 1;
    let mut i: usize = 0;
    proof {
        assert(spec_pow10(MAX_FRAC_DIGITS as int) == 1_000_000) by {
            reveal_with_fuel(spec_pow10, 7);
        };
    }
    while i < n
        invariant
            i <= n <= MAX_FRAC_DIGITS,
            r == spec_pow10(i as int),
            spec_pow10(MAX_FRAC_DIGITS as int) == 1_000_000,
        decreases n - i,
    {
        proof {
            lemma_pow10_mono((i + 1) as int, MAX_FRAC_DIGITS as int);
            assert(spec_pow10(i + 1) == 10 * spec_pow10(i as int));
        }
        r = r * 10;
        i = i + 1;
    }
    r
}

/// `spec_pow10` is monotone.
pub proof fn lemma_pow10_mono(a: int, b: int)
    requires
        a <= b,
    ensures
        spec_pow10(a) <= spec_pow10(b),
        1 <= spec_pow10(a),
    decreases b - a,
{
    if a < b {
        lemma_pow10_mono(a, b - 1);
    } else {
        lemma_pow10_pos(a);
    }
}

proof fn lemma_pow10_pos(a: int)
    ensures
        1 <= spec_pow10(a),
    decreases (if a > 0 {
        a
    } else {
        0
    }),
{
    if a > 0 {
        lemma_pow10_pos(a - 1);
    }
}

proof fn lemma_mul_bounds_simple(x: int, y: int)
    requires
        0 <= x,
        1 <= y,
    ensures
        x <= x * y,
        0 <= x * y,
    decreases y,
{
    if y > 1 {
        lemma_mul_bounds_simple(x, y - 1);
        assert(x * y == x * (y - 1) + x) by (nonlinear_arith);
    }
}

/// Where the scan stopped is where the first dot is.
proof fn lemma_find_dot_at(s: Seq<char>, d: int)
    requires
        0 <= d <= s.len(),
        forall|j: int| 0 <= j < d ==> s[j] != '.',
        d < s.len() ==> s[d] == '.',
    ensures
        spec_find_dot(s) == d,
    decreases d,
{
    if d > 0 {
        lemma_find_dot_at(s.skip(1), d - 1);
    }
}

} // verus!
