//! Library scanning: recognising audio files and ordering scan results.
//!
//! The host walks the directory tree (file-system work) and hands the
//! entries' paths in; this module keeps the decisions: which paths count
//! as audio files -- by their extension, compared case-insensitively in
//! ASCII against the supported set -- and the sorted order of the result.

use vstd::prelude::*;
use crate::meta::{after_last, spec_after_last, spec_extension, spec_file_name};
use crate::text::{char_code, chars_of};

verus! {

/// Lowercase an ASCII letter; anything else passes through.
pub open spec fn spec_ascii_lower(c: char) -> char {
    match c {
        'A' => 'a',
        'B' => 'b',
        'C' => 'c',
        'D' => 'd',
        'E' => 'e',
        'F' => 'f',
        'G' => 'g',
        'H' => 'h',
        'I' => 'i',
        'J' => 'j',
        'K' => 'k',
        'L' => 'l',
        'M' => 'm',
        'N' => 'n',
        'O' => 'o',
        'P' => 'p',
        'Q' => 'q',
        'R' => 'r',
        'S' => 's',
        'T' => 't',
        'U' => 'u',
        'V' => 'v',
        'W' => 'w',
        'X' => 'x',
        'Y' => 'y',
        'Z' => 'z',
        _ => c,
    }
}

fn ascii_lower(c: char) -> (r: char)
    ensures
        r == spec_ascii_lower(c),
{
    match c {
        'A' => 'a',
        'B' => 'b',
        'C' => 'c',
        'D' => 'd',
        'E' => 'e',
        'F' => 'f',
        'G' => 'g',
        'H' => 'h',
        'I' => 'i',
        'J' => 'j',
        'K' => 'k',
        'L' => 'l',
        'M' => 'm',
        'N' => 'n',
        'O' => 'o',
        'P' => 'p',
        'Q' => 'q',
        'R' => 'r',
        'S' => 's',
        'T' => 't',
        'U' => 'u',
        'V' => 'v',
        'W' => 'w',
        'X' => 'x',
        'Y' => 'y',
        'Z' => 'z',
        _ => c,
    }
}

/// Whether an extension, ASCII-lowercased, is one of the supported audio
/// formats: flac, mp3, wav, ogg, m4a, aac, wma, alac, ape, opus.
pub open spec fn spec_is_audio_ext(e: Seq<char>) -> bool {
    let l = Seq::new(e.len(), |i: int| spec_ascii_lower(e[i]));
    ||| (l.len() == 4 && l[0] == 'f' && l[1] == 'l' && l[2] == 'a' && l[3] == 'c')
    ||| (l.len() == 3 && l[0] == 'm' && l[1] == 'p' && l[2] == '3')
    ||| (l.len() == 3 && l[0] == 'w' && l[1] == 'a' && l[2] == 'v')
    ||| (l.len() == 3 && l[0] == 'o' && l[1] == 'g' && l[2] == 'g')
    ||| (l.len() == 3 && l[0] == 'm' && l[1] == '4' && l[2] == 'a')
    ||| (l.len() == 3 && l[0] == 'a' && l[1] == 'a' && l[2] == 'c')
    ||| (l.len() == 3 && l[0] == 'w' && l[1] == 'm' && l[2] == 'a')
    ||| (l.len() == 4 && l[0] == 'a' && l[1] == 'l' && l[2] == 'a' && l[3] == 'c')
    ||| (l.len() == 3 && l[0] == 'a' && l[1] == 'p' && l[2] == 'e')
    ||| (l.len() == 4 && l[0] == 'o' && l[1] == 'p' && l[2] == 'u' && l[3] == 's')
}

/// A path is an audio file when its file name has an extension and that
/// extension is a supported audio format.
pub open spec fn spec_is_audio_file(path: Seq<char>) -> bool {
    match spec_extension(spec_file_name(path)) {
        Some(e) => spec_is_audio_ext(e),
        None => false,
    }
}

/// Whether this path names an audio file the scanner keeps.
pub fn is_audio_file(path: &String) -> (r: bool)
    ensures
        r == spec_is_audio_file(path@),
{
    let cs = chars_of(path.as_str());
    let name = after_last(&cs, '/');
    let ext = after_last(&name, '.');
    if !(ext.len() < name.len() && name.len() - ext.len() > 1) {
        proof {
            assert(spec_after_last(name@, '.') <= 1);
        }
        return false;
    }
    proof {
        assert(spec_after_last(name@, '.') > 1);
    }
    let n = ext.len();
    if n != 3 && n != 4 {
        return false;
    }
    let mut l: Vec<char> = Vec::new();
    let mut i: usize = 0;
    while i < n
        invariant
            i <= n,
            n == ext@.len(),
            l@.len() == i,
            forall|j: int| 0 <= j < i ==> l@[j] == spec_ascii_lower(ext@[j]),
        decreases n - i,
    {
        l.push(ascii_lower(ext[i]));
        i = i + 1;
    }
    proof {
        assert(l@ =~= Seq::new(ext@.len(), |j: int| spec_ascii_lower(ext@[j])));
    }
    if n == 4 {
        (l[0] == 'f' && l[1] == 'l' && l[2] == 'a' && l[3] == 'c') || (l[0] == 'a' && l[1] == 'l'
            && l[2] == 'a' && l[3] == 'c') || (l[0] == 'o' && l[1] == 'p' && l[2] == 'u' && l[3]
            == 's')
    } else {
        (l[0] == 'm' && l[1] == 'p' && l[2] == '3') || (l[0] == 'w' && l[1] == 'a' && l[2] == 'v')
            || (l[0] == 'o' && l[1] == 'g' && l[2] == 'g') || (l[0] == 'm' && l[1] == '4' && l[2]
            == 'a') || (l[0] == 'a' && l[1] == 'a' && l[2] == 'c') || (l[0] == 'w' && l[1] == 'm'
            && l[2] == 'a') || (l[0] == 'a' && l[1] == 'p' && l[2] == 'e')
    }
}

/// Lexicographic order on strings by code point, the order `sort` on
/// `Vec<String>` uses (UTF-8 byte order and code-point order agree).
pub open spec fn spec_str_le(a: Seq<char>, b: Seq<char>) -> bool
    decreases a.len(),
{
    if a.len() == 0 {
        true
    } else if b.len() == 0 {
        false
    } else if (a[0] as int) < (b[0] as int) {
        true
    } else if (a[0] as int) > (b[0] as int) {
        false
    } else {
        spec_str_le(a.skip(1), b.skip(1))
    }
}

/// The order is total.
pub proof fn lemma_str_le_total(a: Seq<char>, b: Seq<char>)
    ensures
        spec_str_le(a, b) || spec_str_le(b, a),
    decreases a.len(),
{
    if a.len() > 0 && b.len() > 0 && a[0] == b[0] {
        lemma_str_le_total(a.skip(1), b.skip(1));
    }
}

/// The order is transitive.
pub proof fn lemma_str_le_trans(a: Seq<char>, b: Seq<char>, c: Seq<char>)
    requires
        spec_str_le(a, b),
        spec_str_le(b, c),
    ensures
        spec_str_le(a, c),
    decreases a.len(),
{
    if a.len() > 0 && b.len() > 0 && c.len() > 0 && a[0] == b[0] && b[0] == c[0] {
        lemma_str_le_trans(a.skip(1), b.skip(1), c.skip(1));
    }
}

/// Compare two strings in the lexicographic order.
pub fn str_le(a: &String, b: &String) -> (r: bool)
    ensures
        r == spec_str_le(a@, b@),
{
    let ca = chars_of(a.as_str());
    let cb = chars_of(b.as_str());
    let mut i: usize = 0;
    proof {
        assert(a@.skip(0) =~= a@);
        assert(b@.skip(0) =~= b@);
    }
    while i < ca.len() && i < cb.len()
        invariant
            i <= ca@.len(),
            i <= cb@.len(),
            ca@ == a@,
            cb@ == b@,
            spec_str_le(a@, b@) == spec_str_le(a@.skip(i as int), b@.skip(i as int)),
            forall|j: int| 0 <= j < i ==> a@[j] == b@[j],
        decreases ca@.len() - i,
    {
        let x = char_code(ca[i]);
        let y = char_code(cb[i]);
        proof {
            assert(a@.skip(i as int)[0] == a@[i as int]);
            assert(b@.skip(i as int)[0] == b@[i as int]);
        }
        if x < y {
            return true;
        }
        if x > y {
            return false;
        }
        proof {
            assert(a@[i as int] == b@[i as int]);
            assert(a@.skip(i as int).skip(1) =~= a@.skip(i + 1));
            assert(b@.skip(i as int).skip(1) =~= b@.skip(i + 1));
        }
        i = i + 1;
    }
    proof {
        if i >= a@.len() {
            assert(a@.skip(i as int).len() == 0);
        } else {
            assert(b@.skip(i as int).len() == 0);
            assert(a@.skip(i as int).len() > 0);
        }
    }
    ca.len() <= i
}

/// Sorted in the lexicographic order.
pub open spec fn spec_sorted(s: Seq<String>) -> bool {
    forall|i: int, j: int| 0 <= i < j < s.len() ==> spec_str_le(s[i]@, s[j]@)
}

/// The audio files among the entries, in the order they were found.
pub open spec fn spec_audio_files(entries: Seq<String>) -> Seq<String>
    decreases entries.len(),
{
    if entries.len() == 0 {
        Seq::empty()
    } else if spec_is_audio_file(entries.last()@) {
        spec_audio_files(entries.drop_last()).push(entries.last())
    } else {
        spec_audio_files(entries.drop_last())
    }
}

/// Inserting anywhere adds exactly one occurrence to the multiset.
proof fn lemma_insert_to_multiset(s: Seq<String>, p: int, x: String)
    requires
        0 <= p <= s.len(),
    ensures
        s.insert(p, x).to_multiset() =~= s.to_multiset().insert(x),
{
    broadcast use vstd::seq_lib::group_to_multiset_ensures;
    broadcast use vstd::multiset::group_multiset_axioms;

    assert(s.insert(p, x) =~= s.take(p).push(x) + s.skip(p));
    vstd::seq_lib::lemma_multiset_commutative(s.take(p).push(x), s.skip(p));
    assert(s.take(p).push(x).to_multiset() =~= s.take(p).to_multiset().insert(x));
    assert(s =~= s.take(p) + s.skip(p));
    vstd::seq_lib::lemma_multiset_commutative(s.take(p), s.skip(p));
}

/// Insert a path into a sorted vector, keeping it sorted; the contents
/// gain exactly that path.
fn insert_sorted(v: &mut Vec<String>, x: String)
    requires
        spec_sorted(old(v)@),
    ensures
        spec_sorted(final(v)@),
        final(v)@.to_multiset() == old(v)@.to_multiset().insert(x),
        final(v)@.len() == old(v)@.len() + 1,
{
    let ghost x_view = x@;
    let mut p: usize = 0;
    while p < v.len() && !str_le(&x, &v[p])
        invariant
            p <= v@.len(),
            x@ == x_view,
            forall|k: int| 0 <= k < p ==> !spec_str_le(x_view, v@[k]@),
        decreases v@.len() - p,
    {
        p = p + 1;
    }
    let ghost old_v = v@;
    v.insert(p, x);
    proof {
        lemma_insert_to_multiset(old_v, p as int, x);
        assert forall|i: int, j: int| 0 <= i < j < v@.len() implies spec_str_le(
            v@[i]@,
            v@[j]@,
        ) by {
            if j < p {
                assert(v@[i] == old_v[i] && v@[j] == old_v[j]);
            } else if i > p {
                assert(v@[i] == old_v[i - 1] && v@[j] == old_v[j - 1]);
            } else if j == p {
                assert(v@[i] == old_v[i]);
                lemma_str_le_total(x_view, old_v[i]@);
            } else if i == p {
                assert(v@[j] == old_v[j - 1]);
                assert(spec_str_le(x_view, old_v[p as int]@));
                if j - 1 > p {
                    lemma_str_le_trans(x_view, old_v[p as int]@, old_v[j - 1]@);
                }
            } else {
                // i < p < j
                assert(v@[i] == old_v[i] && v@[j] == old_v[j - 1]);
            }
        }
    }
}

/// Scan results: of the entries the host's directory walk found, keep the
/// audio files and hand them back sorted. The result is exactly the audio
/// files among the entries (as a multiset) in lexicographic order.
pub fn scan_directory(entries: &Vec<String>) -> (r: Vec<String>)
    ensures
        spec_sorted(r@),
        r@.to_multiset() == spec_audio_files(entries@).to_multiset(),
{
    broadcast use vstd::seq_lib::group_to_multiset_ensures;

    let mut out: Vec<String> = Vec::new();
    let mut i: usize = 0;
    proof {
        assert(entries@.take(0) =~= Seq::<String>::empty());
    }
    while i < entries.len()
        invariant
            i <= entries@.len(),
            spec_sorted(out@),
            out@.to_multiset() == spec_audio_files(entries@.take(i as int)).to_multiset(),
        decreases entries@.len() - i,
    {
        proof {
            broadcast use vstd::seq_lib::group_to_multiset_ensures;

            assert(entries@.take(i + 1).drop_last() =~= entries@.take(i as int));
            assert(entries@.take(i + 1).last() == entries@[i as int]);
        }
        if is_audio_file(&entries[i]) {
            let item = entries[i].clone();
            insert_sorted(&mut out, item);
        }
        i = i + 1;
    }
    proof {
        assert(entries@.take(entries@.len() as int) =~= entries@);
    }
    out
}

} // verus!
