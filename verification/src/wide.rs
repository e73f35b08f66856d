//! Wide-character (UTF-16 code unit) buffers: encoding, decoding and
//! NUL scanning, with their mathematical specifications.
//!
//! Both foreign string encodings in this crate store text as sequences
//! of `u16` code units; the functions here are the shared ground truth
//! for what those sequences mean as text.

use vstd::arithmetic::div_mod::lemma_fundamental_div_mod;
use vstd::prelude::*;
use vstd::slice::slice_index_get;

verus! {

/// A single code unit that could not be paired during UTF-16 decoding:
/// a high surrogate with no following low surrogate, or a stray low
/// surrogate.
#[derive(Clone, Copy, Debug, PartialEq, Eq, Structural)]
pub struct Utf16DecodeError {
    /// The surrogate code unit that had no partner.
    pub unpaired: u16,
}

/// Strict decoding failed: the buffer holds at least one unpaired
/// surrogate.
#[derive(Clone, Copy, Debug, PartialEq, Eq, Structural)]
pub struct FromUtf16Error {}

/// The character substituted for undecodable code units by lossy decoding.
pub const REPLACEMENT_CHARACTER: char = '\u{FFFD}';

/// Index of the first zero code unit in `s`, or `s.len()` when none occurs.
pub open spec fn nul_scan_len(s: Seq<u16>) -> nat
    decreases s.len(),
{
    if s.len() == 0 {
        0
    } else if s[0] == 0 {
        0
    } else {
        1 + nul_scan_len(s.drop_first())
    }
}

/// The character whose Unicode scalar value is `v`.
pub open spec fn char_from_scalar(v: u32) -> char {
    v as char
}

/// A code unit reserved for the first half of a surrogate pair.
pub open spec fn is_high_surrogate(u: u16) -> bool {
    0xD800 <= u < 0xDC00
}

/// A code unit reserved for the second half of a surrogate pair.
pub open spec fn is_low_surrogate(u: u16) -> bool {
    0xDC00 <= u < 0xE000
}

/// A code unit that cannot stand for a character on its own.
pub open spec fn is_surrogate(u: u16) -> bool {
    0xD800 <= u < 0xE000
}

/// The scalar value encoded by the surrogate pair `hi`, `lo`.
pub open spec fn combine_surrogates(hi: u16, lo: u16) -> u32
    recommends
        is_high_surrogate(hi),
        is_low_surrogate(lo),
{
    (0x10000 + (hi - 0xD800) * 0x400 + (lo - 0xDC00)) as u32
}

/// The UTF-16 code units that encode the single character `c`.
pub open spec fn utf16_units(c: char) -> Seq<u16> {
    if (c as u32) < 0x10000 {
        seq![c as u32 as u16]
    } else {
        let v = c as u32 - 0x10000;
        seq![(0xD800 + v / 0x400) as u16, (0xDC00 + v % 0x400) as u16]
    }
}

/// The UTF-16 encoding of the character sequence `s`.
pub open spec fn encode_utf16(s: Seq<char>) -> Seq<u16>
    decreases s.len(),
{
    if s.len() == 0 {
        Seq::empty()
    } else {
        utf16_units(s[0]) + encode_utf16(s.drop_first())
    }
}

/// The result of decoding `s` one character at a time, as Rust's
/// UTF-16 decoder does: a non-surrogate unit stands for itself, a
/// high surrogate followed by a low surrogate forms one character,
/// and any other surrogate is reported unpaired and skipped.
pub open spec fn decode_utf16(s: Seq<u16>) -> Seq<Result<char, Utf16DecodeError>>
    decreases s.len(),
{
    if s.len() == 0 {
        Seq::empty()
    } else if !is_surrogate(s[0]) {
        seq![Ok::<char, Utf16DecodeError>(char_from_scalar(s[0] as u32))] + decode_utf16(
            s.drop_first(),
        )
    } else if is_high_surrogate(s[0]) && s.len() >= 2 && is_low_surrogate(s[1]) {
        seq![Ok::<char, Utf16DecodeError>(char_from_scalar(combine_surrogates(s[0], s[1])))]
            + decode_utf16(s.skip(2))
    } else {
        seq![Err::<char, Utf16DecodeError>(Utf16DecodeError { unpaired: s[0] })] + decode_utf16(
            s.drop_first(),
        )
    }
}

/// The lossy decoding of `s`: every unpaired surrogate becomes the
/// replacement character.
pub open spec fn decode_utf16_lossy(s: Seq<u16>) -> Seq<char> {
    decode_utf16(s).map(
        |i: int, r: Result<char, Utf16DecodeError>|
            match r {
                Ok(c) => c,
                Err(_) => REPLACEMENT_CHARACTER,
            },
    )
}

/// True when every code unit of `s` decodes cleanly.
pub open spec fn is_valid_utf16(s: Seq<u16>) -> bool {
    forall|i: int| 0 <= i < decode_utf16(s).len() ==> decode_utf16(s)[i] is Ok
}

/// Every character's scalar value avoids the surrogate range, stays at
/// most 0x10FFFF, and determines the character.
pub proof fn lemma_char_scalar_range(c: char)
    ensures
        (c as u32) < 0xD800 || (0xE000 <= c as u32 <= 0x10FFFF),
        char_from_scalar(c as u32) == c,
{
}

/// Properties of the first-NUL index: it never passes the end, nothing
/// before it is zero, and it lands on a zero whenever one exists.
pub proof fn lemma_nul_scan_len(s: Seq<u16>)
    ensures
        nul_scan_len(s) <= s.len(),
        forall|i: int| 0 <= i < nul_scan_len(s) ==> s[i] != 0,
        nul_scan_len(s) < s.len() ==> s[nul_scan_len(s) as int] == 0,
        s.contains(0) ==> nul_scan_len(s) < s.len(),
    decreases s.len(),
{
    if s.len() == 0 {
    } else if s[0] == 0 {
    } else {
        lemma_nul_scan_len(s.drop_first());
        assert forall|i: int| 0 <= i < nul_scan_len(s) implies s[i] != 0 by {
            if i > 0 {
                assert(s.drop_first()[i - 1] != 0);
            }
        }
        if s.contains(0) {
            let k = choose|k: int| 0 <= k < s.len() && s[k] == 0;
            assert(s.drop_first()[k - 1] == 0);
            assert(s.drop_first().contains(0));
        }
    }
}

/// The first-NUL index is pinned by any witness: if nothing before `i`
/// is zero and `i` is either the end or a zero, then `i` is the index.
pub proof fn lemma_nul_scan_len_is(s: Seq<u16>, i: int)
    requires
        0 <= i <= s.len(),
        forall|j: int| 0 <= j < i ==> s[j] != 0,
        i < s.len() ==> s[i] == 0,
    ensures
        nul_scan_len(s) == i,
    decreases s.len(),
{
    if s.len() == 0 {
    } else if s[0] == 0 {
    } else {
        assert forall|j: int| 0 <= j < i - 1 implies s.drop_first()[j] != 0 by {
            assert(s[j + 1] != 0);
        }
        lemma_nul_scan_len_is(s.drop_first(), i - 1);
    }
}

/// Appending the terminator to a buffer that already holds a zero
/// does not move the first-NUL index; appending it to one that holds
/// none puts the index at the old end.
pub proof fn lemma_nul_scan_push(w: Seq<u16>)
    ensures
        w.contains(0) ==> nul_scan_len(w.push(0)) == nul_scan_len(w) && nul_scan_len(w) < w.len(),
        !w.contains(0) ==> nul_scan_len(w.push(0)) == w.len(),
{
    lemma_nul_scan_len(w);
    if w.contains(0) {
        lemma_nul_scan_len_is(w.push(0), nul_scan_len(w) as int);
    } else {
        assert forall|j: int| 0 <= j < w.len() implies w.push(0)[j] != 0 by {
            assert(w[j] != 0);
        }
        lemma_nul_scan_len_is(w.push(0), w.len() as int);
    }
}

/// Find the first zero code unit of `units`, or the length when none occurs.
pub fn scan_nul(units: &[u16]) -> (r: usize)
    ensures
        r == nul_scan_len(units@),
{
    let len = units.len();
    let mut i: usize = 0;
    while i < len && *slice_index_get(units, i) != 0
        invariant
            0 <= i <= len,
            len == units@.len(),
            forall|j: int| 0 <= j < i ==> units@[j] != 0,
        decreases len - i,
    {
        i = i + 1;
    }
    proof {
        lemma_nul_scan_len_is(units@, i as int);
    }
    i
}

/// The encoding of a sequence grows one character at a time.
pub proof fn lemma_encode_utf16_push(s: Seq<char>, c: char)
    ensures
        encode_utf16(s.push(c)) == encode_utf16(s) + utf16_units(c),
    decreases s.len(),
{
    let sp = s.push(c);
    if s.len() == 0 {
        assert(sp[0] == c);
        assert(sp.drop_first() =~= Seq::<char>::empty());
        assert(encode_utf16(sp) == utf16_units(c) + encode_utf16(Seq::<char>::empty()));
        assert(encode_utf16(sp) =~= encode_utf16(s) + utf16_units(c));
    } else {
        lemma_encode_utf16_push(s.drop_first(), c);
        assert(sp[0] == s[0]);
        assert(sp.drop_first() =~= s.drop_first().push(c));
        assert(encode_utf16(sp) == utf16_units(s[0]) + (encode_utf16(s.drop_first())
            + utf16_units(c)));
        assert(encode_utf16(sp) =~= encode_utf16(s) + utf16_units(c));
    }
}

/// Each character takes one or two code units.
pub proof fn lemma_encode_utf16_len(s: Seq<char>)
    ensures
        s.len() <= encode_utf16(s).len() <= 2 * s.len(),
    decreases s.len(),
{
    if s.len() > 0 {
        lemma_encode_utf16_len(s.drop_first());
    }
}

/// Encode the characters of `s` as UTF-16 code units.
pub fn encode_utf16_str(s: &str) -> (r: Vec<u16>)
    ensures
        r@ == encode_utf16(s@),
{
    let len = s.unicode_len();
    let mut out: Vec<u16> = Vec::new();
    let mut i: usize = 0;
    while i < len
        invariant
            0 <= i <= len,
            len == s@.len(),
            out@ == encode_utf16(s@.take(i as int)),
        decreases len - i,
    {
        let c = s.get_char(i);
        let u = c as u32;
        if u < 0x10000 {
            out.push(u as u16);
        } else {
            let v = u - 0x10000;
            let hi = 0xD800 + v / 0x400;
            let lo = 0xDC00 + v % 0x400;
            out.push(hi as u16);
            out.push(lo as u16);
        }
        proof {
            assert(s@.take(i + 1) =~= s@.take(i as int).push(s@[i as int]));
            lemma_encode_utf16_push(s@.take(i as int), s@[i as int]);
            assert(out@ =~= encode_utf16(s@.take(i + 1)));
        }
        i = i + 1;
    }
    proof {
        assert(s@.take(len as int) =~= s@);
    }
    out
}

/// Relies on `char::from_u32` of the standard library: it returns the
/// character with the given scalar value exactly when the value is a
/// Unicode scalar value (not a surrogate and at most 0x10FFFF).
pub assume_specification[ char::from_u32 ](i: u32) -> (r: Option<char>)
    ensures
        r == (if i < 0xD800 || (0xE000 <= i <= 0x10FFFF) {
            Some(char_from_scalar(i))
        } else {
            None::<char>
        }),
;

/// Decoding steps over the sequence from the front: the first one or
/// two units produce the first result, and the rest decode on their own.
proof fn lemma_decode_utf16_step(s: Seq<u16>)
    requires
        s.len() > 0,
    ensures
        !is_surrogate(s[0]) ==> decode_utf16(s) == seq![
            Ok::<char, Utf16DecodeError>(char_from_scalar(s[0] as u32)),
        ] + decode_utf16(s.skip(1)),
        (is_high_surrogate(s[0]) && s.len() >= 2 && is_low_surrogate(s[1]))
            ==> decode_utf16(s) == seq![
            Ok::<char, Utf16DecodeError>(char_from_scalar(combine_surrogates(s[0], s[1]))),
        ] + decode_utf16(s.skip(2)),
        (is_surrogate(s[0]) && !(is_high_surrogate(s[0]) && s.len() >= 2 && is_low_surrogate(
            s[1],
        ))) ==> decode_utf16(s) == seq![
            Err::<char, Utf16DecodeError>(Utf16DecodeError { unpaired: s[0] }),
        ] + decode_utf16(s.skip(1)),
{
    assert(s.drop_first() =~= s.skip(1));
}

/// Decode `units` one character at a time, reporting each unpaired
/// surrogate in place.
pub fn decode_utf16_units(units: &[u16]) -> (r: Vec<Result<char, Utf16DecodeError>>)
    ensures
        r@ == decode_utf16(units@),
{
    let len = units.len();
    let mut out: Vec<Result<char, Utf16DecodeError>> = Vec::new();
    let mut i: usize = 0;
    proof {
        assert(units@.skip(0) =~= units@);
        assert(out@ + decode_utf16(units@) =~= decode_utf16(units@));
    }
    while i < len
        invariant
            0 <= i <= len,
            len == units@.len(),
            decode_utf16(units@) == out@ + decode_utf16(units@.skip(i as int)),
        decreases len - i,
    {
        let ghost rest = units@.skip(i as int);
        proof {
            lemma_decode_utf16_step(rest);
        }
        let u = *slice_index_get(units, i);
        if !(0xD800 <= u && u < 0xE000) {
            let c = char::from_u32(u as u32).unwrap();
            out.push(Ok(c));
            proof {
                assert(units@.skip(i as int).skip(1) =~= units@.skip(i + 1));
                assert(decode_utf16(units@) =~= out@ + decode_utf16(units@.skip(i + 1)));
            }
            i = i + 1;
        } else if 0xD800 <= u && u < 0xDC00 && i + 1 < len && 0xDC00 <= *slice_index_get(
            units,
            i + 1,
        ) && *slice_index_get(units, i + 1) < 0xE000 {
            let u2 = *slice_index_get(units, i + 1);
            assert(rest[1] == u2);
            let v: u32 = 0x10000 + (u as u32 - 0xD800) * 0x400 + (u2 as u32 - 0xDC00);
            assert(v == combine_surrogates(u, u2) && 0x10000 <= v <= 0x10FFFF) by {
                assert(0 <= (u - 0xD800) * 0x400 <= 0x3FF * 0x400) by (nonlinear_arith)
                    requires
                        0xD800 <= u < 0xDC00,
                ;
            }
            let c = char::from_u32(v).unwrap();
            out.push(Ok(c));
            proof {
                assert(units@.skip(i as int).skip(2) =~= units@.skip(i + 2));
                assert(decode_utf16(units@) =~= out@ + decode_utf16(units@.skip(i + 2)));
            }
            i = i + 2;
        } else {
            out.push(Err(Utf16DecodeError { unpaired: u }));
            proof {
                assert(units@.skip(i as int).skip(1) =~= units@.skip(i + 1));
                assert(decode_utf16(units@) =~= out@ + decode_utf16(units@.skip(i + 1)));
            }
            i = i + 1;
        }
    }
    proof {
        assert(units@.skip(len as int) =~= Seq::<u16>::empty());
        assert(out@ =~= decode_utf16(units@));
    }
    out
}

/// Compare two wide buffers code unit by code unit.
pub fn wide_eq(a: &[u16], b: &[u16]) -> (r: bool)
    ensures
        r <==> a@ == b@,
{
    let n = a.len();
    if n != b.len() {
        proof {
            assert(a@ != b@);
        }
        return false;
    }
    let mut i: usize = 0;
    while i < n
        invariant
            0 <= i <= n,
            n == a@.len(),
            n == b@.len(),
            forall|j: int| 0 <= j < i ==> a@[j] == b@[j],
        decreases n - i,
    {
        if *slice_index_get(a, i) != *slice_index_get(b, i) {
            proof {
                assert(a@[i as int] != b@[i as int]);
            }
            return false;
        }
        i = i + 1;
    }
    proof {
        assert(a@ =~= b@);
    }
    true
}

/// Relies on `String`'s `FromIterator<char>` implementation of the
/// standard library: collecting characters yields the string of
/// exactly those characters in order.
#[verifier::external_body]
fn string_from_chars(chars: &Vec<char>) -> (r: String)
    ensures
        r@ == chars@,
{
    chars.iter().copied().collect()
}

/// Decode `units` lossily: unpaired surrogates become the replacement
/// character.
pub fn decode_utf16_lossy_exec(units: &[u16]) -> (r: String)
    ensures
        r@ == decode_utf16_lossy(units@),
{
    let results = decode_utf16_units(units);
    let mut chars: Vec<char> = Vec::new();
    let n = results.len();
    let mut i: usize = 0;
    while i < n
        invariant
            0 <= i <= n,
            n == results@.len(),
            results@ == decode_utf16(units@),
            chars@ == decode_utf16_lossy(units@).take(i as int),
        decreases n - i,
    {
        match results[i] {
            Ok(c) => chars.push(c),
            Err(_) => chars.push(REPLACEMENT_CHARACTER),
        }
        proof {
            assert(chars@ =~= decode_utf16_lossy(units@).take(i + 1));
        }
        i = i + 1;
    }
    proof {
        assert(chars@ =~= decode_utf16_lossy(units@));
    }
    string_from_chars(&chars)
}

/// Decode `units` strictly: fail on the first unpaired surrogate.
pub fn decode_utf16_strict(units: &[u16]) -> (r: Result<String, FromUtf16Error>)
    ensures
        r is Ok <==> is_valid_utf16(units@),
        r matches Ok(s) ==> s@ == decode_utf16_lossy(units@),
{
    let results = decode_utf16_units(units);
    let mut chars: Vec<char> = Vec::new();
    let n = results.len();
    let mut i: usize = 0;
    while i < n
        invariant
            0 <= i <= n,
            n == results@.len(),
            results@ == decode_utf16(units@),
            forall|j: int| 0 <= j < i ==> results@[j] is Ok,
            chars@ == decode_utf16_lossy(units@).take(i as int),
        decreases n - i,
    {
        match results[i] {
            Ok(c) => {
                chars.push(c);
            },
            Err(_) => {
                return Err(FromUtf16Error {});
            },
        }
        proof {
            assert(chars@ =~= decode_utf16_lossy(units@).take(i + 1));
        }
        i = i + 1;
    }
    proof {
        assert(chars@ =~= decode_utf16_lossy(units@));
    }
    Ok(string_from_chars(&chars))
}

/// Decoding undoes encoding character for character: the encoded form
/// of any text decodes without error, back to the same text.
pub proof fn lemma_utf16_round_trip(s: Seq<char>)
    ensures
        decode_utf16(encode_utf16(s)) == s.map(
            |i: int, c: char| Ok::<char, Utf16DecodeError>(c),
        ),
        is_valid_utf16(encode_utf16(s)),
        decode_utf16_lossy(encode_utf16(s)) == s,
    decreases s.len(),
{
    let f = |i: int, c: char| Ok::<char, Utf16DecodeError>(c);
    if s.len() == 0 {
        assert(decode_utf16(encode_utf16(s)) =~= s.map(f));
    } else {
        let c = s[0];
        let rest = s.drop_first();
        let w = encode_utf16(s);
        lemma_char_scalar_range(c);
        lemma_utf16_round_trip(rest);
        if (c as u32) < 0x10000 {
            let units = utf16_units(c);
            assert(w == units + encode_utf16(rest));
            assert(units[0] == (c as u32) as u16);
            assert(w[0] == units[0]);
            assert(w[0] == c as u32);
            assert((c as u32) < 0xD800 || (c as u32) >= 0xE000);
            assert(!is_surrogate(w[0]));
            assert(w[0] as u32 == c as u32);
            assert(char_from_scalar(w[0] as u32) == c);
            lemma_decode_utf16_step(w);
            assert(w.skip(1) =~= encode_utf16(rest));
            assert(decode_utf16(w) =~= s.map(f)) by {
                assert(rest.map(f) =~= s.map(f).drop_first());
            }
        } else {
            let u = c as u32;
            let v = u - 0x10000;
            assert(v / 0x400 <= 0x3FF && v % 0x400 < 0x400) by (nonlinear_arith)
                requires
                    0 <= v <= 0xFFFFF,
            ;
            let hi = (0xD800 + v / 0x400) as u16;
            let lo = (0xDC00 + v % 0x400) as u16;
            assert(w[0] == hi && w[1] == lo);
            assert(is_high_surrogate(hi) && is_low_surrogate(lo));
            assert(combine_surrogates(hi, lo) == u) by {
                lemma_fundamental_div_mod(v as int, 0x400);
            }
            assert(char_from_scalar(u) == c);
            lemma_decode_utf16_step(w);
            assert(w.skip(2) =~= encode_utf16(rest));
            assert(decode_utf16(w) =~= s.map(f)) by {
                assert(rest.map(f) =~= s.map(f).drop_first());
            }
        }
        assert forall|i: int| 0 <= i < decode_utf16(w).len() implies decode_utf16(w)[i] is Ok by {
            assert(decode_utf16(w)[i] == s.map(f)[i]);
        }
    }
    assert(decode_utf16_lossy(encode_utf16(s)) =~= s);
}

} // verus!
