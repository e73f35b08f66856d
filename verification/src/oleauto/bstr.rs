//! A length-prefixed wide string owned by the automation allocator,
//! split into an owned type and a borrowed view.
//!
//! The foreign allocation stores a 4-byte byte count immediately
//! before the character data and a terminator after it. In this model
//! a buffer value covers the character data plus the terminator; the
//! byte count the prefix would hold is two per character.
//!
//! Deliberate asymmetry, kept for wire compatibility: these strings
//! report their length in bytes, while the NUL-terminated string
//! types of this crate report theirs in code units.

use crate::objbase::CoTaskMemWideString;
use crate::wide::{
    decode_utf16, decode_utf16_lossy, decode_utf16_lossy_exec, decode_utf16_units, encode_utf16,
    encode_utf16_str, lemma_nul_scan_len, nul_scan_len, scan_nul, wide_eq, Utf16DecodeError,
};
use vstd::prelude::*;
use vstd::slice::slice_subrange;

verus! {

/// An error that may occur while creating a [`BStr`].
#[derive(Clone, Copy, Debug, PartialEq, Eq, Structural)]
pub enum BStrCreationError {
    /// The requested length does not fit the allocation's 4-byte size
    /// field.
    LenTooLarge,
    /// The foreign allocator returned no buffer.
    AllocFailed,
    /// The source provided more elements than the declared count.
    IterTooLarge,
    /// The source provided fewer elements than the declared count.
    IterTooShort,
}

/// An owned length-prefixed wide string: the sole owner of one
/// allocation made by the automation allocator and freed by its
/// matching release call. The content may or may not be valid UTF-16.
#[derive(Debug, Hash)]
pub struct BStr {
    units: Vec<u16>,
}

impl View for BStr {
    type V = Seq<u16>;

    closed spec fn view(&self) -> Seq<u16> {
        self.units@
    }
}

/// A borrowed view of a length-prefixed wide string. It never owns
/// memory; its size is the element count the allocation's length
/// field records.
#[derive(Clone, Copy, Debug, Hash)]
pub struct BStrRef<'a> {
    units: &'a [u16],
}

impl<'a> View for BStrRef<'a> {
    type V = Seq<u16>;

    closed spec fn view(&self) -> Seq<u16> {
        self.units@
    }
}

/// The shape every length-prefixed buffer has: at least the
/// terminator, the terminator last, and a byte count that fits the
/// 4-byte length field.
pub open spec fn bstr_shape(units: Seq<u16>) -> bool {
    &&& units.len() >= 1
    &&& units[units.len() - 1] == 0
    &&& 2 * (units.len() - 1) <= u32::MAX
}

/// The character data of a buffer: everything before the terminator.
pub open spec fn bstr_content(units: Seq<u16>) -> Seq<u16> {
    units.take(units.len() - 1)
}

impl BStr {
    /// The buffer is well formed.
    pub open spec fn wf(&self) -> bool {
        bstr_shape(self@)
    }

    /// The character data, terminator excluded.
    pub open spec fn content(&self) -> Seq<u16> {
        bstr_content(self@)
    }

    /// Allocate an owned string holding the encoding of `text`.
    ///
    /// This is the panicking variant of [`BStr::try_new`]; the one
    /// input class on which that variant fails is excluded here.
    pub fn new(text: &str) -> (r: BStr)
        requires
            2 * encode_utf16(text@).len() <= u32::MAX,
        ensures
            r.wf(),
            r.content() == encode_utf16(text@),
    {
        let encoded = encode_utf16_str(text);
        Self::from_wide_slice(encoded.as_slice()).unwrap()
    }

    /// Allocate an owned string holding the encoding of `text`.
    ///
    /// Fails with [`BStrCreationError::LenTooLarge`] exactly when the
    /// encoded byte count does not fit the length field.
    pub fn try_new(text: &str) -> (r: Result<BStr, BStrCreationError>)
        ensures
            r is Err <==> 2 * encode_utf16(text@).len() > u32::MAX,
            r matches Err(e) ==> e == BStrCreationError::LenTooLarge,
            r matches Ok(b) ==> b.wf() && b.content() == encode_utf16(text@),
    {
        let encoded = encode_utf16_str(text);
        Self::from_wide_slice(encoded.as_slice())
    }

    /// Allocate an owned string holding a copy of `slice`.
    ///
    /// Fails with [`BStrCreationError::LenTooLarge`] exactly when the
    /// byte count does not fit the length field. Allocation failure
    /// is a distinct kind, which this allocation model never reports.
    pub fn from_wide_slice(slice: &[u16]) -> (r: Result<BStr, BStrCreationError>)
        ensures
            r is Err <==> 2 * slice@.len() > u32::MAX,
            r matches Err(e) ==> e == BStrCreationError::LenTooLarge,
            r matches Ok(b) ==> b.wf() && b.content() == slice@ && b@ == slice@.push(0),
    {
        if slice.len() > (u32::MAX / 2) as usize {
            return Err(BStrCreationError::LenTooLarge);
        }
        let mut units = vstd::slice::slice_to_vec(slice);
        units.push(0);
        proof {
            assert(bstr_content(units@) =~= slice@);
        }
        Ok(BStr { units })
    }

    /// Allocate an owned string of the declared count from a source
    /// sequence, detecting any mismatch between the two.
    ///
    /// Exactly one of four outcomes holds: the declared byte count
    /// does not fit the length field (`LenTooLarge`); the source holds
    /// more than `len` elements (`IterTooLarge`); the source holds
    /// fewer (`IterTooShort`); or the string is built from the full
    /// source. On every failure the partial allocation is given back
    /// to this model's allocator, so nothing leaks.
    pub fn from_wide_iter(data: &[u16], len: usize) -> (r: Result<BStr, BStrCreationError>)
        ensures
            2 * len > u32::MAX ==> r == Err::<BStr, _>(BStrCreationError::LenTooLarge),
            2 * len <= u32::MAX && data@.len() > len ==> r == Err::<BStr, _>(
                BStrCreationError::IterTooLarge,
            ),
            2 * len <= u32::MAX && data@.len() < len ==> r == Err::<BStr, _>(
                BStrCreationError::IterTooShort,
            ),
            2 * len <= u32::MAX && data@.len() == len ==> (r matches Ok(b) && b.wf() && b.content()
                == data@ && b@ == data@.push(0)),
    {
        if len > (u32::MAX / 2) as usize {
            return Err(BStrCreationError::LenTooLarge);
        }
        if data.len() > len {
            return Err(BStrCreationError::IterTooLarge);
        }
        if data.len() < len {
            return Err(BStrCreationError::IterTooShort);
        }
        let mut units = vstd::slice::slice_to_vec(data);
        units.push(0);
        proof {
            assert(bstr_content(units@) =~= data@);
        }
        Ok(BStr { units })
    }

    /// Take ownership of an allocation already made by the automation
    /// allocator. The caller attests that the buffer has the
    /// length-prefixed shape.
    pub fn from_raw(units: Vec<u16>) -> (r: BStr)
        requires
            bstr_shape(units@),
        ensures
            r@ == units@,
            r.wf(),
    {
        BStr { units }
    }

    /// Give up ownership of the allocation without releasing it; the
    /// caller becomes responsible for the eventual release.
    pub fn into_raw(self) -> (r: Vec<u16>)
        ensures
            r@ == self@,
    {
        self.units
    }

    /// The borrowed view covering this whole buffer.
    pub fn as_bstr_ref(&self) -> (r: BStrRef<'_>)
        ensures
            r@ == self@,
    {
        BStrRef { units: self.units.as_slice() }
    }

    /// The length in bytes, terminator excluded — twice the character
    /// count, as the allocation's length field records it.
    pub fn len(&self) -> (r: usize)
        requires
            self.wf(),
        ensures
            r == 2 * self.content().len(),
    {
        self.as_bstr_ref().len()
    }

    /// True when no character precedes the terminator.
    pub fn is_empty(&self) -> (r: bool)
        requires
            self.wf(),
        ensures
            r == (self.content().len() == 0),
    {
        self.as_bstr_ref().is_empty()
    }

    /// The character data, terminator excluded.
    pub fn as_wide_slice(&self) -> (r: &[u16])
        requires
            self.wf(),
        ensures
            r@ == self.content(),
    {
        self.as_bstr_ref().as_wide_slice()
    }

    /// The whole buffer, terminator included.
    pub fn as_wide_slice_with_nul(&self) -> (r: &[u16])
        ensures
            r@ == self@,
    {
        self.units.as_slice()
    }

    /// True when a zero code unit occurs before the terminator.
    pub fn contains_nul(&self) -> (r: bool)
        requires
            self.wf(),
        ensures
            r == self.content().contains(0),
    {
        self.as_bstr_ref().contains_nul()
    }

    /// The character data decoded lossily.
    pub fn to_string_lossy(&self) -> (r: String)
        requires
            self.wf(),
        ensures
            r@ == decode_utf16_lossy(self.content()),
    {
        self.as_bstr_ref().to_string_lossy()
    }

    /// True when this string and `other` hold the same character data.
    pub fn eq_ref(&self, other: &BStrRef<'_>) -> (r: bool)
        requires
            self.wf(),
            other.wf(),
        ensures
            r <==> self.content() == bstr_content(other@),
    {
        wide_eq_content(self.units.as_slice(), other.units_full())
    }

    /// True when this string holds exactly the encoding of `text`.
    pub fn eq_str(&self, text: &str) -> (r: bool)
        requires
            self.wf(),
        ensures
            r <==> self.content() == encode_utf16(text@),
    {
        self.as_bstr_ref().eq_str(text)
    }
}

/// True when the character data of the two buffers agree, where each
/// buffer's last element is its terminator.
fn wide_eq_content(a: &[u16], b: &[u16]) -> (r: bool)
    requires
        a@.len() >= 1,
        b@.len() >= 1,
    ensures
        r <==> bstr_content(a@) == bstr_content(b@),
{
    let a_data = slice_subrange(a, 0, a.len() - 1);
    let b_data = slice_subrange(b, 0, b.len() - 1);
    proof {
        assert(a_data@ =~= bstr_content(a@));
        assert(b_data@ =~= bstr_content(b@));
    }
    wide_eq(a_data, b_data)
}

impl<'a> BStrRef<'a> {
    /// The buffer is well formed.
    pub open spec fn wf(&self) -> bool {
        bstr_shape(self@)
    }

    /// The character data, terminator excluded.
    pub open spec fn content(&self) -> Seq<u16> {
        bstr_content(self@)
    }

    /// Borrow a view of a length-prefixed allocation. `units` covers
    /// exactly the span the allocation's length field delimits — the
    /// character data and the trailing terminator; the caller attests
    /// that shape, as the one trusted reading of the foreign layout.
    pub fn from_ptr(units: &'a [u16]) -> (r: BStrRef<'a>)
        requires
            bstr_shape(units@),
        ensures
            r@ == units@,
            r.wf(),
    {
        BStrRef { units }
    }

    /// The whole underlying span; for this crate's own use.
    pub(crate) fn units_full(&self) -> (r: &'a [u16])
        ensures
            r@ == self@,
    {
        self.units
    }

    /// The length in bytes, terminator excluded — twice the character
    /// count. Note the asymmetry with the NUL-terminated string types,
    /// which count code units.
    pub fn len(&self) -> (r: usize)
        requires
            self.wf(),
        ensures
            r == 2 * self.content().len(),
    {
        (self.units.len() - 1) * 2
    }

    /// True when no character precedes the terminator.
    pub fn is_empty(&self) -> (r: bool)
        requires
            self.wf(),
        ensures
            r == (self.content().len() == 0),
    {
        self.len() == 0
    }

    /// The character data, terminator excluded. Interior zero code
    /// units, if any, are included.
    pub fn as_wide_slice(&self) -> (r: &'a [u16])
        requires
            self.wf(),
        ensures
            r@ == self.content(),
    {
        let r = slice_subrange(self.units, 0, self.units.len() - 1);
        proof {
            assert(r@ =~= self.content());
        }
        r
    }

    /// The whole buffer, terminator included. Not suitable as a
    /// NUL-terminated string unless [`BStrRef::contains_nul`] is
    /// false.
    pub fn as_wide_slice_with_nul(&self) -> (r: &'a [u16])
        ensures
            r@ == self@,
    {
        self.units
    }

    /// True when a zero code unit occurs before the terminator.
    pub fn contains_nul(&self) -> (r: bool)
        requires
            self.wf(),
        ensures
            r == self.content().contains(0),
    {
        let data = self.as_wide_slice();
        let n = scan_nul(data);
        proof {
            lemma_nul_scan_len(data@);
        }
        n < data.len()
    }

    /// The character data decoded lossily; unpaired surrogates become
    /// the replacement character.
    pub fn to_string_lossy(&self) -> (r: String)
        requires
            self.wf(),
        ensures
            r@ == decode_utf16_lossy(self.content()),
    {
        decode_utf16_lossy_exec(self.as_wide_slice())
    }

    /// The character data decoded one character at a time, each
    /// unpaired surrogate reported in place.
    pub fn chars(&self) -> (r: Vec<Result<char, Utf16DecodeError>>)
        requires
            self.wf(),
        ensures
            r@ == decode_utf16(self.content()),
    {
        decode_utf16_units(self.as_wide_slice())
    }

    /// A rendering of this view for display, decoded lossily.
    pub fn display(&self) -> (r: BStrDisplay<'a>)
        ensures
            r@ == self@,
    {
        BStrDisplay { target: *self }
    }

    /// Promote this view to an owned copy, freshly allocated by the
    /// same allocator.
    pub fn to_bstr(&self) -> (r: BStr)
        requires
            self.wf(),
        ensures
            r.wf(),
            r.content() == self.content(),
    {
        BStr::from_wide_slice(self.as_wide_slice()).unwrap()
    }

    /// True when this view holds exactly the encoding of `text`.
    pub fn eq_str(&self, text: &str) -> (r: bool)
        requires
            self.wf(),
        ensures
            r <==> self.content() == encode_utf16(text@),
    {
        let encoded = encode_utf16_str(text);
        wide_eq(self.as_wide_slice(), encoded.as_slice())
    }
}

impl<'a> PartialEq for BStrRef<'a> {
    /// Equality is over the code-unit sequence, not allocation
    /// identity.
    fn eq(&self, other: &BStrRef<'a>) -> (r: bool) {
        wide_eq(self.units, other.units)
    }
}

impl<'a> vstd::std_specs::cmp::PartialEqSpecImpl for BStrRef<'a> {
    open spec fn obeys_eq_spec() -> bool {
        true
    }

    open spec fn eq_spec(&self, other: &BStrRef<'a>) -> bool {
        self@ == other@
    }
}

impl<'a> Eq for BStrRef<'a> {

}

impl PartialEq for BStr {
    /// Equality is over the code-unit sequence, not allocation
    /// identity.
    fn eq(&self, other: &BStr) -> (r: bool) {
        wide_eq(self.units.as_slice(), other.units.as_slice())
    }
}

impl vstd::std_specs::cmp::PartialEqSpecImpl for BStr {
    open spec fn obeys_eq_spec() -> bool {
        true
    }

    open spec fn eq_spec(&self, other: &BStr) -> bool {
        self@ == other@
    }
}

impl Eq for BStr {

}

/// A [`BStrRef`] wrapper meant for lossy display.
#[derive(Clone, Copy, Debug)]
pub struct BStrDisplay<'a> {
    target: BStrRef<'a>,
}

impl<'a> View for BStrDisplay<'a> {
    type V = Seq<u16>;

    closed spec fn view(&self) -> Seq<u16> {
        self.target@
    }
}

impl<'a> BStrDisplay<'a> {
    /// The rendered text: the character data decoded lossily.
    pub fn to_display_string(&self) -> (r: String)
        requires
            bstr_shape(self@),
        ensures
            r@ == decode_utf16_lossy(bstr_content(self@)),
    {
        self.target.to_string_lossy()
    }
}

/// An owned string and the borrowed view it hands out agree: the view
/// over the same buffer is well formed, reports the same byte length,
/// and holds the same character data.
pub proof fn lemma_owned_view_agree(b: BStr, v: BStrRef<'_>)
    requires
        b.wf(),
        v@ == b@,
    ensures
        v.wf(),
        v.content() == b.content(),
        2 * v.content().len() == 2 * b.content().len(),
{
}

/// Text with an embedded zero code unit splits the two encodings: the
/// NUL-terminated representation reaches only the units before the
/// first zero, while the length-prefixed representation keeps every
/// unit and reports that a zero is inside.
pub proof fn lemma_embedded_nul_split(s: Seq<char>, c: CoTaskMemWideString, b: BStr)
    requires
        encode_utf16(s).contains(0),
        c@ == encode_utf16(s).push(0),
        b@ == encode_utf16(s).push(0),
    ensures
        nul_scan_len(c@) < encode_utf16(s).len(),
        c.content() == encode_utf16(s).take(nul_scan_len(encode_utf16(s)) as int),
        b.content() == encode_utf16(s),
        b.content().contains(0),
{
    let w = encode_utf16(s);
    lemma_nul_scan_len(w);
    crate::wide::lemma_nul_scan_push(w);
    assert(b.content() =~= w);
    assert(c.content() =~= w.take(nul_scan_len(w) as int));
}

} // verus!
