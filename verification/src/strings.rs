use vstd::prelude::*;

verus! {

/// The elements of the first `n` entries of `s` that are not zero, in order.
pub open spec fn nonzero_prefix_u8(s: Seq<u8>, n: int) -> Seq<u8>
    decreases n,
{
    if n <= 0 {
        Seq::empty()
    } else {
        let p = nonzero_prefix_u8(s, n - 1);
        if s[n - 1] == 0 {
            p
        } else {
            p.push(s[n - 1])
        }
    }
}

/// The nonzero bytes of `s`, in order.
pub open spec fn nonzero_u8(s: Seq<u8>) -> Seq<u8> {
    nonzero_prefix_u8(s, s.len() as int)
}

/// The elements of the first `n` entries of `s` that are not zero, in order.
pub open spec fn nonzero_prefix_u16(s: Seq<u16>, n: int) -> Seq<u16>
    decreases n,
{
    if n <= 0 {
        Seq::empty()
    } else {
        let p = nonzero_prefix_u16(s, n - 1);
        if s[n - 1] == 0 {
            p
        } else {
            p.push(s[n - 1])
        }
    }
}

/// The nonzero code units of `s`, in order.
pub open spec fn nonzero_u16(s: Seq<u16>) -> Seq<u16> {
    nonzero_prefix_u16(s, s.len() as int)
}

/// The text that lossy UTF-8 decoding yields for `bytes`: each invalid
/// sequence is replaced rather than rejected, so every input has a result,
/// and the result depends on the bytes alone.
pub uninterp spec fn utf8_lossy_of(bytes: Seq<u8>) -> Seq<char>;

/// The text that lossy UTF-16 decoding yields for `units`: each invalid
/// sequence is replaced rather than rejected, so every input has a result,
/// and the result depends on the code units alone.
pub uninterp spec fn utf16_lossy_of(units: Seq<u16>) -> Seq<char>;

/// Relies on String::from_utf8_lossy: total over all byte sequences, the
/// result a function of the bytes alone, invalid sequences replaced by
/// U+FFFD; of an empty input it returns the empty string.
#[verifier::external_body]
fn utf8_lossy(bytes: &Vec<u8>) -> (r: String)
    ensures
        r@ == utf8_lossy_of(bytes@),
        bytes@.len() == 0 ==> r@.len() == 0,
{
    String::from_utf8_lossy(bytes.as_slice()).to_string()
}

/// Relies on String::from_utf16_lossy: total over all code-unit sequences,
/// the result a function of the units alone, unpaired surrogates replaced by
/// U+FFFD; of an empty input it returns the empty string.
#[verifier::external_body]
fn utf16_lossy(units: &Vec<u16>) -> (r: String)
    ensures
        r@ == utf16_lossy_of(units@),
        units@.len() == 0 ==> r@.len() == 0,
{
    String::from_utf16_lossy(units.as_slice())
}

/// A fixed-capacity, zero-padded single-byte text field, as stored in the
/// cartridge header. The raw bytes are kept; display text is produced on
/// demand by `str`.
pub struct BoundedString {
    data: Vec<u8>,
}

impl BoundedString {
    /// The raw bytes of the field.
    pub closed spec fn bytes(&self) -> Seq<u8> {
        self.data@
    }

    /// Wraps the raw bytes of a zero-padded text field.
    pub fn new(data: Vec<u8>) -> (r: BoundedString)
        ensures
            r.bytes() == data@,
    {
        BoundedString { data }
    }

    /// The display text: the embedded zero padding is stripped and the rest
    /// is decoded lossily, so every byte content yields some string.
    pub fn str(&self) -> (r: String)
        ensures
            r@ == utf8_lossy_of(nonzero_u8(self.bytes())),
    {
        let mut kept: Vec<u8> = Vec::new();
        let mut i: usize = 0;
        while i < self.data.len()
            invariant
                i <= self.data@.len(),
                kept@ == nonzero_prefix_u8(self.data@, i as int),
            decreases self.data@.len() - i,
        {
            let b = self.data[i];
            if b != 0 {
                kept.push(b);
            }
            i = i + 1;
        }
        utf8_lossy(&kept)
    }
}

/// A fixed-capacity, zero-padded UTF-16 text field of 128 little-endian code
/// units, as stored in the icon/banner record's title slots.
pub struct BoundedUTF16String {
    data: Vec<u16>,
}

impl BoundedUTF16String {
    /// The raw code units of the field.
    pub closed spec fn units(&self) -> Seq<u16> {
        self.data@
    }

    /// Wraps the raw code units of a zero-padded UTF-16 text field.
    pub fn new(data: Vec<u16>) -> (r: BoundedUTF16String)
        ensures
            r.units() == data@,
    {
        BoundedUTF16String { data }
    }

    /// The display text: the embedded zero padding is stripped and the rest
    /// is decoded lossily, so every code-unit content yields some string.
    pub fn str(&self) -> (r: String)
        ensures
            r@ == utf16_lossy_of(nonzero_u16(self.units())),
    {
        let mut kept: Vec<u16> = Vec::new();
        let mut i: usize = 0;
        while i < self.data.len()
            invariant
                i <= self.data@.len(),
                kept@ == nonzero_prefix_u16(self.data@, i as int),
            decreases self.data@.len() - i,
        {
            let u = self.data[i];
            if u != 0 {
                kept.push(u);
            }
            i = i + 1;
        }
        utf16_lossy(&kept)
    }
}

} // verus!
