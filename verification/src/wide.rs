//! Text as the Windows API takes and gives it: NUL-terminated UTF-16.
use vstd::prelude::*;
use crate::text::chars_of;

verus! {

/// The UTF-16 code units of one character: itself below U+10000, else a surrogate pair.
pub open spec fn utf16_units(c: char) -> Seq<u16> {
    let v = c as u32;
    if v < 0x10000 {
        seq![v as u16]
    } else {
        seq![(0xD800 + (v - 0x10000) / 1024) as u16, (0xDC00 + (v - 0x10000) % 1024) as u16]
    }
}

/// The UTF-16 encoding of a text (`str::encode_utf16`).
pub open spec fn encode_utf16(s: Seq<char>) -> Seq<u16>
    decreases s.len(),
{
    if s.len() == 0 {
        Seq::empty()
    } else {
        encode_utf16(s.drop_last()) + utf16_units(s.last())
    }
}

/// The text, in UTF-16, followed by a NUL unit.
pub fn wide(value: &str) -> (r: Vec<u16>)
    ensures
        r@ == encode_utf16(value@).push(0u16),
{
    let mut out: Vec<u16> = Vec::new();
    let mut i: usize = 0;
    let chars = chars_of(value);
    let n = chars.len();
    assert(value@.take(0) =~= Seq::<char>::empty());
    while i < n
        invariant
            n == value@.len(),
            chars@ == value@,
            i <= n,
            out@ == encode_utf16(value@.take(i as int)),
        decreases n - i,
    {
        let c = chars[i];
        let v = c as u32;
        let ghost before = out@;
        if v < 0x10000 {
            out.push(v as u16);
        } else {
            let w = v - 0x10000;
            out.push((0xD800 + w / 1024) as u16);
            out.push((0xDC00 + w % 1024) as u16);
        }
        assert(value@.take(i + 1).drop_last() =~= value@.take(i as int));
        assert(value@.take(i + 1).last() == c);
        assert(out@ =~= before + utf16_units(c));
        i += 1;
    }
    assert(value@.take(n as int) =~= value@);
    out.push(0u16);
    out
}

/// What `String::from_utf16_lossy` makes of a sequence of code units.
pub uninterp spec fn utf16_lossy(units: Seq<u16>) -> Seq<char>;

/// `String::from_utf16_lossy`: the result depends on the units alone, and a valid
/// encoding is decoded to the text it encodes (unpaired surrogates become U+FFFD, which
/// is left unstated here).
#[verifier::external_body]
fn decode_utf16(units: &[u16]) -> (s: String)
    ensures
        s@ == utf16_lossy(units@),
        forall|t: Seq<char>| units@ == #[trigger] encode_utf16(t) ==> s@ == t,
{
    String::from_utf16_lossy(units)
}

/// The units before the first NUL, or all of them when there is none.
pub open spec fn before_nul(units: Seq<u16>) -> Seq<u16>
    decreases units.len(),
{
    if units.len() == 0 || units[0] == 0 {
        Seq::empty()
    } else {
        seq![units[0]] + before_nul(units.drop_first())
    }
}

/// The text of a NUL-terminated UTF-16 buffer.
pub fn from_wide(buffer: &[u16]) -> (r: String)
    ensures
        r@ == utf16_lossy(before_nul(buffer@)),
{
    let mut units: Vec<u16> = Vec::new();
    let mut i: usize = 0;
    assert(buffer@.skip(0) =~= buffer@);
    while i < buffer.len() && buffer[i] != 0
        invariant
            i <= buffer.len(),
            units@ == buffer@.take(i as int),
            before_nul(buffer@) == units@ + before_nul(buffer@.skip(i as int)),
        decreases buffer.len() - i,
    {
        assert(buffer@.skip(i as int).drop_first() =~= buffer@.skip(i + 1));
        assert(buffer@.skip(i as int)[0] == buffer@[i as int]);
        units.push(buffer[i]);
        assert(buffer@.take(i + 1) =~= buffer@.take(i as int).push(buffer@[i as int]));
        i += 1;
    }
    if i < buffer.len() {
        assert(buffer@.skip(i as int)[0] == buffer@[i as int]);
    }
    assert(before_nul(buffer@.skip(i as int)) =~= Seq::<u16>::empty());
    assert(units@ + Seq::<u16>::empty() =~= units@);
    decode_utf16(units.as_slice())
}

} // verus!
