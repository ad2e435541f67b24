//! UTF-16 as a mathematical function from code units to scalar values, and the
//! two decoders the library relies on.

use vstd::prelude::*;

verus! {

/// A code unit in the surrogate range.
pub open spec fn is_surrogate(u: u16) -> bool {
    0xD800 <= u <= 0xDFFF
}

/// A leading (high) surrogate.
pub open spec fn is_high_surrogate(u: u16) -> bool {
    0xD800 <= u <= 0xDBFF
}

/// A trailing (low) surrogate.
pub open spec fn is_low_surrogate(u: u16) -> bool {
    0xDC00 <= u <= 0xDFFF
}

/// The scalar value that a surrogate pair stands for.
pub open spec fn pair_scalar(hi: u16, lo: u16) -> u32 {
    (0x10000 + (hi - 0xD800) * 0x400 + (lo - 0xDC00)) as u32
}

/// The text that a sequence of UTF-16 code units encodes, or `None` when a
/// surrogate is unpaired.
pub open spec fn decode_utf16(units: Seq<u16>) -> Option<Seq<char>>
    decreases units.len(),
{
    if units.len() == 0 {
        Some(Seq::empty())
    } else if !is_surrogate(units[0]) {
        match decode_utf16(units.skip(1)) {
            Some(rest) => Some(seq![units[0] as u32 as char] + rest),
            None => None,
        }
    } else if is_high_surrogate(units[0]) && units.len() >= 2 && is_low_surrogate(units[1]) {
        match decode_utf16(units.skip(2)) {
            Some(rest) => Some(seq![pair_scalar(units[0], units[1]) as char] + rest),
            None => None,
        }
    } else {
        None
    }
}

/// The code unit that two bytes make in big-endian order.
pub open spec fn be_unit(hi: u8, lo: u8) -> u16 {
    (hi as int * 256 + lo as int) as u16
}

/// The code units held by the complete byte pairs of `bytes`, big-endian.
pub open spec fn be_units(bytes: Seq<u8>) -> Seq<u16> {
    Seq::new((bytes.len() / 2) as nat, |i: int| be_unit(bytes[2 * i], bytes[2 * i + 1]))
}

/// The text that `bytes` encode in UTF-16BE, or `None` when the length is odd
/// or a surrogate is unpaired.
pub open spec fn decode_utf16be(bytes: Seq<u8>) -> Option<Seq<char>> {
    if bytes.len() % 2 != 0 {
        None
    } else {
        decode_utf16(be_units(bytes))
    }
}

/// The big-endian bytes of a sequence of code units.
pub open spec fn be_bytes(units: Seq<u16>) -> Seq<u8> {
    Seq::new(
        2 * units.len(),
        |i: int|
            if i % 2 == 0 {
                (units[i / 2] / 256) as u8
            } else {
                (units[i / 2] % 256) as u8
            },
    )
}

/// Splitting code units into bytes and pairing them again gives the units back.
pub proof fn lemma_be_units_of_be_bytes(units: Seq<u16>)
    ensures
        be_bytes(units).len() == 2 * units.len(),
        be_units(be_bytes(units)) == units,
        decode_utf16be(be_bytes(units)) == decode_utf16(units),
{
    let b = be_bytes(units);
    assert(b.len() / 2 == units.len());
    assert forall|i: int| 0 <= i < units.len() implies #[trigger] be_units(b)[i] == units[i] by {
        assert(b[2 * i] == (units[i] / 256) as u8);
        assert(b[2 * i + 1] == (units[i] % 256) as u8);
    }
    assert(be_units(b) =~= units);
}

/// Units free of surrogates always decode, one character per unit.
pub proof fn lemma_decode_without_surrogates(units: Seq<u16>)
    requires
        forall|i: int| 0 <= i < units.len() ==> !is_surrogate(#[trigger] units[i]),
    ensures
        decode_utf16(units) == Some(units.map_values(|u: u16| u as u32 as char)),
    decreases units.len(),
{
    let f = |u: u16| u as u32 as char;
    if units.len() == 0 {
        assert(units.map_values(f) =~= Seq::<char>::empty());
    } else {
        let rest = units.skip(1);
        assert forall|i: int| 0 <= i < rest.len() implies !is_surrogate(#[trigger] rest[i]) by {
            assert(rest[i] == units[i + 1]);
        }
        lemma_decode_without_surrogates(rest);
        assert(!is_surrogate(units[0]));
        assert(units.map_values(f) =~= seq![units[0] as u32 as char] + rest.map_values(f));
    }
}

/// UTF-16BE decoding of a whole buffer by `encoding_rs`, with no byte-order
/// mark handling and no replacement characters: the decoded text when every
/// surrogate is paired and the length is even, `None` otherwise. The decoder
/// reserves three bytes of output for every two of input before it starts;
/// the bound on the length keeps that size within what a `String` may hold.
#[verifier::external_body]
pub(crate) fn decode_utf16be_bytes(bytes: &[u8]) -> (r: Option<String>)
    requires
        bytes@.len() <= usize::MAX / 4,
    ensures
        match r {
            Some(s) => decode_utf16be(bytes@) == Some(s@),
            None => decode_utf16be(bytes@) is None,
        },
{
    encoding_rs::UTF_16BE.decode_without_bom_handling_and_without_replacement(bytes).map(
        |s| s.into_owned(),
    )
}

/// `String::from_utf16`: the decoded text when every surrogate in `units` is
/// paired, `None` otherwise.
#[verifier::external_body]
pub(crate) fn string_from_utf16(units: &[u16]) -> (r: Option<String>)
    ensures
        match r {
            Some(s) => decode_utf16(units@) == Some(s@),
            None => decode_utf16(units@) is None,
        },
{
    String::from_utf16(units).ok()
}

} // verus!
