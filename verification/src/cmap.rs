//! Byte mappings of composite fonts: codespace ranges that say how many bytes
//! a character code takes, and CID ranges that map codes to character
//! identifiers.

use vstd::prelude::*;

verus! {

/// A character code: font-local, decoded from one to four bytes.
pub type CharCode = u32;

/// Codes `start..=end` are written with `width` bytes.
#[derive(Clone, Copy, Debug, PartialEq, Eq, Structural)]
pub struct CodeRange {
    pub width: u32,
    pub start: u32,
    pub end: u32,
}

/// Codes `src_code_lo..=src_code_hi` map to consecutive identifiers from
/// `dst_cid_lo`.
#[derive(Clone, Copy, Debug, PartialEq, Eq, Structural)]
pub struct CIDRange {
    pub src_code_lo: u32,
    pub src_code_hi: u32,
    pub dst_cid_lo: u32,
}

/// The byte mapping of a composite font.
#[derive(Debug)]
pub struct CIDFontEncoding {
    pub codespace: Vec<CodeRange>,
    pub cid: Vec<CIDRange>,
}

/// The big-endian value of the first `w` bytes of `bytes`.
pub open spec fn code_of(bytes: Seq<u8>, w: int) -> int
    decreases w,
{
    if w <= 0 {
        0
    } else {
        code_of(bytes, w - 1) * 256 + bytes[w - 1] as int
    }
}

/// Whether some range of `codespace` holds `code` at `width` bytes.
pub open spec fn admits(codespace: Seq<CodeRange>, code: u32, width: u32) -> bool {
    exists|i: int|
        0 <= i < codespace.len() && (#[trigger] codespace[i]).start <= code && code
            <= codespace[i].end && codespace[i].width == width
}

/// The identifier that the first range of `cid` holding `code` gives it. The
/// sum wraps at 32 bits.
pub open spec fn cid_of(cid: Seq<CIDRange>, code: u32) -> Option<u32>
    decreases cid.len(),
{
    if cid.len() == 0 {
        None
    } else if cid[0].src_code_lo <= code && code <= cid[0].src_code_hi {
        Some(((code - cid[0].src_code_lo) as u32).wrapping_add(cid[0].dst_cid_lo))
    } else {
        cid_of(cid.skip(1), code)
    }
}

/// The first code of `bytes` when tried at `w` bytes and then at every greater
/// width up to four: the shortest prefix that a codespace range of its width
/// holds and a CID range maps.
pub open spec fn scan(codespace: Seq<CodeRange>, cid: Seq<CIDRange>, bytes: Seq<u8>, w: int) -> Option<
    (CharCode, u8),
>
    decreases 5 - w,
{
    if w < 1 || w > 4 || w > bytes.len() {
        None
    } else {
        let code = code_of(bytes, w) as u32;
        if admits(codespace, code, w as u32) && cid_of(cid, code) is Some {
            Some((cid_of(cid, code)->Some_0, w as u8))
        } else {
            scan(codespace, cid, bytes, w + 1)
        }
    }
}

/// The first character of `bytes` under a byte mapping, and the number of
/// bytes it takes: the shortest prefix of one to four bytes that a codespace
/// range of its width holds and a CID range maps.
pub open spec fn next_code(codespace: Seq<CodeRange>, cid: Seq<CIDRange>, bytes: Seq<u8>) -> Option<
    (CharCode, u8),
> {
    scan(codespace, cid, bytes, 1)
}

/// A value of `w` bytes is below `256^w`.
proof fn lemma_code_of_bound(bytes: Seq<u8>, w: int)
    requires
        0 <= w <= 4,
    ensures
        0 <= code_of(bytes, w),
        w == 0 ==> code_of(bytes, w) == 0,
        w == 1 ==> code_of(bytes, w) < 0x100,
        w == 2 ==> code_of(bytes, w) < 0x1_0000,
        w == 3 ==> code_of(bytes, w) < 0x100_0000,
        w == 4 ==> code_of(bytes, w) < 0x1_0000_0000,
    decreases w,
{
    if w > 0 {
        lemma_code_of_bound(bytes, w - 1);
    }
}

impl CIDFontEncoding {
    /// A mapping from its two lists of ranges.
    pub fn new(codespace: Vec<CodeRange>, cid: Vec<CIDRange>) -> (e: CIDFontEncoding)
        ensures
            e.codespace == codespace,
            e.cid == cid,
    {
        CIDFontEncoding { codespace, cid }
    }

    /// The codespace ranges of the two-byte identity mapping.
    pub open spec fn identity_codespace() -> Seq<CodeRange> {
        seq![CodeRange { width: 2, start: 0, end: 0xffff }]
    }

    /// The CID ranges of the two-byte identity mapping.
    pub open spec fn identity_cid() -> Seq<CIDRange> {
        seq![CIDRange { src_code_lo: 0, src_code_hi: 0xffff, dst_cid_lo: 0 }]
    }

    /// Whether this is the two-byte identity mapping: one codespace range
    /// `0..=0xFFFF` of width 2, one CID range that maps every code to itself.
    pub open spec fn is_identity(self) -> bool {
        self.codespace@ == Self::identity_codespace() && self.cid@ == Self::identity_cid()
    }

    /// The two-byte identity mapping, which `Identity-H` and `Identity-V`
    /// stand for.
    pub fn identity() -> (e: CIDFontEncoding)
        ensures
            e.is_identity(),
    {
        let mut codespace: Vec<CodeRange> = Vec::new();
        codespace.push(CodeRange { width: 2, start: 0, end: 0xffff });
        let mut cid: Vec<CIDRange> = Vec::new();
        cid.push(CIDRange { src_code_lo: 0, src_code_hi: 0xffff, dst_cid_lo: 0 });
        proof {
            assert(codespace@ =~= Self::identity_codespace());
            assert(cid@ =~= Self::identity_cid());
        }
        CIDFontEncoding { codespace, cid }
    }

    /// A copy of the mapping.
    pub fn clone(&self) -> (e: CIDFontEncoding)
        ensures
            e.codespace@ == self.codespace@,
            e.cid@ == self.cid@,
    {
        let mut codespace: Vec<CodeRange> = Vec::new();
        let mut i: usize = 0;
        while i < self.codespace.len()
            invariant
                0 <= i <= self.codespace@.len(),
                codespace@ == self.codespace@.take(i as int),
            decreases self.codespace@.len() - i,
        {
            codespace.push(self.codespace[i]);
            i += 1;
            assert(codespace@ =~= self.codespace@.take(i as int));
        }
        assert(self.codespace@.take(i as int) =~= self.codespace@);
        let mut cid: Vec<CIDRange> = Vec::new();
        let mut j: usize = 0;
        while j < self.cid.len()
            invariant
                0 <= j <= self.cid@.len(),
                cid@ == self.cid@.take(j as int),
            decreases self.cid@.len() - j,
        {
            cid.push(self.cid[j]);
            j += 1;
            assert(cid@ =~= self.cid@.take(j as int));
        }
        assert(self.cid@.take(j as int) =~= self.cid@);
        CIDFontEncoding { codespace, cid }
    }

    /// The first character of `bytes` and the number of bytes it takes.
    pub open spec fn spec_next_char(self, bytes: Seq<u8>) -> Option<(CharCode, u8)> {
        next_code(self.codespace@, self.cid@, bytes)
    }

    /// Whether a codespace range of width `width` holds `code`.
    pub fn in_codespace(&self, code: u32, width: u32) -> (r: bool)
        ensures
            r == admits(self.codespace@, code, width),
    {
        let mut i: usize = 0;
        while i < self.codespace.len()
            invariant
                0 <= i <= self.codespace@.len(),
                forall|j: int|
                    0 <= j < i ==> !((#[trigger] self.codespace@[j]).start <= code && code
                        <= self.codespace@[j].end && self.codespace@[j].width == width),
            decreases self.codespace@.len() - i,
        {
            let range = &self.codespace[i];
            if code >= range.start && code <= range.end && range.width == width {
                return true;
            }
            i += 1;
        }
        false
    }

    /// The identifier of `code`, by the first CID range that holds it.
    pub fn map_cid(&self, code: u32) -> (r: Option<u32>)
        ensures
            r == cid_of(self.cid@, code),
    {
        let mut i: usize = 0;
        assert(self.cid@.skip(0) =~= self.cid@);
        while i < self.cid.len()
            invariant
                0 <= i <= self.cid@.len(),
                cid_of(self.cid@, code) == cid_of(self.cid@.skip(i as int), code),
            decreases self.cid@.len() - i,
        {
            let range = &self.cid[i];
            if code >= range.src_code_lo && code <= range.src_code_hi {
                return Some((code - range.src_code_lo).wrapping_add(range.dst_cid_lo));
            }
            proof {
                assert(self.cid@.skip(i as int).skip(1) =~= self.cid@.skip(i + 1));
            }
            i += 1;
        }
        None
    }

    /// The first character of `bytes` and the number of bytes it takes, or
    /// `None` when no prefix of one to four bytes is a mapped code.
    pub fn next_char(&self, bytes: &[u8]) -> (r: Option<(CharCode, u8)>)
        ensures
            r == self.spec_next_char(bytes@),
    {
        if bytes.len() == 0 {
            return None;
        }
        let mut code: u32 = bytes[0] as u32;
        let mut w: u8 = 1;
        proof {
            reveal_with_fuel(code_of, 2);
        }
        loop
            invariant
                1 <= w <= 4,
                w <= bytes@.len(),
                code == code_of(bytes@, w as int),
                self.spec_next_char(bytes@) == scan(self.codespace@, self.cid@, bytes@, w as int),
            decreases 5 - w,
        {
            if self.in_codespace(code, w as u32) {
                match self.map_cid(code) {
                    Some(cid) => {
                        return Some((cid, w));
                    },
                    None => {},
                }
            }
            if w == 4 || w as usize >= bytes.len() {
                assert(scan(self.codespace@, self.cid@, bytes@, w + 1) is None);
                return None;
            }
            proof {
                lemma_code_of_bound(bytes@, w as int);
                lemma_code_of_bound(bytes@, w + 1);
            }
            code = code * 256 + bytes[w as usize] as u32;
            w += 1;
        }
    }
}

/// Under the two-byte identity mapping two bytes make one character, the
/// value they spell in big-endian order; a single byte makes none.
pub proof fn lemma_identity_next_code(bytes: Seq<u8>)
    ensures
        bytes.len() >= 2 ==> next_code(
            CIDFontEncoding::identity_codespace(),
            CIDFontEncoding::identity_cid(),
            bytes,
        ) == Some(((bytes[0] as int * 256 + bytes[1] as int) as u32, 2u8)),
        bytes.len() < 2 ==> next_code(
            CIDFontEncoding::identity_codespace(),
            CIDFontEncoding::identity_cid(),
            bytes,
        ) is None,
{
    reveal_with_fuel(code_of, 3);
    reveal_with_fuel(cid_of, 2);
    reveal_with_fuel(scan, 3);
    let cs = CIDFontEncoding::identity_codespace();
    let cid = CIDFontEncoding::identity_cid();
    assert(cs[0].width == 2);
    if bytes.len() >= 1 {
        let c1 = code_of(bytes, 1) as u32;
        assert(!admits(cs, c1, 1));
    }
    if bytes.len() >= 2 {
        let c2 = code_of(bytes, 2) as u32;
        assert(c2 == bytes[0] as int * 256 + bytes[1] as int);
        assert(cs[0].start <= c2 && c2 <= cs[0].end);
        assert(admits(cs, c2, 2));
        assert(cid_of(cid, c2) == Some(c2));
    }
}

} // verus!
