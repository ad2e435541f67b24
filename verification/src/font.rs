//! Fonts of all three kinds behind one type, and what holds of reading a byte
//! string with any of them.

use vstd::prelude::*;
use vstd::string::{StringExecFns, StringSliceAdditionalSpecFns};
use crate::cid_font::{spec_cid_font, CIDFontModel, PdfCIDFont};
use crate::cmap::{admits, cid_of, code_of, scan, CharCode};
use crate::error::{Failure, PdfResult};
use crate::object::{Dictionary, Document, Number};
use crate::object_utils::{get_name_string, spec_name_string};
use crate::simple_font::{
    spec_byte_code_width, spec_decode_byte_code, spec_next_byte_code, spec_simple_font,
    spec_type3_font, PdfSimpleFont, PdfType3Font, SimpleFontModel,
};
use crate::tables::{text_is, FontPrograms, FontTables};

verus! {

/// A font of a document.
#[derive(Debug)]
pub enum PdfFont {
    Simple(PdfSimpleFont),
    Type3(PdfType3Font),
    Cid(PdfCIDFont),
}

/// What a font is, as contracts see it.
pub enum FontModel {
    Simple(SimpleFontModel),
    Type3(SimpleFontModel),
    Cid(CIDFontModel),
}

impl View for PdfFont {
    type V = FontModel;

    open spec fn view(&self) -> FontModel {
        match self {
            PdfFont::Simple(f) => FontModel::Simple(f@),
            PdfFont::Type3(f) => FontModel::Type3(f@),
            PdfFont::Cid(f) => FontModel::Cid(f@),
        }
    }
}

impl FontModel {
    /// The first character of `bytes` and the number of bytes it takes.
    pub open spec fn spec_next_char(self, bytes: Seq<u8>) -> Option<(CharCode, u8)> {
        match self {
            FontModel::Simple(_) => spec_next_byte_code(bytes),
            FontModel::Type3(_) => spec_next_byte_code(bytes),
            FontModel::Cid(m) => m.spec_next_char(bytes),
        }
    }

    /// The text of one character code.
    pub open spec fn spec_decode_char(self, code: CharCode) -> Seq<char> {
        match self {
            FontModel::Simple(m) => spec_decode_byte_code(m, code),
            FontModel::Type3(m) => spec_decode_byte_code(m, code),
            FontModel::Cid(m) => m.spec_decode_char(code),
        }
    }

    /// The width of one character code.
    pub open spec fn spec_width(self, code: CharCode) -> Number {
        match self {
            FontModel::Simple(m) => spec_byte_code_width(m, code),
            FontModel::Type3(m) => spec_byte_code_width(m, code),
            FontModel::Cid(m) => m.spec_width(code),
        }
    }

    /// The characters read from `bytes` one after the other, each with the
    /// number of bytes it took, up to the first place where none can be read.
    pub open spec fn char_codes(self, bytes: Seq<u8>) -> Seq<(CharCode, u8)>
        decreases bytes.len(),
    {
        match self.spec_next_char(bytes) {
            Some((c, n)) if 1 <= n <= bytes.len() => seq![(c, n)] + self.char_codes(
                bytes.skip(n as int),
            ),
            _ => Seq::empty(),
        }
    }

    /// The text of the characters read from `bytes`.
    pub open spec fn spec_decode(self, bytes: Seq<u8>) -> Seq<char>
        decreases bytes.len(),
    {
        match self.spec_next_char(bytes) {
            Some((c, n)) if 1 <= n <= bytes.len() => self.spec_decode_char(c) + self.spec_decode(
                bytes.skip(n as int),
            ),
            _ => Seq::empty(),
        }
    }

    /// The number of bytes that successive reads take from `bytes`.
    pub open spec fn consumed(self, bytes: Seq<u8>) -> int
        decreases bytes.len(),
    {
        match self.spec_next_char(bytes) {
            Some((c, n)) if 1 <= n <= bytes.len() => n + self.consumed(bytes.skip(n as int)),
            _ => 0,
        }
    }

    /// Whether `bytes` is well formed under the font: empty, or a character
    /// the font reads followed by a well-formed rest.
    pub open spec fn well_formed(self, bytes: Seq<u8>) -> bool
        decreases bytes.len(),
    {
        bytes.len() == 0 || match self.spec_next_char(bytes) {
            Some((c, n)) if 1 <= n <= bytes.len() => self.well_formed(bytes.skip(n as int)),
            _ => false,
        }
    }
}

/// A scan that finds a character finds it at a width from `w` to four that
/// the bytes have: a codespace range of that width holds the code that the
/// bytes spell, and the character is what the CID ranges make of the code.
proof fn lemma_scan_width(m: CIDFontModel, bytes: Seq<u8>, w: int)
    requires
        1 <= w,
    ensures
        scan(m.codespace, m.cid, bytes, w) matches Some((c, n)) ==> w <= n <= 4 && n
            <= bytes.len() && admits(m.codespace, code_of(bytes, n as int) as u32, n as u32)
            && cid_of(m.cid, code_of(bytes, n as int) as u32) == Some(c),
    decreases 5 - w,
{
    if w <= 4 && w <= bytes.len() {
        lemma_scan_width(m, bytes, w + 1);
    }
}

/// What one read takes. A one-byte font always takes exactly one byte, the
/// character being that byte. A composite font takes one to four bytes: as
/// many as the width of a codespace range that holds the code they spell.
pub proof fn lemma_next_char_width(font: FontModel, bytes: Seq<u8>)
    ensures
        font.spec_next_char(bytes) matches Some((c, n)) ==> 1 <= n <= 4 && n <= bytes.len(),
        !(font is Cid) ==> (font.spec_next_char(bytes) is Some <==> bytes.len() > 0),
        !(font is Cid) ==> (font.spec_next_char(bytes) matches Some((c, n)) ==> n == 1 && c
            == bytes[0]),
        font matches FontModel::Cid(m) ==> (font.spec_next_char(bytes) matches Some((c, n))
            ==> admits(m.codespace, code_of(bytes, n as int) as u32, n as u32) && cid_of(
            m.cid,
            code_of(bytes, n as int) as u32,
        ) == Some(c)),
{
    match font {
        FontModel::Cid(m) => {
            lemma_scan_width(m, bytes, 1);
        },
        _ => {},
    }
}

/// Successive reads take the whole of a byte string exactly when it is well
/// formed under the font, and never more than the string holds; the bytes
/// taken are the sum of what the reads report.
pub proof fn lemma_consumed(font: FontModel, bytes: Seq<u8>)
    ensures
        0 <= font.consumed(bytes) <= bytes.len(),
        font.consumed(bytes) == bytes.len() <==> font.well_formed(bytes),
        font.consumed(bytes) == font.char_codes(bytes).fold_left(
            0int,
            |sum: int, read: (CharCode, u8)| sum + read.1,
        ),
    decreases bytes.len(),
{
    let add = |sum: int, read: (CharCode, u8)| sum + read.1;
    match font.spec_next_char(bytes) {
        Some((c, n)) if 1 <= n <= bytes.len() => {
            let rest = bytes.skip(n as int);
            lemma_consumed(font, rest);
            lemma_fold_prepend(font.char_codes(rest), (c, n));
        },
        _ => {
            assert(font.char_codes(bytes).fold_left(0int, add) == 0);
        },
    }
}

/// The sum over a sequence of reads with one more read in front.
proof fn lemma_fold_prepend(reads: Seq<(CharCode, u8)>, first: (CharCode, u8))
    ensures
        (seq![first] + reads).fold_left(0int, |sum: int, read: (CharCode, u8)| sum + read.1)
            == first.1 + reads.fold_left(0int, |sum: int, read: (CharCode, u8)| sum + read.1),
    decreases reads.len(),
{
    let add = |sum: int, read: (CharCode, u8)| sum + read.1;
    if reads.len() == 0 {
        assert(seq![first] + reads =~= seq![first]);
        assert(seq![first].drop_last() =~= Seq::<(CharCode, u8)>::empty());
        reveal_with_fuel(Seq::fold_left, 2);
    } else {
        let all = seq![first] + reads;
        assert(all.drop_last() =~= seq![first] + reads.drop_last());
        assert(all.last() == reads.last());
        lemma_fold_prepend(reads.drop_last(), first);
    }
}

/// Every byte string is well formed under a one-byte font: successive reads
/// take all of it, one byte each.
pub proof fn lemma_byte_font_reads_all(font: FontModel, bytes: Seq<u8>)
    requires
        !(font is Cid),
    ensures
        font.well_formed(bytes),
        font.consumed(bytes) == bytes.len(),
        font.char_codes(bytes).len() == bytes.len(),
        forall|i: int|
            0 <= i < bytes.len() ==> #[trigger] font.char_codes(bytes)[i] == (
                bytes[i] as CharCode,
                1u8,
            ),
    decreases bytes.len(),
{
    if bytes.len() > 0 {
        let rest = bytes.skip(1);
        lemma_byte_font_reads_all(font, rest);
        assert forall|i: int| 0 <= i < bytes.len() implies #[trigger] font.char_codes(bytes)[i] == (
            bytes[i] as CharCode,
            1u8,
        ) by {
            if i > 0 {
                assert(font.char_codes(bytes)[i] == font.char_codes(rest)[i - 1]);
                assert(rest[i - 1] == bytes[i]);
            }
        }
    }
}

/// Under the two-byte identity mapping successive reads take the bytes in
/// pairs and leave a last odd byte unread: a byte string is well formed
/// exactly when its length is even.
pub proof fn lemma_identity_reads_pairs(font: FontModel, bytes: Seq<u8>)
    requires
        font matches FontModel::Cid(m) && m.codespace
            == crate::cmap::CIDFontEncoding::identity_codespace() && m.cid
            == crate::cmap::CIDFontEncoding::identity_cid(),
    ensures
        font.consumed(bytes) == bytes.len() - bytes.len() % 2,
        font.char_codes(bytes).len() == bytes.len() / 2,
        font.well_formed(bytes) <==> bytes.len() % 2 == 0,
        forall|i: int|
            0 <= i < bytes.len() / 2 ==> #[trigger] font.char_codes(bytes)[i] == (
                (bytes[2 * i] as int * 256 + bytes[2 * i + 1] as int) as u32,
                2u8,
            ),
    decreases bytes.len(),
{
    crate::cmap::lemma_identity_next_code(bytes);
    if bytes.len() >= 2 {
        let rest = bytes.skip(2);
        lemma_identity_reads_pairs(font, rest);
        assert forall|i: int| 0 <= i < bytes.len() / 2 implies #[trigger] font.char_codes(bytes)[i]
            == ((bytes[2 * i] as int * 256 + bytes[2 * i + 1] as int) as u32, 2u8) by {
            if i > 0 {
                assert(font.char_codes(bytes)[i] == font.char_codes(rest)[i - 1]);
                assert(rest[2 * (i - 1)] == bytes[2 * i]);
                assert(rest[2 * (i - 1) + 1] == bytes[2 * i + 1]);
            }
        }
    }
}

/// The font that a font dictionary describes: a composite font for subtype
/// `Type0`, a Type 3 font for `Type3`, a simple font for any other subtype.
pub open spec fn spec_make_font(doc: Document, font: Dictionary, tables: FontTables, programs: FontPrograms) -> Result<
    FontModel,
    Failure,
> {
    match spec_name_string(doc, font, "Subtype".spec_bytes()) {
        Err(e) => Err(e),
        Ok(subtype) => if subtype == "Type0"@ {
            match spec_cid_font(doc, font, programs) {
                Ok(m) => Ok(FontModel::Cid(m)),
                Err(e) => Err(e),
            }
        } else if subtype == "Type3"@ {
            match spec_type3_font(doc, font, tables, programs) {
                Ok(m) => Ok(FontModel::Type3(m)),
                Err(e) => Err(e),
            }
        } else {
            match spec_simple_font(doc, font, tables, programs) {
                Ok(m) => Ok(FontModel::Simple(m)),
                Err(e) => Err(e),
            }
        },
    }
}

/// Whether a font result is the model a contract names.
pub open spec fn agrees_font(r: PdfResult<PdfFont>, want: Result<FontModel, Failure>) -> bool {
    match r {
        Ok(f) => want == Ok::<FontModel, Failure>(f@),
        Err(e) => want == Err::<FontModel, Failure>(e.kind()),
    }
}

/// Build the font that `font` describes. `tables` are the static tables;
/// `programs` is what the parsers made of the font's embedded streams, each
/// consulted only where the font has the stream.
pub fn make_font(doc: &Document, font: &Dictionary, tables: &FontTables, programs: &FontPrograms) -> (r:
    PdfResult<PdfFont>)
    ensures
        agrees_font(r, spec_make_font(*doc, *font, *tables, *programs)),
{
    let subtype = get_name_string(doc, font, "Subtype".as_bytes())?;
    if text_is(&subtype, "Type0") {
        let f = PdfCIDFont::new(doc, font, programs)?;
        Ok(PdfFont::Cid(f))
    } else if text_is(&subtype, "Type3") {
        let f = PdfType3Font::new(doc, font, tables, programs)?;
        Ok(PdfFont::Type3(f))
    } else {
        let f = PdfSimpleFont::new(doc, font, tables, programs)?;
        Ok(PdfFont::Simple(f))
    }
}

impl PdfFont {
    /// The width of `id`, in thousandths of the font size.
    pub fn get_width(&self, id: CharCode) -> (w: Number)
        ensures
            w == self@.spec_width(id),
    {
        match self {
            PdfFont::Simple(f) => f.get_width(id),
            PdfFont::Type3(f) => f.get_width(id),
            PdfFont::Cid(f) => f.get_width(id),
        }
    }

    /// The first character of `bytes` and the number of bytes it takes: one
    /// to four, and no more than `bytes` holds. `None` when no character can
    /// be read.
    pub fn next_char(&self, bytes: &[u8]) -> (r: Option<(CharCode, u8)>)
        ensures
            r == self@.spec_next_char(bytes@),
            r matches Some((c, n)) ==> 1 <= n <= 4 && n <= bytes@.len(),
    {
        proof {
            lemma_next_char_width(self@, bytes@);
        }
        match self {
            PdfFont::Simple(f) => f.next_char(bytes),
            PdfFont::Type3(f) => f.next_char(bytes),
            PdfFont::Cid(f) => f.next_char(bytes),
        }
    }

    /// The text of one character code.
    pub fn decode_char(&self, code: CharCode) -> (s: String)
        ensures
            s@ == self@.spec_decode_char(code),
    {
        match self {
            PdfFont::Simple(f) => f.decode_char(code),
            PdfFont::Type3(f) => f.decode_char(code),
            PdfFont::Cid(f) => f.decode_char(code),
        }
    }

    /// The characters of `chars`, each with the number of bytes it took.
    pub fn char_codes(&self, chars: &[u8]) -> (r: Vec<(CharCode, u8)>)
        ensures
            r@ == self@.char_codes(chars@),
    {
        let mut out: Vec<(CharCode, u8)> = Vec::new();
        let mut pos: usize = 0;
        assert(chars@.skip(0) =~= chars@);
        loop
            invariant
                0 <= pos <= chars@.len(),
                self@.char_codes(chars@) == out@ + self@.char_codes(chars@.skip(pos as int)),
            decreases chars@.len() - pos,
        {
            let rest = vstd::slice::slice_subrange(chars, pos, chars.len());
            assert(rest@ =~= chars@.skip(pos as int));
            match self.next_char(rest) {
                Some((c, n)) => {
                    proof {
                        assert(rest@.skip(n as int) =~= chars@.skip(pos + n));
                        assert((out@.push((c, n))) + self@.char_codes(rest@.skip(n as int)) =~= out@
                            + (seq![(c, n)] + self@.char_codes(rest@.skip(n as int))));
                    }
                    out.push((c, n));
                    pos += n as usize;
                },
                None => {
                    assert(out@ + Seq::<(CharCode, u8)>::empty() =~= out@);
                    return out;
                },
            }
        }
    }

    /// The text of `chars`: the text of each character read from it, up to
    /// the first place where none can be read.
    pub fn decode(&self, chars: &[u8]) -> (r: String)
        ensures
            r@ == self@.spec_decode(chars@),
    {
        let mut result = String::new();
        let mut pos: usize = 0;
        assert(chars@.skip(0) =~= chars@);
        assert(result@ + self@.spec_decode(chars@) =~= self@.spec_decode(chars@));
        loop
            invariant
                0 <= pos <= chars@.len(),
                self@.spec_decode(chars@) == result@ + self@.spec_decode(chars@.skip(pos as int)),
            decreases chars@.len() - pos,
        {
            let rest = vstd::slice::slice_subrange(chars, pos, chars.len());
            assert(rest@ =~= chars@.skip(pos as int));
            match self.next_char(rest) {
                Some((c, n)) => {
                    let text = self.decode_char(c);
                    proof {
                        assert(rest@.skip(n as int) =~= chars@.skip(pos + n));
                        assert((result@ + text@) + self@.spec_decode(rest@.skip(n as int)) =~= result@
                            + (text@ + self@.spec_decode(rest@.skip(n as int))));
                    }
                    result.append(text.as_str());
                    pos += n as usize;
                },
                None => {
                    assert(result@ + Seq::<char>::empty() =~= result@);
                    return result;
                },
            }
        }
    }
}

/// A cursor over the characters of a byte string.
pub struct PdfFontIter<'a> {
    font: &'a PdfFont,
    bytes: &'a [u8],
    pos: usize,
}

impl<'a> PdfFontIter<'a> {
    /// The cursor never lies beyond the end of the bytes.
    #[verifier::type_invariant]
    spec fn in_bounds(self) -> bool {
        self.pos <= self.bytes@.len()
    }

    /// The font that reads.
    pub closed spec fn font(self) -> FontModel {
        self.font@
    }

    /// The bytes not yet read.
    pub closed spec fn remaining(self) -> Seq<u8> {
        self.bytes@.skip(self.pos as int)
    }

    /// A cursor at the start of `bytes`.
    pub fn new(font: &'a PdfFont, bytes: &'a [u8]) -> (it: PdfFontIter<'a>)
        ensures
            it.font() == font@,
            it.remaining() == bytes@,
    {
        assert(bytes@.skip(0) =~= bytes@);
        PdfFontIter { font, bytes, pos: 0 }
    }

    /// Read the next character: the font's reading of the remaining bytes,
    /// which then lose the bytes it took. At `None` nothing changes.
    pub fn next(&mut self) -> (r: Option<(CharCode, u8)>)
        ensures
            r == old(self).font().spec_next_char(old(self).remaining()),
            final(self).font() == old(self).font(),
            final(self).remaining() == match r {
                Some((c, n)) => old(self).remaining().skip(n as int),
                None => old(self).remaining(),
            },
    {
        proof {
            use_type_invariant(&*self);
        }
        let rest = vstd::slice::slice_subrange(self.bytes, self.pos, self.bytes.len());
        assert(rest@ =~= self.bytes@.skip(self.pos as int));
        let r = self.font.next_char(rest);
        match r {
            Some((c, n)) => {
                assert(rest@.skip(n as int) =~= self.bytes@.skip(self.pos + n));
                self.pos = self.pos + n as usize;
            },
            None => {},
        }
        r
    }
}

} // verus!
