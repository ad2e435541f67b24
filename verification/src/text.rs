//! Showing text: the glyphs that a string stands for under a font.

use vstd::prelude::*;
use crate::cmap::CharCode;
use crate::font::{FontModel, PdfFont};
use crate::object::Number;

verus! {

/// One glyph to show: its character code, the number of bytes the code took,
/// its width in thousandths of the font size, its text, and whether word
/// spacing applies to it.
#[derive(Debug)]
pub struct Glyph {
    pub code: CharCode,
    pub length: u8,
    pub width: Number,
    pub text: String,
    pub word_space: bool,
}

/// What a glyph is, as contracts see it.
pub struct GlyphModel {
    pub code: CharCode,
    pub length: u8,
    pub width: Number,
    pub text: Seq<char>,
    pub word_space: bool,
}

impl View for Glyph {
    type V = GlyphModel;

    open spec fn view(&self) -> GlyphModel {
        GlyphModel {
            code: self.code,
            length: self.length,
            width: self.width,
            text: self.text@,
            word_space: self.word_space,
        }
    }
}

/// The models of a sequence of glyphs.
pub open spec fn glyph_models(glyphs: Seq<Glyph>) -> Seq<GlyphModel> {
    Seq::new(glyphs.len(), |i: int| glyphs[i]@)
}

/// Whether word spacing applies to a character: only to the single byte 32,
/// never to a code of several bytes.
pub open spec fn is_word_space(code: CharCode, length: u8) -> bool {
    code == 32 && length == 1
}

/// The glyph of one character read under `font`.
pub open spec fn glyph_of(font: FontModel, read: (CharCode, u8)) -> GlyphModel {
    GlyphModel {
        code: read.0,
        length: read.1,
        width: font.spec_width(read.0),
        text: font.spec_decode_char(read.0),
        word_space: is_word_space(read.0, read.1),
    }
}

/// The glyphs of a string under `font`: one for each character that
/// successive reads give, up to the first place where none can be read.
pub open spec fn spec_glyphs(font: FontModel, s: Seq<u8>) -> Seq<GlyphModel> {
    Seq::new(font.char_codes(s).len(), |i: int| glyph_of(font, font.char_codes(s)[i]))
}

/// The glyphs of a string under `font`.
pub fn glyphs(font: &PdfFont, s: &[u8]) -> (r: Vec<Glyph>)
    ensures
        glyph_models(r@) == spec_glyphs(font@, s@),
{
    let codes = font.char_codes(s);
    let mut out: Vec<Glyph> = Vec::new();
    let mut i: usize = 0;
    while i < codes.len()
        invariant
            0 <= i <= codes@.len(),
            codes@ == font@.char_codes(s@),
            out@.len() == i,
            forall|k: int| 0 <= k < i ==> (#[trigger] out@[k])@ == glyph_of(font@, codes@[k]),
        decreases codes@.len() - i,
    {
        let (code, length) = codes[i];
        out.push(
            Glyph {
                code,
                length,
                width: font.get_width(code),
                text: font.decode_char(code),
                word_space: code == 32 && length == 1,
            },
        );
        i += 1;
    }
    assert(glyph_models(out@) =~= spec_glyphs(font@, s@));
    out
}

/// The text that a sequence of glyphs spells.
pub open spec fn glyphs_text(glyphs: Seq<GlyphModel>) -> Seq<char>
    decreases glyphs.len(),
{
    if glyphs.len() == 0 {
        Seq::empty()
    } else {
        glyphs[0].text + glyphs_text(glyphs.skip(1))
    }
}

/// The glyphs of a string spell the text that the font decodes the string to.
pub proof fn lemma_glyphs_spell_decoded(font: FontModel, s: Seq<u8>)
    ensures
        glyphs_text(spec_glyphs(font, s)) == font.spec_decode(s),
    decreases s.len(),
{
    match font.spec_next_char(s) {
        Some((c, n)) if 1 <= n <= s.len() => {
            let rest = s.skip(n as int);
            lemma_glyphs_spell_decoded(font, rest);
            assert(spec_glyphs(font, s).skip(1) =~= spec_glyphs(font, rest));
        },
        _ => {},
    }
}

} // verus!
