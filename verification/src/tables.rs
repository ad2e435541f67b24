//! Data that font construction draws on: glyph-name lists, the metrics of the
//! standard fonts, and what the parsers of embedded font programs returned.
//! The metrics are a table that the caller supplies.

use vstd::prelude::*;
use vstd::string::StringSliceAdditionalSpecFns;
use crate::cmap::{CIDFontEncoding, CharCode};
use crate::dingbats::{dingbats_list, zapf_dingbats_list};
use crate::glyphlist::{adobe_glyph_list, glyph_list, holds_list};
use crate::glyphnames::GlyphNames;
use crate::object::{bytes_eq, Number};

verus! {

/// The metrics of one glyph of a standard font: its code in the font's
/// built-in encoding (negative when it has none), its width, its name.
#[derive(Debug)]
pub struct GlyphMetric {
    pub code: i64,
    pub width: Number,
    pub name: String,
}

/// The metrics of one standard font.
#[derive(Debug)]
pub struct FontMetrics {
    pub name: String,
    pub glyphs: Vec<GlyphMetric>,
}

/// The static tables behind font construction.
#[derive(Debug)]
pub struct FontTables {
    /// The general glyph-name list.
    pub glyph_names: GlyphNames,
    /// The glyph-name list of the dingbats font, consulted after the general
    /// one for the glyphs of an embedded compact font.
    pub zapf_names: GlyphNames,
    /// The metrics of the standard fonts.
    pub core_metrics: Vec<FontMetrics>,
}

/// What the parsers of embedded programs made of a font's streams. Each field
/// is consulted only where the font has the stream in question.
#[derive(Debug)]
pub struct FontPrograms {
    /// The `ToUnicode` CMap as pairs of code and UTF-16BE bytes; `None` when
    /// the parser rejected it.
    pub to_unicode: Option<Vec<(CharCode, Vec<u8>)>>,
    /// The compact font program as pairs of code and glyph name, a name being
    /// `None` where the program has none for the code's glyph; `None` when the
    /// parser rejected the program.
    pub cff: Option<Vec<(CharCode, Option<String>)>>,
    /// The `Encoding` CMap of a composite font; `None` when the parser
    /// rejected it.
    pub encoding: Option<CIDFontEncoding>,
}

/// Whether two string slices hold the same text.
pub fn str_is(s: &str, lit: &str) -> (r: bool)
    ensures
        r == (s@ == lit@),
{
    broadcast use vstd::utf8::encode_utf8_decode_utf8;

    proof {
        assert(vstd::utf8::decode_utf8(vstd::utf8::encode_utf8(s@)) == s@);
        assert(vstd::utf8::decode_utf8(vstd::utf8::encode_utf8(lit@)) == lit@);
    }
    bytes_eq(s.as_bytes(), lit.as_bytes())
}

/// Whether a `String` holds the text of `lit`.
pub fn text_is(s: &String, lit: &str) -> (r: bool)
    ensures
        r == (s@ == lit@),
{
    str_is(s.as_str(), lit)
}

/// Whether `name` is one of the fourteen standard fonts.
pub open spec fn spec_is_core_font(name: Seq<char>) -> bool {
    ||| name == "Courier-Bold"@
    ||| name == "Courier-BoldOblique"@
    ||| name == "Courier-Oblique"@
    ||| name == "Courier"@
    ||| name == "Helvetica-Bold"@
    ||| name == "Helvetica-BoldOblique"@
    ||| name == "Helvetica-Oblique"@
    ||| name == "Helvetica"@
    ||| name == "Symbol"@
    ||| name == "Times-Bold"@
    ||| name == "Times-BoldItalic"@
    ||| name == "Times-Italic"@
    ||| name == "Times-Roman"@
    ||| name == "ZapfDingbats"@
}

/// Whether `name` is one of the fourteen standard fonts.
pub fn is_core_font(name: &String) -> (r: bool)
    ensures
        r == spec_is_core_font(name@),
{
    text_is(name, "Courier-Bold") || text_is(name, "Courier-BoldOblique") || text_is(
        name,
        "Courier-Oblique",
    ) || text_is(name, "Courier") || text_is(name, "Helvetica-Bold") || text_is(
        name,
        "Helvetica-BoldOblique",
    ) || text_is(name, "Helvetica-Oblique") || text_is(name, "Helvetica") || text_is(
        name,
        "Symbol",
    ) || text_is(name, "Times-Bold") || text_is(name, "Times-BoldItalic") || text_is(
        name,
        "Times-Italic",
    ) || text_is(name, "Times-Roman") || text_is(name, "ZapfDingbats")
}

/// The first of `metrics` named `name`.
pub open spec fn find_metrics(metrics: Seq<FontMetrics>, name: Seq<char>) -> Option<FontMetrics>
    decreases metrics.len(),
{
    if metrics.len() == 0 {
        None
    } else if metrics[0].name@ == name {
        Some(metrics[0])
    } else {
        find_metrics(metrics.skip(1), name)
    }
}

impl FontTables {
    /// Tables without any entry.
    pub fn new() -> (t: FontTables)
        ensures
            t.glyph_names.entries@.len() == 0,
            t.zapf_names.entries@.len() == 0,
            t.core_metrics@.len() == 0,
    {
        FontTables {
            glyph_names: GlyphNames::new(),
            zapf_names: GlyphNames::new(),
            core_metrics: Vec::new(),
        }
    }

    /// Tables with the two glyph-name lists, and no metrics.
    pub fn with_glyph_lists() -> (t: FontTables)
        ensures
            holds_list(t.glyph_names.entries@, glyph_list()),
            holds_list(t.zapf_names.entries@, dingbats_list()),
            t.core_metrics@.len() == 0,
    {
        FontTables {
            glyph_names: adobe_glyph_list(),
            zapf_names: zapf_dingbats_list(),
            core_metrics: Vec::new(),
        }
    }

    /// The metrics of the standard font `name`, if the tables hold them.
    pub fn metrics_of(&self, name: &String) -> (r: Option<&FontMetrics>)
        ensures
            match r {
                Some(m) => find_metrics(self.core_metrics@, name@) == Some(*m),
                None => find_metrics(self.core_metrics@, name@) is None,
            },
    {
        let mut i: usize = 0;
        assert(self.core_metrics@.skip(0) =~= self.core_metrics@);
        while i < self.core_metrics.len()
            invariant
                0 <= i <= self.core_metrics@.len(),
                find_metrics(self.core_metrics@, name@) == find_metrics(
                    self.core_metrics@.skip(i as int),
                    name@,
                ),
            decreases self.core_metrics@.len() - i,
        {
            if self.core_metrics[i].name == *name {
                return Some(&self.core_metrics[i]);
            }
            proof {
                assert(self.core_metrics@.skip(i as int).skip(1) =~= self.core_metrics@.skip(
                    i + 1,
                ));
            }
            i += 1;
        }
        None
    }
}

impl FontPrograms {
    /// No parsed program at all.
    pub fn none() -> (p: FontPrograms)
        ensures
            p.to_unicode is None,
            p.cff is None,
            p.encoding is None,
    {
        FontPrograms { to_unicode: None, cff: None, encoding: None }
    }
}

} // verus!
