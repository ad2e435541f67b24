//! Width tables: from a `Widths` array, from the metrics of a standard font,
//! and from the `W` array of a composite font.

use vstd::prelude::*;
use vstd::string::StringSliceAdditionalSpecFns;
use std::collections::HashMap;
use crate::cmap::CharCode;
use crate::error::{Failure, PdfError, PdfResult};
use crate::glyphnames::GlyphNames;
use crate::object::{Dictionary, Document, Number, Object};
use crate::object_utils::{
    as_i64, as_num, maybe_get_i64, maybe_get_numbers, numbers_of, spec_as_numbers,
    spec_as_objects, spec_maybe_get_i64, spec_maybe_get_numbers, spec_numbers, to_numbers,
    to_objects,
};
use crate::tables::{find_metrics, is_core_font, spec_is_core_font, FontTables, GlyphMetric};

verus! {

broadcast use vstd::std_specs::hash::group_hash_axioms;

/// A table of widths by character code.
pub type WidthMap = Map<CharCode, Number>;

/// The code of the `i`-th width of an array that starts at `first`: the low 32
/// bits of `first + i`.
pub open spec fn width_code(first: i64, i: usize) -> CharCode {
    (first as u32).wrapping_add(i as u32)
}

/// `m` with the widths of an array entered in order from code `first`.
pub open spec fn array_widths(m: WidthMap, first: i64, widths: Seq<Number>) -> WidthMap
    decreases widths.len(),
{
    if widths.len() == 0 {
        m
    } else {
        array_widths(m, first, widths.drop_last()).insert(
            width_code(first, (widths.len() - 1) as usize),
            widths.last(),
        )
    }
}

/// Where the codes `first`, `first + 1`, ... of an array all fit in 32 bits,
/// the code `first + i` has the `i`-th width of the array, and every other
/// code is as it was.
pub proof fn lemma_array_widths_in_range(m: WidthMap, first: i64, widths: Seq<Number>, k: CharCode)
    requires
        0 <= first,
        first + widths.len() <= 0x1_0000_0000,
    ensures
        first <= k < first + widths.len() ==> array_widths(m, first, widths).contains_key(k)
            && array_widths(m, first, widths)[k] == widths[k - first],
        !(first <= k < first + widths.len()) ==> array_widths(m, first, widths).contains_key(k)
            == m.contains_key(k),
        !(first <= k < first + widths.len()) && m.contains_key(k) ==> array_widths(
            m,
            first,
            widths,
        )[k] == m[k],
    decreases widths.len(),
{
    if widths.len() > 0 {
        let head = widths.drop_last();
        let last = (widths.len() - 1) as usize;
        lemma_array_widths_in_range(m, first, head, k);
        assert(width_code(first, last) == first + last);
        if first <= k < first + widths.len() - 1 {
            assert(head[k - first] == widths[k - first]);
        }
    }
}

/// Enter the widths of an array into `map`, in order from code `first`.
pub fn insert_array(map: &mut HashMap<CharCode, Number>, first: i64, widths: &[Number])
    ensures
        final(map)@ == array_widths(old(map)@, first, widths@),
{
    let mut i: usize = 0;
    while i < widths.len()
        invariant
            0 <= i <= widths@.len(),
            map@ == array_widths(old(map)@, first, widths@.take(i as int)),
        decreases widths@.len() - i,
    {
        let code: u32 = (#[verifier::truncate] (first as u32)).wrapping_add(
            #[verifier::truncate] (i as u32),
        );
        map.insert(code, widths[i]);
        i += 1;
        proof {
            assert(widths@.take(i as int).drop_last() =~= widths@.take(i - 1));
        }
    }
    proof {
        assert(widths@.take(i as int) =~= widths@);
    }
}

/// `m` with `width` entered for every slot below `n` of `encoding` that holds
/// the code unit `unit`, a slot being entered by the low 32 bits of its index.
pub open spec fn assign_slots(m: WidthMap, encoding: Seq<u16>, unit: u16, width: Number, n: int) -> WidthMap
    decreases n,
{
    if n <= 0 {
        m
    } else {
        let p = assign_slots(m, encoding, unit, width, n - 1);
        if encoding[n - 1] == unit {
            p.insert((n - 1) as u32, width)
        } else {
            p
        }
    }
}

/// The code unit of a glyph of the metrics: what the list gives its name, 0
/// when the list does not know it.
pub open spec fn metric_unit(names: GlyphNames, glyph: GlyphMetric) -> u16 {
    match names.spec_lookup(glyph.name@) {
        Some(u) => u,
        None => 0,
    }
}

/// `m` with the widths of `glyphs` entered through `encoding`: each glyph in
/// turn gives its width to every slot that holds its code unit.
pub open spec fn core_widths_encoded(
    m: WidthMap,
    names: GlyphNames,
    encoding: Seq<u16>,
    glyphs: Seq<GlyphMetric>,
) -> WidthMap
    decreases glyphs.len(),
{
    if glyphs.len() == 0 {
        m
    } else {
        assign_slots(
            core_widths_encoded(m, names, encoding, glyphs.drop_last()),
            encoding,
            metric_unit(names, glyphs.last()),
            glyphs.last().width,
            encoding.len() as int,
        )
    }
}

/// `m` with the widths of `glyphs` entered by their own codes; a glyph with a
/// negative code is left out.
pub open spec fn core_widths_plain(m: WidthMap, glyphs: Seq<GlyphMetric>) -> WidthMap
    decreases glyphs.len(),
{
    if glyphs.len() == 0 {
        m
    } else {
        let p = core_widths_plain(m, glyphs.drop_last());
        if glyphs.last().code >= 0 {
            p.insert(glyphs.last().code as u32, glyphs.last().width)
        } else {
            p
        }
    }
}

/// `m` with the metrics of the standard font `base_name` entered: through the
/// encoding where the font has one, by the metrics' own codes otherwise.
/// Unchanged when the tables hold no metrics of that name.
pub open spec fn spec_core_widths(
    m: WidthMap,
    tables: FontTables,
    base_name: Seq<char>,
    encoding: Option<Seq<u16>>,
) -> WidthMap {
    match find_metrics(tables.core_metrics@, base_name) {
        None => m,
        Some(fm) => match encoding {
            Some(enc) => core_widths_encoded(m, tables.glyph_names, enc, fm.glyphs@),
            None => core_widths_plain(m, fm.glyphs@),
        },
    }
}

/// Enter the metrics of the standard font `base_name` into `width_map`.
pub fn load_core_font_widths(
    width_map: &mut HashMap<CharCode, Number>,
    tables: &FontTables,
    base_name: &String,
    encoding: Option<&Vec<u16>>,
)
    ensures
        final(width_map)@ == spec_core_widths(
            old(width_map)@,
            *tables,
            base_name@,
            match encoding {
                Some(e) => Some(e@),
                None => None,
            },
        ),
{
    let fm = match tables.metrics_of(base_name) {
        Some(fm) => fm,
        None => {
            return ;
        },
    };
    match encoding {
        Some(enc) => {
            let mut g: usize = 0;
            while g < fm.glyphs.len()
                invariant
                    0 <= g <= fm.glyphs@.len(),
                    width_map@ == core_widths_encoded(
                        old(width_map)@,
                        tables.glyph_names,
                        enc@,
                        fm.glyphs@.take(g as int),
                    ),
                decreases fm.glyphs@.len() - g,
            {
                let unit: u16 = match tables.glyph_names.name_to_unicode(&fm.glyphs[g].name) {
                    Some(u) => u,
                    None => 0,
                };
                let width = fm.glyphs[g].width;
                let ghost before = width_map@;
                let mut i: usize = 0;
                while i < enc.len()
                    invariant
                        0 <= i <= enc@.len(),
                        width_map@ == assign_slots(before, enc@, unit, width, i as int),
                    decreases enc@.len() - i,
                {
                    if enc[i] == unit {
                        width_map.insert(#[verifier::truncate] (i as u32), width);
                    }
                    i += 1;
                }
                g += 1;
                proof {
                    assert(fm.glyphs@.take(g as int).drop_last() =~= fm.glyphs@.take(g - 1));
                }
            }
            proof {
                assert(fm.glyphs@.take(g as int) =~= fm.glyphs@);
            }
        },
        None => {
            let mut g: usize = 0;
            while g < fm.glyphs.len()
                invariant
                    0 <= g <= fm.glyphs@.len(),
                    width_map@ == core_widths_plain(old(width_map)@, fm.glyphs@.take(g as int)),
                decreases fm.glyphs@.len() - g,
            {
                if fm.glyphs[g].code >= 0 {
                    width_map.insert(
                        #[verifier::truncate]
                        (fm.glyphs[g].code as u32),
                        fm.glyphs[g].width,
                    );
                }
                g += 1;
                proof {
                    assert(fm.glyphs@.take(g as int).drop_last() =~= fm.glyphs@.take(g - 1));
                }
            }
            proof {
                assert(fm.glyphs@.take(g as int) =~= fm.glyphs@);
            }
        },
    }
}

/// The width a simple font gives to codes outside its table: its
/// `MissingWidth`, 0 without one.
pub open spec fn spec_missing_width(font: Dictionary) -> Result<Number, Failure> {
    match font.spec_get("MissingWidth".spec_bytes()) {
        None => Ok(Number::Real(0)),
        Some(o) => o.spec_as_num(),
    }
}

/// The width table of a simple font: from `FirstChar`, `LastChar` and `Widths`
/// where all three are present; else from the standard metrics where
/// `base_name` is a standard font; else empty.
pub open spec fn spec_simple_width_table(
    doc: Document,
    font: Dictionary,
    tables: FontTables,
    base_name: Seq<char>,
    encoding: Option<Seq<u16>>,
) -> WidthMap {
    match (
        spec_maybe_get_i64(doc, font, "FirstChar".spec_bytes()),
        spec_maybe_get_i64(doc, font, "LastChar".spec_bytes()),
        spec_maybe_get_numbers(doc, font, "Widths".spec_bytes()),
    ) {
        (Some(first), Some(_), Some(widths)) => array_widths(Map::empty(), first, widths),
        _ => if spec_is_core_font(base_name) {
            spec_core_widths(Map::empty(), tables, base_name, encoding)
        } else {
            Map::empty()
        },
    }
}

/// The width table of a simple font and its missing width.
pub open spec fn spec_simple_widths(
    doc: Document,
    font: Dictionary,
    tables: FontTables,
    base_name: Seq<char>,
    encoding: Option<Seq<u16>>,
) -> Result<(WidthMap, Number), Failure> {
    match spec_missing_width(font) {
        Err(e) => Err(e),
        Ok(missing) => Ok((spec_simple_width_table(doc, font, tables, base_name, encoding), missing)),
    }
}

/// Whether a width table and a default are the ones a contract names.
pub open spec fn agrees_widths(
    r: PdfResult<(HashMap<CharCode, Number>, Number)>,
    want: Result<(WidthMap, Number), Failure>,
) -> bool {
    match r {
        Ok((m, d)) => want == Ok::<(WidthMap, Number), Failure>((m@, d)),
        Err(e) => want == Err::<(WidthMap, Number), Failure>(e.kind()),
    }
}

/// The width table of a simple font and its missing width. Fails only when
/// `MissingWidth` is present and no number.
pub fn load_simple_widths(
    doc: &Document,
    font: &Dictionary,
    tables: &FontTables,
    base_name: &String,
    encoding: Option<&Vec<u16>>,
) -> (r: PdfResult<(HashMap<CharCode, Number>, Number)>)
    ensures
        agrees_widths(
            r,
            spec_simple_widths(
                *doc,
                *font,
                *tables,
                base_name@,
                match encoding {
                    Some(e) => Some(e@),
                    None => None,
                },
            ),
        ),
{
    let mut width_map: HashMap<CharCode, Number> = HashMap::new();
    let missing_width = match font.get("MissingWidth".as_bytes()) {
        None => Number::Real(0),
        Some(o) => as_num(o)?,
    };
    let first = maybe_get_i64(doc, font, "FirstChar".as_bytes());
    let last = maybe_get_i64(doc, font, "LastChar".as_bytes());
    let widths = maybe_get_numbers(doc, font, "Widths".as_bytes());
    match (first, last, widths) {
        (Some(first_char), Some(_), Some(w)) => {
            insert_array(&mut width_map, first_char, w.as_slice());
        },
        _ => {
            if is_core_font(base_name) {
                load_core_font_widths(&mut width_map, tables, base_name, encoding);
            }
        },
    }
    Ok((width_map, missing_width))
}

/// The number of codes that `FirstChar` and `LastChar` announce, as the width
/// table's size is compared with it: `last - first + 1` in machine arithmetic.
pub open spec fn announced_len(first: i64, last: i64) -> usize {
    last.wrapping_sub(first).wrapping_add(1) as usize
}

/// The width table of a Type 3 font: `FirstChar`, `LastChar` and `Widths` are
/// required, and the table must have as many codes as the first two announce.
pub open spec fn spec_type3_widths(doc: Document, font: Dictionary) -> Result<WidthMap, Failure> {
    match font.spec_require("FirstChar".spec_bytes()) {
        Err(e) => Err(e),
        Ok(f) => match f.spec_as_i64() {
            Err(e) => Err(e),
            Ok(first) => match font.spec_require("LastChar".spec_bytes()) {
                Err(e) => Err(e),
                Ok(l) => match l.spec_as_i64() {
                    Err(e) => Err(e),
                    Ok(last) => match font.spec_require("Widths".spec_bytes()) {
                        Err(e) => Err(e),
                        Ok(w) => match spec_as_numbers(doc, w) {
                            Err(e) => Err(e),
                            Ok(widths) => {
                                let m = array_widths(Map::empty(), first, widths);
                                if m.len() == announced_len(first, last) {
                                    Ok(m)
                                } else {
                                    Err(Failure::InvalidStructure)
                                }
                            },
                        },
                    },
                },
            },
        },
    }
}

/// Whether a width table is the one a contract names.
pub open spec fn agrees_width_map(r: PdfResult<HashMap<CharCode, Number>>, want: Result<WidthMap, Failure>) -> bool {
    match r {
        Ok(m) => want == Ok::<WidthMap, Failure>(m@),
        Err(e) => want == Err::<WidthMap, Failure>(e.kind()),
    }
}

/// The width table of a Type 3 font.
pub fn load_type3_widths(doc: &Document, font: &Dictionary) -> (r: PdfResult<
    HashMap<CharCode, Number>,
>)
    ensures
        agrees_width_map(r, spec_type3_widths(*doc, *font)),
{
    let first = as_i64(font.require("FirstChar".as_bytes())?)?;
    let last = as_i64(font.require("LastChar".as_bytes())?)?;
    let widths = to_numbers(doc, font.require("Widths".as_bytes())?)?;
    let mut width_map: HashMap<CharCode, Number> = HashMap::new();
    insert_array(&mut width_map, first, widths.as_slice());
    if width_map.len() != #[verifier::truncate] (last.wrapping_sub(first).wrapping_add(1) as usize) {
        return Err(PdfError::invalid("Width array size mismatch"));
    }
    Ok(width_map)
}

/// `m` with `width` entered for every identifier from `first` to `last`, each
/// by its low 32 bits.
pub open spec fn range_widths(m: WidthMap, first: int, last: int, width: Number) -> WidthMap
    decreases last - first + 1,
{
    if first > last {
        m
    } else {
        range_widths(m.insert(first as i64 as u32, width), first + 1, last, width)
    }
}

/// Enter `width` for every identifier from `first` to `last`.
pub fn insert_range(map: &mut HashMap<CharCode, Number>, first: i64, last: i64, width: Number)
    ensures
        final(map)@ == range_widths(old(map)@, first as int, last as int, width),
{
    if first > last {
        return ;
    }
    let mut c: i64 = first;
    loop
        invariant
            first <= c <= last,
            range_widths(old(map)@, first as int, last as int, width) == range_widths(
                map@,
                c as int,
                last as int,
                width,
            ),
        decreases last - c,
    {
        map.insert(#[verifier::truncate] (c as u32), width);
        if c == last {
            proof {
                assert(range_widths(map@, c + 1, last as int, width) == map@);
            }
            return ;
        }
        c = c + 1;
    }
}

/// The `W` array read from index `i`: where the next element is an array, an
/// identifier followed by the widths of consecutive identifiers; else, with
/// two more elements to go, a first identifier, a last one, and the width of
/// all between; a tail that is neither is left unread.
pub open spec fn w_fold(m: WidthMap, w: Seq<Object>, i: int) -> Result<WidthMap, Failure>
    decreases w.len() - i,
{
    if i < 0 || i + 1 >= w.len() {
        Ok(m)
    } else {
        match w[i + 1] {
            Object::Array(arr) => match (w[i].spec_as_i64(), spec_numbers(arr@)) {
                (Ok(cid), Ok(widths)) => w_fold(array_widths(m, cid, widths), w, i + 2),
                _ => Err(Failure::InvalidStructure),
            },
            _ => if i + 2 < w.len() {
                match (w[i].spec_as_i64(), w[i + 1].spec_as_i64(), w[i + 2].spec_as_num()) {
                    (Ok(first), Ok(last), Ok(width)) => w_fold(
                        range_widths(m, first as int, last as int, width),
                        w,
                        i + 3,
                    ),
                    _ => Err(Failure::InvalidStructure),
                }
            } else {
                Ok(m)
            },
        }
    }
}

/// The default width of a composite font: its `DW`, 1000 without one.
pub open spec fn spec_default_width(cid_dict: Dictionary) -> Result<Number, Failure> {
    match cid_dict.spec_get("DW".spec_bytes()) {
        None => Ok(Number::Integer(1000)),
        Some(o) => match o.spec_as_i64() {
            Ok(i) => Ok(Number::Integer(i)),
            Err(e) => Err(e),
        },
    }
}

/// The width table of a composite font and its default width.
pub open spec fn spec_cid_widths(doc: Document, cid_dict: Dictionary) -> Result<
    (WidthMap, Number),
    Failure,
> {
    match spec_default_width(cid_dict) {
        Err(e) => Err(e),
        Ok(default_width) => match cid_dict.spec_get("W".spec_bytes()) {
            None => Ok((Map::empty(), default_width)),
            Some(o) => match spec_as_objects(doc, o) {
                Err(e) => Err(e),
                Ok(w) => match w_fold(Map::empty(), w, 0) {
                    Err(e) => Err(e),
                    Ok(m) => Ok((m, default_width)),
                },
            },
        },
    }
}

/// Read a `W` array into `map`.
pub fn read_w_array(map: &mut HashMap<CharCode, Number>, w: &Vec<&Object>) -> (r: PdfResult<()>)
    ensures
        match r {
            Ok(_) => w_fold(old(map)@, Seq::new(w@.len(), |k: int| *w@[k]), 0) == Ok::<
                WidthMap,
                Failure,
            >(final(map)@),
            Err(e) => w_fold(old(map)@, Seq::new(w@.len(), |k: int| *w@[k]), 0) == Err::<
                WidthMap,
                Failure,
            >(e.kind()),
        },
{
    let ghost ws = Seq::new(w@.len(), |k: int| *w@[k]);
    let mut i: usize = 0;
    while i < w.len()
        invariant
            0 <= i <= w@.len(),
            ws == Seq::new(w@.len(), |k: int| *w@[k]),
            w_fold(old(map)@, ws, 0) == w_fold(map@, ws, i as int),
        decreases w@.len() - i,
    {
        if w.len() - i < 2 {
            return Ok(());
        }
        assert(ws[i as int] == *w@[i as int]);
        assert(ws[i + 1] == *w@[i + 1]);
        match w[i + 1] {
            Object::Array(arr) => {
                let cid = match as_i64(w[i]) {
                    Ok(c) => c,
                    Err(_) => {
                        return Err(PdfError::invalid("Invalid CID"));
                    },
                };
                let widths = numbers_of(arr.as_slice())?;
                insert_array(map, cid, widths.as_slice());
                i += 2;
            },
            _ => {
                if w.len() - i < 3 {
                    return Ok(());
                }
                assert(ws[i + 2] == *w@[i + 2]);
                let first = match as_i64(w[i]) {
                    Ok(c) => c,
                    Err(_) => {
                        return Err(PdfError::invalid("Invalid CID"));
                    },
                };
                let last = match as_i64(w[i + 1]) {
                    Ok(c) => c,
                    Err(_) => {
                        return Err(PdfError::invalid("Invalid CID"));
                    },
                };
                let width = as_num(w[i + 2])?;
                insert_range(map, first, last, width);
                i += 3;
            },
        }
    }
    Ok(())
}

/// The width table of a composite font and its default width: `DW` must be an
/// integer where present, `W` an array read as `w_fold` says.
pub fn load_cid_widths(doc: &Document, cid_dict: &Dictionary) -> (r: PdfResult<
    (HashMap<CharCode, Number>, Number),
>)
    ensures
        agrees_widths(r, spec_cid_widths(*doc, *cid_dict)),
{
    let default_width = match cid_dict.get("DW".as_bytes()) {
        None => Number::Integer(1000),
        Some(o) => Number::Integer(as_i64(o)?),
    };
    let mut widths: HashMap<CharCode, Number> = HashMap::new();
    match cid_dict.get("W".as_bytes()) {
        None => {},
        Some(o) => {
            let w = to_objects(doc, o)?;
            read_w_array(&mut widths, &w)?;
        },
    }
    Ok((widths, default_width))
}

} // verus!
