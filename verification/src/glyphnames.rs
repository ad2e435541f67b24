//! Glyph-name lists: the tables by which a glyph name is turned into a Unicode
//! code unit.

use vstd::prelude::*;

verus! {

/// A glyph-name list: each entry gives a name its code unit. A name that
/// occurs twice is read by its first entry.
#[derive(Debug)]
pub struct GlyphNames {
    pub entries: Vec<(String, u16)>,
}

/// The code unit of the first of `entries` named `name`.
pub open spec fn glyph_code(entries: Seq<(String, u16)>, name: Seq<char>) -> Option<u16>
    decreases entries.len(),
{
    if entries.len() == 0 {
        None
    } else if entries[0].0@ == name {
        Some(entries[0].1)
    } else {
        glyph_code(entries.skip(1), name)
    }
}

impl GlyphNames {
    /// A list without entries.
    pub fn new() -> (g: GlyphNames)
        ensures
            g.entries@.len() == 0,
    {
        GlyphNames { entries: Vec::new() }
    }

    /// Add an entry after those already there.
    pub fn push(&mut self, name: String, code: u16)
        ensures
            final(self).entries@ == old(self).entries@.push((name, code)),
    {
        self.entries.push((name, code));
    }

    /// The code unit that the list gives to `name`.
    pub open spec fn spec_lookup(self, name: Seq<char>) -> Option<u16> {
        glyph_code(self.entries@, name)
    }

    /// The code unit that the list gives to `name`, if it knows the name.
    pub fn name_to_unicode(&self, name: &String) -> (r: Option<u16>)
        ensures
            r == self.spec_lookup(name@),
    {
        let mut i: usize = 0;
        assert(self.entries@.skip(0) =~= self.entries@);
        while i < self.entries.len()
            invariant
                0 <= i <= self.entries@.len(),
                glyph_code(self.entries@, name@) == glyph_code(
                    self.entries@.skip(i as int),
                    name@,
                ),
            decreases self.entries@.len() - i,
        {
            if self.entries[i].0 == *name {
                return Some(self.entries[i].1);
            }
            proof {
                assert(self.entries@.skip(i as int).skip(1) =~= self.entries@.skip(i + 1));
            }
            i += 1;
        }
        None
    }
}

} // verus!
