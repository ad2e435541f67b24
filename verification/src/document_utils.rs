//! The entry points of a document: information dictionary, catalog, page
//! tree, and what a page inherits from its ancestors.

use vstd::prelude::*;
use vstd::string::StringSliceAdditionalSpecFns;
use crate::error::{Failure, PdfError, PdfResult};
use crate::object::{Dictionary, Document, Number, Object, ObjectId};
use crate::object_utils::{
    agrees_ref, agrees_seq, same_ref, spec_as_numbers, spec_get_dict, to_numbers,
};

verus! {

/// The information dictionary: the dictionary that the trailer's `Info`
/// refers to.
pub open spec fn spec_get_info(doc: Document) -> Option<Dictionary> {
    match doc.trailer.spec_get("Info".spec_bytes()) {
        Some(Object::Reference(id)) => match doc.spec_get_object(id) {
            Ok(Object::Dictionary(d)) => Some(d),
            _ => None,
        },
        _ => None,
    }
}

/// Get the document's information dictionary, if it has one.
pub fn get_info(doc: &Document) -> (r: Option<&Dictionary>)
    ensures
        same_ref(r, spec_get_info(*doc)),
{
    match doc.trailer.get("Info".as_bytes()) {
        Some(Object::Reference(id)) => match doc.get_object(*id) {
            Ok(Object::Dictionary(d)) => Some(d),
            _ => None,
        },
        _ => None,
    }
}

/// The dictionary that `dict` refers to under `key`: the entry must be there,
/// must be a reference, and must lead to a dictionary.
pub open spec fn spec_referenced_dict(doc: Document, dict: Dictionary, key: Seq<u8>) -> Result<
    Dictionary,
    Failure,
> {
    match dict.spec_get(key) {
        None => Err(Failure::MissingField(key)),
        Some(Object::Reference(id)) => match doc.spec_get_object(id) {
            Err(e) => Err(e),
            Ok(Object::Dictionary(d)) => Ok(d),
            Ok(_) => Err(Failure::InvalidStructure),
        },
        Some(_) => Err(Failure::InvalidStructure),
    }
}

/// The dictionary that `dict` refers to under `key`.
fn referenced_dict<'a>(doc: &'a Document, dict: &'a Dictionary, key: &[u8]) -> (r: PdfResult<
    &'a Dictionary,
>)
    ensures
        agrees_ref(r, spec_referenced_dict(*doc, *dict, key@)),
{
    match dict.require(key)? {
        Object::Reference(id) => match doc.get_object(*id)? {
            Object::Dictionary(d) => Ok(d),
            _ => Err(PdfError::invalid("Expected a dictionary")),
        },
        _ => Err(PdfError::invalid("Expected a reference")),
    }
}

/// The catalog: the dictionary that the trailer's `Root` refers to.
pub open spec fn spec_get_catalog(doc: Document) -> Result<Dictionary, Failure> {
    spec_referenced_dict(doc, doc.trailer, "Root".spec_bytes())
}

/// Get the document catalog: `MissingField` without `Root`, `InvalidStructure`
/// when `Root` is no reference or leads to no dictionary, `Parse` when it
/// leads nowhere.
pub fn get_catalog(doc: &Document) -> (r: PdfResult<&Dictionary>)
    ensures
        agrees_ref(r, spec_get_catalog(*doc)),
{
    referenced_dict(doc, &doc.trailer, "Root".as_bytes())
}

/// The root of the page tree: the dictionary that the catalog's `Pages`
/// refers to.
pub open spec fn spec_get_pages(doc: Document) -> Result<Dictionary, Failure> {
    match spec_get_catalog(doc) {
        Err(e) => Err(e),
        Ok(catalog) => spec_referenced_dict(doc, catalog, "Pages".spec_bytes()),
    }
}

/// Get the root of the page tree, with the errors of `get_catalog` for either
/// step.
pub fn get_pages(doc: &Document) -> (r: PdfResult<&Dictionary>)
    ensures
        agrees_ref(r, spec_get_pages(*doc)),
{
    let catalog = get_catalog(doc)?;
    referenced_dict(doc, catalog, "Pages".as_bytes())
}

/// The parent of a node of the page tree: the dictionary that its `Parent`
/// refers to.
pub open spec fn spec_parent(doc: Document, dict: Dictionary) -> Option<Dictionary> {
    match dict.spec_get("Parent".spec_bytes()) {
        Some(Object::Reference(id)) => doc.spec_get_dictionary(id),
        _ => None,
    }
}

/// The parent of a node of the page tree.
pub fn parent<'a>(doc: &'a Document, dict: &'a Dictionary) -> (r: Option<&'a Dictionary>)
    ensures
        same_ref(r, spec_parent(*doc, *dict)),
{
    match dict.get("Parent".as_bytes()) {
        Some(Object::Reference(id)) => doc.get_dictionary(*id),
        _ => None,
    }
}

/// The dictionary under `key` at `dict` or at the nearest of its ancestors
/// that has one, looking no further than `fuel` parents up.
pub open spec fn spec_inherited_dict(doc: Document, dict: Dictionary, key: Seq<u8>, fuel: nat) -> Option<
    Dictionary,
>
    decreases fuel,
{
    match spec_get_dict(doc, dict, key) {
        Ok(d) => Some(d),
        Err(_) => if fuel == 0 {
            None
        } else {
            match spec_parent(doc, dict) {
                Some(p) => spec_inherited_dict(doc, p, key, (fuel - 1) as nat),
                None => None,
            }
        },
    }
}

/// The dictionary under `key` that a node of the page tree has or inherits.
/// The walk up ends after as many parents as the document has objects, which
/// is further than any chain without a cycle reaches.
pub fn get_inherited_dict<'a>(doc: &'a Document, dict: &'a Dictionary, key: &[u8]) -> (r: Option<
    &'a Dictionary,
>)
    ensures
        same_ref(r, spec_inherited_dict(*doc, *dict, key@, doc.objects@.len())),
{
    let mut node: &'a Dictionary = dict;
    let mut fuel: usize = doc.objects.len();
    loop
        invariant
            fuel <= doc.objects@.len(),
            spec_inherited_dict(*doc, *dict, key@, doc.objects@.len()) == spec_inherited_dict(
                *doc,
                *node,
                key@,
                fuel as nat,
            ),
        decreases fuel,
    {
        match crate::object_utils::get_dict(doc, node, key) {
            Ok(d) => {
                return Some(d);
            },
            Err(_) => {},
        }
        if fuel == 0 {
            return None;
        }
        match parent(doc, node) {
            Some(p) => {
                node = p;
                fuel -= 1;
            },
            None => {
                return None;
            },
        }
    }
}

/// The numbers under `key` at `dict`: the entry must be an array of numbers.
pub open spec fn spec_get_numbers(doc: Document, dict: Dictionary, key: Seq<u8>) -> Result<
    Seq<Number>,
    Failure,
> {
    match dict.spec_get(key) {
        None => Err(Failure::MissingField(key)),
        Some(o) => spec_as_numbers(doc, o),
    }
}

/// The numbers under `key`: `MissingField` without the key, an error when the
/// value is no array of numbers.
pub fn get_numbers(doc: &Document, dict: &Dictionary, key: &[u8]) -> (r: PdfResult<Vec<Number>>)
    ensures
        agrees_seq(r, spec_get_numbers(*doc, *dict, key@)),
{
    let o = dict.require(key)?;
    to_numbers(doc, o)
}

/// The numbers under `key` at `dict` or at the nearest of its ancestors that
/// has an array of numbers there, looking no further than `fuel` parents up.
pub open spec fn spec_inherited_numbers(doc: Document, dict: Dictionary, key: Seq<u8>, fuel: nat) -> Option<
    Seq<Number>,
>
    decreases fuel,
{
    match spec_get_numbers(doc, dict, key) {
        Ok(v) => Some(v),
        Err(_) => if fuel == 0 {
            None
        } else {
            match spec_parent(doc, dict) {
                Some(p) => spec_inherited_numbers(doc, p, key, (fuel - 1) as nat),
                None => None,
            }
        },
    }
}

/// The numbers under `key` that a node of the page tree has or inherits.
pub fn get_inherited_numbers(doc: &Document, dict: &Dictionary, key: &[u8]) -> (r: Option<
    Vec<Number>,
>)
    ensures
        match r {
            Some(v) => spec_inherited_numbers(*doc, *dict, key@, doc.objects@.len()) == Some(v@),
            None => spec_inherited_numbers(*doc, *dict, key@, doc.objects@.len()) is None,
        },
{
    let mut node: &Dictionary = dict;
    let mut fuel: usize = doc.objects.len();
    loop
        invariant
            fuel <= doc.objects@.len(),
            spec_inherited_numbers(*doc, *dict, key@, doc.objects@.len())
                == spec_inherited_numbers(*doc, *node, key@, fuel as nat),
        decreases fuel,
    {
        match get_numbers(doc, node, key) {
            Ok(v) => {
                return Some(v);
            },
            Err(_) => {},
        }
        if fuel == 0 {
            return None;
        }
        match parent(doc, node) {
            Some(p) => {
                node = p;
                fuel -= 1;
            },
            None => {
                return None;
            },
        }
    }
}

/// A rectangle by its lower-left and upper-right corners.
#[derive(Clone, Copy, Debug, PartialEq, Eq, Structural)]
pub struct MediaBox {
    pub llx: Number,
    pub lly: Number,
    pub urx: Number,
    pub ury: Number,
}

/// The rectangle that the first four of `v` describe.
pub open spec fn spec_rectangle(v: Seq<Number>) -> Result<MediaBox, Failure> {
    if v.len() >= 4 {
        Ok(MediaBox { llx: v[0], lly: v[1], urx: v[2], ury: v[3] })
    } else {
        Err(Failure::InvalidStructure)
    }
}

/// The rectangle that the first four of `v` describe; `InvalidStructure` when
/// there are fewer.
pub fn rectangle(v: &Vec<Number>) -> (r: PdfResult<MediaBox>)
    ensures
        crate::error::agrees(r, spec_rectangle(v@)),
{
    if v.len() >= 4 {
        Ok(MediaBox { llx: v[0], lly: v[1], urx: v[2], ury: v[3] })
    } else {
        Err(PdfError::invalid("Expected four numbers"))
    }
}

/// What interpreting a page starts from.
pub struct PageSetup<'a> {
    /// The resources the page has or inherits; `None` stands for an empty
    /// dictionary.
    pub resources: Option<&'a Dictionary>,
    /// The media box the page has or inherits.
    pub media_box: MediaBox,
    /// The art box of the page itself.
    pub art_box: Option<MediaBox>,
}

/// What a contract says of a page's setup.
pub struct PageModel {
    pub resources: Option<Dictionary>,
    pub media_box: MediaBox,
    pub art_box: Option<MediaBox>,
}

impl<'a> View for PageSetup<'a> {
    type V = PageModel;

    open spec fn view(&self) -> PageModel {
        PageModel {
            resources: match self.resources {
                Some(d) => Some(*d),
                None => None,
            },
            media_box: self.media_box,
            art_box: self.art_box,
        }
    }
}

/// The art box of a page: absent without `ArtBox`, else its four numbers.
pub open spec fn spec_art_box(doc: Document, page: Dictionary) -> Result<Option<MediaBox>, Failure> {
    match page.spec_get("ArtBox".spec_bytes()) {
        None => Ok(None),
        Some(o) => match spec_as_numbers(doc, o) {
            Err(e) => Err(e),
            Ok(v) => match spec_rectangle(v) {
                Err(e) => Err(e),
                Ok(b) => Ok(Some(b)),
            },
        },
    }
}

/// The setup of the page with identifier `id`: the page must be a dictionary;
/// resources and media box are inherited; a missing media box is a
/// `MissingField` error.
pub open spec fn spec_page_setup(doc: Document, id: ObjectId) -> Result<PageModel, Failure> {
    match doc.spec_get_object(id) {
        Err(e) => Err(e),
        Ok(Object::Dictionary(page)) => {
            let fuel = doc.objects@.len();
            match spec_inherited_numbers(doc, page, "MediaBox".spec_bytes(), fuel) {
                None => Err(Failure::MissingField("MediaBox".spec_bytes())),
                Some(v) => match spec_rectangle(v) {
                    Err(e) => Err(e),
                    Ok(media_box) => match spec_art_box(doc, page) {
                        Err(e) => Err(e),
                        Ok(art_box) => Ok(
                            PageModel {
                                resources: spec_inherited_dict(
                                    doc,
                                    page,
                                    "Resources".spec_bytes(),
                                    fuel,
                                ),
                                media_box,
                                art_box,
                            },
                        ),
                    },
                },
            }
        },
        Ok(_) => Err(Failure::InvalidStructure),
    }
}

/// Resolve what interpreting the page with identifier `id` starts from.
pub fn page_setup<'a>(doc: &'a Document, id: ObjectId) -> (r: PdfResult<PageSetup<'a>>)
    ensures
        match r {
            Ok(p) => spec_page_setup(*doc, id) == Ok::<PageModel, Failure>(p@),
            Err(e) => spec_page_setup(*doc, id) == Err::<PageModel, Failure>(e.kind()),
        },
{
    let page = match doc.get_object(id)? {
        Object::Dictionary(d) => d,
        _ => {
            return Err(PdfError::invalid("Page object must be dictionary"));
        },
    };
    let resources = get_inherited_dict(doc, page, "Resources".as_bytes());
    let media_box = match get_inherited_numbers(doc, page, "MediaBox".as_bytes()) {
        Some(v) => rectangle(&v)?,
        None => {
            return Err(PdfError::missing("MediaBox".as_bytes()));
        },
    };
    let art_box = match page.get("ArtBox".as_bytes()) {
        None => None,
        Some(o) => {
            let v = to_numbers(doc, o)?;
            Some(rectangle(&v)?)
        },
    };
    Ok(PageSetup { resources, media_box, art_box })
}

/// The identifier of page `page_num`, pages being counted from 1.
pub open spec fn spec_find_page(doc: Document, page_num: u32) -> Result<ObjectId, Failure> {
    if 1 <= page_num <= doc.pages@.len() {
        Ok(doc.pages@[page_num - 1])
    } else {
        Err(Failure::InvalidStructure)
    }
}

/// The identifier of page `page_num`; `InvalidStructure` when the document
/// has no such page.
pub fn find_page(doc: &Document, page_num: u32) -> (r: PdfResult<ObjectId>)
    ensures
        crate::error::agrees(r, spec_find_page(*doc, page_num)),
{
    if page_num >= 1 && (page_num as usize) <= doc.pages.len() {
        Ok(doc.pages[(page_num - 1) as usize])
    } else {
        Err(PdfError::invalid("Page not found"))
    }
}

} // verus!
