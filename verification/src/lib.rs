//! Text extraction core for PDF documents: string decoding, the object model,
//! fonts and their encodings, colour spaces and the content-stream interpreter.
//! Everything here is integer and byte logic with machine-checked contracts;
//! geometry on real numbers and all input and output are left to the caller.

pub mod error;
pub mod utf16;
pub mod string_utils;
pub mod object;
pub mod object_utils;
pub mod document_utils;
pub mod cmap;
pub mod encodings;
pub mod encoding_names;
pub mod glyphnames;
pub mod glyphlist;
pub mod dingbats;
pub mod unicode_map;
pub mod tables;
pub mod font_encoding;
pub mod widths;
pub mod simple_font;
pub mod cid_font;
pub mod font;
pub mod path;
pub mod function;
pub mod colorspace;
pub mod content;
pub mod text;
pub mod gstate;
pub mod processor;
pub mod interpreter_laws;
pub mod html;
