//! The standard one-byte encodings as tables of glyph names, and their
//! resolution to code units through a glyph-name list.

use vstd::prelude::*;
use crate::glyphnames::GlyphNames;

verus! {

/// The glyphs of StandardEncoding: each byte that has a glyph, with the glyph's
/// name.
pub const STANDARD_NAMES: [(u8, &'static str); 149] = [
    (0x20, "space"), (0x21, "exclam"), (0x22, "quotedbl"), (0x23, "numbersign"),
    (0x24, "dollar"), (0x25, "percent"), (0x26, "ampersand"), (0x27, "quoteright"),
    (0x28, "parenleft"), (0x29, "parenright"), (0x2a, "asterisk"), (0x2b, "plus"),
    (0x2c, "comma"), (0x2d, "hyphen"), (0x2e, "period"), (0x2f, "slash"), (0x30, "zero"),
    (0x31, "one"), (0x32, "two"), (0x33, "three"), (0x34, "four"), (0x35, "five"),
    (0x36, "six"), (0x37, "seven"), (0x38, "eight"), (0x39, "nine"), (0x3a, "colon"),
    (0x3b, "semicolon"), (0x3c, "less"), (0x3d, "equal"), (0x3e, "greater"),
    (0x3f, "question"), (0x40, "at"), (0x41, "A"), (0x42, "B"), (0x43, "C"), (0x44, "D"),
    (0x45, "E"), (0x46, "F"), (0x47, "G"), (0x48, "H"), (0x49, "I"), (0x4a, "J"), (0x4b, "K"),
    (0x4c, "L"), (0x4d, "M"), (0x4e, "N"), (0x4f, "O"), (0x50, "P"), (0x51, "Q"), (0x52, "R"),
    (0x53, "S"), (0x54, "T"), (0x55, "U"), (0x56, "V"), (0x57, "W"), (0x58, "X"), (0x59, "Y"),
    (0x5a, "Z"), (0x5b, "bracketleft"), (0x5c, "backslash"), (0x5d, "bracketright"),
    (0x5e, "asciicircum"), (0x5f, "underscore"), (0x60, "quoteleft"), (0x61, "a"), (0x62, "b"),
    (0x63, "c"), (0x64, "d"), (0x65, "e"), (0x66, "f"), (0x67, "g"), (0x68, "h"), (0x69, "i"),
    (0x6a, "j"), (0x6b, "k"), (0x6c, "l"), (0x6d, "m"), (0x6e, "n"), (0x6f, "o"), (0x70, "p"),
    (0x71, "q"), (0x72, "r"), (0x73, "s"), (0x74, "t"), (0x75, "u"), (0x76, "v"), (0x77, "w"),
    (0x78, "x"), (0x79, "y"), (0x7a, "z"), (0x7b, "braceleft"), (0x7c, "bar"),
    (0x7d, "braceright"), (0x7e, "asciitilde"), (0xa1, "exclamdown"), (0xa2, "cent"),
    (0xa3, "sterling"), (0xa4, "fraction"), (0xa5, "yen"), (0xa6, "florin"), (0xa7, "section"),
    (0xa8, "currency"), (0xa9, "quotesingle"), (0xaa, "quotedblleft"), (0xab, "guillemotleft"),
    (0xac, "guilsinglleft"), (0xad, "guilsinglright"), (0xae, "fi"), (0xaf, "fl"),
    (0xb1, "endash"), (0xb2, "dagger"), (0xb3, "daggerdbl"), (0xb4, "periodcentered"),
    (0xb6, "paragraph"), (0xb7, "bullet"), (0xb8, "quotesinglbase"), (0xb9, "quotedblbase"),
    (0xba, "quotedblright"), (0xbb, "guillemotright"), (0xbc, "ellipsis"),
    (0xbd, "perthousand"), (0xbf, "questiondown"), (0xc1, "grave"), (0xc2, "acute"),
    (0xc3, "circumflex"), (0xc4, "tilde"), (0xc5, "macron"), (0xc6, "breve"),
    (0xc7, "dotaccent"), (0xc8, "dieresis"), (0xca, "ring"), (0xcb, "cedilla"),
    (0xcd, "hungarumlaut"), (0xce, "ogonek"), (0xcf, "caron"), (0xd0, "emdash"), (0xe1, "AE"),
    (0xe3, "ordfeminine"), (0xe8, "Lslash"), (0xe9, "Oslash"), (0xea, "OE"),
    (0xeb, "ordmasculine"), (0xf1, "ae"), (0xf5, "dotlessi"), (0xf8, "lslash"),
    (0xf9, "oslash"), (0xfa, "oe"), (0xfb, "germandbls"),
];

/// The glyphs of MacRomanEncoding.
pub const MAC_ROMAN_NAMES: [(u8, &'static str); 223] = [
    (0x20, "space"), (0x21, "exclam"), (0x22, "quotedbl"), (0x23, "numbersign"),
    (0x24, "dollar"), (0x25, "percent"), (0x26, "ampersand"), (0x27, "quotesingle"),
    (0x28, "parenleft"), (0x29, "parenright"), (0x2a, "asterisk"), (0x2b, "plus"),
    (0x2c, "comma"), (0x2d, "hyphen"), (0x2e, "period"), (0x2f, "slash"), (0x30, "zero"),
    (0x31, "one"), (0x32, "two"), (0x33, "three"), (0x34, "four"), (0x35, "five"),
    (0x36, "six"), (0x37, "seven"), (0x38, "eight"), (0x39, "nine"), (0x3a, "colon"),
    (0x3b, "semicolon"), (0x3c, "less"), (0x3d, "equal"), (0x3e, "greater"),
    (0x3f, "question"), (0x40, "at"), (0x41, "A"), (0x42, "B"), (0x43, "C"), (0x44, "D"),
    (0x45, "E"), (0x46, "F"), (0x47, "G"), (0x48, "H"), (0x49, "I"), (0x4a, "J"), (0x4b, "K"),
    (0x4c, "L"), (0x4d, "M"), (0x4e, "N"), (0x4f, "O"), (0x50, "P"), (0x51, "Q"), (0x52, "R"),
    (0x53, "S"), (0x54, "T"), (0x55, "U"), (0x56, "V"), (0x57, "W"), (0x58, "X"), (0x59, "Y"),
    (0x5a, "Z"), (0x5b, "bracketleft"), (0x5c, "backslash"), (0x5d, "bracketright"),
    (0x5e, "asciicircum"), (0x5f, "underscore"), (0x60, "grave"), (0x61, "a"), (0x62, "b"),
    (0x63, "c"), (0x64, "d"), (0x65, "e"), (0x66, "f"), (0x67, "g"), (0x68, "h"), (0x69, "i"),
    (0x6a, "j"), (0x6b, "k"), (0x6c, "l"), (0x6d, "m"), (0x6e, "n"), (0x6f, "o"), (0x70, "p"),
    (0x71, "q"), (0x72, "r"), (0x73, "s"), (0x74, "t"), (0x75, "u"), (0x76, "v"), (0x77, "w"),
    (0x78, "x"), (0x79, "y"), (0x7a, "z"), (0x7b, "braceleft"), (0x7c, "bar"),
    (0x7d, "braceright"), (0x7e, "asciitilde"), (0x80, "Adieresis"), (0x81, "Aring"),
    (0x82, "Ccedilla"), (0x83, "Eacute"), (0x84, "Ntilde"), (0x85, "Odieresis"),
    (0x86, "Udieresis"), (0x87, "aacute"), (0x88, "agrave"), (0x89, "acircumflex"),
    (0x8a, "adieresis"), (0x8b, "atilde"), (0x8c, "aring"), (0x8d, "ccedilla"),
    (0x8e, "eacute"), (0x8f, "egrave"), (0x90, "ecircumflex"), (0x91, "edieresis"),
    (0x92, "iacute"), (0x93, "igrave"), (0x94, "icircumflex"), (0x95, "idieresis"),
    (0x96, "ntilde"), (0x97, "oacute"), (0x98, "ograve"), (0x99, "ocircumflex"),
    (0x9a, "odieresis"), (0x9b, "otilde"), (0x9c, "uacute"), (0x9d, "ugrave"),
    (0x9e, "ucircumflex"), (0x9f, "udieresis"), (0xa0, "dagger"), (0xa1, "degree"),
    (0xa2, "cent"), (0xa3, "sterling"), (0xa4, "section"), (0xa5, "bullet"),
    (0xa6, "paragraph"), (0xa7, "germandbls"), (0xa8, "registered"), (0xa9, "copyright"),
    (0xaa, "trademark"), (0xab, "acute"), (0xac, "dieresis"), (0xad, "notequal"), (0xae, "AE"),
    (0xaf, "Oslash"), (0xb0, "infinity"), (0xb1, "plusminus"), (0xb2, "lessequal"),
    (0xb3, "greaterequal"), (0xb4, "yen"), (0xb5, "mu"), (0xb6, "partialdiff"),
    (0xb7, "summation"), (0xb8, "product"), (0xb9, "pi"), (0xba, "integral"),
    (0xbb, "ordfeminine"), (0xbc, "ordmasculine"), (0xbd, "Omega"), (0xbe, "ae"),
    (0xbf, "oslash"), (0xc0, "questiondown"), (0xc1, "exclamdown"), (0xc2, "logicalnot"),
    (0xc3, "radical"), (0xc4, "florin"), (0xc5, "approxequal"), (0xc6, "Delta"),
    (0xc7, "guillemotleft"), (0xc8, "guillemotright"), (0xc9, "ellipsis"), (0xca, "space"),
    (0xcb, "Agrave"), (0xcc, "Atilde"), (0xcd, "Otilde"), (0xce, "OE"), (0xcf, "oe"),
    (0xd0, "endash"), (0xd1, "emdash"), (0xd2, "quotedblleft"), (0xd3, "quotedblright"),
    (0xd4, "quoteleft"), (0xd5, "quoteright"), (0xd6, "divide"), (0xd7, "lozenge"),
    (0xd8, "ydieresis"), (0xd9, "Ydieresis"), (0xda, "fraction"), (0xdb, "currency"),
    (0xdc, "guilsinglleft"), (0xdd, "guilsinglright"), (0xde, "fi"), (0xdf, "fl"),
    (0xe0, "daggerdbl"), (0xe1, "periodcentered"), (0xe2, "quotesinglbase"),
    (0xe3, "quotedblbase"), (0xe4, "perthousand"), (0xe5, "Acircumflex"),
    (0xe6, "Ecircumflex"), (0xe7, "Aacute"), (0xe8, "Edieresis"), (0xe9, "Egrave"),
    (0xea, "Iacute"), (0xeb, "Icircumflex"), (0xec, "Idieresis"), (0xed, "Igrave"),
    (0xee, "Oacute"), (0xef, "Ocircumflex"), (0xf0, "apple"), (0xf1, "Ograve"),
    (0xf2, "Uacute"), (0xf3, "Ucircumflex"), (0xf4, "Ugrave"), (0xf5, "dotlessi"),
    (0xf6, "circumflex"), (0xf7, "tilde"), (0xf8, "macron"), (0xf9, "breve"),
    (0xfa, "dotaccent"), (0xfb, "ring"), (0xfc, "cedilla"), (0xfd, "hungarumlaut"),
    (0xfe, "ogonek"), (0xff, "caron"),
];

/// The glyphs of MacExpertEncoding.
pub const MAC_EXPERT_NAMES: [(u8, &'static str); 165] = [
    (0x20, "space"), (0x21, "exclamsmall"), (0x22, "Hungarumlautsmall"),
    (0x23, "centoldstyle"), (0x24, "dollaroldstyle"), (0x25, "dollarsuperior"),
    (0x26, "ampersandsmall"), (0x27, "Acutesmall"), (0x28, "parenleftsuperior"),
    (0x29, "parenrightsuperior"), (0x2a, "twodotenleader"), (0x2b, "onedotenleader"),
    (0x2c, "comma"), (0x2d, "hyphen"), (0x2e, "period"), (0x2f, "fraction"),
    (0x30, "zerooldstyle"), (0x31, "oneoldstyle"), (0x32, "twooldstyle"),
    (0x33, "threeoldstyle"), (0x34, "fouroldstyle"), (0x35, "fiveoldstyle"),
    (0x36, "sixoldstyle"), (0x37, "sevenoldstyle"), (0x38, "eightoldstyle"),
    (0x39, "nineoldstyle"), (0x3a, "colon"), (0x3b, "semicolon"),
    (0x3d, "threequartersemdash"), (0x3f, "questionsmall"), (0x44, "Ethsmall"),
    (0x47, "onequarter"), (0x48, "onehalf"), (0x49, "threequarters"), (0x4a, "oneeighth"),
    (0x4b, "threeeighths"), (0x4c, "fiveeighths"), (0x4d, "seveneighths"), (0x4e, "onethird"),
    (0x4f, "twothirds"), (0x56, "ff"), (0x57, "fi"), (0x58, "fl"), (0x59, "ffi"),
    (0x5a, "ffl"), (0x5b, "parenleftinferior"), (0x5d, "parenrightinferior"),
    (0x5e, "Circumflexsmall"), (0x5f, "hypheninferior"), (0x60, "Gravesmall"),
    (0x61, "Asmall"), (0x62, "Bsmall"), (0x63, "Csmall"), (0x64, "Dsmall"), (0x65, "Esmall"),
    (0x66, "Fsmall"), (0x67, "Gsmall"), (0x68, "Hsmall"), (0x69, "Ismall"), (0x6a, "Jsmall"),
    (0x6b, "Ksmall"), (0x6c, "Lsmall"), (0x6d, "Msmall"), (0x6e, "Nsmall"), (0x6f, "Osmall"),
    (0x70, "Psmall"), (0x71, "Qsmall"), (0x72, "Rsmall"), (0x73, "Ssmall"), (0x74, "Tsmall"),
    (0x75, "Usmall"), (0x76, "Vsmall"), (0x77, "Wsmall"), (0x78, "Xsmall"), (0x79, "Ysmall"),
    (0x7a, "Zsmall"), (0x7b, "colonmonetary"), (0x7c, "onefitted"), (0x7d, "rupiah"),
    (0x7e, "Tildesmall"), (0x81, "asuperior"), (0x82, "centsuperior"), (0x87, "Aacutesmall"),
    (0x88, "Agravesmall"), (0x89, "Acircumflexsmall"), (0x8a, "Adieresissmall"),
    (0x8b, "Atildesmall"), (0x8c, "Aringsmall"), (0x8d, "Ccedillasmall"),
    (0x8e, "Eacutesmall"), (0x8f, "Egravesmall"), (0x90, "Ecircumflexsmall"),
    (0x91, "Edieresissmall"), (0x92, "Iacutesmall"), (0x93, "Igravesmall"),
    (0x94, "Icircumflexsmall"), (0x95, "Idieresissmall"), (0x96, "Ntildesmall"),
    (0x97, "Oacutesmall"), (0x98, "Ogravesmall"), (0x99, "Ocircumflexsmall"),
    (0x9a, "Odieresissmall"), (0x9b, "Otildesmall"), (0x9c, "Uacutesmall"),
    (0x9d, "Ugravesmall"), (0x9e, "Ucircumflexsmall"), (0x9f, "Udieresissmall"),
    (0xa1, "eightsuperior"), (0xa2, "fourinferior"), (0xa3, "threeinferior"),
    (0xa4, "sixinferior"), (0xa5, "eightinferior"), (0xa6, "seveninferior"),
    (0xa7, "Scaronsmall"), (0xa9, "centinferior"), (0xaa, "twoinferior"),
    (0xac, "Dieresissmall"), (0xae, "Caronsmall"), (0xaf, "osuperior"), (0xb0, "fiveinferior"),
    (0xb2, "commainferior"), (0xb3, "periodinferior"), (0xb4, "Yacutesmall"),
    (0xb6, "dollarinferior"), (0xb9, "Thornsmall"), (0xbb, "nineinferior"),
    (0xbc, "zeroinferior"), (0xbd, "Zcaronsmall"), (0xbe, "AEsmall"), (0xbf, "Oslashsmall"),
    (0xc0, "questiondownsmall"), (0xc1, "oneinferior"), (0xc2, "Lslashsmall"),
    (0xc9, "Cedillasmall"), (0xcf, "OEsmall"), (0xd0, "figuredash"), (0xd1, "hyphensuperior"),
    (0xd6, "exclamdownsmall"), (0xd8, "Ydieresissmall"), (0xda, "onesuperior"),
    (0xdb, "twosuperior"), (0xdc, "threesuperior"), (0xdd, "foursuperior"),
    (0xde, "fivesuperior"), (0xdf, "sixsuperior"), (0xe0, "sevensuperior"),
    (0xe1, "ninesuperior"), (0xe2, "zerosuperior"), (0xe4, "esuperior"), (0xe5, "rsuperior"),
    (0xe6, "tsuperior"), (0xe9, "isuperior"), (0xea, "ssuperior"), (0xeb, "dsuperior"),
    (0xf1, "lsuperior"), (0xf2, "Ogoneksmall"), (0xf3, "Brevesmall"), (0xf4, "Macronsmall"),
    (0xf5, "bsuperior"), (0xf6, "nsuperior"), (0xf7, "msuperior"), (0xf8, "commasuperior"),
    (0xf9, "periodsuperior"), (0xfa, "Dotaccentsmall"), (0xfb, "Ringsmall"),
];

/// The glyphs of WinAnsiEncoding.
pub const WIN_ANSI_NAMES: [(u8, &'static str); 224] = [
    (0x20, "space"), (0x21, "exclam"), (0x22, "quotedbl"), (0x23, "numbersign"),
    (0x24, "dollar"), (0x25, "percent"), (0x26, "ampersand"), (0x27, "quotesingle"),
    (0x28, "parenleft"), (0x29, "parenright"), (0x2a, "asterisk"), (0x2b, "plus"),
    (0x2c, "comma"), (0x2d, "hyphen"), (0x2e, "period"), (0x2f, "slash"), (0x30, "zero"),
    (0x31, "one"), (0x32, "two"), (0x33, "three"), (0x34, "four"), (0x35, "five"),
    (0x36, "six"), (0x37, "seven"), (0x38, "eight"), (0x39, "nine"), (0x3a, "colon"),
    (0x3b, "semicolon"), (0x3c, "less"), (0x3d, "equal"), (0x3e, "greater"),
    (0x3f, "question"), (0x40, "at"), (0x41, "A"), (0x42, "B"), (0x43, "C"), (0x44, "D"),
    (0x45, "E"), (0x46, "F"), (0x47, "G"), (0x48, "H"), (0x49, "I"), (0x4a, "J"), (0x4b, "K"),
    (0x4c, "L"), (0x4d, "M"), (0x4e, "N"), (0x4f, "O"), (0x50, "P"), (0x51, "Q"), (0x52, "R"),
    (0x53, "S"), (0x54, "T"), (0x55, "U"), (0x56, "V"), (0x57, "W"), (0x58, "X"), (0x59, "Y"),
    (0x5a, "Z"), (0x5b, "bracketleft"), (0x5c, "backslash"), (0x5d, "bracketright"),
    (0x5e, "asciicircum"), (0x5f, "underscore"), (0x60, "grave"), (0x61, "a"), (0x62, "b"),
    (0x63, "c"), (0x64, "d"), (0x65, "e"), (0x66, "f"), (0x67, "g"), (0x68, "h"), (0x69, "i"),
    (0x6a, "j"), (0x6b, "k"), (0x6c, "l"), (0x6d, "m"), (0x6e, "n"), (0x6f, "o"), (0x70, "p"),
    (0x71, "q"), (0x72, "r"), (0x73, "s"), (0x74, "t"), (0x75, "u"), (0x76, "v"), (0x77, "w"),
    (0x78, "x"), (0x79, "y"), (0x7a, "z"), (0x7b, "braceleft"), (0x7c, "bar"),
    (0x7d, "braceright"), (0x7e, "asciitilde"), (0x7f, "bullet"), (0x80, "Euro"),
    (0x81, "bullet"), (0x82, "quotesinglbase"), (0x83, "florin"), (0x84, "quotedblbase"),
    (0x85, "ellipsis"), (0x86, "dagger"), (0x87, "daggerdbl"), (0x88, "circumflex"),
    (0x89, "perthousand"), (0x8a, "Scaron"), (0x8b, "guilsinglleft"), (0x8c, "OE"),
    (0x8d, "bullet"), (0x8e, "Zcaron"), (0x8f, "bullet"), (0x90, "bullet"),
    (0x91, "quoteleft"), (0x92, "quoteright"), (0x93, "quotedblleft"), (0x94, "quotedblright"),
    (0x95, "bullet"), (0x96, "endash"), (0x97, "emdash"), (0x98, "tilde"), (0x99, "trademark"),
    (0x9a, "scaron"), (0x9b, "guilsinglright"), (0x9c, "oe"), (0x9d, "bullet"),
    (0x9e, "zcaron"), (0x9f, "Ydieresis"), (0xa0, "space"), (0xa1, "exclamdown"),
    (0xa2, "cent"), (0xa3, "sterling"), (0xa4, "currency"), (0xa5, "yen"), (0xa6, "brokenbar"),
    (0xa7, "section"), (0xa8, "dieresis"), (0xa9, "copyright"), (0xaa, "ordfeminine"),
    (0xab, "guillemotleft"), (0xac, "logicalnot"), (0xad, "hyphen"), (0xae, "registered"),
    (0xaf, "macron"), (0xb0, "degree"), (0xb1, "plusminus"), (0xb2, "twosuperior"),
    (0xb3, "threesuperior"), (0xb4, "acute"), (0xb5, "mu"), (0xb6, "paragraph"),
    (0xb7, "periodcentered"), (0xb8, "cedilla"), (0xb9, "onesuperior"), (0xba, "ordmasculine"),
    (0xbb, "guillemotright"), (0xbc, "onequarter"), (0xbd, "onehalf"), (0xbe, "threequarters"),
    (0xbf, "questiondown"), (0xc0, "Agrave"), (0xc1, "Aacute"), (0xc2, "Acircumflex"),
    (0xc3, "Atilde"), (0xc4, "Adieresis"), (0xc5, "Aring"), (0xc6, "AE"), (0xc7, "Ccedilla"),
    (0xc8, "Egrave"), (0xc9, "Eacute"), (0xca, "Ecircumflex"), (0xcb, "Edieresis"),
    (0xcc, "Igrave"), (0xcd, "Iacute"), (0xce, "Icircumflex"), (0xcf, "Idieresis"),
    (0xd0, "Eth"), (0xd1, "Ntilde"), (0xd2, "Ograve"), (0xd3, "Oacute"), (0xd4, "Ocircumflex"),
    (0xd5, "Otilde"), (0xd6, "Odieresis"), (0xd7, "multiply"), (0xd8, "Oslash"),
    (0xd9, "Ugrave"), (0xda, "Uacute"), (0xdb, "Ucircumflex"), (0xdc, "Udieresis"),
    (0xdd, "Yacute"), (0xde, "Thorn"), (0xdf, "germandbls"), (0xe0, "agrave"),
    (0xe1, "aacute"), (0xe2, "acircumflex"), (0xe3, "atilde"), (0xe4, "adieresis"),
    (0xe5, "aring"), (0xe6, "ae"), (0xe7, "ccedilla"), (0xe8, "egrave"), (0xe9, "eacute"),
    (0xea, "ecircumflex"), (0xeb, "edieresis"), (0xec, "igrave"), (0xed, "iacute"),
    (0xee, "icircumflex"), (0xef, "idieresis"), (0xf0, "eth"), (0xf1, "ntilde"),
    (0xf2, "ograve"), (0xf3, "oacute"), (0xf4, "ocircumflex"), (0xf5, "otilde"),
    (0xf6, "odieresis"), (0xf7, "divide"), (0xf8, "oslash"), (0xf9, "ugrave"),
    (0xfa, "uacute"), (0xfb, "ucircumflex"), (0xfc, "udieresis"), (0xfd, "yacute"),
    (0xfe, "thorn"), (0xff, "ydieresis"),
];

/// The code unit of a glyph name: what the list gives the name, 0 where the
/// list does not know it.
pub open spec fn resolved_unit(name: Seq<char>, glyphs: GlyphNames) -> u16 {
    match glyphs.spec_lookup(name) {
        Some(u) => u,
        None => 0,
    }
}

/// A table of glyph names resolved through a list: 256 slots, each with the
/// code unit of the glyph named for its byte, 0 where no glyph is named. Of
/// two entries for one byte the later counts.
pub open spec fn spec_resolve(names: Seq<(u8, &'static str)>, glyphs: GlyphNames) -> Seq<u16>
    decreases names.len(),
{
    if names.len() == 0 {
        Seq::new(256, |i: int| 0u16)
    } else {
        spec_resolve(names.drop_last(), glyphs).update(
            names.last().0 as int,
            resolved_unit(names.last().1@, glyphs),
        )
    }
}

/// A resolved table has 256 slots; a byte named once has the code unit of its
/// name, a byte never named has 0.
pub proof fn lemma_resolved_slot(names: Seq<(u8, &'static str)>, glyphs: GlyphNames, b: u8)
    ensures
        spec_resolve(names, glyphs).len() == 256,
        (forall|i: int| 0 <= i < names.len() ==> (#[trigger] names[i]).0 != b) ==> spec_resolve(
            names,
            glyphs,
        )[b as int] == 0,
        forall|i: int|
            0 <= i < names.len() && (#[trigger] names[i]).0 == b && (forall|j: int|
                i < j < names.len() ==> (#[trigger] names[j]).0 != b) ==> spec_resolve(
                names,
                glyphs,
            )[b as int] == resolved_unit(names[i].1@, glyphs),
    decreases names.len(),
{
    if names.len() > 0 {
        let head = names.drop_last();
        lemma_resolved_slot(head, glyphs, b);
        assert forall|i: int|
            0 <= i < names.len() && (#[trigger] names[i]).0 == b && (forall|j: int|
                i < j < names.len() ==> (#[trigger] names[j]).0 != b) implies spec_resolve(
            names,
            glyphs,
        )[b as int] == resolved_unit(names[i].1@, glyphs) by {
            if i < names.len() - 1 {
                assert(names[names.len() - 1].0 != b);
                assert(head[i] == names[i]);
                assert forall|j: int| i < j < head.len() implies (#[trigger] head[j]).0 != b by {
                    assert(head[j] == names[j]);
                }
            }
        }
        if forall|i: int| 0 <= i < names.len() ==> (#[trigger] names[i]).0 != b {
            assert(names[names.len() - 1].0 != b);
            assert forall|i: int| 0 <= i < head.len() implies (#[trigger] head[i]).0 != b by {
                assert(head[i] == names[i]);
            }
        }
    }
}

/// Resolve a table of glyph names through a glyph-name list.
pub fn resolve_encoding(names: &[(u8, &'static str)], glyphs: &GlyphNames) -> (table: Vec<u16>)
    ensures
        table@ == spec_resolve(names@, *glyphs),
        table@.len() == 256,
{
    let mut table: Vec<u16> = Vec::new();
    let mut k: usize = 0;
    while k < 256
        invariant
            0 <= k <= 256,
            table@.len() == k,
            forall|i: int| 0 <= i < k ==> #[trigger] table@[i] == 0,
        decreases 256 - k,
    {
        table.push(0);
        k += 1;
    }
    assert(table@ =~= spec_resolve(names@.take(0), *glyphs));
    let mut i: usize = 0;
    while i < names.len()
        invariant
            0 <= i <= names@.len(),
            table@.len() == 256,
            table@ == spec_resolve(names@.take(i as int), *glyphs),
        decreases names@.len() - i,
    {
        let (byte, name) = names[i];
        let unit: u16 = match glyphs.name_to_unicode(&name.to_owned()) {
            Some(u) => u,
            None => 0,
        };
        table.set(byte as usize, unit);
        i += 1;
        proof {
            assert(names@.take(i as int).drop_last() =~= names@.take(i - 1));
            assert(names@.take(i as int).last() == names@[i - 1]);
        }
    }
    assert(names@.take(i as int) =~= names@);
    table
}

} // verus!
