//! The font state that text decoding reads.

use std::collections::HashMap;
use vstd::prelude::*;

verus! {

/// The base encoding a font names.
#[derive(Clone, Copy, Debug, PartialEq, Eq, Structural)]
pub enum BaseEncoding {
    StandardEncoding,
    SymbolEncoding,
    MacRomanEncoding,
    WinAnsiEncoding,
    MacExpertEncoding,
    /// The composite encoding `Identity-H`: character codes of two bytes.
    IdentityH,
    /// An encoding dictionary that names no base encoding.
    Unnamed,
}

/// The font selected for text showing, as far as decoding needs it: the base
/// encoding of its encoding entry, if it has one, and its map from character
/// code to Unicode text.
///
/// The interpreter that walks the stream owns this value and passes it by
/// reference; nothing here changes it. A map is well formed when it has
/// entries only for the codes that the encoding can produce. Decoding does
/// not ask for that: an entry for any other code is never read.
#[derive(Debug)]
pub struct FontInfo {
    pub encoding: Option<BaseEncoding>,
    pub cmap: HashMap<u16, String>,
}

/// Mathematical model of a [`FontInfo`].
pub struct FontInfoView {
    pub encoding: Option<BaseEncoding>,
    pub cmap: Map<u16, Seq<char>>,
}

impl View for FontInfo {
    type V = FontInfoView;

    open spec fn view(&self) -> FontInfoView {
        FontInfoView {
            encoding: self.encoding,
            cmap: self.cmap@.map_values(|text: String| text@),
        }
    }
}

/// Model of an optional borrowed font.
pub open spec fn font_view(font: Option<&FontInfo>) -> Option<FontInfoView> {
    match font {
        Some(f) => Some(f@),
        None => None,
    }
}

impl FontInfoView {
    /// Whether the font's character codes are two bytes wide.
    pub open spec fn is_composite(self) -> bool {
        self.encoding == Some(BaseEncoding::IdentityH)
    }

    /// Whether the font's character codes are one byte wide.
    pub open spec fn is_simple(self) -> bool {
        self.encoding is Some && !self.is_composite()
    }

    /// Whether the map has entries only for codes that the encoding can
    /// produce: under a single-byte encoding, for the codes 0 to 255.
    pub open spec fn well_formed(self) -> bool {
        self.is_simple() ==> forall|code: u16| self.cmap.contains_key(code) ==> code < 256
    }

    /// The font without the entries for codes that its encoding cannot
    /// produce.
    pub open spec fn restricted(self) -> FontInfoView {
        if self.is_simple() {
            FontInfoView {
                encoding: self.encoding,
                cmap: self.cmap.restrict(Set::new(|code: u16| code < 256)),
            }
        } else {
            self
        }
    }
}

} // verus!
