//! The ASCII-art banner shown ahead of the report, drawn from the
//! distribution name.

use vstd::prelude::*;
use crate::report::ReportError;

verus! {

/// The ASCII-art rendering of a word in the bundled standard glyph font.
pub uninterp spec fn glyph_art_of(word: Seq<char>) -> Seq<char>;

/// Whether the bundled standard glyph font can draw a word at all: it can
/// unless the word is empty or none of its characters has a glyph.
pub uninterp spec fn glyph_has_art_of(word: Seq<char>) -> bool;

/// Relies on `figlet_rs::FIGlet`: `standard` parses the glyph font
/// embedded in the crate at compile time, so loading always succeeds, and
/// `convert` renders a word in it, so the art, and whether there is any,
/// are functions of the word alone; `convert` answers `None` exactly when
/// the word is empty or no character of it has a glyph.
#[verifier::external_body]
fn glyph_banner(word: &str) -> (r: Result<Option<String>, String>)
    ensures
        r is Ok,
        (r matches Ok(o) ==> (o is Some <==> glyph_has_art_of(word@)) && (word@.len() == 0
            ==> o is None)),
        (r matches Ok(Some(art)) ==> art@ == glyph_art_of(word@)),
{
    match figlet_rs::FIGlet::standard() {
        Ok(font) => Ok(font.convert(word).map(|art| art.to_string())),
        Err(e) => Err(e),
    }
}

/// Produces the ASCII-art banner for a word: the art whenever the font can
/// draw the word, `None` when it cannot (an empty word never has art). The
/// error variant covers a font that cannot be loaded; the bundled font
/// always loads, so the result is never an error.
pub fn make_banner(word: &str) -> (r: Result<Option<String>, ReportError>)
    ensures
        r is Ok,
        (r matches Ok(o) ==> (o is Some <==> glyph_has_art_of(word@))),
        (r matches Ok(Some(art)) ==> art@ == glyph_art_of(word@)),
        word@.len() == 0 ==> r == Ok::<Option<String>, ReportError>(None),
{
    match glyph_banner(word) {
        Ok(b) => Ok(b),
        Err(_) => Err(ReportError::FontUnavailable),
    }
}

} // verus!
