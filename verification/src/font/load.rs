//! System font lookup.
//!
//! The lookup itself is the platform's font database: which fonts exist,
//! and which file matches a name, depends on the machine.  The contracts
//! here therefore promise nothing about which font comes back; the rest
//! of the crate works with the returned bytes, whatever they are.

use vstd::prelude::*;

verus! {

use crate::font::style::{FontWeight, TextStyle};
use vstd::string::StringSliceAdditionalSpecFns;

/// No byte of the encoding is NUL.  The platform's font database
/// interface hands names to C as NUL-terminated strings, so a name with
/// an interior NUL byte cannot be passed to it.
pub open spec fn nul_free_spec(bytes: Seq<u8>) -> bool {
    forall|i: int| 0 <= i < bytes.len() ==> bytes[i] != 0
}

/// Checks that a name's byte encoding holds no NUL byte.
fn nul_free(name: &str) -> (r: bool)
    ensures
        r == nul_free_spec(name.spec_bytes()),
{
    let bytes = name.as_bytes();
    let mut i: usize = 0;
    while i < bytes.len()
        invariant
            0 <= i <= bytes@.len(),
            bytes@ == name.spec_bytes(),
            forall|k: int| 0 <= k < i ==> bytes@[k] != 0,
        decreases bytes@.len() - i,
    {
        if bytes[i] == 0 {
            return false;
        }
        i = i + 1;
    }
    true
}

/// The declared handle type of font_kit: a selected font, either a file
/// path or in-memory data.
#[verifier::external_type_specification]
#[verifier::external_body]
pub struct ExFkHandle(font_kit::handle::Handle);

/// The declared weight type of font_kit.
#[verifier::external_type_specification]
#[verifier::external_body]
pub struct ExFkWeight(font_kit::properties::Weight);

/// Relies on font_kit's named weight constants: maps each of this
/// crate's weights to the constant of the same conventional value.
#[verifier::external_body]
fn fk_weight(style: &TextStyle) -> font_kit::properties::Weight {
    match style.weight {
        FontWeight::Thin => font_kit::properties::Weight::THIN,
        FontWeight::ExtraLight => font_kit::properties::Weight::EXTRA_LIGHT,
        FontWeight::Light => font_kit::properties::Weight::LIGHT,
        FontWeight::Normal => font_kit::properties::Weight::NORMAL,
        FontWeight::Medium => font_kit::properties::Weight::MEDIUM,
        FontWeight::SemiBold => font_kit::properties::Weight::SEMIBOLD,
        FontWeight::Bold => font_kit::properties::Weight::BOLD,
        FontWeight::ExtraBold => font_kit::properties::Weight::EXTRA_BOLD,
        FontWeight::Black => font_kit::properties::Weight::BLACK,
    }
}

/// Relies on font_kit's SystemSource::select_by_postscript_name: looks a
/// font up by its unique PostScript name in the system's font database.
/// Which fonts exist depends on the machine, so nothing is promised of
/// the outcome.  The fontconfig backend builds a C string of the name,
/// which panics on an interior NUL byte, so the name must be NUL-free.
#[verifier::external_body]
fn fk_select_postscript(name: &str) -> Result<font_kit::handle::Handle, String>
    requires
        nul_free_spec(name.spec_bytes()),
{
    font_kit::source::SystemSource::new().select_by_postscript_name(name).map_err(
        |e| e.to_string(),
    )
}

/// Relies on font_kit's SystemSource::select_best_match: picks the best
/// installed font for a family name and style properties.  Which fonts
/// exist depends on the machine, so nothing is promised of the outcome.
/// The fontconfig backend builds a C string of the family name, which
/// panics on an interior NUL byte, so the name must be NUL-free.
#[verifier::external_body]
fn fk_select_best(
    family: &str,
    weight: font_kit::properties::Weight,
    italic: bool,
) -> Result<font_kit::handle::Handle, String>
    requires
        nul_free_spec(family.spec_bytes()),
{
    let properties = font_kit::properties::Properties {
        style: if italic {
            font_kit::properties::Style::Italic
        } else {
            font_kit::properties::Style::Normal
        },
        weight,
        stretch: font_kit::properties::Stretch::NORMAL,
    };
    font_kit::source::SystemSource::new().select_best_match(
        &[font_kit::family_name::FamilyName::Title(family.to_string())],
        &properties,
    ).map_err(|e| e.to_string())
}

/// Relies on font_kit's Handle enum: a handle is either a file path or
/// in-memory data; this returns the path of a path handle.
#[verifier::external_body]
fn fk_handle_path(handle: &font_kit::handle::Handle) -> Option<String> {
    match handle {
        font_kit::handle::Handle::Path { path, .. } => Some(path.to_string_lossy().to_string()),
        font_kit::handle::Handle::Memory { .. } => None,
    }
}

/// Relies on font_kit's Handle::load and its loader's copy_font_data:
/// opens the font the handle names and hands back the raw bytes the
/// loader kept.  Loading reads the font file, so nothing is promised of
/// the outcome.
#[verifier::external_body]
fn fk_load_font_data(handle: &font_kit::handle::Handle) -> Result<Vec<u8>, String> {
    let loaded = handle.load().map_err(|e| e.to_string())?;
    match loaded.copy_font_data() {
        Some(data) => Ok((*data).clone()),
        None => Err("the loader kept no copy of the font data".to_string()),
    }
}

/// A loaded font: where it came from and its raw bytes, which the
/// platform layer shapes and outlines.
#[derive(Debug, Clone, PartialEq, Eq)]
pub struct Font {
    /// The path of the font file, when the font came from disk.
    pub path: Option<String>,
    /// Whether the font was selected from memory rather than a file.
    pub stored_in_memory: bool,
    /// The raw bytes of the font.
    pub bytes: Vec<u8>,
}

/// Assembles a loaded font from the selection's path and the loader's
/// bytes: both are kept exactly, and the in-memory flag mirrors the
/// absence of a path.
pub fn assemble_font(path: Option<String>, bytes: Vec<u8>) -> (f: Font)
    ensures
        f.path == path,
        f.bytes == bytes,
        f.stored_in_memory == (path is None),
{
    let stored_in_memory = path.is_none();
    Font { path, stored_in_memory, bytes }
}

/// Retrieves a system font by its PostScript name.  Whether the name
/// resolves depends on the machine's installed fonts; on success the
/// returned font carries the selected file's path (or none, with the
/// in-memory flag set) and its bytes.  A name with an interior NUL byte
/// is rejected with an error before any lookup.
pub fn get_system_font(name: &str) -> (r: Result<Font, String>)
    ensures
        r matches Ok(f) ==> f.stored_in_memory == (f.path is None),
        !nul_free_spec(name.spec_bytes()) ==> r is Err,
{
    if !nul_free(name) {
        return Err("the font name must not contain a NUL byte".to_owned());
    }
    let handle = match fk_select_postscript(name) {
        Ok(h) => h,
        Err(e) => {
            return Err(e);
        },
    };
    let bytes = match fk_load_font_data(&handle) {
        Ok(b) => b,
        Err(e) => {
            return Err(e);
        },
    };
    let path = fk_handle_path(&handle);
    Ok(assemble_font(path, bytes))
}

/// Retrieves the best system font for a family name and style.  Whether
/// a match exists depends on the machine's installed fonts.  A family
/// name with an interior NUL byte is rejected with an error before any
/// lookup.
pub fn get_system_font_with_style(family_name: &str, style: &TextStyle) -> (r: Result<
    Font,
    String,
>)
    ensures
        r matches Ok(f) ==> f.stored_in_memory == (f.path is None),
        !nul_free_spec(family_name.spec_bytes()) ==> r is Err,
{
    if !nul_free(family_name) {
        return Err("the font family name must not contain a NUL byte".to_owned());
    }
    let weight = fk_weight(style);
    let handle = match fk_select_best(family_name, weight, style.italic) {
        Ok(h) => h,
        Err(e) => {
            return Err(e);
        },
    };
    let bytes = match fk_load_font_data(&handle) {
        Ok(b) => b,
        Err(e) => {
            return Err(e);
        },
    };
    let path = fk_handle_path(&handle);
    Ok(assemble_font(path, bytes))
}

} // verus!
