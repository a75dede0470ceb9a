//! Output formats and the names they go by on a command line.

use vstd::prelude::*;

verus! {

/// Highest JPEG quality that a request may ask for.
pub const MAX_JPEG_QUALITY: u8 = 100;

/// Formats available to encode a capture to. JPEG carries its quality, the
/// only knob that belongs to one format alone.
#[derive(Clone, Copy, Debug, PartialEq, Eq, Structural)]
pub enum OutputFormat {
    PNG,
    JPEG(u8),
    PDF,
}

/// How much of the rendered document a raster capture covers.
#[derive(Clone, Copy, Debug, PartialEq, Eq, Structural)]
pub enum SurfaceMode {
    /// The whole rendered document, also where it is taller than the viewport.
    FullPage,
    /// Exactly what is visible inside the viewport.
    ViewportOnly,
}

impl OutputFormat {
    /// A JPEG quality lies in `0..=100`; the other formats have none.
    pub open spec fn quality_in_range(self) -> bool {
        self matches OutputFormat::JPEG(q) ==> q <= MAX_JPEG_QUALITY
    }
}

/// Whether `name` is made of exactly the three characters given.
pub open spec fn spells(name: Seq<char>, a: char, b: char, c: char) -> bool {
    name.len() == 3 && name[0] == a && name[1] == b && name[2] == c
}

/// The format that a name stands for: `png`, `jpg` or `pdf`, all in lower
/// case or all in upper case. A JPEG gets the given quality.
pub open spec fn format_of_name(name: Seq<char>, quality: u8) -> Option<OutputFormat> {
    if spells(name, 'j', 'p', 'g') || spells(name, 'J', 'P', 'G') {
        Some(OutputFormat::JPEG(quality))
    } else if spells(name, 'p', 'n', 'g') || spells(name, 'P', 'N', 'G') {
        Some(OutputFormat::PNG)
    } else if spells(name, 'p', 'd', 'f') || spells(name, 'P', 'D', 'F') {
        Some(OutputFormat::PDF)
    } else {
        None
    }
}

/// Whether `s` is exactly the three characters given.
fn is_word(s: &str, a: char, b: char, c: char) -> (r: bool)
    ensures
        r == spells(s@, a, b, c),
{
    s.unicode_len() == 3 && s.get_char(0) == a && s.get_char(1) == b && s.get_char(2) == c
}

/// Reads a format name; `None` where the name stands for no format.
pub fn parse_format(fmt: &str, quality: u8) -> (r: Option<OutputFormat>)
    ensures
        r == format_of_name(fmt@, quality),
{
    if is_word(fmt, 'j', 'p', 'g') || is_word(fmt, 'J', 'P', 'G') {
        Some(OutputFormat::JPEG(quality))
    } else if is_word(fmt, 'p', 'n', 'g') || is_word(fmt, 'P', 'N', 'G') {
        Some(OutputFormat::PNG)
    } else if is_word(fmt, 'p', 'd', 'f') || is_word(fmt, 'P', 'D', 'F') {
        Some(OutputFormat::PDF)
    } else {
        None
    }
}

/// Converts a format name that is known to be one of `png`, `jpg`, `pdf`
/// (or their upper-case forms) to the format it stands for.
pub fn fmt_str_to_enum(fmt: &str, quality: u8) -> (r: OutputFormat)
    requires
        format_of_name(fmt@, quality) is Some,
    ensures
        Some(r) == format_of_name(fmt@, quality),
{
    match parse_format(fmt, quality) {
        Some(f) => f,
        None => unreached(),
    }
}

} // verus!
