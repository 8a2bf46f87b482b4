//! The request vocabulary: image formats, page-load wait conditions, block
//! levels and composition layouts, each parsed from its command-line text.
//! Matching is case-insensitive over ASCII; a text that names no value is
//! rejected before any remote call, with the valid choices listed.

use vstd::prelude::*;

use crate::error::CliError;
use crate::error::CliResult;
use crate::strutil::push_char;
use crate::strutil::str_eq;

verus! {

/// An upper-case ASCII letter mapped to lower case; all else unchanged.
pub open spec fn lower_char(c: char) -> char {
    if 'A' <= c <= 'Z' {
        ((c as int) + 32) as char
    } else {
        c
    }
}

/// The text with its upper-case ASCII letters lowered.
pub open spec fn ascii_lower(s: Seq<char>) -> Seq<char> {
    s.map_values(|c: char| lower_char(c))
}

fn lower_char_exec(c: char) -> (r: char)
    ensures
        r == lower_char(c),
{
    let code: u32 = c as u32;
    if 65 <= code && code <= 90 {
        proof {
            assert((code as u8) as u32 == code) by (bit_vector)
                requires
                    65 <= code && code <= 90,
            ;
        }
        let b: u8 = (code as u8) + 32;
        b as char
    } else {
        c
    }
}

/// Lowers the upper-case ASCII letters of the text.
pub fn to_ascii_lower(s: &str) -> (r: String)
    ensures
        r@ == ascii_lower(s@),
{
    let len = s.unicode_len();
    let mut out = String::new();
    let mut i: usize = 0;
    proof {
        assert(out@ =~= ascii_lower(s@.subrange(0, 0)));
    }
    while i < len
        invariant
            len == s@.len(),
            i <= len,
            out@ == ascii_lower(s@.subrange(0, i as int)),
        decreases len - i,
    {
        let c = lower_char_exec(s.get_char(i));
        push_char(&mut out, c);
        i = i + 1;
        proof {
            assert(out@ =~= ascii_lower(s@.subrange(0, i as int)));
        }
    }
    proof {
        assert(s@.subrange(0, len as int) =~= s@);
    }
    out
}

/// The output format of a capture.
#[derive(Debug, Clone, Copy, PartialEq, Eq, Structural)]
pub enum ImageFormat {
    Png,
    Jpeg,
    Webp,
    Pdf,
}

/// The page-load condition a capture waits for.
#[derive(Debug, Clone, Copy, PartialEq, Eq, Structural)]
pub enum WaitUntil {
    Load,
    DomContentLoaded,
    NetworkIdle,
    Commit,
}

/// How aggressively ads and trackers are blocked.
#[derive(Debug, Clone, Copy, PartialEq, Eq, Structural)]
pub enum BlockLevel {
    Off,
    Light,
    Normal,
    Pro,
    ProPlus,
    Ultimate,
}

/// How composed screenshots are laid out.
#[derive(Debug, Clone, Copy, PartialEq, Eq, Structural)]
pub enum LayoutType {
    Grid,
    Horizontal,
    Vertical,
    Masonry,
    Mondrian,
    Partitioning,
    Auto,
}

/// The format a lowered text names, `pdf` included.
pub open spec fn format_for(t: Seq<char>) -> Option<ImageFormat> {
    if t == "png"@ {
        Some(ImageFormat::Png)
    } else if t == "jpeg"@ || t == "jpg"@ {
        Some(ImageFormat::Jpeg)
    } else if t == "webp"@ {
        Some(ImageFormat::Webp)
    } else if t == "pdf"@ {
        Some(ImageFormat::Pdf)
    } else {
        None
    }
}

fn match_format(low: &str) -> (r: Option<ImageFormat>)
    ensures
        r == format_for(low@),
{
    if str_eq(low, "png") {
        Some(ImageFormat::Png)
    } else if str_eq(low, "jpeg") || str_eq(low, "jpg") {
        Some(ImageFormat::Jpeg)
    } else if str_eq(low, "webp") {
        Some(ImageFormat::Webp)
    } else if str_eq(low, "pdf") {
        Some(ImageFormat::Pdf)
    } else {
        None
    }
}

/// Parses a capture format, guiding the caller on failure.
pub fn parse_format(s: &str) -> (r: CliResult<ImageFormat>)
    ensures
        match format_for(ascii_lower(s@)) {
            Some(f) => r == Ok::<ImageFormat, CliError>(f),
            None => r matches Err(e) && (e matches CliError::Other(m) && m@
                == "Invalid format '"@ + s@ + "'. Use: png, jpeg, webp, or pdf"@),
        },
{
    let low = to_ascii_lower(s);
    match match_format(low.as_str()) {
        Some(f) => Ok(f),
        None => Err(
            CliError::Other(
                String::from_str("Invalid format '").concat(s).concat(
                    "'. Use: png, jpeg, webp, or pdf",
                ),
            ),
        ),
    }
}

/// Parses a capture format with the short failure wording used by the
/// asynchronous and batch commands.
pub fn parse_batch_format(s: &str) -> (r: CliResult<ImageFormat>)
    ensures
        match format_for(ascii_lower(s@)) {
            Some(f) => r == Ok::<ImageFormat, CliError>(f),
            None => r matches Err(e) && (e matches CliError::Other(m) && m@
                == "Invalid format: "@ + s@),
        },
{
    let low = to_ascii_lower(s);
    match match_format(low.as_str()) {
        Some(f) => Ok(f),
        None => Err(CliError::Other(String::from_str("Invalid format: ").concat(s))),
    }
}

/// Parses a watch or composition format: the same vocabulary without `pdf`.
pub fn parse_display_format(s: &str) -> (r: CliResult<ImageFormat>)
    ensures
        match format_for(ascii_lower(s@)) {
            Some(f) => if f is Pdf {
                r matches Err(e) && (e matches CliError::Other(m) && m@ == "Invalid format: "@
                    + s@)
            } else {
                r == Ok::<ImageFormat, CliError>(f)
            },
            None => r matches Err(e) && (e matches CliError::Other(m) && m@
                == "Invalid format: "@ + s@),
        },
{
    let low = to_ascii_lower(s);
    match match_format(low.as_str()) {
        Some(ImageFormat::Pdf) | None => Err(
            CliError::Other(String::from_str("Invalid format: ").concat(s)),
        ),
        Some(f) => Ok(f),
    }
}

/// The wait condition a lowered text names.
pub open spec fn wait_until_for(t: Seq<char>) -> Option<WaitUntil> {
    if t == "load"@ {
        Some(WaitUntil::Load)
    } else if t == "domcontentloaded"@ {
        Some(WaitUntil::DomContentLoaded)
    } else if t == "networkidle"@ {
        Some(WaitUntil::NetworkIdle)
    } else if t == "commit"@ {
        Some(WaitUntil::Commit)
    } else {
        None
    }
}

/// Parses a page-load wait condition.
pub fn parse_wait_until(s: &str) -> (r: CliResult<WaitUntil>)
    ensures
        match wait_until_for(ascii_lower(s@)) {
            Some(w) => r == Ok::<WaitUntil, CliError>(w),
            None => r matches Err(e) && (e matches CliError::Other(m) && m@
                == "Invalid wait_until '"@ + s@
                + "'. Use: load, domcontentloaded, networkidle, or commit"@),
        },
{
    let low = to_ascii_lower(s);
    if str_eq(low.as_str(), "load") {
        Ok(WaitUntil::Load)
    } else if str_eq(low.as_str(), "domcontentloaded") {
        Ok(WaitUntil::DomContentLoaded)
    } else if str_eq(low.as_str(), "networkidle") {
        Ok(WaitUntil::NetworkIdle)
    } else if str_eq(low.as_str(), "commit") {
        Ok(WaitUntil::Commit)
    } else {
        Err(
            CliError::Other(
                String::from_str("Invalid wait_until '").concat(s).concat(
                    "'. Use: load, domcontentloaded, networkidle, or commit",
                ),
            ),
        )
    }
}

/// The block level a lowered text names; `pro_plus` has a joined alias.
pub open spec fn block_level_for(t: Seq<char>) -> Option<BlockLevel> {
    if t == "none"@ {
        Some(BlockLevel::Off)
    } else if t == "light"@ {
        Some(BlockLevel::Light)
    } else if t == "normal"@ {
        Some(BlockLevel::Normal)
    } else if t == "pro"@ {
        Some(BlockLevel::Pro)
    } else if t == "pro_plus"@ || t == "proplus"@ {
        Some(BlockLevel::ProPlus)
    } else if t == "ultimate"@ {
        Some(BlockLevel::Ultimate)
    } else {
        None
    }
}

/// Parses a block level.
pub fn parse_block_level(s: &str) -> (r: CliResult<BlockLevel>)
    ensures
        match block_level_for(ascii_lower(s@)) {
            Some(b) => r == Ok::<BlockLevel, CliError>(b),
            None => r matches Err(e) && (e matches CliError::Other(m) && m@
                == "Invalid block_level '"@ + s@
                + "'. Use: none, light, normal, pro, pro_plus, or ultimate"@),
        },
{
    let low = to_ascii_lower(s);
    if str_eq(low.as_str(), "none") {
        Ok(BlockLevel::Off)
    } else if str_eq(low.as_str(), "light") {
        Ok(BlockLevel::Light)
    } else if str_eq(low.as_str(), "normal") {
        Ok(BlockLevel::Normal)
    } else if str_eq(low.as_str(), "pro") {
        Ok(BlockLevel::Pro)
    } else if str_eq(low.as_str(), "pro_plus") || str_eq(low.as_str(), "proplus") {
        Ok(BlockLevel::ProPlus)
    } else if str_eq(low.as_str(), "ultimate") {
        Ok(BlockLevel::Ultimate)
    } else {
        Err(
            CliError::Other(
                String::from_str("Invalid block_level '").concat(s).concat(
                    "'. Use: none, light, normal, pro, pro_plus, or ultimate",
                ),
            ),
        )
    }
}

/// The layout a lowered text names.
pub open spec fn layout_for(t: Seq<char>) -> Option<LayoutType> {
    if t == "grid"@ {
        Some(LayoutType::Grid)
    } else if t == "horizontal"@ {
        Some(LayoutType::Horizontal)
    } else if t == "vertical"@ {
        Some(LayoutType::Vertical)
    } else if t == "masonry"@ {
        Some(LayoutType::Masonry)
    } else if t == "mondrian"@ {
        Some(LayoutType::Mondrian)
    } else if t == "partitioning"@ {
        Some(LayoutType::Partitioning)
    } else if t == "auto"@ {
        Some(LayoutType::Auto)
    } else {
        None
    }
}

/// Parses a composition layout.
pub fn parse_layout(s: &str) -> (r: CliResult<LayoutType>)
    ensures
        match layout_for(ascii_lower(s@)) {
            Some(l) => r == Ok::<LayoutType, CliError>(l),
            None => r matches Err(e) && (e matches CliError::Other(m) && m@
                == "Invalid layout '"@ + s@
                + "'. Use: grid, horizontal, vertical, masonry, mondrian, partitioning, or auto"@),
        },
{
    let low = to_ascii_lower(s);
    if str_eq(low.as_str(), "grid") {
        Ok(LayoutType::Grid)
    } else if str_eq(low.as_str(), "horizontal") {
        Ok(LayoutType::Horizontal)
    } else if str_eq(low.as_str(), "vertical") {
        Ok(LayoutType::Vertical)
    } else if str_eq(low.as_str(), "masonry") {
        Ok(LayoutType::Masonry)
    } else if str_eq(low.as_str(), "mondrian") {
        Ok(LayoutType::Mondrian)
    } else if str_eq(low.as_str(), "partitioning") {
        Ok(LayoutType::Partitioning)
    } else if str_eq(low.as_str(), "auto") {
        Ok(LayoutType::Auto)
    } else {
        Err(
            CliError::Other(
                String::from_str("Invalid layout '").concat(s).concat(
                    "'. Use: grid, horizontal, vertical, masonry, mondrian, partitioning, or auto",
                ),
            ),
        )
    }
}

} // verus!
