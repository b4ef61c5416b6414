//! Which files of the system font directories are loaded as fonts.
use vstd::prelude::*;

use crate::text::{lower_eq, lower_matches};

verus! {

/// A font file extension, in any case: `ttf`, `otf`, `ttc` or `otc`. (No
/// character outside ASCII lowercases to one of these letters, so ASCII case
/// folding decides as a full lowercase would.)
pub open spec fn is_font_extension(ext: Seq<char>) -> bool {
    ||| lower_eq(ext, "ttf"@)
    ||| lower_eq(ext, "otf"@)
    ||| lower_eq(ext, "ttc"@)
    ||| lower_eq(ext, "otc"@)
}

/// Whether a file whose extension is `extension` (`None` when it has none
/// or it is not valid UTF-8) is loaded as a font.
pub fn is_font_file(extension: Option<&str>) -> (r: bool)
    ensures
        r == (extension matches Some(e) && is_font_extension(e@)),
{
    match extension {
        Some(e) => lower_matches(e, "ttf") || lower_matches(e, "otf") || lower_matches(e, "ttc")
            || lower_matches(e, "otc"),
        None => false,
    }
}

} // verus!
