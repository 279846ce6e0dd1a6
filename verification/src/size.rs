//! Human-readable byte sizes.

use vstd::prelude::*;

verus! {

/// The text that `humansize` gives for a byte count in binary units
/// (`KiB`, `MiB`, ...) with at most one decimal place.
pub uninterp spec fn binary_size_text(bytes: usize) -> Seq<char>;

/// Calls `humansize::format_size` with `humansize::BINARY` options set to one
/// decimal place. The text is computed in floating point and is not described
/// here beyond being a function of the byte count: `binary_size_text` names it.
#[verifier::external_body]
pub(crate) fn format_binary_size(bytes: usize) -> (text: String)
    ensures
        text@ == binary_size_text(bytes),
{
    humansize::format_size(bytes, humansize::FormatSizeOptions::from(humansize::BINARY).decimal_places(1))
}

} // verus!
