//! What applying a function costs.

use vstd::prelude::*;

use crate::text::same_text;

verus! {

/// The functions that are cheaper to apply than their input is to canonicalize, since they do not
/// depend on its size.
pub open spec fn negative_cost(id: Seq<char>) -> bool {
    id == "vortex.byte_length"@ || id == "vortex.ext_storage"@ || id == "vortex.get_item"@ || id
        == "vortex.literal"@
}

/// Whether applying a function and canonicalizing is cheaper than canonicalizing and applying it.
pub fn is_negative_cost(id: &str) -> (out: bool)
    ensures
        out == negative_cost(id@),
{
    same_text(id, "vortex.byte_length") || same_text(id, "vortex.ext_storage") || same_text(
        id,
        "vortex.get_item",
    ) || same_text(id, "vortex.literal")
}

} // verus!
