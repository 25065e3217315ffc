//! Which files of the index directory are plate-solving indexes.
use crate::text::str_eq;
use vstd::prelude::*;

verus! {

/// The file extension of a plate-solving index.
pub const INDEX_EXTENSION: &'static str = "zdcl";

/// Whether a file with extension `ext` is loaded as an index.
pub fn is_index_extension(ext: &str) -> (r: bool)
    ensures
        r == (ext@ == INDEX_EXTENSION@),
{
    str_eq(ext, INDEX_EXTENSION)
}

} // verus!
