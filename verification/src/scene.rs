//! The scene of a vector image: `usvg`'s tree, as far as the loader needs it.
//!
//! Nothing in this file is proved. Each item says what it takes on trust from
//! the code that it calls.

use vstd::prelude::*;
use crate::scale::SourceSize;

verus! {

/// `usvg::Tree`: a parsed scene. The library carries one from the parser to
/// the rasterizer and looks at nothing inside but its size.
#[verifier::external_type_specification]
#[verifier::external_body]
pub struct ExTree(usvg::Tree);

/// `usvg::Error`: why the parser refused its input.
#[verifier::external_type_specification]
#[verifier::external_body]
pub struct ExParserError(usvg::Error);

/// Calls `usvg::Tree::size` and hands out the width and the height as their
/// bit patterns. The size of a tree is of a type that holds none but positive,
/// finite numbers, so it is never degenerate.
#[verifier::external_body]
pub(crate) fn tree_size(tree: &usvg::Tree) -> (size: SourceSize)
    ensures
        !size.is_degenerate(),
{
    let size = tree.size();
    SourceSize { width_bits: size.width().to_bits(), height_bits: size.height().to_bits() }
}

} // verus!
