//! Pixel buffers and the engine that fills them.
//!
//! Documents are parsed by `usvg`, pixel buffers are `tiny_skia`'s and
//! `resvg` renders the one into the other. Nothing in this module is proved:
//! it states what those calls hand back.

use resvg::tiny_skia::{Pixmap, Transform};
use resvg::usvg::{Options, Tree};
use vstd::prelude::*;

verus! {

/// `tiny_skia::Pixmap`: a rectangle of pixels, four bytes each.
#[verifier::external_type_specification]
#[verifier::external_body]
pub struct ExPixmap(Pixmap);

/// `tiny_skia::Transform`: an affine map of the plane.
#[verifier::external_type_specification]
#[verifier::external_body]
pub struct ExTransform(Transform);

/// `usvg::Tree`: a parsed document.
#[verifier::external_type_specification]
#[verifier::external_body]
pub struct ExTree(Tree);

/// `usvg::Error`: why a document could not be parsed.
#[verifier::external_type_specification]
#[verifier::external_body]
pub struct ExParseError(resvg::usvg::Error);

/// The bytes of `pixmap`: row by row, four for each pixel, in the order
/// red, green, blue, alpha.
pub uninterp spec fn pixmap_bytes(pixmap: Pixmap) -> Seq<u8>;

/// How many pixels a row of `pixmap` holds.
pub uninterp spec fn pixmap_width(pixmap: Pixmap) -> nat;

/// Whether `usvg` accepts `text` as a document under its default options.
pub uninterp spec fn document_is_valid(text: Seq<char>) -> bool;

/// How many rows `pixmap` holds: rows have no padding, so the bytes are a
/// whole number of rows.
pub open spec fn pixmap_height(pixmap: Pixmap) -> nat {
    if pixmap_width(pixmap) == 0 {
        0
    } else {
        pixmap_bytes(pixmap).len() / (4 * pixmap_width(pixmap))
    }
}

/// How many pixels `pixmap` holds.
pub open spec fn pixel_count(pixmap: Pixmap) -> nat {
    pixmap_bytes(pixmap).len() / 4
}

/// Whether a pixmap of this size can be had: neither side is zero, the
/// bytes of a row can be counted in an `i32`, and the bytes of the whole
/// in a `usize`.
pub open spec fn pixmap_fits(width: u32, height: u32) -> bool {
    &&& width > 0
    &&& height > 0
    &&& 4 * width <= i32::MAX
    &&& 4 * width * height <= usize::MAX
}

/// The widest and the tallest pixmap that can be rendered into: the
/// renderer counts five times either side in an `i32`.
pub const MAX_TARGET: u32 = 429_496_729;

/// `Pixmap::new`: a pixmap of the given size with every byte zero, where
/// such a pixmap can be had.
pub assume_specification[ Pixmap::new ](width: u32, height: u32) -> (pixmap: Option<Pixmap>)
    ensures
        pixmap.is_some() == pixmap_fits(width, height),
        pixmap matches Some(p) ==> {
            &&& pixmap_width(p) == width
            &&& pixmap_bytes(p) == Seq::new((4 * width * height) as nat, |i: int| 0u8)
        },
;

/// `Pixmap::data`: the bytes of the pixmap.
pub assume_specification[ Pixmap::data ](pixmap: &Pixmap) -> (bytes: &[u8])
    ensures
        bytes@ == pixmap_bytes(*pixmap),
;

/// `usvg::Tree::from_str` under `usvg::Options::default()`: the parsed
/// document, or an error where the text is not a valid document.
#[verifier::external_body]
pub(crate) fn parse_document(text: &str) -> (tree: Result<Tree, resvg::usvg::Error>)
    ensures
        tree.is_ok() == document_is_valid(text@),
{
    Tree::from_str(text, &Options::default())
}

/// `resvg::render`: draws the document over the pixels of the pixmap after
/// mapping it by `transform`. The pixmap keeps its size; nothing is said of
/// the colors that the pixels end up with.
#[verifier::external_body]
pub(crate) fn render_tree(tree: &Tree, transform: Transform, pixmap: &mut Pixmap)
    requires
        pixmap_width(*old(pixmap)) <= MAX_TARGET,
        pixmap_height(*old(pixmap)) <= MAX_TARGET,
    ensures
        pixmap_width(*final(pixmap)) == pixmap_width(*old(pixmap)),
        pixmap_bytes(*final(pixmap)).len() == pixmap_bytes(*old(pixmap)).len(),
{
    resvg::render(tree, transform, &mut pixmap.as_mut());
}

} // verus!
