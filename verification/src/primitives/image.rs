use crate::primitives::rectangle::{Rectangle, RectangleView};
use vstd::prelude::*;

verus! {

/// Relies on the type `uuid::Uuid`: an opaque 128-bit texture handle. The
/// library never looks inside one; it only carries handles from the tree
/// into the emitted primitives, for the renderer to resolve.
#[verifier::external_type_specification]
#[verifier::external_body]
pub struct ExUuid(uuid::Uuid);

/// A drawable image: the texture handle to paint and the rectangle to
/// paint it into.
#[derive(Clone, Copy, Debug)]
pub struct Image {
    pub texture_id: uuid::Uuid,
    pub rectangle: Rectangle,
}

/// The mathematical image of an `Image` primitive.
pub struct ImageView {
    pub texture_id: uuid::Uuid,
    pub rect: RectangleView,
}

impl View for Image {
    type V = ImageView;

    open spec fn view(&self) -> ImageView {
        ImageView { texture_id: self.texture_id, rect: self.rectangle@ }
    }
}

impl Image {
    pub fn new(texture_id: uuid::Uuid, rectangle: Rectangle) -> (r: Image)
        ensures
            r@ == (ImageView { texture_id: texture_id, rect: rectangle@ }),
    {
        Image { texture_id, rectangle }
    }
}

} // verus!
