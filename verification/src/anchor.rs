use vstd::prelude::*;

verus! {

/// The nine reference points an anchored container can be pinned to within
/// the space its parent allocates: {Top, Middle, Bottom} x {Left, Center,
/// Right}.
#[derive(Clone, Copy, Debug)]
pub enum AnchorPosition {
    TopLeft,
    TopCenter,
    TopRight,
    MiddleLeft,
    MiddleCenter,
    MiddleRight,
    BottomLeft,
    BottomCenter,
    BottomRight,
}

} // verus!
