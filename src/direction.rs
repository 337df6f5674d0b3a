use vstd::prelude::*;

verus! {

/// Which side of the value the pad blocks go to.
#[derive(Debug, Clone, Copy, PartialEq, Eq, Structural)]
pub enum PadDirection {
    /// Pad to the left, content to the right.
    Left,
    /// Pad to the right, content to the left.
    Right,
}

} // verus!
