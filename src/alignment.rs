use crate::pad::{
    center_left_padded, center_right_padded, end_padded, start_padded, AlignCenterLeft,
    AlignCenterRight, AlignLeft, AlignRight, Pad,
};
use crate::width::Width;
use vstd::prelude::*;

verus! {

/// Where to place the pad blocks.
#[derive(Debug, Clone, Copy, PartialEq, Eq, Structural)]
pub enum Alignment {
    /// Pad to the right, content to the left.
    Left,
    /// Pad to the left, content to the right.
    Right,
    /// Pad to both sides, place content in the middle, but shift it one block to the left
    /// if it can't be exactly central.
    CenterLeft,
    /// Pad to both sides, place content in the middle, but shift it one block to the right
    /// if it can't be exactly central.
    CenterRight,
}

impl Pad for Alignment {
    open spec fn spec_pad(&self, text: Seq<char>, pad_block: char, pad_width: nat) -> Seq<char> {
        match *self {
            Alignment::Left => end_padded(text, pad_block, pad_width),
            Alignment::Right => start_padded(text, pad_block, pad_width),
            Alignment::CenterLeft => center_left_padded(text, pad_block, pad_width),
            Alignment::CenterRight => center_right_padded(text, pad_block, pad_width),
        }
    }

    fn pad<Value: Width + ?Sized>(
        &self,
        out: &mut String,
        value: &Value,
        pad_block: char,
        pad_width: usize,
    ) {
        match *self {
            Alignment::Left => AlignLeft.pad(out, value, pad_block, pad_width),
            Alignment::Right => AlignRight.pad(out, value, pad_block, pad_width),
            Alignment::CenterLeft => AlignCenterLeft.pad(out, value, pad_block, pad_width),
            Alignment::CenterRight => AlignCenterRight.pad(out, value, pad_block, pad_width),
        }
    }
}

} // verus!
