use crate::direction::PadDirection;
use crate::excess::{text_result, Excess, ExcessError, ExcessHandler};
use crate::pad::{end_padded, start_padded, AlignLeft, AlignRight, Pad};
use crate::width::Width;
use vstd::prelude::*;

verus! {

/// Pad a single value to one side.
#[derive(Debug, Clone, Copy)]
pub struct PaddedItem<Value, HandleExcess> {
    /// Value to be padded.
    pub value: Value,
    /// Block of the pad (expected to have width of 1).
    pub pad_block: char,
    /// Total width to fulfill.
    pub total_width: usize,
    /// Where to place the pad.
    pub pad_direction: PadDirection,
    /// How to write when the actual width of `value` exceeds `total_width`.
    pub handle_excess: HandleExcess,
}

impl<Value: Width, HandleExcess: ExcessHandler<Value>> PaddedItem<Value, HandleExcess> {
    /// What is handed to the excess handler when `value` exceeds `total_width`.
    pub open spec fn spec_excess(&self) -> Excess<'_, Value> {
        Excess {
            value: &self.value,
            pad_block: self.pad_block,
            value_width: self.value.spec_width() as usize,
            total_width: self.total_width,
        }
    }

    /// The padded text, or the error of the excess handler.
    pub open spec fn spec_render(&self) -> Result<Seq<char>, ExcessError> {
        let value_width = self.value.spec_width();
        if value_width <= self.total_width {
            let pad_width = (self.total_width - value_width) as nat;
            match self.pad_direction {
                PadDirection::Left => Ok(start_padded(self.value.spec_text(), self.pad_block, pad_width)),
                PadDirection::Right => Ok(end_padded(self.value.spec_text(), self.pad_block, pad_width)),
            }
        } else {
            self.handle_excess.spec_handle_excess(self.spec_excess())
        }
    }

    /// Append the padded value to `out`; on an error, `out` is left as it was.
    pub fn fmt(&self, out: &mut String) -> (r: Result<(), ExcessError>)
        ensures
            match self.spec_render() {
                Ok(text) => r is Ok && final(out)@ == old(out)@ + text,
                Err(e) => r == Err::<(), ExcessError>(e) && final(out)@ == old(out)@,
            },
    {
        let total_width = self.total_width;
        let value_width = self.value.width();
        if total_width >= value_width {
            let pad_width = total_width - value_width;
            match self.pad_direction {
                PadDirection::Left => AlignRight.pad(out, &self.value, self.pad_block, pad_width),
                PadDirection::Right => AlignLeft.pad(out, &self.value, self.pad_block, pad_width),
            }
            Ok(())
        } else {
            let excess = Excess {
                value: &self.value,
                pad_block: self.pad_block,
                value_width,
                total_width,
            };
            match self.handle_excess.handle_excess(excess) {
                Ok(text) => {
                    out.append(text.as_str());
                    Ok(())
                },
                Err(e) => Err(e),
            }
        }
    }

    /// The padded value as a string of its own.
    pub fn to_string(&self) -> (r: Result<String, ExcessError>)
        ensures
            text_result(r) == self.spec_render(),
    {
        let mut out = String::new();
        match self.fmt(&mut out) {
            Ok(()) => {
                proof {
                    assert(out@ =~= Seq::<char>::empty() + out@);
                }
                Ok(out)
            },
            Err(e) => Err(e),
        }
    }
}

} // verus!
