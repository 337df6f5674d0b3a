use crate::alignment::Alignment;
use crate::excess::{
    text_result, ErrorOnExcess, Excess, ExcessError, ExcessHandler, IgnoreExcess,
    PanicOnExcess,
};
use crate::pad::{blocks, AlignCenterLeft, AlignCenterRight, AlignLeft, AlignRight, Pad};
use crate::width::{CharCount, Width};
use vstd::prelude::*;

verus! {

/// Pad a single value.
#[derive(Debug, Clone, Copy)]
pub struct PaddedValue<Value, HandleExcess, Align> {
    /// Value to be padded.
    pub value: Value,
    /// Block of the pad (expected to have width of 1).
    pub pad_block: char,
    /// Total width to fulfill.
    pub total_width: usize,
    /// Where to place the pad.
    pub alignment: Align,
    /// How to write when the actual width of `value` exceeds `total_width`.
    pub handle_excess: HandleExcess,
}

impl<Value: Width, HandleExcess: ExcessHandler<Value>, Align: Pad> PaddedValue<
    Value,
    HandleExcess,
    Align,
> {
    /// What is handed to the excess handler when `value` exceeds `total_width`.
    pub open spec fn spec_excess(&self) -> Excess<'_, Value> {
        Excess {
            value: &self.value,
            pad_block: self.pad_block,
            value_width: self.value.spec_width() as usize,
            total_width: self.total_width,
        }
    }

    /// The padded text, or the error of the excess handler.
    ///
    /// A value that fits is padded with `total_width - width` blocks; one that exceeds
    /// `total_width` goes to the excess handler.
    pub open spec fn spec_render(&self) -> Result<Seq<char>, ExcessError> {
        let value_width = self.value.spec_width();
        if value_width <= self.total_width {
            Ok(
                self.alignment.spec_pad(
                    self.value.spec_text(),
                    self.pad_block,
                    (self.total_width - value_width) as nat,
                ),
            )
        } else {
            self.handle_excess.spec_handle_excess(self.spec_excess())
        }
    }

    /// Append the padded value to `out`; on an error, `out` is left as it was.
    pub fn fmt(&self, out: &mut String) -> (r: Result<(), ExcessError>)
        ensures
            match self.spec_render() {
                Ok(text) => r is Ok && final(out)@ == old(out)@ + text,
                Err(e) => r == Err::<(), ExcessError>(e) && final(out)@ == old(out)@,
            },
    {
        let total_width = self.total_width;
        let value_width = self.value.width();
        if total_width >= value_width {
            let pad_width = total_width - value_width;
            self.alignment.pad(out, &self.value, self.pad_block, pad_width);
            Ok(())
        } else {
            let excess = Excess {
                value: &self.value,
                pad_block: self.pad_block,
                value_width,
                total_width,
            };
            match self.handle_excess.handle_excess(excess) {
                Ok(text) => {
                    out.append(text.as_str());
                    Ok(())
                },
                Err(e) => Err(e),
            }
        }
    }

    /// The padded value as a string of its own.
    pub fn to_string(&self) -> (r: Result<String, ExcessError>)
        ensures
            text_result(r) == self.spec_render(),
    {
        let mut out = String::new();
        match self.fmt(&mut out) {
            Ok(()) => {
                proof {
                    assert(out@ =~= Seq::<char>::empty() + out@);
                }
                Ok(out)
            },
            Err(e) => Err(e),
        }
    }
}

/// A value that fits, padded at the start, is `total_width - width` blocks followed by
/// the value's text.
pub proof fn lemma_start_pad<Value: Width, HandleExcess: ExcessHandler<Value>>(
    padded: PaddedValue<Value, HandleExcess, AlignRight>,
)
    requires
        padded.value.spec_width() <= padded.total_width,
    ensures
        padded.spec_render() == Ok::<Seq<char>, ExcessError>(
            blocks(padded.pad_block, (padded.total_width - padded.value.spec_width()) as nat)
                + padded.value.spec_text(),
        ),
{
}

/// A value that fits, padded at the end, is the value's text followed by
/// `total_width - width` blocks.
pub proof fn lemma_end_pad<Value: Width, HandleExcess: ExcessHandler<Value>>(
    padded: PaddedValue<Value, HandleExcess, AlignLeft>,
)
    requires
        padded.value.spec_width() <= padded.total_width,
    ensures
        padded.spec_render() == Ok::<Seq<char>, ExcessError>(
            padded.value.spec_text() + blocks(
                padded.pad_block,
                (padded.total_width - padded.value.spec_width()) as nat,
            ),
        ),
{
}

/// A value that fits, centered with the odd block to the right, has half of the blocks
/// (rounded down) before it, as many after it, and then the odd block, if any.
pub proof fn lemma_center_left_pad<Value: Width, HandleExcess: ExcessHandler<Value>>(
    padded: PaddedValue<Value, HandleExcess, AlignCenterLeft>,
)
    requires
        padded.value.spec_width() <= padded.total_width,
    ensures
        ({
            let budget = (padded.total_width - padded.value.spec_width()) as nat;
            padded.spec_render() == Ok::<Seq<char>, ExcessError>(
                blocks(padded.pad_block, budget / 2) + padded.value.spec_text() + blocks(
                    padded.pad_block,
                    budget / 2,
                ) + blocks(padded.pad_block, budget % 2),
            )
        }),
{
}

/// A value that fits, centered with the odd block to the left, has the odd block, if any,
/// then half of the blocks (rounded down) before it, and as many after it.
pub proof fn lemma_center_right_pad<Value: Width, HandleExcess: ExcessHandler<Value>>(
    padded: PaddedValue<Value, HandleExcess, AlignCenterRight>,
)
    requires
        padded.value.spec_width() <= padded.total_width,
    ensures
        ({
            let budget = (padded.total_width - padded.value.spec_width()) as nat;
            padded.spec_render() == Ok::<Seq<char>, ExcessError>(
                blocks(padded.pad_block, budget % 2) + blocks(padded.pad_block, budget / 2)
                    + padded.value.spec_text() + blocks(padded.pad_block, budget / 2),
            )
        }),
{
}

/// Measured by its number of characters, a value that fits takes exactly `total_width`
/// characters once padded, whichever the alignment.
pub proof fn lemma_char_count_fills_total_width<
    Inner: Width,
    HandleExcess: ExcessHandler<CharCount<Inner>>,
>(padded: PaddedValue<CharCount<Inner>, HandleExcess, Alignment>)
    requires
        padded.value.spec_width() <= padded.total_width,
    ensures
        padded.spec_render() is Ok,
        padded.spec_render()->Ok_0.len() == padded.total_width,
{
    let budget = (padded.total_width - padded.value.spec_width()) as nat;
    assert(budget / 2 + budget / 2 + budget % 2 == budget);
}

/// A value that exceeds its total width, with excess ignored, is written as it is.
pub proof fn lemma_ignore_excess<Value: Width, Align: Pad>(
    padded: PaddedValue<Value, IgnoreExcess, Align>,
)
    requires
        padded.value.spec_width() > padded.total_width,
    ensures
        padded.spec_render() == Ok::<Seq<char>, ExcessError>(padded.value.spec_text()),
{
}

/// A value that exceeds its total width, with excess forbidden, gives a recoverable
/// error that carries both widths.
pub proof fn lemma_error_on_excess<Value: Width, Align: Pad>(
    padded: PaddedValue<Value, ErrorOnExcess, Align>,
)
    requires
        padded.value.spec_width() > padded.total_width,
        padded.value.spec_width() <= usize::MAX,
    ensures
        padded.spec_render() == Err::<Seq<char>, ExcessError>(
            ExcessError::Forbidden {
                value_width: padded.value.spec_width() as usize,
                total_width: padded.total_width,
            },
        ),
{
}

/// A value that exceeds its total width, with excess a fault, gives the fatal error,
/// which carries both widths for its message.
pub proof fn lemma_panic_on_excess<Value: Width, Align: Pad>(
    padded: PaddedValue<Value, PanicOnExcess, Align>,
)
    requires
        padded.value.spec_width() > padded.total_width,
        padded.value.spec_width() <= usize::MAX,
    ensures
        padded.spec_render() == Err::<Seq<char>, ExcessError>(
            ExcessError::Fatal {
                value_width: padded.value.spec_width() as usize,
                total_width: padded.total_width,
            },
        ),
        padded.spec_render()->Err_0.spec_value_width() == padded.value.spec_width(),
        padded.spec_render()->Err_0.spec_total_width() == padded.total_width,
{
}

} // verus!
