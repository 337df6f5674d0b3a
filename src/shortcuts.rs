use crate::column::{max_width, PaddedColumn, PaddedColumnIter};
use crate::excess::IgnoreExcess;
use crate::pad::{AlignCenterLeft, AlignCenterRight, AlignLeft, AlignRight};
use crate::value::PaddedValue;
use crate::width::Width;
use vstd::prelude::*;

verus! {

/// Pad space characters to the right of a value; a value that exceeds `total_width` is written as it is.
pub fn align_left<Value: Width>(value: Value, total_width: usize) -> (r: PaddedValue<
    Value,
    IgnoreExcess,
    AlignLeft,
>)
    ensures
        r.value == value,
        r.total_width == total_width,
        r.pad_block == ' ',
{
    PaddedValue {
        value,
        total_width,
        pad_block: ' ',
        alignment: AlignLeft,
        handle_excess: IgnoreExcess,
    }
}

/// Pad space characters to the left of a value; a value that exceeds `total_width` is written as it is.
pub fn align_right<Value: Width>(value: Value, total_width: usize) -> (r: PaddedValue<
    Value,
    IgnoreExcess,
    AlignRight,
>)
    ensures
        r.value == value,
        r.total_width == total_width,
        r.pad_block == ' ',
{
    PaddedValue {
        value,
        total_width,
        pad_block: ' ',
        alignment: AlignRight,
        handle_excess: IgnoreExcess,
    }
}

/// Pad space characters to both sides of a value, the odd one to the right; a value that exceeds
/// `total_width` is written as it is.
pub fn align_center_left<Value: Width>(value: Value, total_width: usize) -> (r: PaddedValue<
    Value,
    IgnoreExcess,
    AlignCenterLeft,
>)
    ensures
        r.value == value,
        r.total_width == total_width,
        r.pad_block == ' ',
{
    PaddedValue {
        value,
        total_width,
        pad_block: ' ',
        alignment: AlignCenterLeft,
        handle_excess: IgnoreExcess,
    }
}

/// Pad space characters to both sides of a value, the odd one to the left; a value that exceeds
/// `total_width` is written as it is.
pub fn align_center_right<Value: Width>(value: Value, total_width: usize) -> (r: PaddedValue<
    Value,
    IgnoreExcess,
    AlignCenterRight,
>)
    ensures
        r.value == value,
        r.total_width == total_width,
        r.pad_block == ' ',
{
    PaddedValue {
        value,
        total_width,
        pad_block: ' ',
        alignment: AlignCenterRight,
        handle_excess: IgnoreExcess,
    }
}

/// Pad space characters to the right of every value so that they all share the same width.
pub fn align_column_left<Value: Width>(values: Vec<Value>) -> (r: PaddedColumnIter<Value, AlignLeft>)
    ensures
        r.wf(),
        r.spec_values() == values@,
        r.spec_total_width() as nat == max_width(values@),
        r.spec_pad_block() == ' ',
{
    PaddedColumn { values, pad_block: ' ', pad: AlignLeft }.into_iter()
}

/// Pad space characters to the left of every value so that they all share the same width.
pub fn align_column_right<Value: Width>(values: Vec<Value>) -> (r: PaddedColumnIter<Value, AlignRight>)
    ensures
        r.wf(),
        r.spec_values() == values@,
        r.spec_total_width() as nat == max_width(values@),
        r.spec_pad_block() == ' ',
{
    PaddedColumn { values, pad_block: ' ', pad: AlignRight }.into_iter()
}

/// Pad space characters to both sides of every value so that they all share the same width,
/// the odd ones to the right.
pub fn align_column_center_left<Value: Width>(values: Vec<Value>) -> (r: PaddedColumnIter<Value, AlignCenterLeft>)
    ensures
        r.wf(),
        r.spec_values() == values@,
        r.spec_total_width() as nat == max_width(values@),
        r.spec_pad_block() == ' ',
{
    PaddedColumn { values, pad_block: ' ', pad: AlignCenterLeft }.into_iter()
}

/// Pad space characters to both sides of every value so that they all share the same width,
/// the odd ones to the left.
pub fn align_column_center_right<Value: Width>(values: Vec<Value>) -> (r: PaddedColumnIter<Value, AlignCenterRight>)
    ensures
        r.wf(),
        r.spec_values() == values@,
        r.spec_total_width() as nat == max_width(values@),
        r.spec_pad_block() == ' ',
{
    PaddedColumn { values, pad_block: ' ', pad: AlignCenterRight }.into_iter()
}

} // verus!
