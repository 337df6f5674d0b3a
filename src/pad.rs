use crate::width::Width;
use vstd::prelude::*;

verus! {

/// `count` copies of `pad_block`.
pub open spec fn blocks(pad_block: char, count: nat) -> Seq<char> {
    Seq::new(count, |_i: int| pad_block)
}

/// The text followed by `pad_width` blocks: content to the left.
pub open spec fn end_padded(text: Seq<char>, pad_block: char, pad_width: nat) -> Seq<char> {
    text + blocks(pad_block, pad_width)
}

/// `pad_width` blocks followed by the text: content to the right.
pub open spec fn start_padded(text: Seq<char>, pad_block: char, pad_width: nat) -> Seq<char> {
    blocks(pad_block, pad_width) + text
}

/// Half of the blocks on each side of the text, the odd one at the end.
pub open spec fn center_left_padded(text: Seq<char>, pad_block: char, pad_width: nat) -> Seq<char> {
    blocks(pad_block, pad_width / 2) + text + blocks(pad_block, pad_width / 2) + blocks(
        pad_block,
        pad_width % 2,
    )
}

/// Half of the blocks on each side of the text, the odd one at the start.
pub open spec fn center_right_padded(text: Seq<char>, pad_block: char, pad_width: nat) -> Seq<
    char,
> {
    blocks(pad_block, pad_width % 2) + blocks(pad_block, pad_width / 2) + text + blocks(
        pad_block,
        pad_width / 2,
    )
}

/// Relies on `fmt_iter::repeat`, written out with `to_string`: the block `times` times in a
/// row.
#[verifier::external_body]
fn repeat(pad_block: char, times: usize) -> (r: String)
    ensures
        r@ == blocks(pad_block, times as nat),
{
    fmt_iter::repeat(pad_block, times).to_string()
}

/// Append `count` copies of `pad_block` to `out`.
fn write_blocks(out: &mut String, pad_block: char, count: usize)
    ensures
        final(out)@ == old(out)@ + blocks(pad_block, count as nat),
{
    let pad = repeat(pad_block, count);
    out.append(pad.as_str());
}

/// Split a pad width into its half (rounded down) and the odd block that is left.
fn split_pad_width(pad_width: usize) -> (r: (usize, usize))
    ensures
        r.0 == pad_width / 2,
        r.1 == pad_width % 2,
{
    assert(pad_width >> 1 == pad_width / 2) by (bit_vector);
    assert(pad_width & 1 == pad_width % 2) by (bit_vector);
    (pad_width >> 1, pad_width & 1)
}

/// Pad a value that does not exceed.
///
/// Values that implement this trait are to be passed to the alignment of
/// [`PaddedValue`](crate::PaddedValue) or [`PaddedColumn`](crate::PaddedColumn).
pub trait Pad {
    /// The text written for a value's text padded with `pad_width` blocks.
    spec fn spec_pad(&self, text: Seq<char>, pad_block: char, pad_width: nat) -> Seq<char>;

    /// Append `value` padded with `pad_width` copies of `pad_block` to `out`.
    fn pad<Value: Width + ?Sized>(
        &self,
        out: &mut String,
        value: &Value,
        pad_block: char,
        pad_width: usize,
    )
        ensures
            final(out)@ == old(out)@ + self.spec_pad(value.spec_text(), pad_block, pad_width as nat),
    ;
}

impl<'a, X: Pad> Pad for &'a X {
    open spec fn spec_pad(&self, text: Seq<char>, pad_block: char, pad_width: nat) -> Seq<char> {
        (**self).spec_pad(text, pad_block, pad_width)
    }

    fn pad<Value: Width + ?Sized>(
        &self,
        out: &mut String,
        value: &Value,
        pad_block: char,
        pad_width: usize,
    ) {
        (**self).pad(out, value, pad_block, pad_width)
    }
}

/// Pad to the right, content to the left.
#[derive(Debug, Clone, Copy, PartialEq, Eq, Structural)]
pub struct AlignLeft;

impl Pad for AlignLeft {
    open spec fn spec_pad(&self, text: Seq<char>, pad_block: char, pad_width: nat) -> Seq<char> {
        end_padded(text, pad_block, pad_width)
    }

    fn pad<Value: Width + ?Sized>(
        &self,
        out: &mut String,
        value: &Value,
        pad_block: char,
        pad_width: usize,
    ) {
        let ghost start = out@;
        value.write_text(out);
        write_blocks(out, pad_block, pad_width);
        assert(out@ =~= start + end_padded(value.spec_text(), pad_block, pad_width as nat));
    }
}

/// Pad to the left, content to the right.
#[derive(Debug, Clone, Copy, PartialEq, Eq, Structural)]
pub struct AlignRight;

impl Pad for AlignRight {
    open spec fn spec_pad(&self, text: Seq<char>, pad_block: char, pad_width: nat) -> Seq<char> {
        start_padded(text, pad_block, pad_width)
    }

    fn pad<Value: Width + ?Sized>(
        &self,
        out: &mut String,
        value: &Value,
        pad_block: char,
        pad_width: usize,
    ) {
        let ghost start = out@;
        write_blocks(out, pad_block, pad_width);
        value.write_text(out);
        assert(out@ =~= start + start_padded(value.spec_text(), pad_block, pad_width as nat));
    }
}

/// Pad to both sides, place content in the middle, but shift it one block to the left if
/// it can't be exactly central.
#[derive(Debug, Clone, Copy, PartialEq, Eq, Structural)]
pub struct AlignCenterLeft;

impl Pad for AlignCenterLeft {
    open spec fn spec_pad(&self, text: Seq<char>, pad_block: char, pad_width: nat) -> Seq<char> {
        center_left_padded(text, pad_block, pad_width)
    }

    fn pad<Value: Width + ?Sized>(
        &self,
        out: &mut String,
        value: &Value,
        pad_block: char,
        pad_width: usize,
    ) {
        let ghost start = out@;
        let (half, odd) = split_pad_width(pad_width);
        write_blocks(out, pad_block, half);
        value.write_text(out);
        write_blocks(out, pad_block, half);
        write_blocks(out, pad_block, odd);
        assert(out@ =~= start + center_left_padded(value.spec_text(), pad_block, pad_width as nat));
    }
}

/// Pad to both sides, place content in the middle, but shift it one block to the right if
/// it can't be exactly central.
#[derive(Debug, Clone, Copy, PartialEq, Eq, Structural)]
pub struct AlignCenterRight;

impl Pad for AlignCenterRight {
    open spec fn spec_pad(&self, text: Seq<char>, pad_block: char, pad_width: nat) -> Seq<char> {
        center_right_padded(text, pad_block, pad_width)
    }

    fn pad<Value: Width + ?Sized>(
        &self,
        out: &mut String,
        value: &Value,
        pad_block: char,
        pad_width: usize,
    ) {
        let ghost start = out@;
        let (half, odd) = split_pad_width(pad_width);
        write_blocks(out, pad_block, odd);
        write_blocks(out, pad_block, half);
        value.write_text(out);
        write_blocks(out, pad_block, half);
        assert(out@ =~= start + center_right_padded(value.spec_text(), pad_block, pad_width as nat));
    }
}

} // verus!
