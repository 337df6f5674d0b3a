use crate::excess::{ExcessError, PanicOnExcess};
use crate::pad::Pad;
use crate::value::PaddedValue;
use crate::width::Width;
use std::collections::VecDeque;
use vstd::prelude::*;

verus! {

/// The greatest width among `values`, or 0 where there are none.
pub open spec fn max_width<Value: Width>(values: Seq<Value>) -> nat
    decreases values.len(),
{
    if values.len() == 0 {
        0
    } else {
        let rest = max_width(values.drop_last());
        let last = values.last().spec_width();
        if rest >= last {
            rest
        } else {
            last
        }
    }
}

/// The width of a column is the greatest width among its values: no value is wider, one
/// of them is as wide where there are any, and an empty column has width 0.
pub proof fn lemma_max_width<Value: Width>(values: Seq<Value>)
    ensures
        forall|i: int| 0 <= i < values.len() ==> #[trigger] values[i].spec_width() <= max_width(values),
        values.len() == 0 ==> max_width(values) == 0,
        values.len() > 0 ==> exists|i: int|
            0 <= i < values.len() && #[trigger] values[i].spec_width() == max_width(values),
    decreases values.len(),
{
    if values.len() > 0 {
        let rest = values.drop_last();
        lemma_max_width(rest);
        assert forall|i: int| 0 <= i < values.len() implies #[trigger] values[i].spec_width()
            <= max_width(values) by {
            if i < rest.len() {
                assert(values[i] == rest[i]);
            }
        }
        if max_width(rest) >= values.last().spec_width() && rest.len() > 0 {
            let j = choose|j: int| 0 <= j < rest.len() && #[trigger] rest[j].spec_width() == max_width(rest);
            assert(values[j] == rest[j]);
        } else {
            assert(values[values.len() - 1].spec_width() == max_width(values));
        }
    }
}

/// Every item that a column yields fits its total width, so it is padded and never
/// reaches the excess handler.
pub proof fn lemma_column_item_fits<Value: Width, Align: Pad>(
    item: PaddedValue<Value, PanicOnExcess, Align>,
)
    requires
        item.value.spec_width() <= item.total_width,
    ensures
        item.spec_render() == Ok::<Seq<char>, ExcessError>(
            item.alignment.spec_pad(
                item.value.spec_text(),
                item.pad_block,
                (item.total_width - item.value.spec_width()) as nat,
            ),
        ),
{
}

/// Pad all values in a collection to be of same (maximum) width.
#[derive(Debug, Clone)]
pub struct PaddedColumn<Value, Align> {
    /// Values to be padded.
    pub values: Vec<Value>,
    /// Block of the pad (expected to have width of 1).
    pub pad_block: char,
    /// Where to place the pad.
    pub pad: Align,
}

impl<Value: Width, Align: Pad + Copy> PaddedColumn<Value, Align> {
    /// Measure every value once, keeping them in order, and make an iterator of the values
    /// padded to the greatest width among them.
    pub fn into_iter(self) -> (r: PaddedColumnIter<Value, Align>)
        ensures
            r.wf(),
            r.spec_values() == self.values@,
            r.spec_total_width() as nat == max_width(self.values@),
            r.spec_pad_block() == self.pad_block,
            r.spec_pad() == self.pad,
    {
        let PaddedColumn { values, pad_block, pad } = self;
        let mut iter = PaddedColumnIter {
            value_list: VecDeque::new(),
            total_width: 0,
            pad_block,
            pad,
        };
        let ghost all = values@;
        for value in it: values.into_iter()
            invariant
                it.seq() == all,
                iter.wf(),
                iter.spec_values() == all.take(it.index()),
                iter.spec_total_width() as nat == max_width(all.take(it.index())),
                iter.spec_pad_block() == pad_block,
                iter.spec_pad() == pad,
        {
            proof {
                assert(all.take(it.index() + 1).drop_last() =~= all.take(it.index()));
            }
            iter.push_back(value);
            assert(iter.spec_values() =~= all.take(it.index() + 1));
        }
        assert(all.take(all.len() as int) =~= all);
        iter
    }
}

/// Iterator created by calling [`into_iter`](PaddedColumn::into_iter) on [`PaddedColumn`].
#[derive(Debug, Clone)]
pub struct PaddedColumnIter<Value: Width, Align: Pad> {
    value_list: VecDeque<Value>,
    pad_block: char,
    pad: Align,
    total_width: usize,
}

impl<Value: Width, Align: Pad> PaddedColumnIter<Value, Align> {
    /// No value left exceeds the total width.
    pub closed spec fn wf(&self) -> bool {
        forall|i: int|
            0 <= i < self.value_list@.len() ==> #[trigger] self.value_list@[i].spec_width()
                <= self.total_width
    }
}

impl<Value: Width, Align: Pad + Copy> PaddedColumnIter<Value, Align> {
    /// The values that are left, in order.
    pub closed spec fn spec_values(&self) -> Seq<Value> {
        self.value_list@
    }

    /// The width that every item is padded to.
    pub closed spec fn spec_total_width(&self) -> usize {
        self.total_width
    }

    /// The block of the pad.
    pub closed spec fn spec_pad_block(&self) -> char {
        self.pad_block
    }

    /// The padding method.
    pub closed spec fn spec_pad(&self) -> Align {
        self.pad
    }

    /// Add a value to the column.
    /// If width of the new value is greater than the current total_width,
    /// set it as the new total_width.
    pub fn push_back(&mut self, value: Value)
        requires
            old(self).wf(),
        ensures
            final(self).wf(),
            final(self).spec_values() == old(self).spec_values().push(value),
            final(self).spec_total_width() as nat == if value.spec_width()
                <= old(self).spec_total_width() {
                old(self).spec_total_width() as nat
            } else {
                value.spec_width()
            },
            final(self).spec_pad_block() == old(self).spec_pad_block(),
            final(self).spec_pad() == old(self).spec_pad(),
    {
        let value_width = value.width();
        if value_width > self.total_width {
            self.total_width = value_width;
        }
        self.value_list.push_back(value);
    }

    /// Pad block that was used in the construction of [`PaddedColumn`].
    pub fn pad_block(&self) -> (r: char)
        ensures
            r == self.spec_pad_block(),
    {
        self.pad_block
    }

    /// Padding method that was used in the construction of [`PaddedColumn`].
    pub fn pad(&self) -> (r: Align)
        ensures
            r == self.spec_pad(),
    {
        self.pad
    }

    /// Maximum width of all items that were passed to [`PaddedColumn`].
    pub fn total_width(&self) -> (r: usize)
        ensures
            r == self.spec_total_width(),
    {
        self.total_width
    }

    /// The number of items that are left.
    pub fn len(&self) -> (r: usize)
        ensures
            r == self.spec_values().len(),
    {
        self.value_list.len()
    }

    /// The next value, padded to the total width.
    pub fn next(&mut self) -> (r: Option<PaddedValue<Value, PanicOnExcess, Align>>)
        requires
            old(self).wf(),
        ensures
            final(self).wf(),
            final(self).spec_total_width() == old(self).spec_total_width(),
            final(self).spec_pad_block() == old(self).spec_pad_block(),
            final(self).spec_pad() == old(self).spec_pad(),
            match r {
                Some(item) => {
                    &&& old(self).spec_values().len() > 0
                    &&& item.value == old(self).spec_values()[0]
                    &&& final(self).spec_values() == old(self).spec_values().drop_first()
                    &&& item.pad_block == old(self).spec_pad_block()
                    &&& item.alignment == old(self).spec_pad()
                    &&& item.total_width == old(self).spec_total_width()
                    &&& item.value.spec_width() <= item.total_width
                },
                None => {
                    &&& old(self).spec_values().len() == 0
                    &&& final(self).spec_values() == old(self).spec_values()
                },
            },
    {
        match self.value_list.pop_front() {
            Some(value) => {
                assert(self.value_list@ =~= old(self).value_list@.drop_first());
                Some(
                    PaddedValue {
                        value,
                        pad_block: self.pad_block,
                        total_width: self.total_width,
                        alignment: self.pad,
                        handle_excess: PanicOnExcess,
                    },
                )
            },
            None => None,
        }
    }
}

} // verus!
