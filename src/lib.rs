//! Padding and aligning values that report a display width.

mod alignment;
mod column;
mod direction;
mod excess;
mod item;
mod pad;
mod shortcuts;
mod unit;
mod value;
mod width;

pub use alignment::Alignment;
pub use column::{
    lemma_column_item_fits, lemma_max_width, max_width, PaddedColumn, PaddedColumnIter,
};
pub use direction::PadDirection;
pub use excess::{
    decimal, digit_char, excess_message, is_excess_function, text_result, ErrorOnExcess, Excess,
    ExcessError, ExcessHandler, ExcessHandlingFunction, IgnoreExcess, PanicOnExcess,
    UnitExcessHandler,
};
pub use item::PaddedItem;
pub use pad::{
    blocks, center_left_padded, center_right_padded, end_padded, start_padded, AlignCenterLeft,
    AlignCenterRight, AlignLeft, AlignRight, Pad,
};
pub use shortcuts::{
    align_center_left, align_center_right, align_column_center_left, align_column_center_right,
    align_column_left, align_column_right, align_left, align_right,
};
pub use unit::Unit;
pub use value::{
    lemma_center_left_pad, lemma_center_right_pad, lemma_char_count_fills_total_width,
    lemma_end_pad, lemma_error_on_excess, lemma_ignore_excess, lemma_panic_on_excess,
    lemma_start_pad, PaddedValue,
};
pub use width::{
    unicode_width_cjk_of, unicode_width_of, CharCount, Len, UnicodeWidth, UnicodeWidthCjk, Width,
};
