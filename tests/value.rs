use padded_column::{
    align_center_left, align_center_right, align_left, align_right, AlignLeft, AlignRight,
    Alignment, CharCount, IgnoreExcess, PadDirection, PaddedItem, PaddedValue, PanicOnExcess,
};

#[test]
fn start_pad_scenario() {
    let padded_value = PaddedValue {
        value: "abcdef",
        pad_block: '-',
        total_width: 9,
        alignment: AlignRight,
        handle_excess: PanicOnExcess,
    };
    assert_eq!(padded_value.to_string(), Ok("---abcdef".to_string()));
}

#[test]
fn end_pad_scenario() {
    let padded_value = PaddedValue {
        value: "abcdef",
        pad_block: '-',
        total_width: 9,
        alignment: AlignLeft,
        handle_excess: PanicOnExcess,
    };
    assert_eq!(padded_value.to_string(), Ok("abcdef---".to_string()));
}

#[test]
fn alignment_enum_matches_unit_aligners() {
    let cases = [
        (Alignment::Left, "abc----"),
        (Alignment::Right, "----abc"),
        (Alignment::CenterLeft, "--abc--"),
        (Alignment::CenterRight, "--abc--"),
    ];
    for (alignment, expected) in cases {
        let padded_value = PaddedValue {
            value: "abc",
            pad_block: '-',
            total_width: 7,
            alignment,
            handle_excess: IgnoreExcess,
        };
        assert_eq!(padded_value.to_string(), Ok(expected.to_string()));
    }
    let odd = PaddedValue {
        value: "abc",
        pad_block: '-',
        total_width: 8,
        alignment: Alignment::CenterRight,
        handle_excess: IgnoreExcess,
    };
    assert_eq!(odd.to_string(), Ok("---abc--".to_string()));
}

#[test]
fn equal_widths_take_no_blocks() {
    let padded_value = PaddedValue {
        value: "abcdef",
        pad_block: '-',
        total_width: 6,
        alignment: AlignRight,
        handle_excess: PanicOnExcess,
    };
    assert_eq!(padded_value.to_string(), Ok("abcdef".to_string()));
}

#[test]
fn fmt_appends_to_output() {
    let padded_value = PaddedValue {
        value: "ab",
        pad_block: '*',
        total_width: 4,
        alignment: AlignLeft,
        handle_excess: PanicOnExcess,
    };
    let mut out = String::from("[");
    assert_eq!(padded_value.fmt(&mut out), Ok(()));
    out.push(']');
    assert_eq!(out, "[ab**]");
}

#[test]
fn wide_characters_are_padded_by_display_width() {
    let padded_value = PaddedValue {
        value: "日本",
        pad_block: '-',
        total_width: 6,
        alignment: AlignRight,
        handle_excess: PanicOnExcess,
    };
    assert_eq!(padded_value.to_string(), Ok("--日本".to_string()));
    let by_chars = PaddedValue {
        value: CharCount("日本"),
        pad_block: '-',
        total_width: 6,
        alignment: Alignment::Left,
        handle_excess: PanicOnExcess,
    };
    assert_eq!(by_chars.to_string(), Ok("日本----".to_string()));
}

#[test]
fn shortcuts_pad_with_spaces() {
    assert_eq!(align_left("abc", 5).to_string(), Ok("abc  ".to_string()));
    assert_eq!(align_right("abc", 5).to_string(), Ok("  abc".to_string()));
    assert_eq!(align_center_left("abc", 8).to_string(), Ok("  abc   ".to_string()));
    assert_eq!(align_center_right("abc", 8).to_string(), Ok("   abc  ".to_string()));
    assert_eq!(align_left("abcdefghi", 5).to_string(), Ok("abcdefghi".to_string()));
    assert_eq!(align_center_right("abcdefghi", 5).to_string(), Ok("abcdefghi".to_string()));
}

#[test]
fn padded_item_directions() {
    let left = PaddedItem {
        value: "abcdef",
        pad_block: '-',
        total_width: 9,
        pad_direction: PadDirection::Left,
        handle_excess: IgnoreExcess,
    };
    assert_eq!(left.to_string(), Ok("---abcdef".to_string()));
    let right = PaddedItem {
        value: "abcdef",
        pad_block: '-',
        total_width: 9,
        pad_direction: PadDirection::Right,
        handle_excess: IgnoreExcess,
    };
    assert_eq!(right.to_string(), Ok("abcdef---".to_string()));
    let exact = PaddedItem {
        value: "abcdef",
        pad_block: '-',
        total_width: 6,
        pad_direction: PadDirection::Left,
        handle_excess: PanicOnExcess,
    };
    assert_eq!(exact.to_string(), Ok("abcdef".to_string()));
    let excess = PaddedItem {
        value: "abcdefghijkl",
        pad_block: '-',
        total_width: 9,
        pad_direction: PadDirection::Right,
        handle_excess: IgnoreExcess,
    };
    assert_eq!(excess.to_string(), Ok("abcdefghijkl".to_string()));
}
