use padded_column::{AlignCenterLeft, AlignCenterRight, PaddedValue, PanicOnExcess};

fn center_left(value: &str, total_width: usize) -> String {
    let padded_value = PaddedValue {
        alignment: AlignCenterLeft,
        value,
        total_width,
        pad_block: '-',
        handle_excess: PanicOnExcess,
    };
    padded_value.to_string().unwrap()
}

fn center_right(value: &str, total_width: usize) -> String {
    let padded_value = PaddedValue {
        alignment: AlignCenterRight,
        value,
        total_width,
        pad_block: '-',
        handle_excess: PanicOnExcess,
    };
    padded_value.to_string().unwrap()
}

#[test]
fn left_odd_odd() {
    assert_eq!(center_left("abc", 7), "--abc--");
}

#[test]
fn left_even_odd() {
    assert_eq!(center_left("abcd", 7), "-abcd--");
}

#[test]
fn left_odd_even() {
    assert_eq!(center_left("abc", 8), "--abc---");
}

#[test]
fn left_even_even() {
    assert_eq!(center_left("abcd", 8), "--abcd--");
}

#[test]
fn right_odd_odd() {
    assert_eq!(center_right("abc", 7), "--abc--");
}

#[test]
fn right_even_odd() {
    assert_eq!(center_right("abcd", 7), "--abcd-");
}

#[test]
fn right_odd_even() {
    assert_eq!(center_right("abc", 8), "---abc--");
}

#[test]
fn right_even_even() {
    assert_eq!(center_right("abcd", 8), "--abcd--");
}

#[test]
fn center_with_zero_budget() {
    assert_eq!(center_left("abc", 3), "abc");
    assert_eq!(center_right("abc", 3), "abc");
    assert_eq!(center_left("", 0), "");
}
