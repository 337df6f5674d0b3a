use padded_column::{
    AlignRight, Alignment, ErrorOnExcess, Excess, ExcessError, ExcessHandlingFunction,
    IgnoreExcess, PaddedValue, PanicOnExcess,
};

#[test]
fn panic_on_excess_without_excess() {
    let padded_value = PaddedValue {
        handle_excess: PanicOnExcess,
        value: "abcdef",
        total_width: 9,
        pad_block: '-',
        alignment: Alignment::Right,
    };
    assert_eq!(padded_value.to_string(), Ok("---abcdef".to_string()));
}

#[test]
#[should_panic(expected = "value's width (9) is greater than total_width (6)")]
fn panic_on_excess_with_excess() {
    let padded_value = PaddedValue {
        handle_excess: PanicOnExcess,
        value: "abcdefghi",
        total_width: 6,
        pad_block: '-',
        alignment: Alignment::Right,
    };
    if let Err(error) = padded_value.to_string() {
        panic!("{}", error.message());
    }
}

#[test]
fn error_on_excess_without_excess() {
    let padded_value = PaddedValue {
        handle_excess: PanicOnExcess,
        value: "abcdef",
        total_width: 9,
        pad_block: '-',
        alignment: Alignment::Right,
    };
    assert_eq!(padded_value.to_string(), Ok("---abcdef".to_string()));
}

#[test]
fn error_on_excess_gives_recoverable_error() {
    let padded_value = PaddedValue {
        handle_excess: ErrorOnExcess,
        value: "abcdefghi",
        total_width: 6,
        pad_block: '-',
        alignment: Alignment::Right,
    };
    let error = padded_value.to_string().unwrap_err();
    assert_eq!(error, ExcessError::Forbidden { value_width: 9, total_width: 6 });
    assert_eq!(error.value_width(), 9);
    assert_eq!(error.total_width(), 6);
    assert_eq!(error.message(), "value's width (9) is greater than total_width (6)");
}

#[test]
fn panic_on_excess_gives_fatal_error() {
    let padded_value = PaddedValue {
        handle_excess: PanicOnExcess,
        value: "abcdefghi",
        total_width: 6,
        pad_block: '-',
        alignment: Alignment::Right,
    };
    assert_eq!(
        padded_value.to_string(),
        Err(ExcessError::Fatal { value_width: 9, total_width: 6 })
    );
}

#[test]
fn excess_message_with_many_digits() {
    let error = ExcessError::Fatal { value_width: 1234, total_width: 10 };
    assert_eq!(error.message(), "value's width (1234) is greater than total_width (10)");
}

#[test]
fn error_on_excess_leaves_output_unchanged() {
    let padded_value = PaddedValue {
        handle_excess: ErrorOnExcess,
        value: "abcdefghi",
        total_width: 6,
        pad_block: '-',
        alignment: Alignment::Left,
    };
    let mut out = String::from("head:");
    assert!(padded_value.fmt(&mut out).is_err());
    assert_eq!(out, "head:");
}

#[test]
fn ignore_excess_without_excess() {
    let padded_value = PaddedValue {
        handle_excess: IgnoreExcess,
        value: "abcdef",
        total_width: 9,
        pad_block: '-',
        alignment: Alignment::Right,
    };
    assert_eq!(padded_value.to_string(), Ok("---abcdef".to_string()));
}

#[test]
fn ignore_excess_with_excess() {
    let padded_value = PaddedValue {
        handle_excess: IgnoreExcess,
        value: "abcdefghi",
        total_width: 6,
        pad_block: '-',
        alignment: Alignment::Right,
    };
    assert_eq!(padded_value.to_string(), Ok("abcdefghi".to_string()));
}

#[test]
fn ignore_excess_longer_value() {
    let padded_value = PaddedValue {
        handle_excess: IgnoreExcess,
        value: "abcdefghijkl",
        total_width: 9,
        pad_block: '-',
        alignment: Alignment::Right,
    };
    assert_eq!(padded_value.to_string(), Ok("abcdefghijkl".to_string()));
}

#[test]
fn excess_handling_function_truncates() {
    let truncate = ExcessHandlingFunction::new(|excess: Excess<&str>| -> Result<String, ExcessError> {
        let mut value = excess.value.to_string();
        value.truncate(excess.total_width);
        Ok(value)
    });
    let padded_value = PaddedValue {
        handle_excess: truncate,
        value: "abcdefghi",
        total_width: 4,
        pad_block: ' ',
        alignment: AlignRight,
    };
    assert_eq!(padded_value.to_string(), Ok("abcd".to_string()));
}

#[test]
fn excess_handling_function_sees_both_widths() {
    let refuse = ExcessHandlingFunction::new(|excess: Excess<&str>| -> Result<String, ExcessError> {
        Err(ExcessError::Forbidden { value_width: excess.value_width, total_width: excess.total_width })
    });
    let padded_value = PaddedValue {
        handle_excess: refuse,
        value: "abcdefghi",
        total_width: 4,
        pad_block: '-',
        alignment: Alignment::Left,
    };
    assert_eq!(
        padded_value.to_string(),
        Err(ExcessError::Forbidden { value_width: 9, total_width: 4 })
    );
}
