use padded_column::{CharCount, Len, UnicodeWidth, UnicodeWidthCjk, Width};

#[test]
fn width_of_str_indirect_references() {
    assert_eq!(Width::width("abcdef"), 6);
    assert_eq!(Width::width(&"abcdef"), 6);
    assert_eq!(Width::width(&&"abcdef"), 6);
    assert_eq!(Width::width(&&&"abcdef"), 6);
    assert_eq!(Width::width(&&&&"abcdef"), 6);
}

#[test]
fn width_owned_string_indirect_references() {
    let owned_string = "abcdef".to_string();
    assert_eq!(Width::width(&owned_string), 6);
    assert_eq!(Width::width(&&owned_string), 6);
    assert_eq!(Width::width(&&&owned_string), 6);
    assert_eq!(Width::width(&&&&owned_string), 6);
}

#[test]
fn width_of_wide_characters() {
    assert_eq!(Width::width("日本語"), 6);
    assert_eq!(Width::width(""), 0);
}

#[test]
fn width_metrics_differ() {
    let text = "日本\u{201C}";
    assert_eq!(UnicodeWidth(text).width(), 5);
    assert_eq!(UnicodeWidthCjk(text).width(), 6);
    assert_eq!(CharCount(text).width(), 3);
    assert_eq!(Len(text).width(), 9);
}

#[test]
fn width_wrappers_keep_the_text() {
    let mut out = String::new();
    CharCount("日本").write_text(&mut out);
    Len("ab".to_string()).write_text(&mut out);
    assert_eq!(out, "日本ab");
}

#[test]
fn width_wrappers_give_back_the_inner_value() {
    let wrapped = UnicodeWidth("abc".to_string());
    assert_eq!(wrapped.as_inner(), "abc");
    assert_eq!(wrapped.into_inner(), "abc".to_string());
    assert_eq!(*Len("xyz").as_inner(), "xyz");
    assert_eq!(CharCount(7u8.to_string()).into_inner(), "7");
    assert_eq!(UnicodeWidthCjk("q").into_inner(), "q");
}
