use padded_column::align_column_left;

#[test]
fn test() {
    let mut actual = Vec::new();
    let mut iter = align_column_left(vec!["", "a", "bc", "def"]);
    while let Some(value) = iter.next() {
        actual.push((iter.len(), value.to_string().unwrap()));
    }
    let expected = [
        (3, "   ".to_string()),
        (2, "a  ".to_string()),
        (1, "bc ".to_string()),
        (0, "def".to_string()),
    ];
    assert_eq!(actual, expected);
}
