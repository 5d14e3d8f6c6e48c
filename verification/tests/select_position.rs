use house_query::romanize::{select_position, unconvertible_count};

#[test]
fn test_select_position() {
    let input = "中国";
    let expected = "zhongguo";
    let result = select_position(input);
    assert_eq!(result, expected);
}

#[test]
fn test_select_position2() {
    let input = "内蒙古";
    let expected = "neimenggu";
    let result = select_position(input);
    assert_eq!(result, expected);
}

#[test]
fn characters_without_pinyin_are_skipped_and_counted() {
    assert_eq!(select_position("中a国"), "zhongguo");
    assert_eq!(unconvertible_count("中a国"), 1);
    assert_eq!(unconvertible_count("中国"), 0);
    assert_eq!(select_position(""), "");
}

#[test]
fn romanizing_parts_gives_the_whole() {
    let whole = select_position("中国内蒙古");
    let parts = format!("{}{}", select_position("中国"), select_position("内蒙古"));
    assert_eq!(whole, parts);
}
