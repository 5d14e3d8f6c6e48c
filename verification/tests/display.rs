use house_query::display::{pad_string, row_cells, table_headings};
use house_query::house::House;

#[test]
fn pad_string_fills_to_width() {
    assert_eq!(pad_string("ab", 5), "ab   ");
    assert_eq!(pad_string("中文", 6), "中文  ");
    assert_eq!(pad_string("abcdef", 3), "abcdef");
    assert_eq!(pad_string("", 2), "  ");
    assert_eq!(pad_string("中文", 4), "中文");
}

#[test]
fn headings_of_the_table() {
    let h = table_headings();
    assert_eq!(h.len(), 18);
    assert_eq!(h[0], format!("小区名{}", " ".repeat(19)));
    assert_eq!(h[2], "价格每平方");
    assert_eq!(h[16], format!("简述{}", " ".repeat(91)));
}

#[test]
fn cells_of_a_row() {
    let mut house = House::default();
    house.community = "阳光".to_string();
    house.price_per_meter = 35000;
    house.total_price = 315;
    house.size = 90;
    house.title = "好房".to_string();
    let cells = row_cells(&house);
    assert_eq!(cells.len(), 17);
    assert_eq!(cells[0], format!("阳光{}", " ".repeat(18)));
    assert_eq!(cells[2], "35000 元/㎡ ");
    assert_eq!(cells[3], "315 万元 ");
    assert_eq!(cells[6], "90  ㎡ ");
    assert_eq!(cells[12], "0   万元 ");
    assert_eq!(cells[16], format!("好房{}", " ".repeat(61)));
}
