use house_query::timefmt::city_time_line;

#[test]
fn city_time_lines() {
    assert_eq!(city_time_line("beijing", 0), Some("City: beijing, Time: 1970-01-01 00:00:00".to_string()));
    assert_eq!(city_time_line("sh", 1431648000), Some("City: sh, Time: 2015-05-15 00:00:00".to_string()));
    assert_eq!(city_time_line("x", u64::MAX), Some("City: x, Time: 1969-12-31 23:59:59".to_string()));
}
