use house_query::house::{assign_summary, assign_values, insert_statement, try_assign_values, House};

fn strings(items: &[&str]) -> Vec<String> {
    items.iter().map(|s| s.to_string()).collect()
}

fn check_trade(h: &House, budget: i64, company: &str, licence: &str, date: &str) {
    assert_eq!(h.property_ownership_type, "商品房");
    assert_eq!(h.property_type, "普通住宅");
    assert_eq!(h.ownership_duration, "70年");
    assert_eq!(h.reference_budget, budget);
    assert_eq!(h.publishing_company, company);
    assert_eq!(h.business_license, licence);
    assert_eq!(h.update_date, date);
}

#[test]
fn default_house_is_blank() {
    let h = House::default();
    assert_eq!(h, House::blank());
    assert_eq!(h.title, "");
    assert_eq!(h.size, 0);
}

#[test]
fn assign_values_seven_entries() {
    let mut h = House::default();
    assign_values(&mut h, strings(&["商品房", "普通住宅", "70年", "首付 120万", "甲公司", "L1", "2024-05-01"]));
    check_trade(&h, 120, "甲公司", "L1", "2024-05-01");
}

#[test]
fn assign_values_eight_entries() {
    let mut h = House::default();
    assign_values(&mut h, strings(&["商品房", "普通住宅", "70年", "满五", "首付 80万", "乙公司", "L2", "2024-06-01"]));
    check_trade(&h, 80, "乙公司", "L2", "2024-06-01");
    let mut h = House::default();
    assign_values(&mut h, strings(&["商品房", "普通住宅", "70年", "首付 81万", "丙公司", "L3", "2024-06-02", "备注"]));
    check_trade(&h, 81, "丙公司", "L3", "2024-06-02");
}

#[test]
fn assign_values_nine_entries() {
    let mut h = House::default();
    assign_values(&mut h, strings(&["商品房", "普通住宅", "70年", "a", "首付 90万", "丁公司", "L4", "2024-07-01", "x"]));
    check_trade(&h, 90, "丁公司", "L4", "2024-07-01");
    let mut h = House::default();
    assign_values(&mut h, strings(&["商品房", "普通住宅", "70年", "首付 91万", "戊公司", "L5", "2024-07-02", "x", "y"]));
    check_trade(&h, 91, "戊公司", "L5", "2024-07-02");
    let mut h = House::default();
    assign_values(&mut h, strings(&["商品房", "普通住宅", "70年", "a", "b", "首付 92万", "己公司", "L6", "2024-07-03"]));
    check_trade(&h, 92, "己公司", "L6", "2024-07-03");
}

#[test]
fn assign_values_ten_and_eleven_entries() {
    let mut h = House::default();
    assign_values(&mut h, strings(&["商品房", "普通住宅", "70年", "a", "首付 93万", "庚公司", "L7", "2024-08-01", "x", "y"]));
    check_trade(&h, 93, "庚公司", "L7", "2024-08-01");
    let mut h = House::default();
    assign_values(&mut h, strings(&["商品房", "普通住宅", "70年", "a", "b", "首付 94万", "辛公司", "L8", "2024-08-02", "y"]));
    check_trade(&h, 94, "辛公司", "L8", "2024-08-02");
    let mut h = House::default();
    assign_values(&mut h, strings(&["商品房", "普通住宅", "70年", "a", "b", "首付 95万", "壬公司", "L9", "2024-08-03", "y", "z"]));
    check_trade(&h, 95, "壬公司", "L9", "2024-08-03");
}

#[test]
fn assign_values_other_lengths_leave_house_alone() {
    let mut h = House::default();
    h.title = "t".to_string();
    assign_values(&mut h, strings(&["商品房", "普通住宅"]));
    let mut expected = House::default();
    expected.title = "t".to_string();
    assert_eq!(h, expected);
}

#[test]
fn try_assign_values_refuses_unreadable_budget() {
    let mut h = House::default();
    let ok = try_assign_values(&mut h, strings(&["商品房", "普通住宅", "70年", "暂无", "甲公司", "L1", "2024-05-01"]));
    assert!(!ok);
    assert_eq!(h, House::default());
    let ok = try_assign_values(&mut h, strings(&["商品房", "普通住宅", "70年", "首付 1万", "甲公司", "L1", "2024-05-01"]));
    assert!(ok);
    assert_eq!(h.reference_budget, 1);
}

#[test]
fn assign_summary_by_field_count() {
    let mut h = House::default();
    assign_summary(&mut h, &strings(&["2室1厅1卫", "低层", "90", "精装修", "南", "2000"]));
    assert_eq!((h.layout.as_str(), h.floor.as_str(), h.size), ("2室1厅1卫", "低层", 90));
    assert_eq!((h.decoration.as_str(), h.orientation.as_str(), h.time.as_str()), ("精装修", "南", "2000"));

    let mut h = House::default();
    assign_summary(&mut h, &strings(&["3室", "中层(共6层)", "(共6层)", "100", "x", "简装修", "南北", "1999年竣工/住宅"]));
    assert_eq!(h.size, 100);
    assert_eq!((h.decoration.as_str(), h.orientation.as_str(), h.time.as_str()), ("简装修", "南北", "1999年竣工/住宅"));

    let mut h = House::default();
    assign_summary(&mut h, &strings(&["3室", "高层", "120", "x", "毛坯", "东", "2010"]));
    assert_eq!(h.size, 120);
    assert_eq!((h.decoration.as_str(), h.orientation.as_str(), h.time.as_str()), ("毛坯", "东", "2010"));

    let mut h = House::default();
    assign_summary(&mut h, &strings(&["3室"]));
    assert_eq!(h, House::default());
}

#[test]
fn insert_statement_text() {
    let mut h = House::default();
    h.title = "好房".to_string();
    h.price_per_meter = 35000;
    h.total_price = -1;
    h.size = 90;
    h.reference_budget = 120;
    h.link = "https://a".to_string();
    assert_eq!(
        insert_statement(7, &h),
        "insert into mytable values(7, '好房', '', '', 35000, -1, '', '', 90, '', '', '', '', '', '', 120, '', '', '', 'https://a')"
    );
}
