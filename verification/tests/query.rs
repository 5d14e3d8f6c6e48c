use house_query::house::House;
use house_query::query::{data_select, data_select_order, database_path, overview_query, sort_query, Sort};

fn house(area: &str, community: &str, ppm: i64, tp: i64, size: i64, rb: i64) -> House {
    let mut h = House::default();
    h.area = area.to_string();
    h.community = community.to_string();
    h.price_per_meter = ppm;
    h.total_price = tp;
    h.size = size;
    h.reference_budget = rb;
    h
}

#[test]
fn sort_queries() {
    assert_eq!(sort_query(Sort::Default, 1), "select * from mytable");
    assert_eq!(sort_query(Sort::Default, 0), "select * from mytable");
    assert_eq!(sort_query(Sort::Ppm, 0), "select * from mytable order by price_per_meter ASC");
    assert_eq!(sort_query(Sort::Tp, 1), "select * from mytable order by total_price DESC");
    assert_eq!(sort_query(Sort::Size, 7), "select * from mytable order by size DESC");
    assert_eq!(sort_query(Sort::Rb, 0), "select * from mytable order by reference_budget ASC");
    assert_eq!(Sort::default(), Sort::Default);
}

#[test]
fn database_paths() {
    assert_eq!(database_path("beijing"), "./data/beijing");
}

#[test]
fn overview_counts_listings() {
    let cities = vec![vec![House::default(), House::default()], vec![], vec![House::default()]];
    assert_eq!(data_select(Sort::Default, cities), "3");
    assert_eq!(data_select(Sort::Default, vec![vec![]]), "0");
    assert_eq!(data_select(Sort::Default, vec![]), "无数据");
}

#[test]
fn overview_describes_the_leading_first_listing() {
    let cities = vec![
        vec![house("朝阳", "甲", 50000, 500, 90, 150), house("朝阳", "乙", 1, 1, 1, 1)],
        vec![],
        vec![house("海淀", "丙", 60000, 300, 120, 100)],
    ];
    let make = || {
        vec![
            vec![house("朝阳", "甲", 50000, 500, 90, 150), house("朝阳", "乙", 1, 1, 1, 1)],
            vec![],
            vec![house("海淀", "丙", 60000, 300, 120, 100)],
        ]
    };
    assert_eq!(data_select(Sort::Ppm, cities), "来自海淀 丙的60000元/㎡");
    assert_eq!(data_select(Sort::Tp, make()), "来自朝阳 甲的500万元");
    assert_eq!(data_select(Sort::Size, make()), "来自海淀 丙的120㎡");
    assert_eq!(data_select(Sort::Rb, make()), "来自朝阳 甲的150万元");
    assert_eq!(data_select(Sort::Ppm, vec![vec![], vec![]]), "无数据");
}

#[test]
fn overview_order_reads_budget_by_size() {
    assert_eq!(data_select_order(Sort::Rb), Sort::Size);
    assert_eq!(data_select_order(Sort::Ppm), Sort::Ppm);
    assert_eq!(data_select_order(Sort::Default), Sort::Default);
    assert_eq!(overview_query(Sort::Rb), "select * from mytable order by size DESC");
    assert_eq!(overview_query(Sort::Tp), "select * from mytable order by total_price DESC");
    assert_eq!(overview_query(Sort::Default), "select * from mytable");
}

#[test]
fn budget_overview_reports_the_budget_of_each_citys_first_listing() {
    // Each city's listings as read by size, descending.
    let cities = vec![
        vec![house("朝阳", "大而廉", 0, 0, 200, 10), house("朝阳", "小而贵", 0, 0, 50, 50)],
        vec![house("海淀", "丙", 0, 0, 90, 30)],
    ];
    assert_eq!(data_select(Sort::Rb, cities), "来自海淀 丙的30万元");
}

#[test]
fn overview_ties_go_to_the_later_city() {
    let cities = vec![vec![house("a", "x", 10, 0, 0, 0)], vec![house("b", "y", 10, 0, 0, 0)]];
    assert_eq!(data_select(Sort::Ppm, cities), "来自b y的10元/㎡");
}
