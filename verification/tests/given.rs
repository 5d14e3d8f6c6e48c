use house_query::crawl::{crawl_listing, crawl_next_page, crawl_start, crawl_url, CrawlAction, ListingOutcome};
use house_query::display::pad_to_width;
use house_query::house::House;
use house_query::page::{first_group_of, house_from_selections, links_from, PageError, PageSelections};
use house_query::pattern::{amount_in, any_match, number_in};
use house_query::romanize::romanize_readings;
use house_query::timefmt::time_line;

fn caps(matches: &[&[Option<&str>]]) -> Option<Vec<Vec<Option<String>>>> {
    Some(matches.iter().map(|m| m.iter().map(|g| g.map(|s| s.to_string())).collect()).collect())
}

fn texts(items: &[&str]) -> Option<Vec<String>> {
    Some(items.iter().map(|s| s.to_string()).collect())
}

#[test]
fn numbers_from_given_matches() {
    assert_eq!(number_in(&caps(&[&[Some("12.5")], &[Some("7")]])), 12);
    assert_eq!(number_in(&caps(&[&[Some("1.2.3")]])), 0);
    assert_eq!(number_in(&caps(&[])), 0);
    assert_eq!(number_in(&None), 0);
    assert_eq!(amount_in(&caps(&[&[Some("1.2.3"), None], &[Some("45"), Some("45")]])), Some(45));
    assert_eq!(amount_in(&caps(&[&[Some("x")]])), None);
    assert_eq!(amount_in(&None), None);
    assert!(any_match(&caps(&[&[Some("2024-01-01")]])));
    assert!(!any_match(&caps(&[])));
    assert!(!any_match(&None));
}

#[test]
fn padding_with_given_width() {
    assert_eq!(pad_to_width("中", 2, 5), "中   ");
    assert_eq!(pad_to_width("abc", 7, 5), "abc");
}

#[test]
fn romanizing_given_readings() {
    let readings = vec![Some("zhong".to_string()), None, Some("guo".to_string())];
    assert_eq!(romanize_readings(&readings), ("zhongguo".to_string(), 1));
    assert_eq!(romanize_readings(&vec![]), (String::new(), 0));
}

#[test]
fn time_line_from_given_time() {
    assert_eq!(time_line("bj", Some("2020-01-02 03:04:05".to_string())), Some("City: bj, Time: 2020-01-02 03:04:05".to_string()));
    assert_eq!(time_line("bj", None), None);
}

#[test]
fn links_and_groups_from_given_results() {
    let attrs = Some(vec![Some("a".to_string()), None, Some("b".to_string())]);
    assert_eq!(links_from(attrs), Ok(vec!["a".to_string(), "b".to_string()]));
    assert_eq!(links_from(None), Err(PageError::BadSelector));
    assert_eq!(first_group_of(&caps(&[&[Some("u?auction"), Some("u")]])), Some("u".to_string()));
    assert_eq!(first_group_of(&caps(&[&[Some("u?auction"), None]])), None);
    assert_eq!(first_group_of(&None), None);
}

fn selections() -> PageSelections {
    PageSelections {
        title: texts(&["好房"]),
        community: texts(&["阳光小区"]),
        area: texts(&["朝阳"]),
        price_per_meter: texts(&[]),
        price_per_meter_alt: texts(&["\n 41000 元/㎡ "]),
        total_price: texts(&["315万"]),
        total_price_alt: texts(&[]),
        summary: texts(&["2室1厅1卫 低层 90㎡ 精装修 南 2000年竣工/住宅"]),
        trade: texts(&["商品房", "普通住宅", "70年", " 首付 120万\n", "某某地产", "L", "2024-05-01"]),
    }
}

#[test]
fn listing_from_given_selections() {
    let house = house_from_selections(&selections(), "l".to_string()).unwrap().unwrap();
    assert_eq!(house.price_per_meter, 41000);
    assert_eq!(house.total_price, 315);
    assert_eq!(house.size, 90);
    assert_eq!(house.reference_budget, 120);
    assert_eq!(house.update_date, "2024-05-01");
    let mut no_title = selections();
    no_title.title = texts(&[]);
    assert_eq!(house_from_selections(&no_title, String::new()), Ok(None));
    let mut bad = selections();
    bad.area = None;
    assert_eq!(house_from_selections(&bad, String::new()), Err(PageError::BadSelector));
    let mut no_tp = selections();
    no_tp.total_price = texts(&[]);
    assert_eq!(house_from_selections(&no_tp, String::new()), Err(PageError::MissingTotalPrice));
}

#[test]
fn crawl_decisions() {
    let mut c = crawl_start();
    assert_eq!(crawl_url("bj", &c), Some("https://bj.anjuke.com/sale/?from=HomePage_TopBar".to_string()));
    assert!(matches!(crawl_listing(&mut c, ListingOutcome::Unreadable), CrawlAction::Skip));
    assert!(matches!(crawl_listing(&mut c, ListingOutcome::Read(Ok(None))), CrawlAction::Skip));
    assert_eq!(c.next_id, 0);
    let mut h = House::default();
    h.title = "t".to_string();
    match crawl_listing(&mut c, ListingOutcome::Read(Ok(Some(h)))) {
        CrawlAction::Store(s) => assert!(s.starts_with("insert into mytable values(0, 't'")),
        _ => panic!("expected a store"),
    }
    assert_eq!(c.next_id, 1);
    assert!(matches!(
        crawl_listing(&mut c, ListingOutcome::Read(Err(PageError::MissingArea))),
        CrawlAction::Stop(PageError::MissingArea)
    ));
    for _ in 0..12 {
        assert!(crawl_url("bj", &c).is_some());
        crawl_next_page(&mut c);
    }
    assert_eq!(crawl_url("bj", &c), None);
}
