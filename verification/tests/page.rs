use house_query::page::{house_link, listing_links, listing_url, parse_house_page, PageError};

fn page(title: bool, community: bool, ppm_alt: bool, budget: &str) -> String {
    let mut body = String::from("<html><body>");
    if title {
        body.push_str("<div class=\"banner-title\"><h1 class=\"title\">好房</h1></div>");
    }
    if community {
        body.push_str("<div class=\"community-title\"><h3>阳光小区</h3></div>");
    }
    body.push_str("<span class=\"maininfo-community-item-name\"><a>朝阳</a></span>");
    if ppm_alt {
        body.push_str("<span class=\"maininfo-avgprice-3l-price-num\">\n 41000 元/㎡ </span>");
    } else {
        body.push_str("<span class=\"maininfo-avgprice-price\">\n 35000 元/㎡ </span>");
    }
    body.push_str("<div class=\"maininfo-price-wrap\">315万</div>");
    body.push_str("<div class=\"maininfo-model\">2室1厅1卫 低层 90㎡ 精装修 南 2000年竣工/住宅</div>");
    for entry in ["商品房", "普通住宅", "70年", budget, "某某地产", "91110000X", "2024-05-01"] {
        body.push_str(&format!("<span class=\"houseInfo-main-item-name\">\n{} </span>", entry));
    }
    body.push_str("</body></html>");
    body
}

#[test]
fn listing_urls() {
    assert_eq!(listing_url("beijing", 0), "https://beijing.anjuke.com/sale/?from=HomePage_TopBar");
    assert_eq!(listing_url("beijing", 1), "https://beijing.anjuke.com/sale/p2/?from=HomePage_TopBar");
    assert_eq!(listing_url("sh", 11), "https://sh.anjuke.com/sale/p12/?from=HomePage_TopBar");
}

#[test]
fn house_links_stop_before_the_auction_query() {
    assert_eq!(
        house_link("https://bj.anjuke.com/prop/view/A1?auction=201&hpType=60"),
        Some("https://bj.anjuke.com/prop/view/A1".to_string())
    );
    assert_eq!(house_link("https://bj.anjuke.com/prop/view/A1"), None);
}

#[test]
fn listing_links_skip_anchors_without_target() {
    let body = "<div class=\"property\"><a href=\"u1\">x</a><a>y</a></div><div class=\"property\"><a href=\"u2\">z</a></div><a href=\"other\">w</a>";
    assert_eq!(listing_links(body), Ok(vec!["u1".to_string(), "u2".to_string()]));
    assert_eq!(listing_links("<p>none</p>"), Ok(vec![]));
}

#[test]
fn parse_full_listing_page() {
    let house = parse_house_page(&page(true, true, false, "首付 120万"), "https://l".to_string())
        .unwrap()
        .unwrap();
    assert_eq!(house.title, "好房");
    assert_eq!(house.community, "阳光小区");
    assert_eq!(house.area, "朝阳");
    assert_eq!(house.price_per_meter, 35000);
    assert_eq!(house.total_price, 315);
    assert_eq!(house.layout, "2室1厅1卫");
    assert_eq!(house.floor, "低层");
    assert_eq!(house.size, 90);
    assert_eq!(house.decoration, "精装修");
    assert_eq!(house.orientation, "南");
    assert_eq!(house.time, "2000");
    assert_eq!(house.property_ownership_type, "商品房");
    assert_eq!(house.property_type, "普通住宅");
    assert_eq!(house.ownership_duration, "70年");
    assert_eq!(house.reference_budget, 120);
    assert_eq!(house.publishing_company, "某某地产");
    assert_eq!(house.business_license, "91110000X");
    assert_eq!(house.update_date, "2024-05-01");
    assert_eq!(house.link, "https://l");
}

#[test]
fn parse_page_alternative_price_element() {
    let house = parse_house_page(&page(true, true, true, "首付 120万"), String::new()).unwrap().unwrap();
    assert_eq!(house.price_per_meter, 41000);
}

#[test]
fn parse_page_without_title_is_no_listing() {
    assert_eq!(parse_house_page(&page(false, true, false, "首付 120万"), String::new()), Ok(None));
}

#[test]
fn parse_page_errors() {
    assert_eq!(
        parse_house_page(&page(true, false, false, "首付 120万"), String::new()),
        Err(PageError::MissingCommunity)
    );
    assert_eq!(
        parse_house_page(&page(true, true, false, "暂无"), String::new()),
        Err(PageError::UnreadableBudget)
    );
    assert_eq!(
        parse_house_page("<div class=\"banner-title\"><h1 class=\"title\">t</h1></div><div class=\"community-title\"><h3>c</h3></div>", String::new()),
        Err(PageError::MissingArea)
    );
}

#[test]
fn parse_page_missing_prices_and_summary() {
    let head = "<div class=\"banner-title\"><h1 class=\"title\">t</h1></div><div class=\"community-title\"><h3>c</h3></div><span class=\"maininfo-community-item-name\"><a>a</a></span>";
    assert_eq!(parse_house_page(head, String::new()), Err(PageError::MissingPricePerMeter));
    let with_ppm = format!("{}<span class=\"maininfo-avgprice-price\">1元</span>", head);
    assert_eq!(parse_house_page(&with_ppm, String::new()), Err(PageError::MissingTotalPrice));
    let with_tp = format!("{}<span class=\"maininfo-price-3l-num\">2万</span>", with_ppm);
    assert_eq!(parse_house_page(&with_tp, String::new()), Err(PageError::MissingSummary));
    let with_summary = format!("{}<div class=\"maininfo-model\">x</div>", with_tp);
    let house = parse_house_page(&with_summary, String::new()).unwrap().unwrap();
    assert_eq!((house.price_per_meter, house.total_price, house.size), (1, 2, 0));
    assert_eq!(house.reference_budget, 0);
}
