use vstd::prelude::*;

use crate::house::{
    assign_summary, assigned, blank_house, summarized, summary_fields_land_in_place,
    trade_budget_readable, trade_fields_land_in_place, try_assign_values, House, HouseView,
};
use crate::pattern::{captures_all, extract_number, leading_number, regex_captures};
use crate::text::{clean_string, trim, trimmed, u64_text, nat_digits, without_line_breaks};

verus! {

// ---------------------------------------------------------------------------
// HTML
// ---------------------------------------------------------------------------

/// What `scraper` selects with the CSS selector `selector` in the HTML document `document`:
/// `None` when the selector does not parse; otherwise the text of every selected element, in
/// document order, each the concatenation of the element's descendant text nodes.
pub uninterp spec fn html_texts(document: Seq<char>, selector: Seq<char>) -> Option<Seq<Seq<char>>>;

/// Parses `selector` with `scraper::Selector::parse` and `document` with
/// `scraper::Html::parse_document`, then collects `ElementRef::text` of every element that
/// `Html::select` yields. The contract only names the result: HTML parsing and selector
/// matching are `scraper`'s to say.
#[verifier::external_body]
pub(crate) fn select_texts(document: &str, selector: &str) -> (r: Option<Vec<String>>)
    ensures
        r.deep_view() == html_texts(document@, selector@),
{
    let selector = scraper::Selector::parse(selector).ok()?;
    let html = scraper::Html::parse_document(document);
    Some(html.select(&selector).map(|e| e.text().collect::<String>()).collect())
}

/// What `scraper` selects with `selector` in `document`, read through attribute `attr`: `None`
/// when the selector does not parse; otherwise, for every selected element in document order,
/// the attribute's value, `None` where the element has no such attribute.
pub uninterp spec fn html_attrs(document: Seq<char>, selector: Seq<char>, attr: Seq<char>) -> Option<
    Seq<Option<Seq<char>>>,
>;

/// Parses `selector` with `scraper::Selector::parse` and `document` with
/// `scraper::Html::parse_document`, then reads `ElementRef::attr(attr)` of every element that
/// `Html::select` yields. The contract only names the result.
#[verifier::external_body]
pub(crate) fn select_attrs(document: &str, selector: &str, attr: &str) -> (r: Option<Vec<Option<String>>>)
    ensures
        r.deep_view() == html_attrs(document@, selector@, attr@),
{
    let selector = scraper::Selector::parse(selector).ok()?;
    let html = scraper::Html::parse_document(document);
    Some(html.select(&selector).map(|e| e.attr(attr).map(|v| v.to_string())).collect())
}

/// Why a listing page could not be read.
#[derive(Debug, Clone, Copy, PartialEq, Eq)]
pub enum PageError {
    /// A CSS selector of the page layout does not parse.
    BadSelector,
    /// A regular expression of the page layout does not compile.
    BadPattern,
    /// No community name on the page.
    MissingCommunity,
    /// No area on the page.
    MissingArea,
    /// No price per square metre on the page.
    MissingPricePerMeter,
    /// No total price on the page.
    MissingTotalPrice,
    /// No summary line (layout, floor, size...) on the page.
    MissingSummary,
    /// The trade block's reference budget holds no number.
    UnreadableBudget,
}

// ---------------------------------------------------------------------------
// Listing index pages
// ---------------------------------------------------------------------------

/// The address of page `page` (counted from 0) of the listings of the city whose site name is
/// `position`.
pub open spec fn listing_url_text(position: Seq<char>, page: nat) -> Seq<char> {
    "https://"@ + position + ".anjuke.com/sale"@ + (if page == 0 {
        Seq::<char>::empty()
    } else {
        "/p"@ + nat_digits(page + 1)
    }) + "/?from=HomePage_TopBar"@
}

/// The address of page `page` (counted from 0) of the listings of the city `position`.
pub fn listing_url(position: &str, page: u32) -> (r: String)
    ensures
        r@ == listing_url_text(position@, page as nat),
{
    let mut s = String::from_str("https://");
    s.append(position);
    s.append(".anjuke.com/sale");
    if page == 0 {
        assert(s@ + Seq::<char>::empty() == s@);
    } else {
        let mut part = String::from_str("/p");
        part.append(u64_text(page as u64 + 1).as_str());
        s.append(part.as_str());
    }
    s.append("/?from=HomePage_TopBar");
    s
}

/// Listing links on an index page.
pub const LISTING_LINK_SELECTOR: &'static str = "div.property a";

/// The attribute that holds a link.
pub const HREF: &'static str = "href";

/// The values that are present among `attrs`, in order.
pub open spec fn present(attrs: Seq<Option<Seq<char>>>) -> Seq<Seq<char>>
    decreases attrs.len(),
{
    if attrs.len() == 0 {
        Seq::empty()
    } else {
        match attrs.last() {
            Some(v) => present(attrs.drop_last()).push(v),
            None => present(attrs.drop_last()),
        }
    }
}

/// The links among the selected attributes: an error when the selector did not parse.
pub open spec fn links_of(attrs: Option<Seq<Option<Seq<char>>>>) -> Result<Seq<Seq<char>>, PageError> {
    match attrs {
        Some(a) => Ok(present(a)),
        None => Err(PageError::BadSelector),
    }
}

/// The listing links, given the link targets of the selected anchors (`None` when the selector
/// did not parse): the targets that are present, in page order.
pub fn links_from(attrs: Option<Vec<Option<String>>>) -> (r: Result<Vec<String>, PageError>)
    ensures
        match links_of(attrs.deep_view()) {
            Ok(l) => r matches Ok(links) && links.deep_view() == l,
            Err(e) => r == Err::<Vec<String>, PageError>(e),
        },
{
    match attrs {
        None => Err(PageError::BadSelector),
        Some(attrs) => {
            let ghost all = attrs.deep_view();
            let mut links: Vec<String> = Vec::new();
            let mut i: usize = 0;
            while i < attrs.len()
                invariant
                    0 <= i <= attrs.len(),
                    all == attrs.deep_view(),
                    links.deep_view() == present(all.take(i as int)),
                decreases attrs.len() - i,
            {
                let ghost before = links.deep_view();
                assert(all.take(i + 1).drop_last() == all.take(i as int));
                assert(all[i as int] == attrs@[i as int].deep_view());
                match &attrs[i] {
                    Some(v) => {
                        links.push(v.clone());
                        assert(links.deep_view() == before.push(v@));
                    },
                    None => {},
                }
                i = i + 1;
            }
            assert(all.take(attrs.len() as int) == all);
            Ok(links)
        },
    }
}

/// The listing links of an index page, in page order; links without a target are skipped.
pub fn listing_links(body: &str) -> (r: Result<Vec<String>, PageError>)
    ensures
        match links_of(html_attrs(body@, LISTING_LINK_SELECTOR@, HREF@)) {
            Ok(l) => r matches Ok(links) && links.deep_view() == l,
            Err(e) => r == Err::<Vec<String>, PageError>(e),
        },
{
    links_from(select_attrs(body, LISTING_LINK_SELECTOR, HREF))
}

/// A listing link: the address up to the auction query.
pub const LINK_PATTERN: &'static str = "^(.*?)\\?auction";

/// Group 1 of the first match, given what a pattern found.
pub open spec fn first_group(caps: Option<Seq<Seq<Option<Seq<char>>>>>) -> Option<Seq<char>> {
    match caps {
        Some(cs) => if cs.len() > 0 && cs[0].len() > 1 {
            cs[0][1]
        } else {
            None
        },
        None => None,
    }
}

/// The address part of a listing link, if it has an auction query.
pub open spec fn link_address(page_url: Seq<char>) -> Option<Seq<char>> {
    first_group(regex_captures(LINK_PATTERN@, page_url))
}

/// Group 1 of the first match that `regex` found, if any.
pub fn first_group_of(caps: &Option<Vec<Vec<Option<String>>>>) -> (r: Option<String>)
    ensures
        r.deep_view() == first_group(caps.deep_view()),
{
    match caps {
        Some(cs) => if cs.len() > 0 && cs[0].len() > 1 {
            assert(cs.deep_view()[0] == cs@[0].deep_view());
            assert(cs@[0].deep_view()[1] == cs@[0]@[1].deep_view());
            match &cs[0][1] {
                Some(m) => Some(m.clone()),
                None => None,
            }
        } else {
            None
        },
        None => None,
    }
}

/// The address part of a listing link (before `?auction`), if it has one.
pub fn house_link(page_url: &str) -> (r: Option<String>)
    ensures
        r.deep_view() == link_address(page_url@),
{
    first_group_of(&captures_all(LINK_PATTERN, page_url))
}

// ---------------------------------------------------------------------------
// Listing pages
// ---------------------------------------------------------------------------

pub const TITLE_SELECTOR: &'static str = "div.banner-title h1.title";

pub const COMMUNITY_SELECTOR: &'static str = "div.community-title h3";

pub const AREA_SELECTOR: &'static str = "span.maininfo-community-item-name a";

pub const PRICE_PER_METER_SELECTOR: &'static str = ".maininfo-avgprice-price";

pub const PRICE_PER_METER_ALT_SELECTOR: &'static str = ".maininfo-avgprice-3l-price-num";

pub const TOTAL_PRICE_SELECTOR: &'static str = "div.maininfo-price-wrap";

pub const TOTAL_PRICE_ALT_SELECTOR: &'static str = ".maininfo-price-3l-num";

pub const SUMMARY_SELECTOR: &'static str = ".maininfo-model";

pub const TRADE_SELECTOR: &'static str = ".houseInfo-main-item-name";

/// The fields of a listing's summary line: layout, floor (with its storey count), size,
/// decoration, orientation, completion year.
pub const SUMMARY_PATTERN: &'static str = "([\\d室\\d厅\\d卫]+)|([高中低层]+(\\(.+?\\))?|暂无楼层)|(\\d+㎡)|([\\u4e00-\\u9fa5]+装修|毛坯)|([东南西北]+)|(\\d+年竣工/[\\u4e00-\\u9fa5]+)";

/// What the selectors of a listing page select, as plain values.
pub struct Selections {
    pub title: Option<Seq<Seq<char>>>,
    pub community: Option<Seq<Seq<char>>>,
    pub area: Option<Seq<Seq<char>>>,
    pub price_per_meter: Option<Seq<Seq<char>>>,
    pub price_per_meter_alt: Option<Seq<Seq<char>>>,
    pub total_price: Option<Seq<Seq<char>>>,
    pub total_price_alt: Option<Seq<Seq<char>>>,
    pub summary: Option<Seq<Seq<char>>>,
    pub trade: Option<Seq<Seq<char>>>,
}

/// The texts that the selectors of a listing page select (`None` for a selector that did not
/// parse).
pub struct PageSelections {
    pub title: Option<Vec<String>>,
    pub community: Option<Vec<String>>,
    pub area: Option<Vec<String>>,
    pub price_per_meter: Option<Vec<String>>,
    pub price_per_meter_alt: Option<Vec<String>>,
    pub total_price: Option<Vec<String>>,
    pub total_price_alt: Option<Vec<String>>,
    pub summary: Option<Vec<String>>,
    pub trade: Option<Vec<String>>,
}

impl View for PageSelections {
    type V = Selections;

    open spec fn view(&self) -> Selections {
        Selections {
            title: self.title.deep_view(),
            community: self.community.deep_view(),
            area: self.area.deep_view(),
            price_per_meter: self.price_per_meter.deep_view(),
            price_per_meter_alt: self.price_per_meter_alt.deep_view(),
            total_price: self.total_price.deep_view(),
            total_price_alt: self.total_price_alt.deep_view(),
            summary: self.summary.deep_view(),
            trade: self.trade.deep_view(),
        }
    }
}

/// What the selectors of a listing page select in `document`.
pub open spec fn page_selections(document: Seq<char>) -> Selections {
    Selections {
        title: html_texts(document, TITLE_SELECTOR@),
        community: html_texts(document, COMMUNITY_SELECTOR@),
        area: html_texts(document, AREA_SELECTOR@),
        price_per_meter: html_texts(document, PRICE_PER_METER_SELECTOR@),
        price_per_meter_alt: html_texts(document, PRICE_PER_METER_ALT_SELECTOR@),
        total_price: html_texts(document, TOTAL_PRICE_SELECTOR@),
        total_price_alt: html_texts(document, TOTAL_PRICE_ALT_SELECTOR@),
        summary: html_texts(document, SUMMARY_SELECTOR@),
        trade: html_texts(document, TRADE_SELECTOR@),
    }
}

/// Selects the texts of a listing page.
pub fn select_page(document: &str) -> (r: PageSelections)
    ensures
        r@ == page_selections(document@),
{
    PageSelections {
        title: select_texts(document, TITLE_SELECTOR),
        community: select_texts(document, COMMUNITY_SELECTOR),
        area: select_texts(document, AREA_SELECTOR),
        price_per_meter: select_texts(document, PRICE_PER_METER_SELECTOR),
        price_per_meter_alt: select_texts(document, PRICE_PER_METER_ALT_SELECTOR),
        total_price: select_texts(document, TOTAL_PRICE_SELECTOR),
        total_price_alt: select_texts(document, TOTAL_PRICE_ALT_SELECTOR),
        summary: select_texts(document, SUMMARY_SELECTOR),
        trade: select_texts(document, TRADE_SELECTOR),
    }
}

/// The first selected text, if any; an error when the selector did not parse.
pub open spec fn first_of(sel: Option<Seq<Seq<char>>>) -> Result<Option<Seq<char>>, PageError> {
    match sel {
        Some(ts) => Ok(
            if ts.len() > 0 {
                Some(ts[0])
            } else {
                None
            },
        ),
        None => Err(PageError::BadSelector),
    }
}

/// The first selected text; `missing` when there is none.
pub open spec fn required_of(sel: Option<Seq<Seq<char>>>, missing: PageError) -> Result<
    Seq<char>,
    PageError,
> {
    match first_of(sel) {
        Ok(Some(t)) => Ok(t),
        Ok(None) => Err(missing),
        Err(e) => Err(e),
    }
}

/// `clean_string`'s result.
pub open spec fn cleaned(s: Seq<char>) -> Seq<char> {
    trimmed(without_line_breaks(s))
}

/// The price per square metre: the first number in the cleaned text of the main price element,
/// or else of the alternative one.
pub open spec fn price_per_meter_of(sel: Selections) -> Result<i64, PageError> {
    match first_of(sel.price_per_meter) {
        Ok(Some(t)) => Ok(leading_number(cleaned(t)) as i64),
        Ok(None) => match first_of(sel.price_per_meter_alt) {
            Ok(Some(t)) => Ok(leading_number(cleaned(t)) as i64),
            Ok(None) => Err(PageError::MissingPricePerMeter),
            Err(e) => Err(e),
        },
        Err(e) => Err(e),
    }
}

/// The total price: the first number in the text of the main total price element, or else of
/// the alternative one.
pub open spec fn total_price_of(sel: Selections) -> Result<i64, PageError> {
    match first_of(sel.total_price) {
        Ok(Some(t)) => Ok(leading_number(t) as i64),
        Ok(None) => match first_of(sel.total_price_alt) {
            Ok(Some(t)) => Ok(leading_number(t) as i64),
            Ok(None) => Err(PageError::MissingTotalPrice),
            Err(e) => Err(e),
        },
        Err(e) => Err(e),
    }
}

/// The groups 1.. of one match that took part in it, trimmed, in group order.
pub open spec fn group_fields(cap: Seq<Option<Seq<char>>>) -> Seq<Seq<char>>
    decreases cap.len(),
{
    if cap.len() <= 1 {
        Seq::empty()
    } else {
        match cap.last() {
            Some(m) => group_fields(cap.drop_last()).push(trimmed(m)),
            None => group_fields(cap.drop_last()),
        }
    }
}

/// The fields of all matches, in order.
pub open spec fn summary_fields(caps: Seq<Seq<Option<Seq<char>>>>) -> Seq<Seq<char>>
    decreases caps.len(),
{
    if caps.len() == 0 {
        Seq::empty()
    } else {
        summary_fields(caps.drop_last()) + group_fields(caps.last())
    }
}

/// The fields found in the summary line of a listing page.
pub open spec fn summary_of(sel: Selections) -> Result<Seq<Seq<char>>, PageError> {
    match required_of(sel.summary, PageError::MissingSummary) {
        Ok(t) => match regex_captures(SUMMARY_PATTERN@, t) {
            Some(caps) => Ok(summary_fields(caps)),
            None => Err(PageError::BadPattern),
        },
        Err(e) => Err(e),
    }
}

/// The cleaned entries of the trade block of a listing page.
pub open spec fn trade_block_of(sel: Selections) -> Result<Seq<Seq<char>>, PageError> {
    match sel.trade {
        Some(ts) => Ok(ts.map_values(|t: Seq<char>| cleaned(t))),
        None => Err(PageError::BadSelector),
    }
}

/// The listing that the selected texts of a listing page describe, with the address `link`:
/// `Ok(None)` for a page without a title (not a listing); an error when an element the layout
/// requires is missing.
pub open spec fn house_from(sel: Selections, link: Seq<char>) -> Result<Option<HouseView>, PageError> {
    match first_of(sel.title) {
        Err(e) => Err(e),
        Ok(None) => Ok(None),
        Ok(Some(title)) => match required_of(sel.community, PageError::MissingCommunity) {
            Err(e) => Err(e),
            Ok(community) => match required_of(sel.area, PageError::MissingArea) {
                Err(e) => Err(e),
                Ok(area) => match price_per_meter_of(sel) {
                    Err(e) => Err(e),
                    Ok(ppm) => match total_price_of(sel) {
                        Err(e) => Err(e),
                        Ok(tp) => match summary_of(sel) {
                            Err(e) => Err(e),
                            Ok(fields) => match trade_block_of(sel) {
                                Err(e) => Err(e),
                                Ok(trade) => if trade_budget_readable(trade) {
                                    Ok(
                                        Some(
                                            assigned(
                                                summarized(
                                                    HouseView {
                                                        title,
                                                        community,
                                                        area,
                                                        price_per_meter: ppm,
                                                        total_price: tp,
                                                        link,
                                                        ..blank_house()
                                                    },
                                                    fields,
                                                ),
                                                trade,
                                            ),
                                        ),
                                    )
                                } else {
                                    Err(PageError::UnreadableBudget)
                                },
                            },
                        },
                    },
                },
            },
        },
    }
}

/// A page is no listing exactly when its title selector selects nothing. A listing read from a
/// page takes its title, community and area from the first text of the element of that name,
/// its prices from the price elements, and its address from `link`; the summary line and the
/// trade block, which fill other fields, leave these as they are.
pub proof fn listing_fields_come_from_their_elements(sel: Selections, link: Seq<char>)
    ensures
        (house_from(sel, link) == Ok::<Option<HouseView>, PageError>(None)) <==> (sel.title is Some
            && sel.title->0.len() == 0),
        house_from(sel, link) is Ok && house_from(sel, link)->Ok_0 is Some ==> {
            let r = house_from(sel, link)->Ok_0->0;
            &&& sel.title is Some && sel.title->0.len() > 0 && r.title == sel.title->0[0]
            &&& sel.community is Some && sel.community->0.len() > 0 && r.community
                == sel.community->0[0]
            &&& sel.area is Some && sel.area->0.len() > 0 && r.area == sel.area->0[0]
            &&& price_per_meter_of(sel) == Ok::<i64, PageError>(r.price_per_meter)
            &&& total_price_of(sel) == Ok::<i64, PageError>(r.total_price)
            &&& r.link == link
        },
{
    match (summary_of(sel), trade_block_of(sel), price_per_meter_of(sel), total_price_of(sel)) {
        (Ok(fields), Ok(trade), Ok(ppm), Ok(tp)) => {
            if sel.title is Some && sel.title->0.len() > 0 && sel.community is Some
                && sel.community->0.len() > 0 && sel.area is Some && sel.area->0.len() > 0 {
                let base = HouseView {
                    title: sel.title->0[0],
                    community: sel.community->0[0],
                    area: sel.area->0[0],
                    price_per_meter: ppm,
                    total_price: tp,
                    link,
                    ..blank_house()
                };
                summary_fields_land_in_place(base, fields);
                trade_fields_land_in_place(summarized(base, fields), trade);
            }
        },
        _ => {},
    }
}

/// The listing that a listing page describes, with the address `link`.
pub open spec fn page_house(document: Seq<char>, link: Seq<char>) -> Result<
    Option<HouseView>,
    PageError,
> {
    house_from(page_selections(document), link)
}

fn first_text_of(sel: &Option<Vec<String>>) -> (r: Result<Option<String>, PageError>)
    ensures
        match first_of(sel.deep_view()) {
            Ok(Some(t)) => r matches Ok(Some(s)) && s@ == t,
            Ok(None) => r matches Ok(None),
            Err(e) => r == Err::<Option<String>, PageError>(e),
        },
{
    match sel {
        None => Err(PageError::BadSelector),
        Some(ts) => if ts.len() > 0 {
            assert(ts.deep_view()[0] == ts@[0]@);
            Ok(Some(ts[0].clone()))
        } else {
            Ok(None)
        },
    }
}

fn required_text_of(sel: &Option<Vec<String>>, missing: PageError) -> (r: Result<
    String,
    PageError,
>)
    ensures
        match required_of(sel.deep_view(), missing) {
            Ok(t) => r matches Ok(s) && s@ == t,
            Err(e) => r == Err::<String, PageError>(e),
        },
{
    match first_text_of(sel) {
        Ok(Some(t)) => Ok(t),
        Ok(None) => Err(missing),
        Err(e) => Err(e),
    }
}

fn price_per_meter_from(sel: &PageSelections) -> (r: Result<i64, PageError>)
    ensures
        r == price_per_meter_of(sel@),
{
    match first_text_of(&sel.price_per_meter) {
        Ok(Some(t)) => Ok(extract_number(clean_string(t.as_str()).as_str())),
        Ok(None) => match first_text_of(&sel.price_per_meter_alt) {
            Ok(Some(t)) => Ok(extract_number(clean_string(t.as_str()).as_str())),
            Ok(None) => Err(PageError::MissingPricePerMeter),
            Err(e) => Err(e),
        },
        Err(e) => Err(e),
    }
}

fn total_price_from(sel: &PageSelections) -> (r: Result<i64, PageError>)
    ensures
        r == total_price_of(sel@),
{
    match first_text_of(&sel.total_price) {
        Ok(Some(t)) => Ok(extract_number(t.as_str())),
        Ok(None) => match first_text_of(&sel.total_price_alt) {
            Ok(Some(t)) => Ok(extract_number(t.as_str())),
            Ok(None) => Err(PageError::MissingTotalPrice),
            Err(e) => Err(e),
        },
        Err(e) => Err(e),
    }
}

/// The trimmed texts of the groups 1.. of every match, match after match, group after group,
/// skipping groups that took no part in their match.
pub fn summary_fields_of(caps: &Vec<Vec<Option<String>>>) -> (r: Vec<String>)
    ensures
        r.deep_view() == summary_fields(caps.deep_view()),
{
    let ghost all = caps.deep_view();
    let mut out: Vec<String> = Vec::new();
    let mut i: usize = 0;
    while i < caps.len()
        invariant
            0 <= i <= caps.len(),
            all == caps.deep_view(),
            out.deep_view() == summary_fields(all.take(i as int)),
        decreases caps.len() - i,
    {
        let cap = &caps[i];
        let ghost c = cap.deep_view();
        let ghost base = out.deep_view();
        assert(all[i as int] == c);
        let mut j: usize = if cap.len() == 0 {
            0
        } else {
            1
        };
        assert(c.take(j as int).len() <= 1);
        assert(base + group_fields(c.take(j as int)) == base);
        while j < cap.len()
            invariant
                j <= cap.len(),
                cap.len() > 0 ==> j >= 1,
                c == cap.deep_view(),
                out.deep_view() == base + group_fields(c.take(j as int)),
            decreases cap.len() - j,
        {
            let ghost before = out.deep_view();
            assert(c.take(j + 1).drop_last() == c.take(j as int));
            assert(c.take(j + 1).last() == c[j as int]);
            assert(c[j as int] == cap@[j as int].deep_view());
            match &cap[j] {
                Some(m) => {
                    out.push(trim(m.as_str()));
                    assert(out.deep_view() == before.push(trimmed(m@)));
                    assert(group_fields(c.take(j + 1)) == group_fields(c.take(j as int)).push(
                        trimmed(m@),
                    ));
                    assert(base + group_fields(c.take(j as int)).push(trimmed(m@)) == (base
                        + group_fields(c.take(j as int))).push(trimmed(m@)));
                },
                None => {},
            }
            j = j + 1;
        }
        assert(c.take(j as int) == c);
        assert(all.take(i + 1).drop_last() == all.take(i as int));
        assert(all.take(i + 1).last() == c);
        i = i + 1;
    }
    assert(all.take(caps.len() as int) == all);
    out
}

fn summary_from(sel: &PageSelections) -> (r: Result<Vec<String>, PageError>)
    ensures
        match summary_of(sel@) {
            Ok(f) => r matches Ok(v) && v.deep_view() == f,
            Err(e) => r == Err::<Vec<String>, PageError>(e),
        },
{
    match required_text_of(&sel.summary, PageError::MissingSummary) {
        Err(e) => Err(e),
        Ok(t) => match captures_all(SUMMARY_PATTERN, t.as_str()) {
            Some(caps) => Ok(summary_fields_of(&caps)),
            None => Err(PageError::BadPattern),
        },
    }
}

fn trade_block_from(sel: &PageSelections) -> (r: Result<Vec<String>, PageError>)
    ensures
        match trade_block_of(sel@) {
            Ok(d) => r matches Ok(v) && v.deep_view() == d,
            Err(e) => r == Err::<Vec<String>, PageError>(e),
        },
{
    match &sel.trade {
        None => Err(PageError::BadSelector),
        Some(ts) => {
            let ghost all = ts.deep_view();
            let mut out: Vec<String> = Vec::new();
            let mut i: usize = 0;
            while i < ts.len()
                invariant
                    0 <= i <= ts.len(),
                    all == ts.deep_view(),
                    out.deep_view() == all.take(i as int).map_values(|t: Seq<char>| cleaned(t)),
                decreases ts.len() - i,
            {
                let ghost before = out.deep_view();
                assert(all[i as int] == ts@[i as int]@);
                out.push(clean_string(ts[i].as_str()));
                assert(out.deep_view() == before.push(cleaned(all[i as int])));
                assert(all.take(i + 1).map_values(|t: Seq<char>| cleaned(t)) == all.take(
                    i as int,
                ).map_values(|t: Seq<char>| cleaned(t)).push(cleaned(all[i as int])));
                i = i + 1;
            }
            assert(all.take(ts.len() as int) == all);
            Ok(out)
        },
    }
}

/// Reads the listing that the selected texts of a listing page describe; `link` is the
/// listing's address. A page without a title is no listing (`Ok(None)`).
pub fn house_from_selections(sel: &PageSelections, link: String) -> (r: Result<
    Option<House>,
    PageError,
>)
    ensures
        match house_from(sel@, link@) {
            Ok(Some(h)) => r matches Ok(Some(house)) && house@ == h,
            Ok(None) => r matches Ok(None),
            Err(e) => r == Err::<Option<House>, PageError>(e),
        },
{
    let title = match first_text_of(&sel.title) {
        Err(e) => {
            return Err(e);
        },
        Ok(None) => {
            return Ok(None);
        },
        Ok(Some(t)) => t,
    };
    let community = required_text_of(&sel.community, PageError::MissingCommunity)?;
    let area = required_text_of(&sel.area, PageError::MissingArea)?;
    let ppm = price_per_meter_from(sel)?;
    let tp = total_price_from(sel)?;
    let fields = summary_from(sel)?;
    let trade = trade_block_from(sel)?;
    let mut house = House::blank();
    house.title = title;
    house.community = community;
    house.area = area;
    house.price_per_meter = ppm;
    house.total_price = tp;
    house.link = link;
    assign_summary(&mut house, &fields);
    if try_assign_values(&mut house, trade) {
        Ok(Some(house))
    } else {
        Err(PageError::UnreadableBudget)
    }
}

/// Reads the listing that a listing page describes; `link` is the listing's address. A page
/// without a title is no listing (`Ok(None)`).
pub fn parse_house_page(page_body: &str, link: String) -> (r: Result<Option<House>, PageError>)
    ensures
        match page_house(page_body@, link@) {
            Ok(Some(h)) => r matches Ok(Some(house)) && house@ == h,
            Ok(None) => r matches Ok(None),
            Err(e) => r == Err::<Option<House>, PageError>(e),
        },
{
    house_from_selections(&select_page(page_body), link)
}

} // verus!
