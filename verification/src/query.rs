use vstd::prelude::*;

use crate::house::{House, HouseView};
use crate::text::{i64_text, int_text, nat_digits, u64_text};

verus! {

/// The order in which listings are shown, by the column they are sorted on.
#[derive(Debug, Clone, Copy, PartialEq, Eq, Structural)]
pub enum Sort {
    /// The order in which they were stored.
    Default,
    /// By price per square metre.
    Ppm,
    /// By total price.
    Tp,
    /// By size.
    Size,
    /// By reference budget (down payment).
    Rb,
}

impl Default for Sort {
    fn default() -> (s: Sort)
        ensures
            s == Sort::Default,
    {
        Sort::Default
    }
}

/// The statement that creates the listings table when it does not exist yet.
pub const CREATE_TABLE_SQL: &'static str = "create table if not exists mytable (id int primary key, title varchar(200), community varchar(50), area varchar(20), price_per_meter int, total_price int, layout varchar(40), floor varchar(60), size int, decoration varchar(20), orientation varchar(30), time varchar(10), property_ownership_type varchar(30), property_type varchar(20), ownership_duration varchar(40), reference_budget int, publishing_company varchar(30), business_license varchar(20), update_date varchar(20), link varchar(260))";

/// The statement that drops the listings table.
pub const DROP_TABLE_SQL: &'static str = "drop table mytable";

/// Where the database of the city whose site name is `position` is kept.
pub open spec fn database_path_text(position: Seq<char>) -> Seq<char> {
    "./data/"@ + position
}

/// Where the database of the city `position` is kept.
pub fn database_path(position: &str) -> (r: String)
    ensures
        r@ == database_path_text(position@),
{
    let mut s = String::from_str("./data/");
    s.append(position);
    s
}

/// The column a sort order sorts on.
pub open spec fn sort_column(sort: Sort) -> Seq<char> {
    match sort {
        Sort::Default => Seq::empty(),
        Sort::Ppm => "price_per_meter"@,
        Sort::Tp => "total_price"@,
        Sort::Size => "size"@,
        Sort::Rb => "reference_budget"@,
    }
}

/// The direction: ascending for `u_d == 0`, descending otherwise.
pub open spec fn direction(u_d: u8) -> Seq<char> {
    if u_d == 0 {
        "ASC"@
    } else {
        "DESC"@
    }
}

/// The query that lists the stored listings in the order `sort`, in direction `u_d`.
pub open spec fn sort_query_text(sort: Sort, u_d: u8) -> Seq<char> {
    if sort == Sort::Default {
        "select * from mytable"@
    } else {
        "select * from mytable order by "@ + sort_column(sort) + " "@ + direction(u_d)
    }
}

/// The query that lists the stored listings in the order `sort`: ascending when `u_d` is 0,
/// descending otherwise; the default order ignores the direction.
pub fn sort_query(sort: Sort, u_d: u8) -> (r: String)
    ensures
        r@ == sort_query_text(sort, u_d),
{
    let column = match sort {
        Sort::Default => {
            return String::from_str("select * from mytable");
        },
        Sort::Ppm => "price_per_meter",
        Sort::Tp => "total_price",
        Sort::Size => "size",
        Sort::Rb => "reference_budget",
    };
    let mut s = String::from_str("select * from mytable order by ");
    s.append(column);
    s.append(" ");
    if u_d == 0 {
        s.append("ASC");
    } else {
        s.append("DESC");
    }
    s
}

/// The query sorts on the column named after the chosen order, ascending when `u_d` is 0 and
/// descending for every other `u_d`, the same way for every column; the default order lists
/// the listings as stored, whatever `u_d` is.
pub proof fn sort_query_column_and_direction(u_d: u8)
    ensures
        ({
            let d = if u_d == 0 {
                "ASC"@
            } else {
                "DESC"@
            };
            &&& sort_query_text(Sort::Default, u_d) == "select * from mytable"@
            &&& sort_query_text(Sort::Ppm, u_d) == "select * from mytable order by price_per_meter "@
                + d
            &&& sort_query_text(Sort::Tp, u_d) == "select * from mytable order by total_price "@ + d
            &&& sort_query_text(Sort::Size, u_d) == "select * from mytable order by size "@ + d
            &&& sort_query_text(Sort::Rb, u_d) == "select * from mytable order by reference_budget "@
                + d
        }),
{
    reveal_strlit("select * from mytable order by ");
    reveal_strlit("price_per_meter");
    reveal_strlit("total_price");
    reveal_strlit("size");
    reveal_strlit("reference_budget");
    reveal_strlit(" ");
    reveal_strlit("select * from mytable order by price_per_meter ");
    reveal_strlit("select * from mytable order by total_price ");
    reveal_strlit("select * from mytable order by size ");
    reveal_strlit("select * from mytable order by reference_budget ");
    let d = direction(u_d);
    assert("select * from mytable order by "@ + "price_per_meter"@ + " "@ + d
        =~= "select * from mytable order by price_per_meter "@ + d);
    assert("select * from mytable order by "@ + "total_price"@ + " "@ + d
        =~= "select * from mytable order by total_price "@ + d);
    assert("select * from mytable order by "@ + "size"@ + " "@ + d
        =~= "select * from mytable order by size "@ + d);
    assert("select * from mytable order by "@ + "reference_budget"@ + " "@ + d
        =~= "select * from mytable order by reference_budget "@ + d);
}

/// Two queries in the same order differ only in direction: a non-default order asked for with
/// any two nonzero directions gives the same query, and asked for ascending and descending
/// gives texts that differ only in their last word.
pub proof fn sort_direction_depends_on_u_d_alone(sort: Sort, u: u8, v: u8)
    requires
        sort != Sort::Default,
    ensures
        (u == 0) == (v == 0) ==> sort_query_text(sort, u) == sort_query_text(sort, v),
        u == 0 ==> sort_query_text(sort, u) == "select * from mytable order by "@ + sort_column(sort)
            + " ASC"@,
        u != 0 ==> sort_query_text(sort, u) == "select * from mytable order by "@ + sort_column(sort)
            + " DESC"@,
{
    reveal_strlit(" ");
    reveal_strlit("ASC");
    reveal_strlit("DESC");
    reveal_strlit(" ASC");
    reveal_strlit(" DESC");
    let c = "select * from mytable order by "@ + sort_column(sort);
    assert(c + " "@ + "ASC"@ =~= c + " ASC"@);
    assert(c + " "@ + "DESC"@ =~= c + " DESC"@);
}

// ---------------------------------------------------------------------------
// The overview of all stored listings
// ---------------------------------------------------------------------------

/// The order in which the overview for `sorts` reads each city's listings: the reference
/// budget overview reads them by size, the others by their own column.
pub open spec fn overview_order(sorts: Sort) -> Sort {
    if sorts == Sort::Rb {
        Sort::Size
    } else {
        sorts
    }
}

/// The order in which the overview for `sorts` reads each city's listings.
pub fn data_select_order(sorts: Sort) -> (r: Sort)
    ensures
        r == overview_order(sorts),
{
    match sorts {
        Sort::Rb => Sort::Size,
        other => other,
    }
}

/// The query by which the overview for `sorts` reads each city's listings: in the overview's
/// order, descending, so that the first listing read is the city's greatest in that order.
pub fn overview_query(sorts: Sort) -> (r: String)
    ensures
        r@ == sort_query_text(overview_order(sorts), 1),
{
    sort_query(data_select_order(sorts), 1)
}

/// Each overview reads every city's listings descending by its own column (price per square
/// metre, total price, size), the default overview in stored order; only the reference budget
/// overview reads them by size.
pub proof fn overview_reads_by_own_column()
    ensures
        overview_order(Sort::Default) == Sort::Default,
        overview_order(Sort::Ppm) == Sort::Ppm,
        overview_order(Sort::Tp) == Sort::Tp,
        overview_order(Sort::Size) == Sort::Size,
        overview_order(Sort::Rb) == Sort::Size,
        sort_query_text(overview_order(Sort::Default), 1) == "select * from mytable"@,
        sort_query_text(overview_order(Sort::Ppm), 1)
            == "select * from mytable order by price_per_meter DESC"@,
        sort_query_text(overview_order(Sort::Tp), 1)
            == "select * from mytable order by total_price DESC"@,
        sort_query_text(overview_order(Sort::Size), 1) == "select * from mytable order by size DESC"@,
        sort_query_text(overview_order(Sort::Rb), 1) == "select * from mytable order by size DESC"@,
{
    reveal_strlit("select * from mytable order by price_per_meter ");
    reveal_strlit("select * from mytable order by total_price ");
    reveal_strlit("select * from mytable order by size ");
    reveal_strlit("DESC");
    reveal_strlit("select * from mytable order by price_per_meter DESC");
    reveal_strlit("select * from mytable order by total_price DESC");
    reveal_strlit("select * from mytable order by size DESC");
    sort_query_column_and_direction(1);
    assert("select * from mytable order by price_per_meter "@ + "DESC"@
        =~= "select * from mytable order by price_per_meter DESC"@);
    assert("select * from mytable order by total_price "@ + "DESC"@
        =~= "select * from mytable order by total_price DESC"@);
    assert("select * from mytable order by size "@ + "DESC"@
        =~= "select * from mytable order by size DESC"@);
}

/// The value of a listing that the overview for `sorts` compares.
pub open spec fn overview_key(sorts: Sort, h: HouseView) -> int {
    match sorts {
        Sort::Ppm => h.price_per_meter as int,
        Sort::Tp => h.total_price as int,
        Sort::Size => h.size as int,
        Sort::Rb => h.reference_budget as int,
        Sort::Default => 0,
    }
}

/// The unit written after the value in the overview for `sorts`.
pub open spec fn overview_unit(sorts: Sort) -> Seq<char> {
    match sorts {
        Sort::Ppm => "元/㎡"@,
        Sort::Size => "㎡"@,
        _ => "万元"@,
    }
}

/// The overview's sentence on listing `h`: where it is and its value.
pub open spec fn overview_entry(sorts: Sort, h: HouseView) -> Seq<char> {
    "来自"@ + h.area + " "@ + h.community + "的"@ + int_text(overview_key(sorts, h)) + overview_unit(
        sorts,
    )
}

/// Among the cities whose listing lists are not empty, the one whose first listing has the
/// greatest value; the last such city on ties.
pub open spec fn best_city(sorts: Sort, rs: Seq<Seq<HouseView>>) -> Option<int>
    decreases rs.len(),
{
    if rs.len() == 0 {
        None
    } else {
        let i = rs.len() - 1;
        let before = best_city(sorts, rs.drop_last());
        if rs[i].len() == 0 {
            before
        } else {
            match before {
                None => Some(i),
                Some(j) => if overview_key(sorts, rs[i][0]) >= overview_key(sorts, rs[j][0]) {
                    Some(i)
                } else {
                    Some(j)
                },
            }
        }
    }
}

/// The number of listings of all cities.
pub open spec fn total_listings(rs: Seq<Seq<HouseView>>) -> nat
    decreases rs.len(),
{
    if rs.len() == 0 {
        0
    } else {
        total_listings(rs.drop_last()) + rs.last().len()
    }
}

/// The text shown when there is nothing to tell.
pub open spec fn no_data() -> Seq<char> {
    "无数据"@
}

/// The overview line for `sorts` over the listings `rs` of each city: for the default order the
/// number of listings of all cities; otherwise the sentence on the first listing of the city
/// that leads.
pub open spec fn overview(sorts: Sort, rs: Seq<Seq<HouseView>>) -> Seq<char> {
    if sorts == Sort::Default {
        if rs.len() == 0 {
            no_data()
        } else {
            nat_digits(total_listings(rs))
        }
    } else {
        match best_city(sorts, rs) {
            Some(i) => overview_entry(sorts, rs[i][0]),
            None => no_data(),
        }
    }
}

fn overview_key_of(sorts: Sort, h: &House) -> (k: i64)
    ensures
        k as int == overview_key(sorts, h@),
{
    match sorts {
        Sort::Ppm => h.price_per_meter,
        Sort::Tp => h.total_price,
        Sort::Size => h.size,
        Sort::Rb => h.reference_budget,
        Sort::Default => 0,
    }
}

fn overview_entry_of(sorts: Sort, h: &House) -> (r: String)
    ensures
        r@ == overview_entry(sorts, h@),
{
    let mut s = String::from_str("来自");
    s.append(h.area.as_str());
    s.append(" ");
    s.append(h.community.as_str());
    s.append("的");
    s.append(i64_text(overview_key_of(sorts, h)).as_str());
    match sorts {
        Sort::Ppm => s.append("元/㎡"),
        Sort::Size => s.append("㎡"),
        _ => s.append("万元"),
    }
    s
}

/// The line of the data overview for `sorts`, from `city_houses`: for each stored city, its
/// listings as `overview_query(sorts)` lists them (by size for the reference budget overview). The default order
/// gives the number of listings of all cities; the others describe the first listing, among
/// the cities' first listings, with the greatest price per square metre, total price, size or
/// reference budget.
pub fn data_select(sorts: Sort, city_houses: Vec<Vec<House>>) -> (r: String)
    requires
        sorts == Sort::Default ==> total_listings(city_houses.deep_view()) <= usize::MAX,
    ensures
        r@ == overview(sorts, city_houses.deep_view()),
{
    let ghost rs = city_houses.deep_view();
    if sorts == Sort::Default {
        if city_houses.len() == 0 {
            return String::from_str("无数据");
        }
        let mut sum: usize = 0;
        let mut i: usize = 0;
        while i < city_houses.len()
            invariant
                0 <= i <= city_houses.len(),
                rs == city_houses.deep_view(),
                total_listings(rs) <= usize::MAX,
                sum == total_listings(rs.take(i as int)),
            decreases city_houses.len() - i,
        {
            proof {
                assert(rs.take(i + 1).drop_last() == rs.take(i as int));
                assert(rs.take(i + 1).last() == rs[i as int]);
                assert(rs[i as int].len() == city_houses@[i as int].len());
                lemma_total_listings_prefix(rs, i + 1);
            }
            sum = sum + city_houses[i].len();
            i = i + 1;
        }
        assert(rs.take(city_houses.len() as int) == rs);
        return u64_text(sum as u64);
    }
    let mut best: Option<usize> = None;
    let mut i: usize = 0;
    while i < city_houses.len()
        invariant
            0 <= i <= city_houses.len(),
            rs == city_houses.deep_view(),
            best_city(sorts, rs.take(i as int)) == match best {
                Some(j) => Some(j as int),
                None => None::<int>,
            },
            best matches Some(j) ==> j < i && city_houses@[j as int].len() > 0,
        decreases city_houses.len() - i,
    {
        let ghost pre = rs.take(i + 1);
        proof {
            assert(pre.drop_last() == rs.take(i as int));
            assert(pre[i as int] == rs[i as int]);
            assert(rs[i as int].len() == city_houses@[i as int].len());
        }
        if city_houses[i].len() > 0 {
            match best {
                None => {
                    best = Some(i);
                },
                Some(j) => {
                    proof {
                        assert(pre[j as int] == rs[j as int]);
                        assert(rs[i as int][0] == city_houses@[i as int]@[0]@);
                        assert(rs[j as int][0] == city_houses@[j as int]@[0]@);
                    }
                    if overview_key_of(sorts, &city_houses[i][0]) >= overview_key_of(
                        sorts,
                        &city_houses[j][0],
                    ) {
                        best = Some(i);
                    }
                },
            }
        }
        i = i + 1;
    }
    assert(rs.take(city_houses.len() as int) == rs);
    match best {
        Some(j) => {
            assert(rs[j as int][0] == city_houses@[j as int]@[0]@);
            overview_entry_of(sorts, &city_houses[j][0])
        },
        None => String::from_str("无数据"),
    }
}

proof fn lemma_total_listings_prefix(rs: Seq<Seq<HouseView>>, k: int)
    requires
        0 <= k <= rs.len(),
    ensures
        total_listings(rs.take(k)) <= total_listings(rs),
    decreases rs.len(),
{
    if k < rs.len() {
        assert(rs.drop_last().take(k) == rs.take(k));
        lemma_total_listings_prefix(rs.drop_last(), k);
    } else {
        assert(rs.take(k) == rs);
    }
}

/// The city that the overview describes leads: its first listing's value is at least that of
/// every other city's first listing, and greater than that of every later city's.
pub proof fn best_city_leads(sorts: Sort, rs: Seq<Seq<HouseView>>)
    ensures
        best_city(sorts, rs) is None <==> forall|j: int| 0 <= j < rs.len() ==> #[trigger] rs[j].len()
            == 0,
        best_city(sorts, rs) matches Some(i) ==> {
            &&& 0 <= i < rs.len()
            &&& rs[i].len() > 0
            &&& forall|j: int|
                0 <= j < rs.len() && #[trigger] rs[j].len() > 0 ==> overview_key(sorts, rs[j][0])
                    <= overview_key(sorts, rs[i][0])
            &&& forall|j: int|
                i < j < rs.len() && #[trigger] rs[j].len() > 0 ==> overview_key(sorts, rs[j][0])
                    < overview_key(sorts, rs[i][0])
        },
    decreases rs.len(),
{
    if rs.len() > 0 {
        let t = rs.drop_last();
        let n = rs.len() - 1;
        best_city_leads(sorts, t);
        assert forall|j: int| 0 <= j < t.len() implies #[trigger] t[j] == rs[j] by {}
        if rs[n].len() == 0 {
            assert forall|j: int| 0 <= j < rs.len() && #[trigger] rs[j].len() > 0 implies j < n by {}
            match best_city(sorts, t) {
                None => {
                    assert forall|j: int| 0 <= j < rs.len() implies #[trigger] rs[j].len() == 0 by {
                        if j < n {
                            assert(t[j].len() == 0);
                        }
                    }
                },
                Some(k) => {
                    assert(t[k] == rs[k]);
                    assert forall|j: int|
                        0 <= j < rs.len() && #[trigger] rs[j].len() > 0 implies overview_key(
                        sorts,
                        rs[j][0],
                    ) <= overview_key(sorts, rs[k][0]) by {
                        assert(t[j].len() > 0);
                    }
                    assert forall|j: int|
                        k < j < rs.len() && #[trigger] rs[j].len() > 0 implies overview_key(
                        sorts,
                        rs[j][0],
                    ) < overview_key(sorts, rs[k][0]) by {
                        assert(t[j].len() > 0);
                    }
                },
            }
        } else {
            assert(rs[n].len() > 0);
            match best_city(sorts, t) {
                None => {
                    assert forall|j: int|
                        0 <= j < rs.len() && #[trigger] rs[j].len() > 0 implies j == n by {
                        if j < n {
                            assert(t[j].len() == 0);
                        }
                    }
                },
                Some(k) => {
                    assert(t[k] == rs[k]);
                    if overview_key(sorts, rs[n][0]) >= overview_key(sorts, rs[k][0]) {
                        assert forall|j: int|
                            0 <= j < rs.len() && #[trigger] rs[j].len() > 0 implies overview_key(
                            sorts,
                            rs[j][0],
                        ) <= overview_key(sorts, rs[n][0]) by {
                            if j < n {
                                assert(t[j].len() > 0);
                            }
                        }
                    } else {
                        assert forall|j: int|
                            0 <= j < rs.len() && #[trigger] rs[j].len() > 0 implies overview_key(
                            sorts,
                            rs[j][0],
                        ) <= overview_key(sorts, rs[k][0]) by {
                            if j < n {
                                assert(t[j].len() > 0);
                            }
                        }
                        assert forall|j: int|
                            k < j < rs.len() && #[trigger] rs[j].len() > 0 implies overview_key(
                            sorts,
                            rs[j][0],
                        ) < overview_key(sorts, rs[k][0]) by {
                            if j < n {
                                assert(t[j].len() > 0);
                            }
                        }
                    }
                },
            }
        }
    }
}

} // verus!
