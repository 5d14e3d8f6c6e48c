use vstd::prelude::*;

use crate::pattern::{
    date_like, extract_number, extract_number2, first_amount, first_amount_of, is_valid_date,
    leading_number,
};
use crate::text::{i64_text, int_text};

verus! {

/// One second-hand housing listing.
#[derive(Debug, PartialEq)]
pub struct House {
    pub title: String,
    pub community: String,
    pub area: String,
    pub price_per_meter: i64,
    pub total_price: i64,
    pub layout: String,
    pub floor: String,
    pub size: i64,
    pub decoration: String,
    pub orientation: String,
    pub time: String,
    pub property_ownership_type: String,
    pub property_type: String,
    pub ownership_duration: String,
    pub reference_budget: i64,
    pub publishing_company: String,
    pub business_license: String,
    pub update_date: String,
    pub link: String,
}

/// A listing as plain values: every text as its characters.
pub struct HouseView {
    pub title: Seq<char>,
    pub community: Seq<char>,
    pub area: Seq<char>,
    pub price_per_meter: i64,
    pub total_price: i64,
    pub layout: Seq<char>,
    pub floor: Seq<char>,
    pub size: i64,
    pub decoration: Seq<char>,
    pub orientation: Seq<char>,
    pub time: Seq<char>,
    pub property_ownership_type: Seq<char>,
    pub property_type: Seq<char>,
    pub ownership_duration: Seq<char>,
    pub reference_budget: i64,
    pub publishing_company: Seq<char>,
    pub business_license: Seq<char>,
    pub update_date: Seq<char>,
    pub link: Seq<char>,
}

impl View for House {
    type V = HouseView;

    open spec fn view(&self) -> HouseView {
        HouseView {
            title: self.title@,
            community: self.community@,
            area: self.area@,
            price_per_meter: self.price_per_meter,
            total_price: self.total_price,
            layout: self.layout@,
            floor: self.floor@,
            size: self.size,
            decoration: self.decoration@,
            orientation: self.orientation@,
            time: self.time@,
            property_ownership_type: self.property_ownership_type@,
            property_type: self.property_type@,
            ownership_duration: self.ownership_duration@,
            reference_budget: self.reference_budget,
            publishing_company: self.publishing_company@,
            business_license: self.business_license@,
            update_date: self.update_date@,
            link: self.link@,
        }
    }
}

impl DeepView for House {
    type V = HouseView;

    open spec fn deep_view(&self) -> HouseView {
        self@
    }
}

/// The listing with every text empty and every number 0.
pub open spec fn blank_house() -> HouseView {
    HouseView {
        title: Seq::empty(),
        community: Seq::empty(),
        area: Seq::empty(),
        price_per_meter: 0,
        total_price: 0,
        layout: Seq::empty(),
        floor: Seq::empty(),
        size: 0,
        decoration: Seq::empty(),
        orientation: Seq::empty(),
        time: Seq::empty(),
        property_ownership_type: Seq::empty(),
        property_type: Seq::empty(),
        ownership_duration: Seq::empty(),
        reference_budget: 0,
        publishing_company: Seq::empty(),
        business_license: Seq::empty(),
        update_date: Seq::empty(),
        link: Seq::empty(),
    }
}

impl House {
    /// The listing with every text empty and every number 0.
    pub fn blank() -> (h: House)
        ensures
            h@ == blank_house(),
    {
        House {
            title: String::new(),
            community: String::new(),
            area: String::new(),
            price_per_meter: 0,
            total_price: 0,
            layout: String::new(),
            floor: String::new(),
            size: 0,
            decoration: String::new(),
            orientation: String::new(),
            time: String::new(),
            property_ownership_type: String::new(),
            property_type: String::new(),
            ownership_duration: String::new(),
            reference_budget: 0,
            publishing_company: String::new(),
            business_license: String::new(),
            update_date: String::new(),
            link: String::new(),
        }
    }
}

impl Default for House {
    fn default() -> (h: House)
        ensures
            h@ == blank_house(),
    {
        House::blank()
    }
}

// ---------------------------------------------------------------------------
// The trade block of a listing page
// ---------------------------------------------------------------------------

/// Whether the trade block has one of the lengths the page layout is known for (7 to 11).
pub open spec fn is_trade_row(d: Seq<Seq<char>>) -> bool {
    7 <= d.len() <= 11
}

/// Where the reference budget stands in a trade block; the publishing company, the business
/// licence and the update date follow it. Which of the optional entries a block holds is told
/// by where its dates stand.
pub open spec fn trade_offset(d: Seq<Seq<char>>) -> int {
    if d.len() == 7 {
        3
    } else if d.len() == 8 {
        if date_like(d[6]) {
            3
        } else {
            4
        }
    } else if d.len() == 9 {
        if date_like(d[7]) {
            4
        } else if date_like(d[6]) {
            3
        } else {
            5
        }
    } else if d.len() == 10 {
        if date_like(d[7]) {
            4
        } else {
            5
        }
    } else {
        5
    }
}

/// The reference budget of a trade block can be read: always so for blocks of other lengths,
/// which are left alone.
pub open spec fn trade_budget_readable(d: Seq<Seq<char>>) -> bool {
    is_trade_row(d) ==> first_amount(d[trade_offset(d)]) is Some
}

/// The listing `h` with the trade block `d` filled in, the budget read as `budget`.
pub open spec fn with_trade(h: HouseView, d: Seq<Seq<char>>, budget: int) -> HouseView {
    let k = trade_offset(d);
    HouseView {
        property_ownership_type: d[0],
        property_type: d[1],
        ownership_duration: d[2],
        reference_budget: budget as i64,
        publishing_company: d[k + 1],
        business_license: d[k + 2],
        update_date: d[k + 3],
        ..h
    }
}

/// What `assign_values` makes of `h` from the trade block `d`.
pub open spec fn assigned(h: HouseView, d: Seq<Seq<char>>) -> HouseView {
    if is_trade_row(d) {
        with_trade(h, d, first_amount(d[trade_offset(d)])->0)
    } else {
        h
    }
}

/// A trade block of 7 to 11 entries fills the trade fields: the first three entries are the
/// ownership type, the property type and the ownership duration; the reference budget is the
/// first amount in the entry at the block's offset, and publishing company, business licence
/// and update date are the three entries after it. The offset is 3 for seven entries and 5 for
/// eleven; with eight, 3 when the seventh entry is a date and 4 otherwise; with nine, 4 when
/// the eighth is a date, else 3 when the seventh is, else 5; with ten, 4 when the eighth is a
/// date and 5 otherwise. Every other field of the listing is kept, and a block of any other
/// length leaves the listing unchanged.
pub proof fn trade_fields_land_in_place(h: HouseView, d: Seq<Seq<char>>)
    ensures
        ({
            let r = assigned(h, d);
            let n = d.len();
            let k = trade_offset(d);
            if 7 <= n <= 11 {
                &&& k == (if n == 7 {
                    3
                } else if n == 8 {
                    if date_like(d[6]) {
                        3
                    } else {
                        4
                    }
                } else if n == 9 {
                    if date_like(d[7]) {
                        4
                    } else if date_like(d[6]) {
                        3
                    } else {
                        5
                    }
                } else if n == 10 {
                    if date_like(d[7]) {
                        4
                    } else {
                        5
                    }
                } else {
                    5int
                })
                &&& r.property_ownership_type == d[0]
                &&& r.property_type == d[1]
                &&& r.ownership_duration == d[2]
                &&& first_amount(d[k]) is Some ==> r.reference_budget == (first_amount(d[k])->0) as i64
                &&& r.publishing_company == d[k + 1]
                &&& r.business_license == d[k + 2]
                &&& r.update_date == d[k + 3]
                &&& r.title == h.title
                &&& r.community == h.community
                &&& r.area == h.area
                &&& r.price_per_meter == h.price_per_meter
                &&& r.total_price == h.total_price
                &&& r.layout == h.layout
                &&& r.floor == h.floor
                &&& r.size == h.size
                &&& r.decoration == h.decoration
                &&& r.orientation == h.orientation
                &&& r.time == h.time
                &&& r.link == h.link
            } else {
                r == h
            }
        }),
{
}

fn trade_offset_of(data: &Vec<String>) -> (k: usize)
    requires
        is_trade_row(data.deep_view()),
    ensures
        k == trade_offset(data.deep_view()),
        3 <= k <= 5,
{
    let ghost d = data.deep_view();
    let n = data.len();
    if n == 7 {
        3
    } else if n == 8 {
        assert(d[6] == data@[6]@);
        if is_valid_date(data[6].as_str()) {
            3
        } else {
            4
        }
    } else if n == 9 {
        assert(d[6] == data@[6]@ && d[7] == data@[7]@);
        if is_valid_date(data[7].as_str()) {
            4
        } else if is_valid_date(data[6].as_str()) {
            3
        } else {
            5
        }
    } else if n == 10 {
        assert(d[7] == data@[7]@);
        if is_valid_date(data[7].as_str()) {
            4
        } else {
            5
        }
    } else {
        5
    }
}

fn fill_trade(temp: &mut House, data: &Vec<String>, k: usize, budget: i64)
    requires
        is_trade_row(data.deep_view()),
        k == trade_offset(data.deep_view()),
    ensures
        final(temp)@ == with_trade(old(temp)@, data.deep_view(), budget as int),
{
    let ghost d = data.deep_view();
    assert(d[0] == data@[0]@ && d[1] == data@[1]@ && d[2] == data@[2]@);
    assert(d[k + 1] == data@[k + 1]@ && d[k + 2] == data@[k + 2]@ && d[k + 3] == data@[k + 3]@);
    temp.property_ownership_type = data[0].clone();
    temp.property_type = data[1].clone();
    temp.ownership_duration = data[2].clone();
    temp.reference_budget = budget;
    temp.publishing_company = data[k + 1].clone();
    temp.business_license = data[k + 2].clone();
    temp.update_date = data[k + 3].clone();
}

/// Fills the trade fields of a listing (ownership type, property type, ownership duration,
/// reference budget, publishing company, business licence, update date) from the entries of
/// the page's trade block. A block of a length other than 7 to 11 leaves the listing as it was.
pub fn assign_values(temp: &mut House, data: Vec<String>)
    requires
        trade_budget_readable(data.deep_view()),
    ensures
        final(temp)@ == assigned(old(temp)@, data.deep_view()),
{
    let ghost d = data.deep_view();
    if 7 <= data.len() && data.len() <= 11 {
        let k = trade_offset_of(&data);
        assert(d[k as int] == data@[k as int]@);
        let budget = extract_number2(data[k].as_str());
        fill_trade(temp, &data, k, budget);
    }
}

/// `assign_values` where the reference budget can be read; otherwise leaves the listing as it
/// was and answers `false`.
pub fn try_assign_values(temp: &mut House, data: Vec<String>) -> (ok: bool)
    ensures
        ok == trade_budget_readable(data.deep_view()),
        ok ==> final(temp)@ == assigned(old(temp)@, data.deep_view()),
        !ok ==> final(temp)@ == old(temp)@,
{
    let ghost d = data.deep_view();
    if 7 <= data.len() && data.len() <= 11 {
        let k = trade_offset_of(&data);
        assert(d[k as int] == data@[k as int]@);
        if first_amount_of(data[k].as_str()).is_none() {
            return false;
        }
    }
    assign_values(temp, data);
    true
}

// ---------------------------------------------------------------------------
// The summary line of a listing page
// ---------------------------------------------------------------------------

/// The listing `h` with layout, floor, size, decoration, orientation and completion time taken
/// from the entries `layout`, `floor`, `size`, `decoration`, `orientation` and `time` of the
/// summary fields `f`; the size is the first number written in its entry.
pub open spec fn with_summary(
    h: HouseView,
    f: Seq<Seq<char>>,
    size: int,
    decoration: int,
    orientation: int,
    time: int,
) -> HouseView {
    HouseView {
        layout: f[0],
        floor: f[1],
        size: leading_number(f[size]) as i64,
        decoration: f[decoration],
        orientation: f[orientation],
        time: f[time],
        ..h
    }
}

/// What `assign_summary` makes of `h` from the summary fields `f`: six fields are read in
/// order; with eight, the size is the fourth and the last three follow the sixth; with seven,
/// the size is the third and the last three are the last three.
pub open spec fn summarized(h: HouseView, f: Seq<Seq<char>>) -> HouseView {
    if f.len() == 6 {
        with_summary(h, f, 2, 3, 4, 5)
    } else if f.len() == 8 {
        with_summary(h, f, 3, 5, 6, 7)
    } else if f.len() == 7 {
        with_summary(h, f, 2, 4, 5, 6)
    } else {
        h
    }
}

/// Whatever the number of summary fields (six, seven or eight), the layout is the first field
/// and the floor the second; completion time, orientation and decoration are the last three
/// fields, from the end; the size is the number written in the third field, or in the fourth
/// when there are eight. Every other field of the listing is kept. With any other number of
/// fields the listing is unchanged.
pub proof fn summary_fields_land_in_place(h: HouseView, f: Seq<Seq<char>>)
    ensures
        ({
            let r = summarized(h, f);
            let n = f.len();
            if n == 6 || n == 7 || n == 8 {
                &&& r.layout == f[0]
                &&& r.floor == f[1]
                &&& r.size == leading_number(f[if n == 8 { 3int } else { 2int }]) as i64
                &&& r.decoration == f[n - 3]
                &&& r.orientation == f[n - 2]
                &&& r.time == f[n - 1]
                &&& r.title == h.title
                &&& r.community == h.community
                &&& r.area == h.area
                &&& r.price_per_meter == h.price_per_meter
                &&& r.total_price == h.total_price
                &&& r.property_ownership_type == h.property_ownership_type
                &&& r.property_type == h.property_type
                &&& r.ownership_duration == h.ownership_duration
                &&& r.reference_budget == h.reference_budget
                &&& r.publishing_company == h.publishing_company
                &&& r.business_license == h.business_license
                &&& r.update_date == h.update_date
                &&& r.link == h.link
            } else {
                r == h
            }
        }),
{
}

fn fill_summary(
    temp: &mut House,
    info: &Vec<String>,
    size: usize,
    decoration: usize,
    orientation: usize,
    time: usize,
)
    requires
        2 <= size < info.len(),
        2 <= decoration < info.len(),
        2 <= orientation < info.len(),
        2 <= time < info.len(),
    ensures
        final(temp)@ == with_summary(
            old(temp)@,
            info.deep_view(),
            size as int,
            decoration as int,
            orientation as int,
            time as int,
        ),
{
    let ghost f = info.deep_view();
    assert(f[0] == info@[0]@ && f[1] == info@[1]@ && f[size as int] == info@[size as int]@);
    assert(f[decoration as int] == info@[decoration as int]@ && f[orientation as int]
        == info@[orientation as int]@ && f[time as int] == info@[time as int]@);
    temp.layout = info[0].clone();
    temp.floor = info[1].clone();
    temp.size = extract_number(info[size].as_str());
    temp.decoration = info[decoration].clone();
    temp.orientation = info[orientation].clone();
    temp.time = info[time].clone();
}

/// Fills layout, floor, size, decoration, orientation and completion time of a listing from
/// the fields found in the page's summary line. Other numbers of fields leave it as it was.
pub fn assign_summary(temp: &mut House, info: &Vec<String>)
    ensures
        final(temp)@ == summarized(old(temp)@, info.deep_view()),
{
    if info.len() == 6 {
        fill_summary(temp, info, 2, 3, 4, 5);
    } else if info.len() == 8 {
        fill_summary(temp, info, 3, 5, 6, 7);
    } else if info.len() == 7 {
        fill_summary(temp, info, 2, 4, 5, 6);
    }
}

// ---------------------------------------------------------------------------
// Storing a listing
// ---------------------------------------------------------------------------

/// A text between single quotes, as the statement writes text values.
pub open spec fn quoted(x: Seq<char>) -> Seq<char> {
    "'"@ + x + "'"@
}

/// Values written one after the other, separated by a comma and a space.
pub open spec fn value_list(vs: Seq<Seq<char>>) -> Seq<char>
    decreases vs.len(),
{
    if vs.len() == 0 {
        Seq::empty()
    } else if vs.len() == 1 {
        vs[0]
    } else {
        value_list(vs.drop_last()) + ", "@ + vs.last()
    }
}

/// The values of a stored listing in the column order of the listings table (`id`, `title`,
/// `community`, `area`, `price_per_meter`, `total_price`, `layout`, `floor`, `size`,
/// `decoration`, `orientation`, `time`, `property_ownership_type`, `property_type`,
/// `ownership_duration`, `reference_budget`, `publishing_company`, `business_license`,
/// `update_date`, `link`): numbers in decimal, texts quoted.
pub open spec fn column_values(id: int, h: HouseView) -> Seq<Seq<char>> {
    seq![
        int_text(id),
        quoted(h.title),
        quoted(h.community),
        quoted(h.area),
        int_text(h.price_per_meter as int),
        int_text(h.total_price as int),
        quoted(h.layout),
        quoted(h.floor),
        int_text(h.size as int),
        quoted(h.decoration),
        quoted(h.orientation),
        quoted(h.time),
        quoted(h.property_ownership_type),
        quoted(h.property_type),
        quoted(h.ownership_duration),
        int_text(h.reference_budget as int),
        quoted(h.publishing_company),
        quoted(h.business_license),
        quoted(h.update_date),
        quoted(h.link),
    ]
}

/// The statement that stores listing `h` under the key `id`: its values in the column order
/// of the listings table.
pub open spec fn insert_text(id: int, h: HouseView) -> Seq<char> {
    "insert into mytable values("@ + value_list(column_values(id, h)) + ")"@
}

proof fn lemma_value_list_step(vs: Seq<Seq<char>>, k: int)
    requires
        1 <= k < vs.len(),
    ensures
        value_list(vs.take(k + 1)) == value_list(vs.take(k)) + ", "@ + vs[k],
{
    assert(vs.take(k + 1).drop_last() == vs.take(k));
}

proof fn lemma_head_value_list_step(head: Seq<char>, vs: Seq<Seq<char>>, k: int)
    requires
        1 <= k < vs.len(),
    ensures
        head + value_list(vs.take(k + 1)) == head + value_list(vs.take(k)) + ", "@ + vs[k],
{
    lemma_value_list_step(vs, k);
    assert(head + (value_list(vs.take(k)) + ", "@ + vs[k]) =~= head + value_list(vs.take(k)) + ", "@
        + vs[k]);
}

/// The statement that stores a listing, written out whole: the key, then every field of the
/// listing in the column of its name, in the column order of the listings table, texts between
/// single quotes and numbers in decimal, separated by a comma and a space.
pub proof fn insert_text_written_out(id: int, h: HouseView)
    ensures
        insert_text(id, h) == "insert into mytable values("@ + int_text(id)
            + ", "@ + quoted(h.title)
            + ", "@ + quoted(h.community)
            + ", "@ + quoted(h.area)
            + ", "@ + int_text(h.price_per_meter as int)
            + ", "@ + int_text(h.total_price as int)
            + ", "@ + quoted(h.layout)
            + ", "@ + quoted(h.floor)
            + ", "@ + int_text(h.size as int)
            + ", "@ + quoted(h.decoration)
            + ", "@ + quoted(h.orientation)
            + ", "@ + quoted(h.time)
            + ", "@ + quoted(h.property_ownership_type)
            + ", "@ + quoted(h.property_type)
            + ", "@ + quoted(h.ownership_duration)
            + ", "@ + int_text(h.reference_budget as int)
            + ", "@ + quoted(h.publishing_company)
            + ", "@ + quoted(h.business_license)
            + ", "@ + quoted(h.update_date)
            + ", "@ + quoted(h.link)
            + ")"@,
{
    let vs = column_values(id, h);
    let head = "insert into mytable values("@;
    assert(vs.take(1).len() == 1);
    assert(value_list(vs.take(1)) == vs[0]);
    lemma_head_value_list_step(head, vs, 1);
    lemma_head_value_list_step(head, vs, 2);
    lemma_head_value_list_step(head, vs, 3);
    lemma_head_value_list_step(head, vs, 4);
    lemma_head_value_list_step(head, vs, 5);
    lemma_head_value_list_step(head, vs, 6);
    lemma_head_value_list_step(head, vs, 7);
    lemma_head_value_list_step(head, vs, 8);
    lemma_head_value_list_step(head, vs, 9);
    lemma_head_value_list_step(head, vs, 10);
    lemma_head_value_list_step(head, vs, 11);
    lemma_head_value_list_step(head, vs, 12);
    lemma_head_value_list_step(head, vs, 13);
    lemma_head_value_list_step(head, vs, 14);
    lemma_head_value_list_step(head, vs, 15);
    lemma_head_value_list_step(head, vs, 16);
    lemma_head_value_list_step(head, vs, 17);
    lemma_head_value_list_step(head, vs, 18);
    lemma_head_value_list_step(head, vs, 19);
    assert(vs.take(20) == vs);
}

/// Appends the value of column `k` to a statement that holds the values of the columns
/// before it.
fn append_value(s: &mut String, value: &str, quote: bool, Ghost(vs): Ghost<Seq<Seq<char>>>, Ghost(k): Ghost<int>)
    requires
        1 <= k < vs.len(),
        old(s)@ == "insert into mytable values("@ + value_list(vs.take(k)),
        vs[k] == (if quote {
            quoted(value@)
        } else {
            value@
        }),
    ensures
        final(s)@ == "insert into mytable values("@ + value_list(vs.take(k + 1)),
{
    proof {
        lemma_value_list_step(vs, k);
    }
    s.append(", ");
    if quote {
        s.append("'");
        s.append(value);
        s.append("'");
    } else {
        s.append(value);
    }
}

/// The statement that stores listing `house` in the listings table under the key `id`.
pub fn insert_statement(id: i64, house: &House) -> (r: String)
    ensures
        r@ == insert_text(id as int, house@),
{
    let ghost vs = column_values(id as int, house@);
    let mut s = String::from_str("insert into mytable values(");
    s.append(i64_text(id).as_str());
    assert(vs.take(1).len() == 1);
    assert(value_list(vs.take(1)) == vs[0]);
    append_value(&mut s, house.title.as_str(), true, Ghost(vs), Ghost(1));
    append_value(&mut s, house.community.as_str(), true, Ghost(vs), Ghost(2));
    append_value(&mut s, house.area.as_str(), true, Ghost(vs), Ghost(3));
    append_value(&mut s, i64_text(house.price_per_meter).as_str(), false, Ghost(vs), Ghost(4));
    append_value(&mut s, i64_text(house.total_price).as_str(), false, Ghost(vs), Ghost(5));
    append_value(&mut s, house.layout.as_str(), true, Ghost(vs), Ghost(6));
    append_value(&mut s, house.floor.as_str(), true, Ghost(vs), Ghost(7));
    append_value(&mut s, i64_text(house.size).as_str(), false, Ghost(vs), Ghost(8));
    append_value(&mut s, house.decoration.as_str(), true, Ghost(vs), Ghost(9));
    append_value(&mut s, house.orientation.as_str(), true, Ghost(vs), Ghost(10));
    append_value(&mut s, house.time.as_str(), true, Ghost(vs), Ghost(11));
    append_value(&mut s, house.property_ownership_type.as_str(), true, Ghost(vs), Ghost(12));
    append_value(&mut s, house.property_type.as_str(), true, Ghost(vs), Ghost(13));
    append_value(&mut s, house.ownership_duration.as_str(), true, Ghost(vs), Ghost(14));
    append_value(&mut s, i64_text(house.reference_budget).as_str(), false, Ghost(vs), Ghost(15));
    append_value(&mut s, house.publishing_company.as_str(), true, Ghost(vs), Ghost(16));
    append_value(&mut s, house.business_license.as_str(), true, Ghost(vs), Ghost(17));
    append_value(&mut s, house.update_date.as_str(), true, Ghost(vs), Ghost(18));
    append_value(&mut s, house.link.as_str(), true, Ghost(vs), Ghost(19));
    assert(vs.take(20) == vs);
    s.append(")");
    s
}

} // verus!
