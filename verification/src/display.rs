use vstd::prelude::*;

use crate::house::{House, HouseView};
use crate::text::{i64_text, int_text, push_char};

verus! {

/// The number of terminal columns that `unicode-width` gives the string `s`.
pub uninterp spec fn str_width(s: Seq<char>) -> usize;

/// `unicode_width::UnicodeWidthStr::width`. The contract only names the result: the width of
/// each character is `unicode-width`'s table.
#[verifier::external_body]
fn display_width(s: &str) -> (w: usize)
    ensures
        w == str_width(s@),
{
    unicode_width::UnicodeWidthStr::width(s)
}

/// `n` spaces.
pub open spec fn spaces(n: nat) -> Seq<char> {
    Seq::new(n, |i: int| ' ')
}

/// `s`, `width` columns wide, followed by as many spaces as it takes to fill `total_width`
/// columns; `s` itself when it is that wide already.
pub open spec fn padded_from(s: Seq<char>, width: nat, total_width: nat) -> Seq<char> {
    if width >= total_width {
        s
    } else {
        s + spaces((total_width - width) as nat)
    }
}

/// `s` followed by as many spaces as it takes to fill `total_width` columns; `s` itself when
/// it is that wide already.
pub open spec fn padded(s: Seq<char>, total_width: nat) -> Seq<char> {
    padded_from(s, str_width(s) as nat, total_width)
}

/// `s`, whose display width is `width`, padded with spaces on the right to `total_width`
/// columns.
pub fn pad_to_width(s: &str, width: usize, total_width: usize) -> (r: String)
    ensures
        r@ == padded_from(s@, width as nat, total_width as nat),
{
    let mut out = String::from_str(s);
    if width < total_width {
        let padding = total_width - width;
        let mut k: usize = 0;
        while k < padding
            invariant
                0 <= k <= padding,
                out@ == s@ + spaces(k as nat),
            decreases padding - k,
        {
            push_char(&mut out, ' ');
            assert(spaces((k + 1) as nat) == spaces(k as nat).push(' '));
            assert(s@ + spaces((k + 1) as nat) == (s@ + spaces(k as nat)).push(' '));
            k = k + 1;
        }
    }
    out
}

/// `s` padded with spaces on the right to `total_width` display columns.
pub fn pad_string(s: &str, total_width: usize) -> (r: String)
    ensures
        r@ == padded(s@, total_width as nat),
{
    pad_to_width(s, display_width(s), total_width)
}

/// Padding never cuts: the padded text starts with the text, and adds only spaces.
pub proof fn padded_extends(s: Seq<char>, total_width: nat)
    ensures
        padded(s, total_width).len() >= s.len(),
        padded(s, total_width).subrange(0, s.len() as int) == s,
        forall|i: int|
            s.len() <= i < padded(s, total_width).len() ==> #[trigger] padded(s, total_width)[i]
                == ' ',
{
    assert(padded(s, total_width).subrange(0, s.len() as int) == s);
}

/// The column headings of the listing table, each padded to its column's width.
pub open spec fn heading_texts() -> Seq<Seq<char>> {
    seq![
        padded("小区名"@, 25),
        padded("地区"@, 12),
        padded("价格每平方"@, 10),
        padded("总价"@, 12),
        padded("布局"@, 15),
        padded("楼层"@, 15),
        padded("大小"@, 6),
        padded("装修情况"@, 10),
        padded("方位"@, 6),
        padded("竣工"@, 6),
        padded("产权性质"@, 12),
        padded("物业类型"@, 12),
        padded("参考首付"@, 9),
        padded("发布公司"@, 12),
        padded("营业执照"@, 30),
        padded("数据更新时间"@, 12),
        padded("简述"@, 95),
        padded("链接"@, 60),
    ]
}

/// The column headings of the listing table, in column order (the last is the link column).
pub fn table_headings() -> (r: Vec<String>)
    ensures
        r.deep_view() == heading_texts(),
{
    let mut r: Vec<String> = Vec::new();
    r.push(pad_string("小区名", 25));
    r.push(pad_string("地区", 12));
    r.push(pad_string("价格每平方", 10));
    r.push(pad_string("总价", 12));
    r.push(pad_string("布局", 15));
    r.push(pad_string("楼层", 15));
    r.push(pad_string("大小", 6));
    r.push(pad_string("装修情况", 10));
    r.push(pad_string("方位", 6));
    r.push(pad_string("竣工", 6));
    r.push(pad_string("产权性质", 12));
    r.push(pad_string("物业类型", 12));
    r.push(pad_string("参考首付", 9));
    r.push(pad_string("发布公司", 12));
    r.push(pad_string("营业执照", 30));
    r.push(pad_string("数据更新时间", 12));
    r.push(pad_string("简述", 95));
    r.push(pad_string("链接", 60));
    assert(r.deep_view() =~= heading_texts());
    r
}

/// The cells of a listing's row, in column order; the link column is shown as a link and is
/// not among them.
pub open spec fn row_texts(h: HouseView) -> Seq<Seq<char>> {
    seq![
        padded(h.community, 22),
        padded(h.area, 12),
        padded(int_text(h.price_per_meter as int), 6) + "元/㎡ "@,
        padded(int_text(h.total_price as int), 4) + "万元 "@,
        padded(h.layout, 12),
        padded(h.floor, 15),
        padded(int_text(h.size as int), 4) + "㎡ "@,
        padded(h.decoration, 10),
        padded(h.orientation, 6),
        padded(h.time, 6),
        padded(h.property_ownership_type, 12),
        padded(h.property_type, 12),
        padded(int_text(h.reference_budget as int), 4) + "万元 "@,
        padded(h.publishing_company, 12),
        padded(h.business_license, 20),
        padded(h.update_date, 12),
        padded(h.title, 65),
    ]
}

/// Whether `a` begins with `p`.
pub open spec fn starts_with(a: Seq<char>, p: Seq<char>) -> bool {
    p.len() <= a.len() && a.subrange(0, p.len() as int) == p
}

proof fn lemma_prefix_of_extension(a: Seq<char>, u: Seq<char>, p: Seq<char>)
    requires
        starts_with(a, p),
    ensures
        starts_with(a + u, p),
{
    assert((a + u).subrange(0, p.len() as int) == a.subrange(0, p.len() as int));
}

/// Each cell of a listing's row starts with the text of the field that the heading of its
/// column names, in the column order of the headings: community, area, price per square
/// metre, total price, layout, floor, size, decoration, orientation, completion time,
/// ownership type, property type, reference budget, publishing company, business licence,
/// update date, and the title under the description heading.
pub proof fn row_cells_start_with_their_fields(h: HouseView)
    ensures
        row_texts(h).len() == 17,
        starts_with(row_texts(h)[0], h.community),
        starts_with(row_texts(h)[1], h.area),
        starts_with(row_texts(h)[2], int_text(h.price_per_meter as int)),
        starts_with(row_texts(h)[3], int_text(h.total_price as int)),
        starts_with(row_texts(h)[4], h.layout),
        starts_with(row_texts(h)[5], h.floor),
        starts_with(row_texts(h)[6], int_text(h.size as int)),
        starts_with(row_texts(h)[7], h.decoration),
        starts_with(row_texts(h)[8], h.orientation),
        starts_with(row_texts(h)[9], h.time),
        starts_with(row_texts(h)[10], h.property_ownership_type),
        starts_with(row_texts(h)[11], h.property_type),
        starts_with(row_texts(h)[12], int_text(h.reference_budget as int)),
        starts_with(row_texts(h)[13], h.publishing_company),
        starts_with(row_texts(h)[14], h.business_license),
        starts_with(row_texts(h)[15], h.update_date),
        starts_with(row_texts(h)[16], h.title),
{
    padded_extends(h.community, 22);
    padded_extends(h.area, 12);
    padded_extends(int_text(h.price_per_meter as int), 6);
    lemma_prefix_of_extension(
        padded(int_text(h.price_per_meter as int), 6),
        "元/㎡ "@,
        int_text(h.price_per_meter as int),
    );
    padded_extends(int_text(h.total_price as int), 4);
    lemma_prefix_of_extension(
        padded(int_text(h.total_price as int), 4),
        "万元 "@,
        int_text(h.total_price as int),
    );
    padded_extends(h.layout, 12);
    padded_extends(h.floor, 15);
    padded_extends(int_text(h.size as int), 4);
    lemma_prefix_of_extension(padded(int_text(h.size as int), 4), "㎡ "@, int_text(h.size as int));
    padded_extends(h.decoration, 10);
    padded_extends(h.orientation, 6);
    padded_extends(h.time, 6);
    padded_extends(h.property_ownership_type, 12);
    padded_extends(h.property_type, 12);
    padded_extends(int_text(h.reference_budget as int), 4);
    lemma_prefix_of_extension(
        padded(int_text(h.reference_budget as int), 4),
        "万元 "@,
        int_text(h.reference_budget as int),
    );
    padded_extends(h.publishing_company, 12);
    padded_extends(h.business_license, 20);
    padded_extends(h.update_date, 12);
    padded_extends(h.title, 65);
}

fn amount_cell(value: i64, width: usize, unit: &str) -> (r: String)
    ensures
        r@ == padded(int_text(value as int), width as nat) + unit@,
{
    let mut cell = pad_string(i64_text(value).as_str(), width);
    cell.append(unit);
    cell
}

/// The cells of the row that shows `house` in the listing table, in column order.
pub fn row_cells(house: &House) -> (r: Vec<String>)
    ensures
        r.deep_view() == row_texts(house@),
{
    let mut r: Vec<String> = Vec::new();
    r.push(pad_string(house.community.as_str(), 22));
    r.push(pad_string(house.area.as_str(), 12));
    r.push(amount_cell(house.price_per_meter, 6, "元/㎡ "));
    r.push(amount_cell(house.total_price, 4, "万元 "));
    r.push(pad_string(house.layout.as_str(), 12));
    r.push(pad_string(house.floor.as_str(), 15));
    r.push(amount_cell(house.size, 4, "㎡ "));
    r.push(pad_string(house.decoration.as_str(), 10));
    r.push(pad_string(house.orientation.as_str(), 6));
    r.push(pad_string(house.time.as_str(), 6));
    r.push(pad_string(house.property_ownership_type.as_str(), 12));
    r.push(pad_string(house.property_type.as_str(), 12));
    r.push(amount_cell(house.reference_budget, 4, "万元 "));
    r.push(pad_string(house.publishing_company.as_str(), 12));
    r.push(pad_string(house.business_license.as_str(), 20));
    r.push(pad_string(house.update_date.as_str(), 12));
    r.push(pad_string(house.title.as_str(), 65));
    assert(r.deep_view() =~= row_texts(house@));
    r
}

} // verus!
