use vstd::prelude::*;

use crate::text::chars_of;

verus! {

/// The plain (toneless) pinyin that `pinyin` gives the character `c`, `None` for a character
/// it has no pinyin for.
pub uninterp spec fn pinyin_plain(c: char) -> Option<Seq<char>>;

/// `pinyin::ToPinyin::to_pinyin` of one character, read with `Pinyin::plain`. The contract only
/// names the result: the pinyin table is `pinyin`'s.
#[verifier::external_body]
fn plain_pinyin(c: char) -> (r: Option<String>)
    ensures
        r.deep_view() == pinyin_plain(c),
{
    pinyin::ToPinyin::to_pinyin(&c).map(|p| p.plain().to_string())
}

/// The readings that are present among `ps`, run together.
pub open spec fn joined(ps: Seq<Option<Seq<char>>>) -> Seq<char>
    decreases ps.len(),
{
    if ps.len() == 0 {
        Seq::empty()
    } else {
        joined(ps.drop_last()) + match ps.last() {
            Some(p) => p,
            None => Seq::empty(),
        }
    }
}

/// How many of the readings `ps` are absent.
pub open spec fn absent(ps: Seq<Option<Seq<char>>>) -> nat
    decreases ps.len(),
{
    if ps.len() == 0 {
        0
    } else {
        absent(ps.drop_last()) + if ps.last() is None {
            1nat
        } else {
            0nat
        }
    }
}

/// The pinyin reading of each character of `s`.
pub open spec fn readings(s: Seq<char>) -> Seq<Option<Seq<char>>> {
    s.map_values(|c: char| pinyin_plain(c))
}

/// The pinyin of every character of `s` that has one, run together; the others are skipped.
pub open spec fn romanized(s: Seq<char>) -> Seq<char> {
    joined(readings(s))
}

/// How many characters of `s` have no pinyin.
pub open spec fn unconvertible(s: Seq<char>) -> nat {
    absent(readings(s))
}

/// The site name of a city: the plain pinyin of its name, characters without pinyin left out.
pub fn select_position(position: &str) -> (r: String)
    ensures
        r@ == romanized(position@),
{
    let (name, _) = romanize_readings(&pinyin_readings(position));
    name
}

/// How many characters of a city name have no pinyin (each one is reported to the user).
pub fn unconvertible_count(position: &str) -> (n: usize)
    ensures
        n == unconvertible(position@),
{
    let (_, n) = romanize_readings(&pinyin_readings(position));
    n
}

fn pinyin_readings(position: &str) -> (r: Vec<Option<String>>)
    ensures
        r.deep_view() == readings(position@),
{
    let cs = chars_of(position);
    let mut out: Vec<Option<String>> = Vec::new();
    let mut i: usize = 0;
    while i < cs.len()
        invariant
            0 <= i <= cs.len(),
            cs@ == position@,
            out.deep_view() == readings(cs@.take(i as int)),
        decreases cs.len() - i,
    {
        let ghost before = out.deep_view();
        let p = plain_pinyin(cs[i]);
        out.push(p);
        assert(out.deep_view() == before.push(pinyin_plain(cs@[i as int])));
        assert(readings(cs@.take(i + 1)) == readings(cs@.take(i as int)).push(
            pinyin_plain(cs@[i as int]),
        ));
        i = i + 1;
    }
    assert(cs@.take(cs.len() as int) == cs@);
    out
}

/// The present readings among `readings`, run together, and how many are absent: a city's site
/// name from the pinyin reading of each character of its name.
pub fn romanize_readings(readings: &Vec<Option<String>>) -> (r: (String, usize))
    ensures
        r.0@ == joined(readings.deep_view()),
        r.1 == absent(readings.deep_view()),
{
    let ghost ps = readings.deep_view();
    let mut out = String::new();
    let mut missing: usize = 0;
    let mut i: usize = 0;
    while i < readings.len()
        invariant
            0 <= i <= readings.len(),
            ps == readings.deep_view(),
            out@ == joined(ps.take(i as int)),
            missing == absent(ps.take(i as int)),
            missing <= i,
        decreases readings.len() - i,
    {
        assert(ps.take(i + 1).drop_last() == ps.take(i as int));
        assert(ps.take(i + 1).last() == ps[i as int]);
        assert(ps[i as int] == readings@[i as int].deep_view());
        match &readings[i] {
            Some(p) => {
                out.append(p.as_str());
            },
            None => {
                assert(out@ + Seq::<char>::empty() == out@);
                missing = missing + 1;
            },
        }
        i = i + 1;
    }
    assert(ps.take(readings.len() as int) == ps);
    (out, missing)
}

proof fn joined_concat(a: Seq<Option<Seq<char>>>, b: Seq<Option<Seq<char>>>)
    ensures
        joined(a + b) == joined(a) + joined(b),
    decreases b.len(),
{
    if b.len() == 0 {
        assert(a + b == a);
        assert(joined(a) + Seq::<char>::empty() == joined(a));
    } else {
        joined_concat(a, b.drop_last());
        assert((a + b).drop_last() == a + b.drop_last());
        assert((a + b).last() == b.last());
        let tail = match b.last() {
            Some(p) => p,
            None => Seq::<char>::empty(),
        };
        assert(joined(a) + joined(b.drop_last()) + tail == joined(a) + (joined(b.drop_last())
            + tail));
    }
}

/// Romanizing a name part by part gives the romanization of the whole name.
pub proof fn romanized_concat(a: Seq<char>, b: Seq<char>)
    ensures
        romanized(a + b) == romanized(a) + romanized(b),
{
    assert(readings(a + b) == readings(a) + readings(b));
    joined_concat(readings(a), readings(b));
}

} // verus!
