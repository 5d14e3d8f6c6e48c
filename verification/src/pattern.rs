use vstd::prelude::*;

use crate::text::chars_of;

verus! {

// ---------------------------------------------------------------------------
// Regular expressions
// ---------------------------------------------------------------------------

/// What `regex` finds of `pattern` in `text`: `None` when `pattern` does not compile; otherwise,
/// for every successive non-overlapping match, the text of each capture group, group 0 (the
/// whole match) first, `None` for a group that took no part in the match.
pub uninterp spec fn regex_captures(pattern: Seq<char>, text: Seq<char>) -> Option<
    Seq<Seq<Option<Seq<char>>>>,
>;

/// Compiles `pattern` with `regex::Regex::new` and walks `Regex::captures_iter` over `text`,
/// turning each `Captures` into the list of its groups (`Captures::iter`). The contract only
/// names the result: what a regular expression matches is `regex`'s to say.
#[verifier::external_body]
pub(crate) fn captures_all(pattern: &str, text: &str) -> (r: Option<Vec<Vec<Option<String>>>>)
    ensures
        r.deep_view() == regex_captures(pattern@, text@),
{
    let re = regex::Regex::new(pattern).ok()?;
    Some(
        re.captures_iter(text).map(
            |caps| caps.iter().map(|m| m.map(|m| m.as_str().to_string())).collect(),
        ).collect(),
    )
}

/// The text of group 0 (the whole match) of one capture.
pub open spec fn whole_match(cap: Seq<Option<Seq<char>>>) -> Option<Seq<char>> {
    if cap.len() > 0 {
        cap[0]
    } else {
        None
    }
}

/// The first match, if the pattern compiled and matched at all.
pub open spec fn first_match(caps: Option<Seq<Seq<Option<Seq<char>>>>>) -> Option<Seq<char>> {
    match caps {
        Some(cs) => if cs.len() > 0 {
            whole_match(cs[0])
        } else {
            None
        },
        None => None,
    }
}

fn whole_match_of(cap: &Vec<Option<String>>) -> (r: Option<String>)
    ensures
        r.deep_view() == whole_match(cap.deep_view()),
{
    if cap.len() > 0 {
        match &cap[0] {
            Some(m) => Some(m.clone()),
            None => None,
        }
    } else {
        None
    }
}

// ---------------------------------------------------------------------------
// Dates
// ---------------------------------------------------------------------------

/// A date written `YYYY-MM-DD`, nothing before or after it.
pub const DATE_PATTERN: &'static str = "^\\d{4}-\\d{2}-\\d{2}$";

/// Whether `DATE_PATTERN` matches `s`.
pub open spec fn date_like(s: Seq<char>) -> bool {
    matched(regex_captures(DATE_PATTERN@, s))
}

/// Whether a pattern compiled and matched at least once, given what it found.
pub open spec fn matched(caps: Option<Seq<Seq<Option<Seq<char>>>>>) -> bool {
    match caps {
        Some(cs) => cs.len() > 0,
        None => false,
    }
}

/// Whether a pattern compiled and matched at least once, given what `regex` found.
pub fn any_match(caps: &Option<Vec<Vec<Option<String>>>>) -> (b: bool)
    ensures
        b == matched(caps.deep_view()),
{
    match caps {
        Some(cs) => cs.len() > 0,
        None => false,
    }
}

/// Whether `date` is a date written `YYYY-MM-DD` (digits in the regular expression sense).
pub fn is_valid_date(date: &str) -> (b: bool)
    ensures
        b == date_like(date@),
{
    any_match(&captures_all(DATE_PATTERN, date))
}

// ---------------------------------------------------------------------------
// Numbers written in listing texts
// ---------------------------------------------------------------------------

pub open spec fn is_ascii_digit(c: char) -> bool {
    '0' <= c <= '9'
}

pub open spec fn digit_value(c: char) -> int {
    c as int - '0' as int
}

/// The value of a run of ASCII digits (0 for the empty run).
pub open spec fn digits_value(s: Seq<char>) -> int
    decreases s.len(),
{
    if s.len() == 0 {
        0
    } else {
        digits_value(s.drop_last()) * 10 + digit_value(s.last())
    }
}

/// Number of leading ASCII digits of `s`.
pub open spec fn leading_digits(s: Seq<char>) -> int
    decreases s.len(),
{
    if s.len() > 0 && is_ascii_digit(s[0]) {
        1 + leading_digits(s.drop_first())
    } else {
        0
    }
}

/// A text of ASCII digits with at most one decimal point and at least one digit: among texts
/// made of digits and points, exactly those that `f64`'s parser reads as a number.
pub open spec fn is_decimal_text(s: Seq<char>) -> bool {
    &&& forall|i: int| 0 <= i < s.len() ==> is_ascii_digit(#[trigger] s[i]) || s[i] == '.'
    &&& forall|i: int, j: int| 0 <= i < j < s.len() && s[i] == '.' ==> s[j] != '.'
    &&& exists|i: int| 0 <= i < s.len() && is_ascii_digit(#[trigger] s[i])
}

/// The integer part of a decimal text, capped at `i64::MAX`. For texts of at most 15
/// significant digits this is what reading the text as a 64-bit float and converting that to
/// `i64` gives; longer texts can be rounded by the float to a neighbouring integer, which this
/// value does not follow.
pub open spec fn capped_integer_part(s: Seq<char>) -> int {
    let v = digits_value(s.take(leading_digits(s)));
    if v > i64::MAX {
        i64::MAX as int
    } else {
        v
    }
}

/// The number a text stands for: its capped integer part when it is a decimal text.
pub open spec fn decimal_value(s: Seq<char>) -> Option<int> {
    if is_decimal_text(s) {
        Some(capped_integer_part(s))
    } else {
        None
    }
}

proof fn lemma_digits_value_nonneg(s: Seq<char>)
    requires
        forall|i: int| 0 <= i < s.len() ==> is_ascii_digit(#[trigger] s[i]),
    ensures
        digits_value(s) >= 0,
    decreases s.len(),
{
    if s.len() > 0 {
        let t = s.drop_last();
        assert forall|i: int| 0 <= i < t.len() implies is_ascii_digit(#[trigger] t[i]) by {
            assert(t[i] == s[i]);
        }
        lemma_digits_value_nonneg(t);
        assert(is_ascii_digit(s[s.len() - 1]));
    }
}

proof fn lemma_leading_digits(s: Seq<char>, k: int)
    requires
        0 <= k <= s.len(),
        forall|i: int| 0 <= i < k ==> is_ascii_digit(#[trigger] s[i]),
        k == s.len() || !is_ascii_digit(s[k]),
    ensures
        leading_digits(s) == k,
    decreases k,
{
    if k > 0 {
        let t = s.drop_first();
        assert forall|i: int| 0 <= i < k - 1 implies is_ascii_digit(#[trigger] t[i]) by {
            assert(t[i] == s[i + 1]);
        }
        assert(is_ascii_digit(s[0]));
        lemma_leading_digits(t, k - 1);
    }
}

/// A number written with a fractional part reads as its integer part: for a non-empty run of
/// digits `a` and a run of digits `b`, `a` and `a.b` read alike, both as the value of `a`
/// (capped at `i64::MAX`).
pub proof fn fraction_is_dropped(a: Seq<char>, b: Seq<char>)
    requires
        a.len() > 0,
        forall|i: int| 0 <= i < a.len() ==> is_ascii_digit(#[trigger] a[i]),
        forall|i: int| 0 <= i < b.len() ==> is_ascii_digit(#[trigger] b[i]),
    ensures
        decimal_value(a) == Some(
            if digits_value(a) > i64::MAX {
                i64::MAX as int
            } else {
                digits_value(a)
            },
        ),
        decimal_value(a + "."@ + b) == decimal_value(a),
{
    reveal_strlit(".");
    let s = a + "."@ + b;
    assert(s.len() == a.len() + 1 + b.len());
    assert forall|i: int| 0 <= i < s.len() implies is_ascii_digit(#[trigger] s[i]) || s[i] == '.' by {
        if i < a.len() {
            assert(s[i] == a[i]);
        } else if i > a.len() {
            assert(s[i] == b[i - a.len() - 1]);
        }
    }
    assert forall|i: int, j: int| 0 <= i < j < s.len() && s[i] == '.' implies s[j] != '.' by {
        if i < a.len() {
            assert(s[i] == a[i]);
        } else if i > a.len() {
            assert(s[i] == b[i - a.len() - 1]);
        }
        assert(i == a.len());
        assert(s[j] == b[j - a.len() - 1]);
    }
    assert(s[0] == a[0] && is_ascii_digit(s[0]));
    assert(is_decimal_text(s));
    assert forall|i: int| 0 <= i < a.len() implies is_ascii_digit(#[trigger] s[i]) by {
        assert(s[i] == a[i]);
    }
    assert(s[a.len() as int] == '.');
    lemma_leading_digits(s, a.len() as int);
    assert(s.take(a.len() as int) == a);
    assert(is_ascii_digit(a[0]));
    assert(is_decimal_text(a));
    lemma_leading_digits(a, a.len() as int);
    assert(a.take(a.len() as int) == a);
}

/// The capped integer part of the decimal text `s`, or `None` when `s` is not one.
pub fn decimal_value_of(s: &Vec<char>) -> (r: Option<i64>)
    ensures
        r matches Some(v) ==> decimal_value(s@) == Some(v as int),
        r is None ==> decimal_value(s@) is None,
{
    let n = s.len();
    // Is it a decimal text at all?
    let mut i: usize = 0;
    let mut seen_point = false;
    let mut seen_digit = false;
    let mut ok = true;
    while i < n
        invariant
            0 <= i <= n == s.len(),
            ok ==> forall|k: int| 0 <= k < i ==> is_ascii_digit(#[trigger] s@[k]) || s@[k] == '.',
            ok ==> forall|a: int, b: int| 0 <= a < b < i && s@[a] == '.' ==> s@[b] != '.',
            ok ==> (seen_point <==> exists|k: int| 0 <= k < i && #[trigger] s@[k] == '.'),
            seen_digit <==> exists|k: int| 0 <= k < i && is_ascii_digit(#[trigger] s@[k]),
            !ok ==> !is_decimal_text(s@),
        decreases n - i,
    {
        let c = s[i];
        if '0' <= c && c <= '9' {
            seen_digit = true;
            assert(is_ascii_digit(s@[i as int]));
        } else if c == '.' && ok {
            if seen_point {
                let ghost a = choose|k: int| 0 <= k < i && #[trigger] s@[k] == '.';
                assert(0 <= a < i && s@[a] == '.' && s@[i as int] == '.');
                ok = false;
            }
            seen_point = true;
        } else if c != '.' {
            assert(!(is_ascii_digit(s@[i as int]) || s@[i as int] == '.'));
            ok = false;
        }
        i = i + 1;
    }
    if !ok || !seen_digit {
        return None;
    }
    // Its integer part: the leading digits.
    let mut j: usize = 0;
    let mut acc: i64 = 0;
    while j < n && '0' <= s[j] && s[j] <= '9'
        invariant
            0 <= j <= n == s.len(),
            forall|k: int| 0 <= k < j ==> is_ascii_digit(#[trigger] s@[k]),
            acc as int == (if digits_value(s@.take(j as int)) > i64::MAX {
                i64::MAX as int
            } else {
                digits_value(s@.take(j as int))
            }),
        decreases n - j,
    {
        let d = (s[j] as u32 - '0' as u32) as i64;
        let ghost before = s@.take(j as int);
        let ghost after = s@.take(j + 1);
        proof {
            assert(after.drop_last() == before);
            assert(after.last() == s@[j as int]);
            assert forall|k: int| 0 <= k < before.len() implies is_ascii_digit(#[trigger] before[k]) by {
                assert(before[k] == s@[k]);
            }
            lemma_digits_value_nonneg(before);
            assert(digits_value(after) == digits_value(before) * 10 + d);
        }
        if acc == i64::MAX || acc > (i64::MAX - d) / 10 {
            proof {
                let v = digits_value(before);
                if acc == i64::MAX {
                    assert(v >= i64::MAX);
                    assert(v * 10 + d >= i64::MAX) by (nonlinear_arith)
                        requires
                            v >= i64::MAX,
                            d >= 0,
                    ;
                } else {
                    assert(v * 10 + d > i64::MAX) by (nonlinear_arith)
                        requires
                            v > (i64::MAX - d) / 10,
                            0 <= d <= 9,
                    ;
                }
            }
            acc = i64::MAX;
        } else {
            proof {
                let v = acc as int;
                assert(v * 10 + d <= i64::MAX) by (nonlinear_arith)
                    requires
                        0 <= v <= (i64::MAX - d) / 10,
                        0 <= d <= 9,
                ;
            }
            acc = acc * 10 + d;
        }
        j = j + 1;
    }
    proof {
        lemma_leading_digits(s@, j as int);
    }
    Some(acc)
}

/// A run of digits and points.
pub const NUMBER_PATTERN: &'static str = "[\\d\\.]+";

/// The first match among `caps`, read as a number; 0 when there is none or it is not a number.
pub open spec fn number_from(caps: Option<Seq<Seq<Option<Seq<char>>>>>) -> int {
    match first_match(caps) {
        Some(m) => match decimal_value(m) {
            Some(v) => v,
            None => 0,
        },
        None => 0,
    }
}

/// The first run of digits and points in `input`, read as a number; 0 when there is none or
/// it is not a number.
pub open spec fn leading_number(input: Seq<char>) -> int {
    number_from(regex_captures(NUMBER_PATTERN@, input))
}

/// The first match that `regex` found, read as a number (its integer part); 0 when there is
/// none or it does not read as a number.
pub fn number_in(caps: &Option<Vec<Vec<Option<String>>>>) -> (r: i64)
    ensures
        r as int == number_from(caps.deep_view()),
{
    let m = match caps {
        Some(cs) => if cs.len() > 0 {
            assert(cs.deep_view()[0] == cs@[0].deep_view());
            whole_match_of(&cs[0])
        } else {
            None
        },
        None => None,
    };
    match m {
        Some(text) => {
            let cs = chars_of(text.as_str());
            match decimal_value_of(&cs) {
                Some(v) => v,
                None => 0,
            }
        },
        None => 0,
    }
}

/// The first number written in `input` (its integer part), 0 when none can be read.
pub fn extract_number(input: &str) -> (r: i64)
    ensures
        r as int == leading_number(input@),
{
    number_in(&captures_all(NUMBER_PATTERN, input))
}

/// Digits, optionally followed by a point and more digits.
pub const AMOUNT_PATTERN: &'static str = "(\\d+\\.?\\d*)";

/// The value of the first match in `caps` that reads as a number.
pub open spec fn first_number(caps: Seq<Seq<Option<Seq<char>>>>) -> Option<int>
    decreases caps.len(),
{
    if caps.len() == 0 {
        None
    } else {
        match whole_match(caps[0]) {
            Some(m) => match decimal_value(m) {
                Some(v) => Some(v),
                None => first_number(caps.drop_first()),
            },
            None => first_number(caps.drop_first()),
        }
    }
}

/// What one match of a pattern reads as: its whole match as a number, if it is one.
pub open spec fn match_value(c: Seq<Option<Seq<char>>>) -> Option<int> {
    match whole_match(c) {
        Some(m) => decimal_value(m),
        None => None,
    }
}

/// The amount read from the matches `caps` is the value of the first match that reads as a
/// number, whatever the matches after it read: when match `i` reads as `v` and none before it
/// reads as a number, the amount is `v`; and there is no amount exactly when no match reads as
/// a number.
pub proof fn first_number_is_first_reading(caps: Seq<Seq<Option<Seq<char>>>>)
    ensures
        first_number(caps) is None <==> forall|i: int|
            0 <= i < caps.len() ==> #[trigger] match_value(caps[i]) is None,
        forall|i: int|
            0 <= i < caps.len() && #[trigger] match_value(caps[i]) is Some && (forall|j: int|
                0 <= j < i ==> #[trigger] match_value(caps[j]) is None) ==> first_number(caps)
                == match_value(caps[i]),
        first_number(caps) is Some ==> exists|i: int|
            0 <= i < caps.len() && #[trigger] match_value(caps[i]) == first_number(caps),
    decreases caps.len(),
{
    if caps.len() > 0 {
        let rest = caps.drop_first();
        first_number_is_first_reading(rest);
        assert forall|i: int| 0 < i < caps.len() implies #[trigger] match_value(caps[i]) == match_value(
            rest[i - 1],
        ) by {
            assert(caps[i] == rest[i - 1]);
        }
        if match_value(caps[0]) is Some {
            assert(first_number(caps) == match_value(caps[0]));
            assert forall|i: int|
                0 <= i < caps.len() && #[trigger] match_value(caps[i]) is Some && (forall|j: int|
                    0 <= j < i ==> #[trigger] match_value(caps[j]) is None) implies first_number(caps)
                == match_value(caps[i]) by {
                if i > 0 {
                    assert(match_value(caps[0]) is None);
                }
            }
        } else {
            assert(first_number(caps) == first_number(rest));
            if first_number(caps) is None {
                assert forall|i: int| 0 <= i < caps.len() implies #[trigger] match_value(
                    caps[i],
                ) is None by {
                    if i > 0 {
                        assert(match_value(rest[i - 1]) is None);
                    }
                }
            } else {
                let k = choose|k: int| 0 <= k < rest.len() && #[trigger] match_value(rest[k]) == first_number(
                    rest,
                );
                assert(match_value(caps[k + 1]) == first_number(caps));
            }
            assert forall|i: int|
                0 <= i < caps.len() && #[trigger] match_value(caps[i]) is Some && (forall|j: int|
                    0 <= j < i ==> #[trigger] match_value(caps[j]) is None) implies first_number(caps)
                == match_value(caps[i]) by {
                assert(i > 0);
                assert forall|j: int| 0 <= j < i - 1 implies #[trigger] match_value(rest[j]) is None by {
                    assert(match_value(caps[j + 1]) is None);
                }
                assert(match_value(rest[i - 1]) is Some);
            }
        }
    }
}

/// The value of the first match that reads as a number, given what a pattern found.
pub open spec fn amount_from(caps: Option<Seq<Seq<Option<Seq<char>>>>>) -> Option<int> {
    match caps {
        Some(cs) => first_number(cs),
        None => None,
    }
}

/// The first amount written in `input` that reads as a number, if any.
pub open spec fn first_amount(input: Seq<char>) -> Option<int> {
    amount_from(regex_captures(AMOUNT_PATTERN@, input))
}

/// The amount read from a text is the value of the first match of the amount pattern that
/// reads as a number, whatever numbers follow it; there is none exactly when the pattern finds
/// nothing or no match reads as a number.
pub proof fn first_amount_is_first_reading(input: Seq<char>)
    ensures
        match regex_captures(AMOUNT_PATTERN@, input) {
            None => first_amount(input) is None,
            Some(cs) => {
                &&& (first_amount(input) is None <==> forall|i: int|
                    0 <= i < cs.len() ==> #[trigger] match_value(cs[i]) is None)
                &&& forall|i: int|
                    0 <= i < cs.len() && #[trigger] match_value(cs[i]) is Some && (forall|j: int|
                        0 <= j < i ==> #[trigger] match_value(cs[j]) is None) ==> first_amount(input)
                        == match_value(cs[i])
            },
        },
{
    match regex_captures(AMOUNT_PATTERN@, input) {
        None => {},
        Some(cs) => {
            first_number_is_first_reading(cs);
        },
    }
}

/// The first match that `regex` found that reads as a number (its integer part), `None` when
/// there is none.
pub fn amount_in(caps: &Option<Vec<Vec<Option<String>>>>) -> (r: Option<i64>)
    ensures
        r matches Some(v) ==> amount_from(caps.deep_view()) == Some(v as int),
        r is None ==> amount_from(caps.deep_view()) is None,
{
    match caps {
        None => None,
        Some(cs) => {
            let ghost all = cs.deep_view();
            assert(all.skip(0) == all);
            let mut i: usize = 0;
            while i < cs.len()
                invariant
                    0 <= i <= cs.len(),
                    all == cs.deep_view(),
                    caps.deep_view() == Some(all),
                    first_number(all) == first_number(all.skip(i as int)),
                decreases cs.len() - i,
            {
                let ghost rest = all.skip(i as int);
                proof {
                    assert(rest[0] == all[i as int]);
                    assert(all[i as int] == cs@[i as int].deep_view());
                    assert(rest.drop_first() == all.skip(i + 1));
                }
                match whole_match_of(&cs[i]) {
                    Some(m) => {
                        let chars = chars_of(m.as_str());
                        match decimal_value_of(&chars) {
                            Some(v) => {
                                assert(whole_match(rest[0]) == Some(m@));
                                assert(first_number(rest) == Some(v as int));
                                return Some(v);
                            },
                            None => {},
                        }
                    },
                    None => {},
                }
                i = i + 1;
            }
            assert(all.skip(cs.len() as int).len() == 0);
            None
        },
    }
}

/// The first amount written in `input` that reads as a number (its integer part), `None` when
/// there is none.
pub fn first_amount_of(input: &str) -> (r: Option<i64>)
    ensures
        r matches Some(v) ==> first_amount(input@) == Some(v as int),
        r is None ==> first_amount(input@) is None,
{
    amount_in(&captures_all(AMOUNT_PATTERN, input))
}

/// The first amount written in `input` that reads as a number (its integer part).
pub fn extract_number2(input: &str) -> (r: i64)
    requires
        first_amount(input@) is Some,
    ensures
        first_amount(input@) == Some(r as int),
{
    match first_amount_of(input) {
        Some(v) => v,
        None => 0,
    }
}

} // verus!
