//! Reading the year, month and day out of a date written `YYYY-MM-DD`, to
//! show it in a calendar.
use vstd::prelude::*;

use crate::column::ColumnTypeValue;

verus! {

/// What `str::parse::<i32>` makes of a text: the number, or none when the
/// text is no decimal number in range.
pub uninterp spec fn i32_parsed(s: Seq<char>) -> Option<i32>;

/// Relies on `str::parse::<i32>`: the result depends on the characters
/// alone, and an empty text is no number.
#[verifier::external_body]
fn parse_i32(s: &str) -> (r: Option<i32>)
    ensures
        r == i32_parsed(s@),
        s@.len() == 0 ==> r is None,
{
    s.parse::<i32>().ok()
}

/// The position of the first `-` at or after `from`, or the length of `s`
/// when there is none.
pub open spec fn next_dash(s: Seq<char>, from: int) -> int
    decreases s.len() - from,
{
    if from >= s.len() || from < 0 {
        s.len() as int
    } else if s[from] == '-' {
        from
    } else {
        next_dash(s, from + 1)
    }
}

/// The first three `-`-separated fields of `s`, read as numbers: none when
/// there are fewer than three fields or one of them is no number.
pub open spec fn date_fields_spec(s: Seq<char>) -> Option<(i32, i32, i32)> {
    let a = next_dash(s, 0);
    let b = next_dash(s, a + 1);
    let c = next_dash(s, b + 1);
    if a >= s.len() || b >= s.len() {
        None
    } else {
        match (
            i32_parsed(s.subrange(0, a)),
            i32_parsed(s.subrange(a + 1, b)),
            i32_parsed(s.subrange(b + 1, c)),
        ) {
            (Some(y), Some(m), Some(d)) => Some((y, m, d)),
            _ => None,
        }
    }
}

/// The position of the first `-` at or after `from`.
fn find_dash(s: &str, from: usize) -> (r: usize)
    requires
        from <= s@.len(),
    ensures
        r == next_dash(s@, from as int),
        from <= r <= s@.len(),
{
    let n = s.unicode_len();
    let mut i = from;
    while i < n
        invariant
            n == s@.len(),
            from <= i <= n,
            next_dash(s@, from as int) == next_dash(s@, i as int),
        decreases n - i,
    {
        if s.get_char(i) == '-' {
            return i;
        }
        i = i + 1;
    }
    i
}

/// The year, month and day of a date written `YYYY-MM-DD`; more fields are
/// ignored.
pub fn date_fields(date: &str) -> (r: Option<(i32, i32, i32)>)
    ensures
        r == date_fields_spec(date@),
{
    let n = date.unicode_len();
    let a = find_dash(date, 0);
    if a >= n {
        return None;
    }
    let b = find_dash(date, a + 1);
    if b >= n {
        return None;
    }
    let c = find_dash(date, b + 1);
    let year = parse_i32(date.substring_char(0, a));
    let month = parse_i32(date.substring_char(a + 1, b));
    let day = parse_i32(date.substring_char(b + 1, c));
    match (year, month, day) {
        (Some(y), Some(m), Some(d)) => Some((y, m, d)),
        _ => None,
    }
}

impl ColumnTypeValue {
    /// Where a calendar shows a date value: its year, its month counted
    /// from zero, and its day. None for a value that is no date, or a date
    /// that cannot be read.
    pub fn calendar_date(&self) -> (r: Option<(i32, i32, i32)>)
        ensures
            r == (match self {
                ColumnTypeValue::Date(d) => match date_fields_spec(d@) {
                    Some((y, m, day)) => if m > i32::MIN {
                        Some((y, (m - 1) as i32, day))
                    } else {
                        None
                    },
                    None => None,
                },
                _ => None,
            }),
    {
        match self {
            ColumnTypeValue::Date(d) => match date_fields(d.as_str()) {
                Some((y, m, day)) => if m > i32::MIN {
                    Some((y, m - 1, day))
                } else {
                    None
                },
                None => None,
            },
            _ => None,
        }
    }
}

} // verus!
