use vstd::prelude::*;
use vstd::string::*;

use crate::settings::split_on;
use crate::text::{trim_text, trimmed};

verus! {

pub open spec fn is_ascii_digit(c: char) -> bool {
    '0' <= c <= '9'
}

/// The number that a string of decimal digits denotes.
pub open spec fn digits_value(s: Seq<char>) -> int
    decreases s.len(),
{
    if s.len() == 0 {
        0
    } else {
        digits_value(s.drop_last()) * 10 + (s.last() as int - 48)
    }
}

/// `s` without its leading `+` or `-`, if it has one.
pub open spec fn unsigned_part(s: Seq<char>) -> Seq<char> {
    if s.len() > 0 && (s[0] == '-' || s[0] == '+') {
        s.drop_first()
    } else {
        s
    }
}

/// What `i32::from_str` accepts: an optional `+` or `-`, then one or more ASCII digits,
/// denoting a value in the range of `i32`.
pub open spec fn spec_parse_i32(s: Seq<char>) -> Option<i32> {
    let digits = unsigned_part(s);
    let magnitude = digits_value(digits);
    let value = if s.len() > 0 && s[0] == '-' { -magnitude } else { magnitude };
    if digits.len() == 0 || !(forall|i: int| 0 <= i < digits.len() ==> is_ascii_digit(#[trigger] digits[i])) {
        None
    } else if i32::MIN <= value <= i32::MAX {
        Some(value as i32)
    } else {
        None
    }
}

/// Appending a digit multiplies the value by ten and adds the digit.
proof fn lemma_digits_value_step(s: Seq<char>, i: int)
    requires
        0 <= i < s.len(),
    ensures
        digits_value(s.take(i + 1)) == digits_value(s.take(i)) * 10 + (s[i] as int - 48),
{
    assert(s.take(i + 1).drop_last() =~= s.take(i));
}

/// Further digits never make the value smaller.
proof fn lemma_digits_value_grows(s: Seq<char>, i: int, j: int)
    requires
        0 <= i <= j <= s.len(),
        forall|k: int| 0 <= k < s.len() ==> is_ascii_digit(#[trigger] s[k]),
    ensures
        digits_value(s.take(j)) >= digits_value(s.take(i)),
    decreases j - i,
{
    if i < j {
        lemma_digits_value_grows(s, i, j - 1);
        lemma_digits_value_step(s, j - 1);
        assert(digits_value(s.take(j - 1)) >= 0) by {
            lemma_digits_value_nonnegative(s.take(j - 1));
        }
    }
}

proof fn lemma_digits_value_nonnegative(s: Seq<char>)
    requires
        forall|k: int| 0 <= k < s.len() ==> is_ascii_digit(#[trigger] s[k]),
    ensures
        digits_value(s) >= 0,
    decreases s.len(),
{
    if s.len() > 0 {
        lemma_digits_value_nonnegative(s.drop_last());
    }
}

/// The value of `text` if it is a decimal `i32`, as `str::parse::<i32>` reads it: an
/// optional sign, then one or more digits.
fn parse_i32(text: &str) -> (r: Option<i32>)
    ensures
        r == spec_parse_i32(text@),
{
    let n = text.unicode_len();
    if n == 0 {
        return None;
    }
    let first = text.get_char(0);
    let negative = first == '-';
    let start: usize = if first == '-' || first == '+' {
        1
    } else {
        0
    };
    let ghost digits = unsigned_part(text@);
    if start == n {
        return None;
    }
    let mut magnitude: i64 = 0;
    let mut i: usize = start;
    assert(digits.take(0) =~= Seq::<char>::empty());
    while i < n
        invariant
            n == text@.len(),
            start <= i <= n,
            start == 0 || start == 1,
            n > 0,
            start == 1 <==> (text@[0] == '-' || text@[0] == '+'),
            negative == (text@[0] == '-'),
            digits == unsigned_part(text@),
            digits.len() == n - start,
            forall|k: int| 0 <= k < digits.len() ==> digits[k] == text@[k + start],
            forall|k: int| 0 <= k < i - start ==> is_ascii_digit(#[trigger] digits[k]),
            magnitude == digits_value(digits.take(i - start)),
            0 <= magnitude <= 2147483648,
        decreases n - i,
    {
        let c = text.get_char(i);
        if !('0' <= c && c <= '9') {
            assert(!is_ascii_digit(digits[i - start]));
            assert(!(forall|k: int| 0 <= k < digits.len() ==> is_ascii_digit(#[trigger] digits[k])));
            return None;
        }
        proof {
            lemma_digits_value_step(digits, i - start);
        }
        let digit = (c as u32 - 48) as i64;
        let next = magnitude * 10 + digit;
        if next > 2147483648 {
            proof {
                if forall|k: int| 0 <= k < digits.len() ==> is_ascii_digit(#[trigger] digits[k]) {
                    lemma_digits_value_grows(digits, i - start + 1, digits.len() as int);
                    assert(digits.take(digits.len() as int) =~= digits);
                    assert(digits_value(digits) > 2147483648);
                    assert(spec_parse_i32(text@) is None);
                } else {
                    assert(spec_parse_i32(text@) is None);
                }
            }
            return None;
        }
        magnitude = next;
        i = i + 1;
    }
    assert(digits.take(digits.len() as int) =~= digits);
    let value: i64 = if negative {
        -magnitude
    } else {
        magnitude
    };
    if value > 2147483647 {
        None
    } else {
        Some(value as i32)
    }
}

/// The numbers among the parts, each trimmed; parts that are no number are skipped.
pub open spec fn parsed_numbers(parts: Seq<Seq<char>>) -> Seq<i32>
    decreases parts.len(),
{
    if parts.len() == 0 {
        Seq::empty()
    } else {
        let rest = parsed_numbers(parts.drop_last());
        match spec_parse_i32(trimmed(parts.last())) {
            Some(v) => rest.push(v),
            None => rest,
        }
    }
}

/// The capture region `x,y,width,height` of the command-line test mode: the numbers among the
/// comma-separated parts must be exactly four.
pub open spec fn spec_parse_region(region: Seq<char>) -> Option<(i32, i32, i32, i32)> {
    let values = parsed_numbers(split_on(region, ','));
    if values.len() == 4 {
        Some((values[0], values[1], values[2], values[3]))
    } else {
        None
    }
}

fn push_number(values: &mut Vec<i32>, raw: &str)
    ensures
        final(values)@ == (match spec_parse_i32(trimmed(raw@)) {
            Some(v) => old(values)@.push(v),
            None => old(values)@,
        }),
{
    if let Some(v) = parse_i32(trim_text(raw)) {
        values.push(v);
    }
}

/// Reads the region `x,y,width,height` given to the command-line test mode.
pub fn parse_region(region: &str) -> (r: Option<(i32, i32, i32, i32)>)
    ensures
        r == spec_parse_region(region@),
{
    let n = region.unicode_len();
    let mut values: Vec<i32> = Vec::new();
    let mut start: usize = 0;
    let mut i: usize = 0;
    let ghost mut done: Seq<Seq<char>> = Seq::empty();
    assert(region@.take(0) =~= Seq::<char>::empty());
    assert(region@.subrange(0, 0) =~= Seq::<char>::empty());
    while i < n
        invariant
            n == region@.len(),
            start <= i <= n,
            split_on(region@.take(i as int), ',') == done.push(region@.subrange(start as int, i as int)),
            values@ == parsed_numbers(done),
        decreases n - i,
    {
        let c = region.get_char(i);
        let ghost prefix = region@.take(i as int + 1);
        assert(prefix.drop_last() =~= region@.take(i as int));
        assert(prefix.last() == c);
        if c == ',' {
            let segment = region.substring_char(start, i);
            push_number(&mut values, segment);
            proof {
                let finished = done.push(region@.subrange(start as int, i as int));
                assert(finished.drop_last() =~= done);
                done = finished;
                assert(region@.subrange(i as int + 1, i as int + 1) =~= Seq::<char>::empty());
            }
            start = i + 1;
        } else {
            proof {
                let parts = split_on(region@.take(i as int), ',');
                assert(region@.subrange(start as int, i as int + 1) =~= region@.subrange(
                    start as int,
                    i as int,
                ).push(c));
                assert(parts.update(parts.len() - 1, parts.last().push(c)) =~= done.push(
                    region@.subrange(start as int, i as int + 1),
                ));
            }
        }
        i = i + 1;
    }
    let segment = region.substring_char(start, n);
    push_number(&mut values, segment);
    proof {
        assert(region@.take(n as int) =~= region@);
        let all = done.push(region@.subrange(start as int, n as int));
        assert(all.drop_last() =~= done);
    }
    if values.len() == 4 {
        Some((values[0], values[1], values[2], values[3]))
    } else {
        None
    }
}

/// The image format a screenshot is saved in.
#[derive(Debug, Clone, Copy, PartialEq, Eq, Structural)]
pub enum SaveFormat {
    Png,
    Jpeg,
}

/// `jpg` and `jpeg` files are saved as JPEG; everything else as PNG.
pub fn save_format_for_extension(extension: Option<&str>) -> (f: SaveFormat)
    ensures
        f == (if extension matches Some(e) && (e@ == "jpg"@ || e@ == "jpeg"@) {
            SaveFormat::Jpeg
        } else {
            SaveFormat::Png
        }),
{
    match extension {
        Some(e) => if crate::text::text_eq(e, "jpg") || crate::text::text_eq(e, "jpeg") {
            SaveFormat::Jpeg
        } else {
            SaveFormat::Png
        },
        None => SaveFormat::Png,
    }
}

} // verus!
