//! A number field with a step-up and a step-down button, held between a minimum and a
//! maximum.
use vstd::prelude::*;

verus! {

/// The bounds of a number field.
pub struct NumberInput {
    pub max: i32,
    pub min: i32,
}

/// `c` is an ASCII decimal digit.
pub open spec fn is_digit(c: char) -> bool {
    '0' <= c && c <= '9'
}

/// The value of a string of decimal digits.
pub open spec fn digits_value(s: Seq<char>) -> int
    decreases s.len(),
{
    if s.len() == 0 {
        0
    } else {
        digits_value(s.drop_last()) * 10 + ((s.last() as int) - ('0' as int))
    }
}

/// What `str::parse::<i32>` gives: an optional `+` or `-`, then one or more decimal digits,
/// whose value fits in an `i32`; anything else is an error (`None`).
pub open spec fn decimal_i32(s: Seq<char>) -> Option<i32> {
    let signed = s.len() > 0 && (s[0] == '-' || s[0] == '+');
    let negative = s.len() > 0 && s[0] == '-';
    let body = if signed { s.skip(1) } else { s };
    if body.len() > 0 && forall|i: int| 0 <= i < body.len() ==> is_digit(#[trigger] body[i]) {
        let v = if negative { -digits_value(body) } else { digits_value(body) };
        if i32::MIN <= v && v <= i32::MAX {
            Some(v as i32)
        } else {
            None
        }
    } else {
        None
    }
}

/// `str::parse::<i32>`, as its documentation describes it.
#[verifier::external_body]
fn parse_i32(s: &str) -> (r: Option<i32>)
    ensures
        r == decimal_i32(s@),
{
    s.parse::<i32>().ok()
}

/// The decimal digit for `d`, which is below 10.
pub open spec fn digit_char(d: nat) -> char {
    (('0' as int) + d) as char
}

/// The decimal digits of `n`, most significant first, with no leading zero.
pub open spec fn digits_of(n: nat) -> Seq<char>
    decreases n,
{
    if n < 10 {
        seq![digit_char(n)]
    } else {
        digits_of(n / 10).push(digit_char(n % 10))
    }
}

/// The text that `i32::to_string` makes of `v`: its decimal digits, after a `-` when it is
/// negative.
pub open spec fn decimal_text(v: int) -> Seq<char> {
    if v < 0 {
        seq!['-'] + digits_of((-v) as nat)
    } else {
        digits_of(v as nat)
    }
}

/// `i32::to_string`: the decimal form of `v` (see `decimal_text`).
#[verifier::external_body]
fn i32_to_string(v: i32) -> (r: String)
    ensures
        r@ == decimal_text(v as int),
{
    v.to_string()
}

/// `v` held at most `max`, then at least `min` (so `min` wins when the bounds cross).
pub open spec fn clamp_spec(v: i32, min: i32, max: i32) -> i32 {
    let upper = if v < max { v } else { max };
    if upper > min { upper } else { min }
}

impl NumberInput {
    /// An edited value held between the bounds.
    pub fn clamp(&self, num: i32) -> (r: i32)
        ensures
            r == clamp_spec(num, self.min, self.max),
    {
        let upper = if num < self.max { num } else { self.max };
        if upper > self.min { upper } else { self.min }
    }

    /// The value after a step up: one more, at most the maximum.
    pub fn increased(&self, num: i32) -> (r: i32)
        requires
            num < i32::MAX,
        ensures
            r == (if num + 1 < self.max { num + 1 } else { self.max as int }),
    {
        let next = num + 1;
        if next < self.max { next } else { self.max }
    }

    /// The value after a step down: one less, at least the minimum.
    pub fn reduced(&self, num: i32) -> (r: i32)
        requires
            num > i32::MIN,
        ensures
            r == (if num - 1 > self.min { num - 1 } else { self.min as int }),
    {
        let next = num - 1;
        if next > self.min { next } else { self.min }
    }

    /// The text the field shows after it was edited to `edited`: the number held between
    /// the bounds, or no change (`None`) when `edited` is no number.
    pub fn change_value(&self, edited: &str) -> (r: Option<String>)
        ensures
            match decimal_i32(edited@) {
                Some(v) => r matches Some(t) && t@ == decimal_text(clamp_spec(v, self.min, self.max) as int),
                None => r is None,
            },
    {
        match parse_i32(edited) {
            Some(num) => Some(i32_to_string(self.clamp(num))),
            None => None,
        }
    }

    /// Whether the step-up button can act on `text`: it is not the largest `i32`.
    pub fn can_increase(&self, text: &str) -> (r: bool)
        ensures
            r == (decimal_i32(text@) != Some(i32::MAX)),
    {
        match parse_i32(text) {
            Some(num) => num != i32::MAX,
            None => true,
        }
    }

    /// Whether the step-down button can act on `text`: it is not the smallest `i32`.
    pub fn can_reduce(&self, text: &str) -> (r: bool)
        ensures
            r == (decimal_i32(text@) != Some(i32::MIN)),
    {
        match parse_i32(text) {
            Some(num) => num != i32::MIN,
            None => true,
        }
    }

    /// The text after the step-up button was clicked on `text`; no change (`None`) when
    /// `text` is no number.
    pub fn increase(&self, text: &str) -> (r: Option<String>)
        requires
            decimal_i32(text@) != Some(i32::MAX),
        ensures
            match decimal_i32(text@) {
                Some(v) => r matches Some(t) && t@ == decimal_text(
                    if v + 1 < self.max { v + 1 } else { self.max as int },
                ),
                None => r is None,
            },
    {
        match parse_i32(text) {
            Some(num) => Some(i32_to_string(self.increased(num))),
            None => None,
        }
    }

    /// The text after the step-down button was clicked on `text`; no change (`None`) when
    /// `text` is no number.
    pub fn reduce(&self, text: &str) -> (r: Option<String>)
        requires
            decimal_i32(text@) != Some(i32::MIN),
        ensures
            match decimal_i32(text@) {
                Some(v) => r matches Some(t) && t@ == decimal_text(
                    if v - 1 > self.min { v - 1 } else { self.min as int },
                ),
                None => r is None,
            },
    {
        match parse_i32(text) {
            Some(num) => Some(i32_to_string(self.reduced(num))),
            None => None,
        }
    }
}

/// With ordered bounds, a held value lies between them.
pub proof fn lemma_clamp_within_bounds(v: i32, min: i32, max: i32)
    requires
        min <= max,
    ensures
        min <= clamp_spec(v, min, max) <= max,
{
}

/// A value already between ordered bounds is kept as it is.
pub proof fn lemma_clamp_keeps_values_in_range(v: i32, min: i32, max: i32)
    requires
        min <= v <= max,
    ensures
        clamp_spec(v, min, max) == v,
{
}

/// Holding a value twice is the same as holding it once, whatever the bounds.
pub proof fn lemma_clamp_idempotent(v: i32, min: i32, max: i32)
    ensures
        clamp_spec(clamp_spec(v, min, max), min, max) == clamp_spec(v, min, max),
{
}

/// Stepping up never passes the maximum and stepping down never passes the minimum, and
/// from a value between ordered bounds each step stays between them.
pub proof fn lemma_steps_stay_in_bounds(v: i32, min: i32, max: i32)
    requires
        min <= v <= max,
        v < i32::MAX,
        v > i32::MIN,
    ensures
        ({
            let up = if v + 1 < max { v + 1 } else { max as int };
            let down = if v - 1 > min { v - 1 } else { min as int };
            &&& min <= up <= max
            &&& min <= down <= max
            &&& v <= up && down <= v
        }),
{
}

proof fn lemma_digits_of(n: nat)
    ensures
        digits_of(n).len() > 0,
        forall|i: int| 0 <= i < digits_of(n).len() ==> is_digit(#[trigger] digits_of(n)[i]),
        digits_value(digits_of(n)) == n,
    decreases n,
{
    if n >= 10 {
        lemma_digits_of(n / 10);
        let s = digits_of(n);
        let d = digit_char((n % 10) as nat);
        assert(s.drop_last() =~= digits_of(n / 10));
        assert(s.last() == d);
        assert((d as int) - ('0' as int) == n % 10);
        assert(forall|i: int| 0 <= i < s.len() ==> is_digit(#[trigger] s[i])) by {
            assert forall|i: int| 0 <= i < s.len() implies is_digit(#[trigger] s[i]) by {
                if i < s.len() - 1 {
                    assert(s[i] == digits_of(n / 10)[i]);
                }
            }
        }
    } else {
        let s = digits_of(n);
        assert(s.drop_last() =~= Seq::<char>::empty());
        assert(digits_value(Seq::<char>::empty()) == 0);
    }
}

/// The text of a number reads back as that number: `str::parse` undoes `i32::to_string`.
pub proof fn lemma_decimal_text_parses(v: i32)
    ensures
        decimal_i32(decimal_text(v as int)) == Some(v),
{
    let s = decimal_text(v as int);
    if v < 0 {
        let n = (-(v as int)) as nat;
        lemma_digits_of(n);
        assert(s.skip(1) =~= digits_of(n));
        assert(s[0] == '-');
    } else {
        lemma_digits_of(v as nat);
        assert(is_digit(s[0]));
    }
}

/// The field shows a number that reads back: after an edit, a step up or a step down, the
/// text parses to the held or stepped value.
pub proof fn lemma_field_text_reads_back(v: i32, min: i32, max: i32)
    ensures
        decimal_i32(decimal_text(clamp_spec(v, min, max) as int)) == Some(clamp_spec(v, min, max)),
        v < i32::MAX ==> decimal_i32(decimal_text(if v + 1 < max { v + 1 } else { max as int })) == Some(
            (if v + 1 < max { v + 1 } else { max as int }) as i32,
        ),
        v > i32::MIN ==> decimal_i32(decimal_text(if v - 1 > min { v - 1 } else { min as int })) == Some(
            (if v - 1 > min { v - 1 } else { min as int }) as i32,
        ),
{
    lemma_decimal_text_parses(clamp_spec(v, min, max));
    if v < i32::MAX {
        let up = if v + 1 < max { v + 1 } else { max as int };
        lemma_decimal_text_parses(up as i32);
    }
    if v > i32::MIN {
        let down = if v - 1 > min { v - 1 } else { min as int };
        lemma_decimal_text_parses(down as i32);
    }
}

/// Inside ordered bounds with room to move, a step up followed by a step down gives back the
/// number the field showed.
pub proof fn lemma_step_up_then_down(v: i32, min: i32, max: i32)
    requires
        min <= v < max,
    ensures
        ({
            let up = if v + 1 < max { v + 1 } else { max as int };
            let down = if up - 1 > min { up - 1 } else { min as int };
            &&& decimal_i32(decimal_text(up)) == Some((v + 1) as i32)
            &&& down == v
            &&& decimal_i32(decimal_text(down)) == Some(v)
        }),
{
    lemma_decimal_text_parses((v + 1) as i32);
    lemma_decimal_text_parses(v);
}

} // verus!
