//! The sexagesimal parser: turns a string such as "05h 34m 31.94s" or
//! "+22° 00′ 52.2″" into an exact angle in micro-degrees.
//!
//! The input is split on a fixed set of separator characters; empty tokens
//! are discarded.  The first three tokens must be decimal numbers and are
//! read as (whole units, minutes, seconds); each token is held exactly in
//! micro-units (1e-6 of a unit), with fractional digits beyond the sixth
//! ignored.  The angle is whole + minutes/60 + seconds/3600 units,
//! truncated toward zero to whole micro-units, and scaled by 15 last for
//! right ascension (hours to degrees) — so a right-ascension reading is
//! exactly fifteen times the declination reading of the same string.  A
//! minus sign in front of the first token (it is tokenized away as a
//! separator) negates the result.

use vstd::prelude::*;

use crate::types::Angle;
use crate::types::AngleKind;
use crate::types::ParseError;

verus! {

/// The separator characters of the sexagesimal notation.
pub open spec fn is_sep_char(c: char) -> bool {
    ||| c == ' '
    ||| c == 'h'
    ||| c == 'm'
    ||| c == 's'
    ||| c == '°'
    ||| c == '′'
    ||| c == '″'
    ||| c == '+'
    ||| c == '-'
}

/// An ASCII decimal digit.
pub open spec fn is_digit_char(c: char) -> bool {
    48 <= c as u32 <= 57
}

/// The value of an ASCII decimal digit.
pub open spec fn digit_val(c: char) -> int {
    c as u32 - 48
}

/// Index of the first non-separator character at or after `i`, or the
/// length of `s` if there is none.
pub open spec fn spec_skip_seps(s: Seq<char>, i: int) -> int
    decreases s.len() - i,
{
    if i < 0 || i >= s.len() {
        s.len() as int
    } else if is_sep_char(s[i]) {
        spec_skip_seps(s, i + 1)
    } else {
        i
    }
}

/// Index of the first separator character at or after `i`, or the length
/// of `s` if there is none: the end of the token that starts at `i`.
pub open spec fn spec_token_end(s: Seq<char>, i: int) -> int
    decreases s.len() - i,
{
    if i < 0 || i >= s.len() {
        s.len() as int
    } else if !is_sep_char(s[i]) {
        spec_token_end(s, i + 1)
    } else {
        i
    }
}

/// Index of the first '.' in `s[i..j)`, or `j` if there is none.
pub open spec fn spec_find_dot(s: Seq<char>, i: int, j: int) -> int
    decreases j - i,
{
    if i < 0 || i >= j {
        j
    } else if s[i] == '.' {
        i
    } else {
        spec_find_dot(s, i + 1, j)
    }
}

/// The whole part of a token, read from the digit run `s[i..j)`: `None` if a
/// character is not a digit or the value reaches 100_000_000 units — the
/// most the i64 micro-degree arithmetic downstream can carry.
pub open spec fn spec_whole(s: Seq<char>, i: int, j: int) -> Option<int>
    decreases j - i,
{
    if j <= i {
        Some(0int)
    } else {
        match spec_whole(s, i, j - 1) {
            None => None,
            Some(v) => {
                if !is_digit_char(s[j - 1]) {
                    None
                } else if v * 10 + digit_val(s[j - 1]) >= 100_000_000 {
                    None
                } else {
                    Some(v * 10 + digit_val(s[j - 1]))
                }
            },
        }
    }
}

pub proof fn lemma_whole_bounds(s: Seq<char>, i: int, j: int)
    ensures
        spec_whole(s, i, j) is Some ==> 0 <= spec_whole(s, i, j)->0 < 100_000_000,
    decreases j - i,
{
    if j > i {
        lemma_whole_bounds(s, i, j - 1);
    }
}

/// The fractional part of a token, read from the digit run `s[i..j)`, where
/// `p` is the place value of the digit at `i` (100_000 for the first digit
/// after the dot).  Digits beyond the sixth carry place value 0 and are
/// ignored, but must still be digits.
pub open spec fn spec_frac(s: Seq<char>, i: int, j: int, p: int) -> Option<int>
    decreases j - i,
{
    if i >= j {
        Some(0int)
    } else if !is_digit_char(s[i]) {
        None
    } else {
        match spec_frac(s, i + 1, j, p / 10) {
            None => None,
            Some(v) => Some(digit_val(s[i]) * p + v),
        }
    }
}

pub proof fn lemma_frac_bounds(s: Seq<char>, i: int, j: int, p: int)
    requires
        0 <= p,
    ensures
        spec_frac(s, i, j, p) is Some ==> 0 <= spec_frac(s, i, j, p)->0 <= 10 * p,
    decreases j - i,
{
    if i < j && is_digit_char(s[i]) {
        lemma_frac_bounds(s, i + 1, j, p / 10);
        if spec_frac(s, i + 1, j, p / 10) is Some {
            let v = spec_frac(s, i + 1, j, p / 10)->0;
            assert(digit_val(s[i]) * p <= 9 * p) by (nonlinear_arith)
                requires
                    0 <= digit_val(s[i]) <= 9,
                    0 <= p,
            ;
            assert(0 <= digit_val(s[i]) * p) by (nonlinear_arith)
                requires
                    0 <= digit_val(s[i]),
                    0 <= p,
            ;
            assert(10 * (p / 10) <= p);
        }
    }
}

/// The value of the token `s[i..j)` in micro-units: digits with at most one
/// '.', at least one digit, whole part under 100_000_000 units.  Exponent
/// and other non-decimal number forms are not part of this grammar.
pub open spec fn spec_number(s: Seq<char>, i: int, j: int) -> Option<int> {
    let d = spec_find_dot(s, i, j);
    if i >= j {
        None
    } else if d == j {
        match spec_whole(s, i, j) {
            None => None,
            Some(v) => Some(v * 1_000_000),
        }
    } else if d == i && i + 1 == j {
        None
    } else if spec_find_dot(s, d + 1, j) != j {
        None
    } else {
        match (spec_whole(s, i, d), spec_frac(s, d + 1, j, 100_000)) {
            (Some(v), Some(f)) => Some(v * 1_000_000 + f),
            _ => None,
        }
    }
}

pub proof fn lemma_number_bounds(s: Seq<char>, i: int, j: int)
    ensures
        spec_number(s, i, j) is Some ==> 0 <= spec_number(s, i, j)->0 <= 100_000_000_000_000,
{
    let d = spec_find_dot(s, i, j);
    lemma_whole_bounds(s, i, j);
    lemma_whole_bounds(s, i, d);
    lemma_frac_bounds(s, d + 1, j, 100_000);
}

/// Whether the first character after any leading spaces is a minus sign:
/// the sign of a sexagesimal string, recovered before the separators (which
/// include '-') are discarded.
pub open spec fn spec_leading_minus(s: Seq<char>, i: int) -> bool
    decreases s.len() - i,
{
    if i < 0 || i >= s.len() {
        false
    } else if s[i] == ' ' {
        spec_leading_minus(s, i + 1)
    } else {
        s[i] == '-'
    }
}

/// The angle in micro-degrees built from the three token values (in
/// micro-units), the kind, and the recovered sign.  The decimal value is
/// truncated to whole micro-units first (the division by 3600; operands
/// are non-negative), and right ascension — given in hours — is scaled by
/// 15 last, so it is exactly fifteen times the declination reading.
pub open spec fn spec_combine(w: int, m: int, sec: int, kind: AngleKind, neg: bool) -> int {
    let fine = 3600 * w + 60 * m + sec;
    let mag = fine / 3600;
    let scaled = if kind == AngleKind::RightAscension {
        mag * 15
    } else {
        mag
    };
    if neg {
        -scaled
    } else {
        scaled
    }
}

/// Where a third token would have to start.  The input holds fewer than
/// three tokens exactly when this position is at or beyond its end.
pub open spec fn spec_third_token_start(s: Seq<char>) -> int {
    spec_skip_seps(s, spec_token_end(s, spec_skip_seps(s, spec_token_end(s, spec_skip_seps(s, 0)))))
}

/// What `parse` returns, for every input string and kind.
pub open spec fn spec_parse(s: Seq<char>, kind: AngleKind) -> Result<Angle, ParseError> {
    let i1 = spec_skip_seps(s, 0);
    let j1 = spec_token_end(s, i1);
    let i2 = spec_skip_seps(s, j1);
    let j2 = spec_token_end(s, i2);
    let i3 = spec_skip_seps(s, j2);
    if i3 >= s.len() {
        Err(ParseError::MalformedAngle)
    } else {
        let j3 = spec_token_end(s, i3);
        match (spec_number(s, i1, j1), spec_number(s, i2, j2), spec_number(s, i3, j3)) {
            (Some(w), Some(m), Some(sec)) => Ok(
                Angle {
                    udeg: spec_combine(w, m, sec, kind, spec_leading_minus(s, 0)) as i64,
                },
            ),
            _ => Err(ParseError::NumericParseFailure),
        }
    }
}

/// A recovered minus sign always negates: when a parsed string's first
/// non-space character is '-', the non-negative magnitude read from its
/// tokens is negated, so the result is never positive.
pub proof fn lemma_sign_preserved(s: Seq<char>, kind: AngleKind)
    requires
        spec_leading_minus(s, 0),
        spec_parse(s, kind) is Ok,
    ensures
        spec_parse(s, kind)->Ok_0.udeg <= 0,
{
    let i1 = spec_skip_seps(s, 0);
    let j1 = spec_token_end(s, i1);
    let i2 = spec_skip_seps(s, j1);
    let j2 = spec_token_end(s, i2);
    let i3 = spec_skip_seps(s, j2);
    let j3 = spec_token_end(s, i3);
    lemma_number_bounds(s, i1, j1);
    lemma_number_bounds(s, i2, j2);
    lemma_number_bounds(s, i3, j3);
    let w = spec_number(s, i1, j1)->0;
    let m = spec_number(s, i2, j2)->0;
    let sec = spec_number(s, i3, j3)->0;
    let fine = 3600 * w + 60 * m + sec;
    vstd::arithmetic::div_mod::lemma_div_pos_is_pos(fine, 3600);
    vstd::arithmetic::div_mod::lemma_div_nonincreasing(fine, 3600);
}

/// The right-ascension scale: a string that parses as a declination also
/// parses as a right ascension, to exactly fifteen times the value — the
/// hours-to-degrees factor is applied last, after truncation, and is the
/// only difference between the two kinds.
pub proof fn lemma_right_ascension_scale(s: Seq<char>)
    requires
        spec_parse(s, AngleKind::Declination) is Ok,
    ensures
        spec_parse(s, AngleKind::RightAscension) is Ok,
        spec_parse(s, AngleKind::RightAscension)->Ok_0.udeg == 15 * spec_parse(
            s,
            AngleKind::Declination,
        )->Ok_0.udeg,
{
    let i1 = spec_skip_seps(s, 0);
    let j1 = spec_token_end(s, i1);
    let i2 = spec_skip_seps(s, j1);
    let j2 = spec_token_end(s, i2);
    let i3 = spec_skip_seps(s, j2);
    let j3 = spec_token_end(s, i3);
    lemma_number_bounds(s, i1, j1);
    lemma_number_bounds(s, i2, j2);
    lemma_number_bounds(s, i3, j3);
    let w = spec_number(s, i1, j1)->0;
    let m = spec_number(s, i2, j2)->0;
    let sec = spec_number(s, i3, j3)->0;
    let fine = 3600 * w + 60 * m + sec;
    vstd::arithmetic::div_mod::lemma_div_pos_is_pos(fine, 3600);
    vstd::arithmetic::div_mod::lemma_div_nonincreasing(fine, 3600);
}

/// Fewer than three tokens is a malformed-angle error — and, the parser
/// being a verified total function, never a panic.  The hypothesis says
/// that the input is exhausted where a third token would have to start.
pub proof fn lemma_missing_tokens(s: Seq<char>, kind: AngleKind)
    requires
        spec_third_token_start(s) >= s.len(),
    ensures
        spec_parse(s, kind) == Err::<Angle, ParseError>(ParseError::MalformedAngle),
{
}

/// The parser is a pure function of its input: any two results that meet
/// its contract for the same string and kind are identical.
pub proof fn lemma_parse_deterministic(
    s: Seq<char>,
    kind: AngleKind,
    r1: Result<Angle, ParseError>,
    r2: Result<Angle, ParseError>,
)
    requires
        r1 == spec_parse(s, kind),
        r2 == spec_parse(s, kind),
    ensures
        r1 == r2,
{
}

fn is_sep(c: char) -> (b: bool)
    ensures
        b == is_sep_char(c),
{
    c == ' ' || c == 'h' || c == 'm' || c == 's' || c == '°' || c == '′' || c == '″' || c == '+'
        || c == '-'
}

fn is_digit(c: char) -> (b: bool)
    ensures
        b == is_digit_char(c),
{
    let u = c as u32;
    48 <= u && u <= 57
}

fn skip_seps(s: &str, i: usize) -> (r: usize)
    requires
        i <= s@.len(),
    ensures
        r == spec_skip_seps(s@, i as int),
        i <= r <= s@.len(),
    decreases s@.len() - i,
{
    let n = s.unicode_len();
    if i == n {
        i
    } else if is_sep(s.get_char(i)) {
        skip_seps(s, i + 1)
    } else {
        i
    }
}

fn token_end(s: &str, i: usize) -> (r: usize)
    requires
        i <= s@.len(),
    ensures
        r == spec_token_end(s@, i as int),
        i <= r <= s@.len(),
    decreases s@.len() - i,
{
    let n = s.unicode_len();
    if i == n {
        i
    } else if !is_sep(s.get_char(i)) {
        token_end(s, i + 1)
    } else {
        i
    }
}

fn find_dot(s: &str, i: usize, j: usize) -> (r: usize)
    requires
        i <= j <= s@.len(),
    ensures
        r == spec_find_dot(s@, i as int, j as int),
        i <= r <= j,
    decreases j - i,
{
    if i == j {
        j
    } else if s.get_char(i) == '.' {
        i
    } else {
        find_dot(s, i + 1, j)
    }
}

fn whole_part(s: &str, i: usize, j: usize) -> (r: Option<i64>)
    requires
        i <= j <= s@.len(),
    ensures
        match r {
            Some(v) => spec_whole(s@, i as int, j as int) == Some(v as int) && 0 <= v
                < 100_000_000,
            None => spec_whole(s@, i as int, j as int) is None,
        },
    decreases j - i,
{
    if j <= i {
        Some(0)
    } else {
        match whole_part(s, i, j - 1) {
            None => None,
            Some(v) => {
                let c = s.get_char(j - 1);
                if !is_digit(c) {
                    None
                } else {
                    let w: i64 = v * 10 + (c as u32 - 48) as i64;
                    if w >= 100_000_000 {
                        None
                    } else {
                        Some(w)
                    }
                }
            },
        }
    }
}

fn frac_part(s: &str, i: usize, j: usize, p: i64) -> (r: Option<i64>)
    requires
        i <= j <= s@.len(),
        0 <= p <= 100_000,
    ensures
        match r {
            Some(v) => spec_frac(s@, i as int, j as int, p as int) == Some(v as int) && 0 <= v <= 10
                * p,
            None => spec_frac(s@, i as int, j as int, p as int) is None,
        },
    decreases j - i,
{
    if i >= j {
        Some(0)
    } else {
        let c = s.get_char(i);
        if !is_digit(c) {
            None
        } else {
            match frac_part(s, i + 1, j, p / 10) {
                None => None,
                Some(v) => {
                    let d: i64 = (c as u32 - 48) as i64;
                    proof {
                        assert(d * p <= 9 * p && 0 <= d * p) by (nonlinear_arith)
                            requires
                                0 <= d <= 9,
                                0 <= p,
                        ;
                    }
                    Some(d * p + v)
                },
            }
        }
    }
}

fn number(s: &str, i: usize, j: usize) -> (r: Option<i64>)
    requires
        i <= j <= s@.len(),
    ensures
        match r {
            Some(v) => spec_number(s@, i as int, j as int) == Some(v as int) && 0 <= v
                <= 100_000_000_000_000,
            None => spec_number(s@, i as int, j as int) is None,
        },
{
    let d = find_dot(s, i, j);
    if i >= j {
        None
    } else if d == j {
        match whole_part(s, i, j) {
            None => None,
            Some(v) => Some(v * 1_000_000),
        }
    } else if d == i && i + 1 == j {
        None
    } else if find_dot(s, d + 1, j) != j {
        None
    } else {
        let w = whole_part(s, i, d);
        let f = frac_part(s, d + 1, j, 100_000);
        match (w, f) {
            (Some(v), Some(fr)) => Some(v * 1_000_000 + fr),
            _ => None,
        }
    }
}

fn leading_minus(s: &str, i: usize) -> (r: bool)
    requires
        i <= s@.len(),
    ensures
        r == spec_leading_minus(s@, i as int),
    decreases s@.len() - i,
{
    let n = s.unicode_len();
    if i == n {
        false
    } else if s.get_char(i) == ' ' {
        leading_minus(s, i + 1)
    } else {
        s.get_char(i) == '-'
    }
}

/// Parses a sexagesimal angle string into micro-degrees.
///
/// The result is `Ok` exactly when the input splits into at least three
/// tokens and the first three are valid decimal numbers (plain digits
/// with one optional point, whole part under 100_000_000 units); a minus
/// sign in front of the first token negates the angle; right ascension
/// values are read as hours and scaled by 15 to degrees, applied last,
/// so they are exactly fifteen times the declination reading.
/// `spec_parse` states the returned value exactly.
pub fn parse(input: &str, kind: AngleKind) -> (r: Result<Angle, ParseError>)
    ensures
        r == spec_parse(input@, kind),
{
    let n = input.unicode_len();
    let i1 = skip_seps(input, 0);
    let j1 = token_end(input, i1);
    let i2 = skip_seps(input, j1);
    let j2 = token_end(input, i2);
    let i3 = skip_seps(input, j2);
    if i3 >= n {
        return Err(ParseError::MalformedAngle);
    }
    let j3 = token_end(input, i3);
    let w_opt = number(input, i1, j1);
    let m_opt = number(input, i2, j2);
    let s_opt = number(input, i3, j3);
    match (w_opt, m_opt, s_opt) {
        (Some(w), Some(m), Some(sec)) => {
            let neg = leading_minus(input, 0);
            let fine: i64 = 3600 * w + 60 * m + sec;
            let mag: i64 = ((fine as u64) / 3600) as i64;
            proof {
                vstd::arithmetic::div_mod::lemma_div_pos_is_pos(fine as int, 3600);
                vstd::arithmetic::div_mod::lemma_div_nonincreasing(fine as int, 3600);
            }
            let scaled: i64 = if matches!(kind, AngleKind::RightAscension) {
                mag * 15
            } else {
                mag
            };
            let udeg: i64 = if neg {
                -scaled
            } else {
                scaled
            };
            Ok(Angle { udeg })
        },
        _ => Err(ParseError::NumericParseFailure),
    }
}

} // verus!
