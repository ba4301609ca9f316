//! The JSON wire subset the relay speaks: top-level objects whose
//! integer and string fields the relay reads, with fields of any
//! other well-formed JSON shape accepted and skipped. The parser
//! reads the webhook's response envelope and the platform
//! configuration; the escaping functions render outbound payload
//! strings.

use vstd::prelude::*;
use vstd::string::*;
use crate::decimal::{digit_char, push_char};

verus! {

// ---------------------------------------------------------------
// The grammar, as spec functions over character sequences.
//
// object  := ws '{' ws '}' ws  |  ws '{' ws members ws '}' ws
// members := pair ( ws ',' ws pair )*
// pair    := string ws ':' ws value
// value   := string | number | other
// other   := 'true' | 'false' | 'null' | nested object | array
// string  := '"' ( plain char | '\' one of " \ / b f n r t
//                | '\u' hex hex hex hex )* '"'
// number  := '-'? digits ( '.' digits )? ( ('e'|'E') ('+'|'-')? digits )?
//            with no leading zero in the integer part
//
// A number with neither fraction nor exponent and at most fifteen
// digits is kept as an integer; every other well-formed value is
// accepted but kept only as `Other`, the way a deserializer ignores
// the fields it was not asked for.
// ---------------------------------------------------------------

/// A parsed scalar: an integer, a string, or some other well-formed
/// JSON value whose content the relay does not read.
pub enum SpecScalar {
    Int(int),
    Str(Seq<char>),
    Other,
}

pub open spec fn is_ws(c: char) -> bool {
    c == ' ' || c == '\t' || c == '\n' || c == '\r'
}

/// The first position at or after `i` that does not hold whitespace.
pub open spec fn skip_ws(s: Seq<char>, i: int) -> int
    decreases s.len() - i,
{
    if 0 <= i < s.len() && is_ws(s[i]) {
        skip_ws(s, i + 1)
    } else {
        i
    }
}

pub open spec fn is_digit(c: char) -> bool {
    48 <= (c as u32) && (c as u32) <= 57
}

pub open spec fn digit_val(c: char) -> int {
    (c as u32) - 48
}

/// The first position at or after `i` that does not hold a digit.
pub open spec fn digit_run_end(s: Seq<char>, i: int) -> int
    decreases s.len() - i,
{
    if 0 <= i < s.len() && is_digit(s[i]) {
        digit_run_end(s, i + 1)
    } else {
        i
    }
}

/// The value of the digits at positions `i` up to `j`.
pub open spec fn digits_value(s: Seq<char>, i: int, j: int) -> int
    decreases j - i,
{
    if j <= i {
        0
    } else {
        digits_value(s, i, j - 1) * 10 + digit_val(s[j - 1])
    }
}

pub open spec fn pow10(n: nat) -> int
    decreases n,
{
    if n == 0 {
        1
    } else {
        10 * pow10((n - 1) as nat)
    }
}

/// The position after the integer digits of a number at `i`, past an
/// optional minus sign: where the digits start and where they end, or
/// nothing if there is no digit or the integer part has a leading
/// zero.
pub open spec fn int_part(s: Seq<char>, i: int) -> Option<(int, int)> {
    let start = if 0 <= i < s.len() && s[i] == '-' {
        i + 1
    } else {
        i
    };
    let d = digit_run_end(s, start);
    if d == start {
        None
    } else if s[start] == '0' && d - start > 1 {
        None
    } else {
        Some((start, d))
    }
}

/// The position after the fraction part starting at `d`, if the
/// fraction is absent or well-formed.
pub open spec fn frac_end(s: Seq<char>, d: int) -> Option<int> {
    if 0 <= d < s.len() && s[d] == '.' {
        let fd = digit_run_end(s, d + 1);
        if fd == d + 1 {
            None
        } else {
            Some(fd)
        }
    } else {
        Some(d)
    }
}

/// The position after the exponent part starting at `d`, if the
/// exponent is absent or well-formed.
pub open spec fn exp_end(s: Seq<char>, d: int) -> Option<int> {
    if 0 <= d < s.len() && (s[d] == 'e' || s[d] == 'E') {
        let sd = if d + 1 < s.len() && (s[d + 1] == '+' || s[d + 1] == '-') {
            d + 2
        } else {
            d + 1
        };
        let ed = digit_run_end(s, sd);
        if ed == sd {
            None
        } else {
            Some(ed)
        }
    } else {
        Some(d)
    }
}

/// The position after a well-formed JSON number at `i`.
pub open spec fn number_end(s: Seq<char>, i: int) -> Option<int> {
    match int_part(s, i) {
        None => None,
        Some((start, d)) => match frac_end(s, d) {
            None => None,
            Some(d2) => exp_end(s, d2),
        },
    }
}

pub open spec fn is_escape_code(c: char) -> bool {
    c == '"' || c == '\\' || c == '/' || c == 'b' || c == 'f' || c == 'n' || c == 'r' || c == 't'
}

pub open spec fn unescape(c: char) -> char {
    if c == 'b' {
        '\u{8}'
    } else if c == 'f' {
        '\u{c}'
    } else if c == 'n' {
        '\n'
    } else if c == 'r' {
        '\r'
    } else if c == 't' {
        '\t'
    } else {
        c
    }
}

pub open spec fn is_hex(c: char) -> bool {
    is_digit(c) || (97 <= (c as u32) && (c as u32) <= 102) || (65 <= (c as u32) && (c as u32)
        <= 70)
}

/// The value of one hexadecimal digit, lower or upper case.
pub open spec fn hex_val(c: char) -> int {
    if is_digit(c) {
        digit_val(c)
    } else if 97 <= (c as u32) && (c as u32) <= 102 {
        (c as u32) - 87
    } else {
        (c as u32) - 55
    }
}

/// Whether four hexadecimal digits stand at `i`.
pub open spec fn hex4_ok(s: Seq<char>, i: int) -> bool {
    &&& i + 4 <= s.len()
    &&& 0 <= i
    &&& is_hex(s[i])
    &&& is_hex(s[i + 1])
    &&& is_hex(s[i + 2])
    &&& is_hex(s[i + 3])
}

/// The value of the four hexadecimal digits at `i`.
pub open spec fn hex4_val(s: Seq<char>, i: int) -> int {
    ((hex_val(s[i]) * 16 + hex_val(s[i + 1])) * 16 + hex_val(s[i + 2])) * 16 + hex_val(s[i + 3])
}

pub open spec fn is_high_surrogate(v: int) -> bool {
    0xD800 <= v <= 0xDBFF
}

pub open spec fn is_low_surrogate(v: int) -> bool {
    0xDC00 <= v <= 0xDFFF
}

/// The scalar value a surrogate pair denotes.
pub open spec fn combine_surrogates(hi: int, lo: int) -> int {
    0x10000 + (hi - 0xD800) * 0x400 + (lo - 0xDC00)
}

/// The character with the given code point.
pub open spec fn char_of_codepoint(v: int) -> char {
    (v as u32) as char
}

/// The rest of a string after its opening quote: the content up to
/// the closing quote, and the position after that quote.
pub open spec fn parse_str_body(s: Seq<char>, i: int) -> Option<(Seq<char>, int)>
    decreases s.len() - i,
{
    if i < 0 || i >= s.len() {
        None
    } else if s[i] == '"' {
        Some((Seq::empty(), i + 1))
    } else if s[i] == '\\' {
        if i + 1 < s.len() && s[i + 1] == 'u' {
            if hex4_ok(s, i + 2) {
                let v = hex4_val(s, i + 2);
                if is_high_surrogate(v) {
                    if i + 12 <= s.len() && s[i + 6] == '\\' && s[i + 7] == 'u' && hex4_ok(s, i + 8)
                        && is_low_surrogate(hex4_val(s, i + 8)) {
                        match parse_str_body(s, i + 12) {
                            Some(
                                (t, j),
                            ) => Some(
                                (
                                    seq![
                                        char_of_codepoint(combine_surrogates(v, hex4_val(s, i + 8))),
                                    ] + t,
                                    j,
                                ),
                            ),
                            None => None,
                        }
                    } else {
                        None
                    }
                } else if is_low_surrogate(v) {
                    None
                } else {
                    match parse_str_body(s, i + 6) {
                        Some((t, j)) => Some((seq![char_of_codepoint(v)] + t, j)),
                        None => None,
                    }
                }
            } else {
                None
            }
        } else if i + 1 < s.len() && is_escape_code(s[i + 1]) {
            match parse_str_body(s, i + 2) {
                Some((t, j)) => Some((seq![unescape(s[i + 1])] + t, j)),
                None => None,
            }
        } else {
            None
        }
    } else {
        match parse_str_body(s, i + 1) {
            Some((t, j)) => Some((seq![s[i]] + t, j)),
            None => None,
        }
    }
}

pub open spec fn parse_string_at(s: Seq<char>, i: int) -> Option<(Seq<char>, int)> {
    if 0 <= i < s.len() && s[i] == '"' {
        parse_str_body(s, i + 1)
    } else {
        None
    }
}

pub open spec fn lit_true_at(s: Seq<char>, i: int) -> bool {
    0 <= i && i + 4 <= s.len() && s[i] == 't' && s[i + 1] == 'r' && s[i + 2] == 'u' && s[i + 3]
        == 'e'
}

pub open spec fn lit_false_at(s: Seq<char>, i: int) -> bool {
    0 <= i && i + 5 <= s.len() && s[i] == 'f' && s[i + 1] == 'a' && s[i + 2] == 'l' && s[i + 3]
        == 's' && s[i + 4] == 'e'
}

pub open spec fn lit_null_at(s: Seq<char>, i: int) -> bool {
    0 <= i && i + 4 <= s.len() && s[i] == 'n' && s[i + 1] == 'u' && s[i + 2] == 'l' && s[i + 3]
        == 'l'
}

/// The position after any well-formed JSON value at `i`, read only to
/// be skipped. The fuel bounds the nesting; the top-level parse
/// supplies more than any input can use up.
pub open spec fn skip_value_at(s: Seq<char>, i: int, fuel: nat) -> Option<int>
    decreases fuel,
{
    if fuel == 0 {
        None
    } else if 0 <= i < s.len() && s[i] == '"' {
        match parse_string_at(s, i) {
            Some((t, j)) => Some(j),
            None => None,
        }
    } else if lit_true_at(s, i) {
        Some(i + 4)
    } else if lit_false_at(s, i) {
        Some(i + 5)
    } else if lit_null_at(s, i) {
        Some(i + 4)
    } else if 0 <= i < s.len() && s[i] == '{' {
        let j = skip_ws(s, i + 1);
        if 0 <= j < s.len() && s[j] == '}' {
            Some(j + 1)
        } else {
            skip_object_rest(s, j, (fuel - 1) as nat)
        }
    } else if 0 <= i < s.len() && s[i] == '[' {
        let j = skip_ws(s, i + 1);
        if 0 <= j < s.len() && s[j] == ']' {
            Some(j + 1)
        } else {
            skip_array_rest(s, j, (fuel - 1) as nat)
        }
    } else {
        number_end(s, i)
    }
}

/// The members of a nested object being skipped, from the first key.
pub open spec fn skip_object_rest(s: Seq<char>, i: int, fuel: nat) -> Option<int>
    decreases fuel,
{
    if fuel == 0 {
        None
    } else {
        match parse_string_at(s, i) {
            Some((k, j)) => {
                let j2 = skip_ws(s, j);
                if 0 <= j2 < s.len() && s[j2] == ':' {
                    match skip_value_at(s, skip_ws(s, j2 + 1), (fuel - 1) as nat) {
                        Some(j3) => {
                            let j4 = skip_ws(s, j3);
                            if 0 <= j4 < s.len() && s[j4] == ',' {
                                skip_object_rest(s, skip_ws(s, j4 + 1), (fuel - 1) as nat)
                            } else if 0 <= j4 < s.len() && s[j4] == '}' {
                                Some(j4 + 1)
                            } else {
                                None
                            }
                        },
                        None => None,
                    }
                } else {
                    None
                }
            },
            None => None,
        }
    }
}

/// The elements of an array being skipped, from the first element.
pub open spec fn skip_array_rest(s: Seq<char>, i: int, fuel: nat) -> Option<int>
    decreases fuel,
{
    if fuel == 0 {
        None
    } else {
        match skip_value_at(s, i, (fuel - 1) as nat) {
            Some(j) => {
                let j2 = skip_ws(s, j);
                if 0 <= j2 < s.len() && s[j2] == ',' {
                    skip_array_rest(s, skip_ws(s, j2 + 1), (fuel - 1) as nat)
                } else if 0 <= j2 < s.len() && s[j2] == ']' {
                    Some(j2 + 1)
                } else {
                    None
                }
            },
            None => None,
        }
    }
}

pub open spec fn parse_value_at(s: Seq<char>, i: int, fuel: nat) -> Option<(SpecScalar, int)> {
    if 0 <= i < s.len() && s[i] == '"' {
        match parse_string_at(s, i) {
            Some((t, j)) => Some((SpecScalar::Str(t), j)),
            None => None,
        }
    } else if 0 <= i < s.len() && (s[i] == '-' || is_digit(s[i])) {
        match number_end(s, i) {
            None => None,
            Some(j) => match int_part(s, i) {
                Some((start, d)) => if j == d && d - start <= 15 {
                    Some(
                        (
                            SpecScalar::Int(
                                if s[i] == '-' {
                                    -digits_value(s, start, d)
                                } else {
                                    digits_value(s, start, d)
                                },
                            ),
                            j,
                        ),
                    )
                } else {
                    Some((SpecScalar::Other, j))
                },
                None => None,
            },
        }
    } else {
        match skip_value_at(s, i, fuel) {
            Some(j) => Some((SpecScalar::Other, j)),
            None => None,
        }
    }
}

pub open spec fn parse_pair_at(s: Seq<char>, i: int, fuel: nat) -> Option<
    ((Seq<char>, SpecScalar), int),
> {
    match parse_string_at(s, i) {
        Some((k, j)) => {
            let j2 = skip_ws(s, j);
            if 0 <= j2 < s.len() && s[j2] == ':' {
                let j3 = skip_ws(s, j2 + 1);
                match parse_value_at(s, j3, fuel) {
                    Some((v, j4)) => Some(((k, v), j4)),
                    None => None,
                }
            } else {
                None
            }
        },
        None => None,
    }
}

/// One or more comma-separated pairs starting at `i`. The fuel bounds
/// the recursion; the top-level parse supplies more fuel than any
/// input can use up.
pub open spec fn parse_members(s: Seq<char>, i: int, fuel: nat) -> Option<
    (Seq<(Seq<char>, SpecScalar)>, int),
>
    decreases fuel,
{
    if fuel == 0 {
        None
    } else {
        match parse_pair_at(s, i, fuel) {
            Some((kv, j)) => {
                let j2 = skip_ws(s, j);
                if 0 <= j2 < s.len() && s[j2] == ',' {
                    let j3 = skip_ws(s, j2 + 1);
                    match parse_members(s, j3, (fuel - 1) as nat) {
                        Some((rest, j4)) => Some((seq![kv] + rest, j4)),
                        None => None,
                    }
                } else {
                    Some((seq![kv], j))
                }
            },
            None => None,
        }
    }
}

/// The whole input as one top-level object, or nothing if it does
/// not match the grammar.
pub open spec fn parse_object(s: Seq<char>) -> Option<Seq<(Seq<char>, SpecScalar)>> {
    let i = skip_ws(s, 0);
    if 0 <= i < s.len() && s[i] == '{' {
        let j = skip_ws(s, i + 1);
        if 0 <= j < s.len() && s[j] == '}' {
            if skip_ws(s, j + 1) == s.len() {
                Some(Seq::empty())
            } else {
                None
            }
        } else {
            match parse_members(s, j, s.len()) {
                Some((fields, j2)) => {
                    let k = skip_ws(s, j2);
                    if 0 <= k < s.len() && s[k] == '}' && skip_ws(s, k + 1) == s.len() {
                        Some(fields)
                    } else {
                        None
                    }
                },
                None => None,
            }
        }
    } else {
        None
    }
}

/// The value of the first field named `key`, if any.
pub open spec fn field_of(fields: Seq<(Seq<char>, SpecScalar)>, key: Seq<char>) -> Option<
    SpecScalar,
>
    decreases fields.len(),
{
    if fields.len() == 0 {
        None
    } else if fields[0].0 == key {
        Some(fields[0].1)
    } else {
        field_of(fields.drop_first(), key)
    }
}

// ---------------------------------------------------------------
// The executable parser. Each function returns exactly what its
// spec counterpart describes.
// ---------------------------------------------------------------

/// A parsed scalar as executable data.
#[derive(Debug)]
pub enum JsonScalar {
    Int(i64),
    Str(String),
    Other,
}

impl View for JsonScalar {
    type V = SpecScalar;

    open spec fn view(&self) -> SpecScalar {
        match self {
            JsonScalar::Int(n) => SpecScalar::Int(*n as int),
            JsonScalar::Str(s) => SpecScalar::Str(s@),
            JsonScalar::Other => SpecScalar::Other,
        }
    }
}

/// The model of a parsed field list.
pub open spec fn fields_view(v: Seq<(String, JsonScalar)>) -> Seq<(Seq<char>, SpecScalar)> {
    Seq::new(v.len(), |i: int| (v[i].0@, v[i].1@))
}

pub open spec fn str_res_matches(r: Option<(String, usize)>, sp: Option<(Seq<char>, int)>) -> bool {
    match (r, sp) {
        (Some(a), Some(b)) => a.0@ == b.0 && a.1 as int == b.1,
        (None, None) => true,
        _ => false,
    }
}

pub open spec fn pos_res_matches(r: Option<usize>, sp: Option<int>) -> bool {
    match (r, sp) {
        (Some(a), Some(b)) => a as int == b,
        (None, None) => true,
        _ => false,
    }
}

pub open spec fn value_res_matches(r: Option<(JsonScalar, usize)>, sp: Option<(SpecScalar, int)>) -> bool {
    match (r, sp) {
        (Some(a), Some(b)) => a.0@ == b.0 && a.1 as int == b.1,
        (None, None) => true,
        _ => false,
    }
}

pub open spec fn members_res_matches(
    r: Option<(Vec<(String, JsonScalar)>, usize)>,
    sp: Option<(Seq<(Seq<char>, SpecScalar)>, int)>,
) -> bool {
    match (r, sp) {
        (Some(a), Some(b)) => fields_view(a.0@) == b.0 && a.1 as int == b.1,
        (None, None) => true,
        _ => false,
    }
}

fn skip_ws_x(s: &str, n: usize, i: usize) -> (r: usize)
    requires
        n == s@.len(),
        i <= n,
    ensures
        r == skip_ws(s@, i as int),
        i <= r <= n,
    decreases n - i,
{
    if i < n {
        let c = s.get_char(i);
        if c == ' ' || c == '\t' || c == '\n' || c == '\r' {
            skip_ws_x(s, n, i + 1)
        } else {
            i
        }
    } else {
        i
    }
}

fn digit_run_end_x(s: &str, n: usize, i: usize) -> (r: usize)
    requires
        n == s@.len(),
        i <= n,
    ensures
        r == digit_run_end(s@, i as int),
        i <= r <= n,
        forall|k: int| i <= k < r ==> is_digit(s@[k]),
    decreases n - i,
{
    if i < n {
        let c = s.get_char(i);
        let u: u32 = c as u32;
        if 48 <= u && u <= 57 {
            digit_run_end_x(s, n, i + 1)
        } else {
            i
        }
    } else {
        i
    }
}

fn digits_val_x(s: &str, n: usize, i: usize, j: usize) -> (r: u64)
    requires
        n == s@.len(),
        i <= j <= n,
        j - i <= 15,
        forall|k: int| i <= k < j ==> is_digit(s@[k]),
    ensures
        r as int == digits_value(s@, i as int, j as int),
        r < pow10((j - i) as nat),
    decreases j,
{
    if j <= i {
        0
    } else {
        let prev = digits_val_x(s, n, i, j - 1);
        let c = s.get_char(j - 1);
        let d: u64 = ((c as u32) - 48) as u64;
        proof {
            assert(prev < pow10((j - i - 1) as nat));
            assert(pow10((j - i) as nat) == 10 * pow10((j - i - 1) as nat));
            lemma_pow10_le_15((j - i) as nat);
        }
        prev * 10 + d
    }
}

proof fn lemma_pow10_le_15(n: nat)
    requires
        n <= 15,
    ensures
        pow10(n) <= 1000000000000000,
    decreases 15 - n,
{
    lemma_pow10_pos(n);
    if n < 15 {
        lemma_pow10_le_15(n + 1);
    } else {
        reveal_with_fuel(pow10, 17);
        assert(pow10(15) == 1000000000000000);
    }
}

proof fn lemma_pow10_pos(n: nat)
    ensures
        pow10(n) >= 1,
    decreases n,
{
    if n > 0 {
        lemma_pow10_pos((n - 1) as nat);
    }
}

fn is_digit_x(c: char) -> (r: bool)
    ensures
        r == is_digit(c),
{
    let u: u32 = c as u32;
    48 <= u && u <= 57
}

fn int_part_x(s: &str, n: usize, i: usize) -> (r: Option<(usize, usize)>)
    requires
        n == s@.len(),
        i <= n,
    ensures
        (match (r, int_part(s@, i as int)) {
            (Some(a), Some(b)) => a.0 as int == b.0 && a.1 as int == b.1,
            (None, None) => true,
            _ => false,
        }),
        (r matches Some(p) ==> i <= p.0 < p.1 <= n && (forall|k: int|
            p.0 <= k < p.1 ==> is_digit(s@[k]))),
{
    let start = if i < n && s.get_char(i) == '-' {
        i + 1
    } else {
        i
    };
    let d = digit_run_end_x(s, n, start);
    if d == start {
        None
    } else if s.get_char(start) == '0' && d - start > 1 {
        None
    } else {
        Some((start, d))
    }
}

fn frac_end_x(s: &str, n: usize, d: usize) -> (r: Option<usize>)
    requires
        n == s@.len(),
        d <= n,
    ensures
        pos_res_matches(r, frac_end(s@, d as int)),
        (r matches Some(p) ==> d <= p <= n),
{
    if d < n && s.get_char(d) == '.' {
        let fd = digit_run_end_x(s, n, d + 1);
        if fd == d + 1 {
            None
        } else {
            Some(fd)
        }
    } else {
        Some(d)
    }
}

fn exp_end_x(s: &str, n: usize, d: usize) -> (r: Option<usize>)
    requires
        n == s@.len(),
        d <= n,
    ensures
        pos_res_matches(r, exp_end(s@, d as int)),
        (r matches Some(p) ==> d <= p <= n),
{
    if d < n && (s.get_char(d) == 'e' || s.get_char(d) == 'E') {
        let sd = if d + 1 < n && (s.get_char(d + 1) == '+' || s.get_char(d + 1) == '-') {
            d + 2
        } else {
            d + 1
        };
        let ed = digit_run_end_x(s, n, sd);
        if ed == sd {
            None
        } else {
            Some(ed)
        }
    } else {
        Some(d)
    }
}

fn number_end_x(s: &str, n: usize, i: usize) -> (r: Option<usize>)
    requires
        n == s@.len(),
        i <= n,
    ensures
        pos_res_matches(r, number_end(s@, i as int)),
        (r matches Some(p) ==> i < p <= n),
{
    match int_part_x(s, n, i) {
        None => None,
        Some((start, d)) => match frac_end_x(s, n, d) {
            None => None,
            Some(d2) => exp_end_x(s, n, d2),
        },
    }
}

fn unescape_x(c: char) -> (r: char)
    ensures
        r == unescape(c),
{
    if c == 'b' {
        '\u{8}'
    } else if c == 'f' {
        '\u{c}'
    } else if c == 'n' {
        '\n'
    } else if c == 'r' {
        '\r'
    } else if c == 't' {
        '\t'
    } else {
        c
    }
}

fn is_hex_x(c: char) -> (r: bool)
    ensures
        r == is_hex(c),
{
    let u: u32 = c as u32;
    (48 <= u && u <= 57) || (97 <= u && u <= 102) || (65 <= u && u <= 70)
}

fn hex_val_x(c: char) -> (r: u32)
    requires
        is_hex(c),
    ensures
        r as int == hex_val(c),
        r < 16,
{
    let u: u32 = c as u32;
    if 48 <= u && u <= 57 {
        u - 48
    } else if 97 <= u && u <= 102 {
        u - 87
    } else {
        u - 55
    }
}

fn hex4_check(s: &str, n: usize, i: usize) -> (r: bool)
    requires
        n == s@.len(),
        i <= n,
    ensures
        r == hex4_ok(s@, i as int),
{
    n - i >= 4 && is_hex_x(s.get_char(i)) && is_hex_x(s.get_char(i + 1)) && is_hex_x(
        s.get_char(i + 2),
    ) && is_hex_x(s.get_char(i + 3))
}

fn hex4_value(s: &str, n: usize, i: usize) -> (r: u32)
    requires
        n == s@.len(),
        hex4_ok(s@, i as int),
    ensures
        r as int == hex4_val(s@, i as int),
        r < 0x10000,
{
    let a = hex_val_x(s.get_char(i));
    let b = hex_val_x(s.get_char(i + 1));
    let c = hex_val_x(s.get_char(i + 2));
    let d = hex_val_x(s.get_char(i + 3));
    ((a * 16 + b) * 16 + c) * 16 + d
}

/// Relies on `char::from_u32` of std: yields the character with the
/// given code point exactly when the value is a Unicode scalar value,
/// that is, not a surrogate and at most 0x10FFFF.
#[verifier::external_body]
fn char_from_u32(v: u32) -> (r: Option<char>)
    ensures
        (r is Some) <==> (v < 0xD800 || (0xE000 <= v && v <= 0x10FFFF)),
        (r matches Some(c) ==> c as u32 == v),
{
    char::from_u32(v)
}

fn parse_str_body_x(s: &str, n: usize, i: usize) -> (r: Option<(String, usize)>)
    requires
        n == s@.len(),
        i <= n,
    ensures
        str_res_matches(r, parse_str_body(s@, i as int)),
        (r matches Some(p) ==> i < p.1 <= n),
    decreases n - i,
{
    if i >= n {
        None
    } else {
        let c = s.get_char(i);
        if c == '"' {
            let out = String::new();
            proof {
                assert(out@ =~= Seq::<char>::empty());
            }
            Some((out, i + 1))
        } else if c == '\\' {
            if i + 1 < n && s.get_char(i + 1) == 'u' {
                if hex4_check(s, n, i + 2) {
                    let v = hex4_value(s, n, i + 2);
                    if 0xD800 <= v && v <= 0xDBFF {
                        if n - i >= 12 && s.get_char(i + 6) == '\\' && s.get_char(i + 7) == 'u'
                            && hex4_check(s, n, i + 8) {
                            let lo = hex4_value(s, n, i + 8);
                            if 0xDC00 <= lo && lo <= 0xDFFF {
                                match parse_str_body_x(s, n, i + 12) {
                                    Some((t, j)) => {
                                        let cp: u32 = 0x10000 + (v - 0xD800) * 0x400 + (lo
                                            - 0xDC00);
                                        match char_from_u32(cp) {
                                            Some(u) => {
                                                let mut out = String::new();
                                                push_char(&mut out, u);
                                                out.append(t.as_str());
                                                proof {
                                                    vstd::utf8::char_u32_cast(u, cp);
                                                    assert(out@ =~= seq![
                                                        char_of_codepoint(
                                                            combine_surrogates(
                                                                hex4_val(s@, i + 2),
                                                                hex4_val(s@, i + 8),
                                                            ),
                                                        ),
                                                    ] + t@);
                                                }
                                                Some((out, j))
                                            },
                                            None => None,
                                        }
                                    },
                                    None => None,
                                }
                            } else {
                                None
                            }
                        } else {
                            None
                        }
                    } else if 0xDC00 <= v && v <= 0xDFFF {
                        None
                    } else {
                        match parse_str_body_x(s, n, i + 6) {
                            Some((t, j)) => {
                                match char_from_u32(v) {
                                    Some(u) => {
                                        let mut out = String::new();
                                        push_char(&mut out, u);
                                        out.append(t.as_str());
                                        proof {
                                            vstd::utf8::char_u32_cast(u, v);
                                            assert(out@ =~= seq![
                                                char_of_codepoint(hex4_val(s@, i + 2)),
                                            ] + t@);
                                        }
                                        Some((out, j))
                                    },
                                    None => None,
                                }
                            },
                            None => None,
                        }
                    }
                } else {
                    None
                }
            } else if i + 1 < n {
                let e = s.get_char(i + 1);
                if e == '"' || e == '\\' || e == '/' || e == 'b' || e == 'f' || e == 'n' || e
                    == 'r' || e == 't' {
                    match parse_str_body_x(s, n, i + 2) {
                        Some((t, j)) => {
                            let u = unescape_x(e);
                            let mut out = String::new();
                            push_char(&mut out, u);
                            out.append(t.as_str());
                            proof {
                                assert(out@ =~= seq![unescape(s@[i + 1])] + t@);
                            }
                            Some((out, j))
                        },
                        None => None,
                    }
                } else {
                    None
                }
            } else {
                None
            }
        } else {
            match parse_str_body_x(s, n, i + 1) {
                Some((t, j)) => {
                    let mut out = String::new();
                    push_char(&mut out, c);
                    out.append(t.as_str());
                    proof {
                        assert(out@ =~= seq![s@[i as int]] + t@);
                    }
                    Some((out, j))
                },
                None => None,
            }
        }
    }
}

fn parse_string_x(s: &str, n: usize, i: usize) -> (r: Option<(String, usize)>)
    requires
        n == s@.len(),
        i <= n,
    ensures
        str_res_matches(r, parse_string_at(s@, i as int)),
        (r matches Some(p) ==> i < p.1 <= n),
{
    if i < n && s.get_char(i) == '"' {
        parse_str_body_x(s, n, i + 1)
    } else {
        None
    }
}

fn lit_true_x(s: &str, n: usize, i: usize) -> (r: bool)
    requires
        n == s@.len(),
        i <= n,
    ensures
        r == lit_true_at(s@, i as int),
{
    n - i >= 4 && s.get_char(i) == 't' && s.get_char(i + 1) == 'r' && s.get_char(i + 2) == 'u'
        && s.get_char(i + 3) == 'e'
}

fn lit_false_x(s: &str, n: usize, i: usize) -> (r: bool)
    requires
        n == s@.len(),
        i <= n,
    ensures
        r == lit_false_at(s@, i as int),
{
    n - i >= 5 && s.get_char(i) == 'f' && s.get_char(i + 1) == 'a' && s.get_char(i + 2) == 'l'
        && s.get_char(i + 3) == 's' && s.get_char(i + 4) == 'e'
}

fn lit_null_x(s: &str, n: usize, i: usize) -> (r: bool)
    requires
        n == s@.len(),
        i <= n,
    ensures
        r == lit_null_at(s@, i as int),
{
    n - i >= 4 && s.get_char(i) == 'n' && s.get_char(i + 1) == 'u' && s.get_char(i + 2) == 'l'
        && s.get_char(i + 3) == 'l'
}

fn skip_value_x(s: &str, n: usize, i: usize, fuel: usize) -> (r: Option<usize>)
    requires
        n == s@.len(),
        i <= n,
    ensures
        pos_res_matches(r, skip_value_at(s@, i as int, fuel as nat)),
        (r matches Some(p) ==> i < p <= n),
    decreases fuel,
{
    if fuel == 0 {
        None
    } else if i < n && s.get_char(i) == '"' {
        match parse_string_x(s, n, i) {
            Some((t, j)) => Some(j),
            None => None,
        }
    } else if lit_true_x(s, n, i) {
        Some(i + 4)
    } else if lit_false_x(s, n, i) {
        Some(i + 5)
    } else if lit_null_x(s, n, i) {
        Some(i + 4)
    } else if i < n && s.get_char(i) == '{' {
        let j = skip_ws_x(s, n, i + 1);
        if j < n && s.get_char(j) == '}' {
            Some(j + 1)
        } else {
            skip_object_rest_x(s, n, j, fuel - 1)
        }
    } else if i < n && s.get_char(i) == '[' {
        let j = skip_ws_x(s, n, i + 1);
        if j < n && s.get_char(j) == ']' {
            Some(j + 1)
        } else {
            skip_array_rest_x(s, n, j, fuel - 1)
        }
    } else {
        number_end_x(s, n, i)
    }
}

fn skip_object_rest_x(s: &str, n: usize, i: usize, fuel: usize) -> (r: Option<usize>)
    requires
        n == s@.len(),
        i <= n,
    ensures
        pos_res_matches(r, skip_object_rest(s@, i as int, fuel as nat)),
        (r matches Some(p) ==> i < p <= n),
    decreases fuel,
{
    if fuel == 0 {
        None
    } else {
        match parse_string_x(s, n, i) {
            Some((k, j)) => {
                let j2 = skip_ws_x(s, n, j);
                if j2 < n && s.get_char(j2) == ':' {
                    let j3 = skip_ws_x(s, n, j2 + 1);
                    match skip_value_x(s, n, j3, fuel - 1) {
                        Some(j4) => {
                            let j5 = skip_ws_x(s, n, j4);
                            if j5 < n && s.get_char(j5) == ',' {
                                let j6 = skip_ws_x(s, n, j5 + 1);
                                skip_object_rest_x(s, n, j6, fuel - 1)
                            } else if j5 < n && s.get_char(j5) == '}' {
                                Some(j5 + 1)
                            } else {
                                None
                            }
                        },
                        None => None,
                    }
                } else {
                    None
                }
            },
            None => None,
        }
    }
}

fn skip_array_rest_x(s: &str, n: usize, i: usize, fuel: usize) -> (r: Option<usize>)
    requires
        n == s@.len(),
        i <= n,
    ensures
        pos_res_matches(r, skip_array_rest(s@, i as int, fuel as nat)),
        (r matches Some(p) ==> i < p <= n),
    decreases fuel,
{
    if fuel == 0 {
        None
    } else {
        match skip_value_x(s, n, i, fuel - 1) {
            Some(j) => {
                let j2 = skip_ws_x(s, n, j);
                if j2 < n && s.get_char(j2) == ',' {
                    let j3 = skip_ws_x(s, n, j2 + 1);
                    skip_array_rest_x(s, n, j3, fuel - 1)
                } else if j2 < n && s.get_char(j2) == ']' {
                    Some(j2 + 1)
                } else {
                    None
                }
            },
            None => None,
        }
    }
}

fn parse_value_x(s: &str, n: usize, i: usize, fuel: usize) -> (r: Option<(JsonScalar, usize)>)
    requires
        n == s@.len(),
        i <= n,
    ensures
        value_res_matches(r, parse_value_at(s@, i as int, fuel as nat)),
        (r matches Some(p) ==> i < p.1 <= n),
{
    if i >= n {
        None
    } else {
        let c = s.get_char(i);
        if c == '"' {
            match parse_string_x(s, n, i) {
                Some((t, j)) => Some((JsonScalar::Str(t), j)),
                None => None,
            }
        } else if c == '-' || is_digit_x(c) {
            match number_end_x(s, n, i) {
                None => None,
                Some(j) => match int_part_x(s, n, i) {
                    Some((start, d)) => {
                        if j == d && d - start <= 15 {
                            let v = digits_val_x(s, n, start, d);
                            proof {
                                lemma_pow10_le_15((d - start) as nat);
                            }
                            let signed: i64 = if c == '-' {
                                -(v as i64)
                            } else {
                                v as i64
                            };
                            Some((JsonScalar::Int(signed), j))
                        } else {
                            Some((JsonScalar::Other, j))
                        }
                    },
                    None => None,
                },
            }
        } else {
            match skip_value_x(s, n, i, fuel) {
                Some(j) => Some((JsonScalar::Other, j)),
                None => None,
            }
        }
    }
}

fn parse_pair_x(s: &str, n: usize, i: usize, fuel: usize) -> (r: Option<
    ((String, JsonScalar), usize),
>)
    requires
        n == s@.len(),
        i <= n,
    ensures
        (match (r, parse_pair_at(s@, i as int, fuel as nat)) {
            (Some(a), Some(b)) => a.0.0@ == b.0.0 && a.0.1@ == b.0.1 && a.1 as int == b.1,
            (None, None) => true,
            _ => false,
        }),
        (r matches Some(p) ==> i < p.1 <= n),
{
    match parse_string_x(s, n, i) {
        Some((k, j)) => {
            let j2 = skip_ws_x(s, n, j);
            if j2 < n && s.get_char(j2) == ':' {
                let j3 = skip_ws_x(s, n, j2 + 1);
                match parse_value_x(s, n, j3, fuel) {
                    Some((v, j4)) => Some(((k, v), j4)),
                    None => None,
                }
            } else {
                None
            }
        },
        None => None,
    }
}

fn parse_members_x(s: &str, n: usize, i: usize, fuel: usize) -> (r: Option<
    (Vec<(String, JsonScalar)>, usize),
>)
    requires
        n == s@.len(),
        i <= n,
    ensures
        members_res_matches(r, parse_members(s@, i as int, fuel as nat)),
        (r matches Some(p) ==> i < p.1 <= n),
    decreases fuel,
{
    if fuel == 0 {
        None
    } else {
        match parse_pair_x(s, n, i, fuel) {
            Some((kv, j)) => {
                let j2 = skip_ws_x(s, n, j);
                if j2 < n && s.get_char(j2) == ',' {
                    let j3 = skip_ws_x(s, n, j2 + 1);
                    match parse_members_x(s, n, j3, fuel - 1) {
                        Some((mut rest, j4)) => {
                            rest.insert(0, kv);
                            proof {
                                let sp = parse_members(s@, i as int, fuel as nat);
                                assert(fields_view(rest@) =~= sp->Some_0.0);
                            }
                            Some((rest, j4))
                        },
                        None => None,
                    }
                } else {
                    let mut one: Vec<(String, JsonScalar)> = Vec::new();
                    one.push(kv);
                    proof {
                        let sp = parse_members(s@, i as int, fuel as nat);
                        assert(fields_view(one@) =~= sp->Some_0.0);
                    }
                    Some((one, j))
                }
            },
            None => None,
        }
    }
}

/// Parses the whole input as one object, exactly as `parse_object`
/// describes: integer and string fields are kept, fields of any
/// other well-formed shape are recorded as `Other`.
pub fn parse_flat_object(s: &str) -> (r: Option<Vec<(String, JsonScalar)>>)
    ensures
        (match (r, parse_object(s@)) {
            (Some(a), Some(b)) => fields_view(a@) == b,
            (None, None) => true,
            _ => false,
        }),
{
    let n = s.unicode_len();
    let i = skip_ws_x(s, n, 0);
    if i < n && s.get_char(i) == '{' {
        let j = skip_ws_x(s, n, i + 1);
        if j < n && s.get_char(j) == '}' {
            if skip_ws_x(s, n, j + 1) == n {
                let empty: Vec<(String, JsonScalar)> = Vec::new();
                proof {
                    assert(fields_view(empty@) =~= Seq::<(Seq<char>, SpecScalar)>::empty());
                }
                Some(empty)
            } else {
                None
            }
        } else {
            match parse_members_x(s, n, j, n) {
                Some((fields, j2)) => {
                    let k = skip_ws_x(s, n, j2);
                    if k < n && s.get_char(k) == '}' && skip_ws_x(s, n, k + 1) == n {
                        Some(fields)
                    } else {
                        None
                    }
                },
                None => None,
            }
        }
    } else {
        None
    }
}

pub open spec fn lookup_res_matches(r: Option<&JsonScalar>, sp: Option<SpecScalar>) -> bool {
    match (r, sp) {
        (Some(a), Some(b)) => a@ == b,
        (None, None) => true,
        _ => false,
    }
}

fn lookup_from<'a>(fields: &'a Vec<(String, JsonScalar)>, key: &String, i: usize) -> (r:
    Option<&'a JsonScalar>)
    requires
        i <= fields@.len(),
    ensures
        lookup_res_matches(r, field_of(fields_view(fields@).skip(i as int), key@)),
    decreases fields@.len() - i,
{
    if i == fields.len() {
        None
    } else {
        proof {
            assert(fields_view(fields@).skip(i as int).drop_first() =~= fields_view(
                fields@,
            ).skip(i + 1));
        }
        if fields[i].0 == *key {
            Some(&fields[i].1)
        } else {
            lookup_from(fields, key, i + 1)
        }
    }
}

/// The value of the first field named `key`, exactly as `field_of`
/// describes.
pub fn lookup_field<'a>(fields: &'a Vec<(String, JsonScalar)>, key: &str) -> (r: Option<
    &'a JsonScalar,
>)
    ensures
        lookup_res_matches(r, field_of(fields_view(fields@), key@)),
{
    let k = String::from_str(key);
    proof {
        assert(fields_view(fields@).skip(0) =~= fields_view(fields@));
    }
    lookup_from(fields, &k, 0)
}

// ---------------------------------------------------------------
// The serializer side: escaping a string into a quoted JSON string,
// and rendering an array of quoted strings.
// ---------------------------------------------------------------

pub open spec fn hex_char(d: int) -> char
    recommends
        0 <= d < 16,
{
    if d < 10 {
        digit_char(d)
    } else if d == 10 { 'a' }
    else if d == 11 { 'b' }
    else if d == 12 { 'c' }
    else if d == 13 { 'd' }
    else if d == 14 { 'e' }
    else { 'f' }
}

/// How one character is written inside a JSON string: the two-letter
/// escapes for quote, backslash, backspace, form feed, newline,
/// carriage return and tab, a `\u00..` escape for the other control
/// characters, and the character itself otherwise.
pub open spec fn escape_char(c: char) -> Seq<char> {
    if c == '"' {
        seq!['\\', '"']
    } else if c == '\\' {
        seq!['\\', '\\']
    } else if c == '\u{8}' {
        seq!['\\', 'b']
    } else if c == '\u{c}' {
        seq!['\\', 'f']
    } else if c == '\n' {
        seq!['\\', 'n']
    } else if c == '\r' {
        seq!['\\', 'r']
    } else if c == '\t' {
        seq!['\\', 't']
    } else if (c as u32) < 32 {
        seq!['\\', 'u', '0', '0', hex_char((c as u32) as int / 16), hex_char((c as u32) as int % 16)]
    } else {
        seq![c]
    }
}

/// A string's content with every character escaped.
pub open spec fn json_escaped(s: Seq<char>) -> Seq<char>
    decreases s.len(),
{
    if s.len() == 0 {
        Seq::empty()
    } else {
        escape_char(s[0]) + json_escaped(s.drop_first())
    }
}

/// A string as it is written in JSON: quoted and escaped.
pub open spec fn json_quoted(s: Seq<char>) -> Seq<char> {
    seq!['"'] + json_escaped(s) + seq!['"']
}

/// Comma-separated quoted strings.
pub open spec fn join_quoted(items: Seq<Seq<char>>) -> Seq<char>
    decreases items.len(),
{
    if items.len() == 0 {
        Seq::empty()
    } else if items.len() == 1 {
        json_quoted(items[0])
    } else {
        json_quoted(items[0]) + seq![','] + join_quoted(items.drop_first())
    }
}

/// An array of quoted strings.
pub open spec fn json_string_array(items: Seq<Seq<char>>) -> Seq<char> {
    seq!['['] + join_quoted(items) + seq![']']
}

fn hex_char_x(d: u32) -> (c: char)
    requires
        d < 16,
    ensures
        c == hex_char(d as int),
{
    if d == 0 { '0' }
    else if d == 1 { '1' }
    else if d == 2 { '2' }
    else if d == 3 { '3' }
    else if d == 4 { '4' }
    else if d == 5 { '5' }
    else if d == 6 { '6' }
    else if d == 7 { '7' }
    else if d == 8 { '8' }
    else if d == 9 { '9' }
    else if d == 10 { 'a' }
    else if d == 11 { 'b' }
    else if d == 12 { 'c' }
    else if d == 13 { 'd' }
    else if d == 14 { 'e' }
    else { 'f' }
}

fn escape_one(c: char) -> (r: String)
    ensures
        r@ == escape_char(c),
{
    let mut out = String::new();
    if c == '"' {
        push_char(&mut out, '\\');
        push_char(&mut out, '"');
    } else if c == '\\' {
        push_char(&mut out, '\\');
        push_char(&mut out, '\\');
    } else if c == '\u{8}' {
        push_char(&mut out, '\\');
        push_char(&mut out, 'b');
    } else if c == '\u{c}' {
        push_char(&mut out, '\\');
        push_char(&mut out, 'f');
    } else if c == '\n' {
        push_char(&mut out, '\\');
        push_char(&mut out, 'n');
    } else if c == '\r' {
        push_char(&mut out, '\\');
        push_char(&mut out, 'r');
    } else if c == '\t' {
        push_char(&mut out, '\\');
        push_char(&mut out, 't');
    } else if (c as u32) < 32 {
        let u: u32 = c as u32;
        push_char(&mut out, '\\');
        push_char(&mut out, 'u');
        push_char(&mut out, '0');
        push_char(&mut out, '0');
        push_char(&mut out, hex_char_x(u / 16));
        push_char(&mut out, hex_char_x(u % 16));
    } else {
        push_char(&mut out, c);
    }
    proof {
        assert(out@ =~= escape_char(c));
    }
    out
}

fn escaped_from(s: &str, n: usize, i: usize) -> (r: String)
    requires
        n == s@.len(),
        i <= n,
    ensures
        r@ == json_escaped(s@.skip(i as int)),
    decreases n - i,
{
    if i >= n {
        let out = String::new();
        proof {
            assert(s@.skip(i as int) =~= Seq::<char>::empty());
        }
        out
    } else {
        let c = s.get_char(i);
        let head = escape_one(c);
        let tail = escaped_from(s, n, i + 1);
        let out = head.concat(tail.as_str());
        proof {
            assert(s@.skip(i as int).drop_first() =~= s@.skip(i + 1));
            assert(s@.skip(i as int)[0] == s@[i as int]);
        }
        out
    }
}

/// Renders a string as it is written in JSON: quoted, with its
/// content escaped.
pub fn json_quote(s: &str) -> (r: String)
    ensures
        r@ == json_quoted(s@),
{
    let n = s.unicode_len();
    let mut out = String::new();
    push_char(&mut out, '"');
    let body = escaped_from(s, n, 0);
    out.append(body.as_str());
    push_char(&mut out, '"');
    proof {
        assert(s@.skip(0) =~= s@);
        assert(out@ =~= json_quoted(s@));
    }
    out
}

fn join_quoted_from(items: &Vec<String>, i: usize) -> (r: String)
    requires
        i <= items@.len(),
    ensures
        r@ == join_quoted(items.deep_view().skip(i as int)),
    decreases items@.len() - i,
{
    if i >= items.len() {
        let out = String::new();
        proof {
            assert(items.deep_view().skip(i as int) =~= Seq::<Seq<char>>::empty());
        }
        out
    } else if i + 1 == items.len() {
        let out = json_quote(items[i].as_str());
        proof {
            assert(items.deep_view().skip(i as int) =~= seq![items@[i as int]@]);
        }
        out
    } else {
        let mut out = json_quote(items[i].as_str());
        push_char(&mut out, ',');
        let rest = join_quoted_from(items, i + 1);
        out.append(rest.as_str());
        proof {
            assert(items.deep_view().skip(i as int).drop_first() =~= items.deep_view().skip(
                i + 1,
            ));
            assert(items.deep_view().skip(i as int)[0] == items@[i as int]@);
            assert(out@ =~= join_quoted(items.deep_view().skip(i as int)));
        }
        out
    }
}

/// Renders a list of strings as a JSON array of quoted strings.
pub fn json_quote_array(items: &Vec<String>) -> (r: String)
    ensures
        r@ == json_string_array(items.deep_view()),
{
    let mut out = String::new();
    push_char(&mut out, '[');
    let body = join_quoted_from(items, 0);
    out.append(body.as_str());
    push_char(&mut out, ']');
    proof {
        assert(items.deep_view().skip(0) =~= items.deep_view());
        assert(out@ =~= json_string_array(items.deep_view()));
    }
    out
}

} // verus!
