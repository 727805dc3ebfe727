//! The inbound frame grammar: a JSON text is checked and the command's
//! fields are extracted, character by character. The `spec` functions are
//! the grammar's definition; each executable function returns exactly what
//! its spec counterpart denotes.
//!
//! The grammar is JSON with the usual string escapes (`\" \\ \/ \b \f \n
//! \r \t` and `\uXXXX` outside the surrogate range), whitespace between
//! tokens, objects, arrays, `true`, `false`, `null`, and numbers; a
//! number's value is recorded only when it is a plain unsigned integer
//! that fits in sixty-four bits, as only such values are consulted.
use vstd::prelude::*;
use vstd::string::*;
use crate::json::{push_char, spec_escape, spec_escape_char, spec_hex_digit, spec_quoted, str_eq};
use crate::command::{CommandModel, CommandParams, RemoteCommand, RemoteCommandType};

verus! {

broadcast use vstd::utf8::char_u32_cast;

/// Relies on std's `char::from_u32`: for a code point outside the
/// surrogate range and at most `0x10FFFF` it returns the `char` with
/// exactly that scalar value.
#[verifier::external_body]
fn char_from_code(code: u32) -> (c: char)
    requires
        code < 0xD800 || (0xE000 <= code && code <= 0x10FFFF),
    ensures
        c as u32 == code,
{
    char::from_u32(code).unwrap_or(' ')
}

pub open spec fn spec_is_ws(c: char) -> bool {
    c == ' ' || c == '\t' || c == '\n' || c == '\r'
}

pub open spec fn spec_is_digit(c: char) -> bool {
    48 <= (c as u32) && (c as u32) <= 57
}

pub open spec fn spec_hex_val(c: char) -> Option<u32> {
    if 48 <= (c as u32) && (c as u32) <= 57 {
        Option::Some((c as u32 - 48) as u32)
    } else if 97 <= (c as u32) && (c as u32) <= 102 {
        Option::Some((c as u32 - 87) as u32)
    } else if 65 <= (c as u32) && (c as u32) <= 70 {
        Option::Some((c as u32 - 55) as u32)
    } else {
        Option::None
    }
}

fn hex_val(c: char) -> (r: Option<u32>)
    ensures
        r == spec_hex_val(c),
{
    let u = c as u32;
    if 48 <= u && u <= 57 {
        Option::Some(u - 48)
    } else if 97 <= u && u <= 102 {
        Option::Some(u - 87)
    } else if 65 <= u && u <= 70 {
        Option::Some(u - 55)
    } else {
        Option::None
    }
}

/// The first position at or after `i` that does not hold whitespace.
pub open spec fn spec_skip_ws(s: Seq<char>, i: int) -> int
    decreases s.len() - i,
{
    if 0 <= i < s.len() && spec_is_ws(s[i]) {
        spec_skip_ws(s, i + 1)
    } else {
        i
    }
}

fn skip_ws(s: &str, i: usize) -> (r: usize)
    requires
        i <= s@.len(),
    ensures
        r as int == spec_skip_ws(s@, i as int),
        i <= r <= s@.len(),
    decreases s@.len() - i,
{
    let n = s.unicode_len();
    if i < n {
        let c = s.get_char(i);
        if c == ' ' || c == '\t' || c == '\n' || c == '\r' {
            return skip_ws(s, i + 1);
        }
    }
    i
}

/// The body of a JSON string literal from position `i` (just after the
/// opening quote), accumulated onto `acc`: the decoded content and the
/// position just after the closing quote.
pub open spec fn spec_string_rest(s: Seq<char>, i: int, acc: Seq<char>) -> Option<(Seq<char>, int)>
    decreases s.len() - i,
{
    if i < 0 || i >= s.len() {
        Option::None
    } else {
        let c = s[i];
        if c == '"' {
            Option::Some((acc, i + 1))
        } else if c == '\\' {
            if i + 1 >= s.len() {
                Option::None
            } else {
                let e = s[i + 1];
                if e == '"' {
                    spec_string_rest(s, i + 2, acc.push('"'))
                } else if e == '\\' {
                    spec_string_rest(s, i + 2, acc.push('\\'))
                } else if e == '/' {
                    spec_string_rest(s, i + 2, acc.push('/'))
                } else if e == 'b' {
                    spec_string_rest(s, i + 2, acc.push('\u{8}'))
                } else if e == 'f' {
                    spec_string_rest(s, i + 2, acc.push('\u{c}'))
                } else if e == 'n' {
                    spec_string_rest(s, i + 2, acc.push('\n'))
                } else if e == 'r' {
                    spec_string_rest(s, i + 2, acc.push('\r'))
                } else if e == 't' {
                    spec_string_rest(s, i + 2, acc.push('\t'))
                } else if e == 'u' {
                    if i + 5 >= s.len() {
                        Option::None
                    } else {
                        let h0 = spec_hex_val(s[i + 2]);
                        let h1 = spec_hex_val(s[i + 3]);
                        let h2 = spec_hex_val(s[i + 4]);
                        let h3 = spec_hex_val(s[i + 5]);
                        if h0 is Some && h1 is Some && h2 is Some && h3 is Some {
                            let code = h0->Some_0 * 4096 + h1->Some_0 * 256 + h2->Some_0 * 16
                                + h3->Some_0;
                            if 0xD800 <= code && code < 0xE000 {
                                Option::None
                            } else {
                                spec_string_rest(s, i + 6, acc.push((code as u32) as char))
                            }
                        } else {
                            Option::None
                        }
                    }
                } else {
                    Option::None
                }
            }
        } else if (c as u32) < 32 {
            Option::None
        } else {
            spec_string_rest(s, i + 1, acc.push(c))
        }
    }
}

/// A JSON string literal starting at `i` (at its opening quote): its
/// decoded content and the position just after the closing quote.
pub open spec fn spec_parse_string(s: Seq<char>, i: int) -> Option<(Seq<char>, int)> {
    if 0 <= i < s.len() && s[i] == '"' {
        spec_string_rest(s, i + 1, Seq::<char>::empty())
    } else {
        Option::None
    }
}

fn string_rest(s: &str, i: usize, acc: String) -> (r: Option<(String, usize)>)
    requires
        i <= s@.len(),
    ensures
        (r is Some) == (spec_string_rest(s@, i as int, acc@) is Some),
        r is Some ==> r->Some_0.0@ == spec_string_rest(s@, i as int, acc@)->Some_0.0,
        r is Some ==> r->Some_0.1 as int == spec_string_rest(s@, i as int, acc@)->Some_0.1,
        r is Some ==> i < r->Some_0.1 <= s@.len(),
    decreases s@.len() - i,
{
    let n = s.unicode_len();
    if i >= n {
        return Option::None;
    }
    let c = s.get_char(i);
    if c == '"' {
        Option::Some((acc, i + 1))
    } else if c == '\\' {
        if i + 1 >= n {
            return Option::None;
        }
        let e = s.get_char(i + 1);
        if e == '"' {
            let mut a = acc;
            push_char(&mut a, '"');
            string_rest(s, i + 2, a)
        } else if e == '\\' {
            let mut a = acc;
            push_char(&mut a, '\\');
            string_rest(s, i + 2, a)
        } else if e == '/' {
            let mut a = acc;
            push_char(&mut a, '/');
            string_rest(s, i + 2, a)
        } else if e == 'b' {
            let mut a = acc;
            push_char(&mut a, '\u{8}');
            string_rest(s, i + 2, a)
        } else if e == 'f' {
            let mut a = acc;
            push_char(&mut a, '\u{c}');
            string_rest(s, i + 2, a)
        } else if e == 'n' {
            let mut a = acc;
            push_char(&mut a, '\n');
            string_rest(s, i + 2, a)
        } else if e == 'r' {
            let mut a = acc;
            push_char(&mut a, '\r');
            string_rest(s, i + 2, a)
        } else if e == 't' {
            let mut a = acc;
            push_char(&mut a, '\t');
            string_rest(s, i + 2, a)
        } else if e == 'u' {
            if n - (i + 1) < 5 {
                return Option::None;
            }
            let h0 = hex_val(s.get_char(i + 2));
            let h1 = hex_val(s.get_char(i + 3));
            let h2 = hex_val(s.get_char(i + 4));
            let h3 = hex_val(s.get_char(i + 5));
            match (h0, h1, h2, h3) {
                (Option::Some(a0), Option::Some(a1), Option::Some(a2), Option::Some(a3)) => {
                    let code: u32 = a0 * 4096 + a1 * 256 + a2 * 16 + a3;
                    if 0xD800 <= code && code < 0xE000 {
                        Option::None
                    } else {
                        let ch = char_from_code(code);
                        let mut a = acc;
                        push_char(&mut a, ch);
                        string_rest(s, i + 6, a)
                    }
                },
                _ => Option::None,
            }
        } else {
            Option::None
        }
    } else if (c as u32) < 32 {
        Option::None
    } else {
        let mut a = acc;
        push_char(&mut a, c);
        string_rest(s, i + 1, a)
    }
}

pub(crate) fn parse_string_at(s: &str, i: usize) -> (r: Option<(String, usize)>)
    requires
        i <= s@.len(),
    ensures
        (r is Some) == (spec_parse_string(s@, i as int) is Some),
        r is Some ==> r->Some_0.0@ == spec_parse_string(s@, i as int)->Some_0.0,
        r is Some ==> r->Some_0.1 as int == spec_parse_string(s@, i as int)->Some_0.1,
        r is Some ==> i < r->Some_0.1 <= s@.len(),
{
    let n = s.unicode_len();
    if i < n && s.get_char(i) == '"' {
        string_rest(s, i + 1, String::new())
    } else {
        Option::None
    }
}

/// Scans a run of digits from `i`, folding them onto `acc`; the value
/// becomes unknown (`None`) as soon as it would exceed sixty-four bits.
/// Returns the folded value and the position after the last digit.
pub open spec fn spec_scan_uint(s: Seq<char>, i: int, acc: Option<u64>) -> (Option<u64>, int)
    decreases s.len() - i,
{
    if 0 <= i < s.len() && spec_is_digit(s[i]) {
        let d = (s[i] as u32) - 48;
        let acc2 = match acc {
            Option::Some(v) => {
                if v * 10 + d <= u64::MAX {
                    Option::Some((v * 10 + d) as u64)
                } else {
                    Option::None
                }
            },
            Option::None => Option::None,
        };
        spec_scan_uint(s, i + 1, acc2)
    } else {
        (acc, i)
    }
}

/// The optional exponent part of a number; an exponent makes the value
/// unknown, as only plain unsigned integers are recorded.
pub open spec fn spec_number_exp(s: Seq<char>, i: int, val: Option<u64>) -> Option<
    (Option<u64>, int),
> {
    if 0 <= i < s.len() && (s[i] == 'e' || s[i] == 'E') {
        let i2 = if i + 1 < s.len() && (s[i + 1] == '+' || s[i + 1] == '-') {
            i + 2
        } else {
            i + 1
        };
        let j = spec_scan_uint(s, i2, Option::None).1;
        if j == i2 {
            Option::None
        } else {
            Option::Some((Option::None, j))
        }
    } else {
        Option::Some((val, i))
    }
}

/// The optional fraction part of a number followed by the optional
/// exponent; a fraction makes the value unknown.
pub open spec fn spec_number_tail(s: Seq<char>, i: int, val: Option<u64>) -> Option<
    (Option<u64>, int),
> {
    if 0 <= i < s.len() && s[i] == '.' {
        let j = spec_scan_uint(s, i + 1, Option::None).1;
        if j == i + 1 {
            Option::None
        } else {
            spec_number_exp(s, j, Option::None)
        }
    } else {
        spec_number_exp(s, i, val)
    }
}

/// A JSON number starting at `i`: its value when it is a plain unsigned
/// integer that fits in sixty-four bits (`None` otherwise), and the
/// position after its last character.
pub open spec fn spec_parse_number(s: Seq<char>, i: int) -> Option<(Option<u64>, int)> {
    if !(0 <= i < s.len()) {
        Option::None
    } else {
        let neg = s[i] == '-';
        let i1 = if neg {
            i + 1
        } else {
            i
        };
        if !(i1 < s.len() && spec_is_digit(s[i1])) {
            Option::None
        } else if s[i1] == '0' {
            if i1 + 1 < s.len() && spec_is_digit(s[i1 + 1]) {
                Option::None
            } else {
                spec_number_tail(
                    s,
                    i1 + 1,
                    if neg {
                        Option::None
                    } else {
                        Option::Some(0u64)
                    },
                )
            }
        } else {
            let p = spec_scan_uint(s, i1, Option::Some(0u64));
            spec_number_tail(
                s,
                p.1,
                if neg {
                    Option::None
                } else {
                    p.0
                },
            )
        }
    }
}

fn scan_uint(s: &str, i: usize, acc: Option<u64>) -> (r: (Option<u64>, usize))
    requires
        i <= s@.len(),
    ensures
        r.0 == spec_scan_uint(s@, i as int, acc).0,
        r.1 as int == spec_scan_uint(s@, i as int, acc).1,
        i <= r.1 <= s@.len(),
    decreases s@.len() - i,
{
    let n = s.unicode_len();
    if i < n {
        let c = s.get_char(i);
        let u = c as u32;
        if 48 <= u && u <= 57 {
            let d: u64 = (u - 48) as u64;
            let acc2: Option<u64> = match acc {
                Option::Some(v) => match v.checked_mul(10) {
                    Option::Some(w) => w.checked_add(d),
                    Option::None => Option::None,
                },
                Option::None => Option::None,
            };
            return scan_uint(s, i + 1, acc2);
        }
    }
    (acc, i)
}

fn number_exp(s: &str, i: usize, val: Option<u64>) -> (r: Option<(Option<u64>, usize)>)
    requires
        i <= s@.len(),
    ensures
        (r is Some) == (spec_number_exp(s@, i as int, val) is Some),
        r is Some ==> r->Some_0.0 == spec_number_exp(s@, i as int, val)->Some_0.0,
        r is Some ==> r->Some_0.1 as int == spec_number_exp(s@, i as int, val)->Some_0.1,
        r is Some ==> i <= r->Some_0.1 <= s@.len(),
{
    let n = s.unicode_len();
    if i < n {
        let c = s.get_char(i);
        if c == 'e' || c == 'E' {
            let has_sign = i + 1 < n && {
                let d = s.get_char(i + 1);
                d == '+' || d == '-'
            };
            let i2 = if has_sign {
                i + 2
            } else {
                i + 1
            };
            let p = scan_uint(s, i2, Option::None);
            if p.1 == i2 {
                return Option::None;
            }
            return Option::Some((Option::None, p.1));
        }
    }
    Option::Some((val, i))
}

fn number_tail(s: &str, i: usize, val: Option<u64>) -> (r: Option<(Option<u64>, usize)>)
    requires
        i <= s@.len(),
    ensures
        (r is Some) == (spec_number_tail(s@, i as int, val) is Some),
        r is Some ==> r->Some_0.0 == spec_number_tail(s@, i as int, val)->Some_0.0,
        r is Some ==> r->Some_0.1 as int == spec_number_tail(s@, i as int, val)->Some_0.1,
        r is Some ==> i <= r->Some_0.1 <= s@.len(),
{
    let n = s.unicode_len();
    if i < n && s.get_char(i) == '.' {
        let p = scan_uint(s, i + 1, Option::None);
        if p.1 == i + 1 {
            return Option::None;
        }
        return number_exp(s, p.1, Option::None);
    }
    number_exp(s, i, val)
}

pub(crate) fn parse_number_at(s: &str, i: usize) -> (r: Option<(Option<u64>, usize)>)
    requires
        i <= s@.len(),
    ensures
        (r is Some) == (spec_parse_number(s@, i as int) is Some),
        r is Some ==> r->Some_0.0 == spec_parse_number(s@, i as int)->Some_0.0,
        r is Some ==> r->Some_0.1 as int == spec_parse_number(s@, i as int)->Some_0.1,
        r is Some ==> i <= r->Some_0.1 <= s@.len(),
{
    let n = s.unicode_len();
    if i >= n {
        return Option::None;
    }
    let neg = s.get_char(i) == '-';
    let i1 = if neg {
        i + 1
    } else {
        i
    };
    if i1 >= n {
        return Option::None;
    }
    let c1 = s.get_char(i1);
    if !(48 <= c1 as u32 && c1 as u32 <= 57) {
        return Option::None;
    }
    if c1 == '0' {
        if i1 + 1 < n {
            let c2 = s.get_char(i1 + 1);
            if 48 <= c2 as u32 && c2 as u32 <= 57 {
                return Option::None;
            }
        }
        number_tail(
            s,
            i1 + 1,
            if neg {
                Option::None
            } else {
                Option::Some(0u64)
            },
        )
    } else {
        let p = scan_uint(s, i1, Option::Some(0u64));
        number_tail(
            s,
            p.1,
            if neg {
                Option::None
            } else {
                p.0
            },
        )
    }
}

/// Any well-formed JSON value starting at `i`: the position after its
/// last character.
pub open spec fn spec_skip_value(s: Seq<char>, i: int) -> Option<int>
    decreases s.len() - i, 0int,
{
    if !(0 <= i < s.len()) {
        Option::None
    } else {
        let c = s[i];
        if c == '"' {
            match spec_parse_string(s, i) {
                Option::Some(p) => Option::Some(p.1),
                Option::None => Option::None,
            }
        } else if c == '-' || spec_is_digit(c) {
            match spec_parse_number(s, i) {
                Option::Some(p) => Option::Some(p.1),
                Option::None => Option::None,
            }
        } else if c == 't' {
            if i + 4 <= s.len() && s[i + 1] == 'r' && s[i + 2] == 'u' && s[i + 3] == 'e' {
                Option::Some(i + 4)
            } else {
                Option::None
            }
        } else if c == 'f' {
            if i + 5 <= s.len() && s[i + 1] == 'a' && s[i + 2] == 'l' && s[i + 3] == 's' && s[i + 4]
                == 'e' {
                Option::Some(i + 5)
            } else {
                Option::None
            }
        } else if c == 'n' {
            if i + 4 <= s.len() && s[i + 1] == 'u' && s[i + 2] == 'l' && s[i + 3] == 'l' {
                Option::Some(i + 4)
            } else {
                Option::None
            }
        } else if c == '{' {
            let j = spec_skip_ws(s, i + 1);
            if !(i < j <= s.len()) {
                Option::None
            } else if j < s.len() && s[j] == '}' {
                Option::Some(j + 1)
            } else {
                spec_skip_members(s, j)
            }
        } else if c == '[' {
            let j = spec_skip_ws(s, i + 1);
            if !(i < j <= s.len()) {
                Option::None
            } else if j < s.len() && s[j] == ']' {
                Option::Some(j + 1)
            } else {
                spec_skip_elements(s, j)
            }
        } else {
            Option::None
        }
    }
}

/// The members of an object from the start of one member (after `{` or a
/// comma) to the closing brace: the position after the brace.
pub open spec fn spec_skip_members(s: Seq<char>, i: int) -> Option<int>
    decreases s.len() - i, 1int,
{
    let j = spec_skip_ws(s, i);
    match spec_parse_string(s, j) {
        Option::None => Option::None,
        Option::Some(kj) => {
            let j3 = spec_skip_ws(s, kj.1);
            if !(0 <= j3 < s.len() && s[j3] == ':') {
                Option::None
            } else {
                let j4 = spec_skip_ws(s, j3 + 1);
                if !(i <= j4 <= s.len()) {
                    Option::None
                } else {
                    match spec_skip_value(s, j4) {
                        Option::None => Option::None,
                        Option::Some(j5) => {
                            let j6 = spec_skip_ws(s, j5);
                            if !(0 <= j6 < s.len()) {
                                Option::None
                            } else if s[j6] == '}' {
                                Option::Some(j6 + 1)
                            } else if s[j6] == ',' && j6 + 1 > i {
                                spec_skip_members(s, j6 + 1)
                            } else {
                                Option::None
                            }
                        },
                    }
                }
            }
        },
    }
}

/// The elements of an array from the start of one element (after `[` or a
/// comma) to the closing bracket: the position after the bracket.
pub open spec fn spec_skip_elements(s: Seq<char>, i: int) -> Option<int>
    decreases s.len() - i, 1int,
{
    let j = spec_skip_ws(s, i);
    if !(i <= j <= s.len()) {
        Option::None
    } else {
        match spec_skip_value(s, j) {
            Option::None => Option::None,
            Option::Some(j2) => {
                let j3 = spec_skip_ws(s, j2);
                if !(0 <= j3 < s.len()) {
                    Option::None
                } else if s[j3] == ']' {
                    Option::Some(j3 + 1)
                } else if s[j3] == ',' && j3 + 1 > i {
                    spec_skip_elements(s, j3 + 1)
                } else {
                    Option::None
                }
            },
        }
    }
}

pub(crate) fn skip_value(s: &str, i: usize) -> (r: Option<usize>)
    requires
        i <= s@.len(),
    ensures
        (r is Some) == (spec_skip_value(s@, i as int) is Some),
        r is Some ==> r->Some_0 as int == spec_skip_value(s@, i as int)->Some_0,
        r is Some ==> i <= r->Some_0 <= s@.len(),
    decreases s@.len() - i, 0int,
{
    let n = s.unicode_len();
    if i >= n {
        return Option::None;
    }
    let c = s.get_char(i);
    if c == '"' {
        match parse_string_at(s, i) {
            Option::Some(p) => Option::Some(p.1),
            Option::None => Option::None,
        }
    } else if c == '-' || (48 <= c as u32 && c as u32 <= 57) {
        match parse_number_at(s, i) {
            Option::Some(p) => Option::Some(p.1),
            Option::None => Option::None,
        }
    } else if c == 't' {
        if n - i >= 4 && s.get_char(i + 1) == 'r' && s.get_char(i + 2) == 'u' && s.get_char(i + 3)
            == 'e' {
            Option::Some(i + 4)
        } else {
            Option::None
        }
    } else if c == 'f' {
        if n - i >= 5 && s.get_char(i + 1) == 'a' && s.get_char(i + 2) == 'l' && s.get_char(i + 3)
            == 's' && s.get_char(i + 4) == 'e' {
            Option::Some(i + 5)
        } else {
            Option::None
        }
    } else if c == 'n' {
        if n - i >= 4 && s.get_char(i + 1) == 'u' && s.get_char(i + 2) == 'l' && s.get_char(i + 3)
            == 'l' {
            Option::Some(i + 4)
        } else {
            Option::None
        }
    } else if c == '{' {
        let j = skip_ws(s, i + 1);
        if !(i < j && j <= n) {
            Option::None
        } else if j < n && s.get_char(j) == '}' {
            Option::Some(j + 1)
        } else {
            skip_members(s, j)
        }
    } else if c == '[' {
        let j = skip_ws(s, i + 1);
        if !(i < j && j <= n) {
            Option::None
        } else if j < n && s.get_char(j) == ']' {
            Option::Some(j + 1)
        } else {
            skip_elements(s, j)
        }
    } else {
        Option::None
    }
}

pub(crate) fn skip_members(s: &str, i: usize) -> (r: Option<usize>)
    requires
        i <= s@.len(),
    ensures
        (r is Some) == (spec_skip_members(s@, i as int) is Some),
        r is Some ==> r->Some_0 as int == spec_skip_members(s@, i as int)->Some_0,
        r is Some ==> i < r->Some_0 <= s@.len(),
    decreases s@.len() - i, 1int,
{
    let j = skip_ws(s, i);
    match parse_string_at(s, j) {
        Option::None => Option::None,
        Option::Some(kj) => {
            let j3 = skip_ws(s, kj.1);
            let n = s.unicode_len();
            if !(j3 < n && s.get_char(j3) == ':') {
                return Option::None;
            }
            let j4 = skip_ws(s, j3 + 1);
            if !(i <= j4 && j4 <= n) {
                return Option::None;
            }
            match skip_value(s, j4) {
                Option::None => Option::None,
                Option::Some(j5) => {
                    let j6 = skip_ws(s, j5);
                    if !(j6 < n) {
                        return Option::None;
                    }
                    let c6 = s.get_char(j6);
                    if c6 == '}' {
                        Option::Some(j6 + 1)
                    } else if c6 == ',' && j6 + 1 > i {
                        skip_members(s, j6 + 1)
                    } else {
                        Option::None
                    }
                },
            }
        },
    }
}

pub(crate) fn skip_elements(s: &str, i: usize) -> (r: Option<usize>)
    requires
        i <= s@.len(),
    ensures
        (r is Some) == (spec_skip_elements(s@, i as int) is Some),
        r is Some ==> r->Some_0 as int == spec_skip_elements(s@, i as int)->Some_0,
        r is Some ==> i < r->Some_0 <= s@.len(),
    decreases s@.len() - i, 1int,
{
    let j = skip_ws(s, i);
    let n = s.unicode_len();
    if !(i <= j && j <= n) {
        return Option::None;
    }
    match skip_value(s, j) {
        Option::None => Option::None,
        Option::Some(j2) => {
            let j3 = skip_ws(s, j2);
            if !(j3 < n) {
                return Option::None;
            }
            let c3 = s.get_char(j3);
            if c3 == ']' {
                Option::Some(j3 + 1)
            } else if c3 == ',' && j3 + 1 > i {
                skip_elements(s, j3 + 1)
            } else {
                Option::None
            }
        },
    }
}


/// The members of a `params` object from the start of one member: the
/// recorded `delay_seconds` value (the last binding wins, and a binding
/// that is not a plain unsigned integer records no value) and the
/// position after the closing brace.
pub open spec fn spec_parse_params_members(s: Seq<char>, i: int, acc: Option<u64>) -> Option<
    (Option<u64>, int),
>
    decreases s.len() - i,
{
    let j = spec_skip_ws(s, i);
    match spec_parse_string(s, j) {
        Option::None => Option::None,
        Option::Some(kj) => {
            let j3 = spec_skip_ws(s, kj.1);
            if !(0 <= j3 < s.len() && s[j3] == ':') {
                Option::None
            } else {
                let j4 = spec_skip_ws(s, j3 + 1);
                let step: Option<(Option<u64>, int)> = if kj.0 == "delay_seconds"@ {
                    if j4 < s.len() && (s[j4] == '-' || spec_is_digit(s[j4])) {
                        spec_parse_number(s, j4)
                    } else {
                        match spec_skip_value(s, j4) {
                            Option::None => Option::None,
                            Option::Some(e) => Option::Some((Option::None, e)),
                        }
                    }
                } else {
                    match spec_skip_value(s, j4) {
                        Option::None => Option::None,
                        Option::Some(e) => Option::Some((acc, e)),
                    }
                };
                match step {
                    Option::None => Option::None,
                    Option::Some(p) => {
                        let j6 = spec_skip_ws(s, p.1);
                        if !(0 <= j6 < s.len()) {
                            Option::None
                        } else if s[j6] == '}' {
                            Option::Some((p.0, j6 + 1))
                        } else if s[j6] == ',' && j6 + 1 > i {
                            spec_parse_params_members(s, j6 + 1, p.0)
                        } else {
                            Option::None
                        }
                    },
                }
            }
        },
    }
}

/// The value of the `params` field: `null` (no parameters) or an object,
/// from which only `delay_seconds` is recorded.
pub open spec fn spec_parse_params_value(s: Seq<char>, i: int) -> Option<
    (Option<CommandParams>, int),
> {
    if !(0 <= i < s.len()) {
        Option::None
    } else if s[i] == 'n' {
        if i + 4 <= s.len() && s[i + 1] == 'u' && s[i + 2] == 'l' && s[i + 3] == 'l' {
            Option::Some((Option::None, i + 4))
        } else {
            Option::None
        }
    } else if s[i] == '{' {
        let j = spec_skip_ws(s, i + 1);
        if !(i < j <= s.len()) {
            Option::None
        } else if j < s.len() && s[j] == '}' {
            Option::Some((Option::Some(CommandParams { delay_seconds: Option::None }), j + 1))
        } else {
            match spec_parse_params_members(s, j, Option::None) {
                Option::None => Option::None,
                Option::Some(p) => Option::Some(
                    (Option::Some(CommandParams { delay_seconds: p.0 }), p.1),
                ),
            }
        }
    } else {
        Option::None
    }
}

/// What has been gathered of a command while its members are read.
pub ghost struct CmdAcc {
    pub id: Option<Seq<char>>,
    pub kind: Option<RemoteCommandType>,
    pub params: Option<Option<CommandParams>>,
    pub timestamp: Option<Seq<char>>,
}

pub open spec fn spec_empty_acc() -> CmdAcc {
    CmdAcc { id: Option::None, kind: Option::None, params: Option::None, timestamp: Option::None }
}

/// The members of the command object from the start of one member. The
/// known fields must each appear at most once; `id`, `type_` and
/// `timestamp` must be strings; `type_` must name a known kind; unknown
/// members are allowed and skipped.
pub open spec fn spec_parse_cmd_members(s: Seq<char>, i: int, acc: CmdAcc) -> Option<(CmdAcc, int)>
    decreases s.len() - i,
{
    let j = spec_skip_ws(s, i);
    match spec_parse_string(s, j) {
        Option::None => Option::None,
        Option::Some(kj) => {
            let j3 = spec_skip_ws(s, kj.1);
            if !(0 <= j3 < s.len() && s[j3] == ':') {
                Option::None
            } else {
                let j4 = spec_skip_ws(s, j3 + 1);
                let step: Option<(CmdAcc, int)> = if kj.0 == "id"@ {
                    if acc.id is Some {
                        Option::None
                    } else {
                        match spec_parse_string(s, j4) {
                            Option::None => Option::None,
                            Option::Some(v) => Option::Some(
                                (CmdAcc { id: Option::Some(v.0), ..acc }, v.1),
                            ),
                        }
                    }
                } else if kj.0 == "type_"@ {
                    if acc.kind is Some {
                        Option::None
                    } else {
                        match spec_parse_string(s, j4) {
                            Option::None => Option::None,
                            Option::Some(v) => {
                                if v.0 == "LockScreen"@ {
                                    Option::Some(
                                        (
                                            CmdAcc {
                                                kind: Option::Some(RemoteCommandType::LockScreen),
                                                ..acc
                                            },
                                            v.1,
                                        ),
                                    )
                                } else if v.0 == "Shutdown"@ {
                                    Option::Some(
                                        (
                                            CmdAcc {
                                                kind: Option::Some(RemoteCommandType::Shutdown),
                                                ..acc
                                            },
                                            v.1,
                                        ),
                                    )
                                } else {
                                    Option::None
                                }
                            },
                        }
                    }
                } else if kj.0 == "timestamp"@ {
                    if acc.timestamp is Some {
                        Option::None
                    } else {
                        match spec_parse_string(s, j4) {
                            Option::None => Option::None,
                            Option::Some(v) => Option::Some(
                                (CmdAcc { timestamp: Option::Some(v.0), ..acc }, v.1),
                            ),
                        }
                    }
                } else if kj.0 == "params"@ {
                    if acc.params is Some {
                        Option::None
                    } else {
                        match spec_parse_params_value(s, j4) {
                            Option::None => Option::None,
                            Option::Some(v) => Option::Some(
                                (CmdAcc { params: Option::Some(v.0), ..acc }, v.1),
                            ),
                        }
                    }
                } else {
                    match spec_skip_value(s, j4) {
                        Option::None => Option::None,
                        Option::Some(e) => Option::Some((acc, e)),
                    }
                };
                match step {
                    Option::None => Option::None,
                    Option::Some(p) => {
                        let j6 = spec_skip_ws(s, p.1);
                        if !(0 <= j6 < s.len()) {
                            Option::None
                        } else if s[j6] == '}' {
                            Option::Some((p.0, j6 + 1))
                        } else if s[j6] == ',' && j6 + 1 > i {
                            spec_parse_cmd_members(s, j6 + 1, p.0)
                        } else {
                            Option::None
                        }
                    },
                }
            }
        },
    }
}

/// A whole inbound command frame: one JSON object carrying `id`, `type_`
/// and `timestamp` (required) and `params` (optional), with nothing but
/// whitespace after it. Any other text is malformed and denotes no
/// command.
pub open spec fn spec_parse_command(s: Seq<char>) -> Option<CommandModel> {
    let i0 = spec_skip_ws(s, 0);
    if !(0 <= i0 < s.len() && s[i0] == '{') {
        Option::None
    } else {
        let j = spec_skip_ws(s, i0 + 1);
        let body = if j < s.len() && s[j] == '}' {
            Option::Some((spec_empty_acc(), j + 1))
        } else {
            spec_parse_cmd_members(s, j, spec_empty_acc())
        };
        match body {
            Option::None => Option::None,
            Option::Some(p) => {
                let end = spec_skip_ws(s, p.1);
                if end != s.len() {
                    Option::None
                } else if p.0.id is Some && p.0.kind is Some && p.0.timestamp is Some {
                    Option::Some(
                        CommandModel {
                            id: p.0.id->Some_0,
                            kind: p.0.kind->Some_0,
                            params: match p.0.params {
                                Option::Some(pp) => pp,
                                Option::None => Option::None,
                            },
                            timestamp: p.0.timestamp->Some_0,
                        },
                    )
                } else {
                    Option::None
                }
            },
        }
    }
}

fn parse_params_members(s: &str, i: usize, acc: Option<u64>) -> (r: Option<(Option<u64>, usize)>)
    requires
        i <= s@.len(),
    ensures
        (r is Some) == (spec_parse_params_members(s@, i as int, acc) is Some),
        r is Some ==> r->Some_0.0 == spec_parse_params_members(s@, i as int, acc)->Some_0.0,
        r is Some ==> r->Some_0.1 as int == spec_parse_params_members(s@, i as int, acc)->Some_0.1,
        r is Some ==> r->Some_0.1 <= s@.len(),
    decreases s@.len() - i,
{
    let n = s.unicode_len();
    let j = skip_ws(s, i);
    match parse_string_at(s, j) {
        Option::None => Option::None,
        Option::Some(kj) => {
            let j3 = skip_ws(s, kj.1);
            if !(j3 < n && s.get_char(j3) == ':') {
                return Option::None;
            }
            let j4 = skip_ws(s, j3 + 1);
            let step: Option<(Option<u64>, usize)> = if str_eq(kj.0.as_str(), "delay_seconds") {
                if j4 < n && {
                    let c4 = s.get_char(j4);
                    c4 == '-' || (48 <= c4 as u32 && c4 as u32 <= 57)
                } {
                    parse_number_at(s, j4)
                } else {
                    match skip_value(s, j4) {
                        Option::None => Option::None,
                        Option::Some(e) => Option::Some((Option::None, e)),
                    }
                }
            } else {
                match skip_value(s, j4) {
                    Option::None => Option::None,
                    Option::Some(e) => Option::Some((acc, e)),
                }
            };
            match step {
                Option::None => Option::None,
                Option::Some(p) => {
                    let j6 = skip_ws(s, p.1);
                    if !(j6 < n) {
                        return Option::None;
                    }
                    let c6 = s.get_char(j6);
                    if c6 == '}' {
                        Option::Some((p.0, j6 + 1))
                    } else if c6 == ',' && j6 + 1 > i {
                        parse_params_members(s, j6 + 1, p.0)
                    } else {
                        Option::None
                    }
                },
            }
        },
    }
}

fn parse_params_value(s: &str, i: usize) -> (r: Option<(Option<CommandParams>, usize)>)
    requires
        i <= s@.len(),
    ensures
        (r is Some) == (spec_parse_params_value(s@, i as int) is Some),
        r is Some ==> r->Some_0.0 == spec_parse_params_value(s@, i as int)->Some_0.0,
        r is Some ==> r->Some_0.1 as int == spec_parse_params_value(s@, i as int)->Some_0.1,
        r is Some ==> r->Some_0.1 <= s@.len(),
{
    let n = s.unicode_len();
    if i >= n {
        return Option::None;
    }
    let c = s.get_char(i);
    if c == 'n' {
        if n - i >= 4 && s.get_char(i + 1) == 'u' && s.get_char(i + 2) == 'l' && s.get_char(i + 3)
            == 'l' {
            Option::Some((Option::None, i + 4))
        } else {
            Option::None
        }
    } else if c == '{' {
        let j = skip_ws(s, i + 1);
        if !(i < j && j <= n) {
            Option::None
        } else if j < n && s.get_char(j) == '}' {
            Option::Some((Option::Some(CommandParams { delay_seconds: Option::None }), j + 1))
        } else {
            match parse_params_members(s, j, Option::None) {
                Option::None => Option::None,
                Option::Some(p) => Option::Some(
                    (Option::Some(CommandParams { delay_seconds: p.0 }), p.1),
                ),
            }
        }
    } else {
        Option::None
    }
}

struct CmdPartial {
    id: Option<String>,
    kind: Option<RemoteCommandType>,
    params: Option<Option<CommandParams>>,
    timestamp: Option<String>,
}

impl View for CmdPartial {
    type V = CmdAcc;

    closed spec fn view(&self) -> CmdAcc {
        CmdAcc {
            id: match self.id {
                Option::Some(v) => Option::Some(v@),
                Option::None => Option::None,
            },
            kind: self.kind,
            params: self.params,
            timestamp: match self.timestamp {
                Option::Some(v) => Option::Some(v@),
                Option::None => Option::None,
            },
        }
    }
}

fn parse_cmd_members(s: &str, i: usize, acc: CmdPartial) -> (r: Option<(CmdPartial, usize)>)
    requires
        i <= s@.len(),
    ensures
        (r is Some) == (spec_parse_cmd_members(s@, i as int, acc@) is Some),
        r is Some ==> r->Some_0.0@ == spec_parse_cmd_members(s@, i as int, acc@)->Some_0.0,
        r is Some ==> r->Some_0.1 as int == spec_parse_cmd_members(s@, i as int, acc@)->Some_0.1,
        r is Some ==> r->Some_0.1 <= s@.len(),
    decreases s@.len() - i,
{
    let n = s.unicode_len();
    let j = skip_ws(s, i);
    match parse_string_at(s, j) {
        Option::None => Option::None,
        Option::Some(kj) => {
            let j3 = skip_ws(s, kj.1);
            if !(j3 < n && s.get_char(j3) == ':') {
                return Option::None;
            }
            let j4 = skip_ws(s, j3 + 1);
            let step: Option<(CmdPartial, usize)> = if str_eq(kj.0.as_str(), "id") {
                if acc.id.is_some() {
                    Option::None
                } else {
                    match parse_string_at(s, j4) {
                        Option::None => Option::None,
                        Option::Some(v) => Option::Some(
                            (CmdPartial { id: Option::Some(v.0), ..acc }, v.1),
                        ),
                    }
                }
            } else if str_eq(kj.0.as_str(), "type_") {
                if acc.kind.is_some() {
                    Option::None
                } else {
                    match parse_string_at(s, j4) {
                        Option::None => Option::None,
                        Option::Some(v) => {
                            if str_eq(v.0.as_str(), "LockScreen") {
                                Option::Some(
                                    (
                                        CmdPartial {
                                            kind: Option::Some(RemoteCommandType::LockScreen),
                                            ..acc
                                        },
                                        v.1,
                                    ),
                                )
                            } else if str_eq(v.0.as_str(), "Shutdown") {
                                Option::Some(
                                    (
                                        CmdPartial {
                                            kind: Option::Some(RemoteCommandType::Shutdown),
                                            ..acc
                                        },
                                        v.1,
                                    ),
                                )
                            } else {
                                Option::None
                            }
                        },
                    }
                }
            } else if str_eq(kj.0.as_str(), "timestamp") {
                if acc.timestamp.is_some() {
                    Option::None
                } else {
                    match parse_string_at(s, j4) {
                        Option::None => Option::None,
                        Option::Some(v) => Option::Some(
                            (CmdPartial { timestamp: Option::Some(v.0), ..acc }, v.1),
                        ),
                    }
                }
            } else if str_eq(kj.0.as_str(), "params") {
                if acc.params.is_some() {
                    Option::None
                } else {
                    match parse_params_value(s, j4) {
                        Option::None => Option::None,
                        Option::Some(v) => Option::Some(
                            (CmdPartial { params: Option::Some(v.0), ..acc }, v.1),
                        ),
                    }
                }
            } else {
                match skip_value(s, j4) {
                    Option::None => Option::None,
                    Option::Some(e) => Option::Some((acc, e)),
                }
            };
            match step {
                Option::None => Option::None,
                Option::Some(p) => {
                    let j6 = skip_ws(s, p.1);
                    if !(j6 < n) {
                        return Option::None;
                    }
                    let c6 = s.get_char(j6);
                    if c6 == '}' {
                        Option::Some((p.0, j6 + 1))
                    } else if c6 == ',' && j6 + 1 > i {
                        parse_cmd_members(s, j6 + 1, p.0)
                    } else {
                        Option::None
                    }
                },
            }
        },
    }
}

/// Parses one inbound text frame as a command. Returns the command for a
/// well-formed frame and `None` for a malformed one; the contract ties
/// the outcome exactly to the grammar.
pub fn parse_remote_command(text: &str) -> (r: Option<RemoteCommand>)
    ensures
        (r is Some) == (spec_parse_command(text@) is Some),
        r is Some ==> r->Some_0@ == spec_parse_command(text@)->Some_0,
{
    let n = text.unicode_len();
    let i0 = skip_ws(text, 0);
    if !(i0 < n && text.get_char(i0) == '{') {
        return Option::None;
    }
    let j = skip_ws(text, i0 + 1);
    let body: Option<(CmdPartial, usize)> = if j < n && text.get_char(j) == '}' {
        Option::Some(
            (
                CmdPartial {
                    id: Option::None,
                    kind: Option::None,
                    params: Option::None,
                    timestamp: Option::None,
                },
                j + 1,
            ),
        )
    } else {
        parse_cmd_members(
            text,
            j,
            CmdPartial {
                id: Option::None,
                kind: Option::None,
                params: Option::None,
                timestamp: Option::None,
            },
        )
    };
    match body {
        Option::None => Option::None,
        Option::Some(p) => {
            let end = skip_ws(text, p.1);
            if end != n {
                return Option::None;
            }
            let (acc, _) = p;
            match (acc.id, acc.kind, acc.timestamp) {
                (Option::Some(id), Option::Some(kind), Option::Some(timestamp)) => Option::Some(
                    RemoteCommand {
                        id,
                        type_: kind,
                        params: match acc.params {
                            Option::Some(pp) => pp,
                            Option::None => Option::None,
                        },
                        timestamp,
                    },
                ),
                _ => Option::None,
            }
        },
    }
}


proof fn lemma_tail_subrange(s_full: Seq<char>, i: int, w: Seq<char>, el: int)
    requires
        0 <= el <= w.len(),
        0 <= i,
        i + w.len() <= s_full.len(),
        s_full.subrange(i, i + w.len()) == w,
    ensures
        s_full.subrange(i + el, i + w.len()) == w.subrange(el, w.len() as int),
{
    assert(s_full.subrange(i + el, i + w.len()) =~= w.subrange(el, w.len() as int)) by {
        assert forall|k: int| 0 <= k < w.len() - el implies s_full.subrange(i + el, i + w.len())[k]
            == w.subrange(el, w.len() as int)[k] by {
            assert(s_full.subrange(i, i + w.len())[el + k] == s_full[i + el + k]);
            assert(s_full.subrange(i + el, i + w.len())[k] == s_full[i + el + k]);
        }
    }
}

/// Law: rendering and parsing agree on string content — the escaped form
/// of any string, decoded by the grammar from position `i` against the
/// closing quote that follows it, yields that string back, appended to
/// whatever was already decoded.
#[verifier::rlimit(100)]
#[verifier::spinoff_prover]
pub proof fn lemma_escaped_string_decodes(s_full: Seq<char>, i: int, u: Seq<char>, acc: Seq<char>)
    requires
        0 <= i,
        i + spec_escape(u).len() + 1 <= s_full.len(),
        s_full.subrange(i, i + spec_escape(u).len()) == spec_escape(u),
    ensures
        s_full[i + spec_escape(u).len()] == '"' ==> spec_string_rest(s_full, i, acc)
            == Option::Some((acc + u, i + spec_escape(u).len() + 1)),
    decreases u.len(),
{
    if s_full[i + spec_escape(u).len()] != '"' {
        return;
    }
    let w = spec_escape(u);
    if u.len() == 0 {
        assert(w.len() == 0);
        assert(s_full[i] == '"');
        assert(acc + u =~= acc);
    } else {
        let c = u[0];
        let e = spec_escape_char(c);
        let ru = u.drop_first();
        let re = spec_escape(ru);
        assert(w == e + re);
        let el = e.len() as int;
        assert(w.subrange(el, w.len() as int) =~= re);
        lemma_tail_subrange(s_full, i, w, el);
        assert(s_full.subrange(i + el, i + el + re.len()) == re);
        assert(s_full[i + el + re.len()] == '"');
        assert(acc + u =~= acc.push(c) + ru);
        assert(s_full.subrange(i, i + w.len())[0] == s_full[i]);
        assert((e + re)[0] == e[0]);
        assert(s_full[i] == e[0]);
        if c == '"' || c == '\\' || c == '\n' || c == '\r' || c == '\t' {
            assert(el == 2);
            assert(s_full.subrange(i, i + w.len())[1] == s_full[i + 1]);
            assert((e + re)[1] == e[1]);
            assert(s_full[i] == '\\');
            lemma_escaped_string_decodes(s_full, i + 2, ru, acc.push(c));
        } else if (c as u32) < 32 {
            assert(el == 6);
            assert(s_full.subrange(i, i + w.len())[1] == s_full[i + 1]);
            assert(s_full.subrange(i, i + w.len())[2] == s_full[i + 2]);
            assert(s_full.subrange(i, i + w.len())[3] == s_full[i + 3]);
            assert(s_full.subrange(i, i + w.len())[4] == s_full[i + 4]);
            assert(s_full.subrange(i, i + w.len())[5] == s_full[i + 5]);
            assert((e + re)[1] == e[1]);
            assert((e + re)[2] == e[2]);
            assert((e + re)[3] == e[3]);
            assert((e + re)[4] == e[4]);
            assert((e + re)[5] == e[5]);
            assert(s_full[i] == '\\' && s_full[i + 1] == 'u');
            assert(s_full[i + 2] == '0' && s_full[i + 3] == '0');
            let v = (c as u32) as int;
            assert(s_full[i + 4] == spec_hex_digit(v / 16));
            assert(s_full[i + 5] == spec_hex_digit(v % 16));
            assert(spec_hex_val(s_full[i + 2]) == Option::Some(0u32));
            assert(spec_hex_val(s_full[i + 3]) == Option::Some(0u32));
            assert(spec_hex_val(spec_hex_digit(v / 16)) == Option::Some((v / 16) as u32));
            assert(spec_hex_val(spec_hex_digit(v % 16)) == Option::Some((v % 16) as u32));
            let code = 0 * 4096 + 0 * 256 + (v / 16) * 16 + (v % 16);
            assert(code == v);
            assert(code as u32 == c as u32);
            vstd::utf8::char_u32_cast(c, code as u32);
            assert((code as u32) as char == c);
            lemma_escaped_string_decodes(s_full, i + 6, ru, acc.push(c));
        } else {
            assert(el == 1);
            assert(s_full[i] == c);
            lemma_escaped_string_decodes(s_full, i + 1, ru, acc.push(c));
        }
    }
}

/// Law: the codec round trip — any string rendered as a JSON string
/// literal (quoted and escaped) parses back, under the inbound grammar,
/// to exactly that string, consuming the whole literal.
pub proof fn lemma_quoted_string_round_trip(u: Seq<char>)
    ensures
        spec_parse_string(spec_quoted(u), 0) == Option::Some(
            (u, spec_quoted(u).len() as int),
        ),
{
    let q = spec_quoted(u);
    let w = spec_escape(u);
    assert(q.len() == w.len() + 2);
    assert(q[0] == '"');
    assert(q[1 + w.len() as int] == '"');
    assert(q.subrange(1, 1 + w.len() as int) =~= w) by {
        assert forall|k: int| 0 <= k < w.len() implies q.subrange(1, 1 + w.len() as int)[k] == w[k] by {
            assert(q.subrange(1, 1 + w.len() as int)[k] == q[1 + k]);
            assert(q[1 + k] == w[k]);
        }
    }
    lemma_escaped_string_decodes(q, 1, u, Seq::<char>::empty());
    assert(Seq::<char>::empty() + u =~= u);
}

} // verus!
