use vstd::prelude::*;
use vstd::string::StrSliceExecFns;

use crate::driver::{
    CapabilitiesResponse, GetResponse, ListResponse, MountResponse, PathResponse, Scope, Volume,
    VolumeV,
    pairs_view, AttachRequestV, CreateRequest, CreateRequestV, GetRequest, MountRequest,
    PathRequest, RemoveRequest, UnmountRequest,
};

verus! {

// ---------------------------------------------------------------------------
// A JSON codec for the protocol's messages.
//
// Requests are flat objects of strings (plus one string-to-string object for
// create options). Decoding accepts each field under its canonical protocol
// spelling ("Name", "ID", "Opts") or under the record's own field name
// ("name", "id", "options"), rejects a field given twice, skips unknown
// members, and fails on a missing or wrongly-typed field; that failure
// surfaces as a client error, never a crash. Strings
// understand the full escape set, including `\uXXXX` with surrogate pairs.
// Unknown members may nest, so skipping is bounded by [`SKIP_DEPTH`] levels.
// ---------------------------------------------------------------------------

/// How many levels of nesting a skipped unknown member may have.
pub const SKIP_DEPTH: usize = 127;

/// Relies on std's `FromIterator<char> for String` (via `Iterator::collect`):
/// the collected string holds exactly the input characters, in order.
#[verifier::external_body]
fn string_from_chars(v: &Vec<char>) -> (r: String)
    ensures
        r@ == v@,
{
    v.iter().copied().collect()
}

/// Relies on std's `char::from_u32`: it returns a character with the given
/// scalar value exactly when the value is a Unicode scalar, that is, not a
/// surrogate and at most 0x10FFFF.
pub assume_specification[ char::from_u32 ](u: u32) -> (r: Option<char>)
    ensures
        (r matches Some(c) ==> c as u32 == u),
        (r is Some) == (u < 0xD800 || (0xE000 <= u && u <= 0x10FFFF)),
;

// ---------------------------------------------------------------------------
// Whitespace and digits.
// ---------------------------------------------------------------------------

/// The whitespace characters JSON allows between tokens.
pub open spec fn is_ws(c: char) -> bool {
    c == ' ' || c == '\n' || c == '\r' || c == '\t'
}

/// The first position at or after `i` holding no whitespace.
pub open spec fn spec_ws(s: Seq<char>, i: int) -> int
    decreases s.len() - i,
{
    if i < s.len() && is_ws(s[i]) {
        spec_ws(s, i + 1)
    } else {
        i
    }
}

fn is_ws_x(c: char) -> (b: bool)
    ensures
        b == is_ws(c),
{
    c == ' ' || c == '\n' || c == '\r' || c == '\t'
}

fn ws_x(s: &str, n: usize, i: usize) -> (j: usize)
    requires
        n == s@.len(),
        i <= n,
    ensures
        i <= j <= n,
        j as int == spec_ws(s@, i as int),
{
    let mut k: usize = i;
    while k < n && is_ws_x(s.get_char(k))
        invariant
            n == s@.len(),
            i <= k <= n,
            spec_ws(s@, i as int) == spec_ws(s@, k as int),
        decreases n - k,
    {
        k = k + 1;
    }
    k
}

/// Whether `c` is a decimal digit.
pub open spec fn is_digit(c: char) -> bool {
    48 <= c as u32 <= 57
}

/// The first position at or after `i` holding no decimal digit.
pub open spec fn spec_digits(s: Seq<char>, i: int) -> int
    decreases s.len() - i,
{
    if i < s.len() && is_digit(s[i]) {
        spec_digits(s, i + 1)
    } else {
        i
    }
}

fn is_digit_x(c: char) -> (b: bool)
    ensures
        b == is_digit(c),
{
    (c as u32) >= 48 && (c as u32) <= 57
}

fn digits_x(s: &str, n: usize, i: usize) -> (j: usize)
    requires
        n == s@.len(),
        i <= n,
    ensures
        i <= j <= n,
        j as int == spec_digits(s@, i as int),
{
    let mut k: usize = i;
    while k < n && is_digit_x(s.get_char(k))
        invariant
            n == s@.len(),
            i <= k <= n,
            spec_digits(s@, i as int) == spec_digits(s@, k as int),
        decreases n - k,
    {
        k = k + 1;
    }
    k
}

// ---------------------------------------------------------------------------
// Strings.
// ---------------------------------------------------------------------------

/// The numeric value of a hexadecimal digit, in either case.
pub open spec fn spec_hex_val(c: char) -> Option<u32> {
    let u = c as u32;
    if 48 <= u <= 57 {
        Some((u - 48) as u32)
    } else if 97 <= u <= 102 {
        Some((u - 87) as u32)
    } else if 65 <= u <= 70 {
        Some((u - 55) as u32)
    } else {
        None
    }
}

fn hex_val_x(c: char) -> (r: Option<u32>)
    ensures
        r == spec_hex_val(c),
{
    let u = c as u32;
    if 48 <= u && u <= 57 {
        Some(u - 48)
    } else if 97 <= u && u <= 102 {
        Some(u - 87)
    } else if 65 <= u && u <= 70 {
        Some(u - 55)
    } else {
        None
    }
}

/// The value of the four hexadecimal digits at `i`, if they are there.
pub open spec fn spec_hex4(s: Seq<char>, i: int) -> Option<u32> {
    if 0 <= i && i + 4 <= s.len() {
        match (spec_hex_val(s[i]), spec_hex_val(s[i + 1]), spec_hex_val(s[i + 2]), spec_hex_val(
            s[i + 3],
        )) {
            (Some(a), Some(b), Some(c), Some(d)) => Some(
                (a * 4096 + b * 256 + c * 16 + d) as u32,
            ),
            _ => None,
        }
    } else {
        None
    }
}

fn hex4_x(s: &str, n: usize, i: usize) -> (r: Option<u32>)
    requires
        n == s@.len(),
        i <= n,
    ensures
        r == spec_hex4(s@, i as int),
        r matches Some(u) ==> u < 0x10000,
{
    if n - i < 4 {
        return None;
    }
    let a = match hex_val_x(s.get_char(i)) {
        Some(v) => v,
        None => {
            return None;
        },
    };
    let b = match hex_val_x(s.get_char(i + 1)) {
        Some(v) => v,
        None => {
            return None;
        },
    };
    let c = match hex_val_x(s.get_char(i + 2)) {
        Some(v) => v,
        None => {
            return None;
        },
    };
    let d = match hex_val_x(s.get_char(i + 3)) {
        Some(v) => v,
        None => {
            return None;
        },
    };
    Some(a * 4096 + b * 256 + c * 16 + d)
}

/// Decodes the escape starting right after a backslash, at `i`. Yields the
/// position after the escape and the character it denotes. A `\uXXXX` escape
/// may be a surrogate pair; a lone surrogate is an error.
pub open spec fn spec_escape(s: Seq<char>, i: int) -> Option<(int, char)> {
    if !(0 <= i < s.len()) {
        None
    } else {
        let c = s[i];
        if c == '"' {
            Some((i + 1, '"'))
        } else if c == '\\' {
            Some((i + 1, '\\'))
        } else if c == '/' {
            Some((i + 1, '/'))
        } else if c == 'b' {
            Some((i + 1, '\u{8}'))
        } else if c == 'f' {
            Some((i + 1, '\u{c}'))
        } else if c == 'n' {
            Some((i + 1, '\n'))
        } else if c == 'r' {
            Some((i + 1, '\r'))
        } else if c == 't' {
            Some((i + 1, '\t'))
        } else if c == 'u' {
            match spec_hex4(s, i + 1) {
                None => None,
                Some(u) => if u < 0xD800 || u > 0xDFFF {
                    Some((i + 5, u as char))
                } else if u < 0xDC00 {
                    if i + 7 <= s.len() && s[i + 5] == '\\' && s[i + 6] == 'u' {
                        match spec_hex4(s, i + 7) {
                            None => None,
                            Some(l) => if 0xDC00 <= l < 0xE000 {
                                Some(
                                    (
                                        i + 11,
                                        (0x10000 + (u - 0xD800) * 0x400 + (l - 0xDC00)) as u32
                                            as char,
                                    ),
                                )
                            } else {
                                None
                            },
                        }
                    } else {
                        None
                    }
                } else {
                    None
                },
            }
        } else {
            None
        }
    }
}

fn escape_x(s: &str, n: usize, i: usize) -> (r: Option<(usize, char)>)
    requires
        n == s@.len(),
        i <= n,
    ensures
        match r {
            Some((j, c)) => spec_escape(s@, i as int) == Some((j as int, c)) && i < j <= n,
            None => spec_escape(s@, i as int) is None,
        },
{
    if i >= n {
        return None;
    }
    let c = s.get_char(i);
    if c == '"' {
        Some((i + 1, '"'))
    } else if c == '\\' {
        Some((i + 1, '\\'))
    } else if c == '/' {
        Some((i + 1, '/'))
    } else if c == 'b' {
        Some((i + 1, '\u{8}'))
    } else if c == 'f' {
        Some((i + 1, '\u{c}'))
    } else if c == 'n' {
        Some((i + 1, '\n'))
    } else if c == 'r' {
        Some((i + 1, '\r'))
    } else if c == 't' {
        Some((i + 1, '\t'))
    } else if c == 'u' {
        let u = match hex4_x(s, n, i + 1) {
            Some(u) => u,
            None => {
                return None;
            },
        };
        if u < 0xD800 || u > 0xDFFF {
            match char::from_u32(u) {
                Some(ch) => {
                    proof {
                        vstd::utf8::char_u32_cast(ch, u);
                    }
                    Some((i + 5, ch))
                },
                None => {
                    assert(false);
                    None
                },
            }
        } else if u < 0xDC00 {
            if n - i >= 7 && s.get_char(i + 5) == '\\' && s.get_char(i + 6) == 'u' {
                let l = match hex4_x(s, n, i + 7) {
                    Some(l) => l,
                    None => {
                        return None;
                    },
                };
                if 0xDC00 <= l && l < 0xE000 {
                    let code: u32 = 0x10000 + (u - 0xD800) * 0x400 + (l - 0xDC00);
                    match char::from_u32(code) {
                        Some(ch) => {
                            proof {
                                vstd::utf8::char_u32_cast(ch, code);
                            }
                            Some((i + 11, ch))
                        },
                        None => {
                            assert(false);
                            None
                        },
                    }
                } else {
                    None
                }
            } else {
                None
            }
        } else {
            None
        }
    } else {
        None
    }
}

/// Decodes a string body from `i` (just after the opening quote) up to its
/// closing quote, appending to `acc`. Yields the position after the closing
/// quote and the decoded characters. An unescaped control character or an
/// unterminated string is an error.
pub open spec fn spec_string_body(s: Seq<char>, i: int, acc: Seq<char>) -> Option<
    (int, Seq<char>),
>
    decreases s.len() - i,
{
    if !(0 <= i < s.len()) {
        None
    } else if s[i] == '"' {
        Some((i + 1, acc))
    } else if s[i] == '\\' {
        match spec_escape(s, i + 1) {
            None => None,
            Some((j, c)) => if i + 1 < j <= s.len() {
                spec_string_body(s, j, acc.push(c))
            } else {
                None
            },
        }
    } else if (s[i] as u32) < 0x20 {
        None
    } else {
        spec_string_body(s, i + 1, acc.push(s[i]))
    }
}

/// Decodes the string whose opening quote stands at `i`.
pub open spec fn spec_string(s: Seq<char>, i: int) -> Option<(int, Seq<char>)> {
    if 0 <= i < s.len() && s[i] == '"' {
        spec_string_body(s, i + 1, Seq::empty())
    } else {
        None
    }
}

fn string_x(s: &str, n: usize, i: usize) -> (r: Option<(usize, Vec<char>)>)
    requires
        n == s@.len(),
        i <= n,
    ensures
        match r {
            Some((j, v)) => spec_string(s@, i as int) == Some((j as int, v@)) && i < j <= n,
            None => spec_string(s@, i as int) is None,
        },
{
    if i >= n || s.get_char(i) != '"' {
        return None;
    }
    let mut acc: Vec<char> = Vec::new();
    let mut k: usize = i + 1;
    loop
        invariant
            n == s@.len(),
            i + 1 <= k <= n,
            spec_string(s@, i as int) == spec_string_body(s@, k as int, acc@),
        decreases n - k,
    {
        if k >= n {
            return None;
        }
        let c = s.get_char(k);
        if c == '"' {
            return Some((k + 1, acc));
        } else if c == '\\' {
            match escape_x(s, n, k + 1) {
                None => {
                    return None;
                },
                Some((j, ch)) => {
                    acc.push(ch);
                    k = j;
                },
            }
        } else if (c as u32) < 0x20 {
            return None;
        } else {
            acc.push(c);
            k = k + 1;
        }
    }
}

/// Compares two strings character by character.
pub(crate) fn str_eq(a: &str, b: &str) -> (r: bool)
    ensures
        r == (a@ == b@),
{
    let n = a.unicode_len();
    if n != b.unicode_len() {
        return false;
    }
    let mut i: usize = 0;
    while i < n
        invariant
            n == a@.len(),
            n == b@.len(),
            0 <= i <= n,
            forall|k: int| 0 <= k < i ==> a@[k] == b@[k],
        decreases n - i,
    {
        if a.get_char(i) != b.get_char(i) {
            return false;
        }
        i = i + 1;
    }
    proof {
        assert(a@ =~= b@);
    }
    true
}

/// Compares decoded characters against a literal key spelling.
fn chars_eq_str(v: &Vec<char>, s: &str) -> (b: bool)
    ensures
        b == (v@ == s@),
{
    let n = s.unicode_len();
    if v.len() != n {
        return false;
    }
    let mut i: usize = 0;
    while i < n
        invariant
            n == s@.len(),
            v@.len() == n,
            0 <= i <= n,
            forall|k: int| 0 <= k < i ==> v@[k] == s@[k],
        decreases n - i,
    {
        if v[i] != s.get_char(i) {
            return false;
        }
        i = i + 1;
    }
    proof {
        assert(v@ =~= s@);
    }
    true
}

// ---------------------------------------------------------------------------
// Numbers (only ever skipped: no request field is numeric).
// ---------------------------------------------------------------------------

/// The position after the number starting at `i`, if one does.
pub open spec fn spec_number(s: Seq<char>, i: int) -> Option<int> {
    if !(0 <= i < s.len()) {
        None
    } else {
        let i0 = if s[i] == '-' {
            i + 1
        } else {
            i
        };
        if !(i0 < s.len()) {
            None
        } else {
            let i1 = if s[i0] == '0' {
                i0 + 1
            } else if is_digit(s[i0]) {
                spec_digits(s, i0)
            } else {
                i0
            };
            if i1 == i0 {
                None
            } else {
                let i2 = if i1 < s.len() && s[i1] == '.' {
                    if i1 + 1 < s.len() && is_digit(s[i1 + 1]) {
                        spec_digits(s, i1 + 1)
                    } else {
                        -1
                    }
                } else {
                    i1
                };
                if i2 < 0 {
                    None
                } else {
                    let i3 = if i2 < s.len() && (s[i2] == 'e' || s[i2] == 'E') {
                        let ie = if i2 + 1 < s.len() && (s[i2 + 1] == '+' || s[i2 + 1] == '-') {
                            i2 + 2
                        } else {
                            i2 + 1
                        };
                        if ie < s.len() && is_digit(s[ie]) {
                            spec_digits(s, ie)
                        } else {
                            -1
                        }
                    } else {
                        i2
                    };
                    if i3 < 0 {
                        None
                    } else {
                        Some(i3)
                    }
                }
            }
        }
    }
}

fn number_x(s: &str, n: usize, i: usize) -> (r: Option<usize>)
    requires
        n == s@.len(),
        i <= n,
    ensures
        match r {
            Some(j) => spec_number(s@, i as int) == Some(j as int) && i < j <= n,
            None => spec_number(s@, i as int) is None,
        },
{
    if i >= n {
        return None;
    }
    let i0 = if s.get_char(i) == '-' {
        i + 1
    } else {
        i
    };
    if i0 >= n {
        return None;
    }
    let c0 = s.get_char(i0);
    let i1 = if c0 == '0' {
        i0 + 1
    } else if is_digit_x(c0) {
        digits_x(s, n, i0)
    } else {
        i0
    };
    if i1 == i0 {
        return None;
    }
    let i2 = if i1 < n && s.get_char(i1) == '.' {
        if i1 + 1 < n && is_digit_x(s.get_char(i1 + 1)) {
            digits_x(s, n, i1 + 1)
        } else {
            return None;
        }
    } else {
        i1
    };
    let i3 = if i2 < n && (s.get_char(i2) == 'e' || s.get_char(i2) == 'E') {
        let signed = i2 + 1 < n && (s.get_char(i2 + 1) == '+' || s.get_char(i2 + 1) == '-');
        let ie = if signed {
            i2 + 2
        } else {
            i2 + 1
        };
        if ie < n && is_digit_x(s.get_char(ie)) {
            digits_x(s, n, ie)
        } else {
            return None;
        }
    } else {
        i2
    };
    Some(i3)
}

// ---------------------------------------------------------------------------
// Skipping one arbitrary value (an unknown object member).
// ---------------------------------------------------------------------------

/// The position after the value starting at `i`, if a value no more than
/// `depth` containers deep stands there.
pub open spec fn spec_skip_value(s: Seq<char>, i: int, depth: nat) -> Option<int>
    decreases depth, s.len() - i, 0int,
{
    if !(0 <= i < s.len()) {
        None
    } else {
        let c = s[i];
        if c == '"' {
            match spec_string(s, i) {
                None => None,
                Some((j, _)) => Some(j),
            }
        } else if c == 't' {
            if i + 4 <= s.len() && s[i + 1] == 'r' && s[i + 2] == 'u' && s[i + 3] == 'e' {
                Some(i + 4)
            } else {
                None
            }
        } else if c == 'f' {
            if i + 5 <= s.len() && s[i + 1] == 'a' && s[i + 2] == 'l' && s[i + 3] == 's' && s[i + 4]
                == 'e' {
                Some(i + 5)
            } else {
                None
            }
        } else if c == 'n' {
            if i + 4 <= s.len() && s[i + 1] == 'u' && s[i + 2] == 'l' && s[i + 3] == 'l' {
                Some(i + 4)
            } else {
                None
            }
        } else if c == '-' || is_digit(c) {
            spec_number(s, i)
        } else if c == '[' {
            if depth == 0 {
                None
            } else {
                let j = spec_ws(s, i + 1);
                if i < j && j <= s.len() {
                    if j < s.len() && s[j] == ']' {
                        Some(j + 1)
                    } else {
                        spec_skip_items(s, j, (depth - 1) as nat)
                    }
                } else {
                    None
                }
            }
        } else if c == '{' {
            if depth == 0 {
                None
            } else {
                let j = spec_ws(s, i + 1);
                if i < j && j <= s.len() {
                    if j < s.len() && s[j] == '}' {
                        Some(j + 1)
                    } else {
                        spec_skip_fields(s, j, (depth - 1) as nat)
                    }
                } else {
                    None
                }
            }
        } else {
            None
        }
    }
}

/// The position after the remaining array items starting at `i`, closing
/// bracket included.
pub open spec fn spec_skip_items(s: Seq<char>, i: int, depth: nat) -> Option<int>
    decreases depth, s.len() - i, 1int,
{
    match spec_skip_value(s, i, depth) {
        None => None,
        Some(j) => if i < j && j <= s.len() {
            let j2 = spec_ws(s, j);
            if j2 < s.len() && s[j2] == ',' {
                let j3 = spec_ws(s, j2 + 1);
                if i < j3 && j3 <= s.len() {
                    spec_skip_items(s, j3, depth)
                } else {
                    None
                }
            } else if j2 < s.len() && s[j2] == ']' {
                Some(j2 + 1)
            } else {
                None
            }
        } else {
            None
        },
    }
}

/// The position after the remaining object members starting at `i`, closing
/// brace included.
pub open spec fn spec_skip_fields(s: Seq<char>, i: int, depth: nat) -> Option<int>
    decreases depth, s.len() - i, 1int,
{
    match spec_string(s, i) {
        None => None,
        Some((j, _)) => if i < j && j <= s.len() {
            let j2 = spec_ws(s, j);
            if j2 < s.len() && s[j2] == ':' {
                let j3 = spec_ws(s, j2 + 1);
                if i < j3 && j3 <= s.len() {
                    match spec_skip_value(s, j3, depth) {
                        None => None,
                        Some(j4) => if j3 < j4 && j4 <= s.len() {
                            let j5 = spec_ws(s, j4);
                            if j5 < s.len() && s[j5] == ',' {
                                let j6 = spec_ws(s, j5 + 1);
                                if i < j6 && j6 <= s.len() {
                                    spec_skip_fields(s, j6, depth)
                                } else {
                                    None
                                }
                            } else if j5 < s.len() && s[j5] == '}' {
                                Some(j5 + 1)
                            } else {
                                None
                            }
                        } else {
                            None
                        },
                    }
                } else {
                    None
                }
            } else {
                None
            }
        } else {
            None
        },
    }
}

fn skip_value_x(s: &str, n: usize, i: usize, depth: usize) -> (r: Option<usize>)
    requires
        n == s@.len(),
        i <= n,
    ensures
        match r {
            Some(j) => spec_skip_value(s@, i as int, depth as nat) == Some(j as int) && i < j <= n,
            None => spec_skip_value(s@, i as int, depth as nat) is None,
        },
    decreases depth, n - i, 0int,
{
    if i >= n {
        return None;
    }
    let c = s.get_char(i);
    if c == '"' {
        match string_x(s, n, i) {
            None => None,
            Some((j, _)) => Some(j),
        }
    } else if c == 't' {
        if n - i >= 4 && s.get_char(i + 1) == 'r' && s.get_char(i + 2) == 'u' && s.get_char(i + 3)
            == 'e' {
            Some(i + 4)
        } else {
            None
        }
    } else if c == 'f' {
        if n - i >= 5 && s.get_char(i + 1) == 'a' && s.get_char(i + 2) == 'l' && s.get_char(i + 3)
            == 's' && s.get_char(i + 4) == 'e' {
            Some(i + 5)
        } else {
            None
        }
    } else if c == 'n' {
        if n - i >= 4 && s.get_char(i + 1) == 'u' && s.get_char(i + 2) == 'l' && s.get_char(i + 3)
            == 'l' {
            Some(i + 4)
        } else {
            None
        }
    } else if c == '-' || is_digit_x(c) {
        number_x(s, n, i)
    } else if c == '[' {
        if depth == 0 {
            None
        } else {
            let j = ws_x(s, n, i + 1);
            if j < n && s.get_char(j) == ']' {
                Some(j + 1)
            } else {
                skip_items_x(s, n, j, depth - 1)
            }
        }
    } else if c == '{' {
        if depth == 0 {
            None
        } else {
            let j = ws_x(s, n, i + 1);
            if j < n && s.get_char(j) == '}' {
                Some(j + 1)
            } else {
                skip_fields_x(s, n, j, depth - 1)
            }
        }
    } else {
        None
    }
}

fn skip_items_x(s: &str, n: usize, i: usize, depth: usize) -> (r: Option<usize>)
    requires
        n == s@.len(),
        i <= n,
    ensures
        match r {
            Some(j) => spec_skip_items(s@, i as int, depth as nat) == Some(j as int) && i < j <= n,
            None => spec_skip_items(s@, i as int, depth as nat) is None,
        },
    decreases depth, n - i, 1int,
{
    let mut k: usize = i;
    loop
        invariant
            n == s@.len(),
            i <= k <= n,
            spec_skip_items(s@, i as int, depth as nat) == spec_skip_items(
                s@,
                k as int,
                depth as nat,
            ),
        decreases n - k,
    {
        match skip_value_x(s, n, k, depth) {
            None => {
                return None;
            },
            Some(j) => {
                let j2 = ws_x(s, n, j);
                if j2 < n && s.get_char(j2) == ',' {
                    let j3 = ws_x(s, n, j2 + 1);
                    k = j3;
                } else if j2 < n && s.get_char(j2) == ']' {
                    return Some(j2 + 1);
                } else {
                    return None;
                }
            },
        }
    }
}

fn skip_fields_x(s: &str, n: usize, i: usize, depth: usize) -> (r: Option<usize>)
    requires
        n == s@.len(),
        i <= n,
    ensures
        match r {
            Some(j) => spec_skip_fields(s@, i as int, depth as nat) == Some(j as int) && i < j <= n,
            None => spec_skip_fields(s@, i as int, depth as nat) is None,
        },
    decreases depth, n - i, 1int,
{
    let mut k: usize = i;
    loop
        invariant
            n == s@.len(),
            i <= k <= n,
            spec_skip_fields(s@, i as int, depth as nat) == spec_skip_fields(
                s@,
                k as int,
                depth as nat,
            ),
        decreases n - k,
    {
        match string_x(s, n, k) {
            None => {
                return None;
            },
            Some((j, _)) => {
                let j2 = ws_x(s, n, j);
                if !(j2 < n && s.get_char(j2) == ':') {
                    return None;
                }
                let j3 = ws_x(s, n, j2 + 1);
                match skip_value_x(s, n, j3, depth) {
                    None => {
                        return None;
                    },
                    Some(j4) => {
                        let j5 = ws_x(s, n, j4);
                        if j5 < n && s.get_char(j5) == ',' {
                            let j6 = ws_x(s, n, j5 + 1);
                            k = j6;
                        } else if j5 < n && s.get_char(j5) == '}' {
                            return Some(j5 + 1);
                        } else {
                            return None;
                        }
                    },
                }
            },
        }
    }
}

// ---------------------------------------------------------------------------
// Object member separators and the per-request member loops.
// ---------------------------------------------------------------------------

/// After one member: a comma announces another member (and yields the
/// position of its key), a closing brace ends the object.
pub open spec fn spec_sep(s: Seq<char>, i: int) -> Option<(int, bool)> {
    let j = spec_ws(s, i);
    if j < s.len() && s[j] == ',' {
        Some((spec_ws(s, j + 1), true))
    } else if j < s.len() && s[j] == '}' {
        Some((j + 1, false))
    } else {
        None
    }
}

fn sep_x(s: &str, n: usize, i: usize) -> (r: Option<(usize, bool)>)
    requires
        n == s@.len(),
        i <= n,
    ensures
        match r {
            Some((j, more)) => spec_sep(s@, i as int) == Some((j as int, more)) && i < j <= n,
            None => spec_sep(s@, i as int) is None,
        },
{
    let j = ws_x(s, n, i);
    if j < n && s.get_char(j) == ',' {
        Some((ws_x(s, n, j + 1), true))
    } else if j < n && s.get_char(j) == '}' {
        Some((j + 1, false))
    } else {
        None
    }
}

/// The view of an optionally decoded string.
pub open spec fn chars_opt_view(o: Option<Vec<char>>) -> Option<Seq<char>> {
    match o {
        None => None,
        Some(v) => Some(v@),
    }
}

/// The view of an optionally decoded string map.
pub open spec fn map_opt_view(o: Option<Vec<(String, String)>>) -> Option<
    Seq<(Seq<char>, Seq<char>)>,
> {
    match o {
        None => None,
        Some(v) => Some(pairs_view(v@)),
    }
}

/// Decodes the members of a one-field object whose required field is spelled
/// `name` or `Name` and holds a string. `i` stands on a member key; `name`
/// holds the value seen so far. A second occurrence, a wrong kind or a
/// missing field is an error; unknown members are skipped.
pub open spec fn spec_name_fields(s: Seq<char>, i: int, name: Option<Seq<char>>) -> Option<
    (int, Seq<char>),
>
    decreases s.len() - i,
{
    match spec_string(s, i) {
        None => None,
        Some((j, key)) => if !(i < j && j <= s.len()) {
            None
        } else {
            let j2 = spec_ws(s, j);
            if j2 < s.len() && s[j2] == ':' {
                let j3 = spec_ws(s, j2 + 1);
                if key == "name"@ || key == "Name"@ {
                    if name is Some {
                        None
                    } else {
                        match spec_string(s, j3) {
                            None => None,
                            Some((j4, v)) => match spec_sep(s, j4) {
                                None => None,
                                Some((j5, more)) => if more {
                                    if i < j5 && j5 <= s.len() {
                                        spec_name_fields(s, j5, Some(v))
                                    } else {
                                        None
                                    }
                                } else {
                                    Some((j5, v))
                                },
                            },
                        }
                    }
                } else {
                    match spec_skip_value(s, j3, SKIP_DEPTH as nat) {
                        None => None,
                        Some(j4) => match spec_sep(s, j4) {
                            None => None,
                            Some((j5, more)) => if more {
                                if i < j5 && j5 <= s.len() {
                                    spec_name_fields(s, j5, name)
                                } else {
                                    None
                                }
                            } else {
                                match name {
                                    Some(v) => Some((j5, v)),
                                    None => None,
                                }
                            },
                        },
                    }
                }
            } else {
                None
            }
        },
    }
}

fn name_fields_x(s: &str, n: usize, i: usize) -> (r: Option<(usize, String)>)
    requires
        n == s@.len(),
        i <= n,
    ensures
        match r {
            Some((j, v)) => spec_name_fields(s@, i as int, None) == Some((j as int, v@)) && i < j
                <= n,
            None => spec_name_fields(s@, i as int, None) is None,
        },
{
    let mut k: usize = i;
    let mut name: Option<Vec<char>> = None;
    loop
        invariant
            n == s@.len(),
            i <= k <= n,
            spec_name_fields(s@, i as int, None) == spec_name_fields(
                s@,
                k as int,
                chars_opt_view(name),
            ),
        decreases n - k,
    {
        match string_x(s, n, k) {
            None => {
                return None;
            },
            Some((j, key)) => {
                let j2 = ws_x(s, n, j);
                if !(j2 < n && s.get_char(j2) == ':') {
                    return None;
                }
                let j3 = ws_x(s, n, j2 + 1);
                if chars_eq_str(&key, "name") || chars_eq_str(&key, "Name") {
                    if name.is_some() {
                        return None;
                    }
                    match string_x(s, n, j3) {
                        None => {
                            return None;
                        },
                        Some((j4, v)) => match sep_x(s, n, j4) {
                            None => {
                                return None;
                            },
                            Some((j5, more)) => if more {
                                name = Some(v);
                                k = j5;
                            } else {
                                return Some((j5, string_from_chars(&v)));
                            },
                        },
                    }
                } else {
                    match skip_value_x(s, n, j3, SKIP_DEPTH) {
                        None => {
                            return None;
                        },
                        Some(j4) => match sep_x(s, n, j4) {
                            None => {
                                return None;
                            },
                            Some((j5, more)) => if more {
                                k = j5;
                            } else {
                                match &name {
                                    Some(v) => {
                                        return Some((j5, string_from_chars(v)));
                                    },
                                    None => {
                                        return None;
                                    },
                                }
                            },
                        },
                    }
                }
            },
        }
    }
}

/// Decodes the members of a two-field object holding a volume name
/// (`name`/`Name`) and an attachment token (`id`/`ID`), both strings.
pub open spec fn spec_attach_fields(
    s: Seq<char>,
    i: int,
    name: Option<Seq<char>>,
    id: Option<Seq<char>>,
) -> Option<(int, AttachRequestV)>
    decreases s.len() - i,
{
    match spec_string(s, i) {
        None => None,
        Some((j, key)) => if !(i < j && j <= s.len()) {
            None
        } else {
            let j2 = spec_ws(s, j);
            if j2 < s.len() && s[j2] == ':' {
                let j3 = spec_ws(s, j2 + 1);
                if key == "name"@ || key == "Name"@ {
                    if name is Some {
                        None
                    } else {
                        match spec_string(s, j3) {
                            None => None,
                            Some((j4, v)) => match spec_sep(s, j4) {
                                None => None,
                                Some((j5, more)) => if more {
                                    if i < j5 && j5 <= s.len() {
                                        spec_attach_fields(s, j5, Some(v), id)
                                    } else {
                                        None
                                    }
                                } else {
                                    match id {
                                        Some(t) => Some((j5, AttachRequestV { name: v, id: t })),
                                        None => None,
                                    }
                                },
                            },
                        }
                    }
                } else if key == "id"@ || key == "ID"@ {
                    if id is Some {
                        None
                    } else {
                        match spec_string(s, j3) {
                            None => None,
                            Some((j4, t)) => match spec_sep(s, j4) {
                                None => None,
                                Some((j5, more)) => if more {
                                    if i < j5 && j5 <= s.len() {
                                        spec_attach_fields(s, j5, name, Some(t))
                                    } else {
                                        None
                                    }
                                } else {
                                    match name {
                                        Some(v) => Some((j5, AttachRequestV { name: v, id: t })),
                                        None => None,
                                    }
                                },
                            },
                        }
                    }
                } else {
                    match spec_skip_value(s, j3, SKIP_DEPTH as nat) {
                        None => None,
                        Some(j4) => match spec_sep(s, j4) {
                            None => None,
                            Some((j5, more)) => if more {
                                if i < j5 && j5 <= s.len() {
                                    spec_attach_fields(s, j5, name, id)
                                } else {
                                    None
                                }
                            } else {
                                match (name, id) {
                                    (Some(v), Some(t)) => Some(
                                        (j5, AttachRequestV { name: v, id: t }),
                                    ),
                                    _ => None,
                                }
                            },
                        },
                    }
                }
            } else {
                None
            }
        },
    }
}

fn attach_fields_x(s: &str, n: usize, i: usize) -> (r: Option<(usize, String, String)>)
    requires
        n == s@.len(),
        i <= n,
    ensures
        match r {
            Some((j, v, t)) => spec_attach_fields(s@, i as int, None, None) == Some(
                (j as int, AttachRequestV { name: v@, id: t@ }),
            ) && i < j <= n,
            None => spec_attach_fields(s@, i as int, None, None) is None,
        },
{
    let mut k: usize = i;
    let mut name: Option<Vec<char>> = None;
    let mut id: Option<Vec<char>> = None;
    loop
        invariant
            n == s@.len(),
            i <= k <= n,
            spec_attach_fields(s@, i as int, None, None) == spec_attach_fields(
                s@,
                k as int,
                chars_opt_view(name),
                chars_opt_view(id),
            ),
        decreases n - k,
    {
        match string_x(s, n, k) {
            None => {
                return None;
            },
            Some((j, key)) => {
                let j2 = ws_x(s, n, j);
                if !(j2 < n && s.get_char(j2) == ':') {
                    return None;
                }
                let j3 = ws_x(s, n, j2 + 1);
                if chars_eq_str(&key, "name") || chars_eq_str(&key, "Name") {
                    if name.is_some() {
                        return None;
                    }
                    match string_x(s, n, j3) {
                        None => {
                            return None;
                        },
                        Some((j4, v)) => match sep_x(s, n, j4) {
                            None => {
                                return None;
                            },
                            Some((j5, more)) => if more {
                                name = Some(v);
                                k = j5;
                            } else {
                                match &id {
                                    Some(t) => {
                                        return Some(
                                            (j5, string_from_chars(&v), string_from_chars(t)),
                                        );
                                    },
                                    None => {
                                        return None;
                                    },
                                }
                            },
                        },
                    }
                } else if chars_eq_str(&key, "id") || chars_eq_str(&key, "ID") {
                    if id.is_some() {
                        return None;
                    }
                    match string_x(s, n, j3) {
                        None => {
                            return None;
                        },
                        Some((j4, t)) => match sep_x(s, n, j4) {
                            None => {
                                return None;
                            },
                            Some((j5, more)) => if more {
                                id = Some(t);
                                k = j5;
                            } else {
                                match &name {
                                    Some(v) => {
                                        return Some(
                                            (j5, string_from_chars(v), string_from_chars(&t)),
                                        );
                                    },
                                    None => {
                                        return None;
                                    },
                                }
                            },
                        },
                    }
                } else {
                    match skip_value_x(s, n, j3, SKIP_DEPTH) {
                        None => {
                            return None;
                        },
                        Some(j4) => match sep_x(s, n, j4) {
                            None => {
                                return None;
                            },
                            Some((j5, more)) => if more {
                                k = j5;
                            } else {
                                match (&name, &id) {
                                    (Some(v), Some(t)) => {
                                        return Some(
                                            (j5, string_from_chars(v), string_from_chars(t)),
                                        );
                                    },
                                    _ => {
                                        return None;
                                    },
                                }
                            },
                        },
                    }
                }
            },
        }
    }
}

// ---------------------------------------------------------------------------
// String-to-string objects (create options).
// ---------------------------------------------------------------------------

/// Decodes the members of a string-to-string object, `i` standing on a key.
/// Pairs are kept in source order; a repeated key keeps both occurrences, the
/// later one shadowing at lookup, as a hash-map decoder would.
pub open spec fn spec_strmap_members(
    s: Seq<char>,
    i: int,
    acc: Seq<(Seq<char>, Seq<char>)>,
) -> Option<(int, Seq<(Seq<char>, Seq<char>)>)>
    decreases s.len() - i,
{
    match spec_string(s, i) {
        None => None,
        Some((j, k)) => if !(i < j && j <= s.len()) {
            None
        } else {
            let j2 = spec_ws(s, j);
            if j2 < s.len() && s[j2] == ':' {
                let j3 = spec_ws(s, j2 + 1);
                match spec_string(s, j3) {
                    None => None,
                    Some((j4, v)) => match spec_sep(s, j4) {
                        None => None,
                        Some((j5, more)) => if more {
                            if i < j5 && j5 <= s.len() {
                                spec_strmap_members(s, j5, acc.push((k, v)))
                            } else {
                                None
                            }
                        } else {
                            Some((j5, acc.push((k, v))))
                        },
                    },
                }
            } else {
                None
            }
        },
    }
}

/// Decodes the string-to-string object whose opening brace stands at `i`.
pub open spec fn spec_strmap(s: Seq<char>, i: int) -> Option<(int, Seq<(Seq<char>, Seq<char>)>)> {
    if 0 <= i < s.len() && s[i] == '{' {
        let j = spec_ws(s, i + 1);
        if j < s.len() && s[j] == '}' {
            Some((j + 1, Seq::empty()))
        } else if i < j && j <= s.len() {
            spec_strmap_members(s, j, Seq::empty())
        } else {
            None
        }
    } else {
        None
    }
}

fn strmap_x(s: &str, n: usize, i: usize) -> (r: Option<(usize, Vec<(String, String)>)>)
    requires
        n == s@.len(),
        i <= n,
    ensures
        match r {
            Some((j, m)) => spec_strmap(s@, i as int) == Some((j as int, pairs_view(m@))) && i < j
                <= n,
            None => spec_strmap(s@, i as int) is None,
        },
{
    if !(i < n && s.get_char(i) == '{') {
        return None;
    }
    let mut acc: Vec<(String, String)> = Vec::new();
    let j0 = ws_x(s, n, i + 1);
    if j0 < n && s.get_char(j0) == '}' {
        proof {
            assert(pairs_view(acc@) =~= Seq::<(Seq<char>, Seq<char>)>::empty());
        }
        return Some((j0 + 1, acc));
    }
    let mut k: usize = j0;
    proof {
        assert(pairs_view(acc@) =~= Seq::<(Seq<char>, Seq<char>)>::empty());
    }
    loop
        invariant
            n == s@.len(),
            i < k <= n,
            spec_strmap(s@, i as int) == spec_strmap_members(s@, k as int, pairs_view(acc@)),
        decreases n - k,
    {
        match string_x(s, n, k) {
            None => {
                return None;
            },
            Some((j, key)) => {
                let j2 = ws_x(s, n, j);
                if !(j2 < n && s.get_char(j2) == ':') {
                    return None;
                }
                let j3 = ws_x(s, n, j2 + 1);
                match string_x(s, n, j3) {
                    None => {
                        return None;
                    },
                    Some((j4, v)) => match sep_x(s, n, j4) {
                        None => {
                            return None;
                        },
                        Some((j5, more)) => {
                            let ghost acc0 = acc@;
                            let pair = (string_from_chars(&key), string_from_chars(&v));
                            acc.push(pair);
                            proof {
                                assert(pairs_view(acc@) =~= pairs_view(acc0).push((key@, v@)));
                            }
                            if more {
                                k = j5;
                            } else {
                                return Some((j5, acc));
                            }
                        },
                    },
                }
            },
        }
    }
}

/// Decodes the members of the create object: a volume name (`name`/`Name`,
/// a string) and its options (`options`/`Opts`, a string-to-string object).
pub open spec fn spec_create_fields(
    s: Seq<char>,
    i: int,
    name: Option<Seq<char>>,
    opts: Option<Seq<(Seq<char>, Seq<char>)>>,
) -> Option<(int, CreateRequestV)>
    decreases s.len() - i,
{
    match spec_string(s, i) {
        None => None,
        Some((j, key)) => if !(i < j && j <= s.len()) {
            None
        } else {
            let j2 = spec_ws(s, j);
            if j2 < s.len() && s[j2] == ':' {
                let j3 = spec_ws(s, j2 + 1);
                if key == "name"@ || key == "Name"@ {
                    if name is Some {
                        None
                    } else {
                        match spec_string(s, j3) {
                            None => None,
                            Some((j4, v)) => match spec_sep(s, j4) {
                                None => None,
                                Some((j5, more)) => if more {
                                    if i < j5 && j5 <= s.len() {
                                        spec_create_fields(s, j5, Some(v), opts)
                                    } else {
                                        None
                                    }
                                } else {
                                    match opts {
                                        Some(o) => Some(
                                            (j5, CreateRequestV { name: v, options: o }),
                                        ),
                                        None => None,
                                    }
                                },
                            },
                        }
                    }
                } else if key == "options"@ || key == "Opts"@ {
                    if opts is Some {
                        None
                    } else {
                        match spec_strmap(s, j3) {
                            None => None,
                            Some((j4, o)) => match spec_sep(s, j4) {
                                None => None,
                                Some((j5, more)) => if more {
                                    if i < j5 && j5 <= s.len() {
                                        spec_create_fields(s, j5, name, Some(o))
                                    } else {
                                        None
                                    }
                                } else {
                                    match name {
                                        Some(v) => Some(
                                            (j5, CreateRequestV { name: v, options: o }),
                                        ),
                                        None => None,
                                    }
                                },
                            },
                        }
                    }
                } else {
                    match spec_skip_value(s, j3, SKIP_DEPTH as nat) {
                        None => None,
                        Some(j4) => match spec_sep(s, j4) {
                            None => None,
                            Some((j5, more)) => if more {
                                if i < j5 && j5 <= s.len() {
                                    spec_create_fields(s, j5, name, opts)
                                } else {
                                    None
                                }
                            } else {
                                match (name, opts) {
                                    (Some(v), Some(o)) => Some(
                                        (j5, CreateRequestV { name: v, options: o }),
                                    ),
                                    _ => None,
                                }
                            },
                        },
                    }
                }
            } else {
                None
            }
        },
    }
}

fn create_fields_x(s: &str, n: usize, i: usize) -> (r: Option<(usize, CreateRequest)>)
    requires
        n == s@.len(),
        i <= n,
    ensures
        match r {
            Some((j, req)) => spec_create_fields(s@, i as int, None, None) == Some(
                (j as int, req@),
            ) && i < j <= n,
            None => spec_create_fields(s@, i as int, None, None) is None,
        },
{
    let mut k: usize = i;
    let mut name: Option<Vec<char>> = None;
    let mut opts: Option<Vec<(String, String)>> = None;
    loop
        invariant
            n == s@.len(),
            i <= k <= n,
            spec_create_fields(s@, i as int, None, None) == spec_create_fields(
                s@,
                k as int,
                chars_opt_view(name),
                map_opt_view(opts),
            ),
        decreases n - k,
    {
        match string_x(s, n, k) {
            None => {
                return None;
            },
            Some((j, key)) => {
                let j2 = ws_x(s, n, j);
                if !(j2 < n && s.get_char(j2) == ':') {
                    return None;
                }
                let j3 = ws_x(s, n, j2 + 1);
                if chars_eq_str(&key, "name") || chars_eq_str(&key, "Name") {
                    if name.is_some() {
                        return None;
                    }
                    match string_x(s, n, j3) {
                        None => {
                            return None;
                        },
                        Some((j4, v)) => match sep_x(s, n, j4) {
                            None => {
                                return None;
                            },
                            Some((j5, more)) => if more {
                                name = Some(v);
                                k = j5;
                            } else {
                                match opts {
                                    Some(o) => {
                                        return Some(
                                            (
                                                j5,
                                                CreateRequest {
                                                    name: string_from_chars(&v),
                                                    options: o,
                                                },
                                            ),
                                        );
                                    },
                                    None => {
                                        return None;
                                    },
                                }
                            },
                        },
                    }
                } else if chars_eq_str(&key, "options") || chars_eq_str(&key, "Opts") {
                    if opts.is_some() {
                        return None;
                    }
                    match strmap_x(s, n, j3) {
                        None => {
                            return None;
                        },
                        Some((j4, o)) => match sep_x(s, n, j4) {
                            None => {
                                return None;
                            },
                            Some((j5, more)) => if more {
                                opts = Some(o);
                                k = j5;
                            } else {
                                match &name {
                                    Some(v) => {
                                        return Some(
                                            (
                                                j5,
                                                CreateRequest {
                                                    name: string_from_chars(v),
                                                    options: o,
                                                },
                                            ),
                                        );
                                    },
                                    None => {
                                        return None;
                                    },
                                }
                            },
                        },
                    }
                } else {
                    match skip_value_x(s, n, j3, SKIP_DEPTH) {
                        None => {
                            return None;
                        },
                        Some(j4) => match sep_x(s, n, j4) {
                            None => {
                                return None;
                            },
                            Some((j5, more)) => if more {
                                k = j5;
                            } else {
                                match (name, opts) {
                                    (Some(v), Some(o)) => {
                                        return Some(
                                            (
                                                j5,
                                                CreateRequest {
                                                    name: string_from_chars(&v),
                                                    options: o,
                                                },
                                            ),
                                        );
                                    },
                                    _ => {
                                        return None;
                                    },
                                }
                            },
                        },
                    }
                }
            },
        }
    }
}

// ---------------------------------------------------------------------------
// The request decoders.
// ---------------------------------------------------------------------------

/// Decodes a whole one-string-field request body (remove, path, get),
/// yielding the volume name.
pub open spec fn spec_decode_name_req(s: Seq<char>) -> Option<Seq<char>> {
    let i = spec_ws(s, 0);
    if i < s.len() && s[i] == '{' {
        let j = spec_ws(s, i + 1);
        if j < s.len() && s[j] == '}' {
            None
        } else if i < j && j <= s.len() {
            match spec_name_fields(s, j, None) {
                None => None,
                Some((k, v)) => if spec_ws(s, k) == s.len() {
                    Some(v)
                } else {
                    None
                },
            }
        } else {
            None
        }
    } else {
        None
    }
}

/// Decodes a whole mount or unmount request body.
pub open spec fn spec_decode_attach(s: Seq<char>) -> Option<AttachRequestV> {
    let i = spec_ws(s, 0);
    if i < s.len() && s[i] == '{' {
        let j = spec_ws(s, i + 1);
        if j < s.len() && s[j] == '}' {
            None
        } else if i < j && j <= s.len() {
            match spec_attach_fields(s, j, None, None) {
                None => None,
                Some((k, v)) => if spec_ws(s, k) == s.len() {
                    Some(v)
                } else {
                    None
                },
            }
        } else {
            None
        }
    } else {
        None
    }
}

/// Decodes a whole create request body.
pub open spec fn spec_decode_create(s: Seq<char>) -> Option<CreateRequestV> {
    let i = spec_ws(s, 0);
    if i < s.len() && s[i] == '{' {
        let j = spec_ws(s, i + 1);
        if j < s.len() && s[j] == '}' {
            None
        } else if i < j && j <= s.len() {
            match spec_create_fields(s, j, None, None) {
                None => None,
                Some((k, v)) => if spec_ws(s, k) == s.len() {
                    Some(v)
                } else {
                    None
                },
            }
        } else {
            None
        }
    } else {
        None
    }
}

fn decode_name_x(body: &str) -> (r: Option<String>)
    ensures
        match r {
            Some(v) => spec_decode_name_req(body@) == Some(v@),
            None => spec_decode_name_req(body@) is None,
        },
{
    let n = body.unicode_len();
    let i = ws_x(body, n, 0);
    if !(i < n && body.get_char(i) == '{') {
        return None;
    }
    let j = ws_x(body, n, i + 1);
    if j < n && body.get_char(j) == '}' {
        return None;
    }
    match name_fields_x(body, n, j) {
        None => None,
        Some((k, v)) => {
            if ws_x(body, n, k) == n {
                Some(v)
            } else {
                None
            }
        },
    }
}

fn decode_attach_x(body: &str) -> (r: Option<(String, String)>)
    ensures
        match r {
            Some((v, t)) => spec_decode_attach(body@) == Some(AttachRequestV { name: v@, id: t@ }),
            None => spec_decode_attach(body@) is None,
        },
{
    let n = body.unicode_len();
    let i = ws_x(body, n, 0);
    if !(i < n && body.get_char(i) == '{') {
        return None;
    }
    let j = ws_x(body, n, i + 1);
    if j < n && body.get_char(j) == '}' {
        return None;
    }
    match attach_fields_x(body, n, j) {
        None => None,
        Some((k, v, t)) => {
            if ws_x(body, n, k) == n {
                Some((v, t))
            } else {
                None
            }
        },
    }
}

/// Decodes a `/VolumeDriver.Create` body.
pub fn decode_create_request(body: &str) -> (r: Option<CreateRequest>)
    ensures
        match r {
            Some(req) => spec_decode_create(body@) == Some(req@),
            None => spec_decode_create(body@) is None,
        },
{
    let n = body.unicode_len();
    let i = ws_x(body, n, 0);
    if !(i < n && body.get_char(i) == '{') {
        return None;
    }
    let j = ws_x(body, n, i + 1);
    if j < n && body.get_char(j) == '}' {
        return None;
    }
    match create_fields_x(body, n, j) {
        None => None,
        Some((k, req)) => {
            if ws_x(body, n, k) == n {
                Some(req)
            } else {
                None
            }
        },
    }
}

/// Decodes a `/VolumeDriver.Remove` body.
pub fn decode_remove_request(body: &str) -> (r: Option<RemoveRequest>)
    ensures
        match r {
            Some(req) => spec_decode_name_req(body@) == Some(req.name@),
            None => spec_decode_name_req(body@) is None,
        },
{
    match decode_name_x(body) {
        Some(v) => Some(RemoveRequest { name: v }),
        None => None,
    }
}

/// Decodes a `/VolumeDriver.Path` body.
pub fn decode_path_request(body: &str) -> (r: Option<PathRequest>)
    ensures
        match r {
            Some(req) => spec_decode_name_req(body@) == Some(req.name@),
            None => spec_decode_name_req(body@) is None,
        },
{
    match decode_name_x(body) {
        Some(v) => Some(PathRequest { name: v }),
        None => None,
    }
}

/// Decodes a `/VolumeDriver.Get` body.
pub fn decode_get_request(body: &str) -> (r: Option<GetRequest>)
    ensures
        match r {
            Some(req) => spec_decode_name_req(body@) == Some(req.name@),
            None => spec_decode_name_req(body@) is None,
        },
{
    match decode_name_x(body) {
        Some(v) => Some(GetRequest { name: v }),
        None => None,
    }
}

/// Decodes a `/VolumeDriver.Mount` body.
pub fn decode_mount_request(body: &str) -> (r: Option<MountRequest>)
    ensures
        match r {
            Some(req) => spec_decode_attach(body@) == Some(req@),
            None => spec_decode_attach(body@) is None,
        },
{
    match decode_attach_x(body) {
        Some((v, t)) => Some(MountRequest { name: v, id: t }),
        None => None,
    }
}

/// Decodes a `/VolumeDriver.Unmount` body.
pub fn decode_unmount_request(body: &str) -> (r: Option<UnmountRequest>)
    ensures
        match r {
            Some(req) => spec_decode_attach(body@) == Some(req@),
            None => spec_decode_attach(body@) is None,
        },
{
    match decode_attach_x(body) {
        Some((v, t)) => Some(UnmountRequest { name: v, id: t }),
        None => None,
    }
}

// ---------------------------------------------------------------------------
// Encoders. Responses always emit the canonical protocol spellings, with
// strings escaped as a JSON serializer would: quote, backslash and the named
// control escapes short, any other control character as `\u00XX`.
// ---------------------------------------------------------------------------

/// The hexadecimal digit for a value below 16.
pub open spec fn hex_digit(u: u32) -> char {
    if u == 0 {
        '0'
    } else if u == 1 {
        '1'
    } else if u == 2 {
        '2'
    } else if u == 3 {
        '3'
    } else if u == 4 {
        '4'
    } else if u == 5 {
        '5'
    } else if u == 6 {
        '6'
    } else if u == 7 {
        '7'
    } else if u == 8 {
        '8'
    } else if u == 9 {
        '9'
    } else if u == 10 {
        'a'
    } else if u == 11 {
        'b'
    } else if u == 12 {
        'c'
    } else if u == 13 {
        'd'
    } else if u == 14 {
        'e'
    } else {
        'f'
    }
}

fn hex_digit_x(u: u32) -> (c: char)
    requires
        u < 16,
    ensures
        c == hex_digit(u),
{
    if u == 0 {
        '0'
    } else if u == 1 {
        '1'
    } else if u == 2 {
        '2'
    } else if u == 3 {
        '3'
    } else if u == 4 {
        '4'
    } else if u == 5 {
        '5'
    } else if u == 6 {
        '6'
    } else if u == 7 {
        '7'
    } else if u == 8 {
        '8'
    } else if u == 9 {
        '9'
    } else if u == 10 {
        'a'
    } else if u == 11 {
        'b'
    } else if u == 12 {
        'c'
    } else if u == 13 {
        'd'
    } else if u == 14 {
        'e'
    } else {
        'f'
    }
}

/// How one character is written inside an encoded JSON string.
pub open spec fn esc_char(c: char) -> Seq<char> {
    if c == '"' {
        seq!['\\', '"']
    } else if c == '\\' {
        seq!['\\', '\\']
    } else if c == '\u{8}' {
        seq!['\\', 'b']
    } else if c == '\t' {
        seq!['\\', 't']
    } else if c == '\n' {
        seq!['\\', 'n']
    } else if c == '\u{c}' {
        seq!['\\', 'f']
    } else if c == '\r' {
        seq!['\\', 'r']
    } else if (c as u32) < 0x20 {
        seq!['\\', 'u', '0', '0', hex_digit((c as u32) / 16), hex_digit((c as u32) % 16)]
    } else {
        seq![c]
    }
}

/// The escaped form of the characters of `s` from `i` on.
pub open spec fn enc_str_body(s: Seq<char>, i: int) -> Seq<char>
    decreases s.len() - i,
{
    if 0 <= i < s.len() {
        esc_char(s[i]) + enc_str_body(s, i + 1)
    } else {
        Seq::empty()
    }
}

/// The encoded form of the string `s`, quotes included.
pub open spec fn enc_string(s: Seq<char>) -> Seq<char> {
    seq!['"'] + enc_str_body(s, 0) + seq!['"']
}

fn enc_string_x(s: &str) -> (r: String)
    ensures
        r@ == enc_string(s@),
{
    let n = s.unicode_len();
    let mut out: Vec<char> = Vec::new();
    out.push('"');
    let mut i: usize = 0;
    proof {
        assert(out@ + enc_str_body(s@, 0) + seq!['"'] =~= enc_string(s@));
    }
    while i < n
        invariant
            n == s@.len(),
            0 <= i <= n,
            out@ + enc_str_body(s@, i as int) + seq!['"'] =~= enc_string(s@),
        decreases n - i,
    {
        let ghost out0 = out@;
        let c = s.get_char(i);
        if c == '"' {
            out.push('\\');
            out.push('"');
        } else if c == '\\' {
            out.push('\\');
            out.push('\\');
        } else if c == '\u{8}' {
            out.push('\\');
            out.push('b');
        } else if c == '\t' {
            out.push('\\');
            out.push('t');
        } else if c == '\n' {
            out.push('\\');
            out.push('n');
        } else if c == '\u{c}' {
            out.push('\\');
            out.push('f');
        } else if c == '\r' {
            out.push('\\');
            out.push('r');
        } else if (c as u32) < 0x20 {
            out.push('\\');
            out.push('u');
            out.push('0');
            out.push('0');
            out.push(hex_digit_x((c as u32) / 16));
            out.push(hex_digit_x((c as u32) % 16));
        } else {
            out.push(c);
        }
        proof {
            assert(out@ =~= out0 + esc_char(s@[i as int]));
            assert(out@ + enc_str_body(s@, i as int + 1) + seq!['"'] =~= out0 + enc_str_body(
                s@,
                i as int,
            ) + seq!['"']);
        }
        i = i + 1;
    }
    out.push('"');
    proof {
        assert(out@ =~= enc_string(s@));
    }
    string_from_chars(&out)
}

/// The encoded members of a string-to-string object from pair `i` on.
pub open spec fn enc_pairs_body(ps: Seq<(Seq<char>, Seq<char>)>, i: int) -> Seq<char>
    decreases ps.len() - i,
{
    if 0 <= i < ps.len() {
        enc_string(ps[i].0) + seq![':'] + enc_string(ps[i].1) + (if i + 1 < ps.len() {
            seq![',']
        } else {
            Seq::empty()
        }) + enc_pairs_body(ps, i + 1)
    } else {
        Seq::empty()
    }
}

/// The encoded form of a string-to-string object.
pub open spec fn enc_strmap(ps: Seq<(Seq<char>, Seq<char>)>) -> Seq<char> {
    seq!['{'] + enc_pairs_body(ps, 0) + seq!['}']
}

fn enc_strmap_x(m: &Vec<(String, String)>) -> (r: String)
    ensures
        r@ == enc_strmap(pairs_view(m@)),
{
    let mut out = String::from_str("{");
    let n = m.len();
    let mut i: usize = 0;
    proof {
        reveal_strlit("{");
        reveal_strlit("}");
        reveal_strlit(":");
        reveal_strlit(",");
        assert(out@ + enc_pairs_body(pairs_view(m@), 0) + seq!['}'] =~= enc_strmap(pairs_view(m@)));
    }
    while i < n
        invariant
            n == m@.len(),
            0 <= i <= n,
            out@ + enc_pairs_body(pairs_view(m@), i as int) + seq!['}'] =~= enc_strmap(
                pairs_view(m@),
            ),
        decreases n - i,
    {
        let ghost out0 = out@;
        out.append(enc_string_x(m[i].0.as_str()).as_str());
        out.append(":");
        out.append(enc_string_x(m[i].1.as_str()).as_str());
        if i + 1 < n {
            out.append(",");
        }
        proof {
            reveal_strlit(":");
            reveal_strlit(",");
            assert(out@ =~= out0 + (enc_string(pairs_view(m@)[i as int].0) + seq![':'] + enc_string(
                pairs_view(m@)[i as int].1,
            ) + (if i as int + 1 < pairs_view(m@).len() {
                seq![',']
            } else {
                Seq::<char>::empty()
            })));
            assert(out@ + enc_pairs_body(pairs_view(m@), i as int + 1) + seq!['}'] =~= out0
                + enc_pairs_body(pairs_view(m@), i as int) + seq!['}']);
        }
        i = i + 1;
    }
    out.append("}");
    proof {
        reveal_strlit("}");
        assert(out@ =~= enc_strmap(pairs_view(m@)));
    }
    out
}

/// The encoded form of one volume.
pub open spec fn enc_volume(v: VolumeV) -> Seq<char> {
    "{\"Name\":"@ + enc_string(v.name) + ",\"Mountpoint\":"@ + enc_string(v.mountpoint)
        + ",\"Status\":"@ + enc_strmap(v.status) + "}"@
}

fn enc_volume_x(v: &Volume) -> (r: String)
    ensures
        r@ == enc_volume(v@),
{
    let mut out = String::from_str("{\"Name\":");
    out.append(enc_string_x(v.name.as_str()).as_str());
    out.append(",\"Mountpoint\":");
    out.append(enc_string_x(v.mountpoint.as_str()).as_str());
    out.append(",\"Status\":");
    out.append(enc_strmap_x(&v.status).as_str());
    out.append("}");
    proof {
        assert(out@ =~= enc_volume(v@));
    }
    out
}

/// The encoded volumes of a list reply from index `i` on.
pub open spec fn enc_volumes_body(vs: Seq<VolumeV>, i: int) -> Seq<char>
    decreases vs.len() - i,
{
    if 0 <= i < vs.len() {
        enc_volume(vs[i]) + (if i + 1 < vs.len() {
            seq![',']
        } else {
            Seq::empty()
        }) + enc_volumes_body(vs, i + 1)
    } else {
        Seq::empty()
    }
}

/// The empty-object reply.
pub open spec fn enc_null() -> Seq<char> {
    "{}"@
}

/// The reply carrying a mountpoint (mount and path).
pub open spec fn enc_mountpoint_obj(mp: Seq<char>) -> Seq<char> {
    "{\"Mountpoint\":"@ + enc_string(mp) + "}"@
}

/// The get reply: the volume, or null when absent.
pub open spec fn enc_get(v: Option<VolumeV>) -> Seq<char> {
    match v {
        None => "{\"Volume\":null}"@,
        Some(vol) => "{\"Volume\":"@ + enc_volume(vol) + "}"@,
    }
}

/// The list reply.
pub open spec fn enc_list(vs: Seq<VolumeV>) -> Seq<char> {
    "{\"Volumes\":["@ + enc_volumes_body(vs, 0) + "]}"@
}

/// The capabilities reply for a scope.
pub open spec fn enc_caps(scope: Scope) -> Seq<char> {
    match scope {
        Scope::Local => "{\"Capabilities\":{\"Scope\":\"local\"}}"@,
        Scope::Global => "{\"Capabilities\":{\"Scope\":\"global\"}}"@,
    }
}

/// Encodes the empty-object reply used by create, remove and unmount.
pub fn encode_null_response() -> (r: String)
    ensures
        r@ == enc_null(),
{
    String::from_str("{}")
}

/// Encodes a mount reply.
pub fn encode_mount_response(resp: &MountResponse) -> (r: String)
    ensures
        r@ == enc_mountpoint_obj(resp.mountpoint@),
{
    let mut out = String::from_str("{\"Mountpoint\":");
    out.append(enc_string_x(resp.mountpoint.as_str()).as_str());
    out.append("}");
    proof {
        assert(out@ =~= enc_mountpoint_obj(resp.mountpoint@));
    }
    out
}

/// Encodes a path reply.
pub fn encode_path_response(resp: &PathResponse) -> (r: String)
    ensures
        r@ == enc_mountpoint_obj(resp.mountpoint@),
{
    let mut out = String::from_str("{\"Mountpoint\":");
    out.append(enc_string_x(resp.mountpoint.as_str()).as_str());
    out.append("}");
    proof {
        assert(out@ =~= enc_mountpoint_obj(resp.mountpoint@));
    }
    out
}

/// The view of an optionally present volume.
pub open spec fn opt_volume_view(o: Option<Volume>) -> Option<VolumeV> {
    match o {
        None => None,
        Some(v) => Some(v@),
    }
}

/// Encodes a get reply.
pub fn encode_get_response(resp: &GetResponse) -> (r: String)
    ensures
        r@ == enc_get(opt_volume_view(resp.volume)),
{
    match &resp.volume {
        None => String::from_str("{\"Volume\":null}"),
        Some(v) => {
            let mut out = String::from_str("{\"Volume\":");
            out.append(enc_volume_x(v).as_str());
            out.append("}");
            proof {
                assert(out@ =~= enc_get(opt_volume_view(resp.volume)));
            }
            out
        },
    }
}

/// Encodes a list reply.
pub fn encode_list_response(resp: &ListResponse) -> (r: String)
    ensures
        r@ == enc_list(resp.volumes@.map(|i: int, v: Volume| v@)),
{
    let ghost vs = resp.volumes@.map(|i: int, v: Volume| v@);
    let mut out = String::from_str("{\"Volumes\":[");
    let n = resp.volumes.len();
    let mut i: usize = 0;
    proof {
        assert(out@ + enc_volumes_body(vs, 0) + "]}"@ =~= enc_list(vs));
    }
    while i < n
        invariant
            n == resp.volumes@.len(),
            vs == resp.volumes@.map(|i: int, v: Volume| v@),
            0 <= i <= n,
            out@ + enc_volumes_body(vs, i as int) + "]}"@ =~= enc_list(vs),
        decreases n - i,
    {
        let ghost out0 = out@;
        out.append(enc_volume_x(&resp.volumes[i]).as_str());
        if i + 1 < n {
            out.append(",");
        }
        proof {
            reveal_strlit(",");
            assert(out@ =~= out0 + (enc_volume(vs[i as int]) + (if i as int + 1 < vs.len() {
                seq![',']
            } else {
                Seq::<char>::empty()
            })));
            assert(out@ + enc_volumes_body(vs, i as int + 1) + "]}"@ =~= out0 + enc_volumes_body(
                vs,
                i as int,
            ) + "]}"@);
        }
        i = i + 1;
    }
    out.append("]}");
    proof {
        assert(out@ =~= enc_list(vs));
    }
    out
}

/// Encodes a capabilities reply.
pub fn encode_capabilities_response(resp: &CapabilitiesResponse) -> (r: String)
    ensures
        r@ == enc_caps(resp.capabilities.scope),
{
    match resp.capabilities.scope {
        Scope::Local => String::from_str("{\"Capabilities\":{\"Scope\":\"local\"}}"),
        Scope::Global => String::from_str("{\"Capabilities\":{\"Scope\":\"global\"}}"),
    }
}

} // verus!
