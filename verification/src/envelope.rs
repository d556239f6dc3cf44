use crate::errors::MigrateError;
use vstd::prelude::*;
use vstd::utf8::char_u32_cast;

verus! {

// ---------------------------------------------------------------------------
// The response envelope.
//
// The completion endpoint is asked to reply with one JSON object:
//
//     { "migrated_code": string, "explanation": string | null }
//
// This module defines that envelope's grammar as specification functions over
// the reply's characters, and parses it with executable code proved equal to
// them. The grammar is one JSON object: `migrated_code` must be present,
// exactly once, as a string; `explanation` may be absent, `null`, or a
// string, at most once; other members may carry any well-formed JSON value
// and are ignored. String escapes are decoded, a surrogate-pair escape into
// its one character. Anything else — trailing text, a lone surrogate, a
// duplicated or mistyped known member — is rejected.
// ---------------------------------------------------------------------------
/// The parsed reply: the migrated code, and the model's optional explanation.
#[derive(Debug, Clone, PartialEq, Eq)]
pub struct MigrationResponse {
    /// The code to write to the destination, verbatim.
    pub migrated_code: String,
    /// Prose the model returned alongside the code, if any.
    pub explanation: Option<String>,
}

impl MigrationResponse {
    /// The mathematical content of this response: the code's characters and
    /// the explanation's, when present.
    pub open spec fn model(self) -> (Seq<char>, Option<Seq<char>>) {
        (
            self.migrated_code@,
            match self.explanation {
                Some(e) => Some(e@),
                None => None,
            },
        )
    }
}

/// Relies on `char::from_u32`: it returns the character with the given code
/// point, and `None` exactly for surrogate code points and values above the
/// largest code point.
pub assume_specification[ char::from_u32 ](v: u32) -> (r: Option<char>)
    ensures
        r is Some <==> (v < 0xD800 || (0xE000 <= v && v <= 0x10FFFF)),
        r is Some ==> r->Some_0 as u32 == v,
;

/// Relies on `String`'s `FromIterator<char>` implementation: collecting
/// characters yields the string of exactly those characters, in order.
#[verifier::external_body]
fn chars_to_string(v: &Vec<char>) -> (r: String)
    ensures
        r@ == v@,
{
    v.iter().collect()
}

// ---------------------------------------------------------------------------
// The grammar.
// ---------------------------------------------------------------------------
/// JSON insignificant whitespace.
pub open spec fn is_json_ws(c: char) -> bool {
    c == ' ' || c == '\n' || c == '\r' || c == '\t'
}

/// A decimal digit.
pub open spec fn is_digit(c: char) -> bool {
    48 <= c as u32 <= 57
}

/// A hexadecimal digit, either case.
pub open spec fn is_hex_digit(c: char) -> bool {
    (48 <= c as u32 <= 57) || (97 <= c as u32 <= 102) || (65 <= c as u32 <= 70)
}

/// The value of a hexadecimal digit.
pub open spec fn hex_val(c: char) -> int {
    if 48 <= c as u32 <= 57 {
        c as u32 - 48
    } else if 97 <= c as u32 <= 102 {
        c as u32 - 87
    } else {
        c as u32 - 55
    }
}

/// Whether the four characters at `i` are hexadecimal digits.
pub open spec fn is_hex4(s: Seq<char>, i: int) -> bool {
    &&& 0 <= i
    &&& i + 4 <= s.len()
    &&& is_hex_digit(s[i])
    &&& is_hex_digit(s[i + 1])
    &&& is_hex_digit(s[i + 2])
    &&& is_hex_digit(s[i + 3])
}

/// The value of the four hexadecimal digits at `i`.
pub open spec fn hex4(s: Seq<char>, i: int) -> int {
    hex_val(s[i]) * 4096 + hex_val(s[i + 1]) * 256 + hex_val(s[i + 2]) * 16 + hex_val(s[i + 3])
}

/// A Unicode scalar value: a code point that is a `char`.
pub open spec fn is_scalar_value(v: int) -> bool {
    0 <= v <= 0x10FFFF && !(0xD800 <= v < 0xE000)
}

/// The code point a surrogate pair stands for.
pub open spec fn combine_surrogates(hi: int, lo: int) -> int {
    0x10000 + (hi - 0xD800) * 0x400 + (lo - 0xDC00)
}

/// What a single-character escape stands for, if it is one.
pub open spec fn escape_char(e: char) -> Option<char> {
    if e == '"' {
        Some('"')
    } else if e == '\\' {
        Some('\\')
    } else if e == '/' {
        Some('/')
    } else if e == 'b' {
        Some('\u{0008}')
    } else if e == 'f' {
        Some('\u{000C}')
    } else if e == 'n' {
        Some('\n')
    } else if e == 'r' {
        Some('\r')
    } else if e == 't' {
        Some('\t')
    } else {
        None
    }
}

/// The first position at or after `i` that does not hold whitespace.
pub open spec fn spec_skip_ws(s: Seq<char>, i: int) -> int
    decreases s.len() - i,
{
    if 0 <= i < s.len() && is_json_ws(s[i]) {
        spec_skip_ws(s, i + 1)
    } else {
        i
    }
}

/// The first position at or after `i` that does not hold a digit.
pub open spec fn spec_skip_digits(s: Seq<char>, i: int) -> int
    decreases s.len() - i,
{
    if 0 <= i < s.len() && is_digit(s[i]) {
        spec_skip_digits(s, i + 1)
    } else {
        i
    }
}

/// The rest of a string, read from position `i` (inside the quotes) with the
/// characters decoded so far in `acc`: the decoded string and the position
/// after the closing quote, or `None` if no well-formed string lies there.
pub open spec fn spec_string_body(s: Seq<char>, i: int, acc: Seq<char>) -> Option<(Seq<char>, int)>
    decreases s.len() - i,
{
    if !(0 <= i < s.len()) {
        None
    } else if s[i] == '"' {
        Some((acc, i + 1))
    } else if s[i] == '\\' {
        if i + 2 <= s.len() && s[i + 1] == 'u' {
            if i + 6 <= s.len() && is_hex4(s, i + 2) {
                let v = hex4(s, i + 2);
                if is_scalar_value(v) {
                    spec_string_body(s, i + 6, acc.push((v as u32) as char))
                } else if 0xD800 <= v < 0xDC00 {
                    // A leading surrogate: a trailing-surrogate escape must
                    // follow, and the pair stands for one character.
                    if i + 12 <= s.len() && s[i + 6] == '\\' && s[i + 7] == 'u' && is_hex4(
                        s,
                        i + 8,
                    ) {
                        let w = hex4(s, i + 8);
                        if 0xDC00 <= w < 0xE000 {
                            spec_string_body(
                                s,
                                i + 12,
                                acc.push((combine_surrogates(v, w) as u32) as char),
                            )
                        } else {
                            None
                        }
                    } else {
                        None
                    }
                } else {
                    None
                }
            } else {
                None
            }
        } else if i + 2 <= s.len() && escape_char(s[i + 1]) is Some {
            spec_string_body(s, i + 2, acc.push(escape_char(s[i + 1])->Some_0))
        } else {
            None
        }
    } else if (s[i] as u32) < 32 {
        None
    } else {
        spec_string_body(s, i + 1, acc.push(s[i]))
    }
}

/// A JSON string at position `i`: its decoded characters and the position
/// after its closing quote.
pub open spec fn spec_parse_string(s: Seq<char>, i: int) -> Option<(Seq<char>, int)> {
    if 0 <= i < s.len() && s[i] == '"' {
        spec_string_body(s, i + 1, Seq::empty())
    } else {
        None
    }
}

/// The word `null` at position `i`.
pub open spec fn spec_match_null(s: Seq<char>, i: int) -> bool {
    &&& 0 <= i
    &&& i + 4 <= s.len()
    &&& s[i] == 'n'
    &&& s[i + 1] == 'u'
    &&& s[i + 2] == 'l'
    &&& s[i + 3] == 'l'
}

/// The word `true` at position `i`.
pub open spec fn spec_match_true(s: Seq<char>, i: int) -> bool {
    &&& 0 <= i
    &&& i + 4 <= s.len()
    &&& s[i] == 't'
    &&& s[i + 1] == 'r'
    &&& s[i + 2] == 'u'
    &&& s[i + 3] == 'e'
}

/// The word `false` at position `i`.
pub open spec fn spec_match_false(s: Seq<char>, i: int) -> bool {
    &&& 0 <= i
    &&& i + 5 <= s.len()
    &&& s[i] == 'f'
    &&& s[i + 1] == 'a'
    &&& s[i + 2] == 'l'
    &&& s[i + 3] == 's'
    &&& s[i + 4] == 'e'
}

/// A JSON number at position `i`: the position after it, or `None` if no
/// well-formed number lies there.
pub open spec fn spec_parse_number(s: Seq<char>, i: int) -> Option<int> {
    let i1 = if 0 <= i < s.len() && s[i] == '-' {
        i + 1
    } else {
        i
    };
    if !(0 <= i1 < s.len() && is_digit(s[i1])) {
        None
    } else {
        let i2 = if s[i1] == '0' {
            i1 + 1
        } else {
            spec_skip_digits(s, i1 + 1)
        };
        let i3 = if i2 < s.len() && s[i2] == '.' {
            if i2 + 1 < s.len() && is_digit(s[i2 + 1]) {
                spec_skip_digits(s, i2 + 2)
            } else {
                -1
            }
        } else {
            i2
        };
        if i3 < 0 {
            None
        } else {
            let i4 = if i3 < s.len() && (s[i3] == 'e' || s[i3] == 'E') {
                let im = if i3 + 1 < s.len() && (s[i3 + 1] == '+' || s[i3 + 1] == '-') {
                    i3 + 2
                } else {
                    i3 + 1
                };
                if im < s.len() && is_digit(s[im]) {
                    spec_skip_digits(s, im + 1)
                } else {
                    -1
                }
            } else {
                i3
            };
            if i4 < 0 {
                None
            } else {
                Some(i4)
            }
        }
    }
}

/// Any well-formed JSON value at position `i`: the position after it. This
/// is what an ignored member may hold — a string, a literal, a number, or a
/// nested object or array of such values.
pub open spec fn spec_skip_value(s: Seq<char>, i: int) -> Option<int>
    decreases s.len() - i, 0int,
{
    if !(0 <= i < s.len()) {
        None
    } else if s[i] == '"' {
        match spec_parse_string(s, i) {
            None => None,
            Some((v, j)) => Some(j),
        }
    } else if spec_match_null(s, i) {
        Some(i + 4)
    } else if spec_match_true(s, i) {
        Some(i + 4)
    } else if spec_match_false(s, i) {
        Some(i + 5)
    } else if s[i] == '{' {
        let j = spec_skip_ws(s, i + 1);
        if j < s.len() && s[j] == '}' {
            Some(j + 1)
        } else if i < j <= s.len() {
            spec_skip_members(s, j)
        } else {
            None
        }
    } else if s[i] == '[' {
        let j = spec_skip_ws(s, i + 1);
        if j < s.len() && s[j] == ']' {
            Some(j + 1)
        } else if i < j <= s.len() {
            spec_skip_elements(s, j)
        } else {
            None
        }
    } else {
        spec_parse_number(s, i)
    }
}

/// The members of a nested, ignored object, read from the first key at
/// position `i` up to and including the closing brace: the position after
/// the brace.
pub open spec fn spec_skip_members(s: Seq<char>, i: int) -> Option<int>
    decreases s.len() - i, 1int,
{
    match spec_parse_string(s, i) {
        None => None,
        Some((key, i1)) => {
            let i2 = spec_skip_ws(s, i1);
            if !(i2 < s.len() && s[i2] == ':') {
                None
            } else {
                let i3 = spec_skip_ws(s, i2 + 1);
                let v = if i < i3 <= s.len() {
                    spec_skip_value(s, i3)
                } else {
                    None
                };
                match v {
                    None => None,
                    Some(i4) => {
                        let i5 = spec_skip_ws(s, i4);
                        if i5 < s.len() && s[i5] == ',' {
                            let j = spec_skip_ws(s, i5 + 1);
                            if i < j <= s.len() {
                                spec_skip_members(s, j)
                            } else {
                                None
                            }
                        } else if i5 < s.len() && s[i5] == '}' {
                            Some(i5 + 1)
                        } else {
                            None
                        }
                    },
                }
            }
        },
    }
}

/// The elements of a nested, ignored array, read from the first element at
/// position `i` up to and including the closing bracket: the position after
/// the bracket.
pub open spec fn spec_skip_elements(s: Seq<char>, i: int) -> Option<int>
    decreases s.len() - i, 2int,
{
    match spec_skip_value(s, i) {
        None => None,
        Some(i1) => {
            let i2 = spec_skip_ws(s, i1);
            if i2 < s.len() && s[i2] == ',' {
                let j = spec_skip_ws(s, i2 + 1);
                if i < j <= s.len() {
                    spec_skip_elements(s, j)
                } else {
                    None
                }
            } else if i2 < s.len() && s[i2] == ']' {
                Some(i2 + 1)
            } else {
                None
            }
        },
    }
}

/// One member's value at position `i`, folded into the envelope read so far:
/// `code` is `migrated_code` if already seen, `expl_seen` and `expl` record
/// `explanation`. Returns the updated state and the position after the value,
/// or `None` for an ill-formed value, a mistyped known member, or a
/// duplicate. An unknown member may hold any well-formed JSON value.
pub open spec fn spec_member_value(
    s: Seq<char>,
    i: int,
    key: Seq<char>,
    code: Option<Seq<char>>,
    expl_seen: bool,
    expl: Option<Seq<char>>,
) -> Option<(Option<Seq<char>>, bool, Option<Seq<char>>, int)> {
    if !(0 <= i < s.len()) {
        None
    } else if key == "migrated_code"@ {
        if s[i] == '"' {
            match spec_parse_string(s, i) {
                None => None,
                Some((v, j)) => {
                    if code is Some {
                        None
                    } else {
                        Some((Some(v), expl_seen, expl, j))
                    }
                },
            }
        } else {
            None
        }
    } else if key == "explanation"@ {
        if s[i] == '"' {
            match spec_parse_string(s, i) {
                None => None,
                Some((v, j)) => {
                    if expl_seen {
                        None
                    } else {
                        Some((code, true, Some(v), j))
                    }
                },
            }
        } else if spec_match_null(s, i) {
            if expl_seen {
                None
            } else {
                Some((code, true, None, i + 4))
            }
        } else {
            None
        }
    } else {
        match spec_skip_value(s, i) {
            None => None,
            Some(j) => Some((code, expl_seen, expl, j)),
        }
    }
}

/// The members of the object, read from the first key at position `i` up to
/// and including the closing brace: the envelope state and the position after
/// the brace.
pub open spec fn spec_parse_members(
    s: Seq<char>,
    i: int,
    code: Option<Seq<char>>,
    expl_seen: bool,
    expl: Option<Seq<char>>,
) -> Option<(Option<Seq<char>>, bool, Option<Seq<char>>, int)>
    decreases s.len() - i,
{
    match spec_parse_string(s, i) {
        None => None,
        Some((key, i1)) => {
            let i2 = spec_skip_ws(s, i1);
            if !(i2 < s.len() && s[i2] == ':') {
                None
            } else {
                let i3 = spec_skip_ws(s, i2 + 1);
                match spec_member_value(s, i3, key, code, expl_seen, expl) {
                    None => None,
                    Some((c2, es2, e2, i4)) => {
                        let i5 = spec_skip_ws(s, i4);
                        if i5 < s.len() && s[i5] == ',' {
                            let j = spec_skip_ws(s, i5 + 1);
                            if i < j <= s.len() {
                                spec_parse_members(s, j, c2, es2, e2)
                            } else {
                                None
                            }
                        } else if i5 < s.len() && s[i5] == '}' {
                            Some((c2, es2, e2, i5 + 1))
                        } else {
                            None
                        }
                    },
                }
            }
        },
    }
}

/// The whole reply as an envelope: the migrated code and the optional
/// explanation, or `None` if the reply is not a well-formed envelope or the
/// required `migrated_code` member is absent.
pub open spec fn spec_parse_envelope(s: Seq<char>) -> Option<(Seq<char>, Option<Seq<char>>)> {
    let i = spec_skip_ws(s, 0);
    if !(i < s.len() && s[i] == '{') {
        None
    } else {
        let j = spec_skip_ws(s, i + 1);
        match spec_parse_members(s, j, None, false, None) {
            None => None,
            Some((code, expl_seen, expl, k)) => {
                if spec_skip_ws(s, k) == s.len() {
                    match code {
                        Some(c) => Some((c, expl)),
                        None => None,
                    }
                } else {
                    None
                }
            },
        }
    }
}

/// A reply read to the end of its object without a `migrated_code` member is
/// rejected: when the members leave the code unset, the reply has no
/// envelope, so parsing reports `ParseError` and no code exists to write.
pub proof fn lemma_missing_code_rejected(
    s: Seq<char>,
    expl_seen: bool,
    expl: Option<Seq<char>>,
    k: int,
)
    requires
        spec_parse_members(s, spec_skip_ws(s, spec_skip_ws(s, 0) + 1), None, false, None) == Some(
            (None::<Seq<char>>, expl_seen, expl, k),
        ),
    ensures
        spec_parse_envelope(s) is None,
{
}

/// The contents of an optional character vector.
spec fn opt_chars_view(o: Option<Vec<char>>) -> Option<Seq<char>> {
    match o {
        Some(v) => Some(v@),
        None => None,
    }
}

// ---------------------------------------------------------------------------
// The parser, proved equal to the grammar.
// ---------------------------------------------------------------------------
/// The characters of `s`, one by one.
fn to_char_vec(s: &str) -> (v: Vec<char>)
    ensures
        v@ == s@,
{
    let n: usize = s.unicode_len();
    let mut v: Vec<char> = Vec::new();
    let mut i: usize = 0;
    while i < n
        invariant
            i <= n,
            n == s@.len(),
            v@ == s@.subrange(0, i as int),
        decreases n - i,
    {
        let c = s.get_char(i);
        v.push(c);
        proof {
            assert(v@ =~= s@.subrange(0, i + 1));
        }
        i += 1;
    }
    proof {
        assert(v@ =~= s@);
    }
    v
}

fn is_ws_char(c: char) -> (b: bool)
    ensures
        b == is_json_ws(c),
{
    c == ' ' || c == '\n' || c == '\r' || c == '\t'
}

fn is_digit_char(c: char) -> (b: bool)
    ensures
        b == is_digit(c),
{
    let u: u32 = c as u32;
    48 <= u && u <= 57
}

fn skip_ws(s: &Vec<char>, i: usize) -> (j: usize)
    requires
        i <= s@.len(),
    ensures
        j == spec_skip_ws(s@, i as int),
        i <= j <= s@.len(),
{
    let mut j: usize = i;
    while j < s.len() && is_ws_char(s[j])
        invariant
            i <= j <= s@.len(),
            spec_skip_ws(s@, i as int) == spec_skip_ws(s@, j as int),
        decreases s@.len() - j,
    {
        j += 1;
    }
    j
}

fn skip_digits(s: &Vec<char>, i: usize) -> (j: usize)
    requires
        i <= s@.len(),
    ensures
        j == spec_skip_digits(s@, i as int),
        i <= j <= s@.len(),
{
    let mut j: usize = i;
    while j < s.len() && is_digit_char(s[j])
        invariant
            i <= j <= s@.len(),
            spec_skip_digits(s@, i as int) == spec_skip_digits(s@, j as int),
        decreases s@.len() - j,
    {
        j += 1;
    }
    j
}

fn unescape_char(e: char) -> (r: Option<char>)
    ensures
        r == escape_char(e),
{
    match e {
        '"' => Some('"'),
        '\\' => Some('\\'),
        '/' => Some('/'),
        'b' => Some('\u{0008}'),
        'f' => Some('\u{000C}'),
        'n' => Some('\n'),
        'r' => Some('\r'),
        't' => Some('\t'),
        _ => None,
    }
}

fn hex_digit(c: char) -> (r: Option<u32>)
    ensures
        r is Some <==> is_hex_digit(c),
        r is Some ==> r->Some_0 == hex_val(c),
{
    let u: u32 = c as u32;
    if 48 <= u && u <= 57 {
        Some(u - 48)
    } else if 97 <= u && u <= 102 {
        Some(u - 87)
    } else if 65 <= u && u <= 70 {
        Some(u - 55)
    } else {
        None
    }
}

#[verifier::rlimit(60)]
fn parse_string(s: &Vec<char>, i: usize) -> (r: Option<(Vec<char>, usize)>)
    requires
        i <= s@.len(),
    ensures
        match r {
            Some(p) => spec_parse_string(s@, i as int) == Some((p.0@, p.1 as int)) && i < p.1
                <= s@.len(),
            None => spec_parse_string(s@, i as int) is None,
        },
{
    if i >= s.len() || s[i] != '"' {
        return None;
    }
    let mut out: Vec<char> = Vec::new();
    let mut j: usize = i + 1;
    loop
        invariant
            i < s@.len(),
            s@[i as int] == '"',
            i + 1 <= j <= s@.len(),
            spec_string_body(s@, i + 1, Seq::empty()) == spec_string_body(s@, j as int, out@),
        decreases s@.len() - j,
    {
        if j >= s.len() {
            return None;
        }
        let c = s[j];
        if c == '"' {
            return Some((out, j + 1));
        } else if c == '\\' {
            if s.len() - j < 2 {
                return None;
            }
            let e = s[j + 1];
            if e == 'u' {
                if s.len() - j < 6 {
                    return None;
                }
                let h0 = hex_digit(s[j + 2]);
                let h1 = hex_digit(s[j + 3]);
                let h2 = hex_digit(s[j + 4]);
                let h3 = hex_digit(s[j + 5]);
                match (h0, h1, h2, h3) {
                    (Some(a), Some(b), Some(m), Some(d)) => {
                        let v: u32 = a * 4096 + b * 256 + m * 16 + d;
                        if v < 0xD800 || 0xE000 <= v {
                            match char::from_u32(v) {
                                Some(c2) => {
                                    proof {
                                        char_u32_cast(c2, v);
                                    }
                                    out.push(c2);
                                    j += 6;
                                },
                                None => {
                                    proof {
                                        assert(false);
                                    }
                                    return None;
                                },
                            }
                        } else if v < 0xDC00 {
                            if s.len() - j < 12 {
                                return None;
                            }
                            if s[j + 6] != '\\' || s[j + 7] != 'u' {
                                return None;
                            }
                            let g0 = hex_digit(s[j + 8]);
                            let g1 = hex_digit(s[j + 9]);
                            let g2 = hex_digit(s[j + 10]);
                            let g3 = hex_digit(s[j + 11]);
                            match (g0, g1, g2, g3) {
                                (Some(a2), Some(b2), Some(m2), Some(d2)) => {
                                    let w: u32 = a2 * 4096 + b2 * 256 + m2 * 16 + d2;
                                    if w < 0xDC00 || 0xE000 <= w {
                                        return None;
                                    }
                                    let cp: u32 = 0x10000 + (v - 0xD800) * 0x400 + (w - 0xDC00);
                                    match char::from_u32(cp) {
                                        Some(c2) => {
                                            proof {
                                                char_u32_cast(c2, cp);
                                            }
                                            out.push(c2);
                                            j += 12;
                                        },
                                        None => {
                                            proof {
                                                assert(false);
                                            }
                                            return None;
                                        },
                                    }
                                },
                                _ => {
                                    return None;
                                },
                            }
                        } else {
                            return None;
                        }
                    },
                    _ => {
                        return None;
                    },
                }
            } else {
                match unescape_char(e) {
                    Some(d) => {
                        out.push(d);
                        j += 2;
                    },
                    None => {
                        return None;
                    },
                }
            }
        } else if (c as u32) < 32 {
            return None;
        } else {
            out.push(c);
            j += 1;
        }
    }
}

fn match_null(s: &Vec<char>, i: usize) -> (b: bool)
    requires
        i <= s@.len(),
    ensures
        b == spec_match_null(s@, i as int),
{
    s.len() - i >= 4 && s[i] == 'n' && s[i + 1] == 'u' && s[i + 2] == 'l' && s[i + 3] == 'l'
}

fn match_true(s: &Vec<char>, i: usize) -> (b: bool)
    requires
        i <= s@.len(),
    ensures
        b == spec_match_true(s@, i as int),
{
    s.len() - i >= 4 && s[i] == 't' && s[i + 1] == 'r' && s[i + 2] == 'u' && s[i + 3] == 'e'
}

fn match_false(s: &Vec<char>, i: usize) -> (b: bool)
    requires
        i <= s@.len(),
    ensures
        b == spec_match_false(s@, i as int),
{
    s.len() - i >= 5 && s[i] == 'f' && s[i + 1] == 'a' && s[i + 2] == 'l' && s[i + 3] == 's' && s[i
        + 4] == 'e'
}

fn parse_number(s: &Vec<char>, i: usize) -> (r: Option<usize>)
    requires
        i <= s@.len(),
    ensures
        match r {
            Some(j) => spec_parse_number(s@, i as int) == Some(j as int) && i < j <= s@.len(),
            None => spec_parse_number(s@, i as int) is None,
        },
{
    let mut i1: usize = i;
    if i1 < s.len() && s[i1] == '-' {
        i1 += 1;
    }
    if i1 >= s.len() || !is_digit_char(s[i1]) {
        return None;
    }
    let i2: usize = if s[i1] == '0' {
        i1 + 1
    } else {
        skip_digits(s, i1 + 1)
    };
    let i3: usize = if i2 < s.len() && s[i2] == '.' {
        if i2 + 1 < s.len() && is_digit_char(s[i2 + 1]) {
            skip_digits(s, i2 + 2)
        } else {
            return None;
        }
    } else {
        i2
    };
    let i4: usize = if i3 < s.len() && (s[i3] == 'e' || s[i3] == 'E') {
        let im: usize = if i3 + 1 < s.len() && (s[i3 + 1] == '+' || s[i3 + 1] == '-') {
            i3 + 2
        } else {
            i3 + 1
        };
        if im < s.len() && is_digit_char(s[im]) {
            skip_digits(s, im + 1)
        } else {
            return None;
        }
    } else {
        i3
    };
    Some(i4)
}

fn key_is(key: &Vec<char>, name: &str) -> (b: bool)
    ensures
        b == (key@ == name@),
{
    let n: usize = name.unicode_len();
    if key.len() != n {
        return false;
    }
    let mut idx: usize = 0;
    while idx < n
        invariant
            idx <= n,
            n == name@.len(),
            key@.len() == n,
            forall|k: int| 0 <= k < idx ==> key@[k] == name@[k],
        decreases n - idx,
    {
        if key[idx] != name.get_char(idx) {
            return false;
        }
        idx += 1;
    }
    proof {
        assert(key@ =~= name@);
    }
    true
}

fn skip_value(s: &Vec<char>, i: usize) -> (r: Option<usize>)
    requires
        i <= s@.len(),
    ensures
        match r {
            Some(j) => spec_skip_value(s@, i as int) == Some(j as int) && i < j <= s@.len(),
            None => spec_skip_value(s@, i as int) is None,
        },
    decreases s@.len() - i, 0int,
{
    if i >= s.len() {
        return None;
    }
    let c = s[i];
    if c == '"' {
        match parse_string(s, i) {
            None => None,
            Some((_, j)) => Some(j),
        }
    } else if match_null(s, i) {
        Some(i + 4)
    } else if match_true(s, i) {
        Some(i + 4)
    } else if match_false(s, i) {
        Some(i + 5)
    } else if c == '{' {
        let j = skip_ws(s, i + 1);
        if j < s.len() && s[j] == '}' {
            Some(j + 1)
        } else {
            skip_members(s, j)
        }
    } else if c == '[' {
        let j = skip_ws(s, i + 1);
        if j < s.len() && s[j] == ']' {
            Some(j + 1)
        } else {
            skip_elements(s, j)
        }
    } else {
        parse_number(s, i)
    }
}

fn skip_members(s: &Vec<char>, i: usize) -> (r: Option<usize>)
    requires
        i <= s@.len(),
    ensures
        match r {
            Some(j) => spec_skip_members(s@, i as int) == Some(j as int) && i < j <= s@.len(),
            None => spec_skip_members(s@, i as int) is None,
        },
    decreases s@.len() - i, 1int,
{
    match parse_string(s, i) {
        None => None,
        Some((_, i1)) => {
            let i2 = skip_ws(s, i1);
            if i2 >= s.len() || s[i2] != ':' {
                return None;
            }
            let i3 = skip_ws(s, i2 + 1);
            match skip_value(s, i3) {
                None => None,
                Some(i4) => {
                    let i5 = skip_ws(s, i4);
                    if i5 < s.len() && s[i5] == ',' {
                        let j = skip_ws(s, i5 + 1);
                        skip_members(s, j)
                    } else if i5 < s.len() && s[i5] == '}' {
                        Some(i5 + 1)
                    } else {
                        None
                    }
                },
            }
        },
    }
}

fn skip_elements(s: &Vec<char>, i: usize) -> (r: Option<usize>)
    requires
        i <= s@.len(),
    ensures
        match r {
            Some(j) => spec_skip_elements(s@, i as int) == Some(j as int) && i < j <= s@.len(),
            None => spec_skip_elements(s@, i as int) is None,
        },
    decreases s@.len() - i, 2int,
{
    match skip_value(s, i) {
        None => None,
        Some(i1) => {
            let i2 = skip_ws(s, i1);
            if i2 < s.len() && s[i2] == ',' {
                let j = skip_ws(s, i2 + 1);
                skip_elements(s, j)
            } else if i2 < s.len() && s[i2] == ']' {
                Some(i2 + 1)
            } else {
                None
            }
        },
    }
}

fn parse_member_value(
    s: &Vec<char>,
    i: usize,
    key: &Vec<char>,
    code: Option<Vec<char>>,
    expl_seen: bool,
    expl: Option<Vec<char>>,
) -> (r: Option<(Option<Vec<char>>, bool, Option<Vec<char>>, usize)>)
    requires
        i <= s@.len(),
    ensures
        match r {
            Some(p) => spec_member_value(
                s@,
                i as int,
                key@,
                opt_chars_view(code),
                expl_seen,
                opt_chars_view(expl),
            ) == Some((opt_chars_view(p.0), p.1, opt_chars_view(p.2), p.3 as int)) && i < p.3
                <= s@.len(),
            None => spec_member_value(
                s@,
                i as int,
                key@,
                opt_chars_view(code),
                expl_seen,
                opt_chars_view(expl),
            ) is None,
        },
{
    if i >= s.len() {
        return None;
    }
    if key_is(key, "migrated_code") {
        if s[i] == '"' {
            match parse_string(s, i) {
                None => None,
                Some((v, j)) => {
                    if code.is_some() {
                        None
                    } else {
                        Some((Some(v), expl_seen, expl, j))
                    }
                },
            }
        } else {
            None
        }
    } else if key_is(key, "explanation") {
        if s[i] == '"' {
            match parse_string(s, i) {
                None => None,
                Some((v, j)) => {
                    if expl_seen {
                        None
                    } else {
                        Some((code, true, Some(v), j))
                    }
                },
            }
        } else if match_null(s, i) {
            if expl_seen {
                None
            } else {
                Some((code, true, None, i + 4))
            }
        } else {
            None
        }
    } else {
        match skip_value(s, i) {
            None => None,
            Some(j) => Some((code, expl_seen, expl, j)),
        }
    }
}

fn parse_members(s: &Vec<char>, i: usize) -> (r: Option<
    (Option<Vec<char>>, bool, Option<Vec<char>>, usize),
>)
    requires
        i <= s@.len(),
    ensures
        match r {
            Some(p) => spec_parse_members(s@, i as int, None, false, None) == Some(
                (opt_chars_view(p.0), p.1, opt_chars_view(p.2), p.3 as int),
            ) && i < p.3 <= s@.len(),
            None => spec_parse_members(s@, i as int, None, false, None) is None,
        },
{
    let mut cur: usize = i;
    let mut code: Option<Vec<char>> = None;
    let mut expl_seen: bool = false;
    let mut expl: Option<Vec<char>> = None;
    loop
        invariant
            i <= cur <= s@.len(),
            spec_parse_members(s@, i as int, None, false, None) == spec_parse_members(
                s@,
                cur as int,
                opt_chars_view(code),
                expl_seen,
                opt_chars_view(expl),
            ),
        decreases s@.len() - cur,
    {
        match parse_string(s, cur) {
            None => {
                return None;
            },
            Some((key, i1)) => {
                let i2 = skip_ws(s, i1);
                if i2 >= s.len() || s[i2] != ':' {
                    return None;
                }
                let i3 = skip_ws(s, i2 + 1);
                match parse_member_value(s, i3, &key, code, expl_seen, expl) {
                    None => {
                        return None;
                    },
                    Some((ncode, nes, nexpl, i4)) => {
                        let i5 = skip_ws(s, i4);
                        if i5 < s.len() && s[i5] == ',' {
                            let nxt = skip_ws(s, i5 + 1);
                            code = ncode;
                            expl_seen = nes;
                            expl = nexpl;
                            cur = nxt;
                        } else if i5 < s.len() && s[i5] == '}' {
                            return Some((ncode, nes, nexpl, i5 + 1));
                        } else {
                            return None;
                        }
                    },
                }
            },
        }
    }
}

/// Parses the endpoint's reply as a response envelope: the migrated code and
/// the optional explanation exactly as the grammar reads them, or
/// `ParseError` exactly when the grammar rejects the reply — in particular
/// when the required `migrated_code` member is absent. An error carries no
/// code, so nothing is available to write.
pub fn parse_response(text: &str) -> (r: Result<MigrationResponse, MigrateError>)
    ensures
        match r {
            Ok(resp) => spec_parse_envelope(text@) == Some(resp.model()),
            Err(e) => spec_parse_envelope(text@) is None && e == MigrateError::ParseError,
        },
{
    let s = to_char_vec(text);
    let i = skip_ws(&s, 0);
    if i >= s.len() || s[i] != '{' {
        return Err(MigrateError::ParseError);
    }
    let j = skip_ws(&s, i + 1);
    match parse_members(&s, j) {
        None => Err(MigrateError::ParseError),
        Some((code, _, expl, k)) => {
            let e = skip_ws(&s, k);
            if e != s.len() {
                return Err(MigrateError::ParseError);
            }
            match code {
                None => Err(MigrateError::ParseError),
                Some(cv) => {
                    let mc = chars_to_string(&cv);
                    let ex: Option<String> = match expl {
                        Some(ev) => Some(chars_to_string(&ev)),
                        None => None,
                    };
                    Ok(MigrationResponse { migrated_code: mc, explanation: ex })
                },
            }
        },
    }
}

} // verus!
