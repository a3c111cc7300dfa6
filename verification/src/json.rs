//! Decoding of listing responses.
//!
//! A listing body is a JSON object `{ "data": [ { ... }, ... ] }`; each
//! element of `data` is a record with an optional `"name"` (string or null)
//! and a required `"mac"` (string).  Other fields, at the top level and in
//! the records, are skipped whatever their value.
//!
//! The grammar accepted here is the spec-level parser below, a function of
//! the body's characters alone; [`decode_listing`] is proved to return
//! exactly its result.  Two deliberate bounds of that grammar: string
//! escapes are the two-character ones (`\"` `\\` `\/` `\b` `\f` `\n` `\r`
//! `\t`; no `\u`), and numbers are consumed as runs of number characters
//! without checking their inner shape.  Nesting deeper than the body's
//! length in characters is rejected.

use vstd::prelude::*;
use vstd::string::StrSliceExecFns;
use vstd::string::StringExecFns;

use crate::unifi_dream_router::{UnifiClient, UnifiClientView};

verus! {

// ---------------------------------------------------------------------------
// The grammar, as spec functions over the characters.
// ---------------------------------------------------------------------------

pub open spec fn spec_is_ws(c: char) -> bool {
    c == ' ' || c == '\t' || c == '\n' || c == '\r'
}

pub open spec fn spec_is_digit(c: char) -> bool {
    '0' <= c && c <= '9'
}

pub open spec fn spec_is_num_char(c: char) -> bool {
    spec_is_digit(c) || c == '-' || c == '+' || c == '.' || c == 'e' || c == 'E'
}

/// What a two-character escape stands for; `None` for an unsupported one.
pub open spec fn spec_escape(c: char) -> Option<char> {
    if c == '"' {
        Some('"')
    } else if c == '\\' {
        Some('\\')
    } else if c == '/' {
        Some('/')
    } else if c == 'b' {
        Some('\u{8}')
    } else if c == 'f' {
        Some('\u{c}')
    } else if c == 'n' {
        Some('\n')
    } else if c == 'r' {
        Some('\r')
    } else if c == 't' {
        Some('\t')
    } else {
        None
    }
}

/// The first index at or after `i` that holds no whitespace.
pub open spec fn sp_ws(s: Seq<char>, i: int) -> int
    decreases s.len() - i,
{
    if 0 <= i < s.len() && spec_is_ws(s[i]) {
        sp_ws(s, i + 1)
    } else {
        i
    }
}

/// The end of a run of number characters starting at `i`.
pub open spec fn sp_num_end(s: Seq<char>, i: int) -> int
    decreases s.len() - i,
{
    if 0 <= i < s.len() && spec_is_num_char(s[i]) {
        sp_num_end(s, i + 1)
    } else {
        i
    }
}

/// A string body, `i` standing just after the opening quote: the decoded
/// content and the index just after the closing quote.
pub open spec fn sp_string(s: Seq<char>, i: int) -> Option<(Seq<char>, int)>
    decreases s.len() - i,
{
    if i < 0 || i >= s.len() {
        None
    } else if s[i] == '"' {
        Some((Seq::empty(), i + 1))
    } else if s[i] == '\\' {
        if i + 1 < s.len() {
            match spec_escape(s[i + 1]) {
                Some(c) => match sp_string(s, i + 2) {
                    Some((rest, j)) => Some((seq![c] + rest, j)),
                    None => None,
                },
                None => None,
            }
        } else {
            None
        }
    } else {
        match sp_string(s, i + 1) {
            Some((rest, j)) => Some((seq![s[i]] + rest, j)),
            None => None,
        }
    }
}

/// Any JSON value starting at `i`; the index just after it.  `fuel` bounds
/// the nesting.
pub open spec fn sp_skip_value(s: Seq<char>, i: int, fuel: nat) -> Option<int>
    decreases fuel,
{
    if fuel == 0 || i < 0 || i >= s.len() {
        None
    } else if s[i] == '"' {
        match sp_string(s, i + 1) {
            Some((content, j)) => Some(j),
            None => None,
        }
    } else if s[i] == '{' {
        sp_skip_object(s, i + 1, (fuel - 1) as nat)
    } else if s[i] == '[' {
        sp_skip_array(s, i + 1, (fuel - 1) as nat)
    } else if s[i] == 't' {
        if i + 4 <= s.len() && s[i + 1] == 'r' && s[i + 2] == 'u' && s[i + 3] == 'e' {
            Some(i + 4)
        } else {
            None
        }
    } else if s[i] == 'f' {
        if i + 5 <= s.len() && s[i + 1] == 'a' && s[i + 2] == 'l' && s[i + 3] == 's' && s[i + 4]
            == 'e' {
            Some(i + 5)
        } else {
            None
        }
    } else if s[i] == 'n' {
        if i + 4 <= s.len() && s[i + 1] == 'u' && s[i + 2] == 'l' && s[i + 3] == 'l' {
            Some(i + 4)
        } else {
            None
        }
    } else if spec_is_digit(s[i]) || s[i] == '-' {
        Some(sp_num_end(s, i + 1))
    } else {
        None
    }
}

/// The rest of an object, `i` standing just after the `{`.
pub open spec fn sp_skip_object(s: Seq<char>, i: int, fuel: nat) -> Option<int>
    decreases fuel,
{
    if fuel == 0 {
        None
    } else {
        let j = sp_ws(s, i);
        if j < s.len() && s[j] == '}' {
            Some(j + 1)
        } else {
            sp_skip_members(s, j, (fuel - 1) as nat)
        }
    }
}

/// One or more `"key": value` members, `i` standing at a key's quote.
pub open spec fn sp_skip_members(s: Seq<char>, i: int, fuel: nat) -> Option<int>
    decreases fuel,
{
    if fuel == 0 || !(0 <= i < s.len() && s[i] == '"') {
        None
    } else {
        match sp_string(s, i + 1) {
            Some((key, j)) => {
                let k = sp_ws(s, j);
                if k < s.len() && s[k] == ':' {
                    match sp_skip_value(s, sp_ws(s, k + 1), (fuel - 1) as nat) {
                        Some(m) => {
                            let n = sp_ws(s, m);
                            if n < s.len() && s[n] == ',' {
                                sp_skip_members(s, sp_ws(s, n + 1), (fuel - 1) as nat)
                            } else if n < s.len() && s[n] == '}' {
                                Some(n + 1)
                            } else {
                                None
                            }
                        },
                        None => None,
                    }
                } else {
                    None
                }
            },
            None => None,
        }
    }
}

/// The rest of an array, `i` standing just after the `[`.
pub open spec fn sp_skip_array(s: Seq<char>, i: int, fuel: nat) -> Option<int>
    decreases fuel,
{
    if fuel == 0 {
        None
    } else {
        let j = sp_ws(s, i);
        if j < s.len() && s[j] == ']' {
            Some(j + 1)
        } else {
            sp_skip_items(s, j, (fuel - 1) as nat)
        }
    }
}

/// One or more array items, `i` standing at the first character of one.
pub open spec fn sp_skip_items(s: Seq<char>, i: int, fuel: nat) -> Option<int>
    decreases fuel,
{
    if fuel == 0 {
        None
    } else {
        match sp_skip_value(s, i, (fuel - 1) as nat) {
            Some(m) => {
                let n = sp_ws(s, m);
                if n < s.len() && s[n] == ',' {
                    sp_skip_items(s, sp_ws(s, n + 1), (fuel - 1) as nat)
                } else if n < s.len() && s[n] == ']' {
                    Some(n + 1)
                } else {
                    None
                }
            },
            None => None,
        }
    }
}

/// The fields of one record, `i` standing at a key's quote.  `name_seen`
/// and the accumulators carry what earlier fields established; a repeated
/// `name` or `mac` is an error.
pub open spec fn sp_record_fields(
    s: Seq<char>,
    i: int,
    fuel: nat,
    name_seen: bool,
    name: Option<Seq<char>>,
    mac: Option<Seq<char>>,
) -> Option<(UnifiClientView, int)>
    decreases fuel,
{
    if fuel == 0 || !(0 <= i < s.len() && s[i] == '"') {
        None
    } else {
        match sp_string(s, i + 1) {
            Some((key, j)) => {
                let k = sp_ws(s, j);
                if k < s.len() && s[k] == ':' {
                    let v = sp_ws(s, k + 1);
                    if key == "name"@ {
                        if name_seen {
                            None
                        } else if v < s.len() && s[v] == '"' {
                            match sp_string(s, v + 1) {
                                Some((val, m)) => sp_record_tail(
                                    s,
                                    m,
                                    (fuel - 1) as nat,
                                    true,
                                    Some(val),
                                    mac,
                                ),
                                None => None,
                            }
                        } else if v + 4 <= s.len() && s[v] == 'n' && s[v + 1] == 'u' && s[v + 2]
                            == 'l' && s[v + 3] == 'l' {
                            sp_record_tail(s, v + 4, (fuel - 1) as nat, true, None, mac)
                        } else {
                            None
                        }
                    } else if key == "mac"@ {
                        if mac is Some {
                            None
                        } else if v < s.len() && s[v] == '"' {
                            match sp_string(s, v + 1) {
                                Some((val, m)) => sp_record_tail(
                                    s,
                                    m,
                                    (fuel - 1) as nat,
                                    name_seen,
                                    name,
                                    Some(val),
                                ),
                                None => None,
                            }
                        } else {
                            None
                        }
                    } else {
                        match sp_skip_value(s, v, (fuel - 1) as nat) {
                            Some(m) => sp_record_tail(s, m, (fuel - 1) as nat, name_seen, name, mac),
                            None => None,
                        }
                    }
                } else {
                    None
                }
            },
            None => None,
        }
    }
}

/// After one record field's value: either `, more fields` or the closing
/// `}`, which requires `mac` to have been seen.
pub open spec fn sp_record_tail(
    s: Seq<char>,
    i: int,
    fuel: nat,
    name_seen: bool,
    name: Option<Seq<char>>,
    mac: Option<Seq<char>>,
) -> Option<(UnifiClientView, int)>
    decreases fuel,
{
    if fuel == 0 {
        None
    } else {
        let n = sp_ws(s, i);
        if n < s.len() && s[n] == ',' {
            sp_record_fields(s, sp_ws(s, n + 1), (fuel - 1) as nat, name_seen, name, mac)
        } else if n < s.len() && s[n] == '}' {
            match mac {
                Some(m) => Some((UnifiClientView { name, mac: m }, n + 1)),
                None => None,
            }
        } else {
            None
        }
    }
}

/// One record, `i` standing at its `{`.  An empty record is an error (it
/// lacks `mac`).
pub open spec fn sp_record(s: Seq<char>, i: int, fuel: nat) -> Option<(UnifiClientView, int)>
    decreases fuel,
{
    if fuel == 0 || !(0 <= i < s.len() && s[i] == '{') {
        None
    } else {
        sp_record_fields(s, sp_ws(s, i + 1), (fuel - 1) as nat, false, None, None)
    }
}

/// The records of the `data` array, `i` standing just after the `[`.
pub open spec fn sp_records(s: Seq<char>, i: int, fuel: nat) -> Option<(Seq<UnifiClientView>, int)>
    decreases fuel,
{
    if fuel == 0 {
        None
    } else {
        let j = sp_ws(s, i);
        if j < s.len() && s[j] == ']' {
            Some((Seq::empty(), j + 1))
        } else {
            sp_record_items(s, j, (fuel - 1) as nat)
        }
    }
}

/// One or more records, `i` standing at the `{` of the first.
pub open spec fn sp_record_items(s: Seq<char>, i: int, fuel: nat) -> Option<
    (Seq<UnifiClientView>, int),
>
    decreases fuel,
{
    if fuel == 0 {
        None
    } else {
        match sp_record(s, i, (fuel - 1) as nat) {
            Some((rec, m)) => {
                let n = sp_ws(s, m);
                if n < s.len() && s[n] == ',' {
                    match sp_record_items(s, sp_ws(s, n + 1), (fuel - 1) as nat) {
                        Some((rest, p)) => Some((seq![rec] + rest, p)),
                        None => None,
                    }
                } else if n < s.len() && s[n] == ']' {
                    Some((seq![rec], n + 1))
                } else {
                    None
                }
            },
            None => None,
        }
    }
}

/// The fields of the top-level object, `i` standing at a key's quote.
/// `data` holds the records once the `data` field has been read; a repeated
/// `data` is an error.  Yields the records and the index after the `}`.
pub open spec fn sp_listing_fields(
    s: Seq<char>,
    i: int,
    fuel: nat,
    data: Option<Seq<UnifiClientView>>,
) -> Option<(Option<Seq<UnifiClientView>>, int)>
    decreases fuel,
{
    if fuel == 0 || !(0 <= i < s.len() && s[i] == '"') {
        None
    } else {
        match sp_string(s, i + 1) {
            Some((key, j)) => {
                let k = sp_ws(s, j);
                if k < s.len() && s[k] == ':' {
                    let v = sp_ws(s, k + 1);
                    if key == "data"@ {
                        if data is Some {
                            None
                        } else if v < s.len() && s[v] == '[' {
                            match sp_records(s, v + 1, (fuel - 1) as nat) {
                                Some((records, m)) => sp_listing_tail(
                                    s,
                                    m,
                                    (fuel - 1) as nat,
                                    Some(records),
                                ),
                                None => None,
                            }
                        } else {
                            None
                        }
                    } else {
                        match sp_skip_value(s, v, (fuel - 1) as nat) {
                            Some(m) => sp_listing_tail(s, m, (fuel - 1) as nat, data),
                            None => None,
                        }
                    }
                } else {
                    None
                }
            },
            None => None,
        }
    }
}

/// After one top-level field's value: `, more fields` or the closing `}`.
pub open spec fn sp_listing_tail(
    s: Seq<char>,
    i: int,
    fuel: nat,
    data: Option<Seq<UnifiClientView>>,
) -> Option<(Option<Seq<UnifiClientView>>, int)>
    decreases fuel,
{
    if fuel == 0 {
        None
    } else {
        let n = sp_ws(s, i);
        if n < s.len() && s[n] == ',' {
            sp_listing_fields(s, sp_ws(s, n + 1), (fuel - 1) as nat, data)
        } else if n < s.len() && s[n] == '}' {
            Some((data, n + 1))
        } else {
            None
        }
    }
}

/// What a listing body decodes to: the records of its `data` field, or
/// `None` when the body is not a listing of the accepted grammar (no
/// top-level object, no `data` field, a malformed record, trailing text).
pub open spec fn spec_decode_listing(s: Seq<char>) -> Option<Seq<UnifiClientView>> {
    let i = sp_ws(s, 0);
    if i < s.len() && s[i] == '{' {
        let j = sp_ws(s, i + 1);
        let fields = if j < s.len() && s[j] == '}' {
            Some((None::<Seq<UnifiClientView>>, j + 1))
        } else {
            sp_listing_fields(s, j, s.len() as nat, None)
        };
        match fields {
            Some((data, end)) => {
                if sp_ws(s, end) == s.len() {
                    match data {
                        Some(records) => Some(records),
                        None => None,
                    }
                } else {
                    None
                }
            },
            None => None,
        }
    } else {
        None
    }
}

// ---------------------------------------------------------------------------
// The decoder, proved to follow the grammar exactly.
// ---------------------------------------------------------------------------

/// Relies on `String: FromIterator<char>`: collecting characters yields the
/// string of exactly those characters.
#[verifier::external_body]
fn chars_to_string(chars: &Vec<char>) -> (r: String)
    ensures
        r@ == chars@,
{
    chars.iter().collect()
}

fn is_ws_char(c: char) -> (r: bool)
    ensures
        r == spec_is_ws(c),
{
    c == ' ' || c == '\t' || c == '\n' || c == '\r'
}

fn is_digit_char(c: char) -> (r: bool)
    ensures
        r == spec_is_digit(c),
{
    '0' <= c && c <= '9'
}

fn is_num_char(c: char) -> (r: bool)
    ensures
        r == spec_is_num_char(c),
{
    is_digit_char(c) || c == '-' || c == '+' || c == '.' || c == 'e' || c == 'E'
}

fn ws_end(s: &str, n: usize, i: usize) -> (r: usize)
    requires
        n == s@.len(),
        i <= n,
    ensures
        r as int == sp_ws(s@, i as int),
        i <= r <= n,
    decreases n - i,
{
    if i < n && is_ws_char(s.get_char(i)) {
        ws_end(s, n, i + 1)
    } else {
        i
    }
}

fn num_end(s: &str, n: usize, i: usize) -> (r: usize)
    requires
        n == s@.len(),
        i <= n,
    ensures
        r as int == sp_num_end(s@, i as int),
        i <= r <= n,
    decreases n - i,
{
    if i < n && is_num_char(s.get_char(i)) {
        num_end(s, n, i + 1)
    } else {
        i
    }
}

fn escape_char(c: char) -> (r: Option<char>)
    ensures
        r == spec_escape(c),
{
    if c == '"' {
        Some('"')
    } else if c == '\\' {
        Some('\\')
    } else if c == '/' {
        Some('/')
    } else if c == 'b' {
        Some('\u{8}')
    } else if c == 'f' {
        Some('\u{c}')
    } else if c == 'n' {
        Some('\n')
    } else if c == 'r' {
        Some('\r')
    } else if c == 't' {
        Some('\t')
    } else {
        None
    }
}

fn parse_string_body(s: &str, n: usize, i: usize) -> (r: Option<(Vec<char>, usize)>)
    requires
        n == s@.len(),
        i <= n,
    ensures
        (match r {
            Some((content, j)) => sp_string(s@, i as int) == Some((content@, j as int)) && i < j
                <= n,
            None => sp_string(s@, i as int) is None,
        }),
    decreases n - i,
{
    if i >= n {
        return None;
    }
    let c = s.get_char(i);
    if c == '"' {
        let content: Vec<char> = Vec::new();
        proof {
            assert(content@ =~= Seq::<char>::empty());
        }
        return Some((content, i + 1));
    }
    if c == '\\' {
        if n - i < 2 {
            return None;
        }
        let d = match escape_char(s.get_char(i + 1)) {
            Some(d) => d,
            None => {
                return None;
            },
        };
        match parse_string_body(s, n, i + 2) {
            Some((mut rest, j)) => {
                rest.insert(0, d);
                proof {
                    assert(rest@ =~= seq![d] + rest@.drop_first());
                }
                Some((rest, j))
            },
            None => None,
        }
    } else {
        match parse_string_body(s, n, i + 1) {
            Some((mut rest, j)) => {
                rest.insert(0, c);
                proof {
                    assert(rest@ =~= seq![c] + rest@.drop_first());
                }
                Some((rest, j))
            },
            None => None,
        }
    }
}

fn skip_value(s: &str, n: usize, i: usize, fuel: usize) -> (r: Option<usize>)
    requires
        n == s@.len(),
        i <= n,
    ensures
        (match r {
            Some(j) => sp_skip_value(s@, i as int, fuel as nat) == Some(j as int) && i < j <= n,
            None => sp_skip_value(s@, i as int, fuel as nat) is None,
        }),
    decreases fuel,
{
    if fuel == 0 || i >= n {
        return None;
    }
    let c = s.get_char(i);
    if c == '"' {
        match parse_string_body(s, n, i + 1) {
            Some((_content, j)) => Some(j),
            None => None,
        }
    } else if c == '{' {
        skip_object(s, n, i + 1, fuel - 1)
    } else if c == '[' {
        skip_array(s, n, i + 1, fuel - 1)
    } else if c == 't' {
        if n - i >= 4 && s.get_char(i + 1) == 'r' && s.get_char(i + 2) == 'u' && s.get_char(i + 3)
            == 'e' {
            Some(i + 4)
        } else {
            None
        }
    } else if c == 'f' {
        if n - i >= 5 && s.get_char(i + 1) == 'a' && s.get_char(i + 2) == 'l' && s.get_char(i + 3)
            == 's' && s.get_char(i + 4) == 'e' {
            Some(i + 5)
        } else {
            None
        }
    } else if c == 'n' {
        if n - i >= 4 && s.get_char(i + 1) == 'u' && s.get_char(i + 2) == 'l' && s.get_char(i + 3)
            == 'l' {
            Some(i + 4)
        } else {
            None
        }
    } else if is_digit_char(c) || c == '-' {
        Some(num_end(s, n, i + 1))
    } else {
        None
    }
}

fn skip_object(s: &str, n: usize, i: usize, fuel: usize) -> (r: Option<usize>)
    requires
        n == s@.len(),
        i <= n,
    ensures
        (match r {
            Some(j) => sp_skip_object(s@, i as int, fuel as nat) == Some(j as int) && i <= j <= n,
            None => sp_skip_object(s@, i as int, fuel as nat) is None,
        }),
    decreases fuel,
{
    if fuel == 0 {
        return None;
    }
    let j = ws_end(s, n, i);
    if j < n && s.get_char(j) == '}' {
        Some(j + 1)
    } else {
        skip_members(s, n, j, fuel - 1)
    }
}

fn skip_members(s: &str, n: usize, i: usize, fuel: usize) -> (r: Option<usize>)
    requires
        n == s@.len(),
        i <= n,
    ensures
        (match r {
            Some(j) => sp_skip_members(s@, i as int, fuel as nat) == Some(j as int) && i <= j <= n,
            None => sp_skip_members(s@, i as int, fuel as nat) is None,
        }),
    decreases fuel,
{
    if fuel == 0 || !(i < n && s.get_char(i) == '"') {
        return None;
    }
    let j = match parse_string_body(s, n, i + 1) {
        Some((_key, j)) => j,
        None => {
            return None;
        },
    };
    let k = ws_end(s, n, j);
    if !(k < n && s.get_char(k) == ':') {
        return None;
    }
    let v = ws_end(s, n, k + 1);
    let m = match skip_value(s, n, v, fuel - 1) {
        Some(m) => m,
        None => {
            return None;
        },
    };
    let p = ws_end(s, n, m);
    if p < n && s.get_char(p) == ',' {
        let q = ws_end(s, n, p + 1);
        skip_members(s, n, q, fuel - 1)
    } else if p < n && s.get_char(p) == '}' {
        Some(p + 1)
    } else {
        None
    }
}

fn skip_array(s: &str, n: usize, i: usize, fuel: usize) -> (r: Option<usize>)
    requires
        n == s@.len(),
        i <= n,
    ensures
        (match r {
            Some(j) => sp_skip_array(s@, i as int, fuel as nat) == Some(j as int) && i <= j <= n,
            None => sp_skip_array(s@, i as int, fuel as nat) is None,
        }),
    decreases fuel,
{
    if fuel == 0 {
        return None;
    }
    let j = ws_end(s, n, i);
    if j < n && s.get_char(j) == ']' {
        Some(j + 1)
    } else {
        skip_items(s, n, j, fuel - 1)
    }
}

fn skip_items(s: &str, n: usize, i: usize, fuel: usize) -> (r: Option<usize>)
    requires
        n == s@.len(),
        i <= n,
    ensures
        (match r {
            Some(j) => sp_skip_items(s@, i as int, fuel as nat) == Some(j as int) && i <= j <= n,
            None => sp_skip_items(s@, i as int, fuel as nat) is None,
        }),
    decreases fuel,
{
    if fuel == 0 {
        return None;
    }
    let m = match skip_value(s, n, i, fuel - 1) {
        Some(m) => m,
        None => {
            return None;
        },
    };
    let p = ws_end(s, n, m);
    if p < n && s.get_char(p) == ',' {
        let q = ws_end(s, n, p + 1);
        skip_items(s, n, q, fuel - 1)
    } else if p < n && s.get_char(p) == ']' {
        Some(p + 1)
    } else {
        None
    }
}

fn parse_record_fields(
    s: &str,
    n: usize,
    i: usize,
    fuel: usize,
    name_seen: bool,
    name: Option<String>,
    mac: Option<String>,
) -> (r: Option<(UnifiClient, usize)>)
    requires
        n == s@.len(),
        i <= n,
    ensures
        (match r {
            Some((rec, j)) => sp_record_fields(
                s@,
                i as int,
                fuel as nat,
                name_seen,
                name.deep_view(),
                mac.deep_view(),
            ) == Some((rec@, j as int)) && i < j <= n,
            None => sp_record_fields(
                s@,
                i as int,
                fuel as nat,
                name_seen,
                name.deep_view(),
                mac.deep_view(),
            ) is None,
        }),
    decreases fuel,
{
    if fuel == 0 || !(i < n && s.get_char(i) == '"') {
        return None;
    }
    let (key, j) = match parse_string_body(s, n, i + 1) {
        Some(kj) => kj,
        None => {
            return None;
        },
    };
    let k = ws_end(s, n, j);
    if !(k < n && s.get_char(k) == ':') {
        return None;
    }
    let v = ws_end(s, n, k + 1);
    let key_string = chars_to_string(&key);
    if key_string.eq(&String::from_str("name")) {
        if name_seen {
            None
        } else if v < n && s.get_char(v) == '"' {
            match parse_string_body(s, n, v + 1) {
                Some((val, m)) => {
                    let val_string = chars_to_string(&val);
                    parse_record_tail(s, n, m, fuel - 1, true, Some(val_string), mac)
                },
                None => None,
            }
        } else if n - v >= 4 && v < n && s.get_char(v) == 'n' && s.get_char(v + 1) == 'u'
            && s.get_char(v + 2) == 'l' && s.get_char(v + 3) == 'l' {
            parse_record_tail(s, n, v + 4, fuel - 1, true, None, mac)
        } else {
            None
        }
    } else if key_string.eq(&String::from_str("mac")) {
        if mac.is_some() {
            None
        } else if v < n && s.get_char(v) == '"' {
            match parse_string_body(s, n, v + 1) {
                Some((val, m)) => {
                    let val_string = chars_to_string(&val);
                    parse_record_tail(s, n, m, fuel - 1, name_seen, name, Some(val_string))
                },
                None => None,
            }
        } else {
            None
        }
    } else {
        match skip_value(s, n, v, fuel - 1) {
            Some(m) => parse_record_tail(s, n, m, fuel - 1, name_seen, name, mac),
            None => None,
        }
    }
}

fn parse_record_tail(
    s: &str,
    n: usize,
    i: usize,
    fuel: usize,
    name_seen: bool,
    name: Option<String>,
    mac: Option<String>,
) -> (r: Option<(UnifiClient, usize)>)
    requires
        n == s@.len(),
        i <= n,
    ensures
        (match r {
            Some((rec, j)) => sp_record_tail(
                s@,
                i as int,
                fuel as nat,
                name_seen,
                name.deep_view(),
                mac.deep_view(),
            ) == Some((rec@, j as int)) && i <= j <= n,
            None => sp_record_tail(
                s@,
                i as int,
                fuel as nat,
                name_seen,
                name.deep_view(),
                mac.deep_view(),
            ) is None,
        }),
    decreases fuel,
{
    if fuel == 0 {
        return None;
    }
    let p = ws_end(s, n, i);
    if p < n && s.get_char(p) == ',' {
        let q = ws_end(s, n, p + 1);
        parse_record_fields(s, n, q, fuel - 1, name_seen, name, mac)
    } else if p < n && s.get_char(p) == '}' {
        match mac {
            Some(m) => Some((UnifiClient { name, mac: m }, p + 1)),
            None => None,
        }
    } else {
        None
    }
}

fn parse_record(s: &str, n: usize, i: usize, fuel: usize) -> (r: Option<(UnifiClient, usize)>)
    requires
        n == s@.len(),
        i <= n,
    ensures
        (match r {
            Some((rec, j)) => sp_record(s@, i as int, fuel as nat) == Some((rec@, j as int)) && i
                < j <= n,
            None => sp_record(s@, i as int, fuel as nat) is None,
        }),
    decreases fuel,
{
    if fuel == 0 || !(i < n && s.get_char(i) == '{') {
        return None;
    }
    let j = ws_end(s, n, i + 1);
    parse_record_fields(s, n, j, fuel - 1, false, None, None)
}

fn parse_records(s: &str, n: usize, i: usize, fuel: usize) -> (r: Option<(Vec<UnifiClient>, usize)>)
    requires
        n == s@.len(),
        i <= n,
    ensures
        (match r {
            Some((records, j)) => sp_records(s@, i as int, fuel as nat) == Some(
                (records.deep_view(), j as int),
            ) && i < j <= n,
            None => sp_records(s@, i as int, fuel as nat) is None,
        }),
    decreases fuel,
{
    if fuel == 0 {
        return None;
    }
    let j = ws_end(s, n, i);
    if j < n && s.get_char(j) == ']' {
        let records: Vec<UnifiClient> = Vec::new();
        proof {
            assert(records.deep_view() =~= Seq::<UnifiClientView>::empty());
        }
        Some((records, j + 1))
    } else {
        parse_record_items(s, n, j, fuel - 1)
    }
}

fn parse_record_items(s: &str, n: usize, i: usize, fuel: usize) -> (r: Option<
    (Vec<UnifiClient>, usize),
>)
    requires
        n == s@.len(),
        i <= n,
    ensures
        (match r {
            Some((records, j)) => sp_record_items(s@, i as int, fuel as nat) == Some(
                (records.deep_view(), j as int),
            ) && i < j <= n,
            None => sp_record_items(s@, i as int, fuel as nat) is None,
        }),
    decreases fuel,
{
    if fuel == 0 {
        return None;
    }
    let (rec, m) = match parse_record(s, n, i, fuel - 1) {
        Some(rm) => rm,
        None => {
            return None;
        },
    };
    let p = ws_end(s, n, m);
    if p < n && s.get_char(p) == ',' {
        let q = ws_end(s, n, p + 1);
        match parse_record_items(s, n, q, fuel - 1) {
            Some((mut rest, end)) => {
                rest.insert(0, rec);
                proof {
                    assert(rest.deep_view() =~= seq![rest@[0].deep_view()]
                        + rest.deep_view().drop_first());
                }
                Some((rest, end))
            },
            None => None,
        }
    } else if p < n && s.get_char(p) == ']' {
        let mut records: Vec<UnifiClient> = Vec::new();
        records.push(rec);
        proof {
            assert(records.deep_view() =~= seq![records@[0].deep_view()]);
        }
        Some((records, p + 1))
    } else {
        None
    }
}

fn parse_listing_fields(
    s: &str,
    n: usize,
    i: usize,
    fuel: usize,
    data: Option<Vec<UnifiClient>>,
) -> (r: Option<(Option<Vec<UnifiClient>>, usize)>)
    requires
        n == s@.len(),
        i <= n,
    ensures
        (match r {
            Some((found, j)) => sp_listing_fields(s@, i as int, fuel as nat, data.deep_view())
                == Some((found.deep_view(), j as int)) && i < j <= n,
            None => sp_listing_fields(s@, i as int, fuel as nat, data.deep_view()) is None,
        }),
    decreases fuel,
{
    if fuel == 0 || !(i < n && s.get_char(i) == '"') {
        return None;
    }
    let (key, j) = match parse_string_body(s, n, i + 1) {
        Some(kj) => kj,
        None => {
            return None;
        },
    };
    let k = ws_end(s, n, j);
    if !(k < n && s.get_char(k) == ':') {
        return None;
    }
    let v = ws_end(s, n, k + 1);
    let key_string = chars_to_string(&key);
    if key_string.eq(&String::from_str("data")) {
        if data.is_some() {
            None
        } else if v < n && s.get_char(v) == '[' {
            match parse_records(s, n, v + 1, fuel - 1) {
                Some((records, m)) => parse_listing_tail(s, n, m, fuel - 1, Some(records)),
                None => None,
            }
        } else {
            None
        }
    } else {
        match skip_value(s, n, v, fuel - 1) {
            Some(m) => parse_listing_tail(s, n, m, fuel - 1, data),
            None => None,
        }
    }
}

fn parse_listing_tail(
    s: &str,
    n: usize,
    i: usize,
    fuel: usize,
    data: Option<Vec<UnifiClient>>,
) -> (r: Option<(Option<Vec<UnifiClient>>, usize)>)
    requires
        n == s@.len(),
        i <= n,
    ensures
        (match r {
            Some((found, j)) => sp_listing_tail(s@, i as int, fuel as nat, data.deep_view())
                == Some((found.deep_view(), j as int)) && i <= j <= n,
            None => sp_listing_tail(s@, i as int, fuel as nat, data.deep_view()) is None,
        }),
    decreases fuel,
{
    if fuel == 0 {
        return None;
    }
    let p = ws_end(s, n, i);
    if p < n && s.get_char(p) == ',' {
        let q = ws_end(s, n, p + 1);
        parse_listing_fields(s, n, q, fuel - 1, data)
    } else if p < n && s.get_char(p) == '}' {
        Some((data, p + 1))
    } else {
        None
    }
}

/// Decodes a listing body into its raw client records; `None` when the
/// body does not follow the listing grammar, which the caller reports as a
/// decoding error.  Returns exactly [`spec_decode_listing`] of the body.
pub fn decode_listing(body: &str) -> (r: Option<Vec<UnifiClient>>)
    ensures
        (match r {
            Some(records) => spec_decode_listing(body@) == Some(records.deep_view()),
            None => spec_decode_listing(body@) is None,
        }),
{
    let n = body.unicode_len();
    let i = ws_end(body, n, 0);
    if !(i < n && body.get_char(i) == '{') {
        return None;
    }
    let j = ws_end(body, n, i + 1);
    let fields: Option<(Option<Vec<UnifiClient>>, usize)> = if j < n && body.get_char(j) == '}' {
        Some((None, j + 1))
    } else {
        parse_listing_fields(body, n, j, n, None)
    };
    match fields {
        Some((data, end)) => {
            let e2 = ws_end(body, n, end);
            if e2 == n {
                match data {
                    Some(records) => Some(records),
                    None => None,
                }
            } else {
                None
            }
        },
        None => None,
    }
}

} // verus!
