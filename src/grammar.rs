//! The KeyValues grammar: lexical rules and the recursive-descent parser
//! that turns text into a tree of `Entry` values.
//!
//! Each rule is stated as a spec function over the input characters and a
//! position; the executable parser is proved to compute exactly that.

use vstd::prelude::*;
use crate::text::slice_string;

verus! {

broadcast use vstd::seq::group_seq_axioms, vstd::std_specs::vec::group_vec_axioms;

/// One parsed key with its value and optional bracketed tag.
#[derive(Debug)]
pub struct Entry {
    pub key: String,
    pub value: Value,
    pub macro_: Option<String>,
}

/// The value of an entry: a string or a block of nested entries.
#[derive(Debug)]
pub enum Value {
    String(String),
    Block(Vec<Entry>),
}

/// The mathematical form of an `Entry`.
pub struct SpecEntry {
    pub key: Seq<char>,
    pub value: SpecValue,
    pub tag: Option<Seq<char>>,
}

/// The mathematical form of a `Value`.
pub enum SpecValue {
    Scalar(Seq<char>),
    Block(Seq<SpecEntry>),
}

pub open spec fn opt_view(o: Option<String>) -> Option<Seq<char>> {
    match o {
        Some(t) => Some(t@),
        None => None,
    }
}

/// The model of an entry.
pub open spec fn entry_view(e: Entry) -> SpecEntry
    decreases e, 0int,
{
    SpecEntry {
        key: e.key@,
        value: match e.value {
            Value::String(v) => SpecValue::Scalar(v@),
            Value::Block(es) => SpecValue::Block(entries_view(es@, es@.len() as int)),
        },
        tag: opt_view(e.macro_),
    }
}

/// The models of the first `n` entries of `es`.
pub open spec fn entries_view(es: Seq<Entry>, n: int) -> Seq<SpecEntry>
    decreases es, n,
{
    if n <= 0 || n > es.len() {
        Seq::empty()
    } else {
        entries_view(es, n - 1).push(entry_view(es[n - 1]))
    }
}

pub proof fn lemma_entries_view_len(es: Seq<Entry>, n: int)
    requires
        0 <= n <= es.len(),
    ensures
        entries_view(es, n).len() == n,
        forall|k: int| 0 <= k < n ==> #[trigger] entries_view(es, n)[k] == entry_view(es[k]),
    decreases n,
{
    if n > 0 {
        lemma_entries_view_len(es, n - 1);
    }
}

// ---------------------------------------------------------------------------
// Lexical rules
// ---------------------------------------------------------------------------

/// A character that may appear in an unquoted string.
pub open spec fn is_unquoted_char(c: char) -> bool {
    c != '"' && c != '{' && c != '}' && c != '\n' && c != '\r' && c != '\t' && c != ' '
}

pub open spec fn is_space(c: char) -> bool {
    c == ' ' || c == '\t'
}

/// A character that may follow a backslash in a quoted string.
pub open spec fn is_escapable(c: char) -> bool {
    c == '"' || c == 'n' || c == 't' || c == '\\'
}

/// A character that may appear inside a tag.
pub open spec fn is_tag_char(c: char) -> bool {
    c != '[' && c != ']' && c != '\n'
}

/// The end of the run of unquoted-string characters that starts at `i`.
pub open spec fn unquoted_end(s: Seq<char>, i: int) -> int
    decreases s.len() - i,
{
    if 0 <= i < s.len() && is_unquoted_char(s[i]) {
        unquoted_end(s, i + 1)
    } else {
        i
    }
}

/// The end of the run of spaces and tabs that starts at `i`.
pub open spec fn spaces_end(s: Seq<char>, i: int) -> int
    decreases s.len() - i,
{
    if 0 <= i < s.len() && is_space(s[i]) {
        spaces_end(s, i + 1)
    } else {
        i
    }
}

/// The end of the run of tag characters that starts at `i`.
pub open spec fn tag_chars_end(s: Seq<char>, i: int) -> int
    decreases s.len() - i,
{
    if 0 <= i < s.len() && is_tag_char(s[i]) {
        tag_chars_end(s, i + 1)
    } else {
        i
    }
}

/// Scans the body of a quoted string from `i`: the position of the first
/// unescaped `"`, the end of input if there is none, or `None` at a bad or
/// unfinished escape.
pub open spec fn escape_scan(s: Seq<char>, i: int) -> Option<int>
    decreases s.len() - i,
{
    if i < 0 || i >= s.len() {
        Some(s.len() as int)
    } else if s[i] == '\\' {
        if i + 1 < s.len() && is_escapable(s[i + 1]) {
            escape_scan(s, i + 2)
        } else {
            None
        }
    } else if s[i] == '"' {
        Some(i)
    } else {
        escape_scan(s, i + 1)
    }
}

/// A string at `i`: `(start, end, next)` where `s[start..end]` is its raw
/// content and `next` the position after it.
pub open spec fn string_at(s: Seq<char>, i: int) -> Option<(int, int, int)> {
    if 0 <= i < s.len() && s[i] == '"' {
        match escape_scan(s, i + 1) {
            Some(e) => if e < s.len() {
                Some((i + 1, e, e + 1))
            } else {
                None
            },
            None => None,
        }
    } else if 0 <= i && unquoted_end(s, i) > i {
        Some((i, unquoted_end(s, i), unquoted_end(s, i)))
    } else {
        None
    }
}

/// The first position from `i` that holds a line break, the end of input if
/// there is none, or `None` where a carriage return is not followed by `\n`.
pub open spec fn line_scan(s: Seq<char>, i: int) -> Option<int>
    decreases s.len() - i,
{
    if i < 0 || i >= s.len() {
        Some(s.len() as int)
    } else if s[i] == '\n' {
        Some(i)
    } else if s[i] == '\r' {
        if i + 1 < s.len() && s[i + 1] == '\n' {
            Some(i)
        } else {
            None
        }
    } else {
        line_scan(s, i + 1)
    }
}

/// A comment at `i`: a `/` and the rest of the line; the position after it.
pub open spec fn comment_at(s: Seq<char>, i: int) -> Option<int> {
    if 0 <= i < s.len() && s[i] == '/' {
        line_scan(s, i + 1)
    } else {
        None
    }
}

/// A line ending (`\n` or `\r\n`) at `i`; the position after it.
pub open spec fn line_ending_at(s: Seq<char>, i: int) -> Option<int> {
    if 0 <= i < s.len() && s[i] == '\n' {
        Some(i + 1)
    } else if 0 <= i && i + 1 < s.len() && s[i] == '\r' && s[i + 1] == '\n' {
        Some(i + 2)
    } else {
        None
    }
}

/// One line break: optional spaces, an optional comment, a line ending and
/// optional spaces; the position after it.
pub open spec fn newline_at(s: Seq<char>, i: int) -> Option<int> {
    let a = spaces_end(s, i);
    let b = match comment_at(s, a) {
        Some(c) => c,
        None => a,
    };
    match line_ending_at(s, b) {
        Some(c) => Some(spaces_end(s, c)),
        None => None,
    }
}

/// The position after as many line breaks as follow `i`.
pub open spec fn newlines_end(s: Seq<char>, i: int) -> int
    decreases s.len() - i,
{
    match newline_at(s, i) {
        Some(j) => if i < j <= s.len() {
            newlines_end(s, j)
        } else {
            i
        },
        None => i,
    }
}

/// A tag at `i`: `(start, end, next)` where `s[start..end]` is its content.
pub open spec fn tag_at(s: Seq<char>, i: int) -> Option<(int, int, int)> {
    if 0 <= i < s.len() && s[i] == '[' {
        let e = tag_chars_end(s, i + 1);
        if e > i + 1 && e < s.len() && s[e] == ']' {
            Some((i + 1, e, e + 1))
        } else {
            None
        }
    } else {
        None
    }
}

/// An optional tag preceded by spaces at `i`: the tag and the position
/// after it, or no tag and `i` itself.
pub open spec fn opt_tag_at(s: Seq<char>, i: int) -> (Option<Seq<char>>, int) {
    let a = spaces_end(s, i);
    if a > i {
        match tag_at(s, a) {
            Some((ts, te, n)) => (Some(s.subrange(ts, te)), n),
            None => (None, i),
        }
    } else {
        (None, i)
    }
}

/// The character that an escape `\c` stands for.
pub open spec fn decode_escape(c: char) -> char {
    if c == 'n' {
        '\n'
    } else if c == 't' {
        '\t'
    } else {
        c
    }
}

/// `s[i..j]` with its escapes decoded: `\\`, `\n`, `\t` and `\"` stand
/// for a backslash, a newline, a tab and a quote; any other character
/// stands for itself.
pub open spec fn unescape_range(s: Seq<char>, i: int, j: int) -> Seq<char>
    decreases j - i,
{
    if i >= j {
        Seq::empty()
    } else if s[i] == '\\' && i + 1 < j && is_escapable(s[i + 1]) {
        seq![decode_escape(s[i + 1])] + unescape_range(s, i + 2, j)
    } else {
        seq![s[i]] + unescape_range(s, i + 1, j)
    }
}

/// A value's text with its escapes decoded.
pub open spec fn unescape(t: Seq<char>) -> Seq<char> {
    unescape_range(t, 0, t.len() as int)
}

// ---------------------------------------------------------------------------
// Entries
// ---------------------------------------------------------------------------

/// A scalar entry at `i`: a key, spaces, a value and an optional tag.
pub open spec fn scalar_at(s: Seq<char>, i: int) -> Option<(SpecEntry, int)> {
    match string_at(s, i) {
        Some((ks, ke, n1)) => {
            let a = spaces_end(s, n1);
            if a > n1 {
                match string_at(s, a) {
                    Some((vs, ve, n2)) => {
                        let (tag, n3) = opt_tag_at(s, n2);
                        Some(
                            (
                                SpecEntry {
                                    key: s.subrange(ks, ke),
                                    value: SpecValue::Scalar(unescape_range(s, vs, ve)),
                                    tag: tag,
                                },
                                n3,
                            ),
                        )
                    },
                    None => None,
                }
            } else {
                None
            }
        },
        None => None,
    }
}

/// An entry at `i`: the block form if it matches, else the scalar form.
pub open spec fn entry_at(s: Seq<char>, i: int) -> Option<(SpecEntry, int)>
    decreases s.len() - i, 2int,
{
    match block_at(s, i) {
        Some(r) => Some(r),
        None => scalar_at(s, i),
    }
}

/// A block entry at `i`: a key, an optional tag, line breaks, `{`, the
/// entries separated by line breaks, line breaks and `}`.
pub open spec fn block_at(s: Seq<char>, i: int) -> Option<(SpecEntry, int)>
    decreases s.len() - i, 1int,
{
    match string_at(s, i) {
        Some((ks, ke, n1)) => {
            let (tag, n2) = opt_tag_at(s, n1);
            let n3 = newlines_end(s, n2);
            if i < n3 < s.len() && s[n3] == '{' {
                let n4 = newlines_end(s, n3 + 1);
                if n3 < n4 <= s.len() {
                    let (entries, n5) = list_at(s, n4);
                    let n6 = newlines_end(s, n5);
                    if 0 <= n6 < s.len() && s[n6] == '}' {
                        Some(
                            (
                                SpecEntry {
                                    key: s.subrange(ks, ke),
                                    value: SpecValue::Block(entries),
                                    tag: tag,
                                },
                                n6 + 1,
                            ),
                        )
                    } else {
                        None
                    }
                } else {
                    None
                }
            } else {
                None
            }
        },
        None => None,
    }
}

/// Entries separated by line breaks from `i` (possibly none), and the
/// position after the last one.
pub open spec fn list_at(s: Seq<char>, i: int) -> (Seq<SpecEntry>, int)
    decreases s.len() - i, 3int,
{
    match entry_at(s, i) {
        Some((e, q)) => if i < q <= s.len() {
            let (rest, end) = list_rest(s, q);
            (seq![e] + rest, end)
        } else {
            (Seq::empty(), i)
        },
        None => (Seq::empty(), i),
    }
}

/// The entries that follow an entry ending at `q`, each after one or more
/// line breaks, and the position after the last one.
pub open spec fn list_rest(s: Seq<char>, q: int) -> (Seq<SpecEntry>, int)
    decreases s.len() - q, 4int,
{
    let sep = newlines_end(s, q);
    if q < sep <= s.len() {
        match entry_at(s, sep) {
            Some((e, r)) => if sep < r <= s.len() {
                let (rest, end) = list_rest(s, r);
                (seq![e] + rest, end)
            } else {
                (Seq::empty(), q)
            },
            None => (Seq::empty(), q),
        }
    } else {
        (Seq::empty(), q)
    }
}


// ---------------------------------------------------------------------------
// Executable rules
// ---------------------------------------------------------------------------

fn unquoted_char(c: char) -> (r: bool)
    ensures
        r == is_unquoted_char(c),
{
    c != '"' && c != '{' && c != '}' && c != '\n' && c != '\r' && c != '\t' && c != ' '
}

/// The end of the run of spaces and tabs from `i`.
pub fn spaces(s: &Vec<char>, i: usize) -> (r: usize)
    requires
        i <= s@.len(),
    ensures
        r as int == spaces_end(s@, i as int),
        i <= r <= s@.len(),
{
    let mut k = i;
    while k < s.len() && (s[k] == ' ' || s[k] == '\t')
        invariant
            i <= k <= s@.len(),
            spaces_end(s@, k as int) == spaces_end(s@, i as int),
        decreases s@.len() - k,
    {
        k = k + 1;
    }
    k
}

/// The end of the unquoted string at `i` (equal to `i` where there is none).
pub fn unquoted_string(s: &Vec<char>, i: usize) -> (r: usize)
    requires
        i <= s@.len(),
    ensures
        r as int == unquoted_end(s@, i as int),
        i <= r <= s@.len(),
{
    let mut k = i;
    while k < s.len() && unquoted_char(s[k])
        invariant
            i <= k <= s@.len(),
            unquoted_end(s@, k as int) == unquoted_end(s@, i as int),
        decreases s@.len() - k,
    {
        k = k + 1;
    }
    k
}

/// The closing quote of the quoted string at `i`, if it is one.
pub fn quoted_string(s: &Vec<char>, i: usize) -> (r: Option<usize>)
    requires
        i < s@.len(),
        s@[i as int] == '"',
    ensures
        match r {
            Some(e) => escape_scan(s@, i + 1) == Some(e as int) && i < e < s@.len(),
            None => !(escape_scan(s@, i + 1) matches Some(e) && e < s@.len()),
        },
{
    let n = s.len();
    let mut k = i + 1;
    while k < s.len() && s[k] != '"'
        invariant
            i < k <= s@.len(),
            escape_scan(s@, k as int) == escape_scan(s@, i + 1),
        decreases s@.len() - k,
    {
        if s[k] == '\\' {
            if k + 1 < s.len() && (s[k + 1] == '"' || s[k + 1] == 'n' || s[k + 1] == 't' || s[k + 1]
                == '\\') {
                k = k + 2;
            } else {
                return None;
            }
        } else {
            k = k + 1;
        }
    }
    if k < s.len() {
        Some(k)
    } else {
        None
    }
}

/// The string at `i`: the bounds of its raw content and the position after it.
pub fn string(s: &Vec<char>, i: usize) -> (r: Option<(usize, usize, usize)>)
    requires
        i <= s@.len(),
    ensures
        match r {
            Some((a, b, c)) => string_at(s@, i as int) == Some((a as int, b as int, c as int)) && i
                < c <= s@.len() && i <= a <= b <= c,
            None => string_at(s@, i as int) is None,
        },
{
    let n = s.len();
    if i < s.len() && s[i] == '"' {
        match quoted_string(s, i) {
            Some(e) => Some((i + 1, e, e + 1)),
            None => None,
        }
    } else {
        let e = unquoted_string(s, i);
        if e > i {
            Some((i, e, e))
        } else {
            None
        }
    }
}

/// The comment at `i`, if there is one: the position after it.
pub fn comment(s: &Vec<char>, i: usize) -> (r: Option<usize>)
    requires
        i <= s@.len(),
    ensures
        match r {
            Some(j) => comment_at(s@, i as int) == Some(j as int) && i < j <= s@.len(),
            None => comment_at(s@, i as int) is None,
        },
{
    let n = s.len();
    if i < s.len() && s[i] == '/' {
        let mut k = i + 1;
        while k < s.len() && s[k] != '\n' && s[k] != '\r'
            invariant
                i < k <= s@.len(),
                line_scan(s@, k as int) == line_scan(s@, i + 1),
            decreases s@.len() - k,
        {
            k = k + 1;
        }
        if k < s.len() && s[k] == '\r' && !(k + 1 < s.len() && s[k + 1] == '\n') {
            None
        } else {
            Some(k)
        }
    } else {
        None
    }
}

/// One line break at `i`, if there is one: the position after it.
pub fn whitespace_newline(s: &Vec<char>, i: usize) -> (r: Option<usize>)
    requires
        i <= s@.len(),
    ensures
        match r {
            Some(j) => newline_at(s@, i as int) == Some(j as int) && i < j <= s@.len(),
            None => newline_at(s@, i as int) is None,
        },
{
    let n = s.len();
    let a = spaces(s, i);
    let b = match comment(s, a) {
        Some(c) => c,
        None => a,
    };
    let c = if b < s.len() && s[b] == '\n' {
        b + 1
    } else if b < n && b + 1 < n && s[b] == '\r' && s[b + 1] == '\n' {
        b + 2
    } else {
        return None;
    };
    Some(spaces(s, c))
}

/// The position after all the line breaks that follow `i`.
pub fn whitespace_newlines(s: &Vec<char>, i: usize) -> (r: usize)
    requires
        i <= s@.len(),
    ensures
        r as int == newlines_end(s@, i as int),
        i <= r <= s@.len(),
{
    let mut k = i;
    loop
        invariant
            i <= k <= s@.len(),
            newlines_end(s@, k as int) == newlines_end(s@, i as int),
        decreases s@.len() - k,
    {
        match whitespace_newline(s, k) {
            Some(j) => {
                k = j;
            },
            None => {
                return k;
            },
        }
    }
}

/// The tag at `i`, if there is one: the bounds of its content and the
/// position after it.
pub fn parse_macro(s: &Vec<char>, i: usize) -> (r: Option<(usize, usize, usize)>)
    requires
        i <= s@.len(),
    ensures
        match r {
            Some((a, b, c)) => tag_at(s@, i as int) == Some((a as int, b as int, c as int)) && i < a
                <= b < c <= s@.len(),
            None => tag_at(s@, i as int) is None,
        },
{
    let n = s.len();
    if i < s.len() && s[i] == '[' {
        let mut k = i + 1;
        while k < s.len() && s[k] != '[' && s[k] != ']' && s[k] != '\n'
            invariant
                i < k <= s@.len(),
                tag_chars_end(s@, k as int) == tag_chars_end(s@, i + 1),
            decreases s@.len() - k,
        {
            k = k + 1;
        }
        if k > i + 1 && k < s.len() && s[k] == ']' {
            Some((i + 1, k, k + 1))
        } else {
            None
        }
    } else {
        None
    }
}

/// An optional tag preceded by spaces at `i`.
fn opt_macro(s: &Vec<char>, i: usize) -> (r: (Option<String>, usize))
    requires
        i <= s@.len(),
    ensures
        (opt_view(r.0), r.1 as int) == opt_tag_at(s@, i as int),
        i <= r.1 <= s@.len(),
{
    let a = spaces(s, i);
    if a > i {
        match parse_macro(s, a) {
            Some((ts, te, n)) => (Some(slice_string(s, ts, te)), n),
            None => (None, i),
        }
    } else {
        (None, i)
    }
}

/// `s[from..to]` with its escapes decoded.
pub fn unescape_chars(s: &Vec<char>, from: usize, to: usize) -> (r: String)
    requires
        from <= to <= s@.len(),
    ensures
        r@ == unescape_range(s@, from as int, to as int),
{
    let mut out: Vec<char> = Vec::new();
    let mut k = from;
    while k < to
        invariant
            from <= k <= to <= s@.len(),
            out@ + unescape_range(s@, k as int, to as int) == unescape_range(
                s@,
                from as int,
                to as int,
            ),
        decreases to - k,
    {
        let c = s[k];
        if c == '\\' && k + 1 < to && (s[k + 1] == '"' || s[k + 1] == 'n' || s[k + 1] == 't' || s[k
            + 1] == '\\') {
            let d = s[k + 1];
            let decoded = if d == 'n' {
                '\n'
            } else if d == 't' {
                '\t'
            } else {
                d
            };
            proof {
                let rest = unescape_range(s@, k + 2, to as int);
                assert(out@ + (seq![decoded] + rest) =~= out@.push(decoded) + rest);
            }
            out.push(decoded);
            k = k + 2;
        } else {
            proof {
                let rest = unescape_range(s@, k + 1, to as int);
                assert(out@ + (seq![c] + rest) =~= out@.push(c) + rest);
            }
            out.push(c);
            k = k + 1;
        }
    }
    assert(out@ + Seq::<char>::empty() =~= out@);
    crate::text::string_from_chars(out)
}

/// A scalar entry at `i`: a key, spaces, a value and an optional tag.
pub fn key_value_string(s: &Vec<char>, i: usize) -> (r: Option<(Entry, usize)>)
    requires
        i <= s@.len(),
    ensures
        match r {
            Some((e, n)) => scalar_at(s@, i as int) == Some((entry_view(e), n as int)) && i < n
                <= s@.len(),
            None => scalar_at(s@, i as int) is None,
        },
{
    let (ks, ke, n1) = match string(s, i) {
        Some(t) => t,
        None => return None,
    };
    let a = spaces(s, n1);
    if a == n1 {
        return None;
    }
    let (vs, ve, n2) = match string(s, a) {
        Some(t) => t,
        None => return None,
    };
    let (tag, n3) = opt_macro(s, n2);
    let key = slice_string(s, ks, ke);
    let value = unescape_chars(s, vs, ve);
    let e = Entry { key, value: Value::String(value), macro_: tag };
    Some((e, n3))
}

/// A block entry at `i`: a key, an optional tag, line breaks, `{`, the
/// entries, line breaks and `}`.
pub fn key_value_map(s: &Vec<char>, i: usize) -> (r: Option<(Entry, usize)>)
    requires
        i <= s@.len(),
    ensures
        match r {
            Some((e, n)) => block_at(s@, i as int) == Some((entry_view(e), n as int)) && i < n
                <= s@.len(),
            None => block_at(s@, i as int) is None,
        },
    decreases s@.len() - i, 1int,
{
    let (ks, ke, n1) = match string(s, i) {
        Some(t) => t,
        None => return None,
    };
    let (tag, n2) = opt_macro(s, n1);
    let n3 = whitespace_newlines(s, n2);
    if !(n3 < s.len() && s[n3] == '{') {
        return None;
    }
    let n4 = whitespace_newlines(s, n3 + 1);
    let (entries, n5) = key_value_map_body(s, n4);
    let n6 = whitespace_newlines(s, n5);
    if !(n6 < s.len() && s[n6] == '}') {
        return None;
    }
    let key = slice_string(s, ks, ke);
    proof {
        lemma_entries_view_len(entries@, entries@.len() as int);
    }
    let e = Entry { key, value: Value::Block(entries), macro_: tag };
    Some((e, n6 + 1))
}

/// Entries separated by line breaks from `i`, and the position after the
/// last one.
pub fn key_value_map_body(s: &Vec<char>, i: usize) -> (r: (Vec<Entry>, usize))
    requires
        i <= s@.len(),
    ensures
        (entries_view(r.0@, r.0@.len() as int), r.1 as int) == list_at(s@, i as int),
        i <= r.1 <= s@.len(),
    decreases s@.len() - i, 3int,
{
    let mut out: Vec<Entry> = Vec::new();
    let (first, q) = match key_value(s, i) {
        Some(t) => t,
        None => return (out, i),
    };
    out.push(first);
    let mut k = q;
    proof {
        lemma_entries_view_len(out@, 1);
        assert(entries_view(out@, 1) =~= seq![entry_view(first)]);
    }
    loop
        invariant
            i < k <= s@.len(),
            entries_view(out@, out@.len() as int) + list_rest(s@, k as int).0 == list_at(
                s@,
                i as int,
            ).0,
            list_rest(s@, k as int).1 == list_at(s@, i as int).1,
        decreases s@.len() - k,
    {
        let sep = whitespace_newlines(s, k);
        if sep == k {
            assert(entries_view(out@, out@.len() as int) + Seq::<SpecEntry>::empty()
                =~= entries_view(out@, out@.len() as int));
            return (out, k);
        }
        match key_value(s, sep) {
            Some((e, r)) => {
                let ghost old_out = out@;
                out.push(e);
                proof {
                    lemma_entries_view_len(out@, out@.len() as int);
                    lemma_entries_view_len(old_out, old_out.len() as int);
                    assert(out@.subrange(0, old_out.len() as int) =~= old_out);
                    lemma_entries_view_prefix(out@, old_out, old_out.len() as int);
                    let rest = list_rest(s@, r as int).0;
                    assert(entries_view(out@, out@.len() as int) =~= entries_view(
                        old_out,
                        old_out.len() as int,
                    ).push(entry_view(e)));
                    assert(entries_view(old_out, old_out.len() as int) + (seq![entry_view(e)]
                        + rest) =~= entries_view(out@, out@.len() as int) + rest);
                }
                k = r;
            },
            None => {
                assert(entries_view(out@, out@.len() as int) + Seq::<SpecEntry>::empty()
                    =~= entries_view(out@, out@.len() as int));
                return (out, k);
            },
        }
    }
}

/// An entry at `i`: the block form if it matches, else the scalar form.
pub fn key_value(s: &Vec<char>, i: usize) -> (r: Option<(Entry, usize)>)
    requires
        i <= s@.len(),
    ensures
        match r {
            Some((e, n)) => entry_at(s@, i as int) == Some((entry_view(e), n as int)) && i < n
                <= s@.len(),
            None => entry_at(s@, i as int) is None,
        },
    decreases s@.len() - i, 2int,
{
    match key_value_map(s, i) {
        Some(r) => Some(r),
        None => key_value_string(s, i),
    }
}

/// The models of a prefix of `es` depend only on that prefix.
pub proof fn lemma_entries_view_prefix(es: Seq<Entry>, pre: Seq<Entry>, n: int)
    requires
        0 <= n <= pre.len() <= es.len(),
        forall|k: int| 0 <= k < n ==> es[k] == pre[k],
    ensures
        entries_view(es, n) == entries_view(pre, n),
    decreases n,
{
    if n > 0 {
        lemma_entries_view_prefix(es, pre, n - 1);
    }
}

} // verus!
