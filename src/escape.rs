//! Escaping of strings for quoted KeyValues text.

use vstd::prelude::*;

verus! {

/// The escaped form of one character: a backslash, newline, tab or quote
/// becomes a backslash and a letter; any other character stands for itself.
pub open spec fn escape_char(c: char) -> Seq<char> {
    if c == '\\' {
        seq!['\\', '\\']
    } else if c == '\n' {
        seq!['\\', 'n']
    } else if c == '\t' {
        seq!['\\', 't']
    } else if c == '"' {
        seq!['\\', '"']
    } else {
        seq![c]
    }
}

/// The escaped form of the first `n` characters of `s`.
pub open spec fn escape_prefix(s: Seq<char>, n: int) -> Seq<char>
    decreases n,
{
    if n <= 0 || n > s.len() {
        Seq::empty()
    } else {
        escape_prefix(s, n - 1) + escape_char(s[n - 1])
    }
}

/// The escaped form of a string.
pub open spec fn escaped(s: Seq<char>) -> Seq<char> {
    escape_prefix(s, s.len() as int)
}

/// Escapes backslashes, newlines, tabs and quotes.
pub fn escape(input: &str) -> (r: String)
    ensures
        r@ == escaped(input@),
{
    let s = crate::text::chars_of(input);
    let mut out: Vec<char> = Vec::new();
    let mut i: usize = 0;
    while i < s.len()
        invariant
            i <= s@.len(),
            s@ == input@,
            out@ == escape_prefix(s@, i as int),
        decreases s@.len() - i,
    {
        let c = s[i];
        if c == '\\' {
            out.push('\\');
            out.push('\\');
        } else if c == '\n' {
            out.push('\\');
            out.push('n');
        } else if c == '\t' {
            out.push('\\');
            out.push('t');
        } else if c == '"' {
            out.push('\\');
            out.push('"');
        } else {
            out.push(c);
        }
        assert(out@ =~= escape_prefix(s@, i + 1));
        i = i + 1;
    }
    crate::text::string_from_chars(out)
}

} // verus!
