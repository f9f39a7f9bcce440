//! A lossless tokenizer for KeyValues text: every character of the input
//! belongs to exactly one token, so whitespace and comments are kept.

use vstd::prelude::*;
use crate::text::{chars_of, string_from_chars};

verus! {

broadcast use vstd::seq::group_seq_axioms, vstd::std_specs::vec::group_vec_axioms;

/// One token and the text it holds.
#[derive(Debug)]
pub enum Token {
    String(String),
    QuotedString(String),
    GroupStart,
    GroupEnd,
    Whitespace(String),
    Comment(String),
    Condition(String),
    NewLine(String),
}

/// Why text cannot be tokenized.
#[derive(Debug, PartialEq, Eq, Structural)]
pub enum TokenError {
    BadEscape(char),
    UnclosedQuote,
    UnclosedCondition,
    Syntax(char),
}

/// The model of a token: its kind and its text.
pub enum SpecToken {
    String(Seq<char>),
    QuotedString(Seq<char>),
    GroupStart,
    GroupEnd,
    Whitespace(Seq<char>),
    Comment(Seq<char>),
    Condition(Seq<char>),
    NewLine(Seq<char>),
}

pub open spec fn token_view(t: Token) -> SpecToken {
    match t {
        Token::String(s) => SpecToken::String(s@),
        Token::QuotedString(s) => SpecToken::QuotedString(s@),
        Token::GroupStart => SpecToken::GroupStart,
        Token::GroupEnd => SpecToken::GroupEnd,
        Token::Whitespace(s) => SpecToken::Whitespace(s@),
        Token::Comment(s) => SpecToken::Comment(s@),
        Token::Condition(s) => SpecToken::Condition(s@),
        Token::NewLine(s) => SpecToken::NewLine(s@),
    }
}

pub open spec fn tokens_view(ts: Seq<Token>) -> Seq<SpecToken> {
    ts.map_values(|t: Token| token_view(t))
}

/// A character of a bare word.
pub open spec fn is_word_char(c: char) -> bool {
    ('a' <= c && c <= 'z') || ('A' <= c && c <= 'Z') || ('0' <= c && c <= '9') || c == '_' || c
        == '-'
}

pub open spec fn is_blank(c: char) -> bool {
    c == ' ' || c == '\t'
}

/// The end of the run of characters from `i` that satisfy `p`.
pub open spec fn run_end(s: Seq<char>, i: int, p: spec_fn(char) -> bool) -> int
    decreases s.len() - i,
{
    if 0 <= i < s.len() && p(s[i]) {
        run_end(s, i + 1, p)
    } else {
        i
    }
}

/// The first position from `i` that holds `c`, or the end of input.
pub open spec fn find_char(s: Seq<char>, i: int, c: char) -> int
    decreases s.len() - i,
{
    if 0 <= i < s.len() && s[i] != c {
        find_char(s, i + 1, c)
    } else {
        i
    }
}

/// The text of a quoted string whose body starts at `i`, and the position
/// after its closing quote.
pub open spec fn quoted_body(s: Seq<char>, i: int) -> Result<(Seq<char>, int), TokenError>
    decreases s.len() - i,
{
    if i < 0 || i >= s.len() {
        Err(TokenError::UnclosedQuote)
    } else if s[i] == '"' {
        Ok((Seq::empty(), i + 1))
    } else if s[i] == '\\' {
        if i + 1 >= s.len() {
            Err(TokenError::UnclosedQuote)
        } else {
            let e = s[i + 1];
            if e == '\\' || e == 'n' || e == 't' || e == '"' {
                match quoted_body(s, i + 2) {
                    Ok((rest, n)) => Ok((
                        seq![
                            if e == 'n' {
                                '\n'
                            } else if e == 't' {
                                '\t'
                            } else {
                                e
                            },
                        ] + rest,
                        n,
                    )),
                    Err(err) => Err(err),
                }
            } else {
                Err(TokenError::BadEscape(e))
            }
        }
    } else {
        match quoted_body(s, i + 1) {
            Ok((rest, n)) => Ok((seq![s[i]] + rest, n)),
            Err(err) => Err(err),
        }
    }
}

/// The comment text from `i` up to the next `\n` (a `\r` right before it
/// is left out), and the position of that `\n` or of the end.
pub open spec fn comment_body(s: Seq<char>, i: int) -> (Seq<char>, int) {
    let e = find_char(s, i, '\n');
    if e < s.len() && e > i && s[e - 1] == '\r' {
        (s.subrange(i, e - 1), e)
    } else {
        (s.subrange(i, e), e)
    }
}

/// The token at `i < s.len()` and the position after it.
pub open spec fn token_at(s: Seq<char>, i: int) -> Result<(SpecToken, int), TokenError> {
    let c = s[i];
    if c == '{' {
        Ok((SpecToken::GroupStart, i + 1))
    } else if c == '}' {
        Ok((SpecToken::GroupEnd, i + 1))
    } else if c == '\r' {
        if i + 1 < s.len() && s[i + 1] == '\n' {
            Ok((SpecToken::NewLine(seq!['\r', '\n']), i + 2))
        } else {
            Ok((SpecToken::NewLine(seq!['\r']), i + 1))
        }
    } else if c == '\n' {
        Ok((SpecToken::NewLine(seq!['\n']), i + 1))
    } else if is_blank(c) {
        let e = run_end(s, i, |x: char| is_blank(x));
        Ok((SpecToken::Whitespace(s.subrange(i, e)), e))
    } else if is_word_char(c) {
        let e = run_end(s, i, |x: char| is_word_char(x));
        Ok((SpecToken::String(s.subrange(i, e)), e))
    } else if c == '"' {
        match quoted_body(s, i + 1) {
            Ok((t, n)) => Ok((SpecToken::QuotedString(t), n)),
            Err(err) => Err(err),
        }
    } else if c == '[' {
        let e = find_char(s, i + 1, ']');
        if e < s.len() {
            Ok((SpecToken::Condition(s.subrange(i + 1, e)), e + 1))
        } else {
            Err(TokenError::UnclosedCondition)
        }
    } else if c == '/' {
        let (t, e) = comment_body(s, i);
        Ok((SpecToken::Comment(t), e))
    } else {
        Err(TokenError::Syntax(c))
    }
}

/// The tokens of `s` from `i` on.
pub open spec fn tokenize_from(s: Seq<char>, i: int) -> Result<Seq<SpecToken>, TokenError>
    decreases s.len() - i,
{
    if i < 0 || i >= s.len() {
        Ok(Seq::empty())
    } else {
        match token_at(s, i) {
            Ok((t, n)) => if i < n <= s.len() {
                match tokenize_from(s, n) {
                    Ok(rest) => Ok(seq![t] + rest),
                    Err(err) => Err(err),
                }
            } else {
                Err(TokenError::Syntax(s[i]))
            },
            Err(err) => Err(err),
        }
    }
}

/// The tokens of a whole text.
pub open spec fn tokenize(s: Seq<char>) -> Result<Seq<SpecToken>, TokenError> {
    tokenize_from(s, 0)
}

/// A tokenized text.
#[derive(Debug, Default)]
pub struct Tokens {
    pub tokens: Vec<Token>,
}

fn word_char(c: char) -> (r: bool)
    ensures
        r == is_word_char(c),
{
    ('a' <= c && c <= 'z') || ('A' <= c && c <= 'Z') || ('0' <= c && c <= '9') || c == '_' || c
        == '-'
}

/// The characters `s[from..to]`.
fn copy_chars(s: &Vec<char>, from: usize, to: usize) -> (r: Vec<char>)
    requires
        from <= to <= s@.len(),
    ensures
        r@ == s@.subrange(from as int, to as int),
{
    let mut out: Vec<char> = Vec::new();
    let mut k = from;
    while k < to
        invariant
            from <= k <= to <= s@.len(),
            out@ == s@.subrange(from as int, k as int),
        decreases to - k,
    {
        out.push(s[k]);
        assert(out@ =~= s@.subrange(from as int, k + 1));
        k = k + 1;
    }
    out
}

impl Tokens {
    /// No tokens.
    pub fn new() -> (r: Self)
        ensures
            r.tokens@.len() == 0,
    {
        Tokens { tokens: Vec::new() }
    }

    /// A line break: `\r`, `\n` or `\r\n`.
    pub fn use_new_line(s: &Vec<char>, i: usize) -> (r: (Token, usize))
        requires
            i < s@.len(),
            s@[i as int] == '\r' || s@[i as int] == '\n',
        ensures
            token_at(s@, i as int) == Ok::<(SpecToken, int), TokenError>(
                (token_view(r.0), r.1 as int),
            ),
            i < r.1 <= s@.len(),
    {
        let len = s.len();
        let mut out: Vec<char> = Vec::new();
        let mut k = i;
        if s[k] == '\r' {
            out.push('\r');
            k = k + 1;
        }
        if k < s.len() && s[k] == '\n' {
            out.push('\n');
            k = k + 1;
        }
        proof {
            if s@[i as int] == '\r' && i + 1 < s@.len() && s@[i + 1] == '\n' {
                assert(out@ =~= seq!['\r', '\n']);
            } else if s@[i as int] == '\r' {
                assert(out@ =~= seq!['\r']);
            } else {
                assert(out@ =~= seq!['\n']);
            }
        }
        (Token::NewLine(string_from_chars(out)), k)
    }

    /// A run of spaces and tabs.
    pub fn use_whitespace(s: &Vec<char>, i: usize) -> (r: (Token, usize))
        requires
            i < s@.len(),
            is_blank(s@[i as int]),
        ensures
            token_at(s@, i as int) == Ok::<(SpecToken, int), TokenError>(
                (token_view(r.0), r.1 as int),
            ),
            i < r.1 <= s@.len(),
    {
        let mut k = i;
        while k < s.len() && (s[k] == ' ' || s[k] == '\t')
            invariant
                i <= k <= s@.len(),
                run_end(s@, k as int, |x: char| is_blank(x)) == run_end(
                    s@,
                    i as int,
                    |x: char| is_blank(x),
                ),
            decreases s@.len() - k,
        {
            k = k + 1;
        }
        (Token::Whitespace(string_from_chars(copy_chars(s, i, k))), k)
    }

    /// A bare word of letters, digits, `_` and `-`.
    pub fn use_string(s: &Vec<char>, i: usize) -> (r: (Token, usize))
        requires
            i < s@.len(),
            is_word_char(s@[i as int]),
            !is_blank(s@[i as int]),
        ensures
            token_at(s@, i as int) == Ok::<(SpecToken, int), TokenError>(
                (token_view(r.0), r.1 as int),
            ),
            i < r.1 <= s@.len(),
    {
        let mut k = i;
        while k < s.len() && word_char(s[k])
            invariant
                i <= k <= s@.len(),
                run_end(s@, k as int, |x: char| is_word_char(x)) == run_end(
                    s@,
                    i as int,
                    |x: char| is_word_char(x),
                ),
            decreases s@.len() - k,
        {
            k = k + 1;
        }
        (Token::String(string_from_chars(copy_chars(s, i, k))), k)
    }

    /// A comment: a `/` and the rest of the line.
    pub fn use_comment(s: &Vec<char>, i: usize) -> (r: (Token, usize))
        requires
            i < s@.len(),
            s@[i as int] == '/',
        ensures
            token_at(s@, i as int) == Ok::<(SpecToken, int), TokenError>(
                (token_view(r.0), r.1 as int),
            ),
            i < r.1 <= s@.len(),
    {
        let mut k = i;
        while k < s.len() && s[k] != '\n'
            invariant
                i <= k <= s@.len(),
                find_char(s@, k as int, '\n') == find_char(s@, i as int, '\n'),
            decreases s@.len() - k,
        {
            k = k + 1;
        }
        let end = if k < s.len() && k > i && s[k - 1] == '\r' {
            k - 1
        } else {
            k
        };
        (Token::Comment(string_from_chars(copy_chars(s, i, end))), k)
    }

    /// A quoted string with its escapes decoded.
    pub fn use_quoted_string(s: &Vec<char>, i: usize) -> (r: Result<(Token, usize), TokenError>)
        requires
            i < s@.len(),
            s@[i as int] == '"',
        ensures
            match r {
                Ok((t, n)) => token_at(s@, i as int) == Ok::<(SpecToken, int), TokenError>(
                    (token_view(t), n as int),
                ),
                Err(e) => token_at(s@, i as int) == Err::<(SpecToken, int), TokenError>(e),
            },
            r matches Ok((_, n)) ==> i < n <= s@.len(),
    {
        let len = s.len();
        let mut out: Vec<char> = Vec::new();
        let mut k = i + 1;
        loop
            invariant
                i < k <= s@.len(),
                s@[i as int] == '"',
                match quoted_body(s@, k as int) {
                    Ok((t, n)) => quoted_body(s@, i + 1) == Ok::<(Seq<char>, int), TokenError>(
                        (out@ + t, n),
                    ),
                    Err(e) => quoted_body(s@, i + 1) == Err::<(Seq<char>, int), TokenError>(e),
                },
            decreases s@.len() - k,
        {
            if k >= s.len() {
                return Err(TokenError::UnclosedQuote);
            }
            let c = s[k];
            if c == '"' {
                proof {
                    assert(out@ + Seq::<char>::empty() =~= out@);
                }
                return Ok((Token::QuotedString(string_from_chars(out)), k + 1));
            } else if c == '\\' {
                if k + 1 >= s.len() {
                    return Err(TokenError::UnclosedQuote);
                }
                let e = s[k + 1];
                let d = if e == 'n' {
                    '\n'
                } else if e == 't' {
                    '\t'
                } else if e == '\\' || e == '"' {
                    e
                } else {
                    return Err(TokenError::BadEscape(e));
                };
                proof {
                    if let Ok((t, n)) = quoted_body(s@, k + 2) {
                        assert(out@ + (seq![d] + t) =~= out@.push(d) + t);
                    }
                }
                out.push(d);
                k = k + 2;
            } else {
                proof {
                    if let Ok((t, n)) = quoted_body(s@, k + 1) {
                        assert(out@ + (seq![c] + t) =~= out@.push(c) + t);
                    }
                }
                out.push(c);
                k = k + 1;
            }
        }
    }

    /// A bracketed condition.
    pub fn use_condition(s: &Vec<char>, i: usize) -> (r: Result<(Token, usize), TokenError>)
        requires
            i < s@.len(),
            s@[i as int] == '[',
        ensures
            match r {
                Ok((t, n)) => token_at(s@, i as int) == Ok::<(SpecToken, int), TokenError>(
                    (token_view(t), n as int),
                ),
                Err(e) => token_at(s@, i as int) == Err::<(SpecToken, int), TokenError>(e),
            },
            r matches Ok((_, n)) ==> i < n <= s@.len(),
    {
        let len = s.len();
        let mut k = i + 1;
        while k < s.len() && s[k] != ']'
            invariant
                i < k <= s@.len(),
                find_char(s@, k as int, ']') == find_char(s@, i + 1, ']'),
            decreases s@.len() - k,
        {
            k = k + 1;
        }
        if k < s.len() {
            Ok((Token::Condition(string_from_chars(copy_chars(s, i + 1, k))), k + 1))
        } else {
            Err(TokenError::UnclosedCondition)
        }
    }

    /// Splits a text into tokens.
    pub fn parse(input: &str) -> (r: Result<Tokens, TokenError>)
        ensures
            match tokenize(input@) {
                Ok(ts) => r matches Ok(t) && tokens_view(t.tokens@) == ts,
                Err(e) => r == Err::<Tokens, TokenError>(e),
            },
    {
        let s = chars_of(input);
        let mut tokens: Vec<Token> = Vec::new();
        let mut i: usize = 0;
        while i < s.len()
            invariant
                i <= s@.len(),
                s@ == input@,
                match tokenize_from(s@, i as int) {
                    Ok(rest) => tokenize(s@) == Ok::<Seq<SpecToken>, TokenError>(
                        tokens_view(tokens@) + rest,
                    ),
                    Err(e) => tokenize(s@) == Err::<Seq<SpecToken>, TokenError>(e),
                },
            decreases s@.len() - i,
        {
            let c = s[i];
            let step: Result<(Token, usize), TokenError> = if c == '{' {
                Ok((Token::GroupStart, i + 1))
            } else if c == '}' {
                Ok((Token::GroupEnd, i + 1))
            } else if c == '\r' || c == '\n' {
                Ok(Self::use_new_line(&s, i))
            } else if c == '\t' || c == ' ' {
                Ok(Self::use_whitespace(&s, i))
            } else if word_char(c) {
                Ok(Self::use_string(&s, i))
            } else if c == '"' {
                Self::use_quoted_string(&s, i)
            } else if c == '[' {
                Self::use_condition(&s, i)
            } else if c == '/' {
                Ok(Self::use_comment(&s, i))
            } else {
                Err(TokenError::Syntax(c))
            };
            match step {
                Ok((t, n)) => {
                    proof {
                        assert(i < n);
                        if let Ok(rest) = tokenize_from(s@, n as int) {
                            assert(tokens_view(tokens@.push(t)) =~= tokens_view(tokens@).push(
                                token_view(t),
                            ));
                            assert(tokens_view(tokens@) + (seq![token_view(t)] + rest)
                                =~= tokens_view(tokens@.push(t)) + rest);
                        }
                    }
                    tokens.push(t);
                    i = n;
                },
                Err(e) => {
                    return Err(e);
                },
            }
        }
        proof {
            assert(tokens_view(tokens@) + Seq::<SpecToken>::empty() =~= tokens_view(tokens@));
        }
        Ok(Tokens { tokens })
    }
}

} // verus!
