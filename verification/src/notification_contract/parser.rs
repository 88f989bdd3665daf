//! Hand-rolled parser for the predicate language.
//!
//! Grammar:
//!     expr       := or_expr
//!     or_expr    := and_expr ('or' and_expr)*
//!     and_expr   := primary ('and' primary)*
//!     primary    := '(' expr ')' | comparison
//!     comparison := IDENT (('==' | '!=') literal | ('in' | 'not' 'in') list)
//!     literal    := STRING | INT
//!     list       := '[' ']' | '[' literal (',' literal)* ']'

use vstd::prelude::*;
use vstd::string::*;
use vstd::arithmetic::div_mod::lemma_fundamental_div_mod_converse;
use crate::notification_contract::predicates::{
    literals_view, Literal, Predicate, SpecLiteral, SpecPredicate,
};
use crate::text::{
    chars_of, char_debug_text, debug_char, debug_str, decimal_text, i64_to_text, is_ascii_alnum,
    is_ascii_alpha, is_ascii_digit, push_char, str_debug_text, u64_to_text,
};

verus! {

/// Why a predicate could not be parsed.
#[derive(Debug)]
pub enum ParseError {
    Msg(String),
}

impl ParseError {
    /// What the error displays as.
    pub open spec fn spec_message(&self) -> Seq<char> {
        match self {
            ParseError::Msg(m) => "predicate parse error: "@ + m@,
        }
    }

    /// The error's display text.
    pub fn to_message(&self) -> (r: String)
        ensures
            r@ == self.spec_message(),
    {
        let mut r = "predicate parse error: ".to_owned();
        match self {
            ParseError::Msg(m) => r.append(m.as_str()),
        }
        r
    }
}

#[derive(Debug, PartialEq)]
enum Token {
    Ident(String),
    Str(String),
    Int(i64),
    EqEq,
    NotEq,
    KwAnd,
    KwOr,
    KwIn,
    KwNot,
    LParen,
    RParen,
    LBracket,
    RBracket,
    Comma,
}

/// A token as a mathematical value.
pub enum SpecToken {
    Ident(Seq<char>),
    Str(Seq<char>),
    Int(i64),
    EqEq,
    NotEq,
    KwAnd,
    KwOr,
    KwIn,
    KwNot,
    LParen,
    RParen,
    LBracket,
    RBracket,
    Comma,
}

spec fn token_view(t: Token) -> SpecToken {
    match t {
        Token::Ident(s) => SpecToken::Ident(s@),
        Token::Str(s) => SpecToken::Str(s@),
        Token::Int(i) => SpecToken::Int(i),
        Token::EqEq => SpecToken::EqEq,
        Token::NotEq => SpecToken::NotEq,
        Token::KwAnd => SpecToken::KwAnd,
        Token::KwOr => SpecToken::KwOr,
        Token::KwIn => SpecToken::KwIn,
        Token::KwNot => SpecToken::KwNot,
        Token::LParen => SpecToken::LParen,
        Token::RParen => SpecToken::RParen,
        Token::LBracket => SpecToken::LBracket,
        Token::RBracket => SpecToken::RBracket,
        Token::Comma => SpecToken::Comma,
    }
}

spec fn tokens_view(ts: Seq<Token>) -> Seq<SpecToken> {
    ts.map_values(|t: Token| token_view(t))
}

// ---------------------------------------------------------------------------
// Tokens
// ---------------------------------------------------------------------------

/// Characters that may continue an identifier.
pub open spec fn is_ident_char(c: char) -> bool {
    is_ascii_alnum(c) || c == '_'
}

/// The end of the run of digits (or of identifier characters) that starts at `i`.
pub open spec fn run_end(cs: Seq<char>, i: int, ident: bool) -> int
    decreases cs.len() - i,
{
    if 0 <= i < cs.len() && (if ident {
        is_ident_char(cs[i])
    } else {
        is_ascii_digit(cs[i])
    }) {
        run_end(cs, i + 1, ident)
    } else {
        i
    }
}

/// The index of the first `"` at or after `i`, or the length when there is none.
pub open spec fn quote_end(cs: Seq<char>, i: int) -> int
    decreases cs.len() - i,
{
    if i < 0 || i >= cs.len() {
        cs.len() as int
    } else if cs[i] == '"' {
        i
    } else {
        quote_end(cs, i + 1)
    }
}

/// The value of a run of decimal digits.
pub open spec fn decimal_value(s: Seq<char>) -> int
    decreases s.len(),
{
    if s.len() == 0 {
        0
    } else {
        decimal_value(s.drop_last()) * 10 + (s.last() as int - 48)
    }
}

/// The token a word is: a keyword or an identifier.
pub open spec fn word_token(w: Seq<char>) -> SpecToken {
    if w == seq!['a', 'n', 'd'] {
        SpecToken::KwAnd
    } else if w == seq!['o', 'r'] {
        SpecToken::KwOr
    } else if w == seq!['i', 'n'] {
        SpecToken::KwIn
    } else if w == seq!['n', 'o', 't'] {
        SpecToken::KwNot
    } else {
        SpecToken::Ident(w)
    }
}

/// A token put in front of the tokens of the rest of the text.
pub open spec fn prepend(t: SpecToken, rest: Result<Seq<SpecToken>, Seq<char>>) -> Result<
    Seq<SpecToken>,
    Seq<char>,
> {
    match rest {
        Ok(ts) => Ok(seq![t] + ts),
        Err(e) => Err(e),
    }
}

/// Tokens put in front of the tokens of the rest of the text.
pub open spec fn with_prefix(p: Seq<SpecToken>, rest: Result<Seq<SpecToken>, Seq<char>>) -> Result<
    Seq<SpecToken>,
    Seq<char>,
> {
    match rest {
        Ok(ts) => Ok(p + ts),
        Err(e) => Err(e),
    }
}

pub proof fn lemma_run_end(cs: Seq<char>, i: int, ident: bool)
    requires
        0 <= i <= cs.len(),
    ensures
        i <= run_end(cs, i, ident) <= cs.len(),
    decreases cs.len() - i,
{
    if i < cs.len() && (if ident {
        is_ident_char(cs[i])
    } else {
        is_ascii_digit(cs[i])
    }) {
        lemma_run_end(cs, i + 1, ident);
    }
}

pub proof fn lemma_quote_end(cs: Seq<char>, i: int)
    requires
        0 <= i <= cs.len(),
    ensures
        i <= quote_end(cs, i) <= cs.len(),
    decreases cs.len() - i,
{
    if i < cs.len() && cs[i] != '"' {
        lemma_quote_end(cs, i + 1);
    }
}

/// The tokens of the text from position `i` on, or the message of the first
/// error.
pub open spec fn tokenize_from(cs: Seq<char>, i: int) -> Result<Seq<SpecToken>, Seq<char>>
    decreases cs.len() - i,
{
    if i < 0 || i >= cs.len() {
        Ok(seq![])
    } else {
        let c = cs[i];
        if c == ' ' || c == '\t' || c == '\n' {
            tokenize_from(cs, i + 1)
        } else if c == '(' {
            prepend(SpecToken::LParen, tokenize_from(cs, i + 1))
        } else if c == ')' {
            prepend(SpecToken::RParen, tokenize_from(cs, i + 1))
        } else if c == '[' {
            prepend(SpecToken::LBracket, tokenize_from(cs, i + 1))
        } else if c == ']' {
            prepend(SpecToken::RBracket, tokenize_from(cs, i + 1))
        } else if c == ',' {
            prepend(SpecToken::Comma, tokenize_from(cs, i + 1))
        } else if c == '=' {
            if i + 1 < cs.len() && cs[i + 1] == '=' {
                prepend(SpecToken::EqEq, tokenize_from(cs, i + 2))
            } else {
                Err("expected '=='"@)
            }
        } else if c == '!' {
            if i + 1 < cs.len() && cs[i + 1] == '=' {
                prepend(SpecToken::NotEq, tokenize_from(cs, i + 2))
            } else {
                Err("expected '!='"@)
            }
        } else if c == '"' {
            let j = quote_end(cs, i + 1);
            if j >= cs.len() {
                Err("unterminated string literal"@)
            } else {
                proof {
                    lemma_quote_end(cs, i + 1);
                }
                prepend(SpecToken::Str(cs.subrange(i + 1, j)), tokenize_from(cs, j + 1))
            }
        } else if is_ascii_digit(c) {
            let j = run_end(cs, i, false);
            proof {
                lemma_run_end(cs, i + 1, false);
            }
            let v = decimal_value(cs.subrange(i, j));
            if v > i64::MAX {
                Err("bad int: number too large to fit in target type"@)
            } else {
                prepend(SpecToken::Int(v as i64), tokenize_from(cs, j))
            }
        } else if is_ascii_alpha(c) || c == '_' {
            let j = run_end(cs, i, true);
            proof {
                lemma_run_end(cs, i + 1, true);
            }
            prepend(word_token(cs.subrange(i, j)), tokenize_from(cs, j))
        } else {
            Err("unexpected character: "@ + char_debug_text(c))
        }
    }
}

/// The tokens of a text, or the message of the first error.
pub open spec fn tokenize_spec(cs: Seq<char>) -> Result<Seq<SpecToken>, Seq<char>> {
    tokenize_from(cs, 0)
}

proof fn lemma_with_prefix_push(p: Seq<SpecToken>, t: SpecToken, rest: Result<Seq<SpecToken>, Seq<char>>)
    ensures
        with_prefix(p, prepend(t, rest)) == with_prefix(p.push(t), rest),
{
    match rest {
        Ok(ts) => {
            assert(p + (seq![t] + ts) =~= p.push(t) + ts);
        },
        Err(_) => {},
    }
}

proof fn lemma_decimal_value_step(s: Seq<char>, k: int)
    requires
        0 <= k < s.len(),
    ensures
        decimal_value(s.take(k + 1)) == decimal_value(s.take(k)) * 10 + (s[k] as int - 48),
{
    assert(s.take(k + 1).drop_last() =~= s.take(k));
}

proof fn lemma_decimal_value_grows(s: Seq<char>, k: int)
    requires
        0 <= k <= s.len(),
        forall|i: int| 0 <= i < s.len() ==> is_ascii_digit(#[trigger] s[i]),
    ensures
        decimal_value(s.take(k)) <= decimal_value(s),
        0 <= decimal_value(s.take(k)),
    decreases s.len() - k,
{
    lemma_decimal_value_nonneg(s.take(k));
    if k < s.len() {
        lemma_decimal_value_step(s, k);
        lemma_decimal_value_grows(s, k + 1);
    } else {
        assert(s.take(k) =~= s);
    }
}

proof fn lemma_decimal_value_nonneg(s: Seq<char>)
    requires
        forall|i: int| 0 <= i < s.len() ==> is_ascii_digit(#[trigger] s[i]),
    ensures
        0 <= decimal_value(s),
    decreases s.len(),
{
    if s.len() > 0 {
        lemma_decimal_value_nonneg(s.drop_last());
    }
}

/// The word made of `cs[i..j]`.
fn string_of_range(cs: &Vec<char>, i: usize, j: usize) -> (s: String)
    requires
        i <= j <= cs@.len(),
    ensures
        s@ == cs@.subrange(i as int, j as int),
{
    let mut s = String::new();
    let mut k: usize = i;
    while k < j
        invariant
            i <= k <= j <= cs@.len(),
            s@ == cs@.subrange(i as int, k as int),
        decreases j - k,
    {
        push_char(&mut s, cs[k]);
        k = k + 1;
        assert(cs@.subrange(i as int, k as int) =~= cs@.subrange(i as int, k - 1).push(cs@[k - 1]));
    }
    s
}

/// The token a word is: a keyword or an identifier.
fn word_to_token(cs: &Vec<char>, i: usize, j: usize) -> (t: Token)
    requires
        i <= j <= cs@.len(),
    ensures
        token_view(t) == word_token(cs@.subrange(i as int, j as int)),
{
    let ghost w = cs@.subrange(i as int, j as int);
    let n = j - i;
    let ghost kw_and = seq!['a', 'n', 'd'];
    let ghost kw_or = seq!['o', 'r'];
    let ghost kw_in = seq!['i', 'n'];
    let ghost kw_not = seq!['n', 'o', 't'];
    assert(kw_and.len() == 3 && kw_and[0] == 'a' && kw_and[1] == 'n' && kw_and[2] == 'd');
    assert(kw_or.len() == 2 && kw_or[0] == 'o' && kw_or[1] == 'r');
    assert(kw_in.len() == 2 && kw_in[0] == 'i' && kw_in[1] == 'n');
    assert(kw_not.len() == 3 && kw_not[0] == 'n' && kw_not[1] == 'o' && kw_not[2] == 't');
    assert(w.len() == n);
    if n == 3 && cs[i] == 'a' && cs[i + 1] == 'n' && cs[i + 2] == 'd' {
        assert(w =~= seq!['a', 'n', 'd']);
        Token::KwAnd
    } else if n == 2 && cs[i] == 'o' && cs[i + 1] == 'r' {
        assert(w =~= seq!['o', 'r']);
        Token::KwOr
    } else if n == 2 && cs[i] == 'i' && cs[i + 1] == 'n' {
        assert(w =~= seq!['i', 'n']);
        Token::KwIn
    } else if n == 3 && cs[i] == 'n' && cs[i + 1] == 'o' && cs[i + 2] == 't' {
        assert(w =~= seq!['n', 'o', 't']);
        Token::KwNot
    } else {
        proof {
            if w == kw_and {
                assert(w[0] == cs@[i as int] && w[1] == cs@[i + 1] && w[2] == cs@[i + 2]);
            }
            if w == kw_or {
                assert(w[0] == cs@[i as int] && w[1] == cs@[i + 1]);
            }
            if w == kw_in {
                assert(w[0] == cs@[i as int] && w[1] == cs@[i + 1]);
            }
            if w == kw_not {
                assert(w[0] == cs@[i as int] && w[1] == cs@[i + 1] && w[2] == cs@[i + 2]);
            }
        }
        Token::Ident(string_of_range(cs, i, j))
    }
}

/// The value of the digits `cs[i..j]`, or nothing when it does not fit an `i64`.
fn digits_value(cs: &Vec<char>, i: usize, j: usize) -> (r: Option<i64>)
    requires
        i <= j <= cs@.len(),
        forall|k: int| i <= k < j ==> is_ascii_digit(#[trigger] cs@[k]),
    ensures
        match r {
            Some(v) => v as int == decimal_value(cs@.subrange(i as int, j as int)),
            None => decimal_value(cs@.subrange(i as int, j as int)) > i64::MAX,
        },
{
    let ghost s = cs@.subrange(i as int, j as int);
    let mut v: i64 = 0;
    let mut k: usize = i;
    assert(s.take(0) =~= Seq::<char>::empty());
    while k < j
        invariant
            i <= k <= j <= cs@.len(),
            s == cs@.subrange(i as int, j as int),
            forall|m: int| i <= m < j ==> is_ascii_digit(#[trigger] cs@[m]),
            v as int == decimal_value(s.take(k - i)),
            0 <= v,
        decreases j - k,
    {
        let d: i64 = ((cs[k] as u32) - 48) as i64;
        proof {
            lemma_decimal_value_step(s, (k - i) as int);
        }
        if v > (i64::MAX - d) / 10 {
            proof {
                assert(decimal_value(s.take(k - i + 1)) > i64::MAX) by (nonlinear_arith)
                    requires
                        decimal_value(s.take(k - i + 1)) == v * 10 + d,
                        v > (i64::MAX - d) / 10,
                        0 <= d <= 9,
                ;
                lemma_decimal_value_grows(s, k - i + 1);
            }
            return None;
        }
        assert(v * 10 + d <= i64::MAX) by (nonlinear_arith)
            requires
                v <= (i64::MAX - d) / 10,
                0 <= d <= 9,
                0 <= v,
        ;
        v = v * 10 + d;
        k = k + 1;
    }
    assert(s.take(j - i) =~= s);
    Some(v)
}

/// Splits a predicate text into tokens.
fn tokenize(source: &str) -> (r: Result<Vec<Token>, ParseError>)
    ensures
        match tokenize_spec(source@) {
            Ok(ts) => r matches Ok(v) && tokens_view(v@) == ts && v@.len() <= source@.len(),
            Err(e) => r matches Err(ParseError::Msg(m)) && m@ == e,
        },
{
    let cs = chars_of(source);
    let n = cs.len();
    let mut out: Vec<Token> = Vec::new();
    let mut i: usize = 0;
    assert(tokens_view(out@) =~= Seq::<SpecToken>::empty());
    assert(with_prefix(seq![], tokenize_from(cs@, 0)) == tokenize_from(cs@, 0)) by {
        match tokenize_from(cs@, 0) {
            Ok(ts) => assert(Seq::<SpecToken>::empty() + ts =~= ts),
            Err(_) => {},
        }
    }
    while i < n
        invariant
            i <= n,
            n == cs@.len(),
            cs@ == source@,
            out@.len() <= i,
            tokenize_spec(cs@) == with_prefix(tokens_view(out@), tokenize_from(cs@, i as int)),
        decreases n - i,
    {
        let c = cs[i];
        let ghost before = tokens_view(out@);
        if c == ' ' || c == '\t' || c == '\n' {
            i = i + 1;
        } else if c == '(' || c == ')' || c == '[' || c == ']' || c == ',' {
            let t = if c == '(' {
                Token::LParen
            } else if c == ')' {
                Token::RParen
            } else if c == '[' {
                Token::LBracket
            } else if c == ']' {
                Token::RBracket
            } else {
                Token::Comma
            };
            proof {
                lemma_with_prefix_push(before, token_view(t), tokenize_from(cs@, i + 1));
            }
            out.push(t);
            assert(tokens_view(out@) =~= before.push(token_view(t)));
            i = i + 1;
        } else if c == '=' || c == '!' {
            if i + 1 < n && cs[i + 1] == '=' {
                let t = if c == '=' {
                    Token::EqEq
                } else {
                    Token::NotEq
                };
                proof {
                    lemma_with_prefix_push(before, token_view(t), tokenize_from(cs@, i + 2));
                }
                out.push(t);
                assert(tokens_view(out@) =~= before.push(token_view(t)));
                i = i + 2;
            } else {
                let m = if c == '=' {
                    "expected '=='"
                } else {
                    "expected '!='"
                };
                return Err(ParseError::Msg(m.to_owned()));
            }
        } else if c == '"' {
            let mut j: usize = i + 1;
            while j < n && cs[j] != '"'
                invariant
                    i + 1 <= j <= n,
                    n == cs@.len(),
                    quote_end(cs@, i + 1) == quote_end(cs@, j as int),
                decreases n - j,
            {
                j = j + 1;
            }
            if j >= n {
                return Err(ParseError::Msg("unterminated string literal".to_owned()));
            }
            let t = Token::Str(string_of_range(&cs, i + 1, j));
            proof {
                lemma_with_prefix_push(before, token_view(t), tokenize_from(cs@, j + 1));
            }
            out.push(t);
            assert(tokens_view(out@) =~= before.push(token_view(t)));
            i = j + 1;
        } else if '0' <= c && c <= '9' {
            let mut j: usize = i;
            while j < n && '0' <= cs[j] && cs[j] <= '9'
                invariant
                    i <= j <= n,
                    n == cs@.len(),
                    run_end(cs@, i as int, false) == run_end(cs@, j as int, false),
                    forall|k: int| i <= k < j ==> is_ascii_digit(#[trigger] cs@[k]),
                decreases n - j,
            {
                j = j + 1;
            }
            match digits_value(&cs, i, j) {
                Some(v) => {
                    let t = Token::Int(v);
                    proof {
                        lemma_with_prefix_push(before, token_view(t), tokenize_from(cs@, j as int));
                    }
                    out.push(t);
                    assert(tokens_view(out@) =~= before.push(token_view(t)));
                    i = j;
                },
                None => {
                    return Err(
                        ParseError::Msg("bad int: number too large to fit in target type".to_owned()),
                    );
                },
            }
        } else if ('a' <= c && c <= 'z') || ('A' <= c && c <= 'Z') || c == '_' {
            let mut j: usize = i;
            while j < n && (('a' <= cs[j] && cs[j] <= 'z') || ('A' <= cs[j] && cs[j] <= 'Z') || ('0'
                <= cs[j] && cs[j] <= '9') || cs[j] == '_')
                invariant
                    i <= j <= n,
                    n == cs@.len(),
                    run_end(cs@, i as int, true) == run_end(cs@, j as int, true),
                decreases n - j,
            {
                j = j + 1;
            }
            let t = word_to_token(&cs, i, j);
            proof {
                lemma_with_prefix_push(before, token_view(t), tokenize_from(cs@, j as int));
            }
            out.push(t);
            assert(tokens_view(out@) =~= before.push(token_view(t)));
            i = j;
        } else {
            let mut m = String::new();
            m.append("unexpected character: ");
            let d = debug_char(c);
            m.append(d.as_str());
            return Err(ParseError::Msg(m));
        }
    }
    proof {
        match tokenize_from(cs@, i as int) {
            Ok(ts) => assert(tokens_view(out@) + ts =~= tokens_view(out@)),
            Err(_) => {},
        }
    }
    Ok(out)
}

// ---------------------------------------------------------------------------
// Parsing
// ---------------------------------------------------------------------------

/// The token at a position, if the position holds one.
pub open spec fn tok_at(ts: Seq<SpecToken>, pos: int) -> Option<SpecToken> {
    if 0 <= pos < ts.len() {
        Some(ts[pos])
    } else {
        None
    }
}

/// What `Debug` prints for a token.
pub open spec fn token_debug(t: SpecToken) -> Seq<char> {
    match t {
        SpecToken::Ident(s) => "Ident("@ + str_debug_text(s) + ")"@,
        SpecToken::Str(s) => "Str("@ + str_debug_text(s) + ")"@,
        SpecToken::Int(i) => "Int("@ + decimal_text(i as int) + ")"@,
        SpecToken::EqEq => "EqEq"@,
        SpecToken::NotEq => "NotEq"@,
        SpecToken::KwAnd => "KwAnd"@,
        SpecToken::KwOr => "KwOr"@,
        SpecToken::KwIn => "KwIn"@,
        SpecToken::KwNot => "KwNot"@,
        SpecToken::LParen => "LParen"@,
        SpecToken::RParen => "RParen"@,
        SpecToken::LBracket => "LBracket"@,
        SpecToken::RBracket => "RBracket"@,
        SpecToken::Comma => "Comma"@,
    }
}

/// What `Debug` prints for an optional token.
pub open spec fn opt_token_debug(t: Option<SpecToken>) -> Seq<char> {
    match t {
        None => "None"@,
        Some(t) => "Some("@ + token_debug(t) + ")"@,
    }
}

/// One literal at `pos`: the literal and the position after it.
pub open spec fn parse_literal_spec(ts: Seq<SpecToken>, pos: int) -> Result<(SpecLiteral, int), Seq<char>> {
    match tok_at(ts, pos) {
        Some(SpecToken::Str(s)) => Ok((SpecLiteral::Str(s), pos + 1)),
        Some(SpecToken::Int(i)) => Ok((SpecLiteral::Int(i), pos + 1)),
        other => Err("expected literal, got "@ + opt_token_debug(other)),
    }
}

/// The items of a non-empty literal list from `pos` on, after the items in `acc`.
pub open spec fn parse_items_spec(ts: Seq<SpecToken>, pos: int, acc: Seq<SpecLiteral>) -> Result<
    (Seq<SpecLiteral>, int),
    Seq<char>,
>
    decreases ts.len() - pos,
{
    match parse_literal_spec(ts, pos) {
        Err(e) => Err(e),
        Ok((l, p)) => match tok_at(ts, p) {
            Some(SpecToken::Comma) => if p == pos + 1 {
                parse_items_spec(ts, p + 1, acc.push(l))
            } else {
                Err(seq![])
            },
            Some(SpecToken::RBracket) => Ok((acc.push(l), p + 1)),
            other => Err("expected ',' or ']', got "@ + opt_token_debug(other)),
        },
    }
}

/// A bracketed literal list at `pos`.
pub open spec fn parse_list_spec(ts: Seq<SpecToken>, pos: int) -> Result<(Seq<SpecLiteral>, int), Seq<char>> {
    if tok_at(ts, pos) != Some(SpecToken::LBracket) {
        Err("expected '['"@)
    } else if tok_at(ts, pos + 1) == Some(SpecToken::RBracket) {
        Ok((seq![], pos + 2))
    } else {
        parse_items_spec(ts, pos + 1, seq![])
    }
}

/// Outcome of parsing a predicate from a position: the predicate and the
/// position after it, or an error message.
pub type PResult = Result<(SpecPredicate, int), Seq<char>>;

/// `or_expr` at `pos`.
pub open spec fn parse_or_spec(ts: Seq<SpecToken>, pos: int) -> PResult
    decreases ts.len() - pos, 4int,
{
    match parse_and_spec(ts, pos) {
        Err(e) => Err(e),
        Ok((left, p)) => if pos < p <= ts.len() {
            parse_or_tail_spec(ts, p, left)
        } else {
            Err(seq![])
        },
    }
}

/// The rest of an `or_expr` after its first operands, which combine to `left`.
pub open spec fn parse_or_tail_spec(ts: Seq<SpecToken>, pos: int, left: SpecPredicate) -> PResult
    decreases ts.len() - pos, 3int,
{
    if tok_at(ts, pos) == Some(SpecToken::KwOr) {
        match parse_and_spec(ts, pos + 1) {
            Err(e) => Err(e),
            Ok((right, p)) => if pos + 1 < p <= ts.len() {
                parse_or_tail_spec(ts, p, SpecPredicate::Or(Box::new(left), Box::new(right)))
            } else {
                Err(seq![])
            },
        }
    } else {
        Ok((left, pos))
    }
}

/// `and_expr` at `pos`.
pub open spec fn parse_and_spec(ts: Seq<SpecToken>, pos: int) -> PResult
    decreases ts.len() - pos, 2int,
{
    match parse_primary_spec(ts, pos) {
        Err(e) => Err(e),
        Ok((left, p)) => if pos < p <= ts.len() {
            parse_and_tail_spec(ts, p, left)
        } else {
            Err(seq![])
        },
    }
}

/// The rest of an `and_expr` after its first operands, which combine to `left`.
pub open spec fn parse_and_tail_spec(ts: Seq<SpecToken>, pos: int, left: SpecPredicate) -> PResult
    decreases ts.len() - pos, 1int,
{
    if tok_at(ts, pos) == Some(SpecToken::KwAnd) {
        match parse_primary_spec(ts, pos + 1) {
            Err(e) => Err(e),
            Ok((right, p)) => if pos + 1 < p <= ts.len() {
                parse_and_tail_spec(ts, p, SpecPredicate::And(Box::new(left), Box::new(right)))
            } else {
                Err(seq![])
            },
        }
    } else {
        Ok((left, pos))
    }
}

/// `primary` at `pos`.
pub open spec fn parse_primary_spec(ts: Seq<SpecToken>, pos: int) -> PResult
    decreases ts.len() - pos, 0int,
{
    match tok_at(ts, pos) {
        Some(SpecToken::LParen) => match parse_or_spec(ts, pos + 1) {
            Err(e) => Err(e),
            Ok((inner, p)) => if tok_at(ts, p) == Some(SpecToken::RParen) {
                Ok((inner, p + 1))
            } else {
                Err("expected ')'"@)
            },
        },
        Some(SpecToken::Ident(field)) => match tok_at(ts, pos + 1) {
            Some(SpecToken::EqEq) => match parse_literal_spec(ts, pos + 2) {
                Err(e) => Err(e),
                Ok((l, p)) => Ok((SpecPredicate::Equals { field, value: l }, p)),
            },
            Some(SpecToken::NotEq) => match parse_literal_spec(ts, pos + 2) {
                Err(e) => Err(e),
                Ok((l, p)) => Ok((SpecPredicate::NotEquals { field, value: l }, p)),
            },
            Some(SpecToken::KwIn) => match parse_list_spec(ts, pos + 2) {
                Err(e) => Err(e),
                Ok((ls, p)) => Ok((SpecPredicate::In { field, values: ls }, p)),
            },
            Some(SpecToken::KwNot) => if tok_at(ts, pos + 2) == Some(SpecToken::KwIn) {
                match parse_list_spec(ts, pos + 3) {
                    Err(e) => Err(e),
                    Ok((ls, p)) => Ok((SpecPredicate::NotIn { field, values: ls }, p)),
                }
            } else {
                Err("expected 'not in'"@)
            },
            other => Err("expected comparator, got "@ + opt_token_debug(other)),
        },
        other => Err("expected identifier, got "@ + opt_token_debug(other)),
    }
}

/// What parsing a predicate text gives: the predicate, or the message of
/// the first error.
pub open spec fn parse_predicate_spec(source: Seq<char>) -> Result<SpecPredicate, Seq<char>> {
    match tokenize_spec(source) {
        Err(e) => Err(e),
        Ok(ts) => match parse_or_spec(ts, 0) {
            Err(e) => Err(e),
            Ok((p, pos)) => if pos != ts.len() {
                Err("trailing tokens at position "@ + decimal_text(pos))
            } else {
                Ok(p)
            },
        },
    }
}

/// A parse outcome agrees with its mathematical value.
pub open spec fn parsed_as<T: View>(r: Result<T, ParseError>, pos: int, s: Result<(T::V, int), Seq<char>>) -> bool {
    match s {
        Ok((v, q)) => r matches Ok(x) && x@ == v && pos == q,
        Err(m) => r matches Err(ParseError::Msg(y)) && y@ == m,
    }
}

/// Debug text of a token.
fn debug_token(t: &Token) -> (r: String)
    ensures
        r@ == token_debug(token_view(*t)),
{
    let mut r = String::new();
    match t {
        Token::Ident(s) => {
            r.append("Ident(");
            let d = debug_str(s.as_str());
            r.append(d.as_str());
            r.append(")");
        },
        Token::Str(s) => {
            r.append("Str(");
            let d = debug_str(s.as_str());
            r.append(d.as_str());
            r.append(")");
        },
        Token::Int(i) => {
            r.append("Int(");
            let d = i64_to_text(*i);
            r.append(d.as_str());
            r.append(")");
        },
        Token::EqEq => r.append("EqEq"),
        Token::NotEq => r.append("NotEq"),
        Token::KwAnd => r.append("KwAnd"),
        Token::KwOr => r.append("KwOr"),
        Token::KwIn => r.append("KwIn"),
        Token::KwNot => r.append("KwNot"),
        Token::LParen => r.append("LParen"),
        Token::RParen => r.append("RParen"),
        Token::LBracket => r.append("LBracket"),
        Token::RBracket => r.append("RBracket"),
        Token::Comma => r.append("Comma"),
    }
    r
}

/// The error `{prefix}{other:?}` for an unexpected token.
fn unexpected(prefix: &str, t: Option<&Token>) -> (e: ParseError)
    ensures
        e matches ParseError::Msg(m) && m@ == prefix@ + opt_token_debug(
            match t {
                Some(t) => Some(token_view(*t)),
                None => None,
            },
        ),
{
    let mut m = prefix.to_owned();
    match t {
        Some(t) => {
            m.append("Some(");
            let d = debug_token(t);
            m.append(d.as_str());
            m.append(")");
        },
        None => m.append("None"),
    }
    ParseError::Msg(m)
}

/// The error with a fixed message.
fn error_msg(m: &str) -> (e: ParseError)
    ensures
        e matches ParseError::Msg(x) && x@ == m@,
{
    ParseError::Msg(m.to_owned())
}

struct Parser<'a> {
    tokens: &'a [Token],
    pos: usize,
}

impl<'a> Parser<'a> {
    spec fn toks(&self) -> Seq<SpecToken> {
        tokens_view(self.tokens@)
    }

    spec fn tok(&self, pos: int) -> Option<SpecToken> {
        tok_at(self.toks(), pos)
    }

    spec fn ok(&self) -> bool {
        self.pos <= self.tokens@.len()
    }

    fn peek(&self) -> (r: Option<&'a Token>)
        ensures
            match r {
                Some(t) => self.tok(self.pos as int) == Some(token_view(*t)),
                None => self.tok(self.pos as int) is None,
            },
    {
        if self.pos < self.tokens.len() {
            Some(&self.tokens[self.pos])
        } else {
            None
        }
    }

    /// Takes the token at the position and moves past it; at the end there
    /// is nothing to take and the position stays.
    fn bump(&mut self) -> (r: Option<&'a Token>)
        ensures
            final(self).tokens == old(self).tokens,
            final(self).pos == if old(self).pos < old(self).tokens@.len() {
                old(self).pos + 1
            } else {
                old(self).pos as int
            },
            match r {
                Some(t) => old(self).tok(old(self).pos as int) == Some(token_view(*t)),
                None => old(self).tok(old(self).pos as int) is None,
            },
    {
        if self.pos < self.tokens.len() {
            let t = &self.tokens[self.pos];
            self.pos = self.pos + 1;
            Some(t)
        } else {
            None
        }
    }

    fn parse_or(&mut self) -> (r: Result<Predicate, ParseError>)
        requires
            old(self).ok(),
        ensures
            final(self).tokens == old(self).tokens,
            final(self).ok(),
            parsed_as(r, final(self).pos as int, parse_or_spec(old(self).toks(), old(self).pos as int)),
            r is Ok ==> old(self).pos < final(self).pos <= old(self).tokens@.len(),
        decreases old(self).tokens@.len() - old(self).pos, 4int,
    {
        let ghost start = self.pos as int;
        let ghost ts = self.toks();
        let ghost tk = self.tokens;
        let mut left = self.parse_and()?;
        assert(parse_or_spec(ts, start) == parse_or_tail_spec(ts, self.pos as int, left@));
        while matches!(self.peek(), Some(Token::KwOr))
            invariant
                self.ok(),
                self.tokens == tk,
                tk == old(self).tokens,
                start == old(self).pos,
                self.toks() == ts,
                start < self.pos,
                parse_or_spec(ts, start) == parse_or_tail_spec(ts, self.pos as int, left@),
            decreases self.tokens@.len() - self.pos,
        {
            let ghost p0 = self.pos as int;
            let ghost l0 = left@;
            self.bump();
            let right = self.parse_and()?;
            left = Predicate::Or(Box::new(left), Box::new(right));
            assert(left@ == SpecPredicate::Or(Box::new(l0), Box::new(right@)));
        }
        Ok(left)
    }

    fn parse_and(&mut self) -> (r: Result<Predicate, ParseError>)
        requires
            old(self).ok(),
        ensures
            final(self).tokens == old(self).tokens,
            final(self).ok(),
            parsed_as(r, final(self).pos as int, parse_and_spec(old(self).toks(), old(self).pos as int)),
            r is Ok ==> old(self).pos < final(self).pos <= old(self).tokens@.len(),
        decreases old(self).tokens@.len() - old(self).pos, 2int,
    {
        let ghost start = self.pos as int;
        let ghost ts = self.toks();
        let ghost tk = self.tokens;
        let mut left = self.parse_primary()?;
        while matches!(self.peek(), Some(Token::KwAnd))
            invariant
                self.ok(),
                self.tokens == tk,
                tk == old(self).tokens,
                start == old(self).pos,
                self.toks() == ts,
                start < self.pos,
                parse_and_spec(ts, start) == parse_and_tail_spec(ts, self.pos as int, left@),
            decreases self.tokens@.len() - self.pos,
        {
            let ghost l0 = left@;
            self.bump();
            let right = self.parse_primary()?;
            left = Predicate::And(Box::new(left), Box::new(right));
            assert(left@ == SpecPredicate::And(Box::new(l0), Box::new(right@)));
        }
        Ok(left)
    }

    fn parse_primary(&mut self) -> (r: Result<Predicate, ParseError>)
        requires
            old(self).ok(),
        ensures
            final(self).tokens == old(self).tokens,
            final(self).ok(),
            parsed_as(r, final(self).pos as int, parse_primary_spec(old(self).toks(), old(self).pos as int)),
            r is Ok ==> old(self).pos < final(self).pos <= old(self).tokens@.len(),
        decreases old(self).tokens@.len() - old(self).pos, 0int,
    {
        assert(self.toks().len() == self.tokens@.len());
        if matches!(self.peek(), Some(Token::LParen)) {
            self.bump();
            let inner = self.parse_or()?;
            let ghost p = self.pos;
            if !matches!(self.bump(), Some(Token::RParen)) {
                return Err(error_msg("expected ')'"));
            }
            assert(p < self.tokens@.len());
            return Ok(inner);
        }
        let t = self.bump();
        let field = match t {
            Some(Token::Ident(s)) => s.clone(),
            other => return Err(unexpected("expected identifier, got ", other)),
        };
        let c = self.bump();
        match c {
            Some(Token::EqEq) => {
                let lit = self.parse_literal_single()?;
                Ok(Predicate::Equals { field, value: lit })
            },
            Some(Token::NotEq) => {
                let lit = self.parse_literal_single()?;
                Ok(Predicate::NotEquals { field, value: lit })
            },
            Some(Token::KwIn) => {
                let lits = self.parse_literal_list()?;
                Ok(Predicate::In { field, values: lits })
            },
            Some(Token::KwNot) => {
                if !matches!(self.bump(), Some(Token::KwIn)) {
                    return Err(error_msg("expected 'not in'"));
                }
                let lits = self.parse_literal_list()?;
                Ok(Predicate::NotIn { field, values: lits })
            },
            other => Err(unexpected("expected comparator, got ", other)),
        }
    }

    fn parse_literal_single(&mut self) -> (r: Result<Literal, ParseError>)
        requires
            old(self).ok(),
        ensures
            final(self).tokens == old(self).tokens,
            final(self).ok(),
            parsed_as(r, final(self).pos as int, parse_literal_spec(old(self).toks(), old(self).pos as int)),
            r is Ok ==> final(self).pos == old(self).pos + 1,
    {
        match self.bump() {
            Some(Token::Str(s)) => Ok(Literal::Str(s.clone())),
            Some(Token::Int(i)) => Ok(Literal::Int(*i)),
            other => Err(unexpected("expected literal, got ", other)),
        }
    }

    fn parse_literal_list(&mut self) -> (r: Result<Vec<Literal>, ParseError>)
        requires
            old(self).ok(),
        ensures
            final(self).tokens == old(self).tokens,
            final(self).ok(),
            match parse_list_spec(old(self).toks(), old(self).pos as int) {
                Ok((ls, q)) => r matches Ok(v) && literals_view(v@) == ls && final(self).pos == q
                    && q <= old(self).tokens@.len(),
                Err(m) => r matches Err(ParseError::Msg(y)) && y@ == m,
            },
            r is Ok ==> old(self).pos < final(self).pos,
    {
        let ghost ts = self.toks();
        let ghost tk = self.tokens;
        let ghost start = self.pos as int;
        if !matches!(self.bump(), Some(Token::LBracket)) {
            return Err(error_msg("expected '['"));
        }
        let mut out: Vec<Literal> = Vec::new();
        if matches!(self.peek(), Some(Token::RBracket)) {
            self.bump();
            assert(literals_view(out@) =~= Seq::<SpecLiteral>::empty());
            return Ok(out);
        }
        assert(literals_view(out@) =~= Seq::<SpecLiteral>::empty());
        loop
            invariant_except_break
                parse_list_spec(ts, start) == parse_items_spec(ts, self.pos as int, literals_view(out@)),
            invariant
                self.tokens == tk,
                tk == old(self).tokens,
                start == old(self).pos,
                self.toks() == ts,
                start < self.pos <= self.tokens@.len(),
            ensures
                parse_list_spec(ts, start) == Ok::<(Seq<SpecLiteral>, int), Seq<char>>((literals_view(out@), self.pos as int)),
            decreases self.tokens@.len() - self.pos,
        {
            let ghost p0 = self.pos as int;
            let ghost acc = literals_view(out@);
            let lit = self.parse_literal_single()?;
            let ghost l = lit@;
            out.push(lit);
            assert(literals_view(out@) =~= acc.push(l));
            match self.bump() {
                Some(Token::Comma) => {},
                Some(Token::RBracket) => {
                    break;
                },
                other => return Err(unexpected("expected ',' or ']', got ", other)),
            }
        }
        Ok(out)
    }
}

/// Parses a predicate text.
pub fn parse_predicate(source: &str) -> (r: Result<Predicate, ParseError>)
    ensures
        match parse_predicate_spec(source@) {
            Ok(p) => r matches Ok(x) && x@ == p,
            Err(m) => r matches Err(ParseError::Msg(y)) && y@ == m,
        },
{
    let tokens = tokenize(source)?;
    let mut parser = Parser { tokens: tokens.as_slice(), pos: 0 };
    let expr = parser.parse_or()?;
    if parser.pos != tokens.len() {
        let mut m = String::new();
        m.append("trailing tokens at position ");
        let d = u64_to_text(parser.pos as u64);
        m.append(d.as_str());
        return Err(ParseError::Msg(m));
    }
    Ok(expr)
}

/// The token of a literal.
pub open spec fn literal_token(l: SpecLiteral) -> SpecToken {
    match l {
        SpecLiteral::Str(s) => SpecToken::Str(s),
        SpecLiteral::Int(i) => SpecToken::Int(i),
    }
}

/// The comparison `field == literal`.
pub open spec fn equals_of(c: (Seq<char>, SpecLiteral)) -> SpecPredicate {
    SpecPredicate::Equals { field: c.0, value: c.1 }
}

/// Token `i` of the comparisons `cs` written one after another as
/// `field == literal`, with `joiner` between each two.
pub open spec fn chain_token(cs: Seq<(Seq<char>, SpecLiteral)>, joiner: SpecToken, i: int) -> SpecToken {
    let k = i / 4;
    if i % 4 == 0 {
        SpecToken::Ident(cs[k].0)
    } else if i % 4 == 1 {
        SpecToken::EqEq
    } else if i % 4 == 2 {
        literal_token(cs[k].1)
    } else {
        joiner
    }
}

/// The tokens of the comparisons `cs` joined by `joiner`:
/// `f1 == l1 joiner f2 == l2 joiner ...`.
pub open spec fn chain_tokens(cs: Seq<(Seq<char>, SpecLiteral)>, joiner: SpecToken) -> Seq<SpecToken> {
    Seq::new((4 * cs.len() - 1) as nat, |i: int| chain_token(cs, joiner, i))
}

/// The comparisons `cs` combined from the left with `and`:
/// `((c1 and c2) and c3) ...`.
pub open spec fn and_fold(cs: Seq<(Seq<char>, SpecLiteral)>) -> SpecPredicate
    decreases cs.len(),
{
    if cs.len() <= 1 {
        equals_of(cs[0])
    } else {
        SpecPredicate::And(Box::new(and_fold(cs.drop_last())), Box::new(equals_of(cs.last())))
    }
}

/// The comparisons `cs` combined from the left with `or`.
pub open spec fn or_fold(cs: Seq<(Seq<char>, SpecLiteral)>) -> SpecPredicate
    decreases cs.len(),
{
    if cs.len() <= 1 {
        equals_of(cs[0])
    } else {
        SpecPredicate::Or(Box::new(or_fold(cs.drop_last())), Box::new(equals_of(cs.last())))
    }
}

/// The tokens of comparison `k` of a chain and the joiner after it.
proof fn lemma_chain_token_at(cs: Seq<(Seq<char>, SpecLiteral)>, joiner: SpecToken, k: int)
    requires
        0 <= k < cs.len(),
    ensures
        tok_at(chain_tokens(cs, joiner), 4 * k) == Some(SpecToken::Ident(cs[k].0)),
        tok_at(chain_tokens(cs, joiner), 4 * k + 1) == Some(SpecToken::EqEq),
        tok_at(chain_tokens(cs, joiner), 4 * k + 2) == Some(literal_token(cs[k].1)),
        k + 1 < cs.len() ==> tok_at(chain_tokens(cs, joiner), 4 * k + 3) == Some(joiner),
        k + 1 == cs.len() ==> tok_at(chain_tokens(cs, joiner), 4 * k + 3) is None,
        chain_tokens(cs, joiner).len() == 4 * cs.len() - 1,
{
    lemma_fundamental_div_mod_converse(4 * k, 4, k, 0);
    lemma_fundamental_div_mod_converse(4 * k + 1, 4, k, 1);
    lemma_fundamental_div_mod_converse(4 * k + 2, 4, k, 2);
    lemma_fundamental_div_mod_converse(4 * k + 3, 4, k, 3);
}

/// Comparison `k` of a chain parses as a primary and ends before its joiner.
proof fn lemma_chain_primary(cs: Seq<(Seq<char>, SpecLiteral)>, joiner: SpecToken, k: int)
    requires
        0 <= k < cs.len(),
    ensures
        parse_primary_spec(chain_tokens(cs, joiner), 4 * k) == Ok::<(SpecPredicate, int), Seq<char>>(
            (equals_of(cs[k]), 4 * k + 3),
        ),
{
    lemma_chain_token_at(cs, joiner, k);
}

/// The `and` folds of the first `k` and `k + 1` comparisons.
proof fn lemma_and_fold_step(cs: Seq<(Seq<char>, SpecLiteral)>, k: int)
    requires
        1 <= k < cs.len(),
    ensures
        and_fold(cs.take(k + 1)) == SpecPredicate::And(Box::new(and_fold(cs.take(k))), Box::new(equals_of(cs[k]))),
        or_fold(cs.take(k + 1)) == SpecPredicate::Or(Box::new(or_fold(cs.take(k))), Box::new(equals_of(cs[k]))),
{
    assert(cs.take(k + 1).drop_last() =~= cs.take(k));
}

/// From the end of comparison `k - 1` on, an `and` chain parses to the fold
/// of all its comparisons.
proof fn lemma_and_chain_tail(cs: Seq<(Seq<char>, SpecLiteral)>, k: int)
    requires
        1 <= k <= cs.len(),
    ensures
        parse_and_tail_spec(chain_tokens(cs, SpecToken::KwAnd), 4 * k - 1, and_fold(cs.take(k)))
            == Ok::<(SpecPredicate, int), Seq<char>>((and_fold(cs), 4 * cs.len() - 1)),
    decreases cs.len() - k,
{
    let ts = chain_tokens(cs, SpecToken::KwAnd);
    lemma_chain_token_at(cs, SpecToken::KwAnd, k - 1);
    if k == cs.len() {
        assert(cs.take(k) =~= cs);
    } else {
        lemma_chain_primary(cs, SpecToken::KwAnd, k);
        lemma_and_fold_step(cs, k);
        lemma_and_chain_tail(cs, k + 1);
    }
}

/// From the end of comparison `k - 1` on, an `or` chain parses to the fold
/// of all its comparisons.
proof fn lemma_or_chain_tail(cs: Seq<(Seq<char>, SpecLiteral)>, k: int)
    requires
        1 <= k <= cs.len(),
    ensures
        parse_or_tail_spec(chain_tokens(cs, SpecToken::KwOr), 4 * k - 1, or_fold(cs.take(k)))
            == Ok::<(SpecPredicate, int), Seq<char>>((or_fold(cs), 4 * cs.len() - 1)),
    decreases cs.len() - k,
{
    let ts = chain_tokens(cs, SpecToken::KwOr);
    lemma_chain_token_at(cs, SpecToken::KwOr, k - 1);
    if k == cs.len() {
        assert(cs.take(k) =~= cs);
    } else {
        lemma_chain_primary(cs, SpecToken::KwOr, k);
        lemma_chain_token_at(cs, SpecToken::KwOr, k);
        assert(parse_and_spec(ts, 4 * k) == Ok::<(SpecPredicate, int), Seq<char>>(
            (equals_of(cs[k]), 4 * k + 3),
        ));
        lemma_and_fold_step(cs, k);
        lemma_or_chain_tail(cs, k + 1);
    }
}

/// Any number of comparisons joined by `and` parse, and fold from the left:
/// `c1 and c2 and c3` is `(c1 and c2) and c3`. A text that tokenizes so
/// parses to that predicate.
pub proof fn lemma_and_chain_parses(cs: Seq<(Seq<char>, SpecLiteral)>, source: Seq<char>)
    requires
        cs.len() >= 1,
    ensures
        parse_or_spec(chain_tokens(cs, SpecToken::KwAnd), 0) == Ok::<(SpecPredicate, int), Seq<char>>(
            (and_fold(cs), 4 * cs.len() - 1),
        ),
        tokenize_spec(source) == Ok::<Seq<SpecToken>, Seq<char>>(chain_tokens(cs, SpecToken::KwAnd))
            ==> parse_predicate_spec(source) == Ok::<SpecPredicate, Seq<char>>(and_fold(cs)),
{
    let ts = chain_tokens(cs, SpecToken::KwAnd);
    lemma_chain_primary(cs, SpecToken::KwAnd, 0);
    lemma_chain_token_at(cs, SpecToken::KwAnd, 0);
    assert(cs.take(1).len() == 1);
    assert(and_fold(cs.take(1)) == equals_of(cs[0]));
    lemma_and_chain_tail(cs, 1);
    assert(tok_at(ts, 4 * cs.len() - 1) is None);
}

/// Any number of comparisons joined by `or` parse, and fold from the left:
/// `c1 or c2 or c3` is `(c1 or c2) or c3`. A text that tokenizes so parses
/// to that predicate.
pub proof fn lemma_or_chain_parses(cs: Seq<(Seq<char>, SpecLiteral)>, source: Seq<char>)
    requires
        cs.len() >= 1,
    ensures
        parse_or_spec(chain_tokens(cs, SpecToken::KwOr), 0) == Ok::<(SpecPredicate, int), Seq<char>>(
            (or_fold(cs), 4 * cs.len() - 1),
        ),
        tokenize_spec(source) == Ok::<Seq<SpecToken>, Seq<char>>(chain_tokens(cs, SpecToken::KwOr))
            ==> parse_predicate_spec(source) == Ok::<SpecPredicate, Seq<char>>(or_fold(cs)),
{
    let ts = chain_tokens(cs, SpecToken::KwOr);
    lemma_chain_primary(cs, SpecToken::KwOr, 0);
    lemma_chain_token_at(cs, SpecToken::KwOr, 0);
    assert(parse_and_spec(ts, 0) == Ok::<(SpecPredicate, int), Seq<char>>((equals_of(cs[0]), 3)));
    assert(cs.take(1).len() == 1);
    assert(or_fold(cs.take(1)) == equals_of(cs[0]));
    lemma_or_chain_tail(cs, 1);
}

/// The tokens of the comparison `field == literal`.
pub open spec fn comparison_tokens(c: (Seq<char>, SpecLiteral)) -> Seq<SpecToken> {
    seq![SpecToken::Ident(c.0), SpecToken::EqEq, literal_token(c.1)]
}

/// `and` binds tighter than `or`, on either side of it:
/// `c1 and c2 or c3` is `(c1 and c2) or c3`, and `c1 or c2 and c3` is
/// `c1 or (c2 and c3)`.
pub proof fn lemma_and_binds_tighter_than_or(
    c1: (Seq<char>, SpecLiteral),
    c2: (Seq<char>, SpecLiteral),
    c3: (Seq<char>, SpecLiteral),
)
    ensures
        parse_or_spec(
            comparison_tokens(c1) + seq![SpecToken::KwAnd] + comparison_tokens(c2) + seq![SpecToken::KwOr]
                + comparison_tokens(c3),
            0,
        ) == Ok::<(SpecPredicate, int), Seq<char>>(
            (
                SpecPredicate::Or(
                    Box::new(SpecPredicate::And(Box::new(equals_of(c1)), Box::new(equals_of(c2)))),
                    Box::new(equals_of(c3)),
                ),
                11,
            ),
        ),
        parse_or_spec(
            comparison_tokens(c1) + seq![SpecToken::KwOr] + comparison_tokens(c2) + seq![SpecToken::KwAnd]
                + comparison_tokens(c3),
            0,
        ) == Ok::<(SpecPredicate, int), Seq<char>>(
            (
                SpecPredicate::Or(
                    Box::new(equals_of(c1)),
                    Box::new(SpecPredicate::And(Box::new(equals_of(c2)), Box::new(equals_of(c3)))),
                ),
                11,
            ),
        ),
{
    let e1 = equals_of(c1);
    let e2 = equals_of(c2);
    let e3 = equals_of(c3);
    let a = comparison_tokens(c1) + seq![SpecToken::KwAnd] + comparison_tokens(c2) + seq![SpecToken::KwOr]
        + comparison_tokens(c3);
    assert(a =~= seq![
        SpecToken::Ident(c1.0), SpecToken::EqEq, literal_token(c1.1), SpecToken::KwAnd,
        SpecToken::Ident(c2.0), SpecToken::EqEq, literal_token(c2.1), SpecToken::KwOr,
        SpecToken::Ident(c3.0), SpecToken::EqEq, literal_token(c3.1),
    ]);
    assert(parse_primary_spec(a, 0) == Ok::<(SpecPredicate, int), Seq<char>>((e1, 3)));
    assert(parse_primary_spec(a, 4) == Ok::<(SpecPredicate, int), Seq<char>>((e2, 7)));
    assert(parse_primary_spec(a, 8) == Ok::<(SpecPredicate, int), Seq<char>>((e3, 11)));
    let and12 = SpecPredicate::And(Box::new(e1), Box::new(e2));
    assert(parse_and_tail_spec(a, 7, and12) == Ok::<(SpecPredicate, int), Seq<char>>((and12, 7)));
    assert(parse_and_tail_spec(a, 3, e1) == Ok::<(SpecPredicate, int), Seq<char>>((and12, 7)));
    assert(parse_and_spec(a, 0) == Ok::<(SpecPredicate, int), Seq<char>>((and12, 7)));
    assert(parse_and_tail_spec(a, 11, e3) == Ok::<(SpecPredicate, int), Seq<char>>((e3, 11)));
    assert(parse_and_spec(a, 8) == Ok::<(SpecPredicate, int), Seq<char>>((e3, 11)));
    let r1 = SpecPredicate::Or(Box::new(and12), Box::new(e3));
    assert(parse_or_tail_spec(a, 11, r1) == Ok::<(SpecPredicate, int), Seq<char>>((r1, 11)));
    assert(parse_or_tail_spec(a, 7, and12) == Ok::<(SpecPredicate, int), Seq<char>>((r1, 11)));

    let b = comparison_tokens(c1) + seq![SpecToken::KwOr] + comparison_tokens(c2) + seq![SpecToken::KwAnd]
        + comparison_tokens(c3);
    assert(b =~= seq![
        SpecToken::Ident(c1.0), SpecToken::EqEq, literal_token(c1.1), SpecToken::KwOr,
        SpecToken::Ident(c2.0), SpecToken::EqEq, literal_token(c2.1), SpecToken::KwAnd,
        SpecToken::Ident(c3.0), SpecToken::EqEq, literal_token(c3.1),
    ]);
    assert(parse_primary_spec(b, 0) == Ok::<(SpecPredicate, int), Seq<char>>((e1, 3)));
    assert(parse_primary_spec(b, 4) == Ok::<(SpecPredicate, int), Seq<char>>((e2, 7)));
    assert(parse_primary_spec(b, 8) == Ok::<(SpecPredicate, int), Seq<char>>((e3, 11)));
    assert(parse_and_tail_spec(b, 3, e1) == Ok::<(SpecPredicate, int), Seq<char>>((e1, 3)));
    assert(parse_and_spec(b, 0) == Ok::<(SpecPredicate, int), Seq<char>>((e1, 3)));
    let and23 = SpecPredicate::And(Box::new(e2), Box::new(e3));
    assert(parse_and_tail_spec(b, 11, and23) == Ok::<(SpecPredicate, int), Seq<char>>((and23, 11)));
    assert(parse_and_tail_spec(b, 7, e2) == Ok::<(SpecPredicate, int), Seq<char>>((and23, 11)));
    assert(parse_and_spec(b, 4) == Ok::<(SpecPredicate, int), Seq<char>>((and23, 11)));
    let r2 = SpecPredicate::Or(Box::new(e1), Box::new(and23));
    assert(parse_or_tail_spec(b, 11, r2) == Ok::<(SpecPredicate, int), Seq<char>>((r2, 11)));
    assert(parse_or_tail_spec(b, 3, e1) == Ok::<(SpecPredicate, int), Seq<char>>((r2, 11)));
}

/// Any field compared with any literal parses: `f == l` as an equality and
/// `f != l` as an inequality. A text that tokenizes so parses to it.
pub proof fn lemma_comparison_parses(field: Seq<char>, value: SpecLiteral, source: Seq<char>)
    ensures
        parse_or_spec(seq![SpecToken::Ident(field), SpecToken::EqEq, literal_token(value)], 0)
            == Ok::<(SpecPredicate, int), Seq<char>>((SpecPredicate::Equals { field, value }, 3)),
        parse_or_spec(seq![SpecToken::Ident(field), SpecToken::NotEq, literal_token(value)], 0)
            == Ok::<(SpecPredicate, int), Seq<char>>((SpecPredicate::NotEquals { field, value }, 3)),
        tokenize_spec(source) == Ok::<Seq<SpecToken>, Seq<char>>(
            seq![SpecToken::Ident(field), SpecToken::NotEq, literal_token(value)],
        ) ==> parse_predicate_spec(source) == Ok::<SpecPredicate, Seq<char>>(
            SpecPredicate::NotEquals { field, value },
        ),
        tokenize_spec(source) == Ok::<Seq<SpecToken>, Seq<char>>(
            seq![SpecToken::Ident(field), SpecToken::EqEq, literal_token(value)],
        ) ==> parse_predicate_spec(source) == Ok::<SpecPredicate, Seq<char>>(
            SpecPredicate::Equals { field, value },
        ),
{
    let a = seq![SpecToken::Ident(field), SpecToken::EqEq, literal_token(value)];
    let b = seq![SpecToken::Ident(field), SpecToken::NotEq, literal_token(value)];
    assert(parse_and_spec(a, 0) == Ok::<(SpecPredicate, int), Seq<char>>((SpecPredicate::Equals { field, value }, 3)));
    assert(parse_and_spec(b, 0) == Ok::<(SpecPredicate, int), Seq<char>>((SpecPredicate::NotEquals { field, value }, 3)));
}

/// Token `j` of a bracketed list of literals.
pub open spec fn list_token(ls: Seq<SpecLiteral>, j: int) -> SpecToken {
    if j == 0 {
        SpecToken::LBracket
    } else if ls.len() == 0 {
        SpecToken::RBracket
    } else if (j - 1) % 2 == 0 {
        literal_token(ls[(j - 1) / 2])
    } else if (j - 1) / 2 + 1 < ls.len() {
        SpecToken::Comma
    } else {
        SpecToken::RBracket
    }
}

/// The tokens of the list `[l1, l2, ...]`.
pub open spec fn list_tokens(ls: Seq<SpecLiteral>) -> Seq<SpecToken> {
    Seq::new(if ls.len() == 0 { 2 } else { 2 * ls.len() + 1 }, |j: int| list_token(ls, j))
}

/// Where item `k` of a list lies, and what follows it.
proof fn lemma_list_token_at(pre: Seq<SpecToken>, ls: Seq<SpecLiteral>, k: int)
    requires
        0 <= k < ls.len(),
    ensures
        tok_at(pre + list_tokens(ls), pre.len() + 1 + 2 * k) == Some(literal_token(ls[k])),
        k + 1 < ls.len() ==> tok_at(pre + list_tokens(ls), pre.len() + 2 + 2 * k) == Some(SpecToken::Comma),
        k + 1 == ls.len() ==> tok_at(pre + list_tokens(ls), pre.len() + 2 + 2 * k) == Some(SpecToken::RBracket),
        (pre + list_tokens(ls)).len() == pre.len() + 2 * ls.len() + 1,
{
    lemma_fundamental_div_mod_converse(2 * k, 2, k, 0);
    lemma_fundamental_div_mod_converse(2 * k + 1, 2, k, 1);
    let ts = pre + list_tokens(ls);
    assert(ts[pre.len() + 1 + 2 * k] == list_tokens(ls)[1 + 2 * k]);
    assert(ts[pre.len() + 2 + 2 * k] == list_tokens(ls)[2 + 2 * k]);
}

/// The items of a list from item `k` on, after the first `k`, parse to the
/// whole list and end after its closing bracket.
proof fn lemma_list_items(pre: Seq<SpecToken>, ls: Seq<SpecLiteral>, k: int)
    requires
        0 <= k < ls.len(),
    ensures
        parse_items_spec(pre + list_tokens(ls), pre.len() + 1 + 2 * k, ls.take(k))
            == Ok::<(Seq<SpecLiteral>, int), Seq<char>>((ls, (pre.len() + 2 * ls.len() + 1) as int)),
    decreases ls.len() - k,
{
    let ts = pre + list_tokens(ls);
    lemma_list_token_at(pre, ls, k);
    assert(parse_literal_spec(ts, pre.len() + 1 + 2 * k) == Ok::<(SpecLiteral, int), Seq<char>>(
        (ls[k], pre.len() + 2 + 2 * k),
    ));
    assert(ls.take(k).push(ls[k]) =~= ls.take(k + 1));
    if k + 1 < ls.len() {
        lemma_list_items(pre, ls, k + 1);
    } else {
        assert(ls.take(k + 1) =~= ls);
    }
}

/// A bracketed list of literals, empty or not, parses to its literals and
/// ends after its closing bracket.
proof fn lemma_list_parses(pre: Seq<SpecToken>, ls: Seq<SpecLiteral>)
    ensures
        parse_list_spec(pre + list_tokens(ls), pre.len() as int) == Ok::<(Seq<SpecLiteral>, int), Seq<char>>(
            (ls, (pre + list_tokens(ls)).len() as int),
        ),
{
    let ts = pre + list_tokens(ls);
    assert(ts[pre.len() as int] == list_tokens(ls)[0]);
    if ls.len() == 0 {
        assert(ts[pre.len() + 1int] == list_tokens(ls)[1]);
        assert(ls =~= Seq::<SpecLiteral>::empty());
    } else {
        lemma_list_token_at(pre, ls, 0);
        assert(ls.take(0) =~= Seq::<SpecLiteral>::empty());
        lemma_list_items(pre, ls, 0);
    }
}

/// Any field tested against any list of literals parses: `f in [l1, ...]`
/// as membership and `f not in [l1, ...]` as its negation, with the
/// literals in order; the empty list included.
pub proof fn lemma_in_list_parses(field: Seq<char>, values: Seq<SpecLiteral>)
    ensures
        parse_or_spec(seq![SpecToken::Ident(field), SpecToken::KwIn] + list_tokens(values), 0)
            == Ok::<(SpecPredicate, int), Seq<char>>(
            (
                SpecPredicate::In { field, values },
                (seq![SpecToken::Ident(field), SpecToken::KwIn] + list_tokens(values)).len() as int,
            ),
        ),
        parse_or_spec(seq![SpecToken::Ident(field), SpecToken::KwNot, SpecToken::KwIn] + list_tokens(values), 0)
            == Ok::<(SpecPredicate, int), Seq<char>>(
            (
                SpecPredicate::NotIn { field, values },
                (seq![SpecToken::Ident(field), SpecToken::KwNot, SpecToken::KwIn] + list_tokens(values)).len() as int,
            ),
        ),
{
    let pa = seq![SpecToken::Ident(field), SpecToken::KwIn];
    let a = pa + list_tokens(values);
    lemma_list_parses(pa, values);
    assert(a[0] == pa[0]);
    assert(a[1] == pa[1]);
    let na = a.len() as int;
    assert(parse_primary_spec(a, 0) == Ok::<(SpecPredicate, int), Seq<char>>((SpecPredicate::In { field, values }, na)));
    assert(parse_and_spec(a, 0) == Ok::<(SpecPredicate, int), Seq<char>>((SpecPredicate::In { field, values }, na)));

    let pb = seq![SpecToken::Ident(field), SpecToken::KwNot, SpecToken::KwIn];
    let b = pb + list_tokens(values);
    lemma_list_parses(pb, values);
    assert(b[0] == pb[0]);
    assert(b[1] == pb[1]);
    assert(b[2] == pb[2]);
    let nb = b.len() as int;
    assert(parse_primary_spec(b, 0) == Ok::<(SpecPredicate, int), Seq<char>>((SpecPredicate::NotIn { field, values }, nb)));
    assert(parse_and_spec(b, 0) == Ok::<(SpecPredicate, int), Seq<char>>((SpecPredicate::NotIn { field, values }, nb)));
}

} // verus!
