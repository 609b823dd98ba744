//! A CSS token tree produced by cssparser, as plain values.

use vstd::prelude::*;
use cssparser::Token as CssToken;
use vstd::string::is_ascii_spec_bytes;
use vstd::string::StringExecFns;
use vstd::string::StringSliceAdditionalSpecFns;
use vstd::utf8::is_ascii_chars;
use vstd::utf8::encode_utf8;

verus! {

#[verifier::external_type_specification]
#[verifier::external_body]
pub struct ExParser<'i, 't>(cssparser::Parser<'i, 't>);

#[verifier::external_type_specification]
#[verifier::external_body]
pub struct ExParserInput<'i>(cssparser::ParserInput<'i>);

#[verifier::external_type_specification]
#[verifier::external_body]
pub struct ExCssToken<'a>(CssToken<'a>);

pub assume_specification<'i>[ cssparser::ParserInput::<'i>::new ](input: &'i str) -> cssparser::ParserInput<'i>;

pub assume_specification<'i: 't, 't>[ cssparser::Parser::<'i, 't>::new ](input: &'t mut cssparser::ParserInput<'i>) -> cssparser::Parser<'i, 't>;

/// How deeply blocks may nest; a parenthesis group whose inside lies deeper is
/// kept empty and marked incomplete.
pub const MAX_NESTING: usize = 32;

/// What one token is, as far as the media grammar reads it.
pub enum TokenKind {
    /// An identifier, with escapes resolved.
    Ident(String),
    Colon,
    Comma,
    /// A single delimiter character such as `=`, `<`, `>` or `/`.
    Delim(char),
    /// A parenthesis group: its inner tokens, and whether it is complete (a `)`
    /// closed it and it lies within `MAX_NESTING`).
    ParenBlock(Vec<Token>, bool),
    /// Whitespace or a comment.
    Whitespace,
    /// Any other token, functions and other blocks included.
    Other,
}

/// A token together with the exact source text it spans.
pub struct Token {
    pub kind: TokenKind,
    pub text: String,
}

/// One token as cssparser hands it out, before any group is descended into.
pub enum RawToken {
    Ident(String),
    Colon,
    Comma,
    Delim(char),
    OpenParen,
    /// A function token, whose block follows.
    Function,
    OpenSquare,
    OpenCurly,
    Whitespace,
    Comment,
    /// Any other token.
    Other,
}

/// Relies on nothing beyond telling cssparser's token variants apart.
#[verifier::external_body]
fn raw_kind(t: &CssToken<'_>) -> (r: RawToken) {
    match t {
        CssToken::Ident(s) => RawToken::Ident(s.to_string()),
        CssToken::Colon => RawToken::Colon,
        CssToken::Comma => RawToken::Comma,
        CssToken::Delim(c) => RawToken::Delim(*c),
        CssToken::ParenthesisBlock => RawToken::OpenParen,
        CssToken::Function(_) => RawToken::Function,
        CssToken::SquareBracketBlock => RawToken::OpenSquare,
        CssToken::CurlyBracketBlock => RawToken::OpenCurly,
        CssToken::WhiteSpace(_) => RawToken::Whitespace,
        CssToken::Comment(_) => RawToken::Comment,
        _ => RawToken::Other,
    }
}

/// Relies on cssparser::Parser::next_including_whitespace_and_comments for the
/// next token (`None` at the end of the input or block), on
/// Parser::parse_nested_block to read the inside of a block that token opens
/// (with `depth` levels left) and consume it to its closing token, and on
/// Parser::position and Parser::slice_from for the text the token spans.
/// The inner tokens are what the closure returned, or none where
/// parse_nested_block gave an error.
#[verifier::external_body]
fn read_token(p: &mut cssparser::Parser<'_, '_>, budget: usize, depth: usize) -> (r: Option<(RawToken, Vec<Token>, String)>)
    ensures
        r matches Some(t) ==> groups_ok(t.1@, depth as int),
{
    let start = p.position();
    let raw = raw_kind(p.next_including_whitespace_and_comments().ok()?);
    let inner = match raw {
        RawToken::OpenParen | RawToken::Function | RawToken::OpenSquare | RawToken::OpenCurly => p
            .parse_nested_block(|i| Ok::<Vec<Token>, cssparser::ParseError<'_, ()>>(tokenize_block(i, budget, depth)))
            .unwrap_or_default(),
        _ => Vec::new(),
    };
    Some((raw, inner, p.slice_from(start).to_string()))
}

/// Byte length of a text, as `str::len` gives it.
pub open spec fn byte_len(s: Seq<char>) -> int {
    encode_utf8(s).len() as usize as int
}

/// A group read `depth` levels above the limit, with inner tokens `inner` and
/// source text `text`, is complete: its inside was read (`depth > 1`) and its
/// text is longer than `(` and the inner texts, so a `)` closed it.
pub open spec fn group_complete(inner: Seq<Token>, text: Seq<char>, depth: int) -> bool {
    depth > 1 && byte_len(text) > 1 + texts_bytes(inner, inner.len() as int)
}

/// Every group in `t`, at every level below it, is marked complete only where
/// it is; `depth` counts the levels left at `t`'s own level.
pub open spec fn group_ok(t: Token, depth: int) -> bool
    decreases t,
{
    match t.kind {
        TokenKind::ParenBlock(inner, complete) => (complete == group_complete(inner@, t.text@, depth)) && groups_ok(
            inner@,
            depth - 1,
        ),
        _ => true,
    }
}

pub open spec fn groups_ok(ts: Seq<Token>, depth: int) -> bool
    decreases ts,
{
    forall|i: int| 0 <= i < ts.len() ==> group_ok(#[trigger] ts[i], depth)
}

/// The token kind for `raw`, given the group's inner tokens and text.
pub open spec fn kind_of(raw: RawToken, inner: Vec<Token>, text: Seq<char>, depth: int) -> TokenKind {
    match raw {
        RawToken::Ident(s) => TokenKind::Ident(s),
        RawToken::Colon => TokenKind::Colon,
        RawToken::Comma => TokenKind::Comma,
        RawToken::Delim(c) => TokenKind::Delim(c),
        RawToken::Whitespace | RawToken::Comment => TokenKind::Whitespace,
        RawToken::Other | RawToken::Function | RawToken::OpenSquare | RawToken::OpenCurly => TokenKind::Other,
        RawToken::OpenParen => TokenKind::ParenBlock(inner, group_complete(inner@, text, depth)),
    }
}

/// Builds the token for what cssparser read at a level `depth` levels above
/// the limit: comments count as whitespace, blocks other than parentheses as
/// single tokens, and a parenthesis group keeps its inner tokens.
pub fn make_token(raw: RawToken, inner: Vec<Token>, text: String, depth: usize) -> (r: Token)
    requires
        groups_ok(inner@, depth - 1),
    ensures
        r.text == text,
        r.kind == kind_of(raw, inner, text@, depth as int),
        group_ok(r, depth as int),
{
    let kind = match raw {
        RawToken::Ident(s) => TokenKind::Ident(s),
        RawToken::Colon => TokenKind::Colon,
        RawToken::Comma => TokenKind::Comma,
        RawToken::Delim(c) => TokenKind::Delim(c),
        RawToken::Whitespace | RawToken::Comment => TokenKind::Whitespace,
        RawToken::Other | RawToken::Function | RawToken::OpenSquare | RawToken::OpenCurly => TokenKind::Other,
        RawToken::OpenParen => {
            let piece = text.as_str();
            let len = piece.len();
            proof {
                assert(piece.spec_bytes() == encode_utf8(piece@));
            }
            let complete = depth > 1 && len > inner_text_len(&inner);
            proof {
                assert(texts_bytes(inner@, inner.len() as int) >= 0) by {
                    lemma_texts_bytes_nonneg(inner@, inner.len() as int);
                }
            }
            TokenKind::ParenBlock(inner, complete)
        },
    };
    Token { kind, text }
}

proof fn lemma_texts_bytes_nonneg(s: Seq<Token>, n: int)
    ensures
        texts_bytes(s, n) >= 0,
    decreases n,
{
    if n > 0 {
        lemma_texts_bytes_nonneg(s, n - 1);
    }
}

/// Tokens from where `p` stands to the end of its input or block, at most
/// `budget` of them; blocks are read `depth - 1` levels further down.
pub fn tokenize_block(p: &mut cssparser::Parser<'_, '_>, budget: usize, depth: usize) -> (r: Vec<Token>)
    ensures
        r.len() <= budget,
        depth == 0 ==> r.len() == 0,
        groups_ok(r@, depth as int),
{
    let mut out: Vec<Token> = Vec::new();
    if depth == 0 {
        return out;
    }
    let mut n: usize = 0;
    while n < budget
        invariant
            n <= budget,
            out.len() == n,
            depth > 0,
            groups_ok(out@, depth as int),
        decreases budget - n,
    {
        let (raw, inner, text) = match read_token(p, budget, depth - 1) {
            None => break,
            Some(t) => t,
        };
        let t = make_token(raw, inner, text, depth);
        out.push(t);
        n = n + 1;
    }
    out
}

/// Byte length of the text of tokens `0..n` of `s` (each as `str::len` gives it).
pub open spec fn texts_bytes(s: Seq<Token>, n: int) -> int
    decreases n,
{
    if n <= 0 {
        0
    } else {
        texts_bytes(s, n - 1) + (encode_utf8(s[n - 1].text@).len() as usize)
    }
}

/// Byte length of `(` followed by the texts of `inner`, saturating.
fn inner_text_len(inner: &Vec<Token>) -> (r: usize)
    ensures
        r == if 1 + texts_bytes(inner@, inner.len() as int) > usize::MAX {
            usize::MAX as int
        } else {
            1 + texts_bytes(inner@, inner.len() as int)
        },
{
    let mut total: usize = 1;
    let mut i: usize = 0;
    while i < inner.len()
        invariant
            i <= inner.len(),
            total == if 1 + texts_bytes(inner@, i as int) > usize::MAX {
                usize::MAX as int
            } else {
                1 + texts_bytes(inner@, i as int)
            },
            texts_bytes(inner@, i as int) >= 0,
        decreases inner.len() - i,
    {
        let piece = inner[i].text.as_str();
        let l = piece.len();
        assert(piece@ == inner@[i as int].text@);
        assert(l == piece.spec_bytes().len() as usize);
        assert(piece.spec_bytes() == encode_utf8(piece@));
        assert(texts_bytes(inner@, i + 1) == texts_bytes(inner@, i as int) + l);
        total = total.saturating_add(l);
        i = i + 1;
    }
    total
}

/// Splits CSS source text into a token tree; no group is marked complete
/// deeper than `MAX_NESTING` levels, nor without its `)`.
pub fn tokenize(css: &str) -> (r: Vec<Token>)
    ensures
        groups_ok(r@, MAX_NESTING as int),
{
    let mut input = cssparser::ParserInput::new(css);
    let mut parser = cssparser::Parser::new(&mut input);
    tokenize_block(&mut parser, css.len(), MAX_NESTING)
}

/// `c` equals `l` once ASCII upper case is folded to lower case.
pub open spec fn char_matches_ci(c: char, l: char) -> bool {
    c == l || ('A' <= c <= 'Z' && (c as u32) + 32 == (l as u32))
}

/// `s` equals the lower-case word `lit`, ASCII case ignored.
pub open spec fn eq_ci(s: Seq<char>, lit: Seq<char>) -> bool {
    s.len() == lit.len() && forall|i: int| 0 <= i < s.len() ==> char_matches_ci(#[trigger] s[i], lit[i])
}

/// Whether the identifier `s` is the lower-case ASCII word `lit`, ASCII case ignored.
pub fn ident_is(s: &String, lit: &str) -> (r: bool)
    requires
        is_ascii_chars(lit@),
    ensures
        r == eq_ci(s@, lit@),
{
    broadcast use is_ascii_spec_bytes;

    let ss = s.as_str();
    if !ss.is_ascii() {
        proof {
            if eq_ci(s@, lit@) {
                assert forall|i: int| 0 <= i < s@.len() implies '\0' <= #[trigger] s@[i] <= '\u{7f}' by {
                    assert(char_matches_ci(s@[i], lit@[i]));
                    assert('\0' <= lit@[i] <= '\u{7f}');
                }
                assert(is_ascii_chars(ss@));
            }
        }
        return false;
    }
    let a = ss.as_bytes();
    let b = lit.as_bytes();
    proof {
        is_ascii_spec_bytes(ss);
        is_ascii_spec_bytes(lit);
        assert(a@ == Seq::new(s@.len(), |k: int| s@[k] as u8));
        assert(b@ == Seq::new(lit@.len(), |k: int| lit@[k] as u8));
    }
    if a.len() != b.len() {
        return false;
    }
    let mut i: usize = 0;
    while i < a.len()
        invariant
            is_ascii_chars(s@),
            is_ascii_chars(lit@),
            forall|k: int| 0 <= k < a@.len() ==> #[trigger] a@[k] == s@[k] as u8,
            forall|k: int| 0 <= k < b@.len() ==> #[trigger] b@[k] == lit@[k] as u8,
            a@.len() == s@.len(),
            b@.len() == lit@.len(),
            a@.len() == b@.len(),
            i <= a.len(),
            forall|k: int| 0 <= k < i ==> char_matches_ci(#[trigger] s@[k], lit@[k]),
        decreases a.len() - i,
    {
        let x = a[i];
        let y = b[i];
        assert(x == s@[i as int] as u8);
        assert(y == lit@[i as int] as u8);
        if !(x == y || (65 <= x && x <= 90 && x + 32 == y)) {
            return false;
        }
        i = i + 1;
    }
    true
}

/// Index of the first token at or after `pos`, before `end`, that is not whitespace.
pub open spec fn skip_ws(t: Seq<Token>, pos: int, end: int) -> int
    decreases end - pos,
{
    if pos < end && t[pos].kind is Whitespace {
        skip_ws(t, pos + 1, end)
    } else {
        pos
    }
}

/// The source texts of tokens `pos..end`, one after the other.
pub open spec fn texts(t: Seq<Token>, pos: int, end: int) -> Seq<char>
    decreases end - pos,
{
    if pos < end {
        t[pos].text@ + texts(t, pos + 1, end)
    } else {
        Seq::empty()
    }
}

/// Index of the first non-whitespace token at or after `pos`.
pub fn skip_whitespace(t: &Vec<Token>, pos: usize, end: usize) -> (r: usize)
    requires
        pos <= end <= t.len(),
    ensures
        r == skip_ws(t@, pos as int, end as int),
        pos <= r <= end,
    decreases end - pos,
{
    if pos < end {
        if let TokenKind::Whitespace = t[pos].kind {
            return skip_whitespace(t, pos + 1, end);
        }
    }
    pos
}

/// The source text of tokens `pos..end`.
pub fn join_texts(t: &Vec<Token>, pos: usize, end: usize) -> (r: String)
    requires
        pos <= end <= t.len(),
    ensures
        r@ == texts(t@, pos as int, end as int),
{
    let mut out = String::new();
    let mut k: usize = pos;
    while k < end
        invariant
            pos <= k <= end <= t.len(),
            out@ + texts(t@, k as int, end as int) == texts(t@, pos as int, end as int),
        decreases end - k,
    {
        let ghost before = out@;
        out.append(t[k].text.as_str());
        assert(before + texts(t@, k as int, end as int) == out@ + texts(t@, k + 1, end as int));
        k = k + 1;
    }
    assert(out@ + texts(t@, k as int, end as int) == out@);
    out
}

} // verus!
