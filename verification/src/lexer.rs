//! The tokenizer for chain-specification text. `spec_tokenize` is the
//! mathematical definition of the token stream of a text; `tokenize_from`
//! computes it.

use vstd::prelude::*;
use vstd::string::StrSliceExecFns;
use vstd::string::StringExecFns;

verus! {

/// The kind of a token of the chain-specification grammar.
#[derive(Debug, Clone, PartialEq, Eq)]
pub enum TokenKind {
    LParen,
    RParen,
    LBracket,
    RBracket,
    Comma,
    Colon,
    FatArrow,
    Ident(String),
}

/// A token together with the character position at which it starts.
#[derive(Debug, Clone, PartialEq, Eq)]
pub struct Token {
    pub kind: TokenKind,
    pub pos: usize,
}

/// Mathematical image of a [`TokenKind`].
pub enum TokKindView {
    LParen,
    RParen,
    LBracket,
    RBracket,
    Comma,
    Colon,
    FatArrow,
    Ident(Seq<char>),
}

/// Mathematical image of a [`Token`].
pub struct TokView {
    pub kind: TokKindView,
    pub pos: int,
}

impl View for TokenKind {
    type V = TokKindView;

    open spec fn view(&self) -> TokKindView {
        match self {
            TokenKind::LParen => TokKindView::LParen,
            TokenKind::RParen => TokKindView::RParen,
            TokenKind::LBracket => TokKindView::LBracket,
            TokenKind::RBracket => TokKindView::RBracket,
            TokenKind::Comma => TokKindView::Comma,
            TokenKind::Colon => TokKindView::Colon,
            TokenKind::FatArrow => TokKindView::FatArrow,
            TokenKind::Ident(s) => TokKindView::Ident(s@),
        }
    }
}

impl View for Token {
    type V = TokView;

    open spec fn view(&self) -> TokView {
        TokView { kind: self.kind@, pos: self.pos as int }
    }
}

/// The views of a sequence of tokens.
pub open spec fn toks_view(v: Seq<Token>) -> Seq<TokView> {
    v.map_values(|t: Token| t@)
}

pub open spec fn is_space(c: char) -> bool {
    c == ' ' || c == '\n' || c == '\t' || c == '\r'
}

pub open spec fn is_ident_start(c: char) -> bool {
    ('a' as u32 <= c as u32 && c as u32 <= 'z' as u32) || ('A' as u32 <= c as u32 && c as u32
        <= 'Z' as u32) || c == '_'
}

pub open spec fn is_ident_char(c: char) -> bool {
    is_ident_start(c) || ('0' as u32 <= c as u32 && c as u32 <= '9' as u32)
}

/// The first position at or after `i` whose character does not continue an
/// identifier (or the end of the text).
pub open spec fn ident_end(s: Seq<char>, i: int) -> int
    decreases s.len() - i,
{
    if i < s.len() && is_ident_char(s[i]) {
        ident_end(s, i + 1)
    } else {
        i
    }
}

pub proof fn lemma_ident_end(s: Seq<char>, i: int)
    requires
        i <= s.len(),
    ensures
        i <= ident_end(s, i) <= s.len(),
    decreases s.len() - i,
{
    if i < s.len() && is_ident_char(s[i]) {
        lemma_ident_end(s, i + 1);
    }
}

/// Prepends a token to a tokenizing result.
pub open spec fn with_front(t: TokView, rest: Result<Seq<TokView>, int>) -> Result<
    Seq<TokView>,
    int,
> {
    match rest {
        Ok(ts) => Ok(seq![t] + ts),
        Err(p) => Err(p),
    }
}

/// The token stream of `s` from position `i` on, or the position of the first
/// character at which no token starts. Whitespace separates tokens and is
/// otherwise ignored.
pub open spec fn spec_tokenize(s: Seq<char>, i: int) -> Result<Seq<TokView>, int>
    decreases s.len() - i,
    via spec_tokenize_decreases
{
    if i >= s.len() {
        Ok(Seq::empty())
    } else if is_space(s[i]) {
        spec_tokenize(s, i + 1)
    } else if s[i] == '(' {
        with_front(TokView { kind: TokKindView::LParen, pos: i }, spec_tokenize(s, i + 1))
    } else if s[i] == ')' {
        with_front(TokView { kind: TokKindView::RParen, pos: i }, spec_tokenize(s, i + 1))
    } else if s[i] == '[' {
        with_front(TokView { kind: TokKindView::LBracket, pos: i }, spec_tokenize(s, i + 1))
    } else if s[i] == ']' {
        with_front(TokView { kind: TokKindView::RBracket, pos: i }, spec_tokenize(s, i + 1))
    } else if s[i] == ',' {
        with_front(TokView { kind: TokKindView::Comma, pos: i }, spec_tokenize(s, i + 1))
    } else if s[i] == ':' {
        with_front(TokView { kind: TokKindView::Colon, pos: i }, spec_tokenize(s, i + 1))
    } else if s[i] == '=' {
        if i + 1 < s.len() && s[i + 1] == '>' {
            with_front(TokView { kind: TokKindView::FatArrow, pos: i }, spec_tokenize(s, i + 2))
        } else {
            Err(i)
        }
    } else if is_ident_start(s[i]) {
        with_front(
            TokView { kind: TokKindView::Ident(s.subrange(i, ident_end(s, i))), pos: i },
            spec_tokenize(s, ident_end(s, i)),
        )
    } else {
        Err(i)
    }
}

#[via_fn]
proof fn spec_tokenize_decreases(s: Seq<char>, i: int) {
    if i < s.len() {
        lemma_ident_end(s, i + 1);
    }
}

pub proof fn lemma_toks_view_insert(v: Seq<Token>, t: Token)
    ensures
        toks_view(v.insert(0, t)) == seq![t@] + toks_view(v),
{
    assert(toks_view(v.insert(0, t)) =~= seq![t@] + toks_view(v));
}

fn space_char(c: char) -> (r: bool)
    ensures
        r == is_space(c),
{
    c == ' ' || c == '\n' || c == '\t' || c == '\r'
}

fn ident_start_char(c: char) -> (r: bool)
    ensures
        r == is_ident_start(c),
{
    ('a' as u32 <= c as u32 && c as u32 <= 'z' as u32) || ('A' as u32 <= c as u32 && c as u32
        <= 'Z' as u32) || c == '_'
}

fn ident_char(c: char) -> (r: bool)
    ensures
        r == is_ident_char(c),
{
    ident_start_char(c) || ('0' as u32 <= c as u32 && c as u32 <= '9' as u32)
}

/// Finds the end of the identifier that starts at `i`.
fn scan_ident_end(s: &str, len: usize, i: usize) -> (j: usize)
    requires
        len == s@.len(),
        i <= len,
    ensures
        j as int == ident_end(s@, i as int),
        i <= j <= len,
    decreases len - i,
{
    if i < len {
        let c = s.get_char(i);
        if ident_char(c) {
            return scan_ident_end(s, len, i + 1);
        }
    }
    i
}

/// Tokenizes `s` from position `i` on; an error is the position of the first
/// character at which no token starts.
pub fn tokenize_from(s: &str, len: usize, i: usize) -> (r: Result<Vec<Token>, usize>)
    requires
        len == s@.len(),
        i <= len,
    ensures
        (match r {
            Ok(v) => spec_tokenize(s@, i as int) == Ok::<Seq<TokView>, int>(toks_view(v@)),
            Err(p) => spec_tokenize(s@, i as int) == Err::<Seq<TokView>, int>(p as int),
        }),
    decreases len - i,
{
    if i >= len {
        let v: Vec<Token> = Vec::new();
        proof {
            assert(toks_view(v@) =~= Seq::<TokView>::empty());
        }
        return Ok(v);
    }
    let c = s.get_char(i);
    if space_char(c) {
        return tokenize_from(s, len, i + 1);
    }
    let (kind, next): (TokenKind, usize) = if c == '(' {
        (TokenKind::LParen, i + 1)
    } else if c == ')' {
        (TokenKind::RParen, i + 1)
    } else if c == '[' {
        (TokenKind::LBracket, i + 1)
    } else if c == ']' {
        (TokenKind::RBracket, i + 1)
    } else if c == ',' {
        (TokenKind::Comma, i + 1)
    } else if c == ':' {
        (TokenKind::Colon, i + 1)
    } else if c == '=' {
        if i + 1 < len && s.get_char(i + 1) == '>' {
            (TokenKind::FatArrow, i + 2)
        } else {
            return Err(i);
        }
    } else if ident_start_char(c) {
        proof {
            lemma_ident_end(s@, i as int + 1);
        }
        let j = scan_ident_end(s, len, i);
        let name = s.substring_char(i, j);
        (TokenKind::Ident(String::from_str(name)), j)
    } else {
        return Err(i);
    };
    match tokenize_from(s, len, next) {
        Ok(mut v) => {
            let t = Token { kind, pos: i };
            proof {
                lemma_toks_view_insert(v@, t);
            }
            v.insert(0, t);
            Ok(v)
        },
        Err(p) => Err(p),
    }
}

} // verus!
