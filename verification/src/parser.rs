//! Recursive-descent parser for the chain-specification grammar:
//!
//! ```text
//! Program  := Chaining*
//! Chaining := "(" Ident "," Ident ")" "=>" Ident ":" "[" Step* "]" ","?
//! Step     := "(" Ident "," Ident "," Ident ")" ","?
//! ```
//!
//! The trailing comma after a `Step` or a `Chaining` is optional only if what
//! follows is not an opening parenthesis; if the comma is absent and the next
//! token is `(`, parsing fails with a missing-separator error. The spec
//! functions define the grammar; the executable functions compute them.

use vstd::prelude::*;
use vstd::string::StrSliceExecFns;
use vstd::string::StringExecFns;
use crate::ast::{
    SyntaxError,
    ErrView,
    ValidatorStep,
    StepView,
    ChainSpec,
    ChainView,
    Program,
    steps_view,
    chains_view,
    lemma_steps_view_insert,
    lemma_chains_view_insert,
};
use crate::lexer::{Token, TokenKind, TokView, TokKindView, toks_view, spec_tokenize, tokenize_from};

verus! {

/// The source position of token `i`, or `eof` past the last token.
pub open spec fn err_pos(toks: Seq<TokView>, eof: int, i: int) -> int {
    if 0 <= i < toks.len() {
        toks[i].pos
    } else {
        eof
    }
}

/// The error reported when token `i` is not what the grammar expects there.
pub open spec fn expect_err(toks: Seq<TokView>, eof: int, i: int, what: Seq<char>) -> ErrView {
    ErrView { pos: err_pos(toks, eof, i), expected: what }
}

/// Whether token `i` exists and is an identifier.
pub open spec fn spec_ident_at(toks: Seq<TokView>, i: int) -> bool {
    0 <= i < toks.len() && toks[i].kind is Ident
}

/// The text of the identifier token at `i`.
pub open spec fn ident_text(toks: Seq<TokView>, i: int) -> Seq<char> {
    toks[i].kind->Ident_0
}

/// One parsed step: the tokens `( ident , ident , ident )` starting at `i`,
/// then an optional comma — mandatory if an opening parenthesis follows.
pub open spec fn spec_parse_step(toks: Seq<TokView>, eof: int, i: int) -> Result<
    (StepView, int),
    ErrView,
> {
    if !(0 <= i < toks.len() && toks[i].kind is LParen) {
        Err(expect_err(toks, eof, i, "("@))
    } else if !spec_ident_at(toks, i + 1) {
        Err(expect_err(toks, eof, i + 1, "identifier"@))
    } else if !(i + 2 < toks.len() && toks[i + 2].kind is Comma) {
        Err(expect_err(toks, eof, i + 2, ","@))
    } else if !spec_ident_at(toks, i + 3) {
        Err(expect_err(toks, eof, i + 3, "identifier"@))
    } else if !(i + 4 < toks.len() && toks[i + 4].kind is Comma) {
        Err(expect_err(toks, eof, i + 4, ","@))
    } else if !spec_ident_at(toks, i + 5) {
        Err(expect_err(toks, eof, i + 5, "identifier"@))
    } else if !(i + 6 < toks.len() && toks[i + 6].kind is RParen) {
        Err(expect_err(toks, eof, i + 6, ")"@))
    } else {
        let st = StepView {
            extractor: ident_text(toks, i + 1),
            combinator: ident_text(toks, i + 3),
            validator: ident_text(toks, i + 5),
        };
        if i + 7 < toks.len() && toks[i + 7].kind is Comma {
            Ok((st, i + 8))
        } else if i + 7 < toks.len() && toks[i + 7].kind is LParen {
            Err(expect_err(toks, eof, i + 7, ","@))
        } else {
            Ok((st, i + 7))
        }
    }
}

pub proof fn lemma_parse_step_bounds(toks: Seq<TokView>, eof: int, i: int)
    ensures
        spec_parse_step(toks, eof, i) is Ok ==> i < spec_parse_step(toks, eof, i)->Ok_0.1
            <= toks.len(),
{
}

/// The steps between `[` and `]`, ending just past the closing bracket.
pub open spec fn spec_parse_steps(toks: Seq<TokView>, eof: int, i: int) -> Result<
    (Seq<StepView>, int),
    ErrView,
>
    decreases toks.len() - i,
    via spec_parse_steps_decreases
{
    if !(0 <= i < toks.len()) {
        Err(expect_err(toks, eof, i, "( or ]"@))
    } else if toks[i].kind is RBracket {
        Ok((Seq::empty(), i + 1))
    } else {
        match spec_parse_step(toks, eof, i) {
            Err(e) => Err(e),
            Ok((st, j)) => match spec_parse_steps(toks, eof, j) {
                Err(e) => Err(e),
                Ok((rest, k)) => Ok((seq![st] + rest, k)),
            },
        }
    }
}

#[via_fn]
proof fn spec_parse_steps_decreases(toks: Seq<TokView>, eof: int, i: int) {
    lemma_parse_step_bounds(toks, eof, i);
}

pub proof fn lemma_parse_steps_bounds(toks: Seq<TokView>, eof: int, i: int)
    ensures
        spec_parse_steps(toks, eof, i) is Ok ==> i < spec_parse_steps(toks, eof, i)->Ok_0.1
            <= toks.len(),
    decreases toks.len() - i,
{
    if 0 <= i < toks.len() && !(toks[i].kind is RBracket) {
        lemma_parse_step_bounds(toks, eof, i);
        if spec_parse_step(toks, eof, i) is Ok {
            lemma_parse_steps_bounds(toks, eof, spec_parse_step(toks, eof, i)->Ok_0.1);
        }
    }
}

/// One parsed chain: header, bracketed steps, then an optional comma —
/// mandatory if an opening parenthesis follows.
pub open spec fn spec_parse_chain(toks: Seq<TokView>, eof: int, i: int) -> Result<
    (ChainView, int),
    ErrView,
> {
    if !(0 <= i < toks.len() && toks[i].kind is LParen) {
        Err(expect_err(toks, eof, i, "("@))
    } else if !spec_ident_at(toks, i + 1) {
        Err(expect_err(toks, eof, i + 1, "identifier"@))
    } else if !(i + 2 < toks.len() && toks[i + 2].kind is Comma) {
        Err(expect_err(toks, eof, i + 2, ","@))
    } else if !spec_ident_at(toks, i + 3) {
        Err(expect_err(toks, eof, i + 3, "identifier"@))
    } else if !(i + 4 < toks.len() && toks[i + 4].kind is RParen) {
        Err(expect_err(toks, eof, i + 4, ")"@))
    } else if !(i + 5 < toks.len() && toks[i + 5].kind is FatArrow) {
        Err(expect_err(toks, eof, i + 5, "=>"@))
    } else if !spec_ident_at(toks, i + 6) {
        Err(expect_err(toks, eof, i + 6, "identifier"@))
    } else if !(i + 7 < toks.len() && toks[i + 7].kind is Colon) {
        Err(expect_err(toks, eof, i + 7, ":"@))
    } else if !(i + 8 < toks.len() && toks[i + 8].kind is LBracket) {
        Err(expect_err(toks, eof, i + 8, "["@))
    } else {
        match spec_parse_steps(toks, eof, i + 9) {
            Err(e) => Err(e),
            Ok((steps, j)) => {
                let c = ChainView {
                    subject_type: ident_text(toks, i + 1),
                    error_type: ident_text(toks, i + 3),
                    error_pos: toks[i + 3].pos,
                    name: ident_text(toks, i + 6),
                    steps: steps,
                };
                if j < toks.len() && toks[j].kind is Comma {
                    Ok((c, j + 1))
                } else if j < toks.len() && toks[j].kind is LParen {
                    Err(expect_err(toks, eof, j, ","@))
                } else {
                    Ok((c, j))
                }
            },
        }
    }
}

pub proof fn lemma_parse_chain_bounds(toks: Seq<TokView>, eof: int, i: int)
    ensures
        spec_parse_chain(toks, eof, i) is Ok ==> i < spec_parse_chain(toks, eof, i)->Ok_0.1
            <= toks.len(),
{
    lemma_parse_steps_bounds(toks, eof, i + 9);
}

/// A whole program: chains until the end of the token stream.
pub open spec fn spec_parse_program(toks: Seq<TokView>, eof: int, i: int) -> Result<
    Seq<ChainView>,
    ErrView,
>
    decreases toks.len() - i,
    via spec_parse_program_decreases
{
    if i >= toks.len() {
        Ok(Seq::empty())
    } else {
        match spec_parse_chain(toks, eof, i) {
            Err(e) => Err(e),
            Ok((c, j)) => match spec_parse_program(toks, eof, j) {
                Err(e) => Err(e),
                Ok(rest) => Ok(seq![c] + rest),
            },
        }
    }
}

#[via_fn]
proof fn spec_parse_program_decreases(toks: Seq<TokView>, eof: int, i: int) {
    lemma_parse_chain_bounds(toks, eof, i);
}

/// Parsing a text: tokenize, then parse the token stream. All-or-nothing — a
/// failure anywhere yields a `SyntaxError` and no partial program.
pub open spec fn spec_parse(s: Seq<char>) -> Result<Seq<ChainView>, ErrView> {
    match spec_tokenize(s, 0) {
        Err(p) => Err(ErrView { pos: p, expected: "a token"@ }),
        Ok(toks) => spec_parse_program(toks, s.len() as int, 0),
    }
}

fn err_at(toks: &Vec<Token>, eof: usize, i: usize, what: &str) -> (e: SyntaxError)
    ensures
        e@ == expect_err(toks_view(toks@), eof as int, i as int, what@),
{
    let position = if i < toks.len() {
        toks[i].pos
    } else {
        eof
    };
    SyntaxError { position, expected: String::from_str(what) }
}

fn expect_ident(toks: &Vec<Token>, eof: usize, i: usize) -> (r: Result<String, SyntaxError>)
    ensures
        (match r {
            Ok(s) => spec_ident_at(toks_view(toks@), i as int) && s@ == ident_text(
                toks_view(toks@),
                i as int,
            ),
            Err(e) => !spec_ident_at(toks_view(toks@), i as int) && e@ == expect_err(
                toks_view(toks@),
                eof as int,
                i as int,
                "identifier"@,
            ),
        }),
{
    if i < toks.len() {
        match &toks[i].kind {
            TokenKind::Ident(s) => {
                return Ok(s.clone());
            },
            _ => {},
        }
    }
    Err(err_at(toks, eof, i, "identifier"))
}

fn is_lparen_at(toks: &Vec<Token>, i: usize) -> (r: bool)
    ensures
        r == (i < toks@.len() && toks_view(toks@)[i as int].kind is LParen),
{
    i < toks.len() && (matches!(&toks[i].kind, TokenKind::LParen))
}

fn is_rparen_at(toks: &Vec<Token>, i: usize) -> (r: bool)
    ensures
        r == (i < toks@.len() && toks_view(toks@)[i as int].kind is RParen),
{
    i < toks.len() && (matches!(&toks[i].kind, TokenKind::RParen))
}

fn is_lbracket_at(toks: &Vec<Token>, i: usize) -> (r: bool)
    ensures
        r == (i < toks@.len() && toks_view(toks@)[i as int].kind is LBracket),
{
    i < toks.len() && (matches!(&toks[i].kind, TokenKind::LBracket))
}

fn is_rbracket_at(toks: &Vec<Token>, i: usize) -> (r: bool)
    ensures
        r == (i < toks@.len() && toks_view(toks@)[i as int].kind is RBracket),
{
    i < toks.len() && (matches!(&toks[i].kind, TokenKind::RBracket))
}

fn is_comma_at(toks: &Vec<Token>, i: usize) -> (r: bool)
    ensures
        r == (i < toks@.len() && toks_view(toks@)[i as int].kind is Comma),
{
    i < toks.len() && (matches!(&toks[i].kind, TokenKind::Comma))
}

fn is_colon_at(toks: &Vec<Token>, i: usize) -> (r: bool)
    ensures
        r == (i < toks@.len() && toks_view(toks@)[i as int].kind is Colon),
{
    i < toks.len() && (matches!(&toks[i].kind, TokenKind::Colon))
}

fn is_fatarrow_at(toks: &Vec<Token>, i: usize) -> (r: bool)
    ensures
        r == (i < toks@.len() && toks_view(toks@)[i as int].kind is FatArrow),
{
    i < toks.len() && (matches!(&toks[i].kind, TokenKind::FatArrow))
}

fn parse_step(toks: &Vec<Token>, eof: usize, i: usize) -> (r: Result<
    (ValidatorStep, usize),
    SyntaxError,
>)
    requires
        i <= toks@.len(),
    ensures
        (match r {
            Ok((st, j)) => spec_parse_step(toks_view(toks@), eof as int, i as int) == Ok::<
                (StepView, int),
                ErrView,
            >((st@, j as int)) && i < j <= toks@.len(),
            Err(e) => spec_parse_step(toks_view(toks@), eof as int, i as int) == Err::<
                (StepView, int),
                ErrView,
            >(e@),
        }),
{
    // the vector's length bounds the token index sums below
    let _n = toks.len();
    if !is_lparen_at(toks, i) {
        return Err(err_at(toks, eof, i, "("));
    }
    let extractor = match expect_ident(toks, eof, i + 1) {
        Ok(s) => s,
        Err(e) => {
            return Err(e);
        },
    };
    if !is_comma_at(toks, i + 2) {
        return Err(err_at(toks, eof, i + 2, ","));
    }
    let combinator = match expect_ident(toks, eof, i + 3) {
        Ok(s) => s,
        Err(e) => {
            return Err(e);
        },
    };
    if !is_comma_at(toks, i + 4) {
        return Err(err_at(toks, eof, i + 4, ","));
    }
    let validator = match expect_ident(toks, eof, i + 5) {
        Ok(s) => s,
        Err(e) => {
            return Err(e);
        },
    };
    if !is_rparen_at(toks, i + 6) {
        return Err(err_at(toks, eof, i + 6, ")"));
    }
    let st = ValidatorStep { extractor, combinator, validator };
    if is_comma_at(toks, i + 7) {
        Ok((st, i + 8))
    } else if is_lparen_at(toks, i + 7) {
        Err(err_at(toks, eof, i + 7, ","))
    } else {
        Ok((st, i + 7))
    }
}

fn parse_steps(toks: &Vec<Token>, eof: usize, i: usize) -> (r: Result<
    (Vec<ValidatorStep>, usize),
    SyntaxError,
>)
    requires
        i <= toks@.len(),
    ensures
        (match r {
            Ok((sts, j)) => spec_parse_steps(toks_view(toks@), eof as int, i as int) == Ok::<
                (Seq<StepView>, int),
                ErrView,
            >((steps_view(sts@), j as int)) && i < j <= toks@.len(),
            Err(e) => spec_parse_steps(toks_view(toks@), eof as int, i as int) == Err::<
                (Seq<StepView>, int),
                ErrView,
            >(e@),
        }),
    decreases toks@.len() - i,
{
    if i >= toks.len() {
        return Err(err_at(toks, eof, i, "( or ]"));
    }
    if is_rbracket_at(toks, i) {
        let sts: Vec<ValidatorStep> = Vec::new();
        proof {
            assert(steps_view(sts@) =~= Seq::<StepView>::empty());
        }
        return Ok((sts, i + 1));
    }
    match parse_step(toks, eof, i) {
        Err(e) => Err(e),
        Ok((st, j)) => match parse_steps(toks, eof, j) {
            Err(e) => Err(e),
            Ok((mut sts, k)) => {
                proof {
                    lemma_steps_view_insert(sts@, st);
                }
                sts.insert(0, st);
                Ok((sts, k))
            },
        },
    }
}

fn parse_chain(toks: &Vec<Token>, eof: usize, i: usize) -> (r: Result<
    (ChainSpec, usize),
    SyntaxError,
>)
    requires
        i <= toks@.len(),
    ensures
        (match r {
            Ok((c, j)) => spec_parse_chain(toks_view(toks@), eof as int, i as int) == Ok::<
                (ChainView, int),
                ErrView,
            >((c@, j as int)) && i < j <= toks@.len(),
            Err(e) => spec_parse_chain(toks_view(toks@), eof as int, i as int) == Err::<
                (ChainView, int),
                ErrView,
            >(e@),
        }),
{
    // the vector's length bounds the token index sums below
    let _n = toks.len();
    if !is_lparen_at(toks, i) {
        return Err(err_at(toks, eof, i, "("));
    }
    let subject_type = match expect_ident(toks, eof, i + 1) {
        Ok(s) => s,
        Err(e) => {
            return Err(e);
        },
    };
    if !is_comma_at(toks, i + 2) {
        return Err(err_at(toks, eof, i + 2, ","));
    }
    let error_type = match expect_ident(toks, eof, i + 3) {
        Ok(s) => s,
        Err(e) => {
            return Err(e);
        },
    };
    let error_pos = toks[i + 3].pos;
    if !is_rparen_at(toks, i + 4) {
        return Err(err_at(toks, eof, i + 4, ")"));
    }
    if !is_fatarrow_at(toks, i + 5) {
        return Err(err_at(toks, eof, i + 5, "=>"));
    }
    let name = match expect_ident(toks, eof, i + 6) {
        Ok(s) => s,
        Err(e) => {
            return Err(e);
        },
    };
    if !is_colon_at(toks, i + 7) {
        return Err(err_at(toks, eof, i + 7, ":"));
    }
    if !is_lbracket_at(toks, i + 8) {
        return Err(err_at(toks, eof, i + 8, "["));
    }
    match parse_steps(toks, eof, i + 9) {
        Err(e) => Err(e),
        Ok((steps, j)) => {
            let c = ChainSpec { subject_type, error_type, error_pos, name, steps };
            if is_comma_at(toks, j) {
                Ok((c, j + 1))
            } else if is_lparen_at(toks, j) {
                Err(err_at(toks, eof, j, ","))
            } else {
                Ok((c, j))
            }
        },
    }
}

fn parse_program_from(toks: &Vec<Token>, eof: usize, i: usize) -> (r: Result<
    Vec<ChainSpec>,
    SyntaxError,
>)
    requires
        i <= toks@.len(),
    ensures
        (match r {
            Ok(cs) => spec_parse_program(toks_view(toks@), eof as int, i as int) == Ok::<
                Seq<ChainView>,
                ErrView,
            >(chains_view(cs@)),
            Err(e) => spec_parse_program(toks_view(toks@), eof as int, i as int) == Err::<
                Seq<ChainView>,
                ErrView,
            >(e@),
        }),
    decreases toks@.len() - i,
{
    if i >= toks.len() {
        let cs: Vec<ChainSpec> = Vec::new();
        proof {
            assert(chains_view(cs@) =~= Seq::<ChainView>::empty());
        }
        return Ok(cs);
    }
    match parse_chain(toks, eof, i) {
        Err(e) => Err(e),
        Ok((c, j)) => match parse_program_from(toks, eof, j) {
            Err(e) => Err(e),
            Ok(mut cs) => {
                proof {
                    lemma_chains_view_insert(cs@, c);
                }
                cs.insert(0, c);
                Ok(cs)
            },
        },
    }
}

/// Parses a chain-specification text into a [`Program`], or fails with the
/// position and expectation of the first offending character or token.
pub fn parse(source: &str) -> (r: Result<Program, SyntaxError>)
    ensures
        (match r {
            Ok(p) => spec_parse(source@) == Ok::<Seq<ChainView>, ErrView>(p@),
            Err(e) => spec_parse(source@) == Err::<Seq<ChainView>, ErrView>(e@),
        }),
{
    let len = source.unicode_len();
    match tokenize_from(source, len, 0) {
        Err(p) => Err(SyntaxError { position: p, expected: String::from_str("a token") }),
        Ok(toks) => match parse_program_from(&toks, len, 0) {
            Err(e) => Err(e),
            Ok(chains) => Ok(Program { chains }),
        },
    }
}

} // verus!
