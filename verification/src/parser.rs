//! Recursive-descent parser: tokens to [`File`].
//!
//! The grammar covers the Haxe subset Hatchet supports. Input is assumed to be valid
//! Haxe, so the parser favours clear structure over error recovery: on anything it does
//! not understand it stops with a [`ParseError`] carrying a line number.

use vstd::prelude::*;

use crate::ast::{Expr, File};
use crate::lexer::{lex, lex_spec};
use crate::model::{ExprV, FileV};
use crate::parser::cursor::{Ctx, Parser, Pr, St, at_sym_spec, eat_kw_spec, eat_sym_spec, expect_ident_spec, expect_sym_spec};
use crate::parser::decls::{parse_file_spec, parse_package_spec};
use crate::parser::expr::parse_expr_spec;
use crate::parser::pp::Defines;
use crate::parser::types::{parse_dots_spec, parse_dotted_spec};
use crate::text::{cat4, chars_of, dec, dec_text, text_of, texts};
use crate::token::{Kw, Sym};

pub mod binary;
pub mod block;
pub mod comprehension;
pub mod control;
pub mod cursor;
pub mod decls;
pub mod expr;
pub mod lambda;
pub mod literal;
pub mod postfix;
pub mod pp;
pub mod primary;
pub mod stmt;
pub mod switch;
pub mod types;
pub mod vars;

pub use crate::parser::pp::set_defines;

verus! {

broadcast use {crate::model::group_model, crate::token::group_token, crate::text::group_texts};

/// Where and why parsing stopped.
#[derive(Debug, PartialEq, Eq)]
pub struct ParseError {
    pub message: String,
    pub line: usize,
}

/// Mathematical model of [`ParseError`].
pub struct ParseErrorV {
    pub message: Seq<char>,
    pub line: int,
}

impl ParseError {
    /// The value with every string and list seen as a sequence.
    pub open spec fn v(self) -> ParseErrorV
    {
        ParseErrorV {
            message: self.message@,
            line: self.line as int,
        }
    }
}

impl ParseError {
    /// The error as one line of text.
    pub fn describe(&self) -> (r: String)
        ensures
            r@ == "parse error (line "@ + dec(self.line as nat) + "): "@ + self.message@,
    {
        cat4("parse error (line ", &dec_text(self.line), "): ", &self.message)
    }
}

/// The text without a leading byte-order mark.
pub open spec fn without_bom(src: Seq<char>) -> Seq<char> {
    if src.len() > 0 && src[0] == '\u{FEFF}' {
        src.subrange(1, src.len() as int)
    } else {
        src
    }
}

/// The start of a parse of `toks`.
pub open spec fn start() -> St {
    St { pos: 0, gt: 0, extra: Seq::empty() }
}

/// What a whole source file parses to, with the given flags defined.
pub open spec fn parse_spec(src: Seq<char>, defs: Set<Seq<char>>) -> Result<FileV, ParseErrorV> {
    let src = without_bom(src);
    match lex_spec(src) {
        Err(e) => Err(ParseErrorV { message: e.message, line: e.line }),
        Ok(toks) => match parse_file_spec(Ctx { toks, src, defs }, start()) {
            Pr::Done(file, _) => Ok(file),
            Pr::Fail(e) => Err(e),
        },
    }
}

/// The package that a source starts with; none where it starts with none, or where there is
/// something wrong with it up to there.
pub open spec fn package_parts_spec(src: Seq<char>) -> Seq<Seq<char>> {
    let src = without_bom(src);
    match lex_spec(src) {
        Err(e) => Seq::empty(),
        Ok(toks) => match parse_package_spec(Ctx { toks, src, defs: Set::empty() }, start()) {
            Pr::Done(package, _) => package,
            Pr::Fail(e) => Seq::empty(),
        },
    }
}

/// What the expression at the start of a text parses to.
pub open spec fn parse_expression_spec(src: Seq<char>) -> Result<ExprV, ParseErrorV> {
    match lex_spec(src) {
        Err(e) => Err(ParseErrorV { message: e.message, line: e.line }),
        Ok(toks) => match parse_expr_spec(Ctx { toks, src, defs: Set::empty() }, start()) {
            Pr::Done(e, _) => Ok(e),
            Pr::Fail(e) => Err(e),
        },
    }
}

/// Parse a full Haxe source file with no flag defined.
pub fn parse(src: &str) -> (r: Result<File, ParseError>)
    ensures
        (match r { Ok(f) => Ok(f.v()), Err(e) => Err(e.v()) }) == parse_spec(src@, Set::empty()),
{
    parse_with(src, &Defines::none())
}

proof fn dots_need_no_flags(c: Ctx, d: Ctx, st: St, parts: Seq<Seq<char>>)
    requires
        c.toks == d.toks,
    ensures
        parse_dots_spec(c, st, parts) == parse_dots_spec(d, st, parts),
    decreases c.toks.len() - st.pos,
{
    reveal(parse_dots_spec);
    let (after, dot) = eat_sym_spec(c, st, Sym::Dot);
    if dot {
        match expect_ident_spec(c, after) {
            Pr::Done(part, next) => {
                if st.pos < next.pos < c.toks.len() {
                    dots_need_no_flags(c, d, next, parts.push(part));
                }
            },
            Pr::Fail(_) => {},
        }
    }
}

proof fn package_needs_no_flags(c: Ctx, d: Ctx, st: St)
    requires
        c.toks == d.toks,
    ensures
        parse_package_spec(c, st) == parse_package_spec(d, st),
{
    let (after, _) = eat_kw_spec(c, st, Kw::Package);
    assert(eat_kw_spec(d, st, Kw::Package) == eat_kw_spec(c, st, Kw::Package));
    assert(parse_dotted_spec(c, after) == parse_dotted_spec(d, after)) by {
        reveal(parse_dotted_spec);
        assert(expect_ident_spec(c, after) == expect_ident_spec(d, after));
        match expect_ident_spec(c, after) {
            Pr::Done(first, next) => {
                dots_need_no_flags(c, d, next, Seq::<Seq<char>>::empty().push(first));
            },
            Pr::Fail(_) => {},
        }
    }
    assert forall|s: St| #[trigger] expect_sym_spec(c, s, Sym::Semi) == expect_sym_spec(d, s, Sym::Semi) by {
        assert(at_sym_spec(c, s, Sym::Semi) == at_sym_spec(d, s, Sym::Semi));
    }
    assert(at_sym_spec(c, after, Sym::Semi) == at_sym_spec(d, after, Sym::Semi));
}

/// A source without the byte-order mark that some editors put in front.
pub fn without_mark(src: &str) -> (r: String)
    ensures
        r@ == without_bom(src@),
{
    let all = chars_of(src);
    if all.len() > 0 && all[0] == '\u{FEFF}' {
        text_of(&all, 1, all.len())
    } else {
        src.to_owned()
    }
}

/// The package that a source starts with; none where it starts with none, or where there is
/// something wrong with it up to there.
pub fn package_parts(src: &str) -> (r: Vec<String>)
    ensures
        texts(r@) == package_parts_spec(src@),
{
    let text = without_mark(src);
    match lex(&text) {
        Err(_) => {
            let none: Vec<String> = Vec::new();
            assert(texts(none@) =~= Seq::empty());
            none
        },
        Ok(toks) => {
            let mut p = Parser::new(toks, chars_of(&text), &Defines::none());
            match p.parse_package() {
                Ok(package) => package,
                Err(_) => {
                    let none: Vec<String> = Vec::new();
                    assert(texts(none@) =~= Seq::empty());
                    none
                },
            }
        },
    }
}

/// Parse a full Haxe source file against the flags of `defs`.
pub fn parse_with(src: &str, defs: &Defines) -> (r: Result<File, ParseError>)
    ensures
        (match r { Ok(f) => Ok(f.v()), Err(e) => Err(e.v()) }) == parse_spec(src@, defs@),
        r matches Ok(f) ==> f.v().package == package_parts_spec(src@),
{
    let text = without_mark(src);
    match lex(&text) {
        Err(e) => Err(ParseError { message: e.message, line: e.line }),
        Ok(toks) => {
            let mut p = Parser::new(toks, chars_of(&text), defs);
            proof {
                package_needs_no_flags(p.cx(), Ctx { defs: Set::empty(), ..p.cx() }, start());
            }
            p.parse_file()
        },
    }
}

/// Parse a single expression (used for `${...}` string-interpolation segments).
pub fn parse_expression(src: &str) -> (r: Result<Expr, ParseError>)
    ensures
        (match r { Ok(e) => Ok(e.v()), Err(e) => Err(e.v()) }) == parse_expression_spec(src@),
{
    match lex(src) {
        Err(e) => Err(ParseError { message: e.message, line: e.line }),
        Ok(toks) => {
            let mut p = Parser::new(toks, chars_of(src), &Defines::none());
            p.parse_expr()
        },
    }
}

} // verus!
