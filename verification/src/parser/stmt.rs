//! Statements, told apart by their first token.

use vstd::prelude::*;

use crate::ast::Stmt;
use crate::lexer::{at, at_spec, cut, cut_spec, is_alpha, is_alpha_spec, is_digit, is_digit_spec, word_end, word_end_spec};
use crate::model::StmtV;
use crate::parser::{ParseError, ParseErrorV};
use crate::parser::block::parse_block_spec;
use crate::parser::control::{parse_do_spec, parse_for_spec, parse_if_spec, parse_return_spec, parse_try_spec, parse_while_spec};
use crate::parser::cursor::{Ctx, PResult, Parser, Pr, St, at_kw_spec, bump_spec, eat_sym_spec, err_spec, line_spec, parse_meta_spec, peek2_spec, peek_spec, step};
use crate::parser::expr::parse_expr_spec;
use crate::parser::switch::parse_switch_spec;
use crate::parser::vars::parse_var_stmt_spec;
use crate::text::{cat2, cat3, chars_of, same, texts};
use crate::token::{Kw, PpKind, Sym, TokKind, TokKindV};

verus! {

broadcast use {crate::model::group_model, crate::token::group_token, crate::text::group_texts};

/// Whether a `#if` condition is a single bare flag (an identifier).
pub fn bare_flag(cond: &Vec<char>) -> (r: bool)
    ensures
        r == bare_flag_spec(cond@),
{
    cond.len() > 0 && !is_digit(at(cond, 0, 0)) && word_end(cond, 0) == cond.len()
}

/// A boolean `#if` condition over flags in its C++ preprocessor spelling: each flag
/// becomes `defined(FLAG)`, and `!`, `&&`, `||` and parentheses pass through. `None`
/// for anything else (a version comparison, a value), which has no such spelling.
pub fn pp_condition(cs: &Vec<char>, i: usize, out: String) -> (r: Option<String>)
    ensures
        (match r { Some(y) => Some(y@), None => None }) == pp_condition_spec(cs@, (i as int), out@),
{
    let ghost i_0 = i;
    let ghost out_0 = out;
    let mut i: usize = i;
    let mut out: String = out;
    #[verifier::loop_isolation(false)]
    loop
        invariant
            pp_condition_spec(cs@, (i_0 as int), out_0@) == pp_condition_spec(cs@, (i as int), out@),
        decreases cs.len() - i,
    {
        if i >= cs.len() {
            return Some(out);
        }
        let b = at(cs, i, 0);
        let n = at(cs, i, 1);
        if b == ' ' || b == '\t' || b == '(' || b == ')' {
            out.push(b);
            i = i + 1;
        } else if b == '!' && i + 1 < cs.len() && n != '=' {
            out.push(b);
            i = i + 1;
        } else if b == '&' && i + 1 < cs.len() && n == '&' {
            out.append("&&");
            i = i + 2;
        } else if b == '|' && i + 1 < cs.len() && n == '|' {
            out.append("||");
            i = i + 2;
        } else if b == '_' || is_alpha(b) {
            let e: usize = word_end(cs, i + 1);
            out.append(&cat3("defined(", &cut(cs, i, e), ")"));
            i = e;
        } else {
            return None;
        }
    }
}

/// The first of a list of texts, empty where there is none.
pub fn first_or_empty(args: &Vec<String>) -> (r: String)
    ensures
        r@ == first_or_empty_spec(texts(args@)),
{
    if args.len() > 0 {
        args[0].clone()
    } else {
        String::new()
    }
}

/// An `#include` line: the angle form as it stands, anything else quoted.
pub fn include_line(path: &str) -> (r: String)
    ensures
        r@ == include_line_spec(path@),
{
    let cs = chars_of(path);
    if at(&cs, 0, 0) == '<' {
        cat2("#include ", path)
    } else {
        cat3("#include \"", path, "\"")
    }
}

impl Parser {
    /// A statement.
    pub fn parse_stmt(&mut self) -> (r: PResult<Stmt>)
        requires
            old(self).wf(),
        ensures
            final(self).wf(),
            final(self).cx() == old(self).cx(),
            parse_stmt_spec(old(self).cx(), old(self).st()) == (match r { Ok(x) => Pr::Done(x.v(), final(self).st()), Err(e) => Pr::Fail(e.v()) }),
            final(self).st().pos >= old(self).st().pos,
            r is Ok ==> final(self).st().pos > old(self).st().pos,
        decreases old(self).left(), 60int,
    {
        proof {
            reveal(parse_stmt_spec);
            reveal(parse_var_stmt_spec);
            reveal(parse_if_spec);
            reveal(parse_for_spec);
            reveal(parse_while_spec);
            reveal(parse_do_spec);
            reveal(parse_switch_spec);
            reveal(parse_return_spec);
            reveal(parse_expr_spec);
            reveal(parse_try_spec);
            reveal(parse_block_spec);
        }
        let line: usize = self.line();
        match self.peek() {
            TokKind::Kw(Kw::Var | Kw::Final) => self.parse_var_stmt(line, false, false),
            // `@delete var x = …` asks for `x` to be freed at the end of this scope.
            TokKind::Meta(name) if same(name, "delete") => {
                self.bump();
                if !(self.at_kw(Kw::Var) || self.at_kw(Kw::Final)) {
                    return Err(self.err("@delete must immediately precede a local `var` declaration"));
                }
                self.parse_var_stmt(line, true, false)
            },
            // `@sink var x = …` asks that `x` is not freed at scope close. A `@sink` on any
            // other expression statement is carried as expression metadata.
            TokKind::Meta(name) if same(name, "sink") && matches!(self.peek2(), TokKind::Kw(Kw::Var | Kw::Final)) => {
                self.bump();
                self.parse_var_stmt(line, false, true)
            },
            TokKind::Kw(Kw::If) => self.parse_if(),
            TokKind::Kw(Kw::For) => self.parse_for(),
            TokKind::Kw(Kw::While) => self.parse_while(line),
            TokKind::Kw(Kw::Do) => self.parse_do(line),
            TokKind::Kw(Kw::Switch) => self.parse_switch(),
            TokKind::Kw(Kw::Return) => self.parse_return(line),
            TokKind::Kw(Kw::Break) => {
                self.bump();
                self.eat_sym(Sym::Semi);
                Ok(Stmt::Break)
            },
            TokKind::Kw(Kw::Continue) => {
                self.bump();
                self.eat_sym(Sym::Semi);
                Ok(Stmt::Continue)
            },
            TokKind::Kw(Kw::Throw) => {
                self.bump();
                let e = self.parse_expr()?;
                self.eat_sym(Sym::Semi);
                Ok(Stmt::Throw(e, line))
            },
            TokKind::Kw(Kw::Try) => self.parse_try(line),
            TokKind::Sym(Sym::LBrace) => {
                let b = self.parse_block()?;
                Ok(Stmt::Block(b))
            },
            // Statement-level `@:cppFileCode('...')` injects verbatim C++ here.
            TokKind::Meta(name) if same(name, "cppFileCode") => {
                let m = self.parse_meta()?;
                self.eat_sym(Sym::Semi);
                Ok(Stmt::Verbatim { code: first_or_empty(&m.args), line })
            },
            // Statement-level `@:include("X")` emits an include line at this point (so it
            // can sit inside a `#if`/`#end` block).
            TokKind::Meta(name) if same(name, "include") => {
                let m = self.parse_meta()?;
                self.eat_sym(Sym::Semi);
                Ok(Stmt::Verbatim { code: include_line(&first_or_empty(&m.args)), line })
            },
            TokKind::Pp(kind, cond) => {
                let kind = *kind;
                let cond = cond.clone();
                self.bump();
                self.directive_stmt(kind, &cond, line)
            },
            _ => {
                let e = self.parse_expr()?;
                self.eat_sym(Sym::Semi);
                Ok(Stmt::Expr(e, line))
            },
        }
    }

    /// A directive inside a body is handed to the C++ preprocessor. A bare flag keeps the
    /// classic spelling (`#if FLAG` → `#ifdef FLAG`); a boolean condition over flags maps
    /// each flag through `defined(…)`. C++98 has no `#elifdef`, so `#elseif` lowers via
    /// `#elif defined(...)`.
    pub fn directive_stmt(&mut self, kind: PpKind, cond: &str, line: usize) -> (r: PResult<Stmt>)
        requires
            old(self).wf(),
        ensures
            final(self).wf(),
            final(self).cx() == old(self).cx(),
            directive_stmt_spec(old(self).cx(), old(self).st(), kind, cond@, (line as int)) == (match r { Ok(x) => Pr::Done(x.v(), final(self).st()), Err(e) => Pr::Fail(e.v()) }),
            final(self).st().pos >= old(self).st().pos,
    {
        match kind {
            PpKind::If => {
                if bare_flag(&chars_of(cond)) {
                    return Ok(Stmt::Verbatim { code: cat2("#ifdef ", cond), line });
                }
                let code = self.cpp_condition(cond)?;
                Ok(Stmt::Verbatim { code: cat2("#if ", &code), line })
            },
            PpKind::ElseIf => {
                if bare_flag(&chars_of(cond)) {
                    return Ok(Stmt::Verbatim { code: cat3("#elif defined(", cond, ")"), line });
                }
                let code = self.cpp_condition(cond)?;
                Ok(Stmt::Verbatim { code: cat2("#elif ", &code), line })
            },
            PpKind::Else => Ok(Stmt::Verbatim { code: "#else".to_owned(), line }),
            PpKind::End => Ok(Stmt::Verbatim { code: "#endif".to_owned(), line }),
        }
    }

    /// The C++ spelling of the condition of a directive.
    pub fn cpp_condition(&self, cond: &str) -> (r: Result<String, ParseError>)
        requires
            self.wf(),
        ensures
            (match r { Ok(y) => Ok(y@), Err(y) => Err(y.v()) }) == cpp_condition_spec(self.cx(), self.st(), cond@),
    {
        match pp_condition(&chars_of(cond), 0, String::new()) {
            Some(code) => Ok(code),
            None => Err(self.err(&cat3("only flags combined with `!`, `&&`, `||` and parentheses are supported in a `#if` condition (e.g. `#if (DREAMCAST && !DEBUG)`); `", cond, "` is not"))),
        }
    }
}

/// What [`bare_flag`] computes.
pub open spec fn bare_flag_spec(cond: Seq<char>) -> bool
{
    ((cond.len()) > 0) && (!(is_digit_spec(at_spec(cond, 0int, 0int)))) && (word_end_spec(cond, 0int) == (cond.len()))
}

/// What [`pp_condition`] computes.
pub open spec fn pp_condition_spec(cs: Seq<char>, i: int, out: Seq<char>) -> Option<Seq<char>>
    decreases cs.len() - i,
{
    if !(0 <= i < cs.len()) { Some(out) } else {
        let b = at_spec(cs, i, 0int);
        let n = at_spec(cs, i, 1int);
        if (b == ' ') || (b == '\t') || (b == '(') || (b == ')') {
            let out = out.push(b);
            let i = i + 1;
            pp_condition_spec(cs, i, out)
        } else if (b == '!') && ((i + 1) < (cs.len())) && (n != '=') {
            let out = out.push(b);
            let i = i + 1;
            pp_condition_spec(cs, i, out)
        } else if (b == '&') && ((i + 1) < (cs.len())) && (n == '&') {
            let out = out + "&&"@;
            let i = i + 2;
            pp_condition_spec(cs, i, out)
        } else if (b == '|') && ((i + 1) < (cs.len())) && (n == '|') {
            let out = out + "||"@;
            let i = i + 2;
            pp_condition_spec(cs, i, out)
        } else if (b == '_') || is_alpha_spec(b) {
            let e: int = word_end_spec(cs, i + 1);
            if !((i < e) && (e <= (cs.len()))) { arbitrary() } else {
                let out = out + ("defined("@ + cut_spec(cs, i, e) + ")"@);
                let i = e;
                pp_condition_spec(cs, i, out)
            }
        } else { None }
    }
}

/// What [`first_or_empty`] computes.
pub open spec fn first_or_empty_spec(args: Seq<Seq<char>>) -> Seq<char>
{
    if (args.len()) > 0 { args[0] } else { Seq::empty() }
}

/// What [`include_line`] computes.
pub open spec fn include_line_spec(path: Seq<char>) -> Seq<char>
{
    let cs = path;
    if at_spec(cs, 0int, 0int) == '<' { "#include "@ + path } else { "#include \""@ + path + "\""@ }
}

/// What [`Parser::parse_stmt`] computes.
#[verifier::opaque]
pub open spec fn parse_stmt_spec(c: Ctx, st: St) -> Pr<StmtV>
    decreases c.toks.len() - st.pos, 60int,
{
    let line: int = line_spec(c, st);
    match peek_spec(c, st) {
        TokKindV::Kw(Kw::Var | Kw::Final) => { parse_var_stmt_spec(c, st, line, false, false) },
        TokKindV::Meta(name) if (name == "delete"@) => {
            let st = bump_spec(c, st);
            match { if !(at_kw_spec(c, st, Kw::Var) || at_kw_spec(c, st, Kw::Final)) {
                    Pr::Fail(err_spec(c, st, "@delete must immediately precede a local `var` declaration"@))
                } else { Pr::Done((), st) } } {
                Pr::Fail(e) => Pr::Fail(e),
                Pr::Done(_, st) => { parse_var_stmt_spec(c, st, line, true, false) },
            }
        },
        TokKindV::Meta(name) if (name == "sink"@) && (match peek2_spec(c, st) { TokKindV::Kw(Kw::Var | Kw::Final) => true, _ => false }) => {
            let st = bump_spec(c, st);
            parse_var_stmt_spec(c, st, line, false, true)
        },
        TokKindV::Kw(Kw::If) => { parse_if_spec(c, st) },
        TokKindV::Kw(Kw::For) => { parse_for_spec(c, st) },
        TokKindV::Kw(Kw::While) => { parse_while_spec(c, st, line) },
        TokKindV::Kw(Kw::Do) => { parse_do_spec(c, st, line) },
        TokKindV::Kw(Kw::Switch) => { parse_switch_spec(c, st) },
        TokKindV::Kw(Kw::Return) => { parse_return_spec(c, st, line) },
        TokKindV::Kw(Kw::Break) => {
            let st = bump_spec(c, st);
            let (st, _) = eat_sym_spec(c, st, Sym::Semi);
            Pr::Done(StmtV::Break, st)
        },
        TokKindV::Kw(Kw::Continue) => {
            let st = bump_spec(c, st);
            let (st, _) = eat_sym_spec(c, st, Sym::Semi);
            Pr::Done(StmtV::Continue, st)
        },
        TokKindV::Kw(Kw::Throw) => {
            let st = bump_spec(c, st);
            match step(c, st, parse_expr_spec(c, st)) {
                Pr::Fail(e) => Pr::Fail(e),
                Pr::Done(e, st) => {
                    let (st, _) = eat_sym_spec(c, st, Sym::Semi);
                    Pr::Done(StmtV::Throw(e, line), st)
                },
            }
        },
        TokKindV::Kw(Kw::Try) => { parse_try_spec(c, st, line) },
        TokKindV::Sym(Sym::LBrace) => {
            match step(c, st, parse_block_spec(c, st)) {
                Pr::Fail(e) => Pr::Fail(e),
                Pr::Done(b, st) => { Pr::Done(StmtV::Block(b), st) },
            }
        },
        TokKindV::Meta(name) if (name == "cppFileCode"@) => {
            match step(c, st, parse_meta_spec(c, st)) {
                Pr::Fail(e) => Pr::Fail(e),
                Pr::Done(m, st) => {
                    let (st, _) = eat_sym_spec(c, st, Sym::Semi);
                    Pr::Done(StmtV::Verbatim { code: first_or_empty_spec(m.args), line }, st)
                },
            }
        },
        TokKindV::Meta(name) if (name == "include"@) => {
            match step(c, st, parse_meta_spec(c, st)) {
                Pr::Fail(e) => Pr::Fail(e),
                Pr::Done(m, st) => {
                    let (st, _) = eat_sym_spec(c, st, Sym::Semi);
                    Pr::Done(StmtV::Verbatim { code: include_line_spec(first_or_empty_spec(m.args)), line }, st)
                },
            }
        },
        TokKindV::Pp(kind, cond) => {
            let kind = kind;
            let cond = cond;
            let st = bump_spec(c, st);
            directive_stmt_spec(c, st, kind, cond, line)
        },
        _ => {
            match step(c, st, parse_expr_spec(c, st)) {
                Pr::Fail(e) => Pr::Fail(e),
                Pr::Done(e, st) => {
                    let (st, _) = eat_sym_spec(c, st, Sym::Semi);
                    Pr::Done(StmtV::Expr(e, line), st)
                },
            }
        },
    }
}

/// What [`Parser::directive_stmt`] computes.
pub open spec fn directive_stmt_spec(c: Ctx, st: St, kind: PpKind, cond: Seq<char>, line: int) -> Pr<StmtV>
{
    match kind {
        PpKind::If => {
            if bare_flag_spec(cond) { Pr::Done(StmtV::Verbatim { code: "#ifdef "@ + cond, line }, st) } else {
                match cpp_condition_spec(c, st, cond) {
                    Err(e) => Pr::Fail(e),
                    Ok(code) => { Pr::Done(StmtV::Verbatim { code: "#if "@ + code, line }, st) },
                }
            }
        },
        PpKind::ElseIf => {
            if bare_flag_spec(cond) { Pr::Done(StmtV::Verbatim { code: "#elif defined("@ + cond + ")"@, line }, st) } else {
                match cpp_condition_spec(c, st, cond) {
                    Err(e) => Pr::Fail(e),
                    Ok(code) => { Pr::Done(StmtV::Verbatim { code: "#elif "@ + code, line }, st) },
                }
            }
        },
        PpKind::Else => { Pr::Done(StmtV::Verbatim { code: "#else"@, line }, st) },
        PpKind::End => { Pr::Done(StmtV::Verbatim { code: "#endif"@, line }, st) },
    }
}

/// What [`Parser::cpp_condition`] computes.
pub open spec fn cpp_condition_spec(c: Ctx, st: St, cond: Seq<char>) -> Result<Seq<char>, ParseErrorV>
{
    match pp_condition_spec(cond, 0int, Seq::empty()) {
        Some(code) => { Ok(code) },
        None => {
            Err(err_spec(c, st, "only flags combined with `!`, `&&`, `||` and parentheses are supported in a `#if` condition (e.g. `#if (DREAMCAST && !DEBUG)`); `"@ + cond + "` is not"@))
        },
    }
}

} // verus!
