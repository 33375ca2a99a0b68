//! What the parser makes of each form of the language.

use vstd::prelude::*;

use crate::ast::{Access, BinOp, PropAccess};
use crate::model::{CaseV, CatchV, ExprV, FnModifiersV, IterableV, MetaV, StmtV};
use crate::parser::binary::{parse_binary_rest_spec, parse_binary_spec, peek_binop_spec};
use crate::parser::block::{parse_block_spec, parse_branch_expr_spec, parse_case_body_spec};
use crate::parser::comprehension::{parse_iterable_spec, parse_loop_head_spec};
use crate::parser::control::{parse_catches_spec, parse_do_spec, parse_for_spec, parse_if_expr_spec, parse_if_spec, parse_return_spec, parse_try_spec, parse_while_spec};
use crate::parser::cursor::{Ctx, Pr, St, line_spec, peek_spec};
use crate::parser::decls::{decl_modifier_spec, member_modifier_spec, parse_field_spec, parse_member_modifiers_spec, prop_access_spec, set_access_spec};
use crate::parser::expr::{assign_op_spec, parse_assign_spec, parse_coalesce_rest_spec, parse_coalesce_spec, parse_expr_spec, parse_ternary_spec};
use crate::parser::postfix::{member_name_spec, parse_args_from_spec, parse_call_args_spec, parse_postfix_rest_spec};
use crate::parser::primary::parse_primary_spec;
use crate::parser::stmt::{bare_flag_spec, directive_stmt_spec, parse_stmt_spec, pp_condition_spec};
use crate::parser::switch::{flatten_patterns_spec, has_wildcard_spec, parse_cases_spec, parse_patterns_spec};
use crate::parser::vars::{parse_opt_type_spec, parse_var_stmt_spec};
use crate::token::{Kw, PpKind, Sym, TokKindV};

verus! {

broadcast use {crate::model::group_model, crate::token::group_token, crate::text::group_texts};

/// Whether a symbol comes next.
pub open spec fn sym_next(c: Ctx, st: St, s: Sym) -> bool {
    peek_spec(c, st) == TokKindV::Sym(s)
}

/// Whether a reserved word comes next.
pub open spec fn word_next(c: Ctx, st: St, k: Kw) -> bool {
    peek_spec(c, st) == TokKindV::Kw(k)
}

/// Where a parse stands behind the next token.
pub open spec fn past(st: St) -> St {
    St { pos: st.pos + 1, gt: 0, extra: st.extra }
}

/// Where a parse stands behind a semicolon, if one comes.
pub open spec fn past_semicolon(c: Ctx, st: St) -> St {
    if sym_next(c, st, Sym::Semi) {
        past(st)
    } else {
        st
    }
}

/// Whether a piece was read from one place to another.
pub open spec fn was_read<T>(c: Ctx, from: St, r: Pr<T>, x: T, to: St) -> bool {
    &&& r == Pr::Done(x, to)
    &&& from.pos < to.pos < c.toks.len()
}

/// Whether a piece was read and the parse then stands at a place.
pub open spec fn gives<T>(r: Pr<T>, x: T, to: St) -> bool {
    r == Pr::Done(x, to)
}

#[verifier::rlimit(60)]
proof fn while_is_told(c: Ctx, st: St)
    requires
        word_next(c, st, Kw::While),
    ensures
        parse_stmt_spec(c, st) == parse_while_spec(c, st, line_spec(c, st)),
{
    reveal(parse_stmt_spec);
    reveal(parse_while_spec);
}

#[verifier::rlimit(60)]
proof fn do_is_told(c: Ctx, st: St)
    requires
        word_next(c, st, Kw::Do),
    ensures
        parse_stmt_spec(c, st) == parse_do_spec(c, st, line_spec(c, st)),
{
    reveal(parse_stmt_spec);
    reveal(parse_do_spec);
}

#[verifier::rlimit(60)]
proof fn if_is_told(c: Ctx, st: St)
    requires
        word_next(c, st, Kw::If),
    ensures
        parse_stmt_spec(c, st) == parse_if_spec(c, st),
{
    reveal(parse_stmt_spec);
    reveal(parse_if_spec);
}

#[verifier::rlimit(60)]
proof fn if_value_is_told(c: Ctx, st: St)
    requires
        word_next(c, st, Kw::If),
    ensures
        parse_primary_spec(c, st) == parse_if_expr_spec(c, st),
{
    reveal(parse_primary_spec);
    reveal(parse_if_expr_spec);
}

#[verifier::rlimit(60)]
proof fn return_is_told(c: Ctx, st: St)
    requires
        word_next(c, st, Kw::Return),
    ensures
        parse_stmt_spec(c, st) == parse_return_spec(c, st, line_spec(c, st)),
{
    reveal(parse_stmt_spec);
    reveal(parse_return_spec);
}

#[verifier::rlimit(60)]
proof fn for_is_told(c: Ctx, st: St)
    requires
        word_next(c, st, Kw::For),
    ensures
        parse_stmt_spec(c, st) == parse_for_spec(c, st),
{
    reveal(parse_stmt_spec);
    reveal(parse_for_spec);
}

#[verifier::rlimit(60)]
proof fn try_is_told(c: Ctx, st: St)
    requires
        word_next(c, st, Kw::Try),
    ensures
        parse_stmt_spec(c, st) == parse_try_spec(c, st, line_spec(c, st)),
{
    reveal(parse_stmt_spec);
    reveal(parse_try_spec);
}

#[verifier::rlimit(100)]
#[verifier::spinoff_prover]
proof fn while_form(c: Ctx, st: St, cond: ExprV, s1: St, body: StmtV, s2: St)
    requires
        word_next(c, st, Kw::While),
        sym_next(c, past(st), Sym::LParen),
        was_read(c, past(past(st)), parse_expr_spec(c, past(past(st))), cond, s1),
        sym_next(c, s1, Sym::RParen),
        was_read(c, past(s1), parse_stmt_spec(c, past(s1)), body, s2),
    ensures
        gives(parse_while_spec(c, st, line_spec(c, st)), StmtV::While { cond, body: Box::new(body), do_while: false, line: line_spec(c, st) }, s2),
{
    reveal(parse_while_spec);
    reveal(parse_expr_spec);
    reveal(parse_stmt_spec);
}

/// `while (c) s` tests before each round.
pub proof fn law_while_statement(c: Ctx, st: St, cond: ExprV, s1: St, body: StmtV, s2: St)
    requires
        word_next(c, st, Kw::While),
        sym_next(c, past(st), Sym::LParen),
        was_read(c, past(past(st)), parse_expr_spec(c, past(past(st))), cond, s1),
        sym_next(c, s1, Sym::RParen),
        was_read(c, past(s1), parse_stmt_spec(c, past(s1)), body, s2),
    ensures
        gives(parse_stmt_spec(c, st), StmtV::While { cond, body: Box::new(body), do_while: false, line: line_spec(c, st) }, s2),
{
    while_form(c, st, cond, s1, body, s2);
    while_is_told(c, st);
}

#[verifier::rlimit(100)]
#[verifier::spinoff_prover]
proof fn do_form(c: Ctx, st: St, body: StmtV, s1: St, cond: ExprV, s2: St)
    requires
        word_next(c, st, Kw::Do),
        was_read(c, past(st), parse_stmt_spec(c, past(st)), body, s1),
        word_next(c, s1, Kw::While),
        sym_next(c, past(s1), Sym::LParen),
        was_read(c, past(past(s1)), parse_expr_spec(c, past(past(s1))), cond, s2),
        sym_next(c, s2, Sym::RParen),
    ensures
        gives(parse_do_spec(c, st, line_spec(c, st)), StmtV::While { cond, body: Box::new(body), do_while: true, line: line_spec(c, st) },
            past_semicolon(c, past(s2))),
{
    reveal(parse_do_spec);
    reveal(parse_stmt_spec);
    reveal(parse_expr_spec);
}

/// `do s while (c)` tests after each round.
pub proof fn law_do_statement(c: Ctx, st: St, body: StmtV, s1: St, cond: ExprV, s2: St)
    requires
        word_next(c, st, Kw::Do),
        was_read(c, past(st), parse_stmt_spec(c, past(st)), body, s1),
        word_next(c, s1, Kw::While),
        sym_next(c, past(s1), Sym::LParen),
        was_read(c, past(past(s1)), parse_expr_spec(c, past(past(s1))), cond, s2),
        sym_next(c, s2, Sym::RParen),
    ensures
        gives(parse_stmt_spec(c, st), StmtV::While { cond, body: Box::new(body), do_while: true, line: line_spec(c, st) },
            past_semicolon(c, past(s2))),
{
    do_form(c, st, body, s1, cond, s2);
    do_is_told(c, st);
}

#[verifier::rlimit(100)]
#[verifier::spinoff_prover]
proof fn if_form(c: Ctx, st: St, cond: ExprV, s1: St, then: StmtV, s2: St, els: StmtV, s3: St)
    requires
        word_next(c, st, Kw::If),
        sym_next(c, past(st), Sym::LParen),
        was_read(c, past(past(st)), parse_expr_spec(c, past(past(st))), cond, s1),
        sym_next(c, s1, Sym::RParen),
        was_read(c, past(s1), parse_stmt_spec(c, past(s1)), then, s2),
    ensures
        ({
            let s = past_semicolon(c, s2);
            &&& word_next(c, s, Kw::Else) && was_read(c, past(s), parse_stmt_spec(c, past(s)), els, s3) ==> gives(parse_if_spec(c, st), StmtV::If { cond, then: Box::new(then), els: Some(Box::new(els)), line: line_spec(c, st) }, s3)
            &&& !word_next(c, s, Kw::Else) ==> gives(parse_if_spec(c, st), StmtV::If { cond, then: Box::new(then), els: None, line: line_spec(c, st) }, s)
        }),
{
    reveal(parse_if_spec);
    reveal(parse_expr_spec);
    reveal(parse_stmt_spec);
}

/// `if (c) a else b`: the first branch is for the condition, the second against it. A semicolon
/// may stand before `else`.
pub proof fn law_if_statement(c: Ctx, st: St, cond: ExprV, s1: St, then: StmtV, s2: St, els: StmtV, s3: St)
    requires
        word_next(c, st, Kw::If),
        sym_next(c, past(st), Sym::LParen),
        was_read(c, past(past(st)), parse_expr_spec(c, past(past(st))), cond, s1),
        sym_next(c, s1, Sym::RParen),
        was_read(c, past(s1), parse_stmt_spec(c, past(s1)), then, s2),
    ensures
        ({
            let s = past_semicolon(c, s2);
            &&& word_next(c, s, Kw::Else) && was_read(c, past(s), parse_stmt_spec(c, past(s)), els, s3) ==> gives(parse_stmt_spec(c, st), StmtV::If { cond, then: Box::new(then), els: Some(Box::new(els)), line: line_spec(c, st) }, s3)
            &&& !word_next(c, s, Kw::Else) ==> gives(parse_stmt_spec(c, st), StmtV::If { cond, then: Box::new(then), els: None, line: line_spec(c, st) }, s)
        }),
{
    if_form(c, st, cond, s1, then, s2, els, s3);
    if_is_told(c, st);
}

#[verifier::rlimit(100)]
#[verifier::spinoff_prover]
proof fn if_value_form(c: Ctx, st: St, cond: ExprV, s1: St, then: ExprV, s2: St, els: ExprV, s3: St)
    requires
        word_next(c, st, Kw::If),
        sym_next(c, past(st), Sym::LParen),
        was_read(c, past(past(st)), parse_expr_spec(c, past(past(st))), cond, s1),
        sym_next(c, s1, Sym::RParen),
        was_read(c, past(s1), parse_branch_expr_spec(c, past(s1)), then, s2),
    ensures
        ({
            let s = past_semicolon(c, s2);
            &&& word_next(c, s, Kw::Else) && was_read(c, past(s), parse_branch_expr_spec(c, past(s)), els, s3) ==> gives(parse_if_expr_spec(c, st), ExprV::If { cond: Box::new(cond), then: Box::new(then), els: Some(Box::new(els)) }, s3)
            &&& !word_next(c, s, Kw::Else) ==> gives(parse_if_expr_spec(c, st), ExprV::If { cond: Box::new(cond), then: Box::new(then), els: None }, s)
        }),
{
    reveal(parse_if_expr_spec);
    reveal(parse_expr_spec);
    reveal(parse_branch_expr_spec);
}

/// An `if` as a value: the same branches, in the same order.
pub proof fn law_if_value(c: Ctx, st: St, cond: ExprV, s1: St, then: ExprV, s2: St, els: ExprV, s3: St)
    requires
        word_next(c, st, Kw::If),
        sym_next(c, past(st), Sym::LParen),
        was_read(c, past(past(st)), parse_expr_spec(c, past(past(st))), cond, s1),
        sym_next(c, s1, Sym::RParen),
        was_read(c, past(s1), parse_branch_expr_spec(c, past(s1)), then, s2),
    ensures
        ({
            let s = past_semicolon(c, s2);
            &&& word_next(c, s, Kw::Else) && was_read(c, past(s), parse_branch_expr_spec(c, past(s)), els, s3) ==> gives(parse_primary_spec(c, st), ExprV::If { cond: Box::new(cond), then: Box::new(then), els: Some(Box::new(els)) }, s3)
            &&& !word_next(c, s, Kw::Else) ==> gives(parse_primary_spec(c, st), ExprV::If { cond: Box::new(cond), then: Box::new(then), els: None }, s)
        }),
{
    if_value_form(c, st, cond, s1, then, s2, els, s3);
    if_value_is_told(c, st);
}

#[verifier::rlimit(100)]
#[verifier::spinoff_prover]
proof fn return_form(c: Ctx, st: St, e: ExprV, s1: St)
    requires
        word_next(c, st, Kw::Return),
    ensures
        sym_next(c, past(st), Sym::Semi) || sym_next(c, past(st), Sym::RBrace) ==> gives(parse_return_spec(c, st, line_spec(c, st)), StmtV::Return(None, line_spec(c, st)), past_semicolon(c, past(st))),
        !sym_next(c, past(st), Sym::Semi) && !sym_next(c, past(st), Sym::RBrace)
            && was_read(c, past(st), parse_expr_spec(c, past(st)), e, s1) ==> gives(parse_return_spec(c, st, line_spec(c, st)), StmtV::Return(Some(e), line_spec(c, st)), past_semicolon(c, s1)),
{
    reveal(parse_return_spec);
    reveal(parse_expr_spec);
}

/// `return` with nothing before the semicolon or the brace returns nothing; otherwise it
/// returns the value that follows.
pub proof fn law_return_statement(c: Ctx, st: St, e: ExprV, s1: St)
    requires
        word_next(c, st, Kw::Return),
    ensures
        sym_next(c, past(st), Sym::Semi) || sym_next(c, past(st), Sym::RBrace) ==> gives(parse_stmt_spec(c, st), StmtV::Return(None, line_spec(c, st)), past_semicolon(c, past(st))),
        !sym_next(c, past(st), Sym::Semi) && !sym_next(c, past(st), Sym::RBrace)
            && was_read(c, past(st), parse_expr_spec(c, past(st)), e, s1) ==> gives(parse_stmt_spec(c, st), StmtV::Return(Some(e), line_spec(c, st)), past_semicolon(c, s1)),
{
    return_form(c, st, e, s1);
    return_is_told(c, st);
}

/// `break` and `continue` are the statements of these names.
pub proof fn law_jump_statements(c: Ctx, st: St)
    ensures
        word_next(c, st, Kw::Break) ==> gives(parse_stmt_spec(c, st), StmtV::Break, past_semicolon(c, past(st))),
        word_next(c, st, Kw::Continue) ==> gives(parse_stmt_spec(c, st), StmtV::Continue, past_semicolon(c, past(st))),
{
    reveal(parse_stmt_spec);
}

/// `throw e` throws what follows.
#[verifier::rlimit(100)]
#[verifier::spinoff_prover]
pub proof fn law_throw_statement(c: Ctx, st: St, e: ExprV, s1: St)
    requires
        word_next(c, st, Kw::Throw),
        was_read(c, past(st), parse_expr_spec(c, past(st)), e, s1),
    ensures
        gives(parse_stmt_spec(c, st), StmtV::Throw(e, line_spec(c, st)), past_semicolon(c, s1)),
{
    reveal(parse_expr_spec);
    reveal(parse_stmt_spec);
}

/// `{ .. }` is a block, and `try` guards the statement behind it with the catches behind that.
#[verifier::rlimit(100)]
#[verifier::spinoff_prover]
pub proof fn law_block_and_try(c: Ctx, st: St, inner: Seq<StmtV>, s1: St, body: StmtV, s2: St, catches: Seq<CatchV>, s3: St)
    ensures
        sym_next(c, st, Sym::LBrace) && was_read(c, st, parse_block_spec(c, st), inner, s1) ==> gives(parse_stmt_spec(c, st), StmtV::Block(inner), s1),
        word_next(c, st, Kw::Try) && was_read(c, past(st), parse_stmt_spec(c, past(st)), body, s2)
            && gives(parse_catches_spec(c, s2, Seq::empty()), catches, s3) && s2.pos <= s3.pos < c.toks.len()
            ==> gives(parse_stmt_spec(c, st), StmtV::Try { body: Box::new(body), catches, line: line_spec(c, st) }, s3),
{
    reveal(parse_block_spec);
    reveal(parse_catches_spec);
    reveal(parse_stmt_spec);
    reveal(parse_try_spec);
}

#[verifier::rlimit(100)]
#[verifier::spinoff_prover]
proof fn for_form(c: Ctx, st: St, var: Seq<char>, value: Option<Seq<char>>, iter: IterableV, s1: St, body: StmtV, s2: St)
    requires
        word_next(c, st, Kw::For),
        was_read(c, past(st), parse_loop_head_spec(c, past(st)), (var, value, iter), s1),
        was_read(c, s1, parse_stmt_spec(c, s1), body, s2),
    ensures
        gives(parse_for_spec(c, st), StmtV::For { var, value_var: value, iter, body: Box::new(body), line: line_spec(c, st) },
            s2),
{
    reveal(parse_for_spec);
    reveal(parse_loop_head_spec);
    reveal(parse_stmt_spec);
}

/// `for (head) s` runs the statement for what its head names.
pub proof fn law_for_statement(c: Ctx, st: St, var: Seq<char>, value: Option<Seq<char>>, iter: IterableV, s1: St, body: StmtV, s2: St)
    requires
        word_next(c, st, Kw::For),
        was_read(c, past(st), parse_loop_head_spec(c, past(st)), (var, value, iter), s1),
        was_read(c, s1, parse_stmt_spec(c, s1), body, s2),
    ensures
        gives(parse_stmt_spec(c, st), StmtV::For { var, value_var: value, iter, body: Box::new(body), line: line_spec(c, st) },
            s2),
{
    for_form(c, st, var, value, iter, s1, body, s2);
    for_is_told(c, st);
}

/// `(x in y)` goes through a value with one variable, `(k => v in y)` with two, the key first.
#[verifier::rlimit(60)]
#[verifier::spinoff_prover]
pub proof fn law_loop_head(c: Ctx, st: St, a: Seq<char>, b: Seq<char>, iter: IterableV, s1: St)
    requires
        sym_next(c, st, Sym::LParen),
        peek_spec(c, past(st)) == TokKindV::Ident(a),
    ensures
        ({
            let s = past(past(st));
            &&& word_next(c, s, Kw::In) && was_read(c, past(s), parse_iterable_spec(c, past(s)), iter, s1) && sym_next(c, s1, Sym::RParen)
                ==> gives(parse_loop_head_spec(c, st), (a, None::<Seq<char>>, iter), past(s1))
            &&& sym_next(c, s, Sym::FatArrow) && peek_spec(c, past(s)) == TokKindV::Ident(b) && word_next(c, past(past(s)), Kw::In)
                && was_read(c, past(past(past(s))), parse_iterable_spec(c, past(past(past(s)))), iter, s1) && sym_next(c, s1, Sym::RParen)
                ==> gives(parse_loop_head_spec(c, st), (a, Some(b), iter), past(s1))
        }),
{
    reveal(parse_iterable_spec);
    reveal(parse_loop_head_spec);
}

/// `a...b` is the range from the first to the second; a value alone is gone through itself.
#[verifier::rlimit(60)]
#[verifier::spinoff_prover]
pub proof fn law_iterable(c: Ctx, st: St, a: ExprV, s1: St, b: ExprV, s2: St)
    requires
        was_read(c, st, parse_expr_spec(c, st), a, s1),
    ensures
        !sym_next(c, s1, Sym::DotDotDot) ==> gives(parse_iterable_spec(c, st), IterableV::Coll(a), s1),
        sym_next(c, s1, Sym::DotDotDot) && was_read(c, past(s1), parse_expr_spec(c, past(s1)), b, s2) ==> gives(parse_iterable_spec(c, st), IterableV::Range(a, b), s2),
{
    reveal(parse_expr_spec);
    reveal(parse_iterable_spec);
}

/// `c ? a : b`: the middle is for the condition, the end against it.
pub proof fn law_conditional(c: Ctx, st: St, cond: ExprV, s1: St, a: ExprV, s2: St, b: ExprV, s3: St)
    requires
        was_read(c, st, parse_coalesce_spec(c, st), cond, s1),
    ensures
        !sym_next(c, s1, Sym::Question) ==> gives(parse_ternary_spec(c, st), cond, s1),
        sym_next(c, s1, Sym::Question) && was_read(c, past(s1), parse_assign_spec(c, past(s1)), a, s2) && sym_next(c, s2, Sym::Colon)
            && was_read(c, past(s2), parse_assign_spec(c, past(s2)), b, s3) ==> gives(parse_ternary_spec(c, st), ExprV::Ternary { cond: Box::new(cond), then: Box::new(a), els: Box::new(b) }, s3),
{
    reveal(parse_coalesce_spec);
    reveal(parse_assign_spec);
    reveal(parse_ternary_spec);
}

/// What stands left of an assignment is its target and what stands right its value, which may
/// be an assignment again. `a ??= b` assigns `a ?? b` to `a`.
pub proof fn law_assignment(c: Ctx, st: St, target: ExprV, s1: St, op: Option<BinOp>, value: ExprV, s2: St)
    requires
        was_read(c, st, parse_ternary_spec(c, st), target, s1),
    ensures
        !sym_next(c, s1, Sym::QuestionQuestionEq) && assign_op_spec(peek_spec(c, s1)) is None ==> gives(parse_expr_spec(c, st), target, s1),
        !sym_next(c, s1, Sym::QuestionQuestionEq) && assign_op_spec(peek_spec(c, s1)) == Some(op)
            && was_read(c, past(s1), parse_expr_spec(c, past(s1)), value, s2) ==> gives(parse_expr_spec(c, st), ExprV::Assign { op, target: Box::new(target), value: Box::new(value) }, s2),
        sym_next(c, s1, Sym::QuestionQuestionEq) && was_read(c, past(s1), parse_expr_spec(c, past(s1)), value, s2) ==> gives(parse_expr_spec(c, st), ExprV::Assign {
                op: None,
                target: Box::new(target),
                value: Box::new(ExprV::NullCoalesce(Box::new(target), Box::new(value))),
            },
            s2),
{
    assign_form(c, st, target, s1, op, value, s2);
    assigns(c, st);
    assigns(c, past(s1));
}

proof fn assigns(c: Ctx, st: St)
    ensures
        parse_expr_spec(c, st) == parse_assign_spec(c, st),
{
    reveal(parse_expr_spec);
    reveal(parse_assign_spec);
}

proof fn assign_form(c: Ctx, st: St, target: ExprV, s1: St, op: Option<BinOp>, value: ExprV, s2: St)
    requires
        was_read(c, st, parse_ternary_spec(c, st), target, s1),
    ensures
        !sym_next(c, s1, Sym::QuestionQuestionEq) && assign_op_spec(peek_spec(c, s1)) is None ==> gives(parse_assign_spec(c, st), target, s1),
        !sym_next(c, s1, Sym::QuestionQuestionEq) && assign_op_spec(peek_spec(c, s1)) == Some(op)
            && was_read(c, past(s1), parse_assign_spec(c, past(s1)), value, s2) ==> gives(parse_assign_spec(c, st), ExprV::Assign { op, target: Box::new(target), value: Box::new(value) }, s2),
        sym_next(c, s1, Sym::QuestionQuestionEq) && was_read(c, past(s1), parse_assign_spec(c, past(s1)), value, s2) ==> gives(parse_assign_spec(c, st), ExprV::Assign {
                op: None,
                target: Box::new(target),
                value: Box::new(ExprV::NullCoalesce(Box::new(target), Box::new(value))),
            },
            s2),
{
    reveal(parse_assign_spec);
    reveal(parse_ternary_spec);
}

/// `a ?? b` takes the left side where it is not null, and groups from the left.
pub proof fn law_coalescing(c: Ctx, st: St, a: ExprV, b: ExprV, s1: St)
    ensures
        !sym_next(c, st, Sym::QuestionQuestion) ==> gives(parse_coalesce_rest_spec(c, st, a), a, st),
        sym_next(c, st, Sym::QuestionQuestion) && was_read(c, past(st), parse_binary_spec(c, past(st), 0), b, s1)
            ==> parse_coalesce_rest_spec(c, st, a) == parse_coalesce_rest_spec(c, s1, ExprV::NullCoalesce(Box::new(a), Box::new(b))),
{
    reveal(parse_binary_spec);
    reveal(parse_coalesce_rest_spec);
}

/// What stands left of a binary operator is its left operand and what follows its right one.
pub proof fn law_binary_operands(c: Ctx, st: St, min: int, a: ExprV, op: BinOp, level: int, b: ExprV, s1: St)
    requires
        peek_binop_spec(peek_spec(c, st)) == Some((op, level)),
    ensures
        level < min ==> gives(parse_binary_rest_spec(c, st, min, a), a, st),
        level >= min && was_read(c, past(st), parse_binary_spec(c, past(st), level + 1), b, s1)
            ==> parse_binary_rest_spec(c, st, min, a)
            == parse_binary_rest_spec(c, s1, min, ExprV::Binary { op, lhs: Box::new(a), rhs: Box::new(b) }),
{
    reveal(parse_binary_spec);
    reveal(parse_binary_rest_spec);
}

/// Each literal and each word that is a value of its own is read as what it says.
pub proof fn law_simple_values(c: Ctx, st: St, t: Seq<char>, f: Seq<char>, interpolated: bool)
    ensures
        word_next(c, st, Kw::True) ==> gives(parse_primary_spec(c, st), ExprV::Bool(true), past(st)),
        word_next(c, st, Kw::False) ==> gives(parse_primary_spec(c, st), ExprV::Bool(false), past(st)),
        word_next(c, st, Kw::Null) ==> gives(parse_primary_spec(c, st), ExprV::Null, past(st)),
        word_next(c, st, Kw::This) ==> gives(parse_primary_spec(c, st), ExprV::This, past(st)),
        word_next(c, st, Kw::Super) ==> gives(parse_primary_spec(c, st), ExprV::Super, past(st)),
        peek_spec(c, st) == TokKindV::Int(t) ==> gives(parse_primary_spec(c, st), ExprV::Int(t), past(st)),
        peek_spec(c, st) == TokKindV::Float(t) ==> gives(parse_primary_spec(c, st), ExprV::Float(t), past(st)),
        peek_spec(c, st) == (TokKindV::Str { raw: t, interpolated }) ==> gives(parse_primary_spec(c, st), ExprV::Str { raw: t, interpolated }, past(st)),
        peek_spec(c, st) == (TokKindV::Regex { pattern: t, flags: f }) ==> gives(parse_primary_spec(c, st), ExprV::Regex { pattern: t, flags: f }, past(st)),
        peek_spec(c, st) == TokKindV::Ident(t) && !sym_next(c, past(st), Sym::Arrow) ==> gives(parse_primary_spec(c, st), ExprV::Ident(t), past(st)),
{
    reveal(parse_primary_spec);
}

/// What follows a value: a field of it, one that is read only where the value is not null,
/// a call of it, or an item of it.
pub proof fn law_what_follows_a_value(c: Ctx, st: St, e: ExprV, name: Seq<char>, args: Seq<ExprV>, index: ExprV, s1: St)
    ensures
        sym_next(c, st, Sym::Dot) && peek_spec(c, past(st)) == TokKindV::Ident(name) ==> parse_postfix_rest_spec(c, st, e)
            == parse_postfix_rest_spec(c, past(past(st)), ExprV::Field(Box::new(e), name)),
        sym_next(c, st, Sym::QuestionDot) && peek_spec(c, past(st)) == TokKindV::Ident(name) ==> parse_postfix_rest_spec(c, st, e)
            == parse_postfix_rest_spec(c, past(past(st)), ExprV::SafeField(Box::new(e), name)),
        sym_next(c, st, Sym::LParen) && was_read(c, st, parse_call_args_spec(c, st), args, s1) ==> parse_postfix_rest_spec(c, st, e)
            == parse_postfix_rest_spec(c, s1, ExprV::Call(Box::new(e), args)),
        sym_next(c, st, Sym::LBracket) && was_read(c, past(st), parse_expr_spec(c, past(st)), index, s1) && sym_next(c, s1, Sym::RBracket)
            ==> parse_postfix_rest_spec(c, st, e) == parse_postfix_rest_spec(c, past(s1), ExprV::Index(Box::new(e), Box::new(index))),
{
    reveal(parse_call_args_spec);
    reveal(parse_expr_spec);
    reveal(parse_postfix_rest_spec);
    reveal(member_name_spec);
}

/// The arguments of a call are the values between the commas, in their order.
#[verifier::rlimit(100)]
#[verifier::spinoff_prover]
pub proof fn law_arguments(c: Ctx, st: St, before: Seq<ExprV>, a: ExprV, s1: St)
    requires
        was_read(c, st, parse_expr_spec(c, st), a, s1),
    ensures
        sym_next(c, s1, Sym::RParen) ==> gives(parse_args_from_spec(c, st, before), before.push(a), past(s1)),
        sym_next(c, s1, Sym::Comma) && past(s1).pos < c.toks.len() ==> parse_args_from_spec(c, st, before)
            == parse_args_from_spec(c, past(s1), before.push(a)),
{
    reveal(parse_expr_spec);
    reveal(parse_args_from_spec);
}

/// A modifier adds what it says and leaves the rest; a word that is none adds nothing.
/// `final` belongs to a function alone.
pub proof fn law_modifiers(k: TokKindV, before_function: bool, m: FnModifiersV)
    ensures
        decl_modifier_spec(k, m) == match k {
            TokKindV::Kw(Kw::Extern) => Some(FnModifiersV { is_extern: true, ..m }),
            TokKindV::Kw(Kw::Inline) => Some(FnModifiersV { is_inline: true, ..m }),
            TokKindV::Kw(Kw::Static) => Some(FnModifiersV { is_static: true, ..m }),
            TokKindV::Kw(Kw::Override) => Some(FnModifiersV { is_override: true, ..m }),
            TokKindV::Kw(Kw::Dynamic) => Some(FnModifiersV { is_dynamic: true, ..m }),
            TokKindV::Kw(Kw::Macro) => Some(FnModifiersV { is_macro: true, ..m }),
            _ => None,
        },
        k != TokKindV::Kw(Kw::Static) && k != TokKindV::Kw(Kw::Abstract) && k != TokKindV::Kw(Kw::Final) ==> member_modifier_spec(
            k,
            before_function,
            m,
        ) == decl_modifier_spec(k, m),
        member_modifier_spec(TokKindV::Kw(Kw::Static), before_function, m) is None,
        member_modifier_spec(TokKindV::Kw(Kw::Abstract), before_function, m) == Some(FnModifiersV { is_abstract: true, ..m }),
        member_modifier_spec(TokKindV::Kw(Kw::Final), before_function, m) == if before_function {
            Some(FnModifiersV { is_final: true, ..m })
        } else {
            None
        },
{
    reveal(decl_modifier_spec);
    reveal(member_modifier_spec);
}

/// The first access that is written out stands.
pub proof fn law_first_access_stands(current: Access, new: Access)
    ensures
        set_access_spec(Access::Default, new) == new,
        current != Access::Default ==> set_access_spec(current, new) == current,
{
}

/// The words before a member: each of `public`, `private` and `static` counts once and for
/// what it says.
pub proof fn law_member_words(c: Ctx, st: St, m: FnModifiersV, access: Access, is_static: bool)
    ensures
        word_next(c, st, Kw::Public) ==> parse_member_modifiers_spec(c, st, m, access, is_static) == parse_member_modifiers_spec(
            c,
            past(st),
            m,
            if access == Access::Default { Access::Public } else { access },
            is_static,
        ),
        word_next(c, st, Kw::Private) ==> parse_member_modifiers_spec(c, st, m, access, is_static) == parse_member_modifiers_spec(
            c,
            past(st),
            m,
            if access == Access::Default { Access::Private } else { access },
            is_static,
        ),
        word_next(c, st, Kw::Static) ==> parse_member_modifiers_spec(c, st, m, access, is_static) == parse_member_modifiers_spec(
            c,
            past(st),
            m,
            access,
            true,
        ),
{
    reveal(parse_member_modifiers_spec);
}

/// The words of a property's access, and no others.
pub proof fn law_property_access(word: Seq<char>)
    ensures
        prop_access_spec("default"@) == Some(PropAccess::Default),
        prop_access_spec("null"@) == Some(PropAccess::Null),
        prop_access_spec("get"@) == Some(PropAccess::Get),
        prop_access_spec("set"@) == Some(PropAccess::Setter),
        prop_access_spec("never"@) == Some(PropAccess::Never),
        prop_access_spec("dynamic"@) == Some(PropAccess::Dynamic),
        prop_access_spec(word) is Some ==> word == "default"@ || word == "null"@ || word == "get"@ || word == "set"@ || word == "never"@
            || word == "dynamic"@,
{
    reveal(prop_access_spec);
    access_words();
}

/// `x(a, b)` reads by the first access and writes by the second; a field without them does
/// both freely.
pub proof fn law_property(c: Ctx, st: St, meta: Seq<MetaV>, access: Access, is_static: bool, is_final: bool, is_inline: bool, name: Seq<char>, get: Seq<char>, set: Seq<char>)
    requires
        peek_spec(c, st) == TokKindV::Ident(name),
    ensures
        sym_next(c, past(st), Sym::LParen) && peek_spec(c, past(past(st))) == TokKindV::Ident(get) && sym_next(c, past(past(past(st))), Sym::Comma)
            && peek_spec(c, past(past(past(past(st))))) == TokKindV::Ident(set) && sym_next(c, past(past(past(past(past(st))))), Sym::RParen)
            && prop_access_spec(get) is Some && prop_access_spec(set) is Some ==> (parse_field_spec(c, st, meta, access, is_static, is_final, is_inline) matches Pr::Done(f, _)
            ==> f.name == name && f.get == prop_access_spec(get)->0 && f.set == prop_access_spec(set)->0 && f.access == access && f.is_static == is_static
            && f.is_final == is_final && f.is_inline == is_inline && f.meta == meta),
        !sym_next(c, past(st), Sym::LParen) ==> (parse_field_spec(c, st, meta, access, is_static, is_final, is_inline) matches Pr::Done(f, _)
            ==> f.name == name && f.get == PropAccess::Default && f.set == PropAccess::Default && f.access == access && f.is_static == is_static
            && f.is_final == is_final && f.is_inline == is_inline && f.meta == meta),
{
    reveal(parse_field_spec);
}

proof fn access_words()
    ensures
        "default"@.len() == 7,
        "default"@[0] == 'd',
        "default"@[1] == 'e',
        "default"@[2] == 'f',
        "default"@[3] == 'a',
        "default"@[4] == 'u',
        "default"@[5] == 'l',
        "default"@[6] == 't',
        "null"@.len() == 4,
        "null"@[0] == 'n',
        "null"@[1] == 'u',
        "null"@[2] == 'l',
        "null"@[3] == 'l',
        "get"@.len() == 3,
        "get"@[0] == 'g',
        "get"@[1] == 'e',
        "get"@[2] == 't',
        "set"@.len() == 3,
        "set"@[0] == 's',
        "set"@[1] == 'e',
        "set"@[2] == 't',
        "never"@.len() == 5,
        "never"@[0] == 'n',
        "never"@[1] == 'e',
        "never"@[2] == 'v',
        "never"@[3] == 'e',
        "never"@[4] == 'r',
        "dynamic"@.len() == 7,
        "dynamic"@[0] == 'd',
        "dynamic"@[1] == 'y',
        "dynamic"@[2] == 'n',
        "dynamic"@[3] == 'a',
        "dynamic"@[4] == 'm',
        "dynamic"@[5] == 'i',
        "dynamic"@[6] == 'c',
{
    reveal_strlit("default");
    reveal_strlit("null");
    reveal_strlit("get");
    reveal_strlit("set");
    reveal_strlit("never");
    reveal_strlit("dynamic");
}

/// A local declared behind `@delete` is to be freed, one behind `@sink` is not; `final` makes
/// it constant and `var` does not.
pub proof fn law_local_marks(c: Ctx, st: St, s: Seq<char>)
    ensures
        word_next(c, st, Kw::Var) ==> parse_stmt_spec(c, st) == parse_var_stmt_spec(c, st, line_spec(c, st), false, false),
        word_next(c, st, Kw::Final) ==> parse_stmt_spec(c, st) == parse_var_stmt_spec(c, st, line_spec(c, st), false, false),
        peek_spec(c, st) == TokKindV::Meta("delete"@) && (word_next(c, past(st), Kw::Var) || word_next(c, past(st), Kw::Final))
            ==> parse_stmt_spec(c, st) == parse_var_stmt_spec(c, past(st), line_spec(c, st), true, false),
        peek_spec(c, st) == TokKindV::Meta("sink"@) && (word_next(c, past(st), Kw::Var) || word_next(c, past(st), Kw::Final))
            ==> parse_stmt_spec(c, st) == parse_var_stmt_spec(c, past(st), line_spec(c, st), false, true),
{
    reveal(parse_var_stmt_spec);
    reveal(parse_stmt_spec);
    reveal_strlit("delete");
    reveal_strlit("sink");
    assert("delete"@.len() == 6 && "sink"@.len() == 4);
}

/// What a declared local is made of.
pub proof fn law_local(c: Ctx, st: St, line: int, delete: bool, sink: bool, name: Seq<char>)
    requires
        word_next(c, st, Kw::Var) || word_next(c, st, Kw::Final),
        peek_spec(c, past(st)) == TokKindV::Ident(name),
    ensures
        parse_var_stmt_spec(c, st, line, delete, sink) matches Pr::Done(s, _) ==> (s matches StmtV::Var {
            name: n,
            ty,
            init,
            is_final,
            delete: d,
            sink: k,
            line: l,
        } && n == name && is_final == word_next(c, st, Kw::Final) && d == delete && k == sink && l == line && (!sym_next(
            c,
            past(past(st)),
            Sym::Colon,
        ) ==> ty is None)),
{
    reveal(parse_var_stmt_spec);
    reveal(parse_opt_type_spec);
}

/// A directive inside a body keeps its kind.
pub proof fn law_directives_in_bodies(c: Ctx, st: St, cond: Seq<char>, line: int)
    ensures
        bare_flag_spec(cond) ==> gives(directive_stmt_spec(c, st, PpKind::If, cond, line), StmtV::Verbatim { code: "#ifdef "@ + cond, line },
            st),
        bare_flag_spec(cond) ==> gives(directive_stmt_spec(c, st, PpKind::ElseIf, cond, line), StmtV::Verbatim { code: "#elif defined("@ + cond + ")"@, line },
            st),
        gives(directive_stmt_spec(c, st, PpKind::Else, cond, line), StmtV::Verbatim { code: "#else"@, line }, st),
        gives(directive_stmt_spec(c, st, PpKind::End, cond, line), StmtV::Verbatim { code: "#endif"@, line }, st),
        !bare_flag_spec(cond) ==> (directive_stmt_spec(c, st, PpKind::If, cond, line) matches Pr::Done(s, _) ==> s == (StmtV::Verbatim {
            code: "#if "@ + pp_condition_spec(cond, 0, Seq::empty())->0,
            line,
        })),
        !bare_flag_spec(cond) ==> (directive_stmt_spec(c, st, PpKind::ElseIf, cond, line) matches Pr::Done(s, _) ==> s == (StmtV::Verbatim {
            code: "#elif "@ + pp_condition_spec(cond, 0, Seq::empty())->0,
            line,
        })),
{
    reveal(directive_stmt_spec);
}

/// A case that lists `_` is the default; any other keeps its patterns and its body, in order.
pub proof fn law_cases(c: Ctx, st: St, cases: Seq<CaseV>, default: Option<Seq<StmtV>>, listed: Seq<ExprV>, s1: St, body: Seq<StmtV>, s2: St)
    ensures
        sym_next(c, st, Sym::RBrace) ==> gives(parse_cases_spec(c, st, cases, default), (cases, default), past(st)),
        word_next(c, st, Kw::Case) && was_read(c, past(st), parse_patterns_spec(c, past(st), Seq::empty()), listed, s1)
            && sym_next(c, s1, Sym::Colon) && gives(parse_case_body_spec(c, past(s1)), body, s2) && past(s1).pos <= s2.pos < c.toks.len()
            ==> ({
            let patterns = flatten_patterns_spec(listed, 0, Seq::empty());
            &&& !has_wildcard_spec(patterns) ==> parse_cases_spec(c, st, cases, default) == parse_cases_spec(
                c,
                s2,
                cases.push(CaseV { patterns, body }),
                default,
            )
            &&& has_wildcard_spec(patterns) && default is None ==> parse_cases_spec(c, st, cases, default) == parse_cases_spec(
                c,
                s2,
                cases,
                Some(body),
            )
            &&& has_wildcard_spec(patterns) && default is Some ==> parse_cases_spec(c, st, cases, default) is Fail
        }),
        word_next(c, st, Kw::Default) && default is None && sym_next(c, past(st), Sym::Colon)
            && gives(parse_case_body_spec(c, past(past(st))), body, s2) && past(past(st)).pos <= s2.pos < c.toks.len() ==> parse_cases_spec(
            c,
            st,
            cases,
            default,
        ) == parse_cases_spec(c, s2, cases, Some(body)),
        word_next(c, st, Kw::Default) && default is Some ==> parse_cases_spec(c, st, cases, default) is Fail,
{
    reveal(parse_patterns_spec);
    reveal(parse_case_body_spec);
    reveal(parse_cases_spec);
}

} // verus!
