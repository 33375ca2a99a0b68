//! What statements contain: breaks that bind to an outer loop, locals that escape, and the
//! values branches end in.

use vstd::prelude::*;

use crate::ast::{Case, Catch, Expr, GlobalVar, Param, Stmt, Type};
use crate::copy::dup_types;
use crate::model::{CaseV, CatchV, ExprV, GlobalVarV, ParamV, StmtV, TypeV, cases_v, catchs_v, params_v, stmts_v, types_v};
use crate::text::{has_text, texts};

verus! {

broadcast use {crate::model::group_model, crate::text::group_texts};

/// Whether the statements from `i` on contain a `break` that binds to the loop around them:
/// one not inside an inner loop.
pub fn stmts_contain_loop_break(stmts: &Vec<Stmt>, i: usize) -> (r: bool)
    ensures
        r == stmts_contain_loop_break_spec(stmts_v(stmts@), (i as int)),
    decreases stmts@, stmts.len() - i,
{
    if i >= stmts.len() {
        false
    } else if stmt_contains_loop_break(&stmts[i]) {
        true
    } else {
        stmts_contain_loop_break(stmts, i + 1)
    }
}

/// Whether a case from `i` on breaks out of an enclosing loop.
pub fn cases_contain_loop_break(cases: &Vec<Case>, i: usize) -> (r: bool)
    ensures
        r == cases_contain_loop_break_spec(cases_v(cases@), (i as int)),
    decreases cases@, cases.len() - i,
{
    if i >= cases.len() {
        false
    } else if stmts_contain_loop_break(&cases[i].body, 0) {
        true
    } else {
        cases_contain_loop_break(cases, i + 1)
    }
}

/// Whether a catch from `i` on breaks out of an enclosing loop.
pub fn catches_contain_loop_break(catches: &Vec<Catch>, i: usize) -> (r: bool)
    ensures
        r == catches_contain_loop_break_spec(catchs_v(catches@), (i as int)),
    decreases catches@, catches.len() - i,
{
    if i >= catches.len() {
        false
    } else if stmts_contain_loop_break(&catches[i].body, 0) {
        true
    } else {
        catches_contain_loop_break(catches, i + 1)
    }
}

/// Whether a statement contains a `break` that binds to the loop around it. The breaks of
/// nested switches are still loop-bound.
pub fn stmt_contains_loop_break(st: &Stmt) -> (r: bool)
    ensures
        r == stmt_contains_loop_break_spec(st.v()),
    decreases *st, 0int,
{
    match st.node() {
        Stmt::Break => true,
        Stmt::If { cond: _, then, els, line: _ } => {
            if stmt_contains_loop_break(then) {
                return true;
            }
            match els {
                Some(e) => stmt_contains_loop_break(e),
                None => false,
            }
        },
        Stmt::Block(b) => stmts_contain_loop_break(b, 0),
        Stmt::Switch { subject: _, cases, default, line: _ } => {
            if cases_contain_loop_break(cases, 0) {
                return true;
            }
            match default {
                Some(d) => stmts_contain_loop_break(d, 0),
                None => false,
            }
        },
        Stmt::Try { body, catches, line: _ } => {
            if stmt_contains_loop_break(body) {
                return true;
            }
            catches_contain_loop_break(catches, 0)
        },
        _ => false,
    }
}

/// The names with one more, where it is not there yet.
pub open spec fn with_name_spec(names: Seq<Seq<char>>, name: Seq<char>) -> Seq<Seq<char>> {
    if names.contains(name) { names } else { names.push(name) }
}

/// The names with one more, where it is not among them yet.
pub fn with_name(names: Vec<String>, name: &str) -> (r: Vec<String>)
    ensures
        texts(r@) == with_name_spec(texts(names@), name@),
{
    let mut out = names;
    if !has_text(&out, name) {
        out.push(name.to_owned());
    }
    out
}

/// Whether an assignment target is a field of the object: `this.f`, or a bare field name.
pub fn is_own_target(target: &Expr, fields: &Vec<String>) -> (r: bool)
    ensures
        r == is_own_target_spec(target.v(), texts(fields@)),
{
    match target.node() {
        Expr::Field(recv, _) => matches!(recv.node(), Expr::This),
        Expr::Ident(name) => has_text(fields, name),
        _ => false,
    }
}

/// The escaping names with the one a plain assignment stores into a field.
pub fn escaping_expr(e: &Expr, fields: &Vec<String>, out: Vec<String>) -> (r: Vec<String>)
    ensures
        texts(r@) == escaping_expr_spec(e.v(), texts(fields@), texts(out@)),
{
    match e.node() {
        Expr::Assign { op: None, target, value } => {
            if is_own_target(target, fields) {
                match value.node() {
                    Expr::Ident(name) => with_name(out, name),
                    _ => out,
                }
            } else {
                out
            }
        },
        _ => out,
    }
}

/// The local names that escape the statements from `i` on, added to `out`: those assigned
/// to a field or returned. Their value is owned elsewhere and must not be freed here.
pub fn collect_escaping(stmts: &Vec<Stmt>, fields: &Vec<String>, i: usize, out: Vec<String>) -> (r: Vec<String>)
    ensures
        texts(r@) == collect_escaping_spec(stmts_v(stmts@), texts(fields@), (i as int), texts(out@)),
    decreases stmts@, stmts.len() - i,
{
    if i >= stmts.len() {
        out
    } else {
        let more = escaping_stmt(&stmts[i], fields, out);
        collect_escaping(stmts, fields, i + 1, more)
    }
}

/// The locals that escape in the cases from `i` on.
pub fn escaping_cases(cases: &Vec<Case>, fields: &Vec<String>, i: usize, out: Vec<String>) -> (r: Vec<String>)
    ensures
        texts(r@) == escaping_cases_spec(cases_v(cases@), texts(fields@), (i as int), texts(out@)),
    decreases cases@, cases.len() - i,
{
    if i >= cases.len() {
        out
    } else {
        let more = collect_escaping(&cases[i].body, fields, 0, out);
        escaping_cases(cases, fields, i + 1, more)
    }
}

/// The locals that escape in the catches from `i` on.
pub fn escaping_catches(catches: &Vec<Catch>, fields: &Vec<String>, i: usize, out: Vec<String>) -> (r: Vec<String>)
    ensures
        texts(r@) == escaping_catches_spec(catchs_v(catches@), texts(fields@), (i as int), texts(out@)),
    decreases catches@, catches.len() - i,
{
    if i >= catches.len() {
        out
    } else {
        let more = collect_escaping(&catches[i].body, fields, 0, out);
        escaping_catches(catches, fields, i + 1, more)
    }
}

/// The locals that escape in a statement.
pub fn escaping_stmt(st: &Stmt, fields: &Vec<String>, out: Vec<String>) -> (r: Vec<String>)
    ensures
        texts(r@) == escaping_stmt_spec(st.v(), texts(fields@), texts(out@)),
    decreases *st, 0int,
{
    match st.node() {
        Stmt::Expr(e, _) => escaping_expr(e, fields, out),
        Stmt::Return(Some(e), _) => match e.node() {
            Expr::Ident(name) => with_name(out, name),
            _ => out,
        },
        Stmt::If { cond: _, then, els, line: _ } => {
            let more = escaping_stmt(then, fields, out);
            match els {
                Some(e) => escaping_stmt(e, fields, more),
                None => more,
            }
        },
        Stmt::For { var: _, value_var: _, iter: _, body, line: _ } => escaping_stmt(body, fields, out),
        Stmt::While { cond: _, body, do_while: _, line: _ } => escaping_stmt(body, fields, out),
        Stmt::Block(b) => collect_escaping(b, fields, 0, out),
        Stmt::Switch { subject: _, cases, default, line: _ } => {
            let more = escaping_cases(cases, fields, 0, out);
            match default {
                Some(d) => collect_escaping(d, fields, 0, more),
                None => more,
            }
        },
        Stmt::Try { body, catches, line: _ } => {
            let more = escaping_stmt(body, fields, out);
            escaping_catches(catches, fields, 0, more)
        },
        _ => out,
    }
}

/// Whether the last statement is a `return`.
pub fn ends_in_return(stmts: &Vec<Stmt>) -> (r: bool)
    ensures
        r == ends_in_return_spec(stmts_v(stmts@)),
{
    if stmts.len() == 0 {
        return false;
    }
    matches!(stmts[stmts.len() - 1].node(), Stmt::Return(_, _))
}

/// Whether nothing runs on past the end of statements: the last one leaves them.
pub fn never_falls_through(stmts: &Vec<Stmt>) -> (r: bool)
    ensures
        r == never_falls_through_spec(stmts_v(stmts@)),
{
    if stmts.len() == 0 {
        return false;
    }
    match stmts[stmts.len() - 1].node() {
        Stmt::Return(_, _) => true,
        Stmt::Throw(_, _) => true,
        Stmt::Break => true,
        Stmt::Continue => true,
        _ => false,
    }
}

/// The trailing value of a `switch`-expression arm: its last statement if that is a bare
/// expression. `None` for an arm that ends in control flow or is empty.
pub fn case_value_expr(body: &Vec<Stmt>) -> (r: Option<&Expr>)
    ensures
        (match r { Some(y) => Some(y.v()), None => None }) == case_value_expr_spec(stmts_v(body@)),
{
    if body.len() == 0 {
        return None;
    }
    match body[body.len() - 1].node() {
        Stmt::Expr(e, _) => Some(e),
        _ => None,
    }
}

/// The trailing value of a value-`if` branch: the last expression of a block, the first
/// branch's value of a nested `if`, or a bare value.
pub fn branch_value_expr(e: &Expr) -> (r: Option<&Expr>)
    ensures
        (match r { Some(y) => Some(y.v()), None => None }) == branch_value_expr_spec(e.v()),
    decreases *e,
{
    proof {
        reveal(branch_value_expr_spec);
    }
    match e.node() {
        Expr::Block(stmts) => case_value_expr(stmts),
        Expr::If { cond: _, then, els: _ } => branch_value_expr(then),
        _ => Some(e),
    }
}

/// Statements that assign an expression to a variable.
pub fn store_stmt(tmp: &str, e: &Expr, line: usize) -> (r: Stmt)
    ensures
        r.v() == store_stmt_spec(tmp@, e.v(), (line as int)),
{
    Stmt::Expr(Expr::Assign { op: None, target: Box::new(Expr::Ident(tmp.to_owned())), value: Box::new(e.dup()) }, line)
}

/// The statements from `i` on, the last of which stores its value in a variable where it is
/// an expression.
pub fn assign_last_from(body: &Vec<Stmt>, tmp: &str, i: usize, out: Vec<Stmt>) -> (r: Vec<Stmt>)
    ensures
        stmts_v(r@) == assign_last_from_spec(stmts_v(body@), tmp@, (i as int), stmts_v(out@)),
{
    let ghost i_0 = i;
    let ghost out_0 = out;
    let mut i: usize = i;
    let mut out: Vec<Stmt> = out;
    #[verifier::loop_isolation(false)]
    loop
        invariant
            assign_last_from_spec(stmts_v(body@), tmp@, (i_0 as int), stmts_v(out_0@)) == assign_last_from_spec(stmts_v(body@), tmp@, (i as int), stmts_v(out@)),
        decreases body.len() - i,
    {
        if i >= body.len() {
            return out;
        }
        if i + 1 >= body.len() {
            match body[i].node() {
                Stmt::Expr(e, line) => {
                    out.push(store_stmt(tmp, e, *line));
                    return out;
                },
                _ => {},
            }
        }
        out.push(body[i].dup());
        i = i + 1;
    }
}

/// A body whose trailing value is stored in a variable.
pub fn assign_last_to(body: &Vec<Stmt>, tmp: &str) -> (r: Vec<Stmt>)
    ensures
        stmts_v(r@) == assign_last_to_spec(stmts_v(body@), tmp@),
{
    assign_last_from(body, tmp, 0, Vec::new())
}

/// A branch as a statement that stores its value in a variable.
pub fn branch_assign_to(e: &Expr, tmp: &str) -> (r: Stmt)
    ensures
        r.v() == branch_assign_to_spec(e.v(), tmp@),
    decreases *e,
{
    proof {
        reveal(branch_assign_to_spec);
    }
    match e.node() {
        Expr::Block(stmts) => Stmt::Block(assign_last_to(stmts, tmp)),
        Expr::If { cond, then, els } => {
            let other = match els {
                Some(x) => Some(Box::new(branch_assign_to(x, tmp))),
                None => None,
            };
            Stmt::If { cond: cond.dup(), then: Box::new(branch_assign_to(then, tmp)), els: other, line: 0usize }
        },
        _ => store_stmt(tmp, e, 0),
    }
}

/// A top-level `final NAME = function/lambda`: the source of a free function.
pub fn is_lambda_global(g: &GlobalVar) -> (r: bool)
    ensures
        r == is_lambda_global_spec(g.v()),
{
    if !g.is_final {
        return false;
    }
    match &g.init {
        Some(e) => matches!(e.node(), Expr::Lambda { params: _, ret: _, body: _ }),
        None => false,
    }
}

/// The parameter types of a function type.
pub fn func_params(t: &Option<Type>) -> (r: Vec<Type>)
    ensures
        types_v(r@) == func_params_spec((match t { Some(y) => Some(y.v()), None => None })),
{
    match t {
        Some(t) => match t.node() {
            Type::Func { params, ret: _ } => dup_types(params),
            _ => Vec::new(),
        },
        None => Vec::new(),
    }
}

/// A parameter with its missing type filled in.
pub fn typed_param(p: &Param, types: &Vec<Type>, i: usize) -> (r: Param)
    ensures
        r.v() == typed_param_spec(p.v(), types_v(types@), (i as int)),
{
    let mut q = p.dup();
    if p.ty.is_none() && i < types.len() {
        q.ty = Some(types[i].dup());
    }
    q
}

/// The parameters from `i` on, with the types that they are given.
pub fn typed_params_from(params: &Vec<Param>, types: &Vec<Type>, i: usize, out: Vec<Param>) -> (r: Vec<Param>)
    ensures
        params_v(r@) == typed_params_from_spec(params_v(params@), types_v(types@), (i as int), params_v(out@)),
{
    let ghost i_0 = i;
    let ghost out_0 = out;
    let mut i: usize = i;
    let mut out: Vec<Param> = out;
    #[verifier::loop_isolation(false)]
    loop
        invariant
            typed_params_from_spec(params_v(params@), types_v(types@), (i_0 as int), params_v(out_0@)) == typed_params_from_spec(params_v(params@), types_v(types@), (i as int), params_v(out@)),
        decreases params.len() - i,
    {
        if i >= params.len() {
            return out;
        }
        out.push(typed_param(&params[i], types, i));
        i = i + 1;
    }
}

/// Lambda parameters with any missing type filled from a function-type annotation on the
/// binding. An annotated parameter wins over the binding's type.
pub fn effective_lambda_params(params: &Vec<Param>, decl_ty: &Option<Type>) -> (r: Vec<Param>)
    ensures
        params_v(r@) == effective_lambda_params_spec(params_v(params@), (match decl_ty { Some(y) => Some(y.v()), None => None })),
{
    proof {
        reveal(effective_lambda_params_spec);
    }
    typed_params_from(params, &func_params(decl_ty), 0, Vec::new())
}

/// What [`stmts_contain_loop_break`] computes.
pub open spec fn stmts_contain_loop_break_spec(stmts: Seq<StmtV>, i: int) -> bool
    decreases stmts, stmts.len() - i,
{
    if !(0 <= i < stmts.len()) { false } else if stmt_contains_loop_break_spec(stmts[i]) { true } else { stmts_contain_loop_break_spec(stmts, i + 1) }
}

/// What [`cases_contain_loop_break`] computes.
pub open spec fn cases_contain_loop_break_spec(cases: Seq<CaseV>, i: int) -> bool
    decreases cases, cases.len() - i,
{
    if !(0 <= i < cases.len()) { false } else if stmts_contain_loop_break_spec(cases[i].body, 0int) { true } else { cases_contain_loop_break_spec(cases, i + 1) }
}

/// What [`catches_contain_loop_break`] computes.
pub open spec fn catches_contain_loop_break_spec(catches: Seq<CatchV>, i: int) -> bool
    decreases catches, catches.len() - i,
{
    if !(0 <= i < catches.len()) { false } else if stmts_contain_loop_break_spec(catches[i].body, 0int) { true } else { catches_contain_loop_break_spec(catches, i + 1) }
}

/// What [`stmt_contains_loop_break`] computes.
pub open spec fn stmt_contains_loop_break_spec(st: StmtV) -> bool
    decreases st, 0int,
{
    match st {
        StmtV::Break => { true },
        StmtV::If { cond: _, then, els, line: _ } => {
            if stmt_contains_loop_break_spec(*then) { true } else {
                match els {
                    Some(e) => { stmt_contains_loop_break_spec(*e) },
                    None => { false },
                }
            }
        },
        StmtV::Block(b) => { stmts_contain_loop_break_spec(b, 0int) },
        StmtV::Switch { subject: _, cases, default, line: _ } => {
            if cases_contain_loop_break_spec(cases, 0int) { true } else {
                match default {
                    Some(d) => { stmts_contain_loop_break_spec(d, 0int) },
                    None => { false },
                }
            }
        },
        StmtV::Try { body, catches, line: _ } => {
            if stmt_contains_loop_break_spec(*body) { true } else { catches_contain_loop_break_spec(catches, 0int) }
        },
        _ => { false },
    }
}

/// What [`is_own_target`] computes.
pub open spec fn is_own_target_spec(target: ExprV, fields: Seq<Seq<char>>) -> bool
{
    match target {
        ExprV::Field(recv, _) => {
            (match *recv { ExprV::This => true, _ => false })
        },
        ExprV::Ident(name) => { fields.contains(name) },
        _ => { false },
    }
}

/// What [`escaping_expr`] computes.
pub open spec fn escaping_expr_spec(e: ExprV, fields: Seq<Seq<char>>, out: Seq<Seq<char>>) -> Seq<Seq<char>>
{
    match e {
        ExprV::Assign { op: None, target, value } => {
            if is_own_target_spec(*target, fields) {
                match *value {
                    ExprV::Ident(name) => { with_name_spec(out, name) },
                    _ => { out },
                }
            } else { out }
        },
        _ => { out },
    }
}

/// What [`collect_escaping`] computes.
pub open spec fn collect_escaping_spec(stmts: Seq<StmtV>, fields: Seq<Seq<char>>, i: int, out: Seq<Seq<char>>) -> Seq<Seq<char>>
    decreases stmts, stmts.len() - i,
{
    if !(0 <= i < stmts.len()) { out } else {
        let more = escaping_stmt_spec(stmts[i], fields, out);
        collect_escaping_spec(stmts, fields, i + 1, more)
    }
}

/// What [`escaping_cases`] computes.
pub open spec fn escaping_cases_spec(cases: Seq<CaseV>, fields: Seq<Seq<char>>, i: int, out: Seq<Seq<char>>) -> Seq<Seq<char>>
    decreases cases, cases.len() - i,
{
    if !(0 <= i < cases.len()) { out } else {
        let more = collect_escaping_spec(cases[i].body, fields, 0int, out);
        escaping_cases_spec(cases, fields, i + 1, more)
    }
}

/// What [`escaping_catches`] computes.
pub open spec fn escaping_catches_spec(catches: Seq<CatchV>, fields: Seq<Seq<char>>, i: int, out: Seq<Seq<char>>) -> Seq<Seq<char>>
    decreases catches, catches.len() - i,
{
    if !(0 <= i < catches.len()) { out } else {
        let more = collect_escaping_spec(catches[i].body, fields, 0int, out);
        escaping_catches_spec(catches, fields, i + 1, more)
    }
}

/// What [`escaping_stmt`] computes.
pub open spec fn escaping_stmt_spec(st: StmtV, fields: Seq<Seq<char>>, out: Seq<Seq<char>>) -> Seq<Seq<char>>
    decreases st, 0int,
{
    match st {
        StmtV::Expr(e, _) => { escaping_expr_spec(e, fields, out) },
        StmtV::Return(Some(e), _) => {
            match e {
                ExprV::Ident(name) => { with_name_spec(out, name) },
                _ => { out },
            }
        },
        StmtV::If { cond: _, then, els, line: _ } => {
            let more = escaping_stmt_spec(*then, fields, out);
            match els {
                Some(e) => { escaping_stmt_spec(*e, fields, more) },
                None => { more },
            }
        },
        StmtV::For { var: _, value_var: _, iter: _, body, line: _ } => { escaping_stmt_spec(*body, fields, out) },
        StmtV::While { cond: _, body, do_while: _, line: _ } => { escaping_stmt_spec(*body, fields, out) },
        StmtV::Block(b) => { collect_escaping_spec(b, fields, 0int, out) },
        StmtV::Switch { subject: _, cases, default, line: _ } => {
            let more = escaping_cases_spec(cases, fields, 0int, out);
            match default {
                Some(d) => { collect_escaping_spec(d, fields, 0int, more) },
                None => { more },
            }
        },
        StmtV::Try { body, catches, line: _ } => {
            let more = escaping_stmt_spec(*body, fields, out);
            escaping_catches_spec(catches, fields, 0int, more)
        },
        _ => { out },
    }
}

/// What [`ends_in_return`] computes.
pub open spec fn ends_in_return_spec(stmts: Seq<StmtV>) -> bool
{
    if (stmts.len()) == 0 { false } else {
        (match stmts[(stmts.len()) - 1] { StmtV::Return(_, _) => true, _ => false })
    }
}

/// What [`never_falls_through`] computes.
pub open spec fn never_falls_through_spec(stmts: Seq<StmtV>) -> bool
{
    if (stmts.len()) == 0 { false } else {
        match stmts[(stmts.len()) - 1] {
            StmtV::Return(_, _) => { true },
            StmtV::Throw(_, _) => { true },
            StmtV::Break => { true },
            StmtV::Continue => { true },
            _ => { false },
        }
    }
}

/// What [`case_value_expr`] computes.
pub open spec fn case_value_expr_spec(body: Seq<StmtV>) -> Option<ExprV>
{
    if (body.len()) == 0 { None } else {
        match body[(body.len()) - 1] {
            StmtV::Expr(e, _) => { Some(e) },
            _ => { None },
        }
    }
}

/// What [`branch_value_expr`] computes.
#[verifier::opaque]
pub open spec fn branch_value_expr_spec(e: ExprV) -> Option<ExprV>
    decreases e,
{
    match e {
        ExprV::Block(stmts) => { case_value_expr_spec(stmts) },
        ExprV::If { cond: _, then, els: _ } => { branch_value_expr_spec(*then) },
        _ => { Some(e) },
    }
}

/// What [`store_stmt`] computes.
pub open spec fn store_stmt_spec(tmp: Seq<char>, e: ExprV, line: int) -> StmtV
{
    StmtV::Expr(ExprV::Assign { op: None, target: Box::new(ExprV::Ident(tmp)), value: Box::new(e) }, line)
}

/// What [`assign_last_from`] computes.
pub open spec fn assign_last_from_spec(body: Seq<StmtV>, tmp: Seq<char>, i: int, out: Seq<StmtV>) -> Seq<StmtV>
    decreases body.len() - i,
{
    if !(0 <= i < body.len()) { out } else {
        if (i + 1) >= (body.len()) {
            match body[i] {
                StmtV::Expr(e, line) => {
                    let out = out.push(store_stmt_spec(tmp, e, line));
                    out
                },
                _ => {
                    let out = out.push(body[i]);
                    let i = i + 1;
                    assign_last_from_spec(body, tmp, i, out)
                },
            }
        } else {
            let out = out.push(body[i]);
            let i = i + 1;
            assign_last_from_spec(body, tmp, i, out)
        }
    }
}

/// What [`assign_last_to`] computes.
pub open spec fn assign_last_to_spec(body: Seq<StmtV>, tmp: Seq<char>) -> Seq<StmtV>
{
    assign_last_from_spec(body, tmp, 0int, Seq::empty())
}

/// What [`branch_assign_to`] computes.
#[verifier::opaque]
pub open spec fn branch_assign_to_spec(e: ExprV, tmp: Seq<char>) -> StmtV
    decreases e,
{
    match e {
        ExprV::Block(stmts) => { StmtV::Block(assign_last_to_spec(stmts, tmp)) },
        ExprV::If { cond, then, els } => {
            let other = match els {
                Some(x) => { Some(Box::new(branch_assign_to_spec(*x, tmp))) },
                None => { None },
            };
            StmtV::If { cond: *cond, then: Box::new(branch_assign_to_spec(*then, tmp)), els: other, line: 0int }
        },
        _ => { store_stmt_spec(tmp, e, 0int) },
    }
}

/// What [`is_lambda_global`] computes.
pub open spec fn is_lambda_global_spec(g: GlobalVarV) -> bool
{
    if !g.is_final { false } else {
        match g.init {
            Some(e) => {
                (match e { ExprV::Lambda { params: _, ret: _, body: _ } => true, _ => false })
            },
            None => { false },
        }
    }
}

/// What [`func_params`] computes.
pub open spec fn func_params_spec(t: Option<TypeV>) -> Seq<TypeV>
{
    match t {
        Some(t) => {
            match t {
                TypeV::Func { params, ret: _ } => { params },
                _ => { Seq::empty() },
            }
        },
        None => { Seq::empty() },
    }
}

/// What [`typed_param`] computes.
pub open spec fn typed_param_spec(p: ParamV, types: Seq<TypeV>, i: int) -> ParamV
{
    let q = p;
    let q = if (p.ty is None) && (i < (types.len())) {
        let q = ParamV { ty: Some(types[i]), ..q };
        q
    } else { q };
    q
}

/// What [`typed_params_from`] computes.
pub open spec fn typed_params_from_spec(params: Seq<ParamV>, types: Seq<TypeV>, i: int, out: Seq<ParamV>) -> Seq<ParamV>
    decreases params.len() - i,
{
    if !(0 <= i < params.len()) { out } else {
        let out = out.push(typed_param_spec(params[i], types, i));
        let i = i + 1;
        typed_params_from_spec(params, types, i, out)
    }
}

/// What [`effective_lambda_params`] computes.
#[verifier::opaque]
pub open spec fn effective_lambda_params_spec(params: Seq<ParamV>, decl_ty: Option<TypeV>) -> Seq<ParamV>
{
    typed_params_from_spec(params, func_params_spec(decl_ty), 0int, Seq::empty())
}

} // verus!
