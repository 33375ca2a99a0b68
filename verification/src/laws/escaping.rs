//! What holds of the locals that escape their scope.

use vstd::prelude::*;

use crate::codegen::scan::{collect_escaping_spec, escaping_cases_spec, escaping_catches_spec, escaping_stmt_spec, is_own_target_spec, with_name_spec};
use crate::model::{CaseV, CatchV, ExprV, StmtV};

verus! {

broadcast use {crate::model::group_model, crate::text::group_texts};

/// Whether an expression stores a local in a field of the object.
pub open spec fn stores(e: ExprV, fields: Seq<Seq<char>>, name: Seq<char>) -> bool {
    &&& e matches ExprV::Assign { op: None, target, value }
    &&& is_own_target_spec(*target, fields)
    &&& *value == ExprV::Ident(name)
}

/// Whether a local escapes in a statement: it is returned, or stored in a field, there or in a
/// statement inside.
pub open spec fn escapes(s: StmtV, fields: Seq<Seq<char>>, name: Seq<char>) -> bool
    decreases s, 0int,
{
    match s {
        StmtV::Expr(e, _) => stores(e, fields, name),
        StmtV::Return(Some(e), _) => e == ExprV::Ident(name),
        StmtV::If { cond: _, then, els, line: _ } => escapes(*then, fields, name) || (els matches Some(e) && escapes(*e, fields, name)),
        StmtV::For { var: _, value_var: _, iter: _, body, line: _ } => escapes(*body, fields, name),
        StmtV::While { cond: _, body, do_while: _, line: _ } => escapes(*body, fields, name),
        StmtV::Block(b) => escapes_from(b, fields, name, 0),
        StmtV::Switch { subject: _, cases, default, line: _ } => escapes_in_cases(cases, fields, name, 0)
            || (default matches Some(d) && escapes_from(d, fields, name, 0)),
        StmtV::Try { body, catches, line: _ } => escapes(*body, fields, name) || escapes_in_catches(catches, fields, name, 0),
        _ => false,
    }
}

/// Whether a local escapes in one of the statements from `i` on.
pub open spec fn escapes_from(stmts: Seq<StmtV>, fields: Seq<Seq<char>>, name: Seq<char>, i: int) -> bool
    decreases stmts, stmts.len() - i,
{
    0 <= i < stmts.len() && (escapes(stmts[i], fields, name) || escapes_from(stmts, fields, name, i + 1))
}

/// Whether a local escapes in one of the cases from `i` on.
pub open spec fn escapes_in_cases(cases: Seq<CaseV>, fields: Seq<Seq<char>>, name: Seq<char>, i: int) -> bool
    decreases cases, cases.len() - i,
{
    0 <= i < cases.len() && (escapes_from(cases[i].body, fields, name, 0) || escapes_in_cases(cases, fields, name, i + 1))
}

/// Whether a local escapes in one of the catches from `i` on.
pub open spec fn escapes_in_catches(catches: Seq<CatchV>, fields: Seq<Seq<char>>, name: Seq<char>, i: int) -> bool
    decreases catches, catches.len() - i,
{
    0 <= i < catches.len() && (escapes_from(catches[i].body, fields, name, 0) || escapes_in_catches(catches, fields, name, i + 1))
}

proof fn name_is_added(names: Seq<Seq<char>>, new: Seq<char>, name: Seq<char>)
    ensures
        with_name_spec(names, new).contains(name) <==> names.contains(name) || new == name,
{
    if !names.contains(new) {
        let more = names.push(new);
        assert(more[names.len() as int] == new);
        if names.contains(name) {
            let k = choose|k: int| 0 <= k < names.len() && names[k] == name;
            assert(more[k] == name);
        }
        if more.contains(name) {
            let k = choose|k: int| 0 <= k < more.len() && more[k] == name;
            if k < names.len() {
                assert(names[k] == name);
            }
        }
    }
}

proof fn statement_escapes(s: StmtV, fields: Seq<Seq<char>>, out: Seq<Seq<char>>, name: Seq<char>)
    ensures
        escaping_stmt_spec(s, fields, out).contains(name) <==> out.contains(name) || escapes(s, fields, name),
    decreases s, 0int,
{
    match s {
        StmtV::Expr(e, _) => {
            match e {
                ExprV::Assign { op: None, target, value } => {
                    match *value {
                        ExprV::Ident(n) => {
                            name_is_added(out, n, name);
                        },
                        _ => {},
                    }
                },
                _ => {},
            }
        },
        StmtV::Return(Some(e), _) => {
            match e {
                ExprV::Ident(n) => {
                    name_is_added(out, n, name);
                },
                _ => {},
            }
        },
        StmtV::If { cond: _, then, els, line: _ } => {
            statement_escapes(*then, fields, out, name);
            match els {
                Some(e) => {
                    statement_escapes(*e, fields, escaping_stmt_spec(*then, fields, out), name);
                },
                None => {},
            }
        },
        StmtV::For { var: _, value_var: _, iter: _, body, line: _ } => {
            statement_escapes(*body, fields, out, name);
        },
        StmtV::While { cond: _, body, do_while: _, line: _ } => {
            statement_escapes(*body, fields, out, name);
        },
        StmtV::Block(b) => {
            statements_escape(b, fields, 0, out, name);
        },
        StmtV::Switch { subject: _, cases, default, line: _ } => {
            cases_escape(cases, fields, 0, out, name);
            match default {
                Some(d) => {
                    statements_escape(d, fields, 0, escaping_cases_spec(cases, fields, 0, out), name);
                },
                None => {},
            }
        },
        StmtV::Try { body, catches, line: _ } => {
            statement_escapes(*body, fields, out, name);
            catches_escape(catches, fields, 0, escaping_stmt_spec(*body, fields, out), name);
        },
        _ => {},
    }
}

proof fn statements_escape(stmts: Seq<StmtV>, fields: Seq<Seq<char>>, i: int, out: Seq<Seq<char>>, name: Seq<char>)
    requires
        0 <= i,
    ensures
        collect_escaping_spec(stmts, fields, i, out).contains(name) <==> out.contains(name) || escapes_from(stmts, fields, name, i),
    decreases stmts, stmts.len() - i,
{
    if i < stmts.len() {
        statement_escapes(stmts[i], fields, out, name);
        statements_escape(stmts, fields, i + 1, escaping_stmt_spec(stmts[i], fields, out), name);
    }
}

proof fn cases_escape(cases: Seq<CaseV>, fields: Seq<Seq<char>>, i: int, out: Seq<Seq<char>>, name: Seq<char>)
    requires
        0 <= i,
    ensures
        escaping_cases_spec(cases, fields, i, out).contains(name) <==> out.contains(name) || escapes_in_cases(cases, fields, name, i),
    decreases cases, cases.len() - i,
{
    if i < cases.len() {
        statements_escape(cases[i].body, fields, 0, out, name);
        cases_escape(cases, fields, i + 1, collect_escaping_spec(cases[i].body, fields, 0, out), name);
    }
}

proof fn catches_escape(catches: Seq<CatchV>, fields: Seq<Seq<char>>, i: int, out: Seq<Seq<char>>, name: Seq<char>)
    requires
        0 <= i,
    ensures
        escaping_catches_spec(catches, fields, i, out).contains(name) <==> out.contains(name) || escapes_in_catches(catches, fields, name, i),
    decreases catches, catches.len() - i,
{
    if i < catches.len() {
        statements_escape(catches[i].body, fields, 0, out, name);
        catches_escape(catches, fields, i + 1, collect_escaping_spec(catches[i].body, fields, 0, out), name);
    }
}

/// The locals found to escape a body are just those that one of its statements, however deep,
/// returns or stores in a field of the object.
pub proof fn law_escaping_locals(body: Seq<StmtV>, fields: Seq<Seq<char>>, name: Seq<char>)
    ensures
        collect_escaping_spec(body, fields, 0, Seq::empty()).contains(name) <==> escapes_from(body, fields, name, 0),
{
    statements_escape(body, fields, 0, Seq::empty(), name);
}

} // verus!
