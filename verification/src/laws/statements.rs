//! What statements become, and what is freed where a scope ends.

use vstd::prelude::*;

use crate::codegen::branch::{break_check_spec, enter_loop_spec};
use crate::codegen::control::gen_cond_spec;
use crate::codegen::expr::{gen_expr_hinted_spec, gen_expr_spec};
use crate::codegen::fndef::fn_body_spec;
use crate::codegen::gen::GenV;
use crate::codegen::helpers::{int_ty_spec, is_null_type_spec, map_get_init_spec};
use crate::codegen::loops::{bind_var_spec, count_head_spec, gen_for_spec, gen_source_spec, open_loop_spec, spelled_or_int_spec};
use crate::codegen::parts::{LoopSourceV, SourceKind, SubjectV};
use crate::codegen::scan::ends_in_return_spec;
use crate::codegen::simple_stmt::{finish_var_spec, gen_expr_stmt_spec, gen_init_spec, gen_literal_var_spec, gen_return_spec, gen_var_spec, warn_value_local_spec};
use crate::codegen::state::{Env, all_owned_deletes_spec, any_owned_spec, begin_fn_body_spec, bind_local_name_spec, body_close_deletes_spec, define_in_scope_spec, define_local_spec, deletes_of_all_spec, deletes_of_spec, drop_last_of, flush_spec, fresh_spec, has_owned_locals_spec, loop_var_spec, name_local_spec, owned_deletes_spec, pop_scope_spec, push_last, push_scope_spec, record_rename_spec, register_owned_spec, warn_spec};
use crate::codegen::stmt::{catch_header_spec, catches_all_spec, gen_block_inner_spec, gen_block_spec, gen_catch_spec, gen_catches_spec, gen_if_spec, gen_stmt_spec, gen_stmts_spec, gen_throw_spec, gen_try_spec, gen_while_spec, line_feeds_spec};
use crate::codegen::switch::{finish_switch_spec, gen_switch_spec};
use crate::codegen::ty::TyV;
use crate::codegen::types::{decl_spelling_spec, ty_of_spec};
use crate::codegen::values::{finish_return_spec, heap_new_spec, value_new_spec};
use crate::lexer::inc_spec;
use crate::model::{CatchV, ExprV, IterableV, StmtV, TypeV};

verus! {

broadcast use {crate::codegen::gen::group_gen, crate::codegen::ty::group_ty, crate::model::group_model, crate::text::group_texts};

/// The lines that delete locals, the one that was acquired last first.
pub open spec fn delete_lines(names: Seq<Seq<char>>, t: Seq<char>) -> Seq<char>
    decreases names.len(),
{
    if names.len() == 0 {
        Seq::empty()
    } else {
        t + "delete "@ + names.last() + ";\n"@ + delete_lines(names.drop_last(), t)
    }
}

/// The lines that delete the locals of the innermost scope.
pub open spec fn freed_at_close(st: GenV, t: Seq<char>) -> Seq<char> {
    if st.owned.len() == 0 {
        Seq::empty()
    } else {
        delete_lines(st.owned.last(), t)
    }
}

/// The lines that delete the locals of all scopes, the innermost first.
pub open spec fn freed_in_all(owned: Seq<Seq<Seq<char>>>, t: Seq<char>) -> Seq<char>
    decreases owned.len(),
{
    if owned.len() == 0 {
        Seq::empty()
    } else {
        delete_lines(owned.last(), t) + freed_in_all(owned.drop_last(), t)
    }
}

proof fn deletes_are_lines(names: Seq<Seq<char>>, t: Seq<char>, n: int, out: Seq<char>)
    requires
        0 <= n <= names.len(),
    ensures
        deletes_of_spec(names, t, n, out) == out + delete_lines(names.take(n), t),
    decreases n,
{
    let some = names.take(n);
    if n < 1 {
        assert(out + delete_lines(some, t) =~= out);
    } else {
        let first = t + "delete "@ + names[n - 1] + ";\n"@;
        deletes_are_lines(names, t, n - 1, out + first);
        assert(some.drop_last() =~= names.take(n - 1));
        assert(some.last() == names[n - 1]);
        assert((out + first) + delete_lines(names.take(n - 1), t) =~= out + (first + delete_lines(names.take(n - 1), t)));
    }
}

proof fn all_deletes_are_lines(owned: Seq<Seq<Seq<char>>>, t: Seq<char>, n: int, out: Seq<char>)
    requires
        0 <= n <= owned.len(),
    ensures
        deletes_of_all_spec(owned, t, n, out) == out + freed_in_all(owned.take(n), t),
    decreases n,
{
    let some = owned.take(n);
    if n < 1 {
        assert(out + freed_in_all(some, t) =~= out);
    } else {
        let names = owned[n - 1];
        deletes_are_lines(names, t, names.len() as int, out);
        assert(names.take(names.len() as int) =~= names);
        let next = out + delete_lines(names, t);
        all_deletes_are_lines(owned, t, n - 1, next);
        assert(some.drop_last() =~= owned.take(n - 1));
        assert(some.last() == names);
        assert(next + freed_in_all(owned.take(n - 1), t) =~= out + (delete_lines(names, t) + freed_in_all(owned.take(n - 1), t)));
    }
}

/// Where a scope ends, each local that it owns is deleted once, the last acquired first.
pub proof fn law_scope_frees_what_it_owns(p: Env, st: GenV, t: Seq<char>)
    ensures
        owned_deletes_spec(p, st, t) == freed_at_close(st, t),
{
    reveal(owned_deletes_spec);
    if st.owned.len() > 0 {
        let names = st.owned.last();
        deletes_are_lines(names, t, names.len() as int, Seq::empty());
        assert(names.take(names.len() as int) =~= names);
        assert(Seq::<char>::empty() + delete_lines(names, t) =~= delete_lines(names, t));
    }
}

/// Where a function is left, each local of every open scope is deleted once, those of the
/// innermost scope first.
pub proof fn law_leaving_frees_all(p: Env, st: GenV, t: Seq<char>)
    ensures
        all_owned_deletes_spec(p, st, t) == freed_in_all(st.owned, t),
{
    reveal(all_owned_deletes_spec);
    all_deletes_are_lines(st.owned, t, st.owned.len() as int, Seq::empty());
    assert(st.owned.take(st.owned.len() as int) =~= st.owned);
    assert(Seq::<char>::empty() + freed_in_all(st.owned, t) =~= freed_in_all(st.owned, t));
}

/// A block in a scope of its own ends with the lines that delete what its statements left
/// owned, and nothing of it is owned behind it.
pub proof fn law_block_frees_what_it_owns(p: Env, room: int, st: GenV, s: StmtV, t: Seq<char>)
    ensures
        ({
            let (inside, text) = gen_block_inner_spec(p, room, push_scope_spec(p, st), s, t);
            let (after, whole) = gen_block_spec(p, room, st, s, t);
            &&& whole == text + freed_at_close(inside, t)
            &&& freed_at_close(inside, t).is_suffix_of(whole)
            &&& after.owned == drop_last_of(inside.owned)
            &&& after.scopes == drop_last_of(inside.scopes)
        }),
{
    reveal(pop_scope_spec);
    reveal(gen_block_inner_spec);
    reveal(gen_block_spec);
    let (inside, text) = gen_block_inner_spec(p, room, push_scope_spec(p, st), s, t);
    law_scope_frees_what_it_owns(p, inside, t);
    let d = freed_at_close(inside, t);
    assert(gen_block_spec(p, room, st, s, t) == (pop_scope_spec(p, inside), text + d));
    assert(d =~= (text + d).subrange(text.len() as int, (text + d).len() as int));
}

/// A block whose last owned local is `x` has the line that deletes it right behind its
/// statements.
pub proof fn law_last_local_is_deleted_first(p: Env, room: int, st: GenV, s: StmtV, t: Seq<char>)
    ensures
        ({
            let (inside, text) = gen_block_inner_spec(p, room, push_scope_spec(p, st), s, t);
            inside.owned.len() > 0 && inside.owned.last().len() > 0 ==> (text + (t + "delete "@ + inside.owned.last().last() + ";\n"@)).is_prefix_of(gen_block_spec(p, room, st, s, t).1)
        }),
{
    law_block_frees_what_it_owns(p, room, st, s, t);
    let (inside, text) = gen_block_inner_spec(p, room, push_scope_spec(p, st), s, t);
    let whole = gen_block_spec(p, room, st, s, t).1;
    if inside.owned.len() > 0 && inside.owned.last().len() > 0 {
        let first = t + "delete "@ + inside.owned.last().last() + ";\n"@;
        let rest = delete_lines(inside.owned.last().drop_last(), t);
        assert(whole =~= (text + first) + rest);
        assert((text + first) =~= whole.subrange(0, (text + first).len() as int));
    }
}

/// A block among statements is put in braces one level deeper, and frees what it owns before
/// the closing one.
pub proof fn law_nested_block(p: Env, room: int, st: GenV, stmts: Seq<StmtV>, t: Seq<char>)
    ensures
        ({
            let start = push_scope_spec(p, GenV { prelude_t: t, new_args_escape: false, ..st });
            let (inside, text) = gen_stmts_spec(p, room, start, stmts, t + "\t"@, 0, Seq::empty());
            gen_stmt_spec(p, room, st, StmtV::Block(stmts), t).1 == t + "{\n"@ + text + freed_at_close(inside, t + "\t"@) + t + "}\n"@
        }),
{
    reveal(gen_stmts_spec);
    reveal(gen_stmt_spec);
    let start = push_scope_spec(p, GenV { prelude_t: t, new_args_escape: false, ..st });
    let (inside, text) = gen_stmts_spec(p, room, start, stmts, t + "\t"@, 0, Seq::empty());
    law_scope_frees_what_it_owns(p, inside, t + "\t"@);
}

/// The body of a function, a value block and a case free what they own at their end, unless
/// they end in a `return`, which frees it itself.
pub proof fn law_body_frees_what_it_owns(p: Env, room: int, st: GenV, stmts: Seq<StmtV>, t: Seq<char>)
    ensures
        body_close_deletes_spec(p, st, stmts, t) == (if stmts.len() > 0 && stmts.last() is Return {
            Seq::empty()
        } else {
            freed_at_close(st, t)
        }),
        ({
            let (inside, text) = gen_stmts_spec(p, room, begin_fn_body_spec(p, st, stmts), stmts, "\t"@, 0, Seq::empty());
            fn_body_spec(p, room, st, stmts) == (inside, text + body_close_deletes_spec(p, inside, stmts, "\t"@))
        }),
{
    reveal(gen_stmts_spec);
    reveal(body_close_deletes_spec);
    reveal(fn_body_spec);
    reveal(ends_in_return_spec);
    law_scope_frees_what_it_owns(p, st, t);
}

/// The body of a `for` frees in each round what the round acquired.
pub proof fn law_round_frees_what_it_owns(p: Env, room: int, st: GenV, var: Seq<char>, value_var: Option<Seq<char>>, iter: IterableV, body: StmtV, line: int, t: Seq<char>)
    ensures
        ({
            let (inner, flag) = enter_loop_spec(p, GenV { current_line: line, ..st });
            let (with_source, (pre, src)) = gen_source_spec(p, room, inner, iter, t);
            let (opened, head) = open_loop_spec(p, with_source, src, var, value_var, t);
            let (inside, text) = gen_block_inner_spec(p, room, opened, body, t + "\t"@);
            let (after, whole) = gen_for_spec(p, room, st, StmtV::For { var, value_var, iter, body: Box::new(body), line }, t);
            &&& whole == pre + head + text + freed_at_close(inside, t + "\t"@) + t + "}\n"@
            &&& after.loop_depth == st.loop_depth
            &&& after.switch_break_flag == st.switch_break_flag
            &&& inner.switch_break_flag is None
            &&& inner.loop_depth == inc_spec(st.loop_depth)
        }),
{
    reveal(gen_block_inner_spec);
    reveal(gen_source_spec);
    reveal(gen_for_spec);
    let (inner, flag) = enter_loop_spec(p, GenV { current_line: line, ..st });
    let (with_source, (pre, src)) = gen_source_spec(p, room, inner, iter, t);
    let (opened, head) = open_loop_spec(p, with_source, src, var, value_var, t);
    let (inside, text) = gen_block_inner_spec(p, room, opened, body, t + "\t"@);
    law_scope_frees_what_it_owns(p, inside, t + "\t"@);
}

/// A catch frees what it acquired, and forgets its variable.
pub proof fn law_catch_frees_what_it_owns(p: Env, room: int, st: GenV, c: CatchV, t: Seq<char>)
    ensures
        ({
            let (after, whole) = gen_catch_spec(p, room, st, c, t);
            &&& after.nonbinding_catch_vars == st.nonbinding_catch_vars
            &&& (t + "} "@ + catch_header_spec(p, st, c).0 + " {\n"@).is_prefix_of(whole)
            &&& exists|inside: GenV, text: Seq<char>| after.owned == drop_last_of(inside.owned) && whole == t + "} "@ + catch_header_spec(p, st, c).0 + " {\n"@ + text + #[trigger] freed_at_close(inside, t + "\t"@) + #[trigger] text.take(0)
        }),
        catches_all_spec(c) || c.ty is None ==> catch_header_spec(p, st, c).0 == "catch (...)"@,
{
    reveal(pop_scope_spec);
    reveal(gen_stmts_spec);
    reveal(gen_catch_spec);
    reveal(catch_header_spec);
    let inner = t + "\t"@;
    let (header, binds) = catch_header_spec(p, st, c);
    let opened = push_scope_spec(p, st);
    let bound = if binds {
        match c.ty {
            Some(ht) => define_local_spec(p, name_local_spec(p, opened, c.name, c.name), c.name, ty_of_spec(p, name_local_spec(p, opened, c.name, c.name), ht)),
            None => opened,
        }
    } else {
        GenV { nonbinding_catch_vars: st.nonbinding_catch_vars.push(c.name), ..opened }
    };
    let (inside, text) = gen_stmts_spec(p, room, bound, c.body, inner, 0, Seq::empty());
    law_scope_frees_what_it_owns(p, inside, inner);
    let head = t + "} "@ + header + " {\n"@;
    let (after, whole) = gen_catch_spec(p, room, st, c, t);
    assert(after == (GenV { nonbinding_catch_vars: st.nonbinding_catch_vars, ..pop_scope_spec(p, inside) }));
    assert(whole =~= head + text + freed_at_close(inside, inner) + text.take(0));
    assert(head =~= whole.subrange(0, head.len() as int));
}

/// A `return` without a value deletes everything that is owned, then returns.
pub proof fn law_plain_return(p: Env, room: int, st: GenV, line: int, t: Seq<char>)
    ensures
        gen_stmt_spec(p, room, st, StmtV::Return(None, line), t).1 == freed_in_all(st.owned, t) + t + "return;\n"@,
{
    reveal(gen_stmt_spec);
    let start = GenV { prelude_t: t, new_args_escape: false, ..st };
    law_leaving_frees_all(p, start, t);
}

proof fn owned_somewhere(owned: Seq<Seq<Seq<char>>>, i: int)
    requires
        0 <= i <= owned.len(),
    ensures
        any_owned_spec(owned, i) <==> exists|k: int| i <= k < owned.len() && (#[trigger] owned[k]).len() > 0,
    decreases owned.len() - i,
{
    if i < owned.len() {
        owned_somewhere(owned, i + 1);
        if owned[i].len() > 0 {
            assert(owned[i].len() > 0);
        }
    }
}

/// A returned value is computed before anything is deleted, and what is owned in any open scope
/// is deleted before the value is returned.
pub proof fn law_value_is_kept_over_the_deletes(p: Env, st: GenV, t: Seq<char>, value: Seq<char>)
    ensures
        ({
            let (after, text) = finish_return_spec(p, st, t, value);
            let tmp = fresh_spec(p, st, "ret"@).1;
            &&& (exists|k: int| 0 <= k < st.owned.len() && (#[trigger] st.owned[k]).len() > 0) ==>
                text == (t + decl_spelling_spec(st.current_ret) + " "@ + tmp + " = "@ + value + ";\n"@) + freed_in_all(st.owned, t) + (t + "return "@ + tmp + ";\n"@)
            &&& (forall|k: int| 0 <= k < st.owned.len() ==> (#[trigger] st.owned[k]).len() == 0) ==>
                text == t + "return "@ + value + ";\n"@ && after == st
            &&& after.owned == st.owned
        }),
{
    reveal(finish_return_spec);
    reveal(has_owned_locals_spec);
    reveal(fresh_spec);
    owned_somewhere(st.owned, 0);
    let (fresh, tmp) = fresh_spec(p, st, "ret"@);
    law_leaving_frees_all(p, fresh, t);
    let (after, text) = finish_return_spec(p, st, t, value);
    if has_owned_locals_spec(p, st) {
        let a = t + decl_spelling_spec(st.current_ret) + " "@ + tmp + " = "@ + value + ";\n"@;
        assert(text =~= a + freed_in_all(st.owned, t) + (t + "return "@ + tmp + ";\n"@));
    }
}

/// `continue` goes on with the loop and `break` leaves it; out of a C++ `switch`, the flag that
/// is tested behind it is set first.
pub proof fn law_jumps(p: Env, room: int, st: GenV, t: Seq<char>)
    ensures
        gen_stmt_spec(p, room, st, StmtV::Continue, t).1 == t + "continue;\n"@,
        st.switch_break_flag is None ==> gen_stmt_spec(p, room, st, StmtV::Break, t).1 == t + "break;\n"@,
        st.switch_break_flag matches Some(flag) ==> gen_stmt_spec(p, room, st, StmtV::Break, t).1 == t + flag + " = true;\n"@ + t + "break;\n"@,
        gen_stmt_spec(p, room, st, StmtV::Break, t).0.owned == st.owned,
        gen_stmt_spec(p, room, st, StmtV::Continue, t).0.owned == st.owned,
{
    reveal(gen_stmt_spec);
}

/// The flag of a `switch` starts out false, and where it was set behind the `switch` the loop
/// is left; in a `switch` inside another one, that one is told too.
pub proof fn law_switch_flag(p: Env, st: GenV, subj: SubjectV, flag: Seq<char>, outer: Option<Seq<char>>, text: Seq<char>, t: Seq<char>)
    ensures
        finish_switch_spec(p, st, subj, None, outer, text, t) == text,
        finish_switch_spec(p, st, subj, Some(flag), None, text, t) == (t + "bool "@ + flag + " = false;\n"@) + text + (t + "if ("@ + flag + ") break;\n"@),
        outer matches Some(o) ==> finish_switch_spec(p, st, subj, Some(flag), outer, text, t) == (t + "bool "@ + flag + " = false;\n"@) + text + (t + "if ("@ + flag + ") { "@ + o + " = true; break; }\n"@),
{
    reveal(finish_switch_spec);
    reveal(break_check_spec);
}

/// An `if` runs its first branch where the condition holds and the other one where it does
/// not; each branch is a block of its own.
pub proof fn law_if_branches(p: Env, room: int, st: GenV, cond: ExprV, then: StmtV, els: StmtV, line: int, t: Seq<char>)
    ensures
        ({
            let (tested, (pre, c)) = gen_cond_spec(p, room, GenV { current_line: line, ..st }, cond, t);
            let (after_then, a) = gen_block_spec(p, room, tested, then, t + "\t"@);
            let (after_else, b) = gen_block_spec(p, room, after_then, els, t + "\t"@);
            let head = pre + t + "if ("@ + c + ") {\n"@;
            &&& gen_if_spec(p, room, st, StmtV::If { cond, then: Box::new(then), els: None, line }, t) == (after_then, head + a + (t + "}\n"@))
            &&& gen_if_spec(p, room, st, StmtV::If { cond, then: Box::new(then), els: Some(Box::new(els)), line }, t)
                == (after_else, head + a + (t + "} else {\n"@) + b + (t + "}\n"@))
        }),
{
    reveal(gen_block_spec);
    reveal(gen_cond_spec);
    reveal(gen_if_spec);
    let (tested, (pre, c)) = gen_cond_spec(p, room, GenV { current_line: line, ..st }, cond, t);
    let (after_then, a) = gen_block_spec(p, room, tested, then, t + "\t"@);
    let (after_else, b) = gen_block_spec(p, room, after_then, els, t + "\t"@);
    let head = pre + t + "if ("@ + c + ") {\n"@;
    let none = Seq::<char>::empty();
    assert(head + a + none + t + "}\n"@ =~= head + a + (t + "}\n"@));
    assert(head + a + (t + "} else {\n"@ + b) + t + "}\n"@ =~= head + a + (t + "} else {\n"@) + b + (t + "}\n"@));
}

/// A `while` tests its condition before each round, a `do` behind it; a `break` inside is one
/// of this loop.
pub proof fn law_while_and_do(p: Env, room: int, st: GenV, cond: ExprV, body: StmtV, line: int, t: Seq<char>)
    ensures
        ({
            let (inner, flag) = enter_loop_spec(p, GenV { current_line: line, ..st });
            let (tested, (pre, c)) = gen_cond_spec(p, room, inner, cond, t);
            let (_, b) = gen_block_spec(p, room, tested, body, t + "\t"@);
            let (done, first) = gen_block_spec(p, room, inner, body, t + "\t"@);
            let (asked, (d, _)) = gen_expr_spec(p, room, done, cond);
            let plain = gen_while_spec(p, room, st, StmtV::While { cond, body: Box::new(body), do_while: false, line }, t);
            let post = gen_while_spec(p, room, st, StmtV::While { cond, body: Box::new(body), do_while: true, line }, t);
            &&& plain.1 == pre + (t + "while ("@ + c + ") {\n"@) + b + (t + "}\n"@)
            &&& post.1 == (t + "do {\n"@) + first + asked.prelude + (t + "} while ("@ + d + ");\n"@)
            &&& inner.switch_break_flag is None && inner.loop_depth == inc_spec(st.loop_depth)
            &&& plain.0.switch_break_flag == st.switch_break_flag && plain.0.loop_depth == st.loop_depth
            &&& post.0.switch_break_flag == st.switch_break_flag && post.0.loop_depth == st.loop_depth
        }),
{
    reveal(gen_block_spec);
    reveal(gen_cond_spec);
    reveal(gen_expr_spec);
    reveal(gen_while_spec);
    reveal(flush_spec);
    let (inner, flag) = enter_loop_spec(p, GenV { current_line: line, ..st });
    let (tested, (pre, c)) = gen_cond_spec(p, room, inner, cond, t);
    let (_, b) = gen_block_spec(p, room, tested, body, t + "\t"@);
    let (done, first) = gen_block_spec(p, room, inner, body, t + "\t"@);
    let (asked, (d, _)) = gen_expr_spec(p, room, done, cond);
    assert(pre + t + "while ("@ + c + ") {\n"@ + b + t + "}\n"@ =~= pre + (t + "while ("@ + c + ") {\n"@) + b + (t + "}\n"@));
    assert(t + "do {\n"@ + first + asked.prelude + t + "} while ("@ + d + ");\n"@ =~= (t + "do {\n"@) + first + asked.prelude + (t + "} while ("@ + d + ");\n"@));
}

/// A condition needs its lines in front of the statement, and leaves none behind.
pub proof fn law_condition(p: Env, room: int, st: GenV, cond: ExprV, t: Seq<char>)
    ensures
        ({
            let (asked, (code, _)) = gen_expr_spec(p, room, GenV { prelude_t: t, ..st }, cond);
            let (after, (pre, c)) = gen_cond_spec(p, room, st, cond, t);
            &&& c == code
            &&& pre == asked.prelude
            &&& after == (GenV { prelude: Seq::empty(), ..asked })
        }),
{
    reveal(gen_expr_spec);
    reveal(gen_cond_spec);
    reveal(flush_spec);
}

/// A counting loop starts at its first bound, stops in front of the second and goes up by one.
/// One over a container goes over all of it, and its variable is the element of the round.
pub proof fn law_loop_heads(p: Env, st: GenV, src: LoopSourceV, var: Seq<char>, t: Seq<char>)
    ensures
        ({
            let opened = push_scope_spec(p, st);
            let n = loop_var_spec(p, opened, var).1;
            src.kind == SourceKind::Range ==> open_loop_spec(p, st, src, var, None, t).1
                == t + "for (int "@ + n + " = "@ + src.code + "; "@ + n + " < "@ + src.aux + "; ++"@ + n + ") {\n"@
        }),
        ({
            let (with_i, i) = fresh_spec(p, push_scope_spec(p, st), "i"@);
            let line = bind_var_spec(p, with_i, var, src.val_ty, (if src.kind == SourceKind::Vector { src.code } else { src.aux }) + "["@ + i + "]"@, t).1;
            src.kind == SourceKind::Vector || src.kind == SourceKind::Ordered ==> open_loop_spec(p, st, src, var, None, t).1
                == (t + "for (size_t "@ + i + " = 0; "@ + i + " < "@ + src.code + ".size(); ++"@ + i + ") {\n"@) + line
        }),
        ({
            let (with_it, it) = fresh_spec(p, push_scope_spec(p, st), "it"@);
            let line = bind_var_spec(p, with_it, var, src.val_ty, it + "->second"@, t).1;
            src.kind == SourceKind::Entries ==> open_loop_spec(p, st, src, var, None, t).1
                == (t + "for ("@ + src.aux + "::iterator "@ + it + " = "@ + src.code + ".begin(); "@ + it + " != "@ + src.code + ".end(); ++"@ + it + ") {\n"@) + line
        }),
        ({
            let line = bind_var_spec(p, push_scope_spec(p, st), var, src.val_ty, src.code + "next()"@, t).1;
            src.kind == SourceKind::Custom ==> open_loop_spec(p, st, src, var, None, t).1 == (t + "while ("@ + src.code + "hasNext()) {\n"@) + line
        }),
{
    reveal(open_loop_spec);
    reveal(count_head_spec);
}

/// A loop over pairs binds the key of the round, or its index, to the first variable and what
/// belongs to it to the second.
pub proof fn law_loop_over_pairs(p: Env, st: GenV, src: LoopSourceV, key: Seq<char>, value: Seq<char>, t: Seq<char>)
    ensures
        ({
            let (with_i, i) = fresh_spec(p, push_scope_spec(p, st), "i"@);
            let (with_key, a) = bind_var_spec(p, with_i, key, int_ty_spec(), "(int)"@ + i, t);
            let (_, b) = bind_var_spec(p, with_key, value, src.val_ty, src.code + "["@ + i + "]"@, t);
            src.kind == SourceKind::Vector ==> (a + b).is_suffix_of(open_loop_spec(p, st, src, key, Some(value), t).1)
        }),
        ({
            let (with_it, it) = fresh_spec(p, push_scope_spec(p, st), "it"@);
            let (with_key, a) = bind_var_spec(p, with_it, key, src.key_ty, it + "->first"@, t);
            let (_, b) = bind_var_spec(p, with_key, value, src.val_ty, it + "->second"@, t);
            src.kind == SourceKind::Entries ==> (a + b).is_suffix_of(open_loop_spec(p, st, src, key, Some(value), t).1)
        }),
        ({
            let (with_i, i) = fresh_spec(p, push_scope_spec(p, st), "i"@);
            let (with_key, a) = bind_var_spec(p, with_i, key, src.key_ty, src.code + "["@ + i + "]"@, t);
            let (_, b) = bind_var_spec(p, with_key, value, src.val_ty, src.aux + "["@ + i + "]"@, t);
            src.kind == SourceKind::Ordered ==> (a + b).is_suffix_of(open_loop_spec(p, st, src, key, Some(value), t).1)
        }),
{
    reveal(open_loop_spec);
    let whole = open_loop_spec(p, st, src, key, Some(value), t).1;
    let (with_i, i) = fresh_spec(p, push_scope_spec(p, st), "i"@);
    let (with_it, it) = fresh_spec(p, push_scope_spec(p, st), "it"@);
    if src.kind == SourceKind::Vector {
        let (with_key, a) = bind_var_spec(p, with_i, key, int_ty_spec(), "(int)"@ + i, t);
        let (_, b) = bind_var_spec(p, with_key, value, src.val_ty, src.code + "["@ + i + "]"@, t);
        behind(count_head_spec(p, with_i, i, src.code, t), a, b);
    } else if src.kind == SourceKind::Entries {
        let (with_key, a) = bind_var_spec(p, with_it, key, src.key_ty, it + "->first"@, t);
        let (_, b) = bind_var_spec(p, with_key, value, src.val_ty, it + "->second"@, t);
        behind(t + "for ("@ + src.aux + "::iterator "@ + it + " = "@ + src.code + ".begin(); "@ + it + " != "@ + src.code + ".end(); ++"@ + it + ") {\n"@, a, b);
    } else if src.kind == SourceKind::Ordered {
        let (with_key, a) = bind_var_spec(p, with_i, key, src.key_ty, src.code + "["@ + i + "]"@, t);
        let (_, b) = bind_var_spec(p, with_key, value, src.val_ty, src.aux + "["@ + i + "]"@, t);
        behind(count_head_spec(p, with_i, i, src.code, t), a, b);
    }
}

proof fn behind(head: Seq<char>, a: Seq<char>, b: Seq<char>)
    ensures
        (a + b).is_suffix_of(head + a + b),
{
    let whole = head + a + b;
    assert((a + b) =~= whole.subrange(head.len() as int, whole.len() as int));
}

/// The line that binds a loop variable declares a local of that name and type, which later uses
/// find.
pub proof fn law_loop_variable(p: Env, st: GenV, var: Seq<char>, ty: TyV, code: Seq<char>, t: Seq<char>)
    ensures
        ({
            let (named, name) = bind_local_name_spec(p, st, var);
            let (after, line) = bind_var_spec(p, st, var, ty, code, t);
            &&& line == t + "\t"@ + (if ty.base.len() == 0 { "int"@ } else { decl_spelling_spec(ty) }) + " "@ + name + " = "@ + code + ";\n"@
            &&& after == define_local_spec(p, named, var, ty)
        }),
{
    reveal(bind_var_spec);
    reveal(spelled_or_int_spec);
}

/// What a loop over a range runs over: its bounds, the upper one kept in a variable unless it is
/// written out.
pub proof fn law_range_bounds(p: Env, room: int, st: GenV, a: ExprV, b: ExprV, t: Seq<char>)
    ensures
        ({
            let (s1, (from, _)) = gen_expr_spec(p, room, GenV { prelude_t: t, ..st }, a);
            let (s2, (to, tty)) = gen_expr_spec(p, room, s1, b);
            let end = if tty.unsigned { "(int)("@ + to + ")"@ } else { to };
            let (after, (pre, src)) = gen_source_spec(p, room, st, IterableV::Range(a, b), t);
            &&& src.kind == SourceKind::Range
            &&& src.code == from
            &&& b is Int ==> src.aux == end && pre == s2.prelude
            &&& !(b is Int) ==> pre == s2.prelude + t + "int "@ + src.aux + " = "@ + end + ";\n"@
            &&& after.prelude.len() == 0
        }),
{
    reveal(gen_expr_spec);
    reveal(gen_source_spec);
    reveal(flush_spec);
    reveal(fresh_spec);
}

/// A thrown string is thrown as a `std::string`, anything else as it is.
pub proof fn law_thrown_value(p: Env, room: int, st: GenV, e: ExprV, t: Seq<char>)
    ensures
        ({
            let (s1, (code, ty)) = gen_expr_spec(p, room, st, e);
            gen_throw_spec(p, room, st, e, t).1 == s1.prelude + t + "throw "@ + (if ty.base == "std::string"@ { "std::string("@ + code + ")"@ } else { code }) + ";\n"@
        }),
{
    reveal(gen_expr_spec);
    reveal(gen_throw_spec);
    reveal(flush_spec);
    let (s1, (code, ty)) = gen_expr_spec(p, room, st, e);
    reveal_strlit("throw std::string(");
    reveal_strlit("throw ");
    reveal_strlit("std::string(");
    reveal_strlit(");\n");
    reveal_strlit(")");
    reveal_strlit(";\n");
    assert(s1.prelude + t + "throw std::string("@ + code + ");\n"@ =~= s1.prelude + t + "throw "@ + ("std::string("@ + code + ")"@) + ";\n"@);
}

/// A `try` runs its body as a block, and its catches follow in their order.
pub proof fn law_try_and_catches(p: Env, room: int, st: GenV, body: StmtV, catches: Seq<CatchV>, line: int, t: Seq<char>)
    ensures
        ({
            let (tried, b) = gen_block_spec(p, room, GenV { current_line: line, ..st }, body, t + "\t"@);
            let (_, c) = gen_catches_spec(p, room, tried, catches, t, 0, Seq::empty());
            gen_try_spec(p, room, st, StmtV::Try { body: Box::new(body), catches, line }, t).1 == (t + "try {\n"@) + b + c + (t + "}\n"@)
        }),
{
    reveal(gen_block_spec);
    reveal(gen_catches_spec);
    reveal(gen_try_spec);
    let (tried, b) = gen_block_spec(p, room, GenV { current_line: line, ..st }, body, t + "\t"@);
    let (_, c) = gen_catches_spec(p, room, tried, catches, t, 0, Seq::empty());
    assert(t + "try {\n"@ + b + c + t + "}\n"@ =~= (t + "try {\n"@) + b + c + (t + "}\n"@));
}

/// Each statement is generated in the state that those before it left, and their texts follow
/// each other.
pub proof fn law_statements_in_sequence(p: Env, room: int, st: GenV, stmts: Seq<StmtV>, t: Seq<char>, i: int, out: Seq<char>)
    requires
        0 <= i < stmts.len(),
    ensures
        ({
            let (next, text) = gen_stmt_spec(p, room, st, stmts[i], t);
            gen_stmts_spec(p, room, st, stmts, t, i, out) == gen_stmts_spec(p, room, next, stmts, t, i + 1, out + text)
        }),
        gen_stmts_spec(p, room, st, stmts, t, stmts.len() as int, out) == (st, out),
{
    reveal(gen_stmt_spec);
    reveal(gen_stmts_spec);
}

/// The statement that a kind of statement is.
pub proof fn law_statement_kinds(p: Env, room: int, st: GenV, s: StmtV, t: Seq<char>)
    ensures
        ({
            let start = GenV { prelude_t: t, new_args_escape: false, ..st };
            &&& s is Var ==> gen_stmt_spec(p, room, st, s, t) == gen_var_spec(p, room, start, s, t)
            &&& s is If ==> gen_stmt_spec(p, room, st, s, t) == gen_if_spec(p, room, start, s, t)
            &&& s is While ==> gen_stmt_spec(p, room, st, s, t) == gen_while_spec(p, room, start, s, t)
            &&& s is For ==> gen_stmt_spec(p, room, st, s, t) == gen_for_spec(p, room, start, s, t)
            &&& s is Switch ==> gen_stmt_spec(p, room, st, s, t) == gen_switch_spec(p, room, start, s, t)
            &&& s is Try ==> gen_stmt_spec(p, room, st, s, t) == gen_try_spec(p, room, start, s, t)
            &&& s matches StmtV::Expr(e, line) ==> gen_stmt_spec(p, room, st, s, t) == gen_expr_stmt_spec(p, room, GenV { current_line: line, ..start }, e, t)
            &&& s matches StmtV::Return(Some(e), line) ==> gen_stmt_spec(p, room, st, s, t) == gen_return_spec(p, room, GenV { current_line: line, ..start }, e, t)
            &&& s matches StmtV::Throw(e, line) ==> gen_stmt_spec(p, room, st, s, t) == gen_throw_spec(p, room, GenV { current_line: line, ..start }, e, t)
            &&& s matches StmtV::Verbatim { code, line } ==> gen_stmt_spec(p, room, st, s, t).1 == line_feeds_spec(code) + "\n"@
        }),
        s matches StmtV::Block(stmts) ==> gen_block_inner_spec(p, room, st, s, t) == gen_stmts_spec(p, room, st, stmts, t, 0, Seq::empty()),
        !(s is Block) ==> gen_block_inner_spec(p, room, st, s, t) == gen_stmt_spec(p, room, st, s, t),
{
    reveal(gen_var_spec);
    reveal(gen_if_spec);
    reveal(gen_while_spec);
    reveal(gen_for_spec);
    reveal(gen_switch_spec);
    reveal(gen_try_spec);
    reveal(gen_expr_stmt_spec);
    reveal(gen_return_spec);
    reveal(gen_throw_spec);
    reveal(gen_stmts_spec);
    reveal(gen_stmt_spec);
    reveal(gen_block_inner_spec);
}

/// A local is declared with its type and its value, under the name that its later uses have. A
/// heap object that does not escape is owned by the scope from then on; `@sink` leaves it to
/// others, and `@delete` has the scope delete a pointer in any case.
pub proof fn law_declared_local(p: Env, st: GenV, name: Seq<char>, ty: Option<TypeV>, declared: Option<TyV>, code: Seq<char>, vt: TyV, heap: bool, delete: bool, sink: bool, t: Seq<char>)
    requires
        !vt.nullable,
    ensures
        ({
            let var_ty = match declared { Some(d) => d, None => vt };
            let (named, emit) = bind_local_name_spec(p, st, name);
            let (after, line) = finish_var_spec(p, st, name, ty, declared, Some((code, vt)), heap, delete, sink, t);
            let kept = !sink && ((delete && var_ty.is_ptr) || (heap && !st.escaping.contains(name)));
            &&& line == st.prelude + t + decl_spelling_spec(var_ty) + " "@ + emit + " = "@ + code + ";\n"@
            &&& after.owned == (if kept { push_last(st.owned, emit) } else { st.owned })
            &&& after.prelude.len() == 0
        }),
{
    reveal(finish_var_spec);
    reveal(flush_spec);
    reveal(bind_local_name_spec);
    reveal(name_local_spec);
    reveal(record_rename_spec);
    reveal(define_local_spec);
    reveal(define_in_scope_spec);
    reveal(warn_value_local_spec);
    reveal(warn_spec);
    reveal(register_owned_spec);
}

/// A nullable result is owned by the scope that keeps it, whether or not it was declared so.
pub proof fn law_nullable_local_is_owned(p: Env, st: GenV, name: Seq<char>, ty: Option<TypeV>, declared: Option<TyV>, code: Seq<char>, vt: TyV, t: Seq<char>)
    requires
        vt.nullable,
        !st.escaping.contains(name),
    ensures
        ({
            let emit = bind_local_name_spec(p, st, name).1;
            let (after, _) = finish_var_spec(p, st, name, ty, declared, Some((code, vt)), false, false, false, t);
            &&& is_null_type_spec(ty) ==> after.owned == push_last(st.owned, emit)
            &&& !is_null_type_spec(ty) ==> after.owned == push_last(st.owned, bind_local_name_spec(p, GenV { warnings: after.warnings, ..st }, name).1)
            &&& !is_null_type_spec(ty) ==> after.warnings.len() > st.warnings.len()
        }),
{
    reveal(finish_var_spec);
    reveal(flush_spec);
    reveal(bind_local_name_spec);
    reveal(name_local_spec);
    reveal(record_rename_spec);
    reveal(define_local_spec);
    reveal(define_in_scope_spec);
    reveal(warn_value_local_spec);
    reveal(warn_spec);
    reveal(register_owned_spec);
    let warned = warn_spec(
        p,
        st,
        "local '"@ + name + "' is assigned a Null<T> value but is not declared `Null<T>`; declare it `Null<T>` so the nullable result is tracked"@,
    );
    assert(warned == GenV { warnings: warned.warnings, ..st });
}

/// What is given a `new` heap object is declared as one that holds such an object.
pub proof fn law_new_object_is_held(p: Env, room: int, st: GenV, name: Seq<char>, ty: Option<TypeV>, of: TypeV, args: Seq<ExprV>, delete: bool, sink: bool, line: int, t: Seq<char>)
    ensures
        ({
            let init = ExprV::New(of, args);
            let start = GenV { current_line: line, new_args_escape: st.escaping.contains(name), ..st };
            let declared = match ty { Some(ht) => Some(ty_of_spec(p, start, ht)), None => None };
            let (made, val) = gen_expr_hinted_spec(p, room, start, init, declared);
            gen_var_spec(p, room, st, StmtV::Var { name, ty, init: Some(init), is_final: false, delete, sink, line }, t)
                == finish_var_spec(p, made, name, ty, declared, Some(val), heap_new_spec(p, made, init), delete, sink, t)
        }),
        heap_new_spec(p, st, ExprV::New(of, args)) == !value_new_spec(p, st, of),
{
    reveal(gen_expr_hinted_spec);
    reveal(gen_var_spec);
    reveal(gen_literal_var_spec);
    reveal(gen_init_spec);
    reveal(heap_new_spec);
    reveal(map_get_init_spec);
    let init = ExprV::New(of, args);
    let start = GenV { current_line: line, new_args_escape: st.escaping.contains(name), ..st };
    let declared = match ty { Some(ht) => Some(ty_of_spec(p, start, ht)), None => None };
    assert(gen_literal_var_spec(p, room, start, name, ty, declared, init, t) == (start, None::<Seq<char>>));
    assert(map_get_init_spec(Some(init)) is None);
    assert(gen_init_spec(p, room, start, init, declared) == (gen_expr_hinted_spec(p, room, start, init, declared).0, Some(gen_expr_hinted_spec(p, room, start, init, declared).1)));
}

} // verus!
