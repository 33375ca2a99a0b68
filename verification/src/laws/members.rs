//! What the members of a class are declared as.

use vstd::prelude::*;

use crate::ast::{BinOp, PropAccess, UnOp};
use crate::codegen::classdef::param_names_spec;
use crate::codegen::common::{is_const_static_spec, is_meyers_static_spec, param_decl_spec, param_list_spec, render_scalar_literal_spec};
use crate::codegen::ctypes::map_type_use_spec;
use crate::codegen::hclass::{ForwarderV, converting_ctor_spec, cpp_operator_spec, dtor_text_spec, field_line_spec, field_type_spec, indented_spec, is_binary_token_spec, is_prefix_token_spec, op_forwarder_spec, ordered_map_lines_spec, place_forwarder_spec, static_line_spec, to_forwarder_spec};
use crate::codegen::hdecls::ret_spelling_spec;
use crate::codegen::helpers::{binop_spec, unop_spec};
use crate::model::{ClassV, FieldV, FunctionV, TypeV};
use crate::parser::types::meta_has_spec;
use crate::program::ProgramV;
use crate::resolve::meta_arg_spec;
use crate::strings::{before_spec, join_spec};

verus! {

broadcast use {crate::model::group_model, crate::program::group_program, crate::text::group_texts};

/// The operators a method can stand for are those C++ writes like the language itself: each
/// operator on two values but `>>>`, and each in front of one.
pub proof fn law_operator_tokens(op: Seq<char>)
    ensures
        is_binary_token_spec(op) <==> exists|b: BinOp| op == #[trigger] binop_spec(b),
        is_prefix_token_spec(op) <==> exists|u: UnOp| op == #[trigger] unop_spec(u),
{
    reveal(is_binary_token_spec);
    reveal(is_prefix_token_spec);
    reveal(binop_spec);
    reveal(unop_spec);
    assert(binop_spec(BinOp::Add) == "+"@ && binop_spec(BinOp::Sub) == "-"@ && binop_spec(BinOp::Mul) == "*"@ && binop_spec(BinOp::Div) == "/"@
        && binop_spec(BinOp::Mod) == "%"@ && binop_spec(BinOp::Eq) == "=="@ && binop_spec(BinOp::Ne) == "!="@ && binop_spec(BinOp::Lt) == "<"@
        && binop_spec(BinOp::Gt) == ">"@ && binop_spec(BinOp::Le) == "<="@ && binop_spec(BinOp::Ge) == ">="@ && binop_spec(BinOp::Shl) == "<<"@
        && binop_spec(BinOp::Shr) == ">>"@ && binop_spec(BinOp::BitAnd) == "&"@ && binop_spec(BinOp::BitOr) == "|"@
        && binop_spec(BinOp::BitXor) == "^"@ && binop_spec(BinOp::And) == "&&"@ && binop_spec(BinOp::Or) == "||"@);
    assert(unop_spec(UnOp::Neg) == "-"@ && unop_spec(UnOp::Not) == "!"@ && unop_spec(UnOp::BitNot) == "~"@ && unop_spec(UnOp::Incr) == "++"@
        && unop_spec(UnOp::Decr) == "--"@);
}

/// A method that stands for an operator is called by it, with the parameters it has.
pub proof fn law_operator_calls_method(prog: ProgramV, mi: int, ns: Seq<Seq<char>>, cpp: Seq<char>, m: FunctionV, ret: Option<TypeV>, name: Seq<char>, arg: Seq<char>, op: Seq<char>)
    requires
        m.name == Some(name),
        meta_arg_spec(m.meta, "op"@, 0) == Some(arg),
        cpp_operator_spec(arg, m.params.len() as int) == Some(op),
    ensures
        ({
            let r = op_forwarder_spec(prog, mi, ns, cpp, m, ret)->0;
            let params = param_list_spec(prog, mi, ns, m.params, true);
            let body = " { return "@ + name + "("@ + join_spec(param_names_spec(m.params, 0, Seq::empty()), ", "@) + "); }"@;
            let result = ret_spelling_spec(prog, mi, ns, ret);
            &&& op_forwarder_spec(prog, mi, ns, cpp, m, ret) is Some
            &&& r.inside == result + " operator"@ + op + "("@ + params + ")"@ + body
            &&& r.decl == result + " operator"@ + op + "("@ + params + ");"@
            &&& r.def == "inline "@ + result + " "@ + cpp + "::operator"@ + op + "("@ + params + ")"@ + body
        }),
{
    reveal(op_forwarder_spec);
}

/// An index and an operator between two values take one more value, an operator in front of one
/// takes none.
pub proof fn law_operator_arity(arg: Seq<char>, n: int)
    ensures
        cpp_operator_spec(arg, n) matches Some(op) ==> {
            &&& n == 1 ==> op == "[]"@ || is_binary_token_spec(op)
            &&& n == 0 ==> is_prefix_token_spec(op)
            &&& n == 0 || n == 1
        },
{
    reveal(cpp_operator_spec);
}

/// A method marked `@:to` converts an object to its result, and one marked `@:from` makes an
/// object from its parameter; the first belongs to an object and takes nothing, the second is
/// static and takes one value.
pub proof fn law_conversions(prog: ProgramV, mi: int, ns: Seq<Seq<char>>, cpp: Seq<char>, m: FunctionV, t: TypeV, name: Seq<char>)
    requires
        m.name == Some(name),
    ensures
        to_forwarder_spec(prog, mi, ns, cpp, m, Some(t)) is Some <==> meta_has_spec(m.meta, "to"@) && !m.modifiers.is_static && m.params.len() == 0,
        to_forwarder_spec(prog, mi, ns, cpp, m, Some(t)) matches Some(w) ==> ({
            let target = map_type_use_spec(prog, t, mi, ns);
            &&& w.inside == "operator "@ + target + "() { return "@ + name + "(); }"@
            &&& w.decl == "operator "@ + target + "();"@
            &&& w.def == "inline "@ + cpp + "::operator "@ + target + "() { return "@ + name + "(); }"@
        }),
        converting_ctor_spec(prog, mi, ns, cpp, m) is Some <==> meta_has_spec(m.meta, "from"@) && m.modifiers.is_static && m.params.len() == 1,
        converting_ctor_spec(prog, mi, ns, cpp, m) matches Some(w) ==> ({
            let decl = before_spec(param_decl_spec(prog, mi, ns, m.params[0]), " = "@);
            let body = " { *this = "@ + name + "("@ + m.params[0].name + "); }"@;
            &&& w.inside == cpp + "("@ + decl + ")"@ + body
            &&& w.decl == cpp + "("@ + decl + ");"@
            &&& w.def == "inline "@ + cpp + "::"@ + cpp + "("@ + decl + ")"@ + body
        }),
{
    reveal(to_forwarder_spec);
    reveal(converting_ctor_spec);
}

/// What needs a type that is defined later is declared in the class and defined behind it;
/// anything else is defined in the class.
pub proof fn law_deferred_members(w: ForwarderV, t: Seq<char>)
    ensures
        place_forwarder_spec(Some(w), true, t) == (t + "\t"@ + w.decl + "\n"@, t + w.def + "\n"@),
        place_forwarder_spec(Some(w), false, t) == (t + "\t"@ + w.inside + "\n"@, Seq::<char>::empty()),
{
}

/// A constant static has its value in the class, one that is computed is read by a call, and
/// any other is a plain static.
pub proof fn law_static_declaration(prog: ProgramV, mi: int, ns: Seq<Seq<char>>, c: ClassV, f: FieldV, t: Seq<char>)
    ensures
        ({
            let fty = field_type_spec(prog, mi, ns, c, f);
            let line = static_line_spec(prog, mi, ns, c, f, t);
            &&& is_const_static_spec(f) ==> (f.init matches Some(e) ==> (render_scalar_literal_spec(e) matches Some(v) ==> line == t
                + "\tstatic const "@ + fty + " "@ + f.name + " = "@ + v + ";\n"@))
            &&& !is_const_static_spec(f) && is_meyers_static_spec(prog, mi, f) && f.is_final ==> line == t + "\tstatic "@ + "const "@ + fty + "& "@
                + f.name + "();\n"@
            &&& !is_const_static_spec(f) && is_meyers_static_spec(prog, mi, f) && !f.is_final ==> line == t + "\tstatic "@ + fty + "& "@ + f.name
                + "();\n"@
            &&& !is_const_static_spec(f) && !is_meyers_static_spec(prog, mi, f) ==> line == t + "\tstatic "@ + fty + " "@ + f.name + ";\n"@
        }),
{
    reveal(static_line_spec);
    reveal_strlit("");
    assert(t + "\tstatic "@ + ""@ =~= t + "\tstatic "@);
}

/// A field is stored unless it is a property that is computed and never written; one marked
/// `@:isVar` is stored all the same.
pub proof fn law_stored_fields(prog: ProgramV, mi: int, ns: Seq<Seq<char>>, c: ClassV, f: FieldV, t: Seq<char>)
    requires
        !f.is_static,
        ordered_map_lines_spec(prog, mi, ns, f, t) is None,
    ensures
        field_line_spec(prog, mi, ns, c, f, t).0 == if f.get == PropAccess::Get && f.set == PropAccess::Never && !meta_has_spec(f.meta, "isVar"@) {
            Seq::empty()
        } else {
            t + "\t"@ + field_type_spec(prog, mi, ns, c, f) + " "@ + f.name + ";\n"@
        },
{
    reveal(field_line_spec);
}

/// A destructor frees what the class owns, in the order it is listed in, and is virtual unless
/// the class is a value.
pub proof fn law_destructor(c: ClassV, cpp: Seq<char>, deletes: Seq<Seq<char>>, t: Seq<char>)
    ensures
        ({
            let value = meta_has_spec(c.meta, "stackOnly"@) || c.abstract_underlying is Some;
            let head = if value { t + "\t"@ + "~"@ + cpp } else { t + "\t"@ + "virtual "@ + "~"@ + cpp };
            &&& deletes.len() == 0 ==> dtor_text_spec(c, cpp, deletes, t) == head + "() {}\n"@
            &&& deletes.len() > 0 ==> dtor_text_spec(c, cpp, deletes, t) == head + "() {\n"@ + line_by_line(deletes, t + "\t\t"@) + t + "\t}\n"@
        }),
{
    reveal(dtor_text_spec);
    reveal_strlit("");
    assert(t + "\t"@ + ""@ =~= t + "\t"@);
    lines_in_order(deletes, t + "\t\t"@, 0, Seq::empty());
    assert(deletes.skip(0) =~= deletes);
    assert(Seq::<char>::empty() + line_by_line(deletes, t + "\t\t"@) =~= line_by_line(deletes, t + "\t\t"@));
}

/// Lines one below the other, each behind an indentation.
pub open spec fn line_by_line(lines: Seq<Seq<char>>, t: Seq<char>) -> Seq<char>
    decreases lines.len(),
{
    if lines.len() == 0 {
        Seq::empty()
    } else {
        t + lines[0] + "\n"@ + line_by_line(lines.skip(1), t)
    }
}

proof fn lines_in_order(lines: Seq<Seq<char>>, t: Seq<char>, i: int, out: Seq<char>)
    requires
        0 <= i <= lines.len(),
    ensures
        indented_spec(lines, t, i, out) == out + line_by_line(lines.skip(i), t),
    decreases lines.len() - i,
{
    if i < lines.len() {
        lines_in_order(lines, t, i + 1, out + t + lines[i] + "\n"@);
        assert(lines.skip(i).skip(1) =~= lines.skip(i + 1));
        assert(lines.skip(i)[0] == lines[i]);
        let rest = line_by_line(lines.skip(i + 1), t);
        assert(out + t + lines[i] + "\n"@ + rest =~= out + (t + lines[i] + "\n"@ + rest));
    } else {
        assert(out + line_by_line(lines.skip(i), t) =~= out);
    }
}

} // verus!
