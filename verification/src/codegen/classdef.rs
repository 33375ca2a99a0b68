//! Constructors, static fields and whole classes.

use vstd::prelude::*;

use crate::ast::{Class, Expr, Field, Function, Param, PropAccess, Stmt};
use crate::codegen::args::gen_args_spec;
use crate::codegen::common::{accessor_ret_type, accessor_ret_type_spec, final_is_const, final_is_const_spec, is_const_static, is_const_static_spec, is_meyers_static, is_meyers_static_spec};
use crate::codegen::expr::gen_expr_spec;
use crate::codegen::fndef::{bind_params_spec, header_params_spec, inline_kw_spec, method_impl_spec, note_abstract_this_spec};
use crate::codegen::gen::GenV;
use crate::codegen::lookup::{is_accessor_method, is_accessor_method_spec};
use crate::codegen::method::base_name_spec;
use crate::codegen::state::{BodyGen, Env, begin_fn_body_spec, body_close_deletes_spec, define_local_spec, flush_spec, pop_scope_spec, push_scope_spec};
use crate::codegen::stmt::{gen_stmt_spec, gen_stmts_spec};
use crate::codegen::ty::{Ty, TyV};
use crate::codegen::types::{decl_spelling, decl_spelling_spec, field_ty_spec, opt_ty_spec, self_class_cpp_name_spec};
use crate::lexer::{inc, inc_spec};
use crate::model::{ClassV, ExprV, FieldV, FunctionV, ParamV, StmtV, fields_v, functions_v, params_v, stmts_v, text_exprs_v};
use crate::parser::types::{meta_has, meta_has_spec};
use crate::program::{Holder, HolderV, SuperArg, SuperArgV, super_args_v};
use crate::resolve::{facts_of, facts_of_spec};
use crate::strings::{join, join_spec};
use crate::text::{cat2, cat3, cat4, cat5, cat6, cat7, cat8, empty, has_text, texts};

verus! {

broadcast use {crate::codegen::gen::group_gen, crate::codegen::ty::group_ty, crate::model::group_model, crate::program::group_program, crate::text::group_texts};

/// Whether an instance field is stored and has an initialiser that the constructor runs.
pub fn runs_init(f: &Field) -> (r: bool)
    ensures
        r == runs_init_spec(f.v()),
{
    !f.is_static && f.init.is_some()
        && !(f.get == PropAccess::Get && f.set == PropAccess::Never && !meta_has(&f.meta, "isVar"))
}

/// The assignments that the initialisers of the fields from `i` on are.
pub fn field_inits(fields: &Vec<Field>, i: usize, out: Vec<Stmt>) -> (r: Vec<Stmt>)
    ensures
        stmts_v(r@) == field_inits_spec(fields_v(fields@), (i as int), stmts_v(out@)),
{
    let ghost i_0 = i;
    let ghost out_0 = out;
    let mut i: usize = i;
    let mut out: Vec<Stmt> = out;
    #[verifier::loop_isolation(false)]
    loop
        invariant
            field_inits_spec(fields_v(fields@), (i_0 as int), stmts_v(out_0@)) == field_inits_spec(fields_v(fields@), (i as int), stmts_v(out@)),
        decreases fields.len() - i,
    {
        if i >= fields.len() {
            return out;
        }
        if runs_init(&fields[i]) {
            match &fields[i].init {
                Some(e) => {
                    out.push(Stmt::Expr(Expr::Assign {
                        op: None,
                        target: Box::new(Expr::Field(Box::new(Expr::This), fields[i].name.clone())),
                        value: Box::new(e.dup()),
                    }, 0usize));
                },
                None => {},
            }
        }
        i = i + 1;
    }
}

/// The first `n` statements from `i` on, appended.
pub fn take_stmts(stmts: &Vec<Stmt>, n: usize, i: usize, out: Vec<Stmt>) -> (r: Vec<Stmt>)
    ensures
        stmts_v(r@) == take_stmts_spec(stmts_v(stmts@), (n as int), (i as int), stmts_v(out@)),
{
    let ghost i_0 = i;
    let ghost out_0 = out;
    let mut i: usize = i;
    let mut out: Vec<Stmt> = out;
    #[verifier::loop_isolation(false)]
    loop
        invariant
            take_stmts_spec(stmts_v(stmts@), (n as int), (i_0 as int), stmts_v(out_0@)) == take_stmts_spec(stmts_v(stmts@), (n as int), (i as int), stmts_v(out@)),
        decreases stmts.len() - i,
    {
        if i >= stmts.len() || i >= n {
            return out;
        }
        out.push(stmts[i].dup());
        i = i + 1;
    }
}

/// Whether a body starts with `super(...)`.
pub fn starts_with_super(stmts: &Vec<Stmt>) -> (r: bool)
    ensures
        r == starts_with_super_spec(stmts_v(stmts@)),
{
    if stmts.len() == 0 {
        return false;
    }
    match stmts[0].node() {
        Stmt::Expr(e, _) => match e.node() {
            Expr::Call(target, _) => matches!(target.node(), Expr::Super),
            _ => false,
        },
        _ => false,
    }
}

/// The statements of a body that may be missing.
pub fn body_stmts(body: &Option<Vec<Stmt>>) -> (r: Vec<Stmt>)
    ensures
        stmts_v(r@) == body_stmts_spec((match body { Some(y) => Some(stmts_v(y@)), None => None })),
{
    match body {
        Some(stmts) => take_stmts(stmts, stmts.len(), 0, Vec::new()),
        None => Vec::new(),
    }
}

/// A constructor body with the field initialisers in front, after a leading `super(...)`.
pub fn with_field_inits(class: &Class, stmts: &Vec<Stmt>) -> (r: Vec<Stmt>)
    ensures
        stmts_v(r@) == with_field_inits_spec(class.v(), stmts_v(stmts@)),
{
    proof {
        reveal(with_field_inits_spec);
    }
    let n: usize = if starts_with_super(stmts) { 1 } else { 0 };
    let head = take_stmts(stmts, n, 0, Vec::new());
    let mid = field_inits(&class.fields, 0, head);
    take_stmts(stmts, stmts.len(), n, mid)
}

/// `name(NULL)` for each owned field from `i` on.
pub fn null_inits(fields: &Vec<Field>, owned: &Vec<String>, i: usize, out: Vec<String>) -> (r: Vec<String>)
    ensures
        texts(r@) == null_inits_spec(fields_v(fields@), texts(owned@), (i as int), texts(out@)),
{
    let ghost i_0 = i;
    let ghost out_0 = out;
    let mut i: usize = i;
    let mut out: Vec<String> = out;
    #[verifier::loop_isolation(false)]
    loop
        invariant
            null_inits_spec(fields_v(fields@), texts(owned@), (i_0 as int), texts(out_0@)) == null_inits_spec(fields_v(fields@), texts(owned@), (i as int), texts(out@)),
        decreases fields.len() - i,
    {
        if i >= fields.len() {
            return out;
        }
        if has_text(owned, &fields[i].name) {
            out.push(cat2(&fields[i].name, "(NULL)"));
        }
        i = i + 1;
    }
}

/// The names of the parameters from `i` on.
pub fn param_names(params: &Vec<Param>, i: usize, out: Vec<String>) -> (r: Vec<String>)
    ensures
        texts(r@) == param_names_spec(params_v(params@), (i as int), texts(out@)),
{
    let ghost i_0 = i;
    let ghost out_0 = out;
    let mut i: usize = i;
    let mut out: Vec<String> = out;
    #[verifier::loop_isolation(false)]
    loop
        invariant
            param_names_spec(params_v(params@), (i_0 as int), texts(out_0@)) == param_names_spec(params_v(params@), (i as int), texts(out@)),
        decreases params.len() - i,
    {
        if i >= params.len() {
            return out;
        }
        out.push(params[i].name.clone());
        i = i + 1;
    }
}

impl<'a> BodyGen<'a> {
    /// An initialiser list with owned pointers set to `NULL`.
    fn append_owned_null_inits(&self, init: String) -> (r: String)
        ensures
            r@ == append_owned_null_inits_spec(self.pg(), self.gv(), init@),
    {
        proof {
            reveal(append_owned_null_inits_spec);
        }
        let nulls = null_inits(&self.class().fields, self.owned_fields(), 0, Vec::new());
        if nulls.len() == 0 {
            init
        } else if empty(&init) {
            cat2(" : ", &join(&nulls, ", "))
        } else {
            cat3(&init, ", ", &join(&nulls, ", "))
        }
    }

    /// The initialiser of the base class from a leading `super(...)`, and how many statements
    /// it stands for.
    fn base_init(&mut self, stmts: &Vec<Stmt>) -> (r: (String, usize))
        ensures
            final(self).pg() == old(self).pg(),
            final(self).room() == old(self).room(),
            (final(self).gv(), (r.0@, (r.1 as int))) == base_init_spec(old(self).pg(), old(self).room(), old(self).gv(), stmts_v(stmts@)),
    {
        proof {
            reveal(base_init_spec);
        }
        if stmts.len() == 0 {
            return (String::new(), 0usize);
        }
        match stmts[0].node() {
            Stmt::Expr(e, _) => match e.node() {
                Expr::Call(target, args) => {
                    if !matches!(target.node(), Expr::Super) || self.class().extends.is_none() {
                        return (String::new(), 0usize);
                    }
                    self.set_new_args_escape(true);
                    let list = self.gen_args(args);
                    self.set_new_args_escape(false);
                    (cat5(" : ", &self.base_name(), "(", &list, ")"), 1usize)
                },
                _ => (String::new(), 0usize),
            },
            _ => (String::new(), 0usize),
        }
    }

    /// A statement of the holder's constructor: a lifted local is a member.
    fn gen_holder_stmt(&mut self, s: &Stmt, lifted: &Vec<String>) -> (r: String)
        ensures
            final(self).pg() == old(self).pg(),
            final(self).room() == old(self).room(),
            (final(self).gv(), r@) == gen_holder_stmt_spec(old(self).pg(), old(self).room(), old(self).gv(), s.v(), texts(lifted@)),
    {
        proof {
            reveal(gen_holder_stmt_spec);
        }
        match s.node() {
            Stmt::Var { name, ty, init: Some(init), is_final: _, delete: _, sink: _, line: _ } => {
                if !has_text(lifted, name) {
                    return self.gen_stmt(s, "\t");
                }
                self.set_prelude_t("\t".to_owned());
                let (code, _) = self.gen_expr(init);
                let pre = self.flush();
                self.define_local(name, self.opt_ty(ty));
                cat6(&pre, "\tthis->", name, " = ", &code, ";\n")
            },
            _ => self.gen_stmt(s, "\t"),
        }
    }

    fn holder_stmts(&mut self, stmts: &Vec<Stmt>, n: usize, lifted: &Vec<String>, i: usize, out: String) -> (r: String)
        ensures
            final(self).pg() == old(self).pg(),
            final(self).room() == old(self).room(),
            (final(self).gv(), r@) == holder_stmts_spec(old(self).pg(), old(self).room(), old(self).gv(), stmts_v(stmts@), (n as int), texts(lifted@), (i as int), out@),
    {
        let ghost i_0 = i;
        let ghost out_0 = out;
        let mut i: usize = i;
        let mut out: String = out;
        #[verifier::loop_isolation(false)]
        loop
            invariant
                self.pg() == old(self).pg(),
                self.room() == old(self).room(),
                holder_stmts_spec(old(self).pg(), old(self).room(), old(self).gv(), stmts_v(stmts@), (n as int), texts(lifted@), (i_0 as int), out_0@) == holder_stmts_spec(self.pg(), self.room(), self.gv(), stmts_v(stmts@), (n as int), texts(lifted@), (i as int), out@),
            decreases stmts.len() - i,
        {
            proof {
                reveal(holder_stmts_spec);
            }
            if i >= stmts.len() || i >= n {
                return out;
            }
            let text = self.gen_holder_stmt(&stmts[i], lifted);
            out = cat2(&out, &text);
            i = i + 1;
        }
    }

    fn holder_members(&mut self, hoisted: &Vec<(String, Expr)>, i: usize, out: String) -> (r: String)
        ensures
            final(self).pg() == old(self).pg(),
            final(self).room() == old(self).room(),
            (final(self).gv(), r@) == holder_members_spec(old(self).pg(), old(self).room(), old(self).gv(), text_exprs_v(hoisted@), (i as int), out@),
    {
        let ghost i_0 = i;
        let ghost out_0 = out;
        let mut i: usize = i;
        let mut out: String = out;
        #[verifier::loop_isolation(false)]
        loop
            invariant
                self.pg() == old(self).pg(),
                self.room() == old(self).room(),
                holder_members_spec(old(self).pg(), old(self).room(), old(self).gv(), text_exprs_v(hoisted@), (i_0 as int), out_0@) == holder_members_spec(self.pg(), self.room(), self.gv(), text_exprs_v(hoisted@), (i as int), out@),
            decreases hoisted.len() - i,
        {
            proof {
                reveal(holder_members_spec);
            }
            if i >= hoisted.len() {
                return out;
            }
            self.set_prelude_t("\t".to_owned());
            let (code, _) = self.gen_expr(&hoisted[i].1);
            let pre = self.flush();
            out = cat7(&out, &pre, "\tthis->", &hoisted[i].0, " = ", &code, ";\n");
            i = i + 1;
        }
    }

    fn super_arg_list(&mut self, args: &Vec<SuperArg>, i: usize, out: Vec<String>) -> (r: Vec<String>)
        ensures
            final(self).pg() == old(self).pg(),
            final(self).room() == old(self).room(),
            (final(self).gv(), texts(r@)) == super_arg_list_spec(old(self).pg(), old(self).room(), old(self).gv(), super_args_v(args@), (i as int), texts(out@)),
    {
        let ghost i_0 = i;
        let ghost out_0 = out;
        let mut i: usize = i;
        let mut out: Vec<String> = out;
        #[verifier::loop_isolation(false)]
        loop
            invariant
                self.pg() == old(self).pg(),
                self.room() == old(self).room(),
                super_arg_list_spec(old(self).pg(), old(self).room(), old(self).gv(), super_args_v(args@), (i_0 as int), texts(out_0@)) == super_arg_list_spec(self.pg(), self.room(), self.gv(), super_args_v(args@), (i as int), texts(out@)),
            decreases args.len() - i,
        {
            proof {
                reveal(super_arg_list_spec);
            }
            if i >= args.len() {
                return out;
            }
            match &args[i] {
                SuperArg::Member(n) => {
                    out.push(n.clone());
                },
                SuperArg::PassThrough(e) => {
                    let (code, _) = self.gen_expr(e);
                    out.push(code);
                },
            }
            i = i + 1;
        }
    }

    /// The constructors of a class whose `super(...)` is not its first statement: that of the
    /// holder, which does what comes before, and that of the class.
    fn holder_ctor_impl(&mut self, class_name: &str, ctor: &Function, h: &Holder) -> (r: String)
        ensures
            final(self).pg() == old(self).pg(),
            final(self).room() == old(self).room(),
            (final(self).gv(), r@) == holder_ctor_impl_spec(old(self).pg(), old(self).room(), old(self).gv(), class_name@, ctor.v(), h.v()),
    {
        proof {
            reveal(holder_ctor_impl_spec);
        }
        let stmts = body_stmts(&ctor.body);
        let params = self.header_params(&ctor.params);
        self.push_scope();
        self.bind_params(&ctor.params);
        let lines = self.holder_stmts(&stmts, h.super_idx, &h.lifted, 0, String::new());
        let hbody = self.holder_members(&h.hoisted, 0, lines);
        self.pop_scope();
        let first = cat3(&cat8("\t", &self.inline_kw(), &h.name, "::", &h.name, "(", &params, ") {\n"), &hbody, "\t}\n");
        self.push_scope();
        self.bind_params(&ctor.params);
        self.set_new_args_escape(true);
        let list = self.super_arg_list(&h.super_args, 0, Vec::new());
        self.set_new_args_escape(false);
        let names = param_names(&ctor.params, 0, Vec::new());
        let init = self.append_owned_null_inits(cat2(&cat8(" : ", &h.name, "(", &join(&names, ", "), "), ", &self.base_name(), "(", &join(&list, ", ")), ")"));
        let mid = field_inits(&self.class().fields, 0, Vec::new());
        self.begin_fn_body(&stmts);
        let head = self.gen_stmts(&mid, "\t", 0, String::new());
        let body = self.gen_stmts(&stmts, "\t", inc(h.super_idx), head);
        let deletes = self.body_close_deletes(&stmts, "\t");
        self.pop_scope();
        cat7(&cat8(&first, "\n\t", &self.inline_kw(), class_name, "::", class_name, "(", &params), ")", &init, " {\n", &body, &deletes, "\t}\n")
    }

    /// A constructor.
    fn ctor_impl(&mut self, class_name: &str, ctor: &Function) -> (r: String)
        ensures
            final(self).pg() == old(self).pg(),
            final(self).room() == old(self).room(),
            (final(self).gv(), r@) == ctor_impl_spec(old(self).pg(), old(self).room(), old(self).gv(), class_name@, ctor.v()),
    {
        proof {
            reveal(ctor_impl_spec);
        }
        self.set_current_fn("new".to_owned());
        self.note_abstract_this();
        match facts_of(self.prog(), &self.class().name, self.mi()) {
            Some(facts) => match &facts.holder {
                Some(h) => {
                    return self.holder_ctor_impl(class_name, ctor, h);
                },
                None => {},
            },
            None => {},
        }
        self.push_scope();
        self.bind_params(&ctor.params);
        let params = self.header_params(&ctor.params);
        let stmts = with_field_inits(self.class(), &body_stmts(&ctor.body));
        let (base, start) = self.base_init(&stmts);
        let init = self.append_owned_null_inits(base);
        self.begin_fn_body(&stmts);
        let body = self.gen_stmts(&stmts, "\t", start, String::new());
        let deletes = self.body_close_deletes(&stmts, "\t");
        self.pop_scope();
        cat6(&cat8("\t", &self.inline_kw(), class_name, "::", class_name, "(", &params, ")"), &init, " {\n", &body, &deletes, "\t}\n")
    }

    /// The accessor a static with an initialiser that is no constant is read through: it is
    /// initialised once.
    fn meyers_text(&self, class_name: &str, f: &Field, spelling: &str, code: &str) -> (r: String)
        ensures
            r@ == meyers_text_spec(self.pg(), self.gv(), class_name@, f.v(), spelling@, code@),
    {
        proof {
            reveal(meyers_text_spec);
        }
        let cst = if final_is_const(f) { "const " } else { "" };
        cat7(&cat8("\t", &self.inline_kw(), cst, spelling, "& ", class_name, "::", &f.name), "() {\n\t\tstatic ", cst, spelling, " _hx_v = ", code, ";\n\t\treturn _hx_v;\n\t}\n")
    }

    /// The code of a static's initialiser.
    fn gen_static_init(&mut self, vty: &Ty, e: &Expr) -> (r: String)
        ensures
            final(self).pg() == old(self).pg(),
            final(self).room() == old(self).room(),
            (final(self).gv(), r@) == gen_static_init_spec(old(self).pg(), old(self).room(), old(self).gv(), vty.v(), e.v()),
    {
        proof {
            reveal(gen_static_init_spec);
        }
        self.set_expected(Some(vty.dup()));
        let (code, _) = self.gen_expr(e);
        self.set_expected(None);
        code
    }

    /// The definition of a static field.
    fn static_field_def(&mut self, class_name: &str, f: &Field) -> (r: String)
        ensures
            final(self).pg() == old(self).pg(),
            final(self).room() == old(self).room(),
            (final(self).gv(), r@) == static_field_def_spec(old(self).pg(), old(self).room(), old(self).gv(), class_name@, f.v()),
    {
        proof {
            reveal(static_field_def_spec);
        }
        self.push_scope();
        self.set_current_fn(f.name.clone());
        let vty = self.field_ty(f);
        let spelling = decl_spelling(&vty);
        if is_const_static(f) {
            self.pop_scope();
            return cat7("\tconst ", &spelling, " ", class_name, "::", &f.name, ";\n");
        }
        if !is_meyers_static(self.prog(), self.mi(), f) {
            let init = match &f.init {
                Some(e) => {
                    let code = self.gen_static_init(&vty, e);
                    cat2(" = ", &code)
                },
                None => String::new(),
            };
            self.pop_scope();
            return cat8("\t", &spelling, " ", class_name, "::", &f.name, &init, ";\n");
        }
        match &f.init {
            None => {
                self.pop_scope();
                self.meyers_text(class_name, f, &spelling, &cat2(&spelling, "()"))
            },
            Some(e) => {
                self.set_prelude_t("\t\t".to_owned());
                let code = self.gen_static_init(&vty, e);
                let pre = self.flush();
                self.pop_scope();
                if empty(&pre) {
                    return self.meyers_text(class_name, f, &spelling, &code);
                }
                let helper = cat4("_init_", &self.class().name, "_", &f.name);
                let kw = if self.inline_defs() { "inline " } else { "static " };
                cat4(&cat8("\t", kw, &spelling, " ", &helper, "() {\n", &pre, "\t\treturn "), &code, ";\n\t}\n", &self.meyers_text(class_name, f, &spelling, &cat2(&helper, "()")))
            },
        }
    }

    /// One method of the class, where it is emitted.
    fn method_text(&mut self, class_name: &str, m: &Function) -> (r: String)
        ensures
            final(self).pg() == old(self).pg(),
            final(self).room() == old(self).room(),
            (final(self).gv(), r@) == method_text_spec(old(self).pg(), old(self).room(), old(self).gv(), class_name@, m.v()),
    {
        proof {
            reveal(method_text_spec);
        }
        match &m.name {
            Some(name) => {
                if is_accessor_method(self.class(), name) || m.body.is_none() {
                    return String::new();
                }
                let text = match &m.ret {
                    Some(_) => self.method_impl(class_name, name, m, &m.ret),
                    None => self.method_impl(class_name, name, m, &accessor_ret_type(self.class(), name)),
                };
                cat2(&text, "\n")
            },
            None => String::new(),
        }
    }

    fn methods_text(&mut self, class_name: &str, methods: &Vec<Function>, i: usize, out: String) -> (r: String)
        ensures
            final(self).pg() == old(self).pg(),
            final(self).room() == old(self).room(),
            (final(self).gv(), r@) == methods_text_spec(old(self).pg(), old(self).room(), old(self).gv(), class_name@, functions_v(methods@), (i as int), out@),
    {
        let ghost i_0 = i;
        let ghost out_0 = out;
        let mut i: usize = i;
        let mut out: String = out;
        #[verifier::loop_isolation(false)]
        loop
            invariant
                self.pg() == old(self).pg(),
                self.room() == old(self).room(),
                methods_text_spec(old(self).pg(), old(self).room(), old(self).gv(), class_name@, functions_v(methods@), (i_0 as int), out_0@) == methods_text_spec(self.pg(), self.room(), self.gv(), class_name@, functions_v(methods@), (i as int), out@),
            decreases methods.len() - i,
        {
            proof {
                reveal(methods_text_spec);
            }
            if i >= methods.len() {
                return out;
            }
            let text = self.method_text(class_name, &methods[i]);
            out = cat2(&out, &text);
            i = i + 1;
        }
    }

    fn statics_text(&mut self, class_name: &str, fields: &Vec<Field>, i: usize, out: String) -> (r: String)
        ensures
            final(self).pg() == old(self).pg(),
            final(self).room() == old(self).room(),
            (final(self).gv(), r@) == statics_text_spec(old(self).pg(), old(self).room(), old(self).gv(), class_name@, fields_v(fields@), (i as int), out@),
    {
        let ghost i_0 = i;
        let ghost out_0 = out;
        let mut i: usize = i;
        let mut out: String = out;
        #[verifier::loop_isolation(false)]
        loop
            invariant
                self.pg() == old(self).pg(),
                self.room() == old(self).room(),
                statics_text_spec(old(self).pg(), old(self).room(), old(self).gv(), class_name@, fields_v(fields@), (i_0 as int), out_0@) == statics_text_spec(self.pg(), self.room(), self.gv(), class_name@, fields_v(fields@), (i as int), out@),
            decreases fields.len() - i,
        {
            proof {
                reveal(statics_text_spec);
            }
            if i >= fields.len() {
                return out;
            }
            if fields[i].is_static {
                let text = self.static_field_def(class_name, &fields[i]);
                out = cat3(&out, &text, "\n");
            }
            i = i + 1;
        }
    }

    /// The definitions of a class.
    pub fn class_impl(&mut self) -> (r: String)
        ensures
            final(self).pg() == old(self).pg(),
            final(self).room() == old(self).room(),
            (final(self).gv(), r@) == class_impl_spec(old(self).pg(), old(self).room(), old(self).gv()),
    {
        proof {
            reveal(class_impl_spec);
        }
        let name = self.self_class_cpp_name();
        let first = match &self.class().ctor {
            Some(ctor) => {
                let text = self.ctor_impl(&name, ctor);
                cat2(&text, "\n")
            },
            None => String::new(),
        };
        let rest = self.methods_text(&name, &self.class().methods, 0, first);
        self.statics_text(&name, &self.class().fields, 0, rest)
    }
}

/// What [`runs_init`] computes.
pub open spec fn runs_init_spec(f: FieldV) -> bool
{
    (!f.is_static) && (f.init is Some) && (!((f.get == (PropAccess::Get)) && (f.set == (PropAccess::Never)) && (!meta_has_spec(f.meta, "isVar"@))))
}

/// What [`field_inits`] computes.
pub open spec fn field_inits_spec(fields: Seq<FieldV>, i: int, out: Seq<StmtV>) -> Seq<StmtV>
    decreases fields.len() - i,
{
    if !(0 <= i < fields.len()) { out } else {
        let out = if runs_init_spec(fields[i]) {
            match fields[i].init {
                Some(e) => {
                    let out = out.push(StmtV::Expr(ExprV::Assign { op: None, target: Box::new(ExprV::Field(Box::new(ExprV::This), fields[i].name)), value: Box::new(e) }, 0int));
                    out
                },
                None => { out },
            }
        } else { out };
        let i = i + 1;
        field_inits_spec(fields, i, out)
    }
}

/// What [`take_stmts`] computes.
pub open spec fn take_stmts_spec(stmts: Seq<StmtV>, n: int, i: int, out: Seq<StmtV>) -> Seq<StmtV>
    decreases stmts.len() - i,
{
    if !(0 <= i < stmts.len()) || (i >= n) { out } else {
        let out = out.push(stmts[i]);
        let i = i + 1;
        take_stmts_spec(stmts, n, i, out)
    }
}

/// What [`starts_with_super`] computes.
pub open spec fn starts_with_super_spec(stmts: Seq<StmtV>) -> bool
{
    if (stmts.len()) == 0 { false } else {
        match stmts[0] {
            StmtV::Expr(e, _) => {
                match e {
                    ExprV::Call(target, _) => {
                        (match *target { ExprV::Super => true, _ => false })
                    },
                    _ => { false },
                }
            },
            _ => { false },
        }
    }
}

/// What [`body_stmts`] computes.
pub open spec fn body_stmts_spec(body: Option<Seq<StmtV>>) -> Seq<StmtV>
{
    match body {
        Some(stmts) => { take_stmts_spec(stmts, stmts.len() as int, 0int, Seq::empty()) },
        None => { Seq::empty() },
    }
}

/// What [`with_field_inits`] computes.
#[verifier::opaque]
pub open spec fn with_field_inits_spec(class: ClassV, stmts: Seq<StmtV>) -> Seq<StmtV>
{
    let n: int = if starts_with_super_spec(stmts) { 1 } else { 0 };
    let head = take_stmts_spec(stmts, n, 0int, Seq::empty());
    let mid = field_inits_spec(class.fields, 0int, head);
    take_stmts_spec(stmts, stmts.len() as int, n, mid)
}

/// What [`null_inits`] computes.
pub open spec fn null_inits_spec(fields: Seq<FieldV>, owned: Seq<Seq<char>>, i: int, out: Seq<Seq<char>>) -> Seq<Seq<char>>
    decreases fields.len() - i,
{
    if !(0 <= i < fields.len()) { out } else {
        let out = if owned.contains(fields[i].name) {
            let out = out.push((fields[i].name) + "(NULL)"@);
            out
        } else { out };
        let i = i + 1;
        null_inits_spec(fields, owned, i, out)
    }
}

/// What [`param_names`] computes.
pub open spec fn param_names_spec(params: Seq<ParamV>, i: int, out: Seq<Seq<char>>) -> Seq<Seq<char>>
    decreases params.len() - i,
{
    if !(0 <= i < params.len()) { out } else {
        let out = out.push(params[i].name);
        let i = i + 1;
        param_names_spec(params, i, out)
    }
}

/// What [`BodyGen::append_owned_null_inits`] computes.
#[verifier::opaque]
pub open spec fn append_owned_null_inits_spec(p: Env, st: GenV, init: Seq<char>) -> Seq<char>
{
    let nulls = null_inits_spec(p.class.fields, st.owned_fields, 0int, Seq::empty());
    if (nulls.len()) == 0 { init } else if ((init).len() == 0) { " : "@ + join_spec(nulls, ", "@) } else { init + ", "@ + join_spec(nulls, ", "@) }
}

/// What [`BodyGen::base_init`] computes.
#[verifier::opaque]
pub open spec fn base_init_spec(p: Env, room: int, st: GenV, stmts: Seq<StmtV>) -> (GenV, (Seq<char>, int))
{
    if (stmts.len()) == 0 { (st, (Seq::empty(), 0int)) } else {
        match stmts[0] {
            StmtV::Expr(e, _) => {
                match e {
                    ExprV::Call(target, args) => {
                        if !(match *target { ExprV::Super => true, _ => false }) || (p.class.extends is None) { (st, (Seq::empty(), 0int)) } else {
                            let st = GenV { new_args_escape: true, ..st };
                            let (st, list) = gen_args_spec(p, room, st, args);
                            let st = GenV { new_args_escape: false, ..st };
                            (st, (" : "@ + base_name_spec(p, st) + "("@ + list + ")"@, 1int))
                        }
                    },
                    _ => { (st, (Seq::empty(), 0int)) },
                }
            },
            _ => { (st, (Seq::empty(), 0int)) },
        }
    }
}

/// What [`BodyGen::gen_holder_stmt`] computes.
#[verifier::opaque]
pub open spec fn gen_holder_stmt_spec(p: Env, room: int, st: GenV, s: StmtV, lifted: Seq<Seq<char>>) -> (GenV, Seq<char>)
{
    match s {
        StmtV::Var { name, ty, init: Some(init), is_final: _, delete: _, sink: _, line: _ } => {
            if !(lifted.contains(name)) { gen_stmt_spec(p, room, st, s, "\t"@) } else {
                let st = GenV { prelude_t: "\t"@, ..st };
                let (st, (code, _)) = gen_expr_spec(p, room, st, init);
                let (st, pre) = flush_spec(p, st);
                let st = define_local_spec(p, st, name, opt_ty_spec(p, st, ty));
                (st, pre + "\tthis->"@ + name + " = "@ + code + ";\n"@)
            }
        },
        _ => { gen_stmt_spec(p, room, st, s, "\t"@) },
    }
}

/// What [`BodyGen::holder_stmts`] computes.
#[verifier::opaque]
pub open spec fn holder_stmts_spec(p: Env, room: int, st: GenV, stmts: Seq<StmtV>, n: int, lifted: Seq<Seq<char>>, i: int, out: Seq<char>) -> (GenV, Seq<char>)
    decreases stmts.len() - i,
{
    if !(0 <= i < stmts.len()) || (i >= n) { (st, out) } else {
        let (st, text) = gen_holder_stmt_spec(p, room, st, stmts[i], lifted);
        let out = out + text;
        let i = i + 1;
        holder_stmts_spec(p, room, st, stmts, n, lifted, i, out)
    }
}

/// What [`BodyGen::holder_members`] computes.
#[verifier::opaque]
pub open spec fn holder_members_spec(p: Env, room: int, st: GenV, hoisted: Seq<(Seq<char>, ExprV)>, i: int, out: Seq<char>) -> (GenV, Seq<char>)
    decreases hoisted.len() - i,
{
    if !(0 <= i < hoisted.len()) { (st, out) } else {
        let st = GenV { prelude_t: "\t"@, ..st };
        let (st, (code, _)) = gen_expr_spec(p, room, st, hoisted[i].1);
        let (st, pre) = flush_spec(p, st);
        let out = out + pre + "\tthis->"@ + (hoisted[i].0) + " = "@ + code + ";\n"@;
        let i = i + 1;
        holder_members_spec(p, room, st, hoisted, i, out)
    }
}

/// What [`BodyGen::super_arg_list`] computes.
#[verifier::opaque]
pub open spec fn super_arg_list_spec(p: Env, room: int, st: GenV, args: Seq<SuperArgV>, i: int, out: Seq<Seq<char>>) -> (GenV, Seq<Seq<char>>)
    decreases args.len() - i,
{
    if !(0 <= i < args.len()) { (st, out) } else {
        let (st, out) = match args[i] {
            SuperArgV::Member(n) => {
                let out = out.push(n);
                (st, out)
            },
            SuperArgV::PassThrough(e) => {
                let (st, (code, _)) = gen_expr_spec(p, room, st, e);
                let out = out.push(code);
                (st, out)
            },
        };
        let i = i + 1;
        super_arg_list_spec(p, room, st, args, i, out)
    }
}

/// What [`BodyGen::holder_ctor_impl`] computes.
#[verifier::opaque]
pub open spec fn holder_ctor_impl_spec(p: Env, room: int, st: GenV, class_name: Seq<char>, ctor: FunctionV, h: HolderV) -> (GenV, Seq<char>)
{
    let stmts = body_stmts_spec(ctor.body);
    let params = header_params_spec(p, st, ctor.params);
    let st = push_scope_spec(p, st);
    let st = bind_params_spec(p, st, ctor.params);
    let (st, lines) = holder_stmts_spec(p, room, st, stmts, h.super_idx, h.lifted, 0int, Seq::empty());
    let (st, hbody) = holder_members_spec(p, room, st, h.hoisted, 0int, lines);
    let st = pop_scope_spec(p, st);
    let first = "\t"@ + inline_kw_spec(p, st) + h.name + "::"@ + h.name + "("@ + params + ") {\n"@ + hbody + "\t}\n"@;
    let st = push_scope_spec(p, st);
    let st = bind_params_spec(p, st, ctor.params);
    let st = GenV { new_args_escape: true, ..st };
    let (st, list) = super_arg_list_spec(p, room, st, h.super_args, 0int, Seq::empty());
    let st = GenV { new_args_escape: false, ..st };
    let names = param_names_spec(ctor.params, 0int, Seq::empty());
    let init = append_owned_null_inits_spec(p, st, " : "@ + h.name + "("@ + join_spec(names, ", "@) + "), "@ + base_name_spec(p, st) + "("@ + join_spec(list, ", "@) + ")"@);
    let mid = field_inits_spec(p.class.fields, 0int, Seq::empty());
    let st = begin_fn_body_spec(p, st, stmts);
    let (st, head) = gen_stmts_spec(p, room, st, mid, "\t"@, 0int, Seq::empty());
    let (st, body) = gen_stmts_spec(p, room, st, stmts, "\t"@, inc_spec(h.super_idx), head);
    let deletes = body_close_deletes_spec(p, st, stmts, "\t"@);
    let st = pop_scope_spec(p, st);
    (st, first + "\n\t"@ + inline_kw_spec(p, st) + class_name + "::"@ + class_name + "("@ + params + ")"@ + init + " {\n"@ + body + deletes + "\t}\n"@)
}

/// What [`BodyGen::ctor_impl`] computes.
#[verifier::opaque]
pub open spec fn ctor_impl_spec(p: Env, room: int, st: GenV, class_name: Seq<char>, ctor: FunctionV) -> (GenV, Seq<char>)
{
    let st = GenV { current_fn: "new"@, ..st };
    let st = note_abstract_this_spec(p, st);
    match facts_of_spec(p.prog, p.class.name, st.mi) {
        Some(facts) => {
            match facts.holder {
                Some(h) => { holder_ctor_impl_spec(p, room, st, class_name, ctor, h) },
                None => {
                    let st = push_scope_spec(p, st);
                    let st = bind_params_spec(p, st, ctor.params);
                    let params = header_params_spec(p, st, ctor.params);
                    let stmts = with_field_inits_spec(p.class, body_stmts_spec(ctor.body));
                    let (st, (base, start)) = base_init_spec(p, room, st, stmts);
                    let init = append_owned_null_inits_spec(p, st, base);
                    let st = begin_fn_body_spec(p, st, stmts);
                    let (st, body) = gen_stmts_spec(p, room, st, stmts, "\t"@, start, Seq::empty());
                    let deletes = body_close_deletes_spec(p, st, stmts, "\t"@);
                    let st = pop_scope_spec(p, st);
                    (st, "\t"@ + inline_kw_spec(p, st) + class_name + "::"@ + class_name + "("@ + params + ")"@ + init + " {\n"@ + body + deletes + "\t}\n"@)
                },
            }
        },
        None => {
            let st = push_scope_spec(p, st);
            let st = bind_params_spec(p, st, ctor.params);
            let params = header_params_spec(p, st, ctor.params);
            let stmts = with_field_inits_spec(p.class, body_stmts_spec(ctor.body));
            let (st, (base, start)) = base_init_spec(p, room, st, stmts);
            let init = append_owned_null_inits_spec(p, st, base);
            let st = begin_fn_body_spec(p, st, stmts);
            let (st, body) = gen_stmts_spec(p, room, st, stmts, "\t"@, start, Seq::empty());
            let deletes = body_close_deletes_spec(p, st, stmts, "\t"@);
            let st = pop_scope_spec(p, st);
            (st, "\t"@ + inline_kw_spec(p, st) + class_name + "::"@ + class_name + "("@ + params + ")"@ + init + " {\n"@ + body + deletes + "\t}\n"@)
        },
    }
}

/// What [`BodyGen::meyers_text`] computes.
#[verifier::opaque]
pub open spec fn meyers_text_spec(p: Env, st: GenV, class_name: Seq<char>, f: FieldV, spelling: Seq<char>, code: Seq<char>) -> Seq<char>
{
    let cst = if final_is_const_spec(f) { "const "@ } else { ""@ };
    "\t"@ + inline_kw_spec(p, st) + cst + spelling + "& "@ + class_name + "::"@ + f.name + "() {\n\t\tstatic "@ + cst + spelling + " _hx_v = "@ + code + ";\n\t\treturn _hx_v;\n\t}\n"@
}

/// What [`BodyGen::gen_static_init`] computes.
#[verifier::opaque]
pub open spec fn gen_static_init_spec(p: Env, room: int, st: GenV, vty: TyV, e: ExprV) -> (GenV, Seq<char>)
{
    let st = GenV { expected: Some(vty), ..st };
    let (st, (code, _)) = gen_expr_spec(p, room, st, e);
    let st = GenV { expected: None, ..st };
    (st, code)
}

/// What [`BodyGen::static_field_def`] computes.
#[verifier::opaque]
pub open spec fn static_field_def_spec(p: Env, room: int, st: GenV, class_name: Seq<char>, f: FieldV) -> (GenV, Seq<char>)
{
    let st = push_scope_spec(p, st);
    let st = GenV { current_fn: f.name, ..st };
    let vty = field_ty_spec(p, st, f);
    let spelling = decl_spelling_spec(vty);
    if is_const_static_spec(f) {
        let st = pop_scope_spec(p, st);
        (st, "\tconst "@ + spelling + " "@ + class_name + "::"@ + f.name + ";\n"@)
    } else {
        if !is_meyers_static_spec(p.prog, st.mi, f) {
            let (st, init) = match f.init {
                Some(e) => {
                    let (st, code) = gen_static_init_spec(p, room, st, vty, e);
                    (st, " = "@ + code)
                },
                None => { (st, Seq::empty()) },
            };
            let st = pop_scope_spec(p, st);
            (st, "\t"@ + spelling + " "@ + class_name + "::"@ + f.name + init + ";\n"@)
        } else {
            match f.init {
                None => {
                    let st = pop_scope_spec(p, st);
                    (st, meyers_text_spec(p, st, class_name, f, spelling, spelling + "()"@))
                },
                Some(e) => {
                    let st = GenV { prelude_t: "\t\t"@, ..st };
                    let (st, code) = gen_static_init_spec(p, room, st, vty, e);
                    let (st, pre) = flush_spec(p, st);
                    let st = pop_scope_spec(p, st);
                    if ((pre).len() == 0) { (st, meyers_text_spec(p, st, class_name, f, spelling, code)) } else {
                        let helper = "_init_"@ + p.class.name + "_"@ + f.name;
                        let kw = if st.inline_defs { "inline "@ } else { "static "@ };
                        (st, "\t"@ + kw + spelling + " "@ + helper + "() {\n"@ + pre + "\t\treturn "@ + code + ";\n\t}\n"@ + (meyers_text_spec(p, st, class_name, f, spelling, helper + "()"@)))
                    }
                },
            }
        }
    }
}

/// What [`BodyGen::method_text`] computes.
#[verifier::opaque]
pub open spec fn method_text_spec(p: Env, room: int, st: GenV, class_name: Seq<char>, m: FunctionV) -> (GenV, Seq<char>)
{
    match m.name {
        Some(name) => {
            if is_accessor_method_spec(p.class, name) || (m.body is None) { (st, Seq::empty()) } else {
                let (st, text) = match m.ret {
                    Some(_) => {
                        let (st, x1) = method_impl_spec(p, room, st, class_name, name, m, m.ret);
                        (st, x1)
                    },
                    None => {
                        let (st, x2) = method_impl_spec(p, room, st, class_name, name, m, accessor_ret_type_spec(p.class, name));
                        (st, x2)
                    },
                };
                (st, text + "\n"@)
            }
        },
        None => { (st, Seq::empty()) },
    }
}

/// What [`BodyGen::methods_text`] computes.
#[verifier::opaque]
pub open spec fn methods_text_spec(p: Env, room: int, st: GenV, class_name: Seq<char>, methods: Seq<FunctionV>, i: int, out: Seq<char>) -> (GenV, Seq<char>)
    decreases methods.len() - i,
{
    if !(0 <= i < methods.len()) { (st, out) } else {
        let (st, text) = method_text_spec(p, room, st, class_name, methods[i]);
        let out = out + text;
        let i = i + 1;
        methods_text_spec(p, room, st, class_name, methods, i, out)
    }
}

/// What [`BodyGen::statics_text`] computes.
#[verifier::opaque]
pub open spec fn statics_text_spec(p: Env, room: int, st: GenV, class_name: Seq<char>, fields: Seq<FieldV>, i: int, out: Seq<char>) -> (GenV, Seq<char>)
    decreases fields.len() - i,
{
    if !(0 <= i < fields.len()) { (st, out) } else {
        let (st, out) = if fields[i].is_static {
            let (st, text) = static_field_def_spec(p, room, st, class_name, fields[i]);
            let out = out + text + "\n"@;
            (st, out)
        } else { (st, out) };
        let i = i + 1;
        statics_text_spec(p, room, st, class_name, fields, i, out)
    }
}

/// What [`BodyGen::class_impl`] computes.
#[verifier::opaque]
pub open spec fn class_impl_spec(p: Env, room: int, st: GenV) -> (GenV, Seq<char>)
{
    let name = self_class_cpp_name_spec(p, st);
    let (st, first) = match p.class.ctor {
        Some(ctor) => {
            let (st, text) = ctor_impl_spec(p, room, st, name, ctor);
            (st, text + "\n"@)
        },
        None => { (st, Seq::empty()) },
    };
    let (st, rest) = methods_text_spec(p, room, st, name, p.class.methods, 0int, first);
    statics_text_spec(p, room, st, name, p.class.fields, 0int, rest)
}

} // verus!
