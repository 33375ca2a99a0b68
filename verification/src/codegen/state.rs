//! The body generator and its bookkeeping: scopes and names, owned locals, diagnostics and
//! the lines that go before a statement.

use vstd::prelude::*;

use crate::ast::{Class, Field, Stmt};
use crate::codegen::ctypes::{map_type_use, map_type_use_spec};
use crate::codegen::gen::{Gen, GenV, text_lists_v, text_text_lists_v, text_texts_v, text_ty_lists_v, text_tys_v};
use crate::codegen::helpers::{no_ty, no_ty_spec};
use crate::codegen::scan::{collect_escaping, collect_escaping_spec, ends_in_return, ends_in_return_spec};
use crate::codegen::ty::{Ty, TyV};
use crate::lexer::{inc, inc_spec};
use crate::model::{ClassV, FieldV, StmtV, fields_v, stmts_v};
use crate::parser::types::{meta_has, meta_has_spec};
use crate::program::{Program, ProgramV, usize_texts_v};
use crate::resolve::{facts_of, facts_of_spec, package_of, package_of_spec};
use crate::strings::ends_with;
use crate::text::{cat2, cat3, cat4, dec, dec_text, dup_texts, empty, has_text, same, texts};

verus! {

broadcast use {crate::codegen::gen::group_gen, crate::codegen::ty::group_ty, crate::model::group_model, crate::program::group_program, crate::text::group_texts};

/// What stays the same while a body is generated: the program, and the class.
pub struct Env {
    pub prog: ProgramV,
    pub class: ClassV,
}

/// What generating a statement or an expression leaves as it was: what the generator was set
/// up with, the function it is in, how deep it is nested, and how many scopes are open.
pub struct Settled {
    pub mi: int,
    pub ns: Seq<Seq<char>>,
    pub abstract_this: Option<TyV>,
    pub current_ret: TyV,
    pub current_fn: Seq<char>,
    pub max_extract_depth: int,
    pub owned_fields: Seq<Seq<char>>,
    pub owned_containers: Seq<Seq<char>>,
    pub no_trace: bool,
    pub inline_defs: bool,
    pub escaping: Seq<Seq<char>>,
    pub expr_depth: int,
    pub loop_depth: int,
    pub no_nullable_deref: bool,
    pub switch_break_flag: Option<Seq<char>>,
    pub nonbinding_catch_vars: Seq<Seq<char>>,
    pub scopes: int,
    pub renames: int,
    pub owned: int,
}

/// That part of a state.
pub open spec fn settled(st: GenV) -> Settled {
    Settled {
        mi: st.mi,
        ns: st.ns,
        abstract_this: st.abstract_this,
        current_ret: st.current_ret,
        current_fn: st.current_fn,
        max_extract_depth: st.max_extract_depth,
        owned_fields: st.owned_fields,
        owned_containers: st.owned_containers,
        no_trace: st.no_trace,
        inline_defs: st.inline_defs,
        escaping: st.escaping,
        expr_depth: st.expr_depth,
        loop_depth: st.loop_depth,
        no_nullable_deref: st.no_nullable_deref,
        switch_break_flag: st.switch_break_flag,
        nonbinding_catch_vars: st.nonbinding_catch_vars,
        scopes: st.scopes.len() as int,
        renames: st.renames.len() as int,
        owned: st.owned.len() as int,
    }
}

/// With one more scope open.
pub open spec fn above(s: Settled) -> Settled {
    Settled { scopes: s.scopes + 1, renames: s.renames + 1, owned: s.owned + 1, ..s }
}

/// With one scope less open.
pub open spec fn below(s: Settled) -> Settled {
    Settled {
        scopes: if s.scopes > 0 { s.scopes - 1 } else { 0 },
        renames: if s.renames > 0 { s.renames - 1 } else { 0 },
        owned: if s.owned > 0 { s.owned - 1 } else { 0 },
        ..s
    }
}

/// Generates the bodies of one class.
pub struct BodyGen<'a> {
    prog: &'a Program,
    class: &'a Class,
    s: Gen,
    /// Longer texts are not read as interpolated expressions: what is nested in a literal
    /// is shorter than it.
    room: usize,
}

/// The last entry for a name among the first `n`.
pub fn local_in(scope: &Vec<(String, Ty)>, name: &str, n: usize) -> (r: Option<Ty>)
    requires
        n <= scope.len(),
    ensures
        (match r { Some(y) => Some(y.v()), None => None }) == local_in_spec(text_tys_v(scope@), name@, (n as int)),
{
    let ghost n_0 = n;
    let mut n: usize = n;
    #[verifier::loop_isolation(false)]
    loop
        invariant
            local_in_spec(text_tys_v(scope@), name@, (n_0 as int)) == local_in_spec(text_tys_v(scope@), name@, (n as int)),
            n <= scope.len(),
        decreases n,
    {
        if n < 1 {
            return None;
        }
        if same(&scope[n - 1].0, name) {
            return Some(scope[n - 1].1.dup());
        }
        n = n - 1;
    }
}

/// The type of a local in the innermost of the first `n` scopes that has it.
pub fn local_of(scopes: &Vec<Vec<(String, Ty)>>, name: &str, n: usize) -> (r: Option<Ty>)
    requires
        n <= scopes.len(),
    ensures
        (match r { Some(y) => Some(y.v()), None => None }) == local_of_spec(text_ty_lists_v(scopes@), name@, (n as int)),
{
    let ghost n_0 = n;
    let mut n: usize = n;
    #[verifier::loop_isolation(false)]
    loop
        invariant
            local_of_spec(text_ty_lists_v(scopes@), name@, (n_0 as int)) == local_of_spec(text_ty_lists_v(scopes@), name@, (n as int)),
            n <= scopes.len(),
        decreases n,
    {
        if n < 1 {
            return None;
        }
        match local_in(&scopes[n - 1], name, scopes[n - 1].len()) {
            Some(t) => {
                return Some(t);
            },
            None => {
                n = n - 1;
            },
        }
    }
}

/// What a name was renamed to, among the first `n` renames of a scope.
pub fn rename_in(scope: &Vec<(String, String)>, name: &str, n: usize) -> (r: Option<String>)
    requires
        n <= scope.len(),
    ensures
        (match r { Some(y) => Some(y@), None => None }) == rename_in_spec(text_texts_v(scope@), name@, (n as int)),
{
    let ghost n_0 = n;
    let mut n: usize = n;
    #[verifier::loop_isolation(false)]
    loop
        invariant
            rename_in_spec(text_texts_v(scope@), name@, (n_0 as int)) == rename_in_spec(text_texts_v(scope@), name@, (n as int)),
            n <= scope.len(),
        decreases n,
    {
        if n < 1 {
            return None;
        }
        if same(&scope[n - 1].0, name) {
            return Some(scope[n - 1].1.clone());
        }
        n = n - 1;
    }
}

/// What a name was renamed to, in the innermost of the first `n` scopes that renames it.
pub fn rename_of(scopes: &Vec<Vec<(String, String)>>, name: &str, n: usize) -> (r: Option<String>)
    requires
        n <= scopes.len(),
    ensures
        (match r { Some(y) => Some(y@), None => None }) == rename_of_spec(text_text_lists_v(scopes@), name@, (n as int)),
{
    let ghost n_0 = n;
    let mut n: usize = n;
    #[verifier::loop_isolation(false)]
    loop
        invariant
            rename_of_spec(text_text_lists_v(scopes@), name@, (n_0 as int)) == rename_of_spec(text_text_lists_v(scopes@), name@, (n as int)),
            n <= scopes.len(),
        decreases n,
    {
        if n < 1 {
            return None;
        }
        match rename_in(&scopes[n - 1], name, scopes[n - 1].len()) {
            Some(t) => {
                return Some(t);
            },
            None => {
                n = n - 1;
            },
        }
    }
}

/// Whether one of the first `n` renames of a scope is to this identifier.
pub fn renamed_in_to(scope: &Vec<(String, String)>, cpp: &str, n: usize) -> (r: bool)
    requires
        n <= scope.len(),
    ensures
        r == renamed_in_to_spec(text_texts_v(scope@), cpp@, (n as int)),
{
    let ghost n_0 = n;
    let mut n: usize = n;
    #[verifier::loop_isolation(false)]
    loop
        invariant
            renamed_in_to_spec(text_texts_v(scope@), cpp@, (n_0 as int)) == renamed_in_to_spec(text_texts_v(scope@), cpp@, (n as int)),
            n <= scope.len(),
        decreases n,
    {
        if n < 1 {
            return false;
        }
        if same(&scope[n - 1].1, cpp) {
            return true;
        }
        n = n - 1;
    }
}

/// Whether a rename in one of the first `n` scopes is to this identifier.
pub fn renamed_to(scopes: &Vec<Vec<(String, String)>>, cpp: &str, n: usize) -> (r: bool)
    requires
        n <= scopes.len(),
    ensures
        r == renamed_to_spec(text_text_lists_v(scopes@), cpp@, (n as int)),
{
    let ghost n_0 = n;
    let mut n: usize = n;
    #[verifier::loop_isolation(false)]
    loop
        invariant
            renamed_to_spec(text_text_lists_v(scopes@), cpp@, (n_0 as int)) == renamed_to_spec(text_text_lists_v(scopes@), cpp@, (n as int)),
            n <= scopes.len(),
        decreases n,
    {
        if n < 1 {
            return false;
        }
        if renamed_in_to(&scopes[n - 1], cpp, scopes[n - 1].len()) {
            return true;
        }
        n = n - 1;
    }
}

/// The names other than `name`, from the one at `i` on.
pub fn without_from(v: &Vec<String>, name: &str, i: usize, out: Vec<String>) -> (r: Vec<String>)
    ensures
        texts(r@) == without_from_spec(texts(v@), name@, (i as int), texts(out@)),
{
    let ghost i_0 = i;
    let ghost out_0 = out;
    let mut i: usize = i;
    let mut out: Vec<String> = out;
    #[verifier::loop_isolation(false)]
    loop
        invariant
            without_from_spec(texts(v@), name@, (i_0 as int), texts(out_0@)) == without_from_spec(texts(v@), name@, (i as int), texts(out@)),
        decreases v.len() - i,
    {
        if i >= v.len() {
            return out;
        }
        if !same(&v[i], name) {
            out.push(v[i].clone());
        }
        i = i + 1;
    }
}

/// The names other than `name`.
pub fn without(v: &Vec<String>, name: &str) -> (r: Vec<String>)
    ensures
        texts(r@) == without_spec(texts(v@), name@),
{
    without_from(v, name, 0, Vec::new())
}

/// The lists from `i` on, each without a name.
pub fn without_in_each(v: &Vec<Vec<String>>, name: &str, i: usize, out: Vec<Vec<String>>) -> (r: Vec<Vec<String>>)
    requires
        i <= v.len(),
    ensures
        text_lists_v(r@) == without_in_each_spec(text_lists_v(v@), name@, (i as int), text_lists_v(out@)),
        r@.len() + i == v@.len() + out@.len(),
{
    let ghost i_0 = i;
    let ghost out_0 = out;
    let mut i: usize = i;
    let mut out: Vec<Vec<String>> = out;
    #[verifier::loop_isolation(false)]
    loop
        invariant
            without_in_each_spec(text_lists_v(v@), name@, (i_0 as int), text_lists_v(out_0@)) == without_in_each_spec(text_lists_v(v@), name@, (i as int), text_lists_v(out@)),
            i <= v.len(),
            out@.len() + i_0 == out_0@.len() + i,
        decreases v.len() - i,
    {
        if i >= v.len() {
            return out;
        }
        out.push(without(&v[i], name));
        i = i + 1;
    }
}

/// A copy of lists of names.
pub fn dup_text_lists(v: &Vec<Vec<String>>) -> (r: Vec<Vec<String>>)
    ensures
        text_lists_v(r@) == text_lists_v(v@),
{
    let mut out: Vec<Vec<String>> = Vec::new();
    let mut i: usize = 0;
    while i < v.len()
        invariant
            i <= v.len(),
            out.len() == i,
            forall|j: int| 0 <= j < i ==> texts((#[trigger] out@[j])@) == texts(v@[j]@),
        decreases v.len() - i,
    {
        out.push(dup_texts(&v[i]));
        i += 1;
    }
    proof {
        assert(text_lists_v(out@) =~= text_lists_v(v@));
    }
    out
}

/// `delete` statements for the first `n` names, the last first.
pub fn deletes_of(names: &Vec<String>, t: &str, n: usize, out: String) -> (r: String)
    requires
        n <= names.len(),
    ensures
        r@ == deletes_of_spec(texts(names@), t@, (n as int), out@),
{
    let ghost n_0 = n;
    let ghost out_0 = out;
    let mut n: usize = n;
    let mut out: String = out;
    #[verifier::loop_isolation(false)]
    loop
        invariant
            deletes_of_spec(texts(names@), t@, (n_0 as int), out_0@) == deletes_of_spec(texts(names@), t@, (n as int), out@),
            n <= names.len(),
        decreases n,
    {
        if n < 1 {
            return out;
        }
        out.append(&cat4(t, "delete ", &names[n - 1], ";\n"));
        n = n - 1;
    }
}

/// `delete` statements for the names of the first `n` scopes, the innermost first.
pub fn deletes_of_all(scopes: &Vec<Vec<String>>, t: &str, n: usize, out: String) -> (r: String)
    requires
        n <= scopes.len(),
    ensures
        r@ == deletes_of_all_spec(text_lists_v(scopes@), t@, (n as int), out@),
{
    let ghost n_0 = n;
    let ghost out_0 = out;
    let mut n: usize = n;
    let mut out: String = out;
    #[verifier::loop_isolation(false)]
    loop
        invariant
            deletes_of_all_spec(text_lists_v(scopes@), t@, (n_0 as int), out_0@) == deletes_of_all_spec(text_lists_v(scopes@), t@, (n as int), out@),
            n <= scopes.len(),
        decreases n,
    {
        if n < 1 {
            return out;
        }
        out = deletes_of(&scopes[n - 1], t, scopes[n - 1].len(), out);
        n = n - 1;
    }
}

/// Whether one of the scopes from `i` on owns anything.
pub fn any_owned(scopes: &Vec<Vec<String>>, i: usize) -> (r: bool)
    ensures
        r == any_owned_spec(text_lists_v(scopes@), (i as int)),
{
    let ghost i_0 = i;
    let mut i: usize = i;
    #[verifier::loop_isolation(false)]
    loop
        invariant
            any_owned_spec(text_lists_v(scopes@), (i_0 as int)) == any_owned_spec(text_lists_v(scopes@), (i as int)),
        decreases scopes.len() - i,
    {
        if i >= scopes.len() {
            return false;
        }
        if scopes[i].len() > 0 {
            return true;
        }
        i = i + 1;
    }
}

/// The names of the fields from `i` on.
pub fn field_names(fields: &Vec<Field>, i: usize, out: Vec<String>) -> (r: Vec<String>)
    ensures
        texts(r@) == field_names_spec(fields_v(fields@), (i as int), texts(out@)),
{
    let ghost i_0 = i;
    let ghost out_0 = out;
    let mut i: usize = i;
    let mut out: Vec<String> = out;
    #[verifier::loop_isolation(false)]
    loop
        invariant
            field_names_spec(fields_v(fields@), (i_0 as int), texts(out_0@)) == field_names_spec(fields_v(fields@), (i as int), texts(out@)),
        decreases fields.len() - i,
    {
        if i >= fields.len() {
            return out;
        }
        out.push(fields[i].name.clone());
        i = i + 1;
    }
}

/// A list of lists with an element appended to the last of them.
pub open spec fn push_last<T>(s: Seq<Seq<T>>, x: T) -> Seq<Seq<T>> {
    if s.len() == 0 { s } else { s.update(s.len() - 1, s.last().push(x)) }
}

/// A list without its last element.
pub open spec fn drop_last_of<T>(s: Seq<T>) -> Seq<T> {
    if s.len() == 0 { s } else { s.subrange(0, s.len() - 1) }
}

/// The context of a diagnostic: the function it is about.
pub fn diag_text(func: &str, msg: &str) -> (r: String)
    ensures
        r@ == diag_text_spec(func@, msg@),
{
    if empty(func) {
        msg.to_owned()
    } else {
        cat3(func, ": ", msg)
    }
}

/// Whether a field of a class is a scalar pointer the object owns: `@owned` fields are
/// always assigned and containers are values.
pub fn is_owned_pointer(prog: &Program, mi: usize, ns: &Vec<String>, owned: &Vec<String>, f: &Field) -> (r: bool)
    ensures
        r == is_owned_pointer_spec(prog.v(), (mi as int), texts(ns@), texts(owned@), f.v()),
{
    if !has_text(owned, &f.name) || meta_has(&f.meta, "owned") {
        return false;
    }
    match &f.ty {
        Some(t) => ends_with(&map_type_use(prog, t, mi, ns), "*"),
        None => false,
    }
}

/// The owned fields from `i` on that are pointers.
pub fn owned_pointers(prog: &Program, mi: usize, ns: &Vec<String>, owned: &Vec<String>, fields: &Vec<Field>, i: usize, out: Vec<String>) -> (r: Vec<String>)
    ensures
        texts(r@) == owned_pointers_spec(prog.v(), (mi as int), texts(ns@), texts(owned@), fields_v(fields@), (i as int), texts(out@)),
{
    let ghost i_0 = i;
    let ghost out_0 = out;
    let mut i: usize = i;
    let mut out: Vec<String> = out;
    #[verifier::loop_isolation(false)]
    loop
        invariant
            owned_pointers_spec(prog.v(), (mi as int), texts(ns@), texts(owned@), fields_v(fields@), (i_0 as int), texts(out_0@)) == owned_pointers_spec(prog.v(), (mi as int), texts(ns@), texts(owned@), fields_v(fields@), (i as int), texts(out@)),
        decreases fields.len() - i,
    {
        if i >= fields.len() {
            return out;
        }
        if is_owned_pointer(prog, mi, ns, owned, &fields[i]) {
            out.push(fields[i].name.clone());
        }
        i = i + 1;
    }
}

/// The state a body generator starts in.
pub fn start_gen(prog: &Program, mi: usize, class: &Class, max_extract_depth: usize, no_trace: bool) -> (r: Gen)
    ensures
        r.v() == start_gen_spec(prog.v(), (mi as int), class.v(), (max_extract_depth as int), no_trace),
{
    let ns = package_of(prog, mi);
    let (owned, receivers) = match facts_of(prog, &class.name, mi) {
        Some(f) => (dup_texts(&f.owned_fields), dup_texts(&f.push_receivers)),
        None => (Vec::new(), Vec::new()),
    };
    let owned_fields = owned_pointers(prog, mi, &ns, &owned, &class.fields, 0, Vec::new());
    let mut scopes: Vec<Vec<(String, Ty)>> = Vec::new();
    scopes.push(Vec::new());
    let mut renames: Vec<Vec<(String, String)>> = Vec::new();
    renames.push(Vec::new());
    let mut open: Vec<Vec<String>> = Vec::new();
    open.push(Vec::new());
    Gen {
        mi,
        ns,
        scopes,
        renames,
        tmp: 0,
        abstract_this: None,
        current_ret: no_ty(),
        prelude: String::new(),
        prelude_t: "\t".to_owned(),
        current_fn: String::new(),
        current_line: 0,
        expr_depth: 0,
        max_extract_depth: if max_extract_depth < 1 { 1usize } else { max_extract_depth },
        warnings: Vec::new(),
        errors: Vec::new(),
        owned: open,
        escaping: Vec::new(),
        new_args_escape: false,
        container_params: Vec::new(),
        value_struct_params: Vec::new(),
        optional_string_params: Vec::new(),
        no_nullable_deref: false,
        loop_depth: 0,
        switch_break_flag: None,
        owned_fields,
        owned_containers: receivers,
        expected: None,
        no_trace,
        nonbinding_catch_vars: Vec::new(),
        inline_defs: false,
    }
}

impl<'a> BodyGen<'a> {
    /// The state of this generator.
    pub closed spec fn gv(&self) -> GenV {
        self.s.v()
    }

    /// What this generator works on.
    pub closed spec fn pg(&self) -> Env {
        Env { prog: self.prog.v(), class: self.class.v() }
    }

    /// How long an interpolated expression may be.
    pub closed spec fn room(&self) -> int {
        self.room as int
    }

    pub fn new(prog: &'a Program, mi: usize, class: &'a Class, max_extract_depth: usize, no_trace: bool) -> (r: BodyGen<'a>)
        ensures
            r.pg() == (Env { prog: prog.v(), class: class.v() }),
            r.room() == usize::MAX,
            r.gv() == start_gen_spec(prog.v(), mi as int, class.v(), max_extract_depth as int, no_trace),
    {
        BodyGen { prog, class, s: start_gen(prog, mi, class, max_extract_depth, no_trace), room: usize::MAX }
    }

    /// The program.
    pub fn prog(&self) -> (r: &'a Program)
        ensures
            r.v() == self.pg().prog,
    {
        self.prog
    }

    pub fn class(&self) -> (r: &'a Class)
        ensures
            r.v() == self.pg().class,
    {
        self.class
    }

    /// How deep the generation may still nest.
    pub fn room_now(&self) -> (r: usize)
        ensures
            r as int == self.room(),
    {
        self.room
    }

    pub fn set_room(&mut self, room: usize)
        ensures
            final(self).pg() == old(self).pg(),
            final(self).room() == room as int,
            final(self).gv() == old(self).gv(),
    {
        self.room = room;
    }

    pub fn mi(&self) -> (r: usize)
        ensures
            (r as int) == self.gv().mi,
    {
        self.s.mi
    }

    pub fn ns(&self) -> (r: &Vec<String>)
        ensures
            texts(r@) == self.gv().ns,
    {
        &self.s.ns
    }

    pub fn abstract_this(&self) -> (r: &Option<Ty>)
        ensures
            (match r { Some(y) => Some(y.v()), None => None }) == self.gv().abstract_this,
    {
        &self.s.abstract_this
    }

    pub fn current_ret(&self) -> (r: &Ty)
        ensures
            r.v() == self.gv().current_ret,
    {
        &self.s.current_ret
    }

    pub fn prelude(&self) -> (r: &String)
        ensures
            r@ == self.gv().prelude,
    {
        &self.s.prelude
    }

    pub fn prelude_t(&self) -> (r: &String)
        ensures
            r@ == self.gv().prelude_t,
    {
        &self.s.prelude_t
    }

    pub fn current_fn(&self) -> (r: &String)
        ensures
            r@ == self.gv().current_fn,
    {
        &self.s.current_fn
    }

    pub fn current_line(&self) -> (r: usize)
        ensures
            (r as int) == self.gv().current_line,
    {
        self.s.current_line
    }

    pub fn expr_depth(&self) -> (r: usize)
        ensures
            (r as int) == self.gv().expr_depth,
    {
        self.s.expr_depth
    }

    pub fn max_extract_depth(&self) -> (r: usize)
        ensures
            (r as int) == self.gv().max_extract_depth,
    {
        self.s.max_extract_depth
    }

    pub fn escaping(&self) -> (r: &Vec<String>)
        ensures
            texts(r@) == self.gv().escaping,
    {
        &self.s.escaping
    }

    pub fn new_args_escape(&self) -> (r: bool)
        ensures
            r == self.gv().new_args_escape,
    {
        self.s.new_args_escape
    }

    pub fn container_params(&self) -> (r: &Vec<String>)
        ensures
            texts(r@) == self.gv().container_params,
    {
        &self.s.container_params
    }

    pub fn value_struct_params(&self) -> (r: &Vec<String>)
        ensures
            texts(r@) == self.gv().value_struct_params,
    {
        &self.s.value_struct_params
    }

    pub fn optional_string_params(&self) -> (r: &Vec<String>)
        ensures
            texts(r@) == self.gv().optional_string_params,
    {
        &self.s.optional_string_params
    }

    pub fn no_nullable_deref(&self) -> (r: bool)
        ensures
            r == self.gv().no_nullable_deref,
    {
        self.s.no_nullable_deref
    }

    pub fn loop_depth(&self) -> (r: usize)
        ensures
            (r as int) == self.gv().loop_depth,
    {
        self.s.loop_depth
    }

    pub fn switch_break_flag(&self) -> (r: &Option<String>)
        ensures
            (match r { Some(y) => Some(y@), None => None }) == self.gv().switch_break_flag,
    {
        &self.s.switch_break_flag
    }

    pub fn owned_fields(&self) -> (r: &Vec<String>)
        ensures
            texts(r@) == self.gv().owned_fields,
    {
        &self.s.owned_fields
    }

    pub fn owned_containers(&self) -> (r: &Vec<String>)
        ensures
            texts(r@) == self.gv().owned_containers,
    {
        &self.s.owned_containers
    }

    pub fn expected(&self) -> (r: &Option<Ty>)
        ensures
            (match r { Some(y) => Some(y.v()), None => None }) == self.gv().expected,
    {
        &self.s.expected
    }

    pub fn no_trace(&self) -> (r: bool)
        ensures
            r == self.gv().no_trace,
    {
        self.s.no_trace
    }

    pub fn inline_defs(&self) -> (r: bool)
        ensures
            r == self.gv().inline_defs,
    {
        self.s.inline_defs
    }

    pub fn nonbinding_catch_vars(&self) -> (r: &Vec<String>)
        ensures
            texts(r@) == self.gv().nonbinding_catch_vars,
    {
        &self.s.nonbinding_catch_vars
    }

    pub fn warnings(&self) -> (r: &Vec<(usize, String)>)
        ensures
            usize_texts_v(r@) == self.gv().warnings,
    {
        &self.s.warnings
    }

    pub fn errors(&self) -> (r: &Vec<(usize, String)>)
        ensures
            usize_texts_v(r@) == self.gv().errors,
    {
        &self.s.errors
    }

    pub fn set_ns(&mut self, x: Vec<String>)
        ensures
            final(self).pg() == old(self).pg(),
            final(self).room() == old(self).room(),
            final(self).gv() == (GenV { ns: texts(x@), ..old(self).gv() }),
    {
        self.s.ns = x;
    }

    pub fn set_abstract_this(&mut self, x: Option<Ty>)
        ensures
            final(self).pg() == old(self).pg(),
            final(self).room() == old(self).room(),
            final(self).gv() == (GenV { abstract_this: (match x { Some(y) => Some(y.v()), None => None }), ..old(self).gv() }),
    {
        self.s.abstract_this = x;
    }

    pub fn set_current_ret(&mut self, x: Ty)
        ensures
            final(self).pg() == old(self).pg(),
            final(self).room() == old(self).room(),
            final(self).gv() == (GenV { current_ret: x.v(), ..old(self).gv() }),
    {
        self.s.current_ret = x;
    }

    pub fn set_prelude(&mut self, x: String)
        ensures
            final(self).pg() == old(self).pg(),
            final(self).room() == old(self).room(),
            final(self).gv() == (GenV { prelude: x@, ..old(self).gv() }),
    {
        self.s.prelude = x;
    }

    pub fn set_prelude_t(&mut self, x: String)
        ensures
            final(self).pg() == old(self).pg(),
            final(self).room() == old(self).room(),
            final(self).gv() == (GenV { prelude_t: x@, ..old(self).gv() }),
    {
        self.s.prelude_t = x;
    }

    pub fn set_current_fn(&mut self, x: String)
        ensures
            final(self).pg() == old(self).pg(),
            final(self).room() == old(self).room(),
            final(self).gv() == (GenV { current_fn: x@, ..old(self).gv() }),
    {
        self.s.current_fn = x;
    }

    pub fn set_current_line(&mut self, x: usize)
        ensures
            final(self).pg() == old(self).pg(),
            final(self).room() == old(self).room(),
            final(self).gv() == (GenV { current_line: (x as int), ..old(self).gv() }),
    {
        self.s.current_line = x;
    }

    pub fn set_expr_depth(&mut self, x: usize)
        ensures
            final(self).pg() == old(self).pg(),
            final(self).room() == old(self).room(),
            final(self).gv() == (GenV { expr_depth: (x as int), ..old(self).gv() }),
    {
        self.s.expr_depth = x;
    }

    pub fn set_new_args_escape(&mut self, x: bool)
        ensures
            final(self).pg() == old(self).pg(),
            final(self).room() == old(self).room(),
            final(self).gv() == (GenV { new_args_escape: x, ..old(self).gv() }),
    {
        self.s.new_args_escape = x;
    }

    pub fn set_no_nullable_deref(&mut self, x: bool)
        ensures
            final(self).pg() == old(self).pg(),
            final(self).room() == old(self).room(),
            final(self).gv() == (GenV { no_nullable_deref: x, ..old(self).gv() }),
    {
        self.s.no_nullable_deref = x;
    }

    pub fn set_loop_depth(&mut self, x: usize)
        ensures
            final(self).pg() == old(self).pg(),
            final(self).room() == old(self).room(),
            final(self).gv() == (GenV { loop_depth: (x as int), ..old(self).gv() }),
    {
        self.s.loop_depth = x;
    }

    pub fn set_switch_break_flag(&mut self, x: Option<String>)
        ensures
            final(self).pg() == old(self).pg(),
            final(self).room() == old(self).room(),
            final(self).gv() == (GenV { switch_break_flag: (match x { Some(y) => Some(y@), None => None }), ..old(self).gv() }),
    {
        self.s.switch_break_flag = x;
    }

    pub fn set_expected(&mut self, x: Option<Ty>)
        ensures
            final(self).pg() == old(self).pg(),
            final(self).room() == old(self).room(),
            final(self).gv() == (GenV { expected: (match x { Some(y) => Some(y.v()), None => None }), ..old(self).gv() }),
    {
        self.s.expected = x;
    }

    pub fn set_inline_defs(&mut self, x: bool)
        ensures
            final(self).pg() == old(self).pg(),
            final(self).room() == old(self).room(),
            final(self).gv() == (GenV { inline_defs: x, ..old(self).gv() }),
    {
        self.s.inline_defs = x;
    }

    pub fn set_nonbinding_catch_vars(&mut self, x: Vec<String>)
        ensures
            final(self).pg() == old(self).pg(),
            final(self).room() == old(self).room(),
            final(self).gv() == (GenV { nonbinding_catch_vars: texts(x@), ..old(self).gv() }),
    {
        self.s.nonbinding_catch_vars = x;
    }

    /// Start over for another definition; what was reported so far is kept.
    pub fn restart(&mut self, inline: bool)
        ensures
            final(self).pg() == old(self).pg(),
            final(self).room() == old(self).room(),
            final(self).gv() == restart_spec(old(self).pg(), old(self).gv(), inline),
    {
        let mut g = start_gen(self.prog, self.s.mi, self.class, self.s.max_extract_depth, self.s.no_trace);
        std::mem::swap(&mut g.warnings, &mut self.s.warnings);
        std::mem::swap(&mut g.errors, &mut self.s.errors);
        g.inline_defs = inline;
        self.s = g;
    }

    /// Drop what was reported beyond the given counts.
    pub fn forget_since(&mut self, nw: usize, ne: usize)
        ensures
            final(self).pg() == old(self).pg(),
            final(self).room() == old(self).room(),
            final(self).gv() == forget_since_spec(old(self).pg(), old(self).gv(), nw as int, ne as int),
    {
        self.s.warnings.truncate(nw);
        self.s.errors.truncate(ne);
        proof {
            assert(usize_texts_v(self.s.warnings@) =~= first_of(usize_texts_v(old(self).s.warnings@), nw as int));
            assert(usize_texts_v(self.s.errors@) =~= first_of(usize_texts_v(old(self).s.errors@), ne as int));
        }
    }

    /// What was reported.
    pub fn into_reports(self) -> (r: (Vec<(usize, String)>, Vec<(usize, String)>))
        ensures
            usize_texts_v(r.0@) == self.gv().warnings,
            usize_texts_v(r.1@) == self.gv().errors,
    {
        (self.s.warnings, self.s.errors)
    }

    /// The lines gathered for the current statement, and none left.
    pub fn flush(&mut self) -> (r: String)
        ensures
            final(self).pg() == old(self).pg(),
            final(self).room() == old(self).room(),
            (final(self).gv(), r@) == flush_spec(old(self).pg(), old(self).gv()),
            settled(final(self).gv()) == settled(old(self).gv()),
    {
        proof {
            reveal(flush_spec);
        }
        let text = self.s.prelude.clone();
        self.s.prelude = String::new();
        text
    }

    /// Add to the lines that go before the current statement.
    pub fn hoist(&mut self, text: &str)
        ensures
            final(self).pg() == old(self).pg(),
            final(self).room() == old(self).room(),
            final(self).gv() == hoist_spec(old(self).pg(), old(self).gv(), text@),
            settled(final(self).gv()) == settled(old(self).gv()),
    {
        proof {
            reveal(hoist_spec);
        }
        self.s.prelude = cat2(&self.s.prelude, text);
    }

    /// The locals that each open scope owns.
    pub fn owned(&self) -> (r: &Vec<Vec<String>>)
        ensures
            text_lists_v(r@) == self.gv().owned,
    {
        &self.s.owned
    }

    /// Undo what looking at an expression left behind: the lines it made, and the locals that
    /// it gave to a scope or took from one.
    pub fn undo(&mut self, lines: String, owned: Vec<Vec<String>>)
        ensures
            final(self).pg() == old(self).pg(),
            final(self).room() == old(self).room(),
            final(self).gv() == (GenV { prelude: lines@, owned: text_lists_v(owned@), ..old(self).gv() }),
    {
        self.s.prelude = lines;
        self.s.owned = owned;
    }

    /// Report a warning at the current line.
    pub fn warn(&mut self, msg: &str)
        ensures
            final(self).pg() == old(self).pg(),
            final(self).room() == old(self).room(),
            final(self).gv() == warn_spec(old(self).pg(), old(self).gv(), msg@),
            settled(final(self).gv()) == settled(old(self).gv()),
    {
        proof {
            reveal(warn_spec);
        }
        let line: usize = self.s.current_line;
        let text = diag_text(&self.s.current_fn, msg);
        self.s.warnings.push((line, text));
    }

    /// Report an error at the current line.
    pub fn fail(&mut self, msg: &str)
        ensures
            final(self).pg() == old(self).pg(),
            final(self).room() == old(self).room(),
            final(self).gv() == fail_spec(old(self).pg(), old(self).gv(), msg@),
            settled(final(self).gv()) == settled(old(self).gv()),
    {
        proof {
            reveal(fail_spec);
        }
        let line: usize = self.s.current_line;
        let text = diag_text(&self.s.current_fn, msg);
        self.s.errors.push((line, text));
    }

    /// A new name for a temporary.
    pub fn fresh(&mut self, hint: &str) -> (r: String)
        ensures
            final(self).pg() == old(self).pg(),
            final(self).room() == old(self).room(),
            (final(self).gv(), r@) == fresh_spec(old(self).pg(), old(self).gv(), hint@),
            settled(final(self).gv()) == settled(old(self).gv()),
    {
        proof {
            reveal(fresh_spec);
        }
        self.s.tmp = inc(self.s.tmp);
        cat3("_", hint, &dec_text(self.s.tmp))
    }

    // ---- scopes ---------------------------------------------------------

    /// Open a scope.
    pub fn push_scope(&mut self)
        ensures
            final(self).pg() == old(self).pg(),
            final(self).room() == old(self).room(),
            final(self).gv() == push_scope_spec(old(self).pg(), old(self).gv()),
    {
        self.s.scopes.push(Vec::new());
        self.s.renames.push(Vec::new());
        self.s.owned.push(Vec::new());
    }

    /// Close the innermost scope.
    pub fn pop_scope(&mut self)
        ensures
            final(self).pg() == old(self).pg(),
            final(self).room() == old(self).room(),
            final(self).gv() == pop_scope_spec(old(self).pg(), old(self).gv()),
            settled(final(self).gv()) == below(settled(old(self).gv())),
    {
        self.s.scopes.pop();
        self.s.renames.pop();
        self.s.owned.pop();
        proof {
            reveal(pop_scope_spec);
            assert(text_ty_lists_v(self.s.scopes@) =~= drop_last_of(text_ty_lists_v(old(self).s.scopes@)));
            assert(text_text_lists_v(self.s.renames@) =~= drop_last_of(text_text_lists_v(old(self).s.renames@)));
            assert(text_lists_v(self.s.owned@) =~= drop_last_of(text_lists_v(old(self).s.owned@)));
        }
    }

    /// The type of a local, if there is one of the name.
    pub fn lookup_local(&self, name: &str) -> (r: Option<Ty>)
        ensures
            (match r { Some(y) => Some(y.v()), None => None }) == lookup_local_spec(self.pg(), self.gv(), name@),
    {
        proof {
            reveal(lookup_local_spec);
        }
        local_of(&self.s.scopes, name, self.s.scopes.len())
    }

    /// Whether there is a local of the name.
    pub fn is_local(&self, name: &str) -> (r: bool)
        ensures
            r == is_local_spec(self.pg(), self.gv(), name@),
    {
        proof {
            reveal(is_local_spec);
        }
        self.lookup_local(name).is_some()
    }

    fn define_in_scope(&mut self, name: &str, ty: Ty)
        ensures
            final(self).pg() == old(self).pg(),
            final(self).room() == old(self).room(),
            final(self).gv() == define_in_scope_spec(old(self).pg(), old(self).gv(), name@, ty.v()),
            settled(final(self).gv()) == settled(old(self).gv()),
    {
        let ghost was = self.s.scopes@;
        match self.s.scopes.pop() {
            Some(top) => {
                let mut top = top;
                let ghost before = top@;
                top.push((name.to_owned(), ty));
                self.s.scopes.push(top);
                proof {
                    reveal(define_in_scope_spec);
                    assert(text_tys_v(top@) == text_tys_v(before).push((name@, ty.v())));
                    assert(text_ty_lists_v(self.s.scopes@) =~= push_last(text_ty_lists_v(was), (name@, ty.v())));
                }
            },
            None => {
                proof {
                    reveal(define_in_scope_spec);
                    assert(text_ty_lists_v(self.s.scopes@) =~= push_last(text_ty_lists_v(was), (name@, ty.v())));
                }
            },
        }
    }

    /// Give a local its type in the current scope. A local that hides a parameter takes over
    /// its name.
    pub fn define_local(&mut self, name: &str, ty: Ty)
        ensures
            final(self).pg() == old(self).pg(),
            final(self).room() == old(self).room(),
            final(self).gv() == define_local_spec(old(self).pg(), old(self).gv(), name@, ty.v()),
            settled(final(self).gv()) == settled(old(self).gv()),
    {
        proof {
            reveal(define_local_spec);
        }
        self.s.container_params = without(&self.s.container_params, name);
        self.s.value_struct_params = without(&self.s.value_struct_params, name);
        self.s.optional_string_params = without(&self.s.optional_string_params, name);
        self.define_in_scope(name, ty);
    }

    /// Keep what a local is called in the generated code.
    pub fn record_rename(&mut self, from: &str, to: &str)
        ensures
            final(self).pg() == old(self).pg(),
            final(self).room() == old(self).room(),
            final(self).gv() == record_rename_spec(old(self).pg(), old(self).gv(), from@, to@),
            settled(final(self).gv()) == settled(old(self).gv()),
    {
        let ghost was = self.s.renames@;
        match self.s.renames.pop() {
            Some(top) => {
                let mut top = top;
                let ghost before = top@;
                top.push((from.to_owned(), to.to_owned()));
                self.s.renames.push(top);
                proof {
                    reveal(record_rename_spec);
                    assert(text_texts_v(top@) == text_texts_v(before).push((from@, to@)));
                    assert(text_text_lists_v(self.s.renames@) =~= push_last(text_text_lists_v(was), (from@, to@)));
                }
            },
            None => {
                proof {
                    reveal(record_rename_spec);
                    assert(text_text_lists_v(self.s.renames@) =~= push_last(text_text_lists_v(was), (from@, to@)));
                }
            },
        }
    }

    /// Whether an identifier is taken: a local is called so, or one in a scope that is still open
    /// was renamed to it.
    pub fn is_taken(&self, name: &str) -> (r: bool)
        ensures
            r == is_taken_spec(self.pg(), self.gv(), name@),
    {
        proof {
            reveal(is_taken_spec);
        }
        self.is_local(name) || renamed_to(&self.s.renames, name, self.s.renames.len())
    }

    /// The first of `name_2`, `name_3`, … that is not taken.
    pub fn free_name(&self, name: &str, i: usize) -> (r: String)
        ensures
            r@ == free_name_spec(self.pg(), self.gv(), name@, (i as int)),
    {
        let ghost i_0 = i;
        let mut i: usize = i;
        #[verifier::loop_isolation(false)]
        loop
            invariant
                free_name_spec(self.pg(), self.gv(), name@, (i_0 as int)) == free_name_spec(self.pg(), self.gv(), name@, (i as int)),
            decreases usize::MAX - i,
        {
            proof {
                reveal(free_name_spec);
            }
            let candidate = cat3(name, "_", &dec_text(i));
            if i >= usize::MAX || !self.is_taken(&candidate) {
                return candidate;
            }
            i = i + 1;
        }
    }

    /// The C++ identifier that a new local can have. Haxe lets a local hide a parameter or an
    /// outer local; C++ does not at function scope, so a name that is taken is renamed (`x` →
    /// `x_2`).
    pub fn local_name(&self, haxe: &str) -> (r: String)
        ensures
            r@ == local_name_spec(self.pg(), self.gv(), haxe@),
    {
        proof {
            reveal(local_name_spec);
        }
        if self.is_taken(haxe) {
            self.free_name(haxe, 2)
        } else {
            haxe.to_owned()
        }
    }

    /// Let uses of a local follow its C++ identifier.
    pub fn name_local(&mut self, haxe: &str, cpp: &str)
        ensures
            final(self).pg() == old(self).pg(),
            final(self).room() == old(self).room(),
            final(self).gv() == name_local_spec(old(self).pg(), old(self).gv(), haxe@, cpp@),
            settled(final(self).gv()) == settled(old(self).gv()),
    {
        proof {
            reveal(name_local_spec);
        }
        if !same(&self.cpp_name(haxe), cpp) {
            self.record_rename(haxe, cpp);
        }
    }

    /// Choose the C++ identifier for a new local; later uses follow it.
    pub fn bind_local_name(&mut self, haxe: &str) -> (r: String)
        ensures
            final(self).pg() == old(self).pg(),
            final(self).room() == old(self).room(),
            (final(self).gv(), r@) == bind_local_name_spec(old(self).pg(), old(self).gv(), haxe@),
            settled(final(self).gv()) == settled(old(self).gv()),
    {
        proof {
            reveal(bind_local_name_spec);
        }
        let cpp = self.local_name(haxe);
        self.name_local(haxe, &cpp);
        cpp
    }

    /// Choose the C++ identifier for a new local whose initialiser still sees what the local
    /// will hide: the identifier is taken, but uses do not follow it yet.
    pub fn reserve_local_name(&mut self, haxe: &str) -> (r: String)
        ensures
            final(self).pg() == old(self).pg(),
            final(self).room() == old(self).room(),
            (final(self).gv(), r@) == reserve_local_name_spec(old(self).pg(), old(self).gv(), haxe@),
            settled(final(self).gv()) == settled(old(self).gv()),
    {
        proof {
            reveal(reserve_local_name_spec);
        }
        let cpp = self.local_name(haxe);
        self.record_rename("", &cpp);
        cpp
    }

    /// The C++ identifier of a local.
    pub fn cpp_name(&self, haxe: &str) -> (r: String)
        ensures
            r@ == cpp_name_spec(self.pg(), self.gv(), haxe@),
    {
        proof {
            reveal(cpp_name_spec);
        }
        match rename_of(&self.s.renames, haxe, self.s.renames.len()) {
            Some(c) => c,
            None => haxe.to_owned(),
        }
    }

    /// A new C++ name for a loop variable. Old compilers leak a `for` variable into the
    /// enclosing block, so every loop has its own.
    pub fn loop_var(&mut self, haxe: &str) -> (r: String)
        ensures
            final(self).pg() == old(self).pg(),
            final(self).room() == old(self).room(),
            (final(self).gv(), r@) == loop_var_spec(old(self).pg(), old(self).gv(), haxe@),
            settled(final(self).gv()) == settled(old(self).gv()),
    {
        proof {
            reveal(loop_var_spec);
        }
        let cpp = self.fresh(haxe);
        self.record_rename(haxe, &cpp);
        cpp
    }

    // ---- owned locals ---------------------------------------------------

    /// Record a heap local the current scope owns.
    pub fn register_owned(&mut self, name: &str)
        ensures
            final(self).pg() == old(self).pg(),
            final(self).room() == old(self).room(),
            final(self).gv() == register_owned_spec(old(self).pg(), old(self).gv(), name@),
            settled(final(self).gv()) == settled(old(self).gv()),
    {
        let ghost was = self.s.owned@;
        match self.s.owned.pop() {
            Some(top) => {
                let mut top = top;
                let ghost before = top@;
                top.push(name.to_owned());
                self.s.owned.push(top);
                proof {
                    reveal(register_owned_spec);
                    assert(texts(top@) == texts(before).push(name@));
                    assert(text_lists_v(self.s.owned@) =~= push_last(text_lists_v(was), name@));
                }
            },
            None => {
                proof {
                    reveal(register_owned_spec);
                    assert(text_lists_v(self.s.owned@) =~= push_last(text_lists_v(was), name@));
                }
            },
        }
    }

    /// Hand a local's ownership out of the function: no scope frees it any more.
    pub fn transfer_owned(&mut self, name: &str)
        ensures
            final(self).pg() == old(self).pg(),
            final(self).room() == old(self).room(),
            final(self).gv() == transfer_owned_spec(old(self).pg(), old(self).gv(), name@),
            settled(final(self).gv()) == settled(old(self).gv()),
    {
        proof {
            reveal(transfer_owned_spec);
        }
        let cpp = self.cpp_name(name);
        self.s.owned = without_in_each(&self.s.owned, &cpp, 0, Vec::new());
    }

    /// `delete` statements for the current scope's owned locals, in reverse order of
    /// acquisition.
    pub fn owned_deletes(&self, t: &str) -> (r: String)
        ensures
            r@ == owned_deletes_spec(self.pg(), self.gv(), t@),
    {
        proof {
            reveal(owned_deletes_spec);
        }
        let n: usize = self.s.owned.len();
        if n == 0 {
            return String::new();
        }
        deletes_of(&self.s.owned[n - 1], t, self.s.owned[n - 1].len(), String::new())
    }

    /// `delete` statements that close a function body. A body that ends in a `return` freed
    /// its locals there, and nothing falls through past it.
    pub fn body_close_deletes(&self, stmts: &Vec<Stmt>, t: &str) -> (r: String)
        ensures
            r@ == body_close_deletes_spec(self.pg(), self.gv(), stmts_v(stmts@), t@),
    {
        proof {
            reveal(body_close_deletes_spec);
        }
        if ends_in_return(stmts) {
            String::new()
        } else {
            self.owned_deletes(t)
        }
    }

    /// Does any open scope own a heap local?
    pub fn has_owned_locals(&self) -> (r: bool)
        ensures
            r == has_owned_locals_spec(self.pg(), self.gv()),
    {
        proof {
            reveal(has_owned_locals_spec);
        }
        any_owned(&self.s.owned, 0)
    }

    /// `delete` statements for the owned locals of every open scope, for an early `return`.
    pub fn all_owned_deletes(&self, t: &str) -> (r: String)
        ensures
            r@ == all_owned_deletes_spec(self.pg(), self.gv(), t@),
    {
        proof {
            reveal(all_owned_deletes_spec);
        }
        deletes_of_all(&self.s.owned, t, self.s.owned.len(), String::new())
    }

    /// Start a function body: find out which of its locals escape.
    pub fn begin_fn_body(&mut self, body: &Vec<Stmt>)
        ensures
            final(self).pg() == old(self).pg(),
            final(self).room() == old(self).room(),
            final(self).gv() == begin_fn_body_spec(old(self).pg(), old(self).gv(), stmts_v(body@)),
    {
        proof {
            reveal(begin_fn_body_spec);
        }
        let fields = field_names(&self.class().fields, 0, Vec::new());
        self.s.escaping = collect_escaping(body, &fields, 0, Vec::new());
    }

    /// Forget the parameters of the previous function.
    pub fn clear_params(&mut self)
        ensures
            final(self).pg() == old(self).pg(),
            final(self).room() == old(self).room(),
            final(self).gv() == clear_params_spec(old(self).pg(), old(self).gv()),
            settled(final(self).gv()) == settled(old(self).gv()),
    {
        proof {
            reveal(clear_params_spec);
        }
        self.s.container_params = Vec::new();
        self.s.value_struct_params = Vec::new();
        self.s.optional_string_params = Vec::new();
    }

    /// Note that a parameter is a container.
    pub fn add_container_param(&mut self, name: &str)
        ensures
            final(self).pg() == old(self).pg(),
            final(self).room() == old(self).room(),
            final(self).gv() == add_container_param_spec(old(self).pg(), old(self).gv(), name@),
            settled(final(self).gv()) == settled(old(self).gv()),
    {
        proof {
            reveal(add_container_param_spec);
        }
        self.s.container_params.push(name.to_owned());
    }

    /// Note that a parameter is a structure that is passed by value.
    pub fn add_value_struct_param(&mut self, name: &str)
        ensures
            final(self).pg() == old(self).pg(),
            final(self).room() == old(self).room(),
            final(self).gv() == add_value_struct_param_spec(old(self).pg(), old(self).gv(), name@),
            settled(final(self).gv()) == settled(old(self).gv()),
    {
        proof {
            reveal(add_value_struct_param_spec);
        }
        self.s.value_struct_params.push(name.to_owned());
    }

    /// Note that a parameter is an optional string.
    pub fn add_optional_string_param(&mut self, name: &str)
        ensures
            final(self).pg() == old(self).pg(),
            final(self).room() == old(self).room(),
            final(self).gv() == add_optional_string_param_spec(old(self).pg(), old(self).gv(), name@),
            settled(final(self).gv()) == settled(old(self).gv()),
    {
        proof {
            reveal(add_optional_string_param_spec);
        }
        self.s.optional_string_params.push(name.to_owned());
    }
}

/// No more than the first `n`.
pub open spec fn first_of<T>(s: Seq<T>, n: int) -> Seq<T> {
    if 0 <= n < s.len() {
        s.subrange(0, n)
    } else {
        s
    }
}

/// What [`BodyGen::restart`] does.
pub open spec fn restart_spec(p: Env, st: GenV, inline: bool) -> GenV {
    GenV {
        warnings: st.warnings,
        errors: st.errors,
        inline_defs: inline,
        ..start_gen_spec(p.prog, st.mi, p.class, st.max_extract_depth, st.no_trace)
    }
}

/// What [`BodyGen::forget_since`] does.
pub open spec fn forget_since_spec(p: Env, st: GenV, nw: int, ne: int) -> GenV {
    GenV { warnings: first_of(st.warnings, nw), errors: first_of(st.errors, ne), ..st }
}

/// What [`BodyGen::pop_scope`] does.
#[verifier::opaque]
pub open spec fn pop_scope_spec(p: Env, st: GenV) -> GenV {
    GenV {
        scopes: drop_last_of(st.scopes),
        renames: drop_last_of(st.renames),
        owned: drop_last_of(st.owned),
        ..st
    }
}

/// A local with its type added to the innermost scope.
#[verifier::opaque]
pub open spec fn define_in_scope_spec(p: Env, st: GenV, name: Seq<char>, ty: TyV) -> GenV {
    GenV { scopes: push_last(st.scopes, (name, ty)), ..st }
}

/// A renaming added to the innermost scope.
#[verifier::opaque]
pub open spec fn record_rename_spec(p: Env, st: GenV, from: Seq<char>, to: Seq<char>) -> GenV {
    GenV { renames: push_last(st.renames, (from, to)), ..st }
}

/// An owned local added to the innermost scope.
#[verifier::opaque]
pub open spec fn register_owned_spec(p: Env, st: GenV, name: Seq<char>) -> GenV {
    GenV { owned: push_last(st.owned, name), ..st }
}

/// What [`local_in`] computes.
pub open spec fn local_in_spec(scope: Seq<(Seq<char>, TyV)>, name: Seq<char>, n: int) -> Option<TyV>
    decreases n,
{
    if n < 1 { None } else {
        if ((scope[n - 1]).0 == name) { Some((scope[n - 1]).1) } else {
            let n = n - 1;
            local_in_spec(scope, name, n)
        }
    }
}

/// What [`local_of`] computes.
pub open spec fn local_of_spec(scopes: Seq<Seq<(Seq<char>, TyV)>>, name: Seq<char>, n: int) -> Option<TyV>
    decreases n,
{
    if n < 1 { None } else {
        match local_in_spec(scopes[n - 1], name, (scopes[n - 1]).len() as int) {
            Some(t) => { Some(t) },
            None => {
                let n = n - 1;
                local_of_spec(scopes, name, n)
            },
        }
    }
}

/// What [`rename_in`] computes.
pub open spec fn rename_in_spec(scope: Seq<(Seq<char>, Seq<char>)>, name: Seq<char>, n: int) -> Option<Seq<char>>
    decreases n,
{
    if n < 1 { None } else {
        if ((scope[n - 1]).0 == name) { Some((scope[n - 1]).1) } else {
            let n = n - 1;
            rename_in_spec(scope, name, n)
        }
    }
}

/// What [`rename_of`] computes.
pub open spec fn rename_of_spec(scopes: Seq<Seq<(Seq<char>, Seq<char>)>>, name: Seq<char>, n: int) -> Option<Seq<char>>
    decreases n,
{
    if n < 1 { None } else {
        match rename_in_spec(scopes[n - 1], name, (scopes[n - 1]).len() as int) {
            Some(t) => { Some(t) },
            None => {
                let n = n - 1;
                rename_of_spec(scopes, name, n)
            },
        }
    }
}

/// What [`renamed_in_to`] computes.
pub open spec fn renamed_in_to_spec(scope: Seq<(Seq<char>, Seq<char>)>, cpp: Seq<char>, n: int) -> bool
    decreases n,
{
    if n < 1 { false } else {
        if ((scope[n - 1]).1 == cpp) { true } else {
            let n = n - 1;
            renamed_in_to_spec(scope, cpp, n)
        }
    }
}

/// What [`renamed_to`] computes.
pub open spec fn renamed_to_spec(scopes: Seq<Seq<(Seq<char>, Seq<char>)>>, cpp: Seq<char>, n: int) -> bool
    decreases n,
{
    if n < 1 { false } else {
        if renamed_in_to_spec(scopes[n - 1], cpp, (scopes[n - 1]).len() as int) { true } else {
            let n = n - 1;
            renamed_to_spec(scopes, cpp, n)
        }
    }
}

/// What [`without_from`] computes.
pub open spec fn without_from_spec(v: Seq<Seq<char>>, name: Seq<char>, i: int, out: Seq<Seq<char>>) -> Seq<Seq<char>>
    decreases v.len() - i,
{
    if !(0 <= i < v.len()) { out } else {
        let out = if !(v[i] == name) {
            let out = out.push(v[i]);
            out
        } else { out };
        let i = i + 1;
        without_from_spec(v, name, i, out)
    }
}

/// What [`without`] computes.
pub open spec fn without_spec(v: Seq<Seq<char>>, name: Seq<char>) -> Seq<Seq<char>>
{
    without_from_spec(v, name, 0int, Seq::empty())
}

/// What [`without_in_each`] computes.
pub open spec fn without_in_each_spec(v: Seq<Seq<Seq<char>>>, name: Seq<char>, i: int, out: Seq<Seq<Seq<char>>>) -> Seq<Seq<Seq<char>>>
    decreases v.len() - i,
{
    if !(0 <= i < v.len()) { out } else {
        let out = out.push(without_spec(v[i], name));
        let i = i + 1;
        without_in_each_spec(v, name, i, out)
    }
}

/// What [`deletes_of`] computes.
pub open spec fn deletes_of_spec(names: Seq<Seq<char>>, t: Seq<char>, n: int, out: Seq<char>) -> Seq<char>
    decreases n,
{
    if n < 1 { out } else {
        let out = out + (t + "delete "@ + (names[n - 1]) + ";\n"@);
        let n = n - 1;
        deletes_of_spec(names, t, n, out)
    }
}

/// What [`deletes_of_all`] computes.
pub open spec fn deletes_of_all_spec(scopes: Seq<Seq<Seq<char>>>, t: Seq<char>, n: int, out: Seq<char>) -> Seq<char>
    decreases n,
{
    if n < 1 { out } else {
        let out = deletes_of_spec(scopes[n - 1], t, (scopes[n - 1]).len() as int, out);
        let n = n - 1;
        deletes_of_all_spec(scopes, t, n, out)
    }
}

/// What [`any_owned`] computes.
pub open spec fn any_owned_spec(scopes: Seq<Seq<Seq<char>>>, i: int) -> bool
    decreases scopes.len() - i,
{
    if !(0 <= i < scopes.len()) { false } else {
        if (scopes[i].len()) > 0 { true } else {
            let i = i + 1;
            any_owned_spec(scopes, i)
        }
    }
}

/// What [`field_names`] computes.
pub open spec fn field_names_spec(fields: Seq<FieldV>, i: int, out: Seq<Seq<char>>) -> Seq<Seq<char>>
    decreases fields.len() - i,
{
    if !(0 <= i < fields.len()) { out } else {
        let out = out.push(fields[i].name);
        let i = i + 1;
        field_names_spec(fields, i, out)
    }
}

/// What [`diag_text`] computes.
pub open spec fn diag_text_spec(func: Seq<char>, msg: Seq<char>) -> Seq<char>
{
    if ((func).len() == 0) { msg } else { func + ": "@ + msg }
}

/// What [`is_owned_pointer`] computes.
pub open spec fn is_owned_pointer_spec(prog: ProgramV, mi: int, ns: Seq<Seq<char>>, owned: Seq<Seq<char>>, f: FieldV) -> bool
{
    if !(owned.contains(f.name)) || meta_has_spec(f.meta, "owned"@) { false } else {
        match f.ty {
            Some(t) => { ("*"@).is_suffix_of(map_type_use_spec(prog, t, mi, ns)) },
            None => { false },
        }
    }
}

/// What [`owned_pointers`] computes.
pub open spec fn owned_pointers_spec(prog: ProgramV, mi: int, ns: Seq<Seq<char>>, owned: Seq<Seq<char>>, fields: Seq<FieldV>, i: int, out: Seq<Seq<char>>) -> Seq<Seq<char>>
    decreases fields.len() - i,
{
    if !(0 <= i < fields.len()) { out } else {
        let out = if is_owned_pointer_spec(prog, mi, ns, owned, fields[i]) {
            let out = out.push(fields[i].name);
            out
        } else { out };
        let i = i + 1;
        owned_pointers_spec(prog, mi, ns, owned, fields, i, out)
    }
}

/// What [`start_gen`] computes.
pub open spec fn start_gen_spec(prog: ProgramV, mi: int, class: ClassV, max_extract_depth: int, no_trace: bool) -> GenV
{
    let ns = package_of_spec(prog, mi);
    let (owned, receivers) = match facts_of_spec(prog, class.name, mi) {
        Some(f) => { (f.owned_fields, f.push_receivers) },
        None => { (Seq::empty(), Seq::empty()) },
    };
    let owned_fields = owned_pointers_spec(prog, mi, ns, owned, class.fields, 0int, Seq::empty());
    let scopes: Seq<Seq<(Seq<char>, TyV)>> = Seq::empty();
    let scopes = scopes.push(Seq::empty());
    let renames: Seq<Seq<(Seq<char>, Seq<char>)>> = Seq::empty();
    let renames = renames.push(Seq::empty());
    let open: Seq<Seq<Seq<char>>> = Seq::empty();
    let open = open.push(Seq::empty());
    GenV { mi, ns, scopes, renames, tmp: 0, abstract_this: None, current_ret: no_ty_spec(), prelude: Seq::empty(), prelude_t: "\t"@, current_fn: Seq::empty(), current_line: 0, expr_depth: 0, max_extract_depth: if max_extract_depth < 1 { 1int } else { max_extract_depth }, warnings: Seq::empty(), errors: Seq::empty(), owned: open, escaping: Seq::empty(), new_args_escape: false, container_params: Seq::empty(), value_struct_params: Seq::empty(), optional_string_params: Seq::empty(), no_nullable_deref: false, loop_depth: 0, switch_break_flag: None, owned_fields, owned_containers: receivers, expected: None, no_trace, nonbinding_catch_vars: Seq::empty(), inline_defs: false }
}

/// What [`BodyGen::flush`] computes.
#[verifier::opaque]
pub open spec fn flush_spec(p: Env, st: GenV) -> (GenV, Seq<char>)
{
    let text = st.prelude;
    let st = GenV { prelude: Seq::empty(), ..st };
    (st, text)
}

/// What [`BodyGen::hoist`] computes.
#[verifier::opaque]
pub open spec fn hoist_spec(p: Env, st: GenV, text: Seq<char>) -> GenV
{
    let st = GenV { prelude: st.prelude + text, ..st };
    st
}

/// What [`BodyGen::warn`] computes.
#[verifier::opaque]
pub open spec fn warn_spec(p: Env, st: GenV, msg: Seq<char>) -> GenV
{
    let line: int = st.current_line;
    let text = diag_text_spec(st.current_fn, msg);
    let st = GenV { warnings: st.warnings.push((line, text)), ..st };
    st
}

/// What [`BodyGen::fail`] computes.
#[verifier::opaque]
pub open spec fn fail_spec(p: Env, st: GenV, msg: Seq<char>) -> GenV
{
    let line: int = st.current_line;
    let text = diag_text_spec(st.current_fn, msg);
    let st = GenV { errors: st.errors.push((line, text)), ..st };
    st
}

/// What [`BodyGen::fresh`] computes.
#[verifier::opaque]
pub open spec fn fresh_spec(p: Env, st: GenV, hint: Seq<char>) -> (GenV, Seq<char>)
{
    let st = GenV { tmp: inc_spec(st.tmp), ..st };
    (st, "_"@ + hint + (dec((st.tmp) as nat)))
}

/// What [`BodyGen::push_scope`] computes.
pub open spec fn push_scope_spec(p: Env, st: GenV) -> GenV
{
    let st = GenV { scopes: st.scopes.push(Seq::empty()), ..st };
    let st = GenV { renames: st.renames.push(Seq::empty()), ..st };
    let st = GenV { owned: st.owned.push(Seq::empty()), ..st };
    st
}

/// What [`BodyGen::lookup_local`] computes.
#[verifier::opaque]
pub open spec fn lookup_local_spec(p: Env, st: GenV, name: Seq<char>) -> Option<TyV>
{
    local_of_spec(st.scopes, name, st.scopes.len() as int)
}

/// What [`BodyGen::is_local`] computes.
#[verifier::opaque]
pub open spec fn is_local_spec(p: Env, st: GenV, name: Seq<char>) -> bool
{
    lookup_local_spec(p, st, name) is Some
}

/// What [`BodyGen::define_local`] computes.
#[verifier::opaque]
pub open spec fn define_local_spec(p: Env, st: GenV, name: Seq<char>, ty: TyV) -> GenV
{
    let st = GenV { container_params: without_spec(st.container_params, name), ..st };
    let st = GenV { value_struct_params: without_spec(st.value_struct_params, name), ..st };
    let st = GenV { optional_string_params: without_spec(st.optional_string_params, name), ..st };
    let st = define_in_scope_spec(p, st, name, ty);
    st
}

/// What [`BodyGen::is_taken`] computes.
#[verifier::opaque]
pub open spec fn is_taken_spec(p: Env, st: GenV, name: Seq<char>) -> bool
{
    is_local_spec(p, st, name) || (renamed_to_spec(st.renames, name, st.renames.len() as int))
}

/// What [`BodyGen::free_name`] computes.
#[verifier::opaque]
pub open spec fn free_name_spec(p: Env, st: GenV, name: Seq<char>, i: int) -> Seq<char>
    decreases usize::MAX - i,
{
    let candidate = name + "_"@ + (dec((i) as nat));
    if (i >= (usize::MAX)) || (!is_taken_spec(p, st, candidate)) { candidate } else {
        let i = i + 1;
        free_name_spec(p, st, name, i)
    }
}

/// What [`BodyGen::local_name`] computes.
#[verifier::opaque]
pub open spec fn local_name_spec(p: Env, st: GenV, haxe: Seq<char>) -> Seq<char>
{
    if is_taken_spec(p, st, haxe) { free_name_spec(p, st, haxe, 2int) } else { haxe }
}

/// What [`BodyGen::name_local`] computes.
#[verifier::opaque]
pub open spec fn name_local_spec(p: Env, st: GenV, haxe: Seq<char>, cpp: Seq<char>) -> GenV
{
    if !(cpp_name_spec(p, st, haxe) == cpp) {
        let st = record_rename_spec(p, st, haxe, cpp);
        st
    } else { st }
}

/// What [`BodyGen::bind_local_name`] computes.
#[verifier::opaque]
pub open spec fn bind_local_name_spec(p: Env, st: GenV, haxe: Seq<char>) -> (GenV, Seq<char>)
{
    let cpp = local_name_spec(p, st, haxe);
    let st = name_local_spec(p, st, haxe, cpp);
    (st, cpp)
}

/// What [`BodyGen::reserve_local_name`] computes.
#[verifier::opaque]
pub open spec fn reserve_local_name_spec(p: Env, st: GenV, haxe: Seq<char>) -> (GenV, Seq<char>)
{
    let cpp = local_name_spec(p, st, haxe);
    let st = record_rename_spec(p, st, ""@, cpp);
    (st, cpp)
}

/// What [`BodyGen::cpp_name`] computes.
#[verifier::opaque]
pub open spec fn cpp_name_spec(p: Env, st: GenV, haxe: Seq<char>) -> Seq<char>
{
    match rename_of_spec(st.renames, haxe, st.renames.len() as int) {
        Some(c) => { c },
        None => { haxe },
    }
}

/// What [`BodyGen::loop_var`] computes.
#[verifier::opaque]
pub open spec fn loop_var_spec(p: Env, st: GenV, haxe: Seq<char>) -> (GenV, Seq<char>)
{
    let (st, cpp) = fresh_spec(p, st, haxe);
    let st = record_rename_spec(p, st, haxe, cpp);
    (st, cpp)
}

/// What [`BodyGen::transfer_owned`] computes.
#[verifier::opaque]
pub open spec fn transfer_owned_spec(p: Env, st: GenV, name: Seq<char>) -> GenV
{
    let cpp = cpp_name_spec(p, st, name);
    let st = GenV { owned: without_in_each_spec(st.owned, cpp, 0int, Seq::empty()), ..st };
    st
}

/// What [`BodyGen::owned_deletes`] computes.
#[verifier::opaque]
pub open spec fn owned_deletes_spec(p: Env, st: GenV, t: Seq<char>) -> Seq<char>
{
    let n: int = st.owned.len() as int;
    if n == 0 { Seq::empty() } else {
        deletes_of_spec(st.owned[n - 1], t, (st.owned[n - 1]).len() as int, Seq::empty())
    }
}

/// What [`BodyGen::body_close_deletes`] computes.
#[verifier::opaque]
pub open spec fn body_close_deletes_spec(p: Env, st: GenV, stmts: Seq<StmtV>, t: Seq<char>) -> Seq<char>
{
    if ends_in_return_spec(stmts) { Seq::empty() } else { owned_deletes_spec(p, st, t) }
}

/// What [`BodyGen::has_owned_locals`] computes.
#[verifier::opaque]
pub open spec fn has_owned_locals_spec(p: Env, st: GenV) -> bool
{
    any_owned_spec(st.owned, 0int)
}

/// What [`BodyGen::all_owned_deletes`] computes.
#[verifier::opaque]
pub open spec fn all_owned_deletes_spec(p: Env, st: GenV, t: Seq<char>) -> Seq<char>
{
    deletes_of_all_spec(st.owned, t, st.owned.len() as int, Seq::empty())
}

/// What [`BodyGen::begin_fn_body`] computes.
#[verifier::opaque]
pub open spec fn begin_fn_body_spec(p: Env, st: GenV, body: Seq<StmtV>) -> GenV
{
    let fields = field_names_spec(p.class.fields, 0int, Seq::empty());
    let st = GenV { escaping: collect_escaping_spec(body, fields, 0int, Seq::empty()), ..st };
    st
}

/// What [`BodyGen::clear_params`] computes.
#[verifier::opaque]
pub open spec fn clear_params_spec(p: Env, st: GenV) -> GenV
{
    let st = GenV { container_params: Seq::empty(), ..st };
    let st = GenV { value_struct_params: Seq::empty(), ..st };
    let st = GenV { optional_string_params: Seq::empty(), ..st };
    st
}

/// What [`BodyGen::add_container_param`] computes.
#[verifier::opaque]
pub open spec fn add_container_param_spec(p: Env, st: GenV, name: Seq<char>) -> GenV
{
    let st = GenV { container_params: st.container_params.push(name), ..st };
    st
}

/// What [`BodyGen::add_value_struct_param`] computes.
#[verifier::opaque]
pub open spec fn add_value_struct_param_spec(p: Env, st: GenV, name: Seq<char>) -> GenV
{
    let st = GenV { value_struct_params: st.value_struct_params.push(name), ..st };
    st
}

/// What [`BodyGen::add_optional_string_param`] computes.
#[verifier::opaque]
pub open spec fn add_optional_string_param_spec(p: Env, st: GenV, name: Seq<char>) -> GenV
{
    let st = GenV { optional_string_params: st.optional_string_params.push(name), ..st };
    st
}

} // verus!
