//! Declaration parsing: package, imports, classes, interfaces, enums, typedefs,
//! abstracts, fields and functions.

use vstd::prelude::*;

use crate::ast::{Access, Class, Decl, Enum, EnumVariant, Field, File, FnModifiers, Function, GlobalVar, Import, Interface, Meta, PropAccess, Type, Typedef, TypedefTarget, Using};
use crate::model::{ClassV, DeclV, EnumV, EnumVariantV, FieldV, FileV, FnModifiersV, FunctionV, GlobalVarV, ImportV, InterfaceV, MetaV, TypeV, TypedefTargetV, TypedefV, UsingV, enum_variants_v, metas_v, types_v};
use crate::parser::block::parse_block_spec;
use crate::parser::cursor::{Ctx, PResult, Parser, Pr, St, at_eof_spec, at_kw_spec, at_sym_spec, bump_spec, eat_kw_spec, eat_sym_spec, err_spec, expect_ident_spec, expect_sym_kw_spec, expect_sym_spec, line_spec, parse_meta_list_spec, peek2_spec, peek_spec, skip_braced_block_spec, skip_braced_body_spec, stay, step};
use crate::parser::postfix::parse_params_spec;
use crate::parser::pp::outer_directive_spec;
use crate::parser::types::{expect_type_gt_spec, parse_dotted_spec, parse_struct_fields_spec, parse_type_spec};
use crate::parser::vars::{parse_opt_init_spec, parse_opt_type_spec};
use crate::text::{cat2, cat3, cat5, same, texts};
use crate::token::{Kw, Sym, TokKind, TokKindV, tok_name, tok_name_spec};

verus! {

broadcast use {crate::model::group_model, crate::token::group_token, crate::text::group_texts};

/// A member of a class or an interface.
pub enum Member {
    Field(Field),
    /// A method, or the constructor where it has no name.
    Method(Function),
}

/// Mathematical model of [`Member`].
#[allow(inconsistent_fields)]
pub enum MemberV {
    Field(FieldV),
    Method(FunctionV),
}

impl Member {
    /// The value with every string and list seen as a sequence.
    pub open spec fn v(self) -> MemberV
    {
        match self {
            Member::Field(a) => MemberV::Field(a.v()),
            Member::Method(a) => MemberV::Method(a.v()),
        }
    }
}

/// No modifier at all.
pub fn no_modifiers() -> (r: FnModifiers)
    ensures
        r.v() == no_modifiers_spec(),
{
    FnModifiers {
        is_static: false,
        is_inline: false,
        is_extern: false,
        is_override: false,
        is_final: false,
        is_dynamic: false,
        is_abstract: false,
        is_macro: false,
    }
}

/// The modifiers with the one a token adds to a declaration, if it is one.
pub fn decl_modifier(k: &TokKind, m: &FnModifiers) -> (r: Option<FnModifiers>)
    ensures
        (match r { Some(y) => Some(y.v()), None => None }) == decl_modifier_spec(k.v(), m.v()),
{
    let mut n = m.dup();
    match k {
        TokKind::Kw(Kw::Extern) => {
            n.is_extern = true;
        },
        TokKind::Kw(Kw::Inline) => {
            n.is_inline = true;
        },
        TokKind::Kw(Kw::Static) => {
            n.is_static = true;
        },
        TokKind::Kw(Kw::Override) => {
            n.is_override = true;
        },
        TokKind::Kw(Kw::Dynamic) => {
            n.is_dynamic = true;
        },
        TokKind::Kw(Kw::Macro) => {
            n.is_macro = true;
        },
        _ => {
            return None;
        },
    }
    Some(n)
}

/// The modifiers with the one a token adds to a member, if it is one. `final` is a
/// modifier only of a function; otherwise it begins a field.
pub fn member_modifier(k: &TokKind, before_function: bool, m: &FnModifiers) -> (r: Option<FnModifiers>)
    ensures
        (match r { Some(y) => Some(y.v()), None => None }) == member_modifier_spec(k.v(), before_function, m.v()),
{
    let mut n = m.dup();
    match k {
        TokKind::Kw(Kw::Inline) => {
            n.is_inline = true;
        },
        TokKind::Kw(Kw::Extern) => {
            n.is_extern = true;
        },
        TokKind::Kw(Kw::Override) => {
            n.is_override = true;
        },
        TokKind::Kw(Kw::Dynamic) => {
            n.is_dynamic = true;
        },
        TokKind::Kw(Kw::Abstract) => {
            n.is_abstract = true;
        },
        TokKind::Kw(Kw::Macro) => {
            n.is_macro = true;
        },
        TokKind::Kw(Kw::Final) => {
            if !before_function {
                return None;
            }
            n.is_final = true;
        },
        _ => {
            return None;
        },
    }
    Some(n)
}

/// An explicit `public`/`private` wins over the default.
pub fn set_access(current: Access, new: Access) -> (r: Access)
    ensures
        r == set_access_spec(current, new),
{
    match current {
        Access::Default => new,
        other => other,
    }
}

/// The property access a word names.
pub fn prop_access(word: &str) -> (r: Option<PropAccess>)
    ensures
        r == prop_access_spec(word@),
{
    if same(word, "default") {
        Some(PropAccess::Default)
    } else if same(word, "null") {
        Some(PropAccess::Null)
    } else if same(word, "get") {
        Some(PropAccess::Get)
    } else if same(word, "set") {
        Some(PropAccess::Setter)
    } else if same(word, "never") {
        Some(PropAccess::Never)
    } else if same(word, "dynamic") {
        Some(PropAccess::Dynamic)
    } else {
        None
    }
}

/// The texts joined by `, `, from the one at `i` on.
pub fn comma_join(v: &Vec<String>, i: usize, out: String) -> (r: String)
    ensures
        r@ == comma_join_spec(texts(v@), (i as int), out@),
{
    let ghost i_0 = i;
    let ghost out_0 = out;
    let mut i: usize = i;
    let mut out: String = out;
    #[verifier::loop_isolation(false)]
    loop
        invariant
            comma_join_spec(texts(v@), (i_0 as int), out_0@) == comma_join_spec(texts(v@), (i as int), out@),
        decreases v.len() - i,
    {
        if i >= v.len() {
            return out;
        }
        if i > 0 {
            out.append(", ");
        }
        out.append(&v[i]);
        i = i + 1;
    }
}

/// An empty file.
pub fn empty_file() -> (r: File)
    ensures
        r.v() == empty_file_spec(),
{
    File { package: Vec::new(), imports: Vec::new(), usings: Vec::new(), decls: Vec::new(), meta: Vec::new() }
}

/// The field of an abstract that holds the underlying value.
pub fn this_field(underlying: &Type) -> (r: Field)
    ensures
        r.v() == this_field_spec(underlying.v()),
{
    Field {
        name: "__this".to_owned(),
        ty: Some(underlying.dup()),
        init: None,
        access: Access::Private,
        is_static: false,
        is_final: false,
        is_inline: false,
        get: PropAccess::Default,
        set: PropAccess::Default,
        meta: Vec::new(),
    }
}

impl Parser {
    // ---- file -----------------------------------------------------------

    /// The package a file starts with. `package;` means the root package, like no declaration
    /// at all.
    pub fn parse_package(&mut self) -> (r: PResult<Vec<String>>)
        requires
            old(self).wf(),
        ensures
            final(self).wf(),
            final(self).cx() == old(self).cx(),
            parse_package_spec(old(self).cx(), old(self).st()) == (match r { Ok(x) => Pr::Done(texts(x@), final(self).st()), Err(e) => Pr::Fail(e.v()) }),
            final(self).st().pos >= old(self).st().pos,
    {
        let mut package: Vec<String> = Vec::new();
        if self.eat_kw(Kw::Package) {
            if !self.at_sym(Sym::Semi) {
                let path = self.parse_dotted()?;
                package = path;
            }
            self.expect_sym(Sym::Semi)?;
        }
        Ok(package)
    }

    /// A source file. Its package is the one that it starts with.
    pub fn parse_file(&mut self) -> (r: PResult<File>)
        requires
            old(self).wf(),
        ensures
            final(self).wf(),
            final(self).cx() == old(self).cx(),
            parse_file_spec(old(self).cx(), old(self).st()) == (match r { Ok(x) => Pr::Done(x.v(), final(self).st()), Err(e) => Pr::Fail(e.v()) }),
            final(self).st().pos >= old(self).st().pos,
            r matches Ok(f) ==> (parse_package_spec(old(self).cx(), old(self).st()) matches Pr::Done(package, _) && f.v().package == package),
    {
        let mut file = empty_file();
        let package = self.parse_package()?;
        file.package = package;
        self.parse_file_items(file)
    }

    fn parse_file_items(&mut self, file: File) -> (r: PResult<File>)
        requires
            old(self).wf(),
        ensures
            final(self).wf(),
            final(self).cx() == old(self).cx(),
            parse_file_items_spec(old(self).cx(), old(self).st(), file.v()) == (match r { Ok(x) => Pr::Done(x.v(), final(self).st()), Err(e) => Pr::Fail(e.v()) }),
            final(self).st().pos >= old(self).st().pos,
            r matches Ok(f) ==> f.v().package == file.v().package,
    {
        let ghost file_0 = file;
        let mut file: File = file;
        #[verifier::loop_isolation(false)]
        loop
            invariant
                self.wf(),
                self.cx() == old(self).cx(),
                self.st().pos >= old(self).st().pos,
                parse_file_items_spec(old(self).cx(), old(self).st(), file_0.v()) == parse_file_items_spec(self.cx(), self.st(), file.v()),
                file.v().package == file_0.v().package,
            decreases self.left(),
        {
            proof {
                reveal(parse_file_items_spec);
            }
            let from: usize = self.pos();
            if self.outer_directive()? {
                continue;
            }
            if self.at_kw(Kw::Import) {
                let i = self.parse_import()?;
                file.imports.push(i);
                continue;
            }
            if self.at_kw(Kw::Using) {
                let line: usize = self.line();
                self.bump();
                let path = self.parse_dotted()?;
                self.expect_sym(Sym::Semi)?;
                file.usings.push(Using { path, line });
                continue;
            }
            if self.at_eof() {
                return Ok(file);
            }
            // Metadata that nothing but the end of the file follows belongs to the file (e.g. a
            // `StdAfx.hx` carrying only `@:headerCode`).
            let meta = self.parse_meta_list()?;
            if self.at_eof() {
                file.meta = meta;
                return Ok(file);
            }
            let decl = self.parse_decl_body(meta)?;
            file.decls.push(decl);
        }
    }

    fn parse_import(&mut self) -> (r: PResult<Import>)
        requires
            old(self).wf(),
        ensures
            final(self).wf(),
            final(self).cx() == old(self).cx(),
            parse_import_spec(old(self).cx(), old(self).st()) == (match r { Ok(x) => Pr::Done(x.v(), final(self).st()), Err(e) => Pr::Fail(e.v()) }),
            final(self).st().pos >= old(self).st().pos,
            r is Ok ==> final(self).st().pos > old(self).st().pos,
    {
        proof {
            reveal(parse_import_spec);
        }
        self.expect_sym_kw(Kw::Import)?;
        let mut path: Vec<String> = Vec::new();
        let first = self.expect_ident()?;
        path.push(first);
        let (path, wildcard) = self.parse_import_path(path)?;
        let mut alias: Option<String> = None;
        // `import a.b.C as D;` or `... in D;`
        if matches!(self.peek(), TokKind::Ident(kw) if same(kw, "as")) {
            self.bump();
            let a = self.expect_ident()?;
            alias = Some(a);
        }
        if self.eat_kw(Kw::In) {
            let a = self.expect_ident()?;
            alias = Some(a);
        }
        self.expect_sym(Sym::Semi)?;
        Ok(Import { path, wildcard, alias })
    }

    fn parse_import_path(&mut self, path: Vec<String>) -> (r: PResult<(Vec<String>, bool)>)
        requires
            old(self).wf(),
        ensures
            final(self).wf(),
            final(self).cx() == old(self).cx(),
            parse_import_path_spec(old(self).cx(), old(self).st(), texts(path@)) == (match r { Ok(x) => Pr::Done((texts(x.0@), x.1), final(self).st()), Err(e) => Pr::Fail(e.v()) }),
            final(self).st().pos >= old(self).st().pos,
    {
        let ghost path_0 = path;
        let mut path: Vec<String> = path;
        #[verifier::loop_isolation(false)]
        loop
            invariant
                self.wf(),
                self.cx() == old(self).cx(),
                self.st().pos >= old(self).st().pos,
                parse_import_path_spec(old(self).cx(), old(self).st(), texts(path_0@)) == parse_import_path_spec(self.cx(), self.st(), texts(path@)),
            decreases self.left(),
        {
            proof {
                reveal(parse_import_path_spec);
            }
            if !self.eat_sym(Sym::Dot) {
                return Ok((path, false));
            }
            if self.eat_sym(Sym::Star) {
                return Ok((path, true));
            }
            let part = self.expect_ident()?;
            path.push(part);
        }
    }

    // ---- declarations ---------------------------------------------------

    /// The modifiers before a declaration, shared by classes, top-level functions and
    /// globals: the function modifiers, whether a class is final or abstract, the access.
    fn parse_decl_modifiers(&mut self, m: FnModifiers, final_class: bool, abstract_class: bool, access: Access) -> (r: PResult<(FnModifiers, bool, bool, Access)>)
        requires
            old(self).wf(),
        ensures
            final(self).wf(),
            final(self).cx() == old(self).cx(),
            parse_decl_modifiers_spec(old(self).cx(), old(self).st(), m.v(), final_class, abstract_class, access) == (match r { Ok(x) => Pr::Done((x.0.v(), x.1, x.2, x.3), final(self).st()), Err(e) => Pr::Fail(e.v()) }),
            final(self).st().pos >= old(self).st().pos,
    {
        let ghost m_0 = m;
        let ghost final_class_0 = final_class;
        let ghost abstract_class_0 = abstract_class;
        let ghost access_0 = access;
        let mut m: FnModifiers = m;
        let mut final_class: bool = final_class;
        let mut abstract_class: bool = abstract_class;
        let mut access: Access = access;
        #[verifier::loop_isolation(false)]
        loop
            invariant
                self.wf(),
                self.cx() == old(self).cx(),
                self.st().pos >= old(self).st().pos,
                parse_decl_modifiers_spec(old(self).cx(), old(self).st(), m_0.v(), final_class_0, abstract_class_0, access_0) == parse_decl_modifiers_spec(self.cx(), self.st(), m.v(), final_class, abstract_class, access),
            decreases self.left(),
        {
            proof {
                reveal(parse_decl_modifiers_spec);
            }
            let before_class = matches!(self.peek2(), TokKind::Kw(Kw::Class));
            if self.eat_kw(Kw::Public) {
                access = set_access(access, Access::Public);
                continue;
            }
            if self.eat_kw(Kw::Private) {
                access = set_access(access, Access::Private);
                continue;
            }
            if before_class && self.at_kw(Kw::Final) {
                self.bump();
                final_class = true;
                continue;
            }
            if before_class && self.at_kw(Kw::Abstract) {
                self.bump();
                abstract_class = true;
                continue;
            }
            match decl_modifier(self.peek(), &m) {
                Some(n) => {
                    self.bump();
                    m = n;
                },
                None => {
                    return Ok((m, final_class, abstract_class, access));
                },
            }
        }
    }

    /// A declaration whose leading metadata has already been taken.
    fn parse_decl_body(&mut self, meta: Vec<Meta>) -> (r: PResult<Decl>)
        requires
            old(self).wf(),
        ensures
            final(self).wf(),
            final(self).cx() == old(self).cx(),
            parse_decl_body_spec(old(self).cx(), old(self).st(), metas_v(meta@)) == (match r { Ok(x) => Pr::Done(x.v(), final(self).st()), Err(e) => Pr::Fail(e.v()) }),
            final(self).st().pos >= old(self).st().pos,
            r is Ok ==> final(self).st().pos > old(self).st().pos,
    {
        proof {
            reveal(parse_decl_body_spec);
        }
        let (modifiers, final_class, abstract_class, access) =
            self.parse_decl_modifiers(no_modifiers(), false, false, Access::Default)?;
        let line: usize = self.line();
        match self.peek() {
            TokKind::Kw(Kw::Class) => {
                let class = self.parse_class(meta, modifiers.is_extern, final_class, abstract_class)?;
                Ok(Decl::Class(Box::new(class)))
            },
            TokKind::Kw(Kw::Interface) => {
                let i = self.parse_interface(meta, modifiers.is_extern)?;
                Ok(Decl::Interface(i))
            },
            // `enum abstract X(T) { … }` is Haxe's typed-constant idiom.
            TokKind::Kw(Kw::Enum) if matches!(self.peek2(), TokKind::Kw(Kw::Abstract)) => {
                self.bump();
                self.bump();
                let e = self.parse_enum_abstract(meta, modifiers.is_extern)?;
                Ok(Decl::Enum(e))
            },
            TokKind::Kw(Kw::Enum) => self.parse_enum(meta, modifiers.is_extern),
            // A bare `abstract X(T) { … }` newtype.
            TokKind::Kw(Kw::Abstract) => {
                self.bump();
                self.parse_abstract(meta, line)
            },
            TokKind::Kw(Kw::Typedef) => self.parse_typedef(meta),
            TokKind::Kw(Kw::Function) => {
                let func = self.parse_function(meta, access, modifiers)?;
                Ok(Decl::Function(func))
            },
            TokKind::Kw(Kw::Var | Kw::Final) => {
                let is_final = self.at_kw(Kw::Final);
                self.bump();
                let g = self.parse_global_var(meta, access, is_final, modifiers.is_extern)?;
                Ok(Decl::Global(g))
            },
            other => Err(self.err(&cat2("unexpected top-level token ", &tok_name(other)))),
        }
    }

    fn parse_type_params(&mut self) -> (r: PResult<Vec<String>>)
        requires
            old(self).wf(),
        ensures
            final(self).wf(),
            final(self).cx() == old(self).cx(),
            parse_type_params_spec(old(self).cx(), old(self).st()) == (match r { Ok(x) => Pr::Done(texts(x@), final(self).st()), Err(e) => Pr::Fail(e.v()) }),
            final(self).st().pos >= old(self).st().pos,
    {
        if self.eat_sym(Sym::Lt) {
            let params = self.parse_names(Vec::new())?;
            self.expect_type_gt()?;
            Ok(params)
        } else {
            Ok(Vec::new())
        }
    }

    fn parse_names(&mut self, names: Vec<String>) -> (r: PResult<Vec<String>>)
        requires
            old(self).wf(),
        ensures
            final(self).wf(),
            final(self).cx() == old(self).cx(),
            parse_names_spec(old(self).cx(), old(self).st(), texts(names@)) == (match r { Ok(x) => Pr::Done(texts(x@), final(self).st()), Err(e) => Pr::Fail(e.v()) }),
            final(self).st().pos >= old(self).st().pos,
    {
        let ghost names_0 = names;
        let mut names: Vec<String> = names;
        #[verifier::loop_isolation(false)]
        loop
            invariant
                self.wf(),
                self.cx() == old(self).cx(),
                self.st().pos >= old(self).st().pos,
                parse_names_spec(old(self).cx(), old(self).st(), texts(names_0@)) == parse_names_spec(self.cx(), self.st(), texts(names@)),
            decreases self.left(),
        {
            proof {
                reveal(parse_names_spec);
            }
            let n = self.expect_ident()?;
            names.push(n);
            if !self.eat_sym(Sym::Comma) {
                return Ok(names);
            }
        }
    }

    fn parse_heritage(&mut self, extends: Option<Type>, implements: Vec<Type>) -> (r: PResult<(Option<Type>, Vec<Type>)>)
        requires
            old(self).wf(),
        ensures
            final(self).wf(),
            final(self).cx() == old(self).cx(),
            parse_heritage_spec(old(self).cx(), old(self).st(), (match extends { Some(y) => Some(y.v()), None => None }), types_v(implements@)) == (match r { Ok(x) => Pr::Done(((match x.0 { Some(y) => Some(y.v()), None => None }), types_v(x.1@)), final(self).st()), Err(e) => Pr::Fail(e.v()) }),
            final(self).st().pos >= old(self).st().pos,
    {
        let ghost extends_0 = extends;
        let ghost implements_0 = implements;
        let mut extends: Option<Type> = extends;
        let mut implements: Vec<Type> = implements;
        #[verifier::loop_isolation(false)]
        loop
            invariant
                self.wf(),
                self.cx() == old(self).cx(),
                self.st().pos >= old(self).st().pos,
                parse_heritage_spec(old(self).cx(), old(self).st(), (match extends_0 { Some(y) => Some(y.v()), None => None }), types_v(implements_0@)) == parse_heritage_spec(self.cx(), self.st(), (match extends { Some(y) => Some(y.v()), None => None }), types_v(implements@)),
            decreases self.left(),
        {
            proof {
                reveal(parse_heritage_spec);
            }
            if self.eat_kw(Kw::Extends) {
                let t = self.parse_type()?;
                extends = Some(t);
            } else if self.eat_kw(Kw::Implements) {
                let t = self.parse_type()?;
                implements.push(t);
            } else {
                return Ok((extends, implements));
            }
        }
    }

    fn parse_class(&mut self, meta: Vec<Meta>, is_extern: bool, is_final: bool, is_abstract: bool) -> (r: PResult<Class>)
        requires
            old(self).wf(),
        ensures
            final(self).wf(),
            final(self).cx() == old(self).cx(),
            parse_class_spec(old(self).cx(), old(self).st(), metas_v(meta@), is_extern, is_final, is_abstract) == (match r { Ok(x) => Pr::Done(x.v(), final(self).st()), Err(e) => Pr::Fail(e.v()) }),
            final(self).st().pos >= old(self).st().pos,
            r is Ok ==> final(self).st().pos > old(self).st().pos,
    {
        let line: usize = self.line();
        self.expect_sym_kw(Kw::Class)?;
        let name = self.expect_ident()?;
        let type_params = self.parse_type_params()?;
        let (extends, implements) = self.parse_heritage(None, Vec::new())?;
        self.expect_sym(Sym::LBrace)?;
        self.parse_members(Class {
            name,
            line,
            type_params,
            extends,
            implements,
            is_extern,
            is_final,
            is_abstract,
            abstract_underlying: None,
            meta,
            fields: Vec::new(),
            methods: Vec::new(),
            ctor: None,
        })
    }

    /// The members of a class up to its closing brace, added to it.
    fn parse_members(&mut self, class: Class) -> (r: PResult<Class>)
        requires
            old(self).wf(),
        ensures
            final(self).wf(),
            final(self).cx() == old(self).cx(),
            parse_members_spec(old(self).cx(), old(self).st(), class.v()) == (match r { Ok(x) => Pr::Done(x.v(), final(self).st()), Err(e) => Pr::Fail(e.v()) }),
            final(self).st().pos >= old(self).st().pos,
    {
        let ghost class_0 = class;
        let mut class: Class = class;
        #[verifier::loop_isolation(false)]
        loop
            invariant
                self.wf(),
                self.cx() == old(self).cx(),
                self.st().pos >= old(self).st().pos,
                parse_members_spec(old(self).cx(), old(self).st(), class_0.v()) == parse_members_spec(self.cx(), self.st(), class.v()),
            decreases self.left(),
        {
            proof {
                reveal(parse_members_spec);
            }
            if self.eat_sym(Sym::RBrace) {
                return Ok(class);
            }
            if self.at_eof() {
                return Err(self.err("expected RBrace, found Eof"));
            }
            if self.eat_sym(Sym::Semi) {
                continue;
            }
            let from: usize = self.pos();
            if self.outer_directive()? {
                continue;
            }
            let m = self.parse_member()?;
            match m {
                Member::Field(f) => {
                    class.fields.push(f);
                },
                Member::Method(f) => {
                    if f.name.is_none() {
                        class.ctor = Some(f);
                    } else {
                        class.methods.push(f);
                    }
                },
            }
        }
    }

    /// Skip header clauses (`from`/`to`) up to a body.
    fn skip_to_body(&mut self) -> (r: PResult<()>)
        requires
            old(self).wf(),
        ensures
            final(self).wf(),
            final(self).cx() == old(self).cx(),
            skip_to_body_spec(old(self).cx(), old(self).st()) == (match r { Ok(x) => Pr::Done((), final(self).st()), Err(e) => Pr::Fail(e.v()) }),
            final(self).st().pos >= old(self).st().pos,
    {
        #[verifier::loop_isolation(false)]
        loop
            invariant
                self.wf(),
                self.cx() == old(self).cx(),
                self.st().pos >= old(self).st().pos,
                skip_to_body_spec(old(self).cx(), old(self).st()) == skip_to_body_spec(self.cx(), self.st()),
            decreases self.left(),
        {
            proof {
                reveal(skip_to_body_spec);
            }
            if self.at_sym(Sym::LBrace) || self.at_eof() {
                return Ok(());
            }
            self.bump();
        }
    }

    /// `abstract Name(Underlying) [from/to …] { members }`: a newtype, lowered to a value
    /// class that wraps the underlying value in a `__this` field. The leading `abstract`
    /// keyword is already taken.
    fn parse_abstract(&mut self, meta: Vec<Meta>, line: usize) -> (r: PResult<Decl>)
        requires
            old(self).wf(),
        ensures
            final(self).wf(),
            final(self).cx() == old(self).cx(),
            parse_abstract_spec(old(self).cx(), old(self).st(), metas_v(meta@), (line as int)) == (match r { Ok(x) => Pr::Done(x.v(), final(self).st()), Err(e) => Pr::Fail(e.v()) }),
            final(self).st().pos >= old(self).st().pos,
            r is Ok ==> final(self).st().pos > old(self).st().pos,
    {
        let name = self.expect_ident()?;
        // generic abstracts are not supported; the parameters are discarded
        self.parse_type_params()?;
        self.expect_sym(Sym::LParen)?;
        let underlying = self.parse_type()?;
        self.expect_sym(Sym::RParen)?;
        self.skip_to_body()?;
        self.expect_sym(Sym::LBrace)?;
        let mut fields: Vec<Field> = Vec::new();
        fields.push(this_field(&underlying));
        let class = self.parse_members(Class {
            name,
            line,
            type_params: Vec::new(),
            extends: None,
            implements: Vec::new(),
            is_extern: false,
            is_final: false,
            is_abstract: false,
            abstract_underlying: Some(underlying),
            meta,
            fields,
            methods: Vec::new(),
            ctor: None,
        })?;
        Ok(Decl::Class(Box::new(class)))
    }

    fn parse_interface(&mut self, meta: Vec<Meta>, is_extern: bool) -> (r: PResult<Interface>)
        requires
            old(self).wf(),
        ensures
            final(self).wf(),
            final(self).cx() == old(self).cx(),
            parse_interface_spec(old(self).cx(), old(self).st(), metas_v(meta@), is_extern) == (match r { Ok(x) => Pr::Done(x.v(), final(self).st()), Err(e) => Pr::Fail(e.v()) }),
            final(self).st().pos >= old(self).st().pos,
            r is Ok ==> final(self).st().pos > old(self).st().pos,
    {
        let line: usize = self.line();
        self.expect_sym_kw(Kw::Interface)?;
        let name = self.expect_ident()?;
        let type_params = self.parse_type_params()?;
        let extends = self.parse_bases(Vec::new())?;
        self.expect_sym(Sym::LBrace)?;
        self.parse_interface_members(Interface {
            name,
            line,
            is_extern,
            type_params,
            extends,
            meta,
            methods: Vec::new(),
            fields: Vec::new(),
        })
    }

    fn parse_bases(&mut self, extends: Vec<Type>) -> (r: PResult<Vec<Type>>)
        requires
            old(self).wf(),
        ensures
            final(self).wf(),
            final(self).cx() == old(self).cx(),
            parse_bases_spec(old(self).cx(), old(self).st(), types_v(extends@)) == (match r { Ok(x) => Pr::Done(types_v(x@), final(self).st()), Err(e) => Pr::Fail(e.v()) }),
            final(self).st().pos >= old(self).st().pos,
    {
        let ghost extends_0 = extends;
        let mut extends: Vec<Type> = extends;
        #[verifier::loop_isolation(false)]
        loop
            invariant
                self.wf(),
                self.cx() == old(self).cx(),
                self.st().pos >= old(self).st().pos,
                parse_bases_spec(old(self).cx(), old(self).st(), types_v(extends_0@)) == parse_bases_spec(self.cx(), self.st(), types_v(extends@)),
            decreases self.left(),
        {
            proof {
                reveal(parse_bases_spec);
            }
            if !self.eat_kw(Kw::Extends) {
                return Ok(extends);
            }
            extends = self.parse_base_list(extends)?;
        }
    }

    fn parse_base_list(&mut self, extends: Vec<Type>) -> (r: PResult<Vec<Type>>)
        requires
            old(self).wf(),
        ensures
            final(self).wf(),
            final(self).cx() == old(self).cx(),
            parse_base_list_spec(old(self).cx(), old(self).st(), types_v(extends@)) == (match r { Ok(x) => Pr::Done(types_v(x@), final(self).st()), Err(e) => Pr::Fail(e.v()) }),
            final(self).st().pos >= old(self).st().pos,
    {
        let ghost extends_0 = extends;
        let mut extends: Vec<Type> = extends;
        #[verifier::loop_isolation(false)]
        loop
            invariant
                self.wf(),
                self.cx() == old(self).cx(),
                self.st().pos >= old(self).st().pos,
                parse_base_list_spec(old(self).cx(), old(self).st(), types_v(extends_0@)) == parse_base_list_spec(self.cx(), self.st(), types_v(extends@)),
            decreases self.left(),
        {
            proof {
                reveal(parse_base_list_spec);
            }
            let t = self.parse_type()?;
            extends.push(t);
            if !self.eat_sym(Sym::Comma) {
                return Ok(extends);
            }
        }
    }

    /// The members of an interface (method signatures, rarely fields) up to its closing
    /// brace, added to it.
    fn parse_interface_members(&mut self, iface: Interface) -> (r: PResult<Interface>)
        requires
            old(self).wf(),
        ensures
            final(self).wf(),
            final(self).cx() == old(self).cx(),
            parse_interface_members_spec(old(self).cx(), old(self).st(), iface.v()) == (match r { Ok(x) => Pr::Done(x.v(), final(self).st()), Err(e) => Pr::Fail(e.v()) }),
            final(self).st().pos >= old(self).st().pos,
    {
        let ghost iface_0 = iface;
        let mut iface: Interface = iface;
        #[verifier::loop_isolation(false)]
        loop
            invariant
                self.wf(),
                self.cx() == old(self).cx(),
                self.st().pos >= old(self).st().pos,
                parse_interface_members_spec(old(self).cx(), old(self).st(), iface_0.v()) == parse_interface_members_spec(self.cx(), self.st(), iface.v()),
            decreases self.left(),
        {
            proof {
                reveal(parse_interface_members_spec);
            }
            if self.eat_sym(Sym::RBrace) {
                return Ok(iface);
            }
            if self.at_eof() {
                return Err(self.err("expected RBrace, found Eof"));
            }
            let from: usize = self.pos();
            if self.outer_directive()? {
                continue;
            }
            let m = self.parse_member()?;
            match m {
                Member::Field(f) => {
                    iface.fields.push(f);
                },
                Member::Method(f) => {
                    iface.methods.push(f);
                },
            }
        }
    }

    fn parse_enum(&mut self, meta: Vec<Meta>, is_extern: bool) -> (r: PResult<Decl>)
        requires
            old(self).wf(),
        ensures
            final(self).wf(),
            final(self).cx() == old(self).cx(),
            parse_enum_spec(old(self).cx(), old(self).st(), metas_v(meta@), is_extern) == (match r { Ok(x) => Pr::Done(x.v(), final(self).st()), Err(e) => Pr::Fail(e.v()) }),
            final(self).st().pos >= old(self).st().pos,
            r is Ok ==> final(self).st().pos > old(self).st().pos,
    {
        let line: usize = self.line();
        self.expect_sym_kw(Kw::Enum)?;
        let name = self.expect_ident()?;
        let type_params = self.parse_type_params()?;
        self.expect_sym(Sym::LBrace)?;
        let variants = self.parse_variants(Vec::new())?;
        // Generic enums have no C++98 lowering: the body is taken and discarded.
        if type_params.len() > 0 {
            return Ok(Decl::Unsupported {
                feature: cat5("the generic enum `", &name, "<", &comma_join(&type_params, 0, String::new()), ">`"),
                line,
            });
        }
        Ok(Decl::Enum(Enum { name, is_extern, meta, variants, underlying: None }))
    }

    fn parse_variants(&mut self, variants: Vec<EnumVariant>) -> (r: PResult<Vec<EnumVariant>>)
        requires
            old(self).wf(),
        ensures
            final(self).wf(),
            final(self).cx() == old(self).cx(),
            parse_variants_spec(old(self).cx(), old(self).st(), enum_variants_v(variants@)) == (match r { Ok(x) => Pr::Done(enum_variants_v(x@), final(self).st()), Err(e) => Pr::Fail(e.v()) }),
            final(self).st().pos >= old(self).st().pos,
    {
        let ghost variants_0 = variants;
        let mut variants: Vec<EnumVariant> = variants;
        #[verifier::loop_isolation(false)]
        loop
            invariant
                self.wf(),
                self.cx() == old(self).cx(),
                self.st().pos >= old(self).st().pos,
                parse_variants_spec(old(self).cx(), old(self).st(), enum_variants_v(variants_0@)) == parse_variants_spec(self.cx(), self.st(), enum_variants_v(variants@)),
            decreases self.left(),
        {
            proof {
                reveal(parse_variants_spec);
            }
            if self.eat_sym(Sym::RBrace) {
                return Ok(variants);
            }
            if self.at_eof() {
                return Err(self.err("expected RBrace, found Eof"));
            }
            let name = self.expect_ident()?;
            let params = if self.at_sym(Sym::LParen) {
                self.parse_params()?
            } else {
                Vec::new()
            };
            self.eat_sym(Sym::Semi);
            variants.push(EnumVariant { name, params, value: None });
        }
    }

    /// `enum abstract X(T) { var A [= expr]; ... }`, after the two keywords. The underlying
    /// type and each member's explicit value are kept.
    fn parse_enum_abstract(&mut self, meta: Vec<Meta>, is_extern: bool) -> (r: PResult<Enum>)
        requires
            old(self).wf(),
        ensures
            final(self).wf(),
            final(self).cx() == old(self).cx(),
            parse_enum_abstract_spec(old(self).cx(), old(self).st(), metas_v(meta@), is_extern) == (match r { Ok(x) => Pr::Done(x.v(), final(self).st()), Err(e) => Pr::Fail(e.v()) }),
            final(self).st().pos >= old(self).st().pos,
            r is Ok ==> final(self).st().pos > old(self).st().pos,
    {
        let name = self.expect_ident()?;
        self.expect_sym(Sym::LParen)?;
        let underlying = self.parse_type()?;
        self.expect_sym(Sym::RParen)?;
        self.skip_to_body()?;
        self.expect_sym(Sym::LBrace)?;
        let variants = self.parse_constants(Vec::new())?;
        self.expect_sym(Sym::RBrace)?;
        Ok(Enum { name, is_extern, meta, variants, underlying: Some(underlying) })
    }

    fn skip_constant_modifiers(&mut self) -> (r: PResult<()>)
        requires
            old(self).wf(),
        ensures
            final(self).wf(),
            final(self).cx() == old(self).cx(),
            skip_constant_modifiers_spec(old(self).cx(), old(self).st()) == (match r { Ok(x) => Pr::Done((), final(self).st()), Err(e) => Pr::Fail(e.v()) }),
            final(self).st().pos >= old(self).st().pos,
    {
        #[verifier::loop_isolation(false)]
        loop
            invariant
                self.wf(),
                self.cx() == old(self).cx(),
                self.st().pos >= old(self).st().pos,
                skip_constant_modifiers_spec(old(self).cx(), old(self).st()) == skip_constant_modifiers_spec(self.cx(), self.st()),
            decreases self.left(),
        {
            proof {
                reveal(skip_constant_modifiers_spec);
            }
            if !matches!(self.peek(), TokKind::Kw(Kw::Public | Kw::Private | Kw::Inline | Kw::Static | Kw::Final)) {
                return Ok(());
            }
            self.bump();
        }
    }

    fn parse_constants(&mut self, variants: Vec<EnumVariant>) -> (r: PResult<Vec<EnumVariant>>)
        requires
            old(self).wf(),
        ensures
            final(self).wf(),
            final(self).cx() == old(self).cx(),
            parse_constants_spec(old(self).cx(), old(self).st(), enum_variants_v(variants@)) == (match r { Ok(x) => Pr::Done(enum_variants_v(x@), final(self).st()), Err(e) => Pr::Fail(e.v()) }),
            final(self).st().pos >= old(self).st().pos,
    {
        let ghost variants_0 = variants;
        let mut variants: Vec<EnumVariant> = variants;
        #[verifier::loop_isolation(false)]
        loop
            invariant
                self.wf(),
                self.cx() == old(self).cx(),
                self.st().pos >= old(self).st().pos,
                parse_constants_spec(old(self).cx(), old(self).st(), enum_variants_v(variants_0@)) == parse_constants_spec(self.cx(), self.st(), enum_variants_v(variants@)),
            decreases self.left(),
        {
            proof {
                reveal(parse_constants_spec);
            }
            if self.at_sym(Sym::RBrace) || self.at_eof() {
                return Ok(variants);
            }
            // Member-level metadata and modifiers carry no meaning for a constant.
            let _ = self.parse_meta_list()?;
            self.skip_constant_modifiers()?;
            // A method inside an `enum abstract` is not transpiled: its signature and body are
            // skipped.
            if self.at_kw(Kw::Function) {
                self.bump();
                self.skip_to_body()?;
                self.skip_braced_body()?;
                self.eat_sym(Sym::Semi);
                continue;
            }
            if !self.eat_kw(Kw::Var) {
                return Ok(variants);
            }
            let name = self.expect_ident()?;
            // a `: Type` annotation on the member is ignored
            self.parse_opt_type()?;
            let value = self.parse_opt_init()?;
            self.eat_sym(Sym::Semi);
            variants.push(EnumVariant { name, params: Vec::new(), value });
        }
    }

    fn parse_typedef(&mut self, meta: Vec<Meta>) -> (r: PResult<Decl>)
        requires
            old(self).wf(),
        ensures
            final(self).wf(),
            final(self).cx() == old(self).cx(),
            parse_typedef_spec(old(self).cx(), old(self).st(), metas_v(meta@)) == (match r { Ok(x) => Pr::Done(x.v(), final(self).st()), Err(e) => Pr::Fail(e.v()) }),
            final(self).st().pos >= old(self).st().pos,
            r is Ok ==> final(self).st().pos > old(self).st().pos,
    {
        let line: usize = self.line();
        self.expect_sym_kw(Kw::Typedef)?;
        let name = self.expect_ident()?;
        let type_params = self.parse_type_params()?;
        self.expect_sym(Sym::Assign)?;
        let target = if self.at_sym(Sym::LBrace) {
            let fields = self.parse_struct_fields()?;
            TypedefTarget::Struct(fields)
        } else {
            let t = self.parse_type()?;
            TypedefTarget::Alias(t)
        };
        self.eat_sym(Sym::Semi);
        // Generic typedefs have no C++98 lowering: the body is taken and discarded.
        if type_params.len() > 0 {
            return Ok(Decl::Unsupported {
                feature: cat5("the generic typedef `", &name, "<", &comma_join(&type_params, 0, String::new()), ">`"),
                line,
            });
        }
        Ok(Decl::Typedef(Typedef { name, meta, target }))
    }

    fn parse_global_var(&mut self, meta: Vec<Meta>, access: Access, is_final: bool, is_extern: bool) -> (r: PResult<GlobalVar>)
        requires
            old(self).wf(),
        ensures
            final(self).wf(),
            final(self).cx() == old(self).cx(),
            parse_global_var_spec(old(self).cx(), old(self).st(), metas_v(meta@), access, is_final, is_extern) == (match r { Ok(x) => Pr::Done(x.v(), final(self).st()), Err(e) => Pr::Fail(e.v()) }),
            final(self).st().pos >= old(self).st().pos,
            r is Ok ==> final(self).st().pos > old(self).st().pos,
    {
        let name = self.expect_ident()?;
        let ty = self.parse_opt_type()?;
        let init = self.parse_opt_init()?;
        self.eat_sym(Sym::Semi);
        Ok(GlobalVar { name, ty, init, is_final, is_extern, access, meta })
    }

    // ---- members --------------------------------------------------------

    /// The modifiers before a member, its access, and whether it is static.
    fn parse_member_modifiers(&mut self, m: FnModifiers, access: Access, is_static: bool) -> (r: PResult<(FnModifiers, Access, bool)>)
        requires
            old(self).wf(),
        ensures
            final(self).wf(),
            final(self).cx() == old(self).cx(),
            parse_member_modifiers_spec(old(self).cx(), old(self).st(), m.v(), access, is_static) == (match r { Ok(x) => Pr::Done((x.0.v(), x.1, x.2), final(self).st()), Err(e) => Pr::Fail(e.v()) }),
            final(self).st().pos >= old(self).st().pos,
    {
        let ghost m_0 = m;
        let ghost access_0 = access;
        let ghost is_static_0 = is_static;
        let mut m: FnModifiers = m;
        let mut access: Access = access;
        let mut is_static: bool = is_static;
        #[verifier::loop_isolation(false)]
        loop
            invariant
                self.wf(),
                self.cx() == old(self).cx(),
                self.st().pos >= old(self).st().pos,
                parse_member_modifiers_spec(old(self).cx(), old(self).st(), m_0.v(), access_0, is_static_0) == parse_member_modifiers_spec(self.cx(), self.st(), m.v(), access, is_static),
            decreases self.left(),
        {
            proof {
                reveal(parse_member_modifiers_spec);
            }
            let before_function = matches!(self.peek2(), TokKind::Kw(Kw::Function));
            if self.eat_kw(Kw::Public) {
                access = set_access(access, Access::Public);
                continue;
            }
            if self.eat_kw(Kw::Private) {
                access = set_access(access, Access::Private);
                continue;
            }
            if self.eat_kw(Kw::Static) {
                is_static = true;
                continue;
            }
            match member_modifier(self.peek(), before_function, &m) {
                Some(n) => {
                    self.bump();
                    m = n;
                },
                None => {
                    return Ok((m, access, is_static));
                },
            }
        }
    }

    fn parse_member(&mut self) -> (r: PResult<Member>)
        requires
            old(self).wf(),
        ensures
            final(self).wf(),
            final(self).cx() == old(self).cx(),
            parse_member_spec(old(self).cx(), old(self).st()) == (match r { Ok(x) => Pr::Done(x.v(), final(self).st()), Err(e) => Pr::Fail(e.v()) }),
            final(self).st().pos >= old(self).st().pos,
            r is Ok ==> final(self).st().pos > old(self).st().pos,
    {
        proof {
            reveal(parse_member_spec);
        }
        let meta = self.parse_meta_list()?;
        let (modifiers, access, is_static) =
            self.parse_member_modifiers(no_modifiers(), Access::Default, false)?;
        let mut modifiers = modifiers;
        match self.peek() {
            TokKind::Kw(Kw::Var | Kw::Final) => {
                let is_final = self.at_kw(Kw::Final);
                self.bump();
                let field = self.parse_field(meta, access, is_static, is_final, modifiers.is_inline)?;
                Ok(Member::Field(field))
            },
            TokKind::Kw(Kw::Function) => {
                modifiers.is_static = is_static;
                let func = self.parse_function(meta, access, modifiers)?;
                Ok(Member::Method(func))
            },
            other => Err(self.err(&cat2("unexpected class member ", &tok_name(other)))),
        }
    }

    fn parse_field(&mut self, meta: Vec<Meta>, access: Access, is_static: bool, is_final: bool, is_inline: bool) -> (r: PResult<Field>)
        requires
            old(self).wf(),
        ensures
            final(self).wf(),
            final(self).cx() == old(self).cx(),
            parse_field_spec(old(self).cx(), old(self).st(), metas_v(meta@), access, is_static, is_final, is_inline) == (match r { Ok(x) => Pr::Done(x.v(), final(self).st()), Err(e) => Pr::Fail(e.v()) }),
            final(self).st().pos >= old(self).st().pos,
            r is Ok ==> final(self).st().pos > old(self).st().pos,
    {
        let name = self.expect_ident()?;
        let (get, set) = if self.eat_sym(Sym::LParen) {
            let g = self.parse_prop_access()?;
            self.expect_sym(Sym::Comma)?;
            let s = self.parse_prop_access()?;
            self.expect_sym(Sym::RParen)?;
            (g, s)
        } else {
            (PropAccess::Default, PropAccess::Default)
        };
        let ty = self.parse_opt_type()?;
        let init = self.parse_opt_init()?;
        self.eat_sym(Sym::Semi);
        Ok(Field { name, ty, init, access, is_static, is_final, is_inline, get, set, meta })
    }

    fn parse_prop_access(&mut self) -> (r: PResult<PropAccess>)
        requires
            old(self).wf(),
        ensures
            final(self).wf(),
            final(self).cx() == old(self).cx(),
            parse_prop_access_spec(old(self).cx(), old(self).st()) == (match r { Ok(x) => Pr::Done(x, final(self).st()), Err(e) => Pr::Fail(e.v()) }),
            final(self).st().pos >= old(self).st().pos,
    {
        let word = match self.peek() {
            TokKind::Ident(s) => s.clone(),
            TokKind::Kw(Kw::Default) => "default".to_owned(),
            TokKind::Kw(Kw::Null) => "null".to_owned(),
            TokKind::Kw(Kw::Dynamic) => "dynamic".to_owned(),
            other => {
                return Err(self.err(&cat2("expected property access, found ", &tok_name(other))));
            },
        };
        self.bump();
        match prop_access(&word) {
            Some(a) => Ok(a),
            None => Err(self.err(&cat3("unknown property access '", &word, "'"))),
        }
    }

    fn parse_function(&mut self, meta: Vec<Meta>, access: Access, modifiers: FnModifiers) -> (r: PResult<Function>)
        requires
            old(self).wf(),
        ensures
            final(self).wf(),
            final(self).cx() == old(self).cx(),
            parse_function_spec(old(self).cx(), old(self).st(), metas_v(meta@), access, modifiers.v()) == (match r { Ok(x) => Pr::Done(x.v(), final(self).st()), Err(e) => Pr::Fail(e.v()) }),
            final(self).st().pos >= old(self).st().pos,
            r is Ok ==> final(self).st().pos > old(self).st().pos,
    {
        self.expect_sym_kw(Kw::Function)?;
        let name = if self.eat_kw(Kw::New) {
            None
        } else {
            let n = self.expect_ident()?;
            Some(n)
        };
        // Generic methods have no lowering; the parameters are kept so that the method can
        // be reported.
        let type_params = self.parse_type_params()?;
        let params = self.parse_params()?;
        let ret = self.parse_opt_type()?;
        if !self.at_sym(Sym::LBrace) {
            self.eat_sym(Sym::Semi);
            return Ok(Function { name, type_params, params, ret, body: None, access, modifiers, meta });
        }
        if modifiers.is_macro {
            // A `macro` function's body is reification syntax: it is skipped verbatim.
            self.skip_braced_block()?;
            return Ok(Function { name, type_params, params, ret, body: None, access, modifiers, meta });
        }
        let body = self.parse_block()?;
        Ok(Function { name, type_params, params, ret, body: Some(body), access, modifiers, meta })
    }
}

/// What [`no_modifiers`] computes.
pub open spec fn no_modifiers_spec() -> FnModifiersV
{
    FnModifiersV { is_static: false, is_inline: false, is_extern: false, is_override: false, is_final: false, is_dynamic: false, is_abstract: false, is_macro: false }
}

/// What [`decl_modifier`] computes.
pub open spec fn decl_modifier_spec(k: TokKindV, m: FnModifiersV) -> Option<FnModifiersV>
{
    let n = m;
    match k {
        TokKindV::Kw(Kw::Extern) => {
            let n = FnModifiersV { is_extern: true, ..n };
            Some(n)
        },
        TokKindV::Kw(Kw::Inline) => {
            let n = FnModifiersV { is_inline: true, ..n };
            Some(n)
        },
        TokKindV::Kw(Kw::Static) => {
            let n = FnModifiersV { is_static: true, ..n };
            Some(n)
        },
        TokKindV::Kw(Kw::Override) => {
            let n = FnModifiersV { is_override: true, ..n };
            Some(n)
        },
        TokKindV::Kw(Kw::Dynamic) => {
            let n = FnModifiersV { is_dynamic: true, ..n };
            Some(n)
        },
        TokKindV::Kw(Kw::Macro) => {
            let n = FnModifiersV { is_macro: true, ..n };
            Some(n)
        },
        _ => { None },
    }
}

/// What [`member_modifier`] computes.
pub open spec fn member_modifier_spec(k: TokKindV, before_function: bool, m: FnModifiersV) -> Option<FnModifiersV>
{
    let n = m;
    match k {
        TokKindV::Kw(Kw::Inline) => {
            let n = FnModifiersV { is_inline: true, ..n };
            Some(n)
        },
        TokKindV::Kw(Kw::Extern) => {
            let n = FnModifiersV { is_extern: true, ..n };
            Some(n)
        },
        TokKindV::Kw(Kw::Override) => {
            let n = FnModifiersV { is_override: true, ..n };
            Some(n)
        },
        TokKindV::Kw(Kw::Dynamic) => {
            let n = FnModifiersV { is_dynamic: true, ..n };
            Some(n)
        },
        TokKindV::Kw(Kw::Abstract) => {
            let n = FnModifiersV { is_abstract: true, ..n };
            Some(n)
        },
        TokKindV::Kw(Kw::Macro) => {
            let n = FnModifiersV { is_macro: true, ..n };
            Some(n)
        },
        TokKindV::Kw(Kw::Final) => {
            if !before_function { None } else {
                let n = FnModifiersV { is_final: true, ..n };
                Some(n)
            }
        },
        _ => { None },
    }
}

/// What [`set_access`] computes.
pub open spec fn set_access_spec(current: Access, new: Access) -> Access
{
    match current {
        Access::Default => { new },
        other => { other },
    }
}

/// What [`prop_access`] computes.
pub open spec fn prop_access_spec(word: Seq<char>) -> Option<PropAccess>
{
    if (word == "default"@) { Some(PropAccess::Default) } else if (word == "null"@) { Some(PropAccess::Null) } else if (word == "get"@) { Some(PropAccess::Get) } else if (word == "set"@) { Some(PropAccess::Setter) } else if (word == "never"@) { Some(PropAccess::Never) } else if (word == "dynamic"@) { Some(PropAccess::Dynamic) } else { None }
}

/// What [`comma_join`] computes.
pub open spec fn comma_join_spec(v: Seq<Seq<char>>, i: int, out: Seq<char>) -> Seq<char>
    decreases v.len() - i,
{
    if !(0 <= i < v.len()) { out } else {
        let out = if i > 0 {
            let out = out + ", "@;
            out
        } else { out };
        let out = out + (v[i]);
        let i = i + 1;
        comma_join_spec(v, i, out)
    }
}

/// What [`empty_file`] computes.
pub open spec fn empty_file_spec() -> FileV
{
    FileV { package: Seq::empty(), imports: Seq::empty(), usings: Seq::empty(), decls: Seq::empty(), meta: Seq::empty() }
}

/// What [`this_field`] computes.
pub open spec fn this_field_spec(underlying: TypeV) -> FieldV
{
    FieldV { name: "__this"@, ty: Some(underlying), init: None, access: Access::Private, is_static: false, is_final: false, is_inline: false, get: PropAccess::Default, set: PropAccess::Default, meta: Seq::empty() }
}

/// What [`Parser::parse_package`] computes.
pub open spec fn parse_package_spec(c: Ctx, st: St) -> Pr<Seq<Seq<char>>>
{
    let package: Seq<Seq<char>> = Seq::empty();
    match { let (st, x1) = eat_kw_spec(c, st, Kw::Package);
        if x1 {
            match { if !at_sym_spec(c, st, Sym::Semi) {
                    match step(c, st, parse_dotted_spec(c, st)) {
                        Pr::Fail(e) => Pr::Fail(e),
                        Pr::Done(path, st) => {
                            let package = path;
                            Pr::Done(package, st)
                        },
                    }
                } else { Pr::Done(package, st) } } {
                Pr::Fail(e) => Pr::Fail(e),
                Pr::Done(package, st) => {
                    match expect_sym_spec(c, st, Sym::Semi) {
                        Pr::Fail(e) => Pr::Fail(e),
                        Pr::Done(_, st) => { Pr::Done(package, st) },
                    }
                },
            }
        } else { Pr::Done(package, st) } } {
        Pr::Fail(e) => Pr::Fail(e),
        Pr::Done(package, st) => { Pr::Done(package, st) },
    }
}

/// What [`Parser::parse_file`] computes.
pub open spec fn parse_file_spec(c: Ctx, st: St) -> Pr<FileV>
{
    let file = empty_file_spec();
    match parse_package_spec(c, st) {
        Pr::Fail(e) => Pr::Fail(e),
        Pr::Done(package, st) => {
            let file = FileV { package: package, ..file };
            parse_file_items_spec(c, st, file)
        },
    }
}

/// What [`Parser::parse_file_items`] computes.
#[verifier::opaque]
pub open spec fn parse_file_items_spec(c: Ctx, st: St, file: FileV) -> Pr<FileV>
    decreases c.toks.len() - st.pos,
{
    let from: int = st.pos;
    match stay(c, st, outer_directive_spec(c, st)) {
        Pr::Fail(e) => Pr::Fail(e),
        Pr::Done(x1, st) => {
            if x1 {
                if !(from < st.pos) { arbitrary() } else { parse_file_items_spec(c, st, file) }
            } else {
                if at_kw_spec(c, st, Kw::Import) {
                    match step(c, st, parse_import_spec(c, st)) {
                        Pr::Fail(e) => Pr::Fail(e),
                        Pr::Done(i, st) => {
                            let file = FileV { imports: file.imports.push(i), ..file };
                            parse_file_items_spec(c, st, file)
                        },
                    }
                } else {
                    if at_kw_spec(c, st, Kw::Using) {
                        let line: int = line_spec(c, st);
                        let st = bump_spec(c, st);
                        match step(c, st, parse_dotted_spec(c, st)) {
                            Pr::Fail(e) => Pr::Fail(e),
                            Pr::Done(path, st) => {
                                match expect_sym_spec(c, st, Sym::Semi) {
                                    Pr::Fail(e) => Pr::Fail(e),
                                    Pr::Done(_, st) => {
                                        let file = FileV { usings: file.usings.push(UsingV { path, line }), ..file };
                                        parse_file_items_spec(c, st, file)
                                    },
                                }
                            },
                        }
                    } else {
                        if at_eof_spec(c, st) { Pr::Done(file, st) } else {
                            match stay(c, st, parse_meta_list_spec(c, st)) {
                                Pr::Fail(e) => Pr::Fail(e),
                                Pr::Done(meta, st) => {
                                    if at_eof_spec(c, st) {
                                        let file = FileV { meta: meta, ..file };
                                        Pr::Done(file, st)
                                    } else {
                                        match step(c, st, parse_decl_body_spec(c, st, meta)) {
                                            Pr::Fail(e) => Pr::Fail(e),
                                            Pr::Done(decl, st) => {
                                                let file = FileV { decls: file.decls.push(decl), ..file };
                                                parse_file_items_spec(c, st, file)
                                            },
                                        }
                                    }
                                },
                            }
                        }
                    }
                }
            }
        },
    }
}

/// What [`Parser::parse_import`] computes.
#[verifier::opaque]
pub open spec fn parse_import_spec(c: Ctx, st: St) -> Pr<ImportV>
{
    match expect_sym_kw_spec(c, st, Kw::Import) {
        Pr::Fail(e) => Pr::Fail(e),
        Pr::Done(_, st) => {
            let path: Seq<Seq<char>> = Seq::empty();
            match expect_ident_spec(c, st) {
                Pr::Fail(e) => Pr::Fail(e),
                Pr::Done(first, st) => {
                    let path = path.push(first);
                    match stay(c, st, parse_import_path_spec(c, st, path)) {
                        Pr::Fail(e) => Pr::Fail(e),
                        Pr::Done((path, wildcard), st) => {
                            let alias: Option<Seq<char>> = None;
                            match { if (match peek_spec(c, st) { TokKindV::Ident(kw) => (kw == "as"@), _ => false }) {
                                    let st = bump_spec(c, st);
                                    match expect_ident_spec(c, st) {
                                        Pr::Fail(e) => Pr::Fail(e),
                                        Pr::Done(a, st) => {
                                            let alias = Some(a);
                                            Pr::Done(alias, st)
                                        },
                                    }
                                } else { Pr::Done(alias, st) } } {
                                Pr::Fail(e) => Pr::Fail(e),
                                Pr::Done(alias, st) => {
                                    match { let (st, x1) = eat_kw_spec(c, st, Kw::In);
                                        if x1 {
                                            match expect_ident_spec(c, st) {
                                                Pr::Fail(e) => Pr::Fail(e),
                                                Pr::Done(a, st) => {
                                                    let alias = Some(a);
                                                    Pr::Done(alias, st)
                                                },
                                            }
                                        } else { Pr::Done(alias, st) } } {
                                        Pr::Fail(e) => Pr::Fail(e),
                                        Pr::Done(alias, st) => {
                                            match expect_sym_spec(c, st, Sym::Semi) {
                                                Pr::Fail(e) => Pr::Fail(e),
                                                Pr::Done(_, st) => { Pr::Done(ImportV { path, wildcard, alias }, st) },
                                            }
                                        },
                                    }
                                },
                            }
                        },
                    }
                },
            }
        },
    }
}

/// What [`Parser::parse_import_path`] computes.
#[verifier::opaque]
pub open spec fn parse_import_path_spec(c: Ctx, st: St, path: Seq<Seq<char>>) -> Pr<(Seq<Seq<char>>, bool)>
    decreases c.toks.len() - st.pos,
{
    let (st, x1) = eat_sym_spec(c, st, Sym::Dot);
    if !x1 { Pr::Done((path, false), st) } else {
        let (st, x2) = eat_sym_spec(c, st, Sym::Star);
        if x2 { Pr::Done((path, true), st) } else {
            match expect_ident_spec(c, st) {
                Pr::Fail(e) => Pr::Fail(e),
                Pr::Done(part, st) => {
                    let path = path.push(part);
                    parse_import_path_spec(c, st, path)
                },
            }
        }
    }
}

/// What [`Parser::parse_decl_modifiers`] computes.
#[verifier::opaque]
pub open spec fn parse_decl_modifiers_spec(c: Ctx, st: St, m: FnModifiersV, final_class: bool, abstract_class: bool, access: Access) -> Pr<(FnModifiersV, bool, bool, Access)>
    decreases c.toks.len() - st.pos,
{
    let before_class = (match peek2_spec(c, st) { TokKindV::Kw(Kw::Class) => true, _ => false });
    let (st, x1) = eat_kw_spec(c, st, Kw::Public);
    if x1 {
        let access = set_access_spec(access, Access::Public);
        parse_decl_modifiers_spec(c, st, m, final_class, abstract_class, access)
    } else {
        let (st, x2) = eat_kw_spec(c, st, Kw::Private);
        if x2 {
            let access = set_access_spec(access, Access::Private);
            parse_decl_modifiers_spec(c, st, m, final_class, abstract_class, access)
        } else {
            if before_class && at_kw_spec(c, st, Kw::Final) {
                let st = bump_spec(c, st);
                let final_class = true;
                parse_decl_modifiers_spec(c, st, m, final_class, abstract_class, access)
            } else {
                if before_class && at_kw_spec(c, st, Kw::Abstract) {
                    let st = bump_spec(c, st);
                    let abstract_class = true;
                    parse_decl_modifiers_spec(c, st, m, final_class, abstract_class, access)
                } else {
                    match decl_modifier_spec(peek_spec(c, st), m) {
                        Some(n) => {
                            let st = bump_spec(c, st);
                            let m = n;
                            parse_decl_modifiers_spec(c, st, m, final_class, abstract_class, access)
                        },
                        None => { Pr::Done((m, final_class, abstract_class, access), st) },
                    }
                }
            }
        }
    }
}

/// What [`Parser::parse_decl_body`] computes.
#[verifier::opaque]
pub open spec fn parse_decl_body_spec(c: Ctx, st: St, meta: Seq<MetaV>) -> Pr<DeclV>
{
    match stay(c, st, parse_decl_modifiers_spec(c, st, no_modifiers_spec(), false, false, Access::Default)) {
        Pr::Fail(e) => Pr::Fail(e),
        Pr::Done((modifiers, final_class, abstract_class, access), st) => {
            let line: int = line_spec(c, st);
            match peek_spec(c, st) {
                TokKindV::Kw(Kw::Class) => {
                    match parse_class_spec(c, st, meta, modifiers.is_extern, final_class, abstract_class) {
                        Pr::Fail(e) => Pr::Fail(e),
                        Pr::Done(class, st) => { Pr::Done(DeclV::Class(Box::new(class)), st) },
                    }
                },
                TokKindV::Kw(Kw::Interface) => {
                    match parse_interface_spec(c, st, meta, modifiers.is_extern) {
                        Pr::Fail(e) => Pr::Fail(e),
                        Pr::Done(i, st) => { Pr::Done(DeclV::Interface(i), st) },
                    }
                },
                TokKindV::Kw(Kw::Enum) if (match peek2_spec(c, st) { TokKindV::Kw(Kw::Abstract) => true, _ => false }) => {
                    let st = bump_spec(c, st);
                    let st = bump_spec(c, st);
                    match parse_enum_abstract_spec(c, st, meta, modifiers.is_extern) {
                        Pr::Fail(e) => Pr::Fail(e),
                        Pr::Done(e, st) => { Pr::Done(DeclV::Enum(e), st) },
                    }
                },
                TokKindV::Kw(Kw::Enum) => { parse_enum_spec(c, st, meta, modifiers.is_extern) },
                TokKindV::Kw(Kw::Abstract) => {
                    let st = bump_spec(c, st);
                    parse_abstract_spec(c, st, meta, line)
                },
                TokKindV::Kw(Kw::Typedef) => { parse_typedef_spec(c, st, meta) },
                TokKindV::Kw(Kw::Function) => {
                    match parse_function_spec(c, st, meta, access, modifiers) {
                        Pr::Fail(e) => Pr::Fail(e),
                        Pr::Done(func, st) => { Pr::Done(DeclV::Function(func), st) },
                    }
                },
                TokKindV::Kw(Kw::Var | Kw::Final) => {
                    let is_final = at_kw_spec(c, st, Kw::Final);
                    let st = bump_spec(c, st);
                    match parse_global_var_spec(c, st, meta, access, is_final, modifiers.is_extern) {
                        Pr::Fail(e) => Pr::Fail(e),
                        Pr::Done(g, st) => { Pr::Done(DeclV::Global(g), st) },
                    }
                },
                other => { Pr::Fail(err_spec(c, st, "unexpected top-level token "@ + tok_name_spec(other))) },
            }
        },
    }
}

/// What [`Parser::parse_type_params`] computes.
pub open spec fn parse_type_params_spec(c: Ctx, st: St) -> Pr<Seq<Seq<char>>>
{
    let (st, x1) = eat_sym_spec(c, st, Sym::Lt);
    if x1 {
        match stay(c, st, parse_names_spec(c, st, Seq::empty())) {
            Pr::Fail(e) => Pr::Fail(e),
            Pr::Done(params, st) => {
                match expect_type_gt_spec(c, st) {
                    Pr::Fail(e) => Pr::Fail(e),
                    Pr::Done(_, st) => { Pr::Done(params, st) },
                }
            },
        }
    } else { Pr::Done(Seq::empty(), st) }
}

/// What [`Parser::parse_names`] computes.
#[verifier::opaque]
pub open spec fn parse_names_spec(c: Ctx, st: St, names: Seq<Seq<char>>) -> Pr<Seq<Seq<char>>>
    decreases c.toks.len() - st.pos,
{
    match expect_ident_spec(c, st) {
        Pr::Fail(e) => Pr::Fail(e),
        Pr::Done(n, st) => {
            let names = names.push(n);
            let (st, x1) = eat_sym_spec(c, st, Sym::Comma);
            if !x1 { Pr::Done(names, st) } else { parse_names_spec(c, st, names) }
        },
    }
}

/// What [`Parser::parse_heritage`] computes.
#[verifier::opaque]
pub open spec fn parse_heritage_spec(c: Ctx, st: St, extends: Option<TypeV>, implements: Seq<TypeV>) -> Pr<(Option<TypeV>, Seq<TypeV>)>
    decreases c.toks.len() - st.pos,
{
    let (st, x1) = eat_kw_spec(c, st, Kw::Extends);
    if x1 {
        match step(c, st, parse_type_spec(c, st)) {
            Pr::Fail(e) => Pr::Fail(e),
            Pr::Done(t, st) => {
                let extends = Some(t);
                parse_heritage_spec(c, st, extends, implements)
            },
        }
    } else {
        let (st, x2) = eat_kw_spec(c, st, Kw::Implements);
        if x2 {
            match step(c, st, parse_type_spec(c, st)) {
                Pr::Fail(e) => Pr::Fail(e),
                Pr::Done(t, st) => {
                    let implements = implements.push(t);
                    parse_heritage_spec(c, st, extends, implements)
                },
            }
        } else { Pr::Done((extends, implements), st) }
    }
}

/// What [`Parser::parse_class`] computes.
pub open spec fn parse_class_spec(c: Ctx, st: St, meta: Seq<MetaV>, is_extern: bool, is_final: bool, is_abstract: bool) -> Pr<ClassV>
{
    let line: int = line_spec(c, st);
    match expect_sym_kw_spec(c, st, Kw::Class) {
        Pr::Fail(e) => Pr::Fail(e),
        Pr::Done(_, st) => {
            match expect_ident_spec(c, st) {
                Pr::Fail(e) => Pr::Fail(e),
                Pr::Done(name, st) => {
                    match parse_type_params_spec(c, st) {
                        Pr::Fail(e) => Pr::Fail(e),
                        Pr::Done(type_params, st) => {
                            match stay(c, st, parse_heritage_spec(c, st, None, Seq::empty())) {
                                Pr::Fail(e) => Pr::Fail(e),
                                Pr::Done((extends, implements), st) => {
                                    match expect_sym_spec(c, st, Sym::LBrace) {
                                        Pr::Fail(e) => Pr::Fail(e),
                                        Pr::Done(_, st) => { parse_members_spec(c, st, ClassV { name, line, type_params, extends, implements, is_extern, is_final, is_abstract, abstract_underlying: None, meta, fields: Seq::empty(), methods: Seq::empty(), ctor: None }) },
                                    }
                                },
                            }
                        },
                    }
                },
            }
        },
    }
}

/// What [`Parser::parse_members`] computes.
#[verifier::opaque]
pub open spec fn parse_members_spec(c: Ctx, st: St, class: ClassV) -> Pr<ClassV>
    decreases c.toks.len() - st.pos,
{
    let (st, x1) = eat_sym_spec(c, st, Sym::RBrace);
    if x1 { Pr::Done(class, st) } else {
        match { if at_eof_spec(c, st) { Pr::Fail(err_spec(c, st, "expected RBrace, found Eof"@)) } else { Pr::Done((), st) } } {
            Pr::Fail(e) => Pr::Fail(e),
            Pr::Done(_, st) => {
                let (st, x2) = eat_sym_spec(c, st, Sym::Semi);
                if x2 { parse_members_spec(c, st, class) } else {
                    let from: int = st.pos;
                    match stay(c, st, outer_directive_spec(c, st)) {
                        Pr::Fail(e) => Pr::Fail(e),
                        Pr::Done(x3, st) => {
                            if x3 {
                                if !(from < st.pos) { arbitrary() } else { parse_members_spec(c, st, class) }
                            } else {
                                match step(c, st, parse_member_spec(c, st)) {
                                    Pr::Fail(e) => Pr::Fail(e),
                                    Pr::Done(m, st) => {
                                        match m {
                                            MemberV::Field(f) => {
                                                let class = ClassV { fields: class.fields.push(f), ..class };
                                                parse_members_spec(c, st, class)
                                            },
                                            MemberV::Method(f) => {
                                                if f.name is None {
                                                    let class = ClassV { ctor: Some(f), ..class };
                                                    parse_members_spec(c, st, class)
                                                } else {
                                                    let class = ClassV { methods: class.methods.push(f), ..class };
                                                    parse_members_spec(c, st, class)
                                                }
                                            },
                                        }
                                    },
                                }
                            }
                        },
                    }
                }
            },
        }
    }
}

/// What [`Parser::skip_to_body`] computes.
#[verifier::opaque]
pub open spec fn skip_to_body_spec(c: Ctx, st: St) -> Pr<()>
    decreases c.toks.len() - st.pos,
{
    if at_sym_spec(c, st, Sym::LBrace) || at_eof_spec(c, st) { Pr::Done((), st) } else {
        let st = bump_spec(c, st);
        skip_to_body_spec(c, st)
    }
}

/// What [`Parser::parse_abstract`] computes.
pub open spec fn parse_abstract_spec(c: Ctx, st: St, meta: Seq<MetaV>, line: int) -> Pr<DeclV>
{
    match expect_ident_spec(c, st) {
        Pr::Fail(e) => Pr::Fail(e),
        Pr::Done(name, st) => {
            match parse_type_params_spec(c, st) {
                Pr::Fail(e) => Pr::Fail(e),
                Pr::Done(_, st) => {
                    match expect_sym_spec(c, st, Sym::LParen) {
                        Pr::Fail(e) => Pr::Fail(e),
                        Pr::Done(_, st) => {
                            match step(c, st, parse_type_spec(c, st)) {
                                Pr::Fail(e) => Pr::Fail(e),
                                Pr::Done(underlying, st) => {
                                    match expect_sym_spec(c, st, Sym::RParen) {
                                        Pr::Fail(e) => Pr::Fail(e),
                                        Pr::Done(_, st) => {
                                            match stay(c, st, skip_to_body_spec(c, st)) {
                                                Pr::Fail(e) => Pr::Fail(e),
                                                Pr::Done(_, st) => {
                                                    match expect_sym_spec(c, st, Sym::LBrace) {
                                                        Pr::Fail(e) => Pr::Fail(e),
                                                        Pr::Done(_, st) => {
                                                            let fields: Seq<FieldV> = Seq::empty();
                                                            let fields = fields.push(this_field_spec(underlying));
                                                            match stay(c, st, parse_members_spec(c, st, ClassV { name, line, type_params: Seq::empty(), extends: None, implements: Seq::empty(), is_extern: false, is_final: false, is_abstract: false, abstract_underlying: Some(underlying), meta, fields, methods: Seq::empty(), ctor: None })) {
                                                                Pr::Fail(e) => Pr::Fail(e),
                                                                Pr::Done(class, st) => { Pr::Done(DeclV::Class(Box::new(class)), st) },
                                                            }
                                                        },
                                                    }
                                                },
                                            }
                                        },
                                    }
                                },
                            }
                        },
                    }
                },
            }
        },
    }
}

/// What [`Parser::parse_interface`] computes.
pub open spec fn parse_interface_spec(c: Ctx, st: St, meta: Seq<MetaV>, is_extern: bool) -> Pr<InterfaceV>
{
    let line: int = line_spec(c, st);
    match expect_sym_kw_spec(c, st, Kw::Interface) {
        Pr::Fail(e) => Pr::Fail(e),
        Pr::Done(_, st) => {
            match expect_ident_spec(c, st) {
                Pr::Fail(e) => Pr::Fail(e),
                Pr::Done(name, st) => {
                    match parse_type_params_spec(c, st) {
                        Pr::Fail(e) => Pr::Fail(e),
                        Pr::Done(type_params, st) => {
                            match stay(c, st, parse_bases_spec(c, st, Seq::empty())) {
                                Pr::Fail(e) => Pr::Fail(e),
                                Pr::Done(extends, st) => {
                                    match expect_sym_spec(c, st, Sym::LBrace) {
                                        Pr::Fail(e) => Pr::Fail(e),
                                        Pr::Done(_, st) => { parse_interface_members_spec(c, st, InterfaceV { name, line, is_extern, type_params, extends, meta, methods: Seq::empty(), fields: Seq::empty() }) },
                                    }
                                },
                            }
                        },
                    }
                },
            }
        },
    }
}

/// What [`Parser::parse_bases`] computes.
#[verifier::opaque]
pub open spec fn parse_bases_spec(c: Ctx, st: St, extends: Seq<TypeV>) -> Pr<Seq<TypeV>>
    decreases c.toks.len() - st.pos,
{
    let (st, x1) = eat_kw_spec(c, st, Kw::Extends);
    if !x1 { Pr::Done(extends, st) } else {
        match stay(c, st, parse_base_list_spec(c, st, extends)) {
            Pr::Fail(e) => Pr::Fail(e),
            Pr::Done(extends, st) => { parse_bases_spec(c, st, extends) },
        }
    }
}

/// What [`Parser::parse_base_list`] computes.
#[verifier::opaque]
pub open spec fn parse_base_list_spec(c: Ctx, st: St, extends: Seq<TypeV>) -> Pr<Seq<TypeV>>
    decreases c.toks.len() - st.pos,
{
    match step(c, st, parse_type_spec(c, st)) {
        Pr::Fail(e) => Pr::Fail(e),
        Pr::Done(t, st) => {
            let extends = extends.push(t);
            let (st, x1) = eat_sym_spec(c, st, Sym::Comma);
            if !x1 { Pr::Done(extends, st) } else { parse_base_list_spec(c, st, extends) }
        },
    }
}

/// What [`Parser::parse_interface_members`] computes.
#[verifier::opaque]
pub open spec fn parse_interface_members_spec(c: Ctx, st: St, iface: InterfaceV) -> Pr<InterfaceV>
    decreases c.toks.len() - st.pos,
{
    let (st, x1) = eat_sym_spec(c, st, Sym::RBrace);
    if x1 { Pr::Done(iface, st) } else {
        match { if at_eof_spec(c, st) { Pr::Fail(err_spec(c, st, "expected RBrace, found Eof"@)) } else { Pr::Done((), st) } } {
            Pr::Fail(e) => Pr::Fail(e),
            Pr::Done(_, st) => {
                let from: int = st.pos;
                match stay(c, st, outer_directive_spec(c, st)) {
                    Pr::Fail(e) => Pr::Fail(e),
                    Pr::Done(x2, st) => {
                        if x2 {
                            if !(from < st.pos) { arbitrary() } else { parse_interface_members_spec(c, st, iface) }
                        } else {
                            match step(c, st, parse_member_spec(c, st)) {
                                Pr::Fail(e) => Pr::Fail(e),
                                Pr::Done(m, st) => {
                                    match m {
                                        MemberV::Field(f) => {
                                            let iface = InterfaceV { fields: iface.fields.push(f), ..iface };
                                            parse_interface_members_spec(c, st, iface)
                                        },
                                        MemberV::Method(f) => {
                                            let iface = InterfaceV { methods: iface.methods.push(f), ..iface };
                                            parse_interface_members_spec(c, st, iface)
                                        },
                                    }
                                },
                            }
                        }
                    },
                }
            },
        }
    }
}

/// What [`Parser::parse_enum`] computes.
pub open spec fn parse_enum_spec(c: Ctx, st: St, meta: Seq<MetaV>, is_extern: bool) -> Pr<DeclV>
{
    let line: int = line_spec(c, st);
    match expect_sym_kw_spec(c, st, Kw::Enum) {
        Pr::Fail(e) => Pr::Fail(e),
        Pr::Done(_, st) => {
            match expect_ident_spec(c, st) {
                Pr::Fail(e) => Pr::Fail(e),
                Pr::Done(name, st) => {
                    match parse_type_params_spec(c, st) {
                        Pr::Fail(e) => Pr::Fail(e),
                        Pr::Done(type_params, st) => {
                            match expect_sym_spec(c, st, Sym::LBrace) {
                                Pr::Fail(e) => Pr::Fail(e),
                                Pr::Done(_, st) => {
                                    match stay(c, st, parse_variants_spec(c, st, Seq::empty())) {
                                        Pr::Fail(e) => Pr::Fail(e),
                                        Pr::Done(variants, st) => {
                                            if (type_params.len()) > 0 { Pr::Done(DeclV::Unsupported { feature: "the generic enum `"@ + name + "<"@ + (comma_join_spec(type_params, 0int, Seq::empty())) + ">`"@, line }, st) } else { Pr::Done(DeclV::Enum(EnumV { name, is_extern, meta, variants, underlying: None }), st) }
                                        },
                                    }
                                },
                            }
                        },
                    }
                },
            }
        },
    }
}

/// What [`Parser::parse_variants`] computes.
#[verifier::opaque]
pub open spec fn parse_variants_spec(c: Ctx, st: St, variants: Seq<EnumVariantV>) -> Pr<Seq<EnumVariantV>>
    decreases c.toks.len() - st.pos,
{
    let (st, x1) = eat_sym_spec(c, st, Sym::RBrace);
    if x1 { Pr::Done(variants, st) } else {
        match { if at_eof_spec(c, st) { Pr::Fail(err_spec(c, st, "expected RBrace, found Eof"@)) } else { Pr::Done((), st) } } {
            Pr::Fail(e) => Pr::Fail(e),
            Pr::Done(_, st) => {
                match expect_ident_spec(c, st) {
                    Pr::Fail(e) => Pr::Fail(e),
                    Pr::Done(name, st) => {
                        match { if at_sym_spec(c, st, Sym::LParen) {
                                match step(c, st, parse_params_spec(c, st)) {
                                    Pr::Fail(e) => Pr::Fail(e),
                                    Pr::Done(x2, st) => { Pr::Done(x2, st) },
                                }
                            } else { Pr::Done(Seq::empty(), st) } } {
                            Pr::Fail(e) => Pr::Fail(e),
                            Pr::Done(params, st) => {
                                let (st, _) = eat_sym_spec(c, st, Sym::Semi);
                                let variants = variants.push(EnumVariantV { name, params, value: None });
                                parse_variants_spec(c, st, variants)
                            },
                        }
                    },
                }
            },
        }
    }
}

/// What [`Parser::parse_enum_abstract`] computes.
pub open spec fn parse_enum_abstract_spec(c: Ctx, st: St, meta: Seq<MetaV>, is_extern: bool) -> Pr<EnumV>
{
    match expect_ident_spec(c, st) {
        Pr::Fail(e) => Pr::Fail(e),
        Pr::Done(name, st) => {
            match expect_sym_spec(c, st, Sym::LParen) {
                Pr::Fail(e) => Pr::Fail(e),
                Pr::Done(_, st) => {
                    match step(c, st, parse_type_spec(c, st)) {
                        Pr::Fail(e) => Pr::Fail(e),
                        Pr::Done(underlying, st) => {
                            match expect_sym_spec(c, st, Sym::RParen) {
                                Pr::Fail(e) => Pr::Fail(e),
                                Pr::Done(_, st) => {
                                    match stay(c, st, skip_to_body_spec(c, st)) {
                                        Pr::Fail(e) => Pr::Fail(e),
                                        Pr::Done(_, st) => {
                                            match expect_sym_spec(c, st, Sym::LBrace) {
                                                Pr::Fail(e) => Pr::Fail(e),
                                                Pr::Done(_, st) => {
                                                    match stay(c, st, parse_constants_spec(c, st, Seq::empty())) {
                                                        Pr::Fail(e) => Pr::Fail(e),
                                                        Pr::Done(variants, st) => {
                                                            match expect_sym_spec(c, st, Sym::RBrace) {
                                                                Pr::Fail(e) => Pr::Fail(e),
                                                                Pr::Done(_, st) => { Pr::Done(EnumV { name, is_extern, meta, variants, underlying: Some(underlying) }, st) },
                                                            }
                                                        },
                                                    }
                                                },
                                            }
                                        },
                                    }
                                },
                            }
                        },
                    }
                },
            }
        },
    }
}

/// What [`Parser::skip_constant_modifiers`] computes.
#[verifier::opaque]
pub open spec fn skip_constant_modifiers_spec(c: Ctx, st: St) -> Pr<()>
    decreases c.toks.len() - st.pos,
{
    if !(match peek_spec(c, st) { TokKindV::Kw(Kw::Public | Kw::Private | Kw::Inline | Kw::Static | Kw::Final) => true, _ => false }) { Pr::Done((), st) } else {
        let st = bump_spec(c, st);
        skip_constant_modifiers_spec(c, st)
    }
}

/// What [`Parser::parse_constants`] computes.
#[verifier::opaque]
pub open spec fn parse_constants_spec(c: Ctx, st: St, variants: Seq<EnumVariantV>) -> Pr<Seq<EnumVariantV>>
    decreases c.toks.len() - st.pos,
{
    if at_sym_spec(c, st, Sym::RBrace) || at_eof_spec(c, st) { Pr::Done(variants, st) } else {
        match stay(c, st, parse_meta_list_spec(c, st)) {
            Pr::Fail(e) => Pr::Fail(e),
            Pr::Done(_, st) => {
                match stay(c, st, skip_constant_modifiers_spec(c, st)) {
                    Pr::Fail(e) => Pr::Fail(e),
                    Pr::Done(_, st) => {
                        if at_kw_spec(c, st, Kw::Function) {
                            let st = bump_spec(c, st);
                            match stay(c, st, skip_to_body_spec(c, st)) {
                                Pr::Fail(e) => Pr::Fail(e),
                                Pr::Done(_, st) => {
                                    match stay(c, st, skip_braced_body_spec(c, st)) {
                                        Pr::Fail(e) => Pr::Fail(e),
                                        Pr::Done(_, st) => {
                                            let (st, _) = eat_sym_spec(c, st, Sym::Semi);
                                            parse_constants_spec(c, st, variants)
                                        },
                                    }
                                },
                            }
                        } else {
                            let (st, x1) = eat_kw_spec(c, st, Kw::Var);
                            if !x1 { Pr::Done(variants, st) } else {
                                match expect_ident_spec(c, st) {
                                    Pr::Fail(e) => Pr::Fail(e),
                                    Pr::Done(name, st) => {
                                        match stay(c, st, parse_opt_type_spec(c, st)) {
                                            Pr::Fail(e) => Pr::Fail(e),
                                            Pr::Done(_, st) => {
                                                match stay(c, st, parse_opt_init_spec(c, st)) {
                                                    Pr::Fail(e) => Pr::Fail(e),
                                                    Pr::Done(value, st) => {
                                                        let (st, _) = eat_sym_spec(c, st, Sym::Semi);
                                                        let variants = variants.push(EnumVariantV { name, params: Seq::empty(), value });
                                                        parse_constants_spec(c, st, variants)
                                                    },
                                                }
                                            },
                                        }
                                    },
                                }
                            }
                        }
                    },
                }
            },
        }
    }
}

/// What [`Parser::parse_typedef`] computes.
pub open spec fn parse_typedef_spec(c: Ctx, st: St, meta: Seq<MetaV>) -> Pr<DeclV>
{
    let line: int = line_spec(c, st);
    match expect_sym_kw_spec(c, st, Kw::Typedef) {
        Pr::Fail(e) => Pr::Fail(e),
        Pr::Done(_, st) => {
            match expect_ident_spec(c, st) {
                Pr::Fail(e) => Pr::Fail(e),
                Pr::Done(name, st) => {
                    match parse_type_params_spec(c, st) {
                        Pr::Fail(e) => Pr::Fail(e),
                        Pr::Done(type_params, st) => {
                            match expect_sym_spec(c, st, Sym::Assign) {
                                Pr::Fail(e) => Pr::Fail(e),
                                Pr::Done(_, st) => {
                                    match { if at_sym_spec(c, st, Sym::LBrace) {
                                            match step(c, st, parse_struct_fields_spec(c, st)) {
                                                Pr::Fail(e) => Pr::Fail(e),
                                                Pr::Done(fields, st) => { Pr::Done(TypedefTargetV::Struct(fields), st) },
                                            }
                                        } else {
                                            match step(c, st, parse_type_spec(c, st)) {
                                                Pr::Fail(e) => Pr::Fail(e),
                                                Pr::Done(t, st) => { Pr::Done(TypedefTargetV::Alias(t), st) },
                                            }
                                        } } {
                                        Pr::Fail(e) => Pr::Fail(e),
                                        Pr::Done(target, st) => {
                                            let (st, _) = eat_sym_spec(c, st, Sym::Semi);
                                            if (type_params.len()) > 0 { Pr::Done(DeclV::Unsupported { feature: "the generic typedef `"@ + name + "<"@ + (comma_join_spec(type_params, 0int, Seq::empty())) + ">`"@, line }, st) } else { Pr::Done(DeclV::Typedef(TypedefV { name, meta, target }), st) }
                                        },
                                    }
                                },
                            }
                        },
                    }
                },
            }
        },
    }
}

/// What [`Parser::parse_global_var`] computes.
pub open spec fn parse_global_var_spec(c: Ctx, st: St, meta: Seq<MetaV>, access: Access, is_final: bool, is_extern: bool) -> Pr<GlobalVarV>
{
    match expect_ident_spec(c, st) {
        Pr::Fail(e) => Pr::Fail(e),
        Pr::Done(name, st) => {
            match stay(c, st, parse_opt_type_spec(c, st)) {
                Pr::Fail(e) => Pr::Fail(e),
                Pr::Done(ty, st) => {
                    match stay(c, st, parse_opt_init_spec(c, st)) {
                        Pr::Fail(e) => Pr::Fail(e),
                        Pr::Done(init, st) => {
                            let (st, _) = eat_sym_spec(c, st, Sym::Semi);
                            Pr::Done(GlobalVarV { name, ty, init, is_final, is_extern, access, meta }, st)
                        },
                    }
                },
            }
        },
    }
}

/// What [`Parser::parse_member_modifiers`] computes.
#[verifier::opaque]
pub open spec fn parse_member_modifiers_spec(c: Ctx, st: St, m: FnModifiersV, access: Access, is_static: bool) -> Pr<(FnModifiersV, Access, bool)>
    decreases c.toks.len() - st.pos,
{
    let before_function = (match peek2_spec(c, st) { TokKindV::Kw(Kw::Function) => true, _ => false });
    let (st, x1) = eat_kw_spec(c, st, Kw::Public);
    if x1 {
        let access = set_access_spec(access, Access::Public);
        parse_member_modifiers_spec(c, st, m, access, is_static)
    } else {
        let (st, x2) = eat_kw_spec(c, st, Kw::Private);
        if x2 {
            let access = set_access_spec(access, Access::Private);
            parse_member_modifiers_spec(c, st, m, access, is_static)
        } else {
            let (st, x3) = eat_kw_spec(c, st, Kw::Static);
            if x3 {
                let is_static = true;
                parse_member_modifiers_spec(c, st, m, access, is_static)
            } else {
                match member_modifier_spec(peek_spec(c, st), before_function, m) {
                    Some(n) => {
                        let st = bump_spec(c, st);
                        let m = n;
                        parse_member_modifiers_spec(c, st, m, access, is_static)
                    },
                    None => { Pr::Done((m, access, is_static), st) },
                }
            }
        }
    }
}

/// What [`Parser::parse_member`] computes.
#[verifier::opaque]
pub open spec fn parse_member_spec(c: Ctx, st: St) -> Pr<MemberV>
{
    match stay(c, st, parse_meta_list_spec(c, st)) {
        Pr::Fail(e) => Pr::Fail(e),
        Pr::Done(meta, st) => {
            match stay(c, st, parse_member_modifiers_spec(c, st, no_modifiers_spec(), Access::Default, false)) {
                Pr::Fail(e) => Pr::Fail(e),
                Pr::Done((modifiers, access, is_static), st) => {
                    let modifiers = modifiers;
                    match peek_spec(c, st) {
                        TokKindV::Kw(Kw::Var | Kw::Final) => {
                            let is_final = at_kw_spec(c, st, Kw::Final);
                            let st = bump_spec(c, st);
                            match parse_field_spec(c, st, meta, access, is_static, is_final, modifiers.is_inline) {
                                Pr::Fail(e) => Pr::Fail(e),
                                Pr::Done(field, st) => { Pr::Done(MemberV::Field(field), st) },
                            }
                        },
                        TokKindV::Kw(Kw::Function) => {
                            let modifiers = FnModifiersV { is_static: is_static, ..modifiers };
                            match parse_function_spec(c, st, meta, access, modifiers) {
                                Pr::Fail(e) => Pr::Fail(e),
                                Pr::Done(func, st) => { Pr::Done(MemberV::Method(func), st) },
                            }
                        },
                        other => { Pr::Fail(err_spec(c, st, "unexpected class member "@ + tok_name_spec(other))) },
                    }
                },
            }
        },
    }
}

/// What [`Parser::parse_field`] computes.
pub open spec fn parse_field_spec(c: Ctx, st: St, meta: Seq<MetaV>, access: Access, is_static: bool, is_final: bool, is_inline: bool) -> Pr<FieldV>
{
    match expect_ident_spec(c, st) {
        Pr::Fail(e) => Pr::Fail(e),
        Pr::Done(name, st) => {
            match { let (st, x1) = eat_sym_spec(c, st, Sym::LParen);
                if x1 {
                    match parse_prop_access_spec(c, st) {
                        Pr::Fail(e) => Pr::Fail(e),
                        Pr::Done(g, st) => {
                            match expect_sym_spec(c, st, Sym::Comma) {
                                Pr::Fail(e) => Pr::Fail(e),
                                Pr::Done(_, st) => {
                                    match parse_prop_access_spec(c, st) {
                                        Pr::Fail(e) => Pr::Fail(e),
                                        Pr::Done(s, st) => {
                                            match expect_sym_spec(c, st, Sym::RParen) {
                                                Pr::Fail(e) => Pr::Fail(e),
                                                Pr::Done(_, st) => { Pr::Done((g, s), st) },
                                            }
                                        },
                                    }
                                },
                            }
                        },
                    }
                } else { Pr::Done((PropAccess::Default, PropAccess::Default), st) } } {
                Pr::Fail(e) => Pr::Fail(e),
                Pr::Done((get, set), st) => {
                    match stay(c, st, parse_opt_type_spec(c, st)) {
                        Pr::Fail(e) => Pr::Fail(e),
                        Pr::Done(ty, st) => {
                            match stay(c, st, parse_opt_init_spec(c, st)) {
                                Pr::Fail(e) => Pr::Fail(e),
                                Pr::Done(init, st) => {
                                    let (st, _) = eat_sym_spec(c, st, Sym::Semi);
                                    Pr::Done(FieldV { name, ty, init, access, is_static, is_final, is_inline, get, set, meta }, st)
                                },
                            }
                        },
                    }
                },
            }
        },
    }
}

/// What [`Parser::parse_prop_access`] computes.
pub open spec fn parse_prop_access_spec(c: Ctx, st: St) -> Pr<PropAccess>
{
    match { match peek_spec(c, st) {
            TokKindV::Ident(s) => { Pr::Done(s, st) },
            TokKindV::Kw(Kw::Default) => { Pr::Done("default"@, st) },
            TokKindV::Kw(Kw::Null) => { Pr::Done("null"@, st) },
            TokKindV::Kw(Kw::Dynamic) => { Pr::Done("dynamic"@, st) },
            other => {
                Pr::Fail(err_spec(c, st, "expected property access, found "@ + tok_name_spec(other)))
            },
        } } {
        Pr::Fail(e) => Pr::Fail(e),
        Pr::Done(word, st) => {
            let st = bump_spec(c, st);
            match prop_access_spec(word) {
                Some(a) => { Pr::Done(a, st) },
                None => { Pr::Fail(err_spec(c, st, "unknown property access '"@ + word + "'"@)) },
            }
        },
    }
}

/// What [`Parser::parse_function`] computes.
pub open spec fn parse_function_spec(c: Ctx, st: St, meta: Seq<MetaV>, access: Access, modifiers: FnModifiersV) -> Pr<FunctionV>
{
    match expect_sym_kw_spec(c, st, Kw::Function) {
        Pr::Fail(e) => Pr::Fail(e),
        Pr::Done(_, st) => {
            match { let (st, x1) = eat_kw_spec(c, st, Kw::New);
                if x1 { Pr::Done(None, st) } else {
                    match expect_ident_spec(c, st) {
                        Pr::Fail(e) => Pr::Fail(e),
                        Pr::Done(n, st) => { Pr::Done(Some(n), st) },
                    }
                } } {
                Pr::Fail(e) => Pr::Fail(e),
                Pr::Done(name, st) => {
                    match parse_type_params_spec(c, st) {
                        Pr::Fail(e) => Pr::Fail(e),
                        Pr::Done(type_params, st) => {
                            match step(c, st, parse_params_spec(c, st)) {
                                Pr::Fail(e) => Pr::Fail(e),
                                Pr::Done(params, st) => {
                                    match stay(c, st, parse_opt_type_spec(c, st)) {
                                        Pr::Fail(e) => Pr::Fail(e),
                                        Pr::Done(ret, st) => {
                                            if !at_sym_spec(c, st, Sym::LBrace) {
                                                let (st, _) = eat_sym_spec(c, st, Sym::Semi);
                                                Pr::Done(FunctionV { name, type_params, params, ret, body: None, access, modifiers, meta }, st)
                                            } else {
                                                if modifiers.is_macro {
                                                    match skip_braced_block_spec(c, st) {
                                                        Pr::Fail(e) => Pr::Fail(e),
                                                        Pr::Done(_, st) => { Pr::Done(FunctionV { name, type_params, params, ret, body: None, access, modifiers, meta }, st) },
                                                    }
                                                } else {
                                                    match step(c, st, parse_block_spec(c, st)) {
                                                        Pr::Fail(e) => Pr::Fail(e),
                                                        Pr::Done(body, st) => { Pr::Done(FunctionV { name, type_params, params, ret, body: Some(body), access, modifiers, meta }, st) },
                                                    }
                                                }
                                            }
                                        },
                                    }
                                },
                            }
                        },
                    }
                },
            }
        },
    }
}

} // verus!
