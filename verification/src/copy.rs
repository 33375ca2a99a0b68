//! Copies of syntax trees: each has the same model as what it was made from.

use vstd::prelude::*;

use crate::ast::{Case, Catch, Class, ComprBody, Decl, Enum, EnumVariant, Expr, Field, File, FnModifiers, Function, GlobalVar, Import, Interface, Iterable, LambdaBody, Meta, Param, Stmt, StructField, Type, Typedef, TypedefTarget, Using};
use crate::model::{cases_v, catchs_v, decls_v, enum_variants_v, expr_exprs_v, exprs_v, fields_v, functions_v, imports_v, metas_v, params_v, stmts_v, struct_fields_v, text_exprs_v, types_v, usings_v};
use crate::text::dup_texts;

verus! {

broadcast use {crate::model::group_model, crate::text::group_texts};

impl Meta {
    /// A copy with the same model.
    pub fn dup(&self) -> (r: Meta)
        ensures
            r.v() == self.v(),
    {
        Meta {
            name: self.name.clone(),
            args: dup_texts(&self.args),
        }
    }
}

impl Clone for Meta {
    fn clone(&self) -> (r: Meta)
        ensures
            r.v() == self.v(),
    {
        self.dup()
    }
}

impl Type {
    /// A copy with the same model.
    pub fn dup(&self) -> (r: Type)
        ensures
            r.v() == self.v(),
        decreases self,
    {
        match self {
            Type::Named { path, params, optional, line } => Type::Named {
                path: dup_texts(path),
                params: dup_types(params),
                optional: *optional,
                line: *line,
            },
            Type::Anon(a) => Type::Anon(dup_struct_fields(a)),
            Type::Func { params, ret } => Type::Func {
                params: dup_types(params),
                ret: Box::new(ret.dup()),
            },
        }
    }
}

impl Clone for Type {
    fn clone(&self) -> (r: Type)
        ensures
            r.v() == self.v(),
    {
        self.dup()
    }
}

impl StructField {
    /// A copy with the same model.
    pub fn dup(&self) -> (r: StructField)
        ensures
            r.v() == self.v(),
        decreases self,
    {
        StructField {
            name: self.name.clone(),
            optional: self.optional,
            ty: self.ty.dup(),
        }
    }
}

impl Clone for StructField {
    fn clone(&self) -> (r: StructField)
        ensures
            r.v() == self.v(),
    {
        self.dup()
    }
}

impl Expr {
    /// A copy with the same model.
    pub fn dup(&self) -> (r: Expr)
        ensures
            r.v() == self.v(),
        decreases self,
    {
        match self {
            Expr::Int(a) => Expr::Int(a.clone()),
            Expr::Float(a) => Expr::Float(a.clone()),
            Expr::Str { raw, interpolated } => Expr::Str {
                raw: raw.clone(),
                interpolated: *interpolated,
            },
            Expr::Bool(a) => Expr::Bool(*a),
            Expr::Null => Expr::Null,
            Expr::This => Expr::This,
            Expr::Super => Expr::Super,
            Expr::Ident(a) => Expr::Ident(a.clone()),
            Expr::Field(a, b) => Expr::Field(Box::new(a.dup()), b.clone()),
            Expr::Index(a, b) => Expr::Index(Box::new(a.dup()), Box::new(b.dup())),
            Expr::Call(a, b) => Expr::Call(Box::new(a.dup()), dup_exprs(b)),
            Expr::New(a, b) => Expr::New(a.dup(), dup_exprs(b)),
            Expr::Unary { op, expr, prefix } => Expr::Unary {
                op: *op,
                expr: Box::new(expr.dup()),
                prefix: *prefix,
            },
            Expr::Binary { op, lhs, rhs } => Expr::Binary {
                op: *op,
                lhs: Box::new(lhs.dup()),
                rhs: Box::new(rhs.dup()),
            },
            Expr::Ternary { cond, then, els } => Expr::Ternary {
                cond: Box::new(cond.dup()),
                then: Box::new(then.dup()),
                els: Box::new(els.dup()),
            },
            Expr::Assign { op, target, value } => Expr::Assign {
                op: *op,
                target: Box::new(target.dup()),
                value: Box::new(value.dup()),
            },
            Expr::NullCoalesce(a, b) => Expr::NullCoalesce(Box::new(a.dup()), Box::new(b.dup())),
            Expr::SafeField(a, b) => Expr::SafeField(Box::new(a.dup()), b.clone()),
            Expr::ArrayLit(a) => Expr::ArrayLit(dup_exprs(a)),
            Expr::MapLit(a) => Expr::MapLit(dup_expr_exprs(a)),
            Expr::ObjectLit(a) => Expr::ObjectLit(dup_text_exprs(a)),
            Expr::Comprehension { var, value_var, iter, guard, body } => Expr::Comprehension {
                var: var.clone(),
                value_var: match value_var { Some(y) => Some(y.clone()), None => None },
                iter: Box::new(iter.dup()),
                guard: match guard { Some(y) => Some(Box::new(y.dup())), None => None },
                body: body.dup(),
            },
            Expr::Lambda { params, ret, body } => Expr::Lambda {
                params: dup_params(params),
                ret: match ret { Some(y) => Some(y.dup()), None => None },
                body: Box::new(body.dup()),
            },
            Expr::Cast { expr, ty } => Expr::Cast {
                expr: Box::new(expr.dup()),
                ty: match ty { Some(y) => Some(y.dup()), None => None },
            },
            Expr::TypeCheck { expr, ty } => Expr::TypeCheck {
                expr: Box::new(expr.dup()),
                ty: ty.dup(),
            },
            Expr::Is { expr, ty } => Expr::Is {
                expr: Box::new(expr.dup()),
                ty: ty.dup(),
            },
            Expr::Switch { subject, cases, default } => Expr::Switch {
                subject: Box::new(subject.dup()),
                cases: dup_cases(cases),
                default: match default { Some(y) => Some(dup_stmts(y)), None => None },
            },
            Expr::If { cond, then, els } => Expr::If {
                cond: Box::new(cond.dup()),
                then: Box::new(then.dup()),
                els: match els { Some(y) => Some(Box::new(y.dup())), None => None },
            },
            Expr::Block(a) => Expr::Block(dup_stmts(a)),
            Expr::Paren(a) => Expr::Paren(Box::new(a.dup())),
            Expr::Untyped(a) => Expr::Untyped(Box::new(a.dup())),
            Expr::Regex { pattern, flags } => Expr::Regex {
                pattern: pattern.clone(),
                flags: flags.clone(),
            },
            Expr::Meta(a, b) => Expr::Meta(dup_metas(a), Box::new(b.dup())),
        }
    }
}

impl Clone for Expr {
    fn clone(&self) -> (r: Expr)
        ensures
            r.v() == self.v(),
    {
        self.dup()
    }
}

impl ComprBody {
    /// A copy with the same model.
    pub fn dup(&self) -> (r: ComprBody)
        ensures
            r.v() == self.v(),
        decreases self,
    {
        match self {
            ComprBody::Value(a) => ComprBody::Value(Box::new(a.dup())),
            ComprBody::KeyValue(a, b) => ComprBody::KeyValue(Box::new(a.dup()), Box::new(b.dup())),
        }
    }
}

impl Clone for ComprBody {
    fn clone(&self) -> (r: ComprBody)
        ensures
            r.v() == self.v(),
    {
        self.dup()
    }
}

impl LambdaBody {
    /// A copy with the same model.
    pub fn dup(&self) -> (r: LambdaBody)
        ensures
            r.v() == self.v(),
        decreases self,
    {
        match self {
            LambdaBody::Expr(a) => LambdaBody::Expr(a.dup()),
            LambdaBody::Block(a) => LambdaBody::Block(dup_stmts(a)),
        }
    }
}

impl Clone for LambdaBody {
    fn clone(&self) -> (r: LambdaBody)
        ensures
            r.v() == self.v(),
    {
        self.dup()
    }
}

impl Iterable {
    /// A copy with the same model.
    pub fn dup(&self) -> (r: Iterable)
        ensures
            r.v() == self.v(),
        decreases self,
    {
        match self {
            Iterable::Range(a, b) => Iterable::Range(a.dup(), b.dup()),
            Iterable::Coll(a) => Iterable::Coll(a.dup()),
        }
    }
}

impl Clone for Iterable {
    fn clone(&self) -> (r: Iterable)
        ensures
            r.v() == self.v(),
    {
        self.dup()
    }
}

impl Stmt {
    /// A copy with the same model.
    pub fn dup(&self) -> (r: Stmt)
        ensures
            r.v() == self.v(),
        decreases self,
    {
        match self {
            Stmt::Var { name, ty, init, is_final, delete, sink, line } => Stmt::Var {
                name: name.clone(),
                ty: match ty { Some(y) => Some(y.dup()), None => None },
                init: match init { Some(y) => Some(y.dup()), None => None },
                is_final: *is_final,
                delete: *delete,
                sink: *sink,
                line: *line,
            },
            Stmt::Expr(a, b) => Stmt::Expr(a.dup(), *b),
            Stmt::If { cond, then, els, line } => Stmt::If {
                cond: cond.dup(),
                then: Box::new(then.dup()),
                els: match els { Some(y) => Some(Box::new(y.dup())), None => None },
                line: *line,
            },
            Stmt::For { var, value_var, iter, body, line } => Stmt::For {
                var: var.clone(),
                value_var: match value_var { Some(y) => Some(y.clone()), None => None },
                iter: iter.dup(),
                body: Box::new(body.dup()),
                line: *line,
            },
            Stmt::While { cond, body, do_while, line } => Stmt::While {
                cond: cond.dup(),
                body: Box::new(body.dup()),
                do_while: *do_while,
                line: *line,
            },
            Stmt::Switch { subject, cases, default, line } => Stmt::Switch {
                subject: subject.dup(),
                cases: dup_cases(cases),
                default: match default { Some(y) => Some(dup_stmts(y)), None => None },
                line: *line,
            },
            Stmt::Return(a, b) => Stmt::Return(match a { Some(y) => Some(y.dup()), None => None }, *b),
            Stmt::Break => Stmt::Break,
            Stmt::Continue => Stmt::Continue,
            Stmt::Throw(a, b) => Stmt::Throw(a.dup(), *b),
            Stmt::Try { body, catches, line } => Stmt::Try {
                body: Box::new(body.dup()),
                catches: dup_catchs(catches),
                line: *line,
            },
            Stmt::Block(a) => Stmt::Block(dup_stmts(a)),
            Stmt::Verbatim { code, line } => Stmt::Verbatim {
                code: code.clone(),
                line: *line,
            },
        }
    }
}

impl Clone for Stmt {
    fn clone(&self) -> (r: Stmt)
        ensures
            r.v() == self.v(),
    {
        self.dup()
    }
}

impl Case {
    /// A copy with the same model.
    pub fn dup(&self) -> (r: Case)
        ensures
            r.v() == self.v(),
        decreases self,
    {
        Case {
            patterns: dup_exprs(&self.patterns),
            body: dup_stmts(&self.body),
        }
    }
}

impl Clone for Case {
    fn clone(&self) -> (r: Case)
        ensures
            r.v() == self.v(),
    {
        self.dup()
    }
}

impl Catch {
    /// A copy with the same model.
    pub fn dup(&self) -> (r: Catch)
        ensures
            r.v() == self.v(),
        decreases self,
    {
        Catch {
            name: self.name.clone(),
            ty: match &self.ty { Some(y) => Some(y.dup()), None => None },
            body: dup_stmts(&self.body),
        }
    }
}

impl Clone for Catch {
    fn clone(&self) -> (r: Catch)
        ensures
            r.v() == self.v(),
    {
        self.dup()
    }
}

impl Param {
    /// A copy with the same model.
    pub fn dup(&self) -> (r: Param)
        ensures
            r.v() == self.v(),
        decreases self,
    {
        Param {
            name: self.name.clone(),
            ty: match &self.ty { Some(y) => Some(y.dup()), None => None },
            optional: self.optional,
            default: match &self.default { Some(y) => Some(y.dup()), None => None },
            rest: self.rest,
            meta: dup_metas(&self.meta),
        }
    }
}

impl Clone for Param {
    fn clone(&self) -> (r: Param)
        ensures
            r.v() == self.v(),
    {
        self.dup()
    }
}

impl FnModifiers {
    /// A copy with the same model.
    pub fn dup(&self) -> (r: FnModifiers)
        ensures
            r.v() == self.v(),
    {
        FnModifiers {
            is_static: self.is_static,
            is_inline: self.is_inline,
            is_extern: self.is_extern,
            is_override: self.is_override,
            is_final: self.is_final,
            is_dynamic: self.is_dynamic,
            is_abstract: self.is_abstract,
            is_macro: self.is_macro,
        }
    }
}

impl Clone for FnModifiers {
    fn clone(&self) -> (r: FnModifiers)
        ensures
            r.v() == self.v(),
    {
        self.dup()
    }
}

impl Function {
    /// A copy with the same model.
    pub fn dup(&self) -> (r: Function)
        ensures
            r.v() == self.v(),
    {
        Function {
            name: match &self.name { Some(y) => Some(y.clone()), None => None },
            type_params: dup_texts(&self.type_params),
            params: dup_params(&self.params),
            ret: match &self.ret { Some(y) => Some(y.dup()), None => None },
            body: match &self.body { Some(y) => Some(dup_stmts(y)), None => None },
            access: self.access,
            modifiers: self.modifiers.dup(),
            meta: dup_metas(&self.meta),
        }
    }
}

impl Clone for Function {
    fn clone(&self) -> (r: Function)
        ensures
            r.v() == self.v(),
    {
        self.dup()
    }
}

impl Field {
    /// A copy with the same model.
    pub fn dup(&self) -> (r: Field)
        ensures
            r.v() == self.v(),
    {
        Field {
            name: self.name.clone(),
            ty: match &self.ty { Some(y) => Some(y.dup()), None => None },
            init: match &self.init { Some(y) => Some(y.dup()), None => None },
            access: self.access,
            is_static: self.is_static,
            is_final: self.is_final,
            is_inline: self.is_inline,
            get: self.get,
            set: self.set,
            meta: dup_metas(&self.meta),
        }
    }
}

impl Clone for Field {
    fn clone(&self) -> (r: Field)
        ensures
            r.v() == self.v(),
    {
        self.dup()
    }
}

impl Class {
    /// A copy with the same model.
    pub fn dup(&self) -> (r: Class)
        ensures
            r.v() == self.v(),
    {
        Class {
            name: self.name.clone(),
            line: self.line,
            type_params: dup_texts(&self.type_params),
            extends: match &self.extends { Some(y) => Some(y.dup()), None => None },
            implements: dup_types(&self.implements),
            is_extern: self.is_extern,
            is_final: self.is_final,
            is_abstract: self.is_abstract,
            abstract_underlying: match &self.abstract_underlying { Some(y) => Some(y.dup()), None => None },
            meta: dup_metas(&self.meta),
            fields: dup_fields(&self.fields),
            methods: dup_functions(&self.methods),
            ctor: match &self.ctor { Some(y) => Some(y.dup()), None => None },
        }
    }
}

impl Clone for Class {
    fn clone(&self) -> (r: Class)
        ensures
            r.v() == self.v(),
    {
        self.dup()
    }
}

impl Interface {
    /// A copy with the same model.
    pub fn dup(&self) -> (r: Interface)
        ensures
            r.v() == self.v(),
    {
        Interface {
            name: self.name.clone(),
            line: self.line,
            is_extern: self.is_extern,
            type_params: dup_texts(&self.type_params),
            extends: dup_types(&self.extends),
            meta: dup_metas(&self.meta),
            methods: dup_functions(&self.methods),
            fields: dup_fields(&self.fields),
        }
    }
}

impl Clone for Interface {
    fn clone(&self) -> (r: Interface)
        ensures
            r.v() == self.v(),
    {
        self.dup()
    }
}

impl EnumVariant {
    /// A copy with the same model.
    pub fn dup(&self) -> (r: EnumVariant)
        ensures
            r.v() == self.v(),
    {
        EnumVariant {
            name: self.name.clone(),
            params: dup_params(&self.params),
            value: match &self.value { Some(y) => Some(y.dup()), None => None },
        }
    }
}

impl Clone for EnumVariant {
    fn clone(&self) -> (r: EnumVariant)
        ensures
            r.v() == self.v(),
    {
        self.dup()
    }
}

impl Enum {
    /// A copy with the same model.
    pub fn dup(&self) -> (r: Enum)
        ensures
            r.v() == self.v(),
    {
        Enum {
            name: self.name.clone(),
            is_extern: self.is_extern,
            meta: dup_metas(&self.meta),
            variants: dup_enum_variants(&self.variants),
            underlying: match &self.underlying { Some(y) => Some(y.dup()), None => None },
        }
    }
}

impl Clone for Enum {
    fn clone(&self) -> (r: Enum)
        ensures
            r.v() == self.v(),
    {
        self.dup()
    }
}

impl TypedefTarget {
    /// A copy with the same model.
    pub fn dup(&self) -> (r: TypedefTarget)
        ensures
            r.v() == self.v(),
    {
        match self {
            TypedefTarget::Alias(a) => TypedefTarget::Alias(a.dup()),
            TypedefTarget::Struct(a) => TypedefTarget::Struct(dup_struct_fields(a)),
        }
    }
}

impl Clone for TypedefTarget {
    fn clone(&self) -> (r: TypedefTarget)
        ensures
            r.v() == self.v(),
    {
        self.dup()
    }
}

impl Typedef {
    /// A copy with the same model.
    pub fn dup(&self) -> (r: Typedef)
        ensures
            r.v() == self.v(),
    {
        Typedef {
            name: self.name.clone(),
            meta: dup_metas(&self.meta),
            target: self.target.dup(),
        }
    }
}

impl Clone for Typedef {
    fn clone(&self) -> (r: Typedef)
        ensures
            r.v() == self.v(),
    {
        self.dup()
    }
}

impl GlobalVar {
    /// A copy with the same model.
    pub fn dup(&self) -> (r: GlobalVar)
        ensures
            r.v() == self.v(),
    {
        GlobalVar {
            name: self.name.clone(),
            ty: match &self.ty { Some(y) => Some(y.dup()), None => None },
            init: match &self.init { Some(y) => Some(y.dup()), None => None },
            is_final: self.is_final,
            is_extern: self.is_extern,
            access: self.access,
            meta: dup_metas(&self.meta),
        }
    }
}

impl Clone for GlobalVar {
    fn clone(&self) -> (r: GlobalVar)
        ensures
            r.v() == self.v(),
    {
        self.dup()
    }
}

impl Decl {
    /// A copy with the same model.
    pub fn dup(&self) -> (r: Decl)
        ensures
            r.v() == self.v(),
    {
        match self {
            Decl::Class(a) => Decl::Class(Box::new(a.dup())),
            Decl::Interface(a) => Decl::Interface(a.dup()),
            Decl::Enum(a) => Decl::Enum(a.dup()),
            Decl::Typedef(a) => Decl::Typedef(a.dup()),
            Decl::Global(a) => Decl::Global(a.dup()),
            Decl::Function(a) => Decl::Function(a.dup()),
            Decl::Unsupported { feature, line } => Decl::Unsupported {
                feature: feature.clone(),
                line: *line,
            },
        }
    }
}

impl Clone for Decl {
    fn clone(&self) -> (r: Decl)
        ensures
            r.v() == self.v(),
    {
        self.dup()
    }
}

impl Import {
    /// A copy with the same model.
    pub fn dup(&self) -> (r: Import)
        ensures
            r.v() == self.v(),
    {
        Import {
            path: dup_texts(&self.path),
            wildcard: self.wildcard,
            alias: match &self.alias { Some(y) => Some(y.clone()), None => None },
        }
    }
}

impl Clone for Import {
    fn clone(&self) -> (r: Import)
        ensures
            r.v() == self.v(),
    {
        self.dup()
    }
}

impl Using {
    /// A copy with the same model.
    pub fn dup(&self) -> (r: Using)
        ensures
            r.v() == self.v(),
    {
        Using {
            path: dup_texts(&self.path),
            line: self.line,
        }
    }
}

impl Clone for Using {
    fn clone(&self) -> (r: Using)
        ensures
            r.v() == self.v(),
    {
        self.dup()
    }
}

impl File {
    /// A copy with the same model.
    pub fn dup(&self) -> (r: File)
        ensures
            r.v() == self.v(),
    {
        File {
            package: dup_texts(&self.package),
            imports: dup_imports(&self.imports),
            usings: dup_usings(&self.usings),
            decls: dup_decls(&self.decls),
            meta: dup_metas(&self.meta),
        }
    }
}

impl Clone for File {
    fn clone(&self) -> (r: File)
        ensures
            r.v() == self.v(),
    {
        self.dup()
    }
}

/// A copy of a list with the same model.
pub fn dup_metas(v: &Vec<Meta>) -> (r: Vec<Meta>)
    ensures
        metas_v(r@) == metas_v(v@),
{
    let mut out: Vec<Meta> = Vec::new();
    let mut i: usize = 0;
    while i < v.len()
        invariant
            i <= v.len(),
            out.len() == i,
            forall|j: int| 0 <= j < i ==> (#[trigger] out@[j]).v() == v@[j].v(),
        decreases v.len() - i,
    {
        let x = v[i].dup();
        out.push(x);
        i += 1;
    }
    proof {
        assert(metas_v(out@) =~= metas_v(v@));
    }
    out
}

/// A copy of a list with the same model.
pub fn dup_types(v: &Vec<Type>) -> (r: Vec<Type>)
    ensures
        types_v(r@) == types_v(v@),
    decreases v@,
{
    let mut out: Vec<Type> = Vec::new();
    let mut i: usize = 0;
    while i < v.len()
        invariant
            i <= v.len(),
            out.len() == i,
            forall|j: int| 0 <= j < i ==> (#[trigger] out@[j]).v() == v@[j].v(),
        decreases v.len() - i,
    {
        let x = v[i].dup();
        out.push(x);
        i += 1;
    }
    proof {
        assert(types_v(out@) =~= types_v(v@));
    }
    out
}

/// A copy of a list with the same model.
pub fn dup_struct_fields(v: &Vec<StructField>) -> (r: Vec<StructField>)
    ensures
        struct_fields_v(r@) == struct_fields_v(v@),
    decreases v@,
{
    let mut out: Vec<StructField> = Vec::new();
    let mut i: usize = 0;
    while i < v.len()
        invariant
            i <= v.len(),
            out.len() == i,
            forall|j: int| 0 <= j < i ==> (#[trigger] out@[j]).v() == v@[j].v(),
        decreases v.len() - i,
    {
        let x = v[i].dup();
        out.push(x);
        i += 1;
    }
    proof {
        assert(struct_fields_v(out@) =~= struct_fields_v(v@));
    }
    out
}

/// A copy of a list with the same model.
pub fn dup_exprs(v: &Vec<Expr>) -> (r: Vec<Expr>)
    ensures
        exprs_v(r@) == exprs_v(v@),
    decreases v@,
{
    let mut out: Vec<Expr> = Vec::new();
    let mut i: usize = 0;
    while i < v.len()
        invariant
            i <= v.len(),
            out.len() == i,
            forall|j: int| 0 <= j < i ==> (#[trigger] out@[j]).v() == v@[j].v(),
        decreases v.len() - i,
    {
        let x = v[i].dup();
        out.push(x);
        i += 1;
    }
    proof {
        assert(exprs_v(out@) =~= exprs_v(v@));
    }
    out
}

/// A copy of a list with the same model.
pub fn dup_stmts(v: &Vec<Stmt>) -> (r: Vec<Stmt>)
    ensures
        stmts_v(r@) == stmts_v(v@),
    decreases v@,
{
    let mut out: Vec<Stmt> = Vec::new();
    let mut i: usize = 0;
    while i < v.len()
        invariant
            i <= v.len(),
            out.len() == i,
            forall|j: int| 0 <= j < i ==> (#[trigger] out@[j]).v() == v@[j].v(),
        decreases v.len() - i,
    {
        let x = v[i].dup();
        out.push(x);
        i += 1;
    }
    proof {
        assert(stmts_v(out@) =~= stmts_v(v@));
    }
    out
}

/// A copy of a list with the same model.
pub fn dup_cases(v: &Vec<Case>) -> (r: Vec<Case>)
    ensures
        cases_v(r@) == cases_v(v@),
    decreases v@,
{
    let mut out: Vec<Case> = Vec::new();
    let mut i: usize = 0;
    while i < v.len()
        invariant
            i <= v.len(),
            out.len() == i,
            forall|j: int| 0 <= j < i ==> (#[trigger] out@[j]).v() == v@[j].v(),
        decreases v.len() - i,
    {
        let x = v[i].dup();
        out.push(x);
        i += 1;
    }
    proof {
        assert(cases_v(out@) =~= cases_v(v@));
    }
    out
}

/// A copy of a list with the same model.
pub fn dup_catchs(v: &Vec<Catch>) -> (r: Vec<Catch>)
    ensures
        catchs_v(r@) == catchs_v(v@),
    decreases v@,
{
    let mut out: Vec<Catch> = Vec::new();
    let mut i: usize = 0;
    while i < v.len()
        invariant
            i <= v.len(),
            out.len() == i,
            forall|j: int| 0 <= j < i ==> (#[trigger] out@[j]).v() == v@[j].v(),
        decreases v.len() - i,
    {
        let x = v[i].dup();
        out.push(x);
        i += 1;
    }
    proof {
        assert(catchs_v(out@) =~= catchs_v(v@));
    }
    out
}

/// A copy of a list with the same model.
pub fn dup_params(v: &Vec<Param>) -> (r: Vec<Param>)
    ensures
        params_v(r@) == params_v(v@),
    decreases v@,
{
    let mut out: Vec<Param> = Vec::new();
    let mut i: usize = 0;
    while i < v.len()
        invariant
            i <= v.len(),
            out.len() == i,
            forall|j: int| 0 <= j < i ==> (#[trigger] out@[j]).v() == v@[j].v(),
        decreases v.len() - i,
    {
        let x = v[i].dup();
        out.push(x);
        i += 1;
    }
    proof {
        assert(params_v(out@) =~= params_v(v@));
    }
    out
}

/// A copy of a list with the same model.
pub fn dup_functions(v: &Vec<Function>) -> (r: Vec<Function>)
    ensures
        functions_v(r@) == functions_v(v@),
{
    let mut out: Vec<Function> = Vec::new();
    let mut i: usize = 0;
    while i < v.len()
        invariant
            i <= v.len(),
            out.len() == i,
            forall|j: int| 0 <= j < i ==> (#[trigger] out@[j]).v() == v@[j].v(),
        decreases v.len() - i,
    {
        let x = v[i].dup();
        out.push(x);
        i += 1;
    }
    proof {
        assert(functions_v(out@) =~= functions_v(v@));
    }
    out
}

/// A copy of a list with the same model.
pub fn dup_fields(v: &Vec<Field>) -> (r: Vec<Field>)
    ensures
        fields_v(r@) == fields_v(v@),
{
    let mut out: Vec<Field> = Vec::new();
    let mut i: usize = 0;
    while i < v.len()
        invariant
            i <= v.len(),
            out.len() == i,
            forall|j: int| 0 <= j < i ==> (#[trigger] out@[j]).v() == v@[j].v(),
        decreases v.len() - i,
    {
        let x = v[i].dup();
        out.push(x);
        i += 1;
    }
    proof {
        assert(fields_v(out@) =~= fields_v(v@));
    }
    out
}

/// A copy of a list with the same model.
pub fn dup_enum_variants(v: &Vec<EnumVariant>) -> (r: Vec<EnumVariant>)
    ensures
        enum_variants_v(r@) == enum_variants_v(v@),
{
    let mut out: Vec<EnumVariant> = Vec::new();
    let mut i: usize = 0;
    while i < v.len()
        invariant
            i <= v.len(),
            out.len() == i,
            forall|j: int| 0 <= j < i ==> (#[trigger] out@[j]).v() == v@[j].v(),
        decreases v.len() - i,
    {
        let x = v[i].dup();
        out.push(x);
        i += 1;
    }
    proof {
        assert(enum_variants_v(out@) =~= enum_variants_v(v@));
    }
    out
}

/// A copy of a list with the same model.
pub fn dup_decls(v: &Vec<Decl>) -> (r: Vec<Decl>)
    ensures
        decls_v(r@) == decls_v(v@),
{
    let mut out: Vec<Decl> = Vec::new();
    let mut i: usize = 0;
    while i < v.len()
        invariant
            i <= v.len(),
            out.len() == i,
            forall|j: int| 0 <= j < i ==> (#[trigger] out@[j]).v() == v@[j].v(),
        decreases v.len() - i,
    {
        let x = v[i].dup();
        out.push(x);
        i += 1;
    }
    proof {
        assert(decls_v(out@) =~= decls_v(v@));
    }
    out
}

/// A copy of a list with the same model.
pub fn dup_imports(v: &Vec<Import>) -> (r: Vec<Import>)
    ensures
        imports_v(r@) == imports_v(v@),
{
    let mut out: Vec<Import> = Vec::new();
    let mut i: usize = 0;
    while i < v.len()
        invariant
            i <= v.len(),
            out.len() == i,
            forall|j: int| 0 <= j < i ==> (#[trigger] out@[j]).v() == v@[j].v(),
        decreases v.len() - i,
    {
        let x = v[i].dup();
        out.push(x);
        i += 1;
    }
    proof {
        assert(imports_v(out@) =~= imports_v(v@));
    }
    out
}

/// A copy of a list with the same model.
pub fn dup_usings(v: &Vec<Using>) -> (r: Vec<Using>)
    ensures
        usings_v(r@) == usings_v(v@),
{
    let mut out: Vec<Using> = Vec::new();
    let mut i: usize = 0;
    while i < v.len()
        invariant
            i <= v.len(),
            out.len() == i,
            forall|j: int| 0 <= j < i ==> (#[trigger] out@[j]).v() == v@[j].v(),
        decreases v.len() - i,
    {
        let x = v[i].dup();
        out.push(x);
        i += 1;
    }
    proof {
        assert(usings_v(out@) =~= usings_v(v@));
    }
    out
}

/// A copy of a list with the same model.
pub fn dup_expr_exprs(v: &Vec<(Expr, Expr)>) -> (r: Vec<(Expr, Expr)>)
    ensures
        expr_exprs_v(r@) == expr_exprs_v(v@),
    decreases v@,
{
    let mut out: Vec<(Expr, Expr)> = Vec::new();
    let mut i: usize = 0;
    while i < v.len()
        invariant
            i <= v.len(),
            out.len() == i,
            forall|j: int| 0 <= j < i ==> (out@[j].0.v(), out@[j].1.v()) == (v@[j].0.v(), v@[j].1.v()),
        decreases v.len() - i,
    {
        let x = (v[i].0.dup(), v[i].1.dup());
        out.push(x);
        i += 1;
    }
    proof {
        assert(expr_exprs_v(out@) =~= expr_exprs_v(v@));
    }
    out
}

/// A copy of a list with the same model.
pub fn dup_text_exprs(v: &Vec<(String, Expr)>) -> (r: Vec<(String, Expr)>)
    ensures
        text_exprs_v(r@) == text_exprs_v(v@),
    decreases v@,
{
    let mut out: Vec<(String, Expr)> = Vec::new();
    let mut i: usize = 0;
    while i < v.len()
        invariant
            i <= v.len(),
            out.len() == i,
            forall|j: int| 0 <= j < i ==> (out@[j].0@, out@[j].1.v()) == (v@[j].0@, v@[j].1.v()),
        decreases v.len() - i,
    {
        let x = (v[i].0.clone(), v[i].1.dup());
        out.push(x);
        i += 1;
    }
    proof {
        assert(text_exprs_v(out@) =~= text_exprs_v(v@));
    }
    out
}

} // verus!
