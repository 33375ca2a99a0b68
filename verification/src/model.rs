//! Mathematical models of the syntax tree: every string a sequence of characters,
//! every list a sequence. The contracts of the library speak of these.

use vstd::prelude::*;

use crate::ast::{Access, BinOp, Case, Catch, Class, ComprBody, Decl, Enum, EnumVariant, Expr, Field, File, FnModifiers, Function, GlobalVar, Import, Interface, Iterable, LambdaBody, Meta, Param, PropAccess, Stmt, StructField, Type, Typedef, TypedefTarget, UnOp, Using};
use crate::text::{dup_texts, texts};

verus! {

/// Mathematical model of [`Meta`].
pub struct MetaV {
    pub name: Seq<char>,
    pub args: Seq<Seq<char>>,
}

/// Mathematical model of [`Type`].
#[allow(inconsistent_fields)]
pub enum TypeV {
    Named { path: Seq<Seq<char>>, params: Seq<TypeV>, optional: bool, line: int },
    Anon(Seq<StructFieldV>),
    Func { params: Seq<TypeV>, ret: Box<TypeV> },
}

/// Mathematical model of [`StructField`].
pub struct StructFieldV {
    pub name: Seq<char>,
    pub optional: bool,
    pub ty: TypeV,
}

/// Mathematical model of [`Expr`].
#[allow(inconsistent_fields)]
pub enum ExprV {
    Int(Seq<char>),
    Float(Seq<char>),
    Str { raw: Seq<char>, interpolated: bool },
    Bool(bool),
    Null,
    This,
    Super,
    Ident(Seq<char>),
    Field(Box<ExprV>, Seq<char>),
    Index(Box<ExprV>, Box<ExprV>),
    Call(Box<ExprV>, Seq<ExprV>),
    New(TypeV, Seq<ExprV>),
    Unary { op: UnOp, expr: Box<ExprV>, prefix: bool },
    Binary { op: BinOp, lhs: Box<ExprV>, rhs: Box<ExprV> },
    Ternary { cond: Box<ExprV>, then: Box<ExprV>, els: Box<ExprV> },
    Assign { op: Option<BinOp>, target: Box<ExprV>, value: Box<ExprV> },
    NullCoalesce(Box<ExprV>, Box<ExprV>),
    SafeField(Box<ExprV>, Seq<char>),
    ArrayLit(Seq<ExprV>),
    MapLit(Seq<(ExprV, ExprV)>),
    ObjectLit(Seq<(Seq<char>, ExprV)>),
    Comprehension { var: Seq<char>, value_var: Option<Seq<char>>, iter: Box<IterableV>, guard: Option<Box<ExprV>>, body: ComprBodyV },
    Lambda { params: Seq<ParamV>, ret: Option<TypeV>, body: Box<LambdaBodyV> },
    Cast { expr: Box<ExprV>, ty: Option<TypeV> },
    TypeCheck { expr: Box<ExprV>, ty: TypeV },
    Is { expr: Box<ExprV>, ty: TypeV },
    Switch { subject: Box<ExprV>, cases: Seq<CaseV>, default: Option<Seq<StmtV>> },
    If { cond: Box<ExprV>, then: Box<ExprV>, els: Option<Box<ExprV>> },
    Block(Seq<StmtV>),
    Paren(Box<ExprV>),
    Untyped(Box<ExprV>),
    Regex { pattern: Seq<char>, flags: Seq<char> },
    Meta(Seq<MetaV>, Box<ExprV>),
}

/// Mathematical model of [`ComprBody`].
#[allow(inconsistent_fields)]
pub enum ComprBodyV {
    Value(Box<ExprV>),
    KeyValue(Box<ExprV>, Box<ExprV>),
}

/// Mathematical model of [`LambdaBody`].
#[allow(inconsistent_fields)]
pub enum LambdaBodyV {
    Expr(ExprV),
    Block(Seq<StmtV>),
}

/// Mathematical model of [`Iterable`].
#[allow(inconsistent_fields)]
pub enum IterableV {
    Range(ExprV, ExprV),
    Coll(ExprV),
}

/// Mathematical model of [`Stmt`].
#[allow(inconsistent_fields)]
pub enum StmtV {
    Var { name: Seq<char>, ty: Option<TypeV>, init: Option<ExprV>, is_final: bool, delete: bool, sink: bool, line: int },
    Expr(ExprV, int),
    If { cond: ExprV, then: Box<StmtV>, els: Option<Box<StmtV>>, line: int },
    For { var: Seq<char>, value_var: Option<Seq<char>>, iter: IterableV, body: Box<StmtV>, line: int },
    While { cond: ExprV, body: Box<StmtV>, do_while: bool, line: int },
    Switch { subject: ExprV, cases: Seq<CaseV>, default: Option<Seq<StmtV>>, line: int },
    Return(Option<ExprV>, int),
    Break,
    Continue,
    Throw(ExprV, int),
    Try { body: Box<StmtV>, catches: Seq<CatchV>, line: int },
    Block(Seq<StmtV>),
    Verbatim { code: Seq<char>, line: int },
}

/// Mathematical model of [`Case`].
pub struct CaseV {
    pub patterns: Seq<ExprV>,
    pub body: Seq<StmtV>,
}

/// Mathematical model of [`Catch`].
pub struct CatchV {
    pub name: Seq<char>,
    pub ty: Option<TypeV>,
    pub body: Seq<StmtV>,
}

/// Mathematical model of [`Param`].
pub struct ParamV {
    pub name: Seq<char>,
    pub ty: Option<TypeV>,
    pub optional: bool,
    pub default: Option<ExprV>,
    pub rest: bool,
    pub meta: Seq<MetaV>,
}

/// Mathematical model of [`FnModifiers`].
pub struct FnModifiersV {
    pub is_static: bool,
    pub is_inline: bool,
    pub is_extern: bool,
    pub is_override: bool,
    pub is_final: bool,
    pub is_dynamic: bool,
    pub is_abstract: bool,
    pub is_macro: bool,
}

/// Mathematical model of [`Function`].
pub struct FunctionV {
    pub name: Option<Seq<char>>,
    pub type_params: Seq<Seq<char>>,
    pub params: Seq<ParamV>,
    pub ret: Option<TypeV>,
    pub body: Option<Seq<StmtV>>,
    pub access: Access,
    pub modifiers: FnModifiersV,
    pub meta: Seq<MetaV>,
}

/// Mathematical model of [`Field`].
pub struct FieldV {
    pub name: Seq<char>,
    pub ty: Option<TypeV>,
    pub init: Option<ExprV>,
    pub access: Access,
    pub is_static: bool,
    pub is_final: bool,
    pub is_inline: bool,
    pub get: PropAccess,
    pub set: PropAccess,
    pub meta: Seq<MetaV>,
}

/// Mathematical model of [`Class`].
pub struct ClassV {
    pub name: Seq<char>,
    pub line: int,
    pub type_params: Seq<Seq<char>>,
    pub extends: Option<TypeV>,
    pub implements: Seq<TypeV>,
    pub is_extern: bool,
    pub is_final: bool,
    pub is_abstract: bool,
    pub abstract_underlying: Option<TypeV>,
    pub meta: Seq<MetaV>,
    pub fields: Seq<FieldV>,
    pub methods: Seq<FunctionV>,
    pub ctor: Option<FunctionV>,
}

/// Mathematical model of [`Interface`].
pub struct InterfaceV {
    pub name: Seq<char>,
    pub line: int,
    pub is_extern: bool,
    pub type_params: Seq<Seq<char>>,
    pub extends: Seq<TypeV>,
    pub meta: Seq<MetaV>,
    pub methods: Seq<FunctionV>,
    pub fields: Seq<FieldV>,
}

/// Mathematical model of [`EnumVariant`].
pub struct EnumVariantV {
    pub name: Seq<char>,
    pub params: Seq<ParamV>,
    pub value: Option<ExprV>,
}

/// Mathematical model of [`Enum`].
pub struct EnumV {
    pub name: Seq<char>,
    pub is_extern: bool,
    pub meta: Seq<MetaV>,
    pub variants: Seq<EnumVariantV>,
    pub underlying: Option<TypeV>,
}

/// Mathematical model of [`TypedefTarget`].
#[allow(inconsistent_fields)]
pub enum TypedefTargetV {
    Alias(TypeV),
    Struct(Seq<StructFieldV>),
}

/// Mathematical model of [`Typedef`].
pub struct TypedefV {
    pub name: Seq<char>,
    pub meta: Seq<MetaV>,
    pub target: TypedefTargetV,
}

/// Mathematical model of [`GlobalVar`].
pub struct GlobalVarV {
    pub name: Seq<char>,
    pub ty: Option<TypeV>,
    pub init: Option<ExprV>,
    pub is_final: bool,
    pub is_extern: bool,
    pub access: Access,
    pub meta: Seq<MetaV>,
}

/// Mathematical model of [`Decl`].
#[allow(inconsistent_fields)]
pub enum DeclV {
    Class(Box<ClassV>),
    Interface(InterfaceV),
    Enum(EnumV),
    Typedef(TypedefV),
    Global(GlobalVarV),
    Function(FunctionV),
    Unsupported { feature: Seq<char>, line: int },
}

/// Mathematical model of [`Import`].
pub struct ImportV {
    pub path: Seq<Seq<char>>,
    pub wildcard: bool,
    pub alias: Option<Seq<char>>,
}

/// Mathematical model of [`Using`].
pub struct UsingV {
    pub path: Seq<Seq<char>>,
    pub line: int,
}

/// Mathematical model of [`File`].
pub struct FileV {
    pub package: Seq<Seq<char>>,
    pub imports: Seq<ImportV>,
    pub usings: Seq<UsingV>,
    pub decls: Seq<DeclV>,
    pub meta: Seq<MetaV>,
}

impl Meta {
    /// The value with every string and list seen as a sequence.
    pub open spec fn v(self) -> MetaV
    {
        MetaV {
            name: self.name@,
            args: texts(self.args@),
        }
    }
}

impl Type {
    /// The value with every string and list seen as a sequence.
    #[verifier::opaque]
    pub open spec fn v(self) -> TypeV
        decreases self,
    {
        match self {
            Type::Named { path, params, optional, line } => TypeV::Named {
                path: texts(path@),
                params: types_v(params@),
                optional: optional,
                line: line as int,
            },
            Type::Anon(a) => TypeV::Anon(struct_fields_v(a@)),
            Type::Func { params, ret } => TypeV::Func {
                params: types_v(params@),
                ret: Box::new(ret.v()),
            },
        }
    }
}

/// The model of this form, from the models of its parts.
pub broadcast proof fn type_named_model(path: Vec<String>, params: Vec<Type>, optional: bool, line: usize)
    ensures
        #[trigger] (Type::Named { path, params, optional, line }).v() == (TypeV::Named { path: texts(path@), params: types_v(params@), optional: optional, line: line as int }),
{
    reveal(Type::v);
    reveal(types_v);
}

/// The model of this form, from the models of its parts.
pub broadcast proof fn type_anon_model(a: Vec<StructField>)
    ensures
        #[trigger] Type::Anon(a).v() == TypeV::Anon(struct_fields_v(a@)),
{
    reveal(StructField::v);
    reveal(Type::v);
    reveal(struct_fields_v);
}

/// The model of this form, from the models of its parts.
pub broadcast proof fn type_func_model(params: Vec<Type>, ret: Box<Type>)
    ensures
        #[trigger] (Type::Func { params, ret }).v() == (TypeV::Func { params: types_v(params@), ret: Box::new(ret.v()) }),
{
    reveal(Type::v);
    reveal(types_v);
}

impl StructField {
    /// The value with every string and list seen as a sequence.
    #[verifier::opaque]
    pub open spec fn v(self) -> StructFieldV
        decreases self,
    {
        StructFieldV {
            name: self.name@,
            optional: self.optional,
            ty: self.ty.v(),
        }
    }
}

/// The model of this form, from the models of its parts.
pub broadcast proof fn struct_field_model(x: StructField)
    ensures
        #[trigger] x.v() == (StructFieldV { name: x.name@, optional: x.optional, ty: x.ty.v() }),
{
    reveal(StructField::v);
    reveal(Type::v);
}

impl Expr {
    /// The value with every string and list seen as a sequence.
    #[verifier::opaque]
    pub open spec fn v(self) -> ExprV
        decreases self,
    {
        match self {
            Expr::Int(a) => ExprV::Int(a@),
            Expr::Float(a) => ExprV::Float(a@),
            Expr::Str { raw, interpolated } => ExprV::Str {
                raw: raw@,
                interpolated: interpolated,
            },
            Expr::Bool(a) => ExprV::Bool(a),
            Expr::Null => ExprV::Null,
            Expr::This => ExprV::This,
            Expr::Super => ExprV::Super,
            Expr::Ident(a) => ExprV::Ident(a@),
            Expr::Field(a, b) => ExprV::Field(Box::new(a.v()), b@),
            Expr::Index(a, b) => ExprV::Index(Box::new(a.v()), Box::new(b.v())),
            Expr::Call(a, b) => ExprV::Call(Box::new(a.v()), exprs_v(b@)),
            Expr::New(a, b) => ExprV::New(a.v(), exprs_v(b@)),
            Expr::Unary { op, expr, prefix } => ExprV::Unary {
                op: op,
                expr: Box::new(expr.v()),
                prefix: prefix,
            },
            Expr::Binary { op, lhs, rhs } => ExprV::Binary {
                op: op,
                lhs: Box::new(lhs.v()),
                rhs: Box::new(rhs.v()),
            },
            Expr::Ternary { cond, then, els } => ExprV::Ternary {
                cond: Box::new(cond.v()),
                then: Box::new(then.v()),
                els: Box::new(els.v()),
            },
            Expr::Assign { op, target, value } => ExprV::Assign {
                op: op,
                target: Box::new(target.v()),
                value: Box::new(value.v()),
            },
            Expr::NullCoalesce(a, b) => ExprV::NullCoalesce(Box::new(a.v()), Box::new(b.v())),
            Expr::SafeField(a, b) => ExprV::SafeField(Box::new(a.v()), b@),
            Expr::ArrayLit(a) => ExprV::ArrayLit(exprs_v(a@)),
            Expr::MapLit(a) => ExprV::MapLit(expr_exprs_v(a@)),
            Expr::ObjectLit(a) => ExprV::ObjectLit(text_exprs_v(a@)),
            Expr::Comprehension { var, value_var, iter, guard, body } => ExprV::Comprehension {
                var: var@,
                value_var: (match value_var { Some(y) => Some(y@), None => None }),
                iter: Box::new(iter.v()),
                guard: (match guard { Some(y) => Some(Box::new(y.v())), None => None }),
                body: body.v(),
            },
            Expr::Lambda { params, ret, body } => ExprV::Lambda {
                params: params_v(params@),
                ret: (match ret { Some(y) => Some(y.v()), None => None }),
                body: Box::new(body.v()),
            },
            Expr::Cast { expr, ty } => ExprV::Cast {
                expr: Box::new(expr.v()),
                ty: (match ty { Some(y) => Some(y.v()), None => None }),
            },
            Expr::TypeCheck { expr, ty } => ExprV::TypeCheck {
                expr: Box::new(expr.v()),
                ty: ty.v(),
            },
            Expr::Is { expr, ty } => ExprV::Is {
                expr: Box::new(expr.v()),
                ty: ty.v(),
            },
            Expr::Switch { subject, cases, default } => ExprV::Switch {
                subject: Box::new(subject.v()),
                cases: cases_v(cases@),
                default: (match default { Some(y) => Some(stmts_v(y@)), None => None }),
            },
            Expr::If { cond, then, els } => ExprV::If {
                cond: Box::new(cond.v()),
                then: Box::new(then.v()),
                els: (match els { Some(y) => Some(Box::new(y.v())), None => None }),
            },
            Expr::Block(a) => ExprV::Block(stmts_v(a@)),
            Expr::Paren(a) => ExprV::Paren(Box::new(a.v())),
            Expr::Untyped(a) => ExprV::Untyped(Box::new(a.v())),
            Expr::Regex { pattern, flags } => ExprV::Regex {
                pattern: pattern@,
                flags: flags@,
            },
            Expr::Meta(a, b) => ExprV::Meta(metas_v(a@), Box::new(b.v())),
        }
    }
}

/// The model of this form, from the models of its parts.
pub broadcast proof fn expr_int_model(a: String)
    ensures
        #[trigger] Expr::Int(a).v() == ExprV::Int(a@),
{
    reveal(Expr::v);
}

/// The model of this form, from the models of its parts.
pub broadcast proof fn expr_float_model(a: String)
    ensures
        #[trigger] Expr::Float(a).v() == ExprV::Float(a@),
{
    reveal(Expr::v);
}

/// The model of this form, from the models of its parts.
pub broadcast proof fn expr_str_model(raw: String, interpolated: bool)
    ensures
        #[trigger] (Expr::Str { raw, interpolated }).v() == (ExprV::Str { raw: raw@, interpolated: interpolated }),
{
    reveal(Expr::v);
}

/// The model of this form, from the models of its parts.
pub broadcast proof fn expr_bool_model(a: bool)
    ensures
        #[trigger] Expr::Bool(a).v() == ExprV::Bool(a),
{
    reveal(Expr::v);
}

/// The model of this form, from the models of its parts.
pub broadcast proof fn expr_null_model()
    ensures
        #[trigger] Expr::Null.v() == ExprV::Null,
{
    reveal(Expr::v);
}

/// The model of this form, from the models of its parts.
pub broadcast proof fn expr_this_model()
    ensures
        #[trigger] Expr::This.v() == ExprV::This,
{
    reveal(Expr::v);
}

/// The model of this form, from the models of its parts.
pub broadcast proof fn expr_super_model()
    ensures
        #[trigger] Expr::Super.v() == ExprV::Super,
{
    reveal(Expr::v);
}

/// The model of this form, from the models of its parts.
pub broadcast proof fn expr_ident_model(a: String)
    ensures
        #[trigger] Expr::Ident(a).v() == ExprV::Ident(a@),
{
    reveal(Expr::v);
}

/// The model of this form, from the models of its parts.
pub broadcast proof fn expr_field_model(a: Box<Expr>, b: String)
    ensures
        #[trigger] Expr::Field(a, b).v() == ExprV::Field(Box::new(a.v()), b@),
{
    reveal(Expr::v);
}

/// The model of this form, from the models of its parts.
pub broadcast proof fn expr_index_model(a: Box<Expr>, b: Box<Expr>)
    ensures
        #[trigger] Expr::Index(a, b).v() == ExprV::Index(Box::new(a.v()), Box::new(b.v())),
{
    reveal(Expr::v);
}

/// The model of this form, from the models of its parts.
pub broadcast proof fn expr_call_model(a: Box<Expr>, b: Vec<Expr>)
    ensures
        #[trigger] Expr::Call(a, b).v() == ExprV::Call(Box::new(a.v()), exprs_v(b@)),
{
    reveal(Expr::v);
    reveal(exprs_v);
}

/// The model of this form, from the models of its parts.
pub broadcast proof fn expr_new_model(a: Type, b: Vec<Expr>)
    ensures
        #[trigger] Expr::New(a, b).v() == ExprV::New(a.v(), exprs_v(b@)),
{
    reveal(Expr::v);
    reveal(Type::v);
    reveal(exprs_v);
}

/// The model of this form, from the models of its parts.
pub broadcast proof fn expr_unary_model(op: UnOp, expr: Box<Expr>, prefix: bool)
    ensures
        #[trigger] (Expr::Unary { op, expr, prefix }).v() == (ExprV::Unary { op: op, expr: Box::new(expr.v()), prefix: prefix }),
{
    reveal(Expr::v);
}

/// The model of this form, from the models of its parts.
pub broadcast proof fn expr_binary_model(op: BinOp, lhs: Box<Expr>, rhs: Box<Expr>)
    ensures
        #[trigger] (Expr::Binary { op, lhs, rhs }).v() == (ExprV::Binary { op: op, lhs: Box::new(lhs.v()), rhs: Box::new(rhs.v()) }),
{
    reveal(Expr::v);
}

/// The model of this form, from the models of its parts.
pub broadcast proof fn expr_ternary_model(cond: Box<Expr>, then: Box<Expr>, els: Box<Expr>)
    ensures
        #[trigger] (Expr::Ternary { cond, then, els }).v() == (ExprV::Ternary { cond: Box::new(cond.v()), then: Box::new(then.v()), els: Box::new(els.v()) }),
{
    reveal(Expr::v);
}

/// The model of this form, from the models of its parts.
pub broadcast proof fn expr_assign_model(op: Option<BinOp>, target: Box<Expr>, value: Box<Expr>)
    ensures
        #[trigger] (Expr::Assign { op, target, value }).v() == (ExprV::Assign { op: op, target: Box::new(target.v()), value: Box::new(value.v()) }),
{
    reveal(Expr::v);
}

/// The model of this form, from the models of its parts.
pub broadcast proof fn expr_null_coalesce_model(a: Box<Expr>, b: Box<Expr>)
    ensures
        #[trigger] Expr::NullCoalesce(a, b).v() == ExprV::NullCoalesce(Box::new(a.v()), Box::new(b.v())),
{
    reveal(Expr::v);
}

/// The model of this form, from the models of its parts.
pub broadcast proof fn expr_safe_field_model(a: Box<Expr>, b: String)
    ensures
        #[trigger] Expr::SafeField(a, b).v() == ExprV::SafeField(Box::new(a.v()), b@),
{
    reveal(Expr::v);
}

/// The model of this form, from the models of its parts.
pub broadcast proof fn expr_array_lit_model(a: Vec<Expr>)
    ensures
        #[trigger] Expr::ArrayLit(a).v() == ExprV::ArrayLit(exprs_v(a@)),
{
    reveal(Expr::v);
    reveal(exprs_v);
}

/// The model of this form, from the models of its parts.
pub broadcast proof fn expr_map_lit_model(a: Vec<(Expr, Expr)>)
    ensures
        #[trigger] Expr::MapLit(a).v() == ExprV::MapLit(expr_exprs_v(a@)),
{
    reveal(Expr::v);
    reveal(expr_exprs_v);
}

/// The model of this form, from the models of its parts.
pub broadcast proof fn expr_object_lit_model(a: Vec<(String, Expr)>)
    ensures
        #[trigger] Expr::ObjectLit(a).v() == ExprV::ObjectLit(text_exprs_v(a@)),
{
    reveal(Expr::v);
    reveal(text_exprs_v);
}

/// The model of this form, from the models of its parts.
pub broadcast proof fn expr_comprehension_model(var: String, value_var: Option<String>, iter: Box<Iterable>, guard: Option<Box<Expr>>, body: ComprBody)
    ensures
        #[trigger] (Expr::Comprehension { var, value_var, iter, guard, body }).v() == (ExprV::Comprehension { var: var@, value_var: (match value_var { Some(y) => Some(y@), None => None }), iter: Box::new(iter.v()), guard: (match guard { Some(y) => Some(Box::new(y.v())), None => None }), body: body.v() }),
{
    reveal(ComprBody::v);
    reveal(Expr::v);
    reveal(Iterable::v);
}

/// The model of this form, from the models of its parts.
pub broadcast proof fn expr_lambda_model(params: Vec<Param>, ret: Option<Type>, body: Box<LambdaBody>)
    ensures
        #[trigger] (Expr::Lambda { params, ret, body }).v() == (ExprV::Lambda { params: params_v(params@), ret: (match ret { Some(y) => Some(y.v()), None => None }), body: Box::new(body.v()) }),
{
    reveal(Expr::v);
    reveal(LambdaBody::v);
    reveal(Param::v);
    reveal(Type::v);
    reveal(params_v);
}

/// The model of this form, from the models of its parts.
pub broadcast proof fn expr_cast_model(expr: Box<Expr>, ty: Option<Type>)
    ensures
        #[trigger] (Expr::Cast { expr, ty }).v() == (ExprV::Cast { expr: Box::new(expr.v()), ty: (match ty { Some(y) => Some(y.v()), None => None }) }),
{
    reveal(Expr::v);
    reveal(Type::v);
}

/// The model of this form, from the models of its parts.
pub broadcast proof fn expr_type_check_model(expr: Box<Expr>, ty: Type)
    ensures
        #[trigger] (Expr::TypeCheck { expr, ty }).v() == (ExprV::TypeCheck { expr: Box::new(expr.v()), ty: ty.v() }),
{
    reveal(Expr::v);
    reveal(Type::v);
}

/// The model of this form, from the models of its parts.
pub broadcast proof fn expr_is_model(expr: Box<Expr>, ty: Type)
    ensures
        #[trigger] (Expr::Is { expr, ty }).v() == (ExprV::Is { expr: Box::new(expr.v()), ty: ty.v() }),
{
    reveal(Expr::v);
    reveal(Type::v);
}

/// The model of this form, from the models of its parts.
pub broadcast proof fn expr_switch_model(subject: Box<Expr>, cases: Vec<Case>, default: Option<Vec<Stmt>>)
    ensures
        #[trigger] (Expr::Switch { subject, cases, default }).v() == (ExprV::Switch { subject: Box::new(subject.v()), cases: cases_v(cases@), default: (match default { Some(y) => Some(stmts_v(y@)), None => None }) }),
{
    reveal(Case::v);
    reveal(Expr::v);
    reveal(Stmt::v);
    reveal(cases_v);
    reveal(stmts_v);
}

/// The model of this form, from the models of its parts.
pub broadcast proof fn expr_if_model(cond: Box<Expr>, then: Box<Expr>, els: Option<Box<Expr>>)
    ensures
        #[trigger] (Expr::If { cond, then, els }).v() == (ExprV::If { cond: Box::new(cond.v()), then: Box::new(then.v()), els: (match els { Some(y) => Some(Box::new(y.v())), None => None }) }),
{
    reveal(Expr::v);
}

/// The model of this form, from the models of its parts.
pub broadcast proof fn expr_block_model(a: Vec<Stmt>)
    ensures
        #[trigger] Expr::Block(a).v() == ExprV::Block(stmts_v(a@)),
{
    reveal(Expr::v);
    reveal(Stmt::v);
    reveal(stmts_v);
}

/// The model of this form, from the models of its parts.
pub broadcast proof fn expr_paren_model(a: Box<Expr>)
    ensures
        #[trigger] Expr::Paren(a).v() == ExprV::Paren(Box::new(a.v())),
{
    reveal(Expr::v);
}

/// The model of this form, from the models of its parts.
pub broadcast proof fn expr_untyped_model(a: Box<Expr>)
    ensures
        #[trigger] Expr::Untyped(a).v() == ExprV::Untyped(Box::new(a.v())),
{
    reveal(Expr::v);
}

/// The model of this form, from the models of its parts.
pub broadcast proof fn expr_regex_model(pattern: String, flags: String)
    ensures
        #[trigger] (Expr::Regex { pattern, flags }).v() == (ExprV::Regex { pattern: pattern@, flags: flags@ }),
{
    reveal(Expr::v);
}

/// The model of this form, from the models of its parts.
pub broadcast proof fn expr_meta_model(a: Vec<Meta>, b: Box<Expr>)
    ensures
        #[trigger] Expr::Meta(a, b).v() == ExprV::Meta(metas_v(a@), Box::new(b.v())),
{
    reveal(Expr::v);
    reveal(metas_v);
}

impl ComprBody {
    /// The value with every string and list seen as a sequence.
    #[verifier::opaque]
    pub open spec fn v(self) -> ComprBodyV
        decreases self,
    {
        match self {
            ComprBody::Value(a) => ComprBodyV::Value(Box::new(a.v())),
            ComprBody::KeyValue(a, b) => ComprBodyV::KeyValue(Box::new(a.v()), Box::new(b.v())),
        }
    }
}

/// The model of this form, from the models of its parts.
pub broadcast proof fn compr_body_value_model(a: Box<Expr>)
    ensures
        #[trigger] ComprBody::Value(a).v() == ComprBodyV::Value(Box::new(a.v())),
{
    reveal(ComprBody::v);
    reveal(Expr::v);
}

/// The model of this form, from the models of its parts.
pub broadcast proof fn compr_body_key_value_model(a: Box<Expr>, b: Box<Expr>)
    ensures
        #[trigger] ComprBody::KeyValue(a, b).v() == ComprBodyV::KeyValue(Box::new(a.v()), Box::new(b.v())),
{
    reveal(ComprBody::v);
    reveal(Expr::v);
}

impl LambdaBody {
    /// The value with every string and list seen as a sequence.
    #[verifier::opaque]
    pub open spec fn v(self) -> LambdaBodyV
        decreases self,
    {
        match self {
            LambdaBody::Expr(a) => LambdaBodyV::Expr(a.v()),
            LambdaBody::Block(a) => LambdaBodyV::Block(stmts_v(a@)),
        }
    }
}

/// The model of this form, from the models of its parts.
pub broadcast proof fn lambda_body_expr_model(a: Expr)
    ensures
        #[trigger] LambdaBody::Expr(a).v() == LambdaBodyV::Expr(a.v()),
{
    reveal(Expr::v);
    reveal(LambdaBody::v);
}

/// The model of this form, from the models of its parts.
pub broadcast proof fn lambda_body_block_model(a: Vec<Stmt>)
    ensures
        #[trigger] LambdaBody::Block(a).v() == LambdaBodyV::Block(stmts_v(a@)),
{
    reveal(LambdaBody::v);
    reveal(Stmt::v);
    reveal(stmts_v);
}

impl Iterable {
    /// The value with every string and list seen as a sequence.
    #[verifier::opaque]
    pub open spec fn v(self) -> IterableV
        decreases self,
    {
        match self {
            Iterable::Range(a, b) => IterableV::Range(a.v(), b.v()),
            Iterable::Coll(a) => IterableV::Coll(a.v()),
        }
    }
}

/// The model of this form, from the models of its parts.
pub broadcast proof fn iterable_range_model(a: Expr, b: Expr)
    ensures
        #[trigger] Iterable::Range(a, b).v() == IterableV::Range(a.v(), b.v()),
{
    reveal(Expr::v);
    reveal(Iterable::v);
}

/// The model of this form, from the models of its parts.
pub broadcast proof fn iterable_coll_model(a: Expr)
    ensures
        #[trigger] Iterable::Coll(a).v() == IterableV::Coll(a.v()),
{
    reveal(Expr::v);
    reveal(Iterable::v);
}

impl Stmt {
    /// The value with every string and list seen as a sequence.
    #[verifier::opaque]
    pub open spec fn v(self) -> StmtV
        decreases self,
    {
        match self {
            Stmt::Var { name, ty, init, is_final, delete, sink, line } => StmtV::Var {
                name: name@,
                ty: (match ty { Some(y) => Some(y.v()), None => None }),
                init: (match init { Some(y) => Some(y.v()), None => None }),
                is_final: is_final,
                delete: delete,
                sink: sink,
                line: line as int,
            },
            Stmt::Expr(a, b) => StmtV::Expr(a.v(), b as int),
            Stmt::If { cond, then, els, line } => StmtV::If {
                cond: cond.v(),
                then: Box::new(then.v()),
                els: (match els { Some(y) => Some(Box::new(y.v())), None => None }),
                line: line as int,
            },
            Stmt::For { var, value_var, iter, body, line } => StmtV::For {
                var: var@,
                value_var: (match value_var { Some(y) => Some(y@), None => None }),
                iter: iter.v(),
                body: Box::new(body.v()),
                line: line as int,
            },
            Stmt::While { cond, body, do_while, line } => StmtV::While {
                cond: cond.v(),
                body: Box::new(body.v()),
                do_while: do_while,
                line: line as int,
            },
            Stmt::Switch { subject, cases, default, line } => StmtV::Switch {
                subject: subject.v(),
                cases: cases_v(cases@),
                default: (match default { Some(y) => Some(stmts_v(y@)), None => None }),
                line: line as int,
            },
            Stmt::Return(a, b) => StmtV::Return((match a { Some(y) => Some(y.v()), None => None }), b as int),
            Stmt::Break => StmtV::Break,
            Stmt::Continue => StmtV::Continue,
            Stmt::Throw(a, b) => StmtV::Throw(a.v(), b as int),
            Stmt::Try { body, catches, line } => StmtV::Try {
                body: Box::new(body.v()),
                catches: catchs_v(catches@),
                line: line as int,
            },
            Stmt::Block(a) => StmtV::Block(stmts_v(a@)),
            Stmt::Verbatim { code, line } => StmtV::Verbatim {
                code: code@,
                line: line as int,
            },
        }
    }
}

/// The model of this form, from the models of its parts.
pub broadcast proof fn stmt_var_model(name: String, ty: Option<Type>, init: Option<Expr>, is_final: bool, delete: bool, sink: bool, line: usize)
    ensures
        #[trigger] (Stmt::Var { name, ty, init, is_final, delete, sink, line }).v() == (StmtV::Var { name: name@, ty: (match ty { Some(y) => Some(y.v()), None => None }), init: (match init { Some(y) => Some(y.v()), None => None }), is_final: is_final, delete: delete, sink: sink, line: line as int }),
{
    reveal(Expr::v);
    reveal(Stmt::v);
    reveal(Type::v);
}

/// The model of this form, from the models of its parts.
pub broadcast proof fn stmt_expr_model(a: Expr, b: usize)
    ensures
        #[trigger] Stmt::Expr(a, b).v() == StmtV::Expr(a.v(), b as int),
{
    reveal(Expr::v);
    reveal(Stmt::v);
}

/// The model of this form, from the models of its parts.
pub broadcast proof fn stmt_if_model(cond: Expr, then: Box<Stmt>, els: Option<Box<Stmt>>, line: usize)
    ensures
        #[trigger] (Stmt::If { cond, then, els, line }).v() == (StmtV::If { cond: cond.v(), then: Box::new(then.v()), els: (match els { Some(y) => Some(Box::new(y.v())), None => None }), line: line as int }),
{
    reveal(Expr::v);
    reveal(Stmt::v);
}

/// The model of this form, from the models of its parts.
pub broadcast proof fn stmt_for_model(var: String, value_var: Option<String>, iter: Iterable, body: Box<Stmt>, line: usize)
    ensures
        #[trigger] (Stmt::For { var, value_var, iter, body, line }).v() == (StmtV::For { var: var@, value_var: (match value_var { Some(y) => Some(y@), None => None }), iter: iter.v(), body: Box::new(body.v()), line: line as int }),
{
    reveal(Iterable::v);
    reveal(Stmt::v);
}

/// The model of this form, from the models of its parts.
pub broadcast proof fn stmt_while_model(cond: Expr, body: Box<Stmt>, do_while: bool, line: usize)
    ensures
        #[trigger] (Stmt::While { cond, body, do_while, line }).v() == (StmtV::While { cond: cond.v(), body: Box::new(body.v()), do_while: do_while, line: line as int }),
{
    reveal(Expr::v);
    reveal(Stmt::v);
}

/// The model of this form, from the models of its parts.
pub broadcast proof fn stmt_switch_model(subject: Expr, cases: Vec<Case>, default: Option<Vec<Stmt>>, line: usize)
    ensures
        #[trigger] (Stmt::Switch { subject, cases, default, line }).v() == (StmtV::Switch { subject: subject.v(), cases: cases_v(cases@), default: (match default { Some(y) => Some(stmts_v(y@)), None => None }), line: line as int }),
{
    reveal(Case::v);
    reveal(Expr::v);
    reveal(Stmt::v);
    reveal(cases_v);
    reveal(stmts_v);
}

/// The model of this form, from the models of its parts.
pub broadcast proof fn stmt_return_model(a: Option<Expr>, b: usize)
    ensures
        #[trigger] Stmt::Return(a, b).v() == StmtV::Return((match a { Some(y) => Some(y.v()), None => None }), b as int),
{
    reveal(Expr::v);
    reveal(Stmt::v);
}

/// The model of this form, from the models of its parts.
pub broadcast proof fn stmt_break_model()
    ensures
        #[trigger] Stmt::Break.v() == StmtV::Break,
{
    reveal(Stmt::v);
}

/// The model of this form, from the models of its parts.
pub broadcast proof fn stmt_continue_model()
    ensures
        #[trigger] Stmt::Continue.v() == StmtV::Continue,
{
    reveal(Stmt::v);
}

/// The model of this form, from the models of its parts.
pub broadcast proof fn stmt_throw_model(a: Expr, b: usize)
    ensures
        #[trigger] Stmt::Throw(a, b).v() == StmtV::Throw(a.v(), b as int),
{
    reveal(Expr::v);
    reveal(Stmt::v);
}

/// The model of this form, from the models of its parts.
pub broadcast proof fn stmt_try_model(body: Box<Stmt>, catches: Vec<Catch>, line: usize)
    ensures
        #[trigger] (Stmt::Try { body, catches, line }).v() == (StmtV::Try { body: Box::new(body.v()), catches: catchs_v(catches@), line: line as int }),
{
    reveal(Catch::v);
    reveal(Stmt::v);
    reveal(catchs_v);
}

/// The model of this form, from the models of its parts.
pub broadcast proof fn stmt_block_model(a: Vec<Stmt>)
    ensures
        #[trigger] Stmt::Block(a).v() == StmtV::Block(stmts_v(a@)),
{
    reveal(Stmt::v);
    reveal(stmts_v);
}

/// The model of this form, from the models of its parts.
pub broadcast proof fn stmt_verbatim_model(code: String, line: usize)
    ensures
        #[trigger] (Stmt::Verbatim { code, line }).v() == (StmtV::Verbatim { code: code@, line: line as int }),
{
    reveal(Stmt::v);
}

impl Case {
    /// The value with every string and list seen as a sequence.
    #[verifier::opaque]
    pub open spec fn v(self) -> CaseV
        decreases self,
    {
        CaseV {
            patterns: exprs_v(self.patterns@),
            body: stmts_v(self.body@),
        }
    }
}

/// The model of this form, from the models of its parts.
pub broadcast proof fn case_model(x: Case)
    ensures
        #[trigger] x.v() == (CaseV { patterns: exprs_v(x.patterns@), body: stmts_v(x.body@) }),
{
    reveal(Case::v);
    reveal(Expr::v);
    reveal(Stmt::v);
    reveal(exprs_v);
    reveal(stmts_v);
}

impl Catch {
    /// The value with every string and list seen as a sequence.
    #[verifier::opaque]
    pub open spec fn v(self) -> CatchV
        decreases self,
    {
        CatchV {
            name: self.name@,
            ty: (match self.ty { Some(y) => Some(y.v()), None => None }),
            body: stmts_v(self.body@),
        }
    }
}

/// The model of this form, from the models of its parts.
pub broadcast proof fn catch_model(x: Catch)
    ensures
        #[trigger] x.v() == (CatchV { name: x.name@, ty: (match x.ty { Some(y) => Some(y.v()), None => None }), body: stmts_v(x.body@) }),
{
    reveal(Catch::v);
    reveal(Stmt::v);
    reveal(Type::v);
    reveal(stmts_v);
}

impl Param {
    /// The value with every string and list seen as a sequence.
    #[verifier::opaque]
    pub open spec fn v(self) -> ParamV
        decreases self,
    {
        ParamV {
            name: self.name@,
            ty: (match self.ty { Some(y) => Some(y.v()), None => None }),
            optional: self.optional,
            default: (match self.default { Some(y) => Some(y.v()), None => None }),
            rest: self.rest,
            meta: metas_v(self.meta@),
        }
    }
}

/// The model of this form, from the models of its parts.
pub broadcast proof fn param_model(x: Param)
    ensures
        #[trigger] x.v() == (ParamV { name: x.name@, ty: (match x.ty { Some(y) => Some(y.v()), None => None }), optional: x.optional, default: (match x.default { Some(y) => Some(y.v()), None => None }), rest: x.rest, meta: metas_v(x.meta@) }),
{
    reveal(Expr::v);
    reveal(Param::v);
    reveal(Type::v);
    reveal(metas_v);
}

impl FnModifiers {
    /// The value with every string and list seen as a sequence.
    pub open spec fn v(self) -> FnModifiersV
    {
        FnModifiersV {
            is_static: self.is_static,
            is_inline: self.is_inline,
            is_extern: self.is_extern,
            is_override: self.is_override,
            is_final: self.is_final,
            is_dynamic: self.is_dynamic,
            is_abstract: self.is_abstract,
            is_macro: self.is_macro,
        }
    }
}

impl Function {
    /// The value with every string and list seen as a sequence.
    pub open spec fn v(self) -> FunctionV
    {
        FunctionV {
            name: (match self.name { Some(y) => Some(y@), None => None }),
            type_params: texts(self.type_params@),
            params: params_v(self.params@),
            ret: (match self.ret { Some(y) => Some(y.v()), None => None }),
            body: (match self.body { Some(y) => Some(stmts_v(y@)), None => None }),
            access: self.access,
            modifiers: self.modifiers.v(),
            meta: metas_v(self.meta@),
        }
    }
}

impl Field {
    /// The value with every string and list seen as a sequence.
    pub open spec fn v(self) -> FieldV
    {
        FieldV {
            name: self.name@,
            ty: (match self.ty { Some(y) => Some(y.v()), None => None }),
            init: (match self.init { Some(y) => Some(y.v()), None => None }),
            access: self.access,
            is_static: self.is_static,
            is_final: self.is_final,
            is_inline: self.is_inline,
            get: self.get,
            set: self.set,
            meta: metas_v(self.meta@),
        }
    }
}

impl Class {
    /// The value with every string and list seen as a sequence.
    pub open spec fn v(self) -> ClassV
    {
        ClassV {
            name: self.name@,
            line: self.line as int,
            type_params: texts(self.type_params@),
            extends: (match self.extends { Some(y) => Some(y.v()), None => None }),
            implements: types_v(self.implements@),
            is_extern: self.is_extern,
            is_final: self.is_final,
            is_abstract: self.is_abstract,
            abstract_underlying: (match self.abstract_underlying { Some(y) => Some(y.v()), None => None }),
            meta: metas_v(self.meta@),
            fields: fields_v(self.fields@),
            methods: functions_v(self.methods@),
            ctor: (match self.ctor { Some(y) => Some(y.v()), None => None }),
        }
    }
}

impl Interface {
    /// The value with every string and list seen as a sequence.
    pub open spec fn v(self) -> InterfaceV
    {
        InterfaceV {
            name: self.name@,
            line: self.line as int,
            is_extern: self.is_extern,
            type_params: texts(self.type_params@),
            extends: types_v(self.extends@),
            meta: metas_v(self.meta@),
            methods: functions_v(self.methods@),
            fields: fields_v(self.fields@),
        }
    }
}

impl EnumVariant {
    /// The value with every string and list seen as a sequence.
    pub open spec fn v(self) -> EnumVariantV
    {
        EnumVariantV {
            name: self.name@,
            params: params_v(self.params@),
            value: (match self.value { Some(y) => Some(y.v()), None => None }),
        }
    }
}

impl Enum {
    /// The value with every string and list seen as a sequence.
    pub open spec fn v(self) -> EnumV
    {
        EnumV {
            name: self.name@,
            is_extern: self.is_extern,
            meta: metas_v(self.meta@),
            variants: enum_variants_v(self.variants@),
            underlying: (match self.underlying { Some(y) => Some(y.v()), None => None }),
        }
    }
}

impl TypedefTarget {
    /// The value with every string and list seen as a sequence.
    pub open spec fn v(self) -> TypedefTargetV
    {
        match self {
            TypedefTarget::Alias(a) => TypedefTargetV::Alias(a.v()),
            TypedefTarget::Struct(a) => TypedefTargetV::Struct(struct_fields_v(a@)),
        }
    }
}

impl Typedef {
    /// The value with every string and list seen as a sequence.
    pub open spec fn v(self) -> TypedefV
    {
        TypedefV {
            name: self.name@,
            meta: metas_v(self.meta@),
            target: self.target.v(),
        }
    }
}

impl GlobalVar {
    /// The value with every string and list seen as a sequence.
    pub open spec fn v(self) -> GlobalVarV
    {
        GlobalVarV {
            name: self.name@,
            ty: (match self.ty { Some(y) => Some(y.v()), None => None }),
            init: (match self.init { Some(y) => Some(y.v()), None => None }),
            is_final: self.is_final,
            is_extern: self.is_extern,
            access: self.access,
            meta: metas_v(self.meta@),
        }
    }
}

impl Decl {
    /// The value with every string and list seen as a sequence.
    pub open spec fn v(self) -> DeclV
    {
        match self {
            Decl::Class(a) => DeclV::Class(Box::new(a.v())),
            Decl::Interface(a) => DeclV::Interface(a.v()),
            Decl::Enum(a) => DeclV::Enum(a.v()),
            Decl::Typedef(a) => DeclV::Typedef(a.v()),
            Decl::Global(a) => DeclV::Global(a.v()),
            Decl::Function(a) => DeclV::Function(a.v()),
            Decl::Unsupported { feature, line } => DeclV::Unsupported {
                feature: feature@,
                line: line as int,
            },
        }
    }
}

impl Import {
    /// The value with every string and list seen as a sequence.
    pub open spec fn v(self) -> ImportV
    {
        ImportV {
            path: texts(self.path@),
            wildcard: self.wildcard,
            alias: (match self.alias { Some(y) => Some(y@), None => None }),
        }
    }
}

impl Using {
    /// The value with every string and list seen as a sequence.
    pub open spec fn v(self) -> UsingV
    {
        UsingV {
            path: texts(self.path@),
            line: self.line as int,
        }
    }
}

impl File {
    /// The value with every string and list seen as a sequence.
    pub open spec fn v(self) -> FileV
    {
        FileV {
            package: texts(self.package@),
            imports: imports_v(self.imports@),
            usings: usings_v(self.usings@),
            decls: decls_v(self.decls@),
            meta: metas_v(self.meta@),
        }
    }
}

/// The models of a list, element by element.
#[verifier::opaque]
pub open spec fn cases_v(s: Seq<Case>) -> Seq<CaseV>
    decreases s,
{
    Seq::new(s.len(), |i: int| if 0 <= i < s.len() { s[i].v() } else { arbitrary() })
}

/// A list and its model are equally long.
pub broadcast proof fn cases_v_len(s: Seq<Case>)
    ensures
        #[trigger] cases_v(s).len() == s.len(),
{
    reveal(cases_v);
    reveal(Case::v);
}

/// The model of a list holds the models of its elements.
pub broadcast proof fn cases_v_index(s: Seq<Case>, i: int)
    requires
        0 <= i < s.len(),
    ensures
        #[trigger] cases_v(s)[i] == s[i].v(),
{
    reveal(cases_v);
    reveal(Case::v);
}

/// Appending to a list appends to its model.
pub broadcast proof fn cases_v_push(s: Seq<Case>, x: Case)
    ensures
        #[trigger] cases_v(s.push(x)) == cases_v(s).push(x.v()),
{
    reveal(cases_v);
    reveal(Case::v);
    assert(cases_v(s.push(x)) =~= cases_v(s).push(x.v()));
}

/// An empty list has an empty model.
pub broadcast proof fn cases_v_empty()
    ensures
        #[trigger] cases_v(Seq::<Case>::empty()) == Seq::<CaseV>::empty(),
{
    reveal(cases_v);
    reveal(Case::v);
    assert(cases_v(Seq::<Case>::empty()) =~= Seq::<CaseV>::empty());
}

/// The model of two lists put together.
pub broadcast proof fn cases_v_add(a: Seq<Case>, b: Seq<Case>)
    ensures
        #[trigger] cases_v(a + b) == cases_v(a) + cases_v(b),
{
    reveal(cases_v);
    reveal(Case::v);
    assert(cases_v(a + b) =~= cases_v(a) + cases_v(b));
}

/// The models of a list, element by element.
#[verifier::opaque]
pub open spec fn catchs_v(s: Seq<Catch>) -> Seq<CatchV>
    decreases s,
{
    Seq::new(s.len(), |i: int| if 0 <= i < s.len() { s[i].v() } else { arbitrary() })
}

/// A list and its model are equally long.
pub broadcast proof fn catchs_v_len(s: Seq<Catch>)
    ensures
        #[trigger] catchs_v(s).len() == s.len(),
{
    reveal(catchs_v);
    reveal(Catch::v);
}

/// The model of a list holds the models of its elements.
pub broadcast proof fn catchs_v_index(s: Seq<Catch>, i: int)
    requires
        0 <= i < s.len(),
    ensures
        #[trigger] catchs_v(s)[i] == s[i].v(),
{
    reveal(catchs_v);
    reveal(Catch::v);
}

/// Appending to a list appends to its model.
pub broadcast proof fn catchs_v_push(s: Seq<Catch>, x: Catch)
    ensures
        #[trigger] catchs_v(s.push(x)) == catchs_v(s).push(x.v()),
{
    reveal(catchs_v);
    reveal(Catch::v);
    assert(catchs_v(s.push(x)) =~= catchs_v(s).push(x.v()));
}

/// An empty list has an empty model.
pub broadcast proof fn catchs_v_empty()
    ensures
        #[trigger] catchs_v(Seq::<Catch>::empty()) == Seq::<CatchV>::empty(),
{
    reveal(catchs_v);
    reveal(Catch::v);
    assert(catchs_v(Seq::<Catch>::empty()) =~= Seq::<CatchV>::empty());
}

/// The model of two lists put together.
pub broadcast proof fn catchs_v_add(a: Seq<Catch>, b: Seq<Catch>)
    ensures
        #[trigger] catchs_v(a + b) == catchs_v(a) + catchs_v(b),
{
    reveal(catchs_v);
    reveal(Catch::v);
    assert(catchs_v(a + b) =~= catchs_v(a) + catchs_v(b));
}

/// The models of a list, element by element.
#[verifier::opaque]
pub open spec fn decls_v(s: Seq<Decl>) -> Seq<DeclV> {
    Seq::new(s.len(), |i: int| s[i].v())
}

/// A list and its model are equally long.
pub broadcast proof fn decls_v_len(s: Seq<Decl>)
    ensures
        #[trigger] decls_v(s).len() == s.len(),
{
    reveal(decls_v);
}

/// The model of a list holds the models of its elements.
pub broadcast proof fn decls_v_index(s: Seq<Decl>, i: int)
    requires
        0 <= i < s.len(),
    ensures
        #[trigger] decls_v(s)[i] == s[i].v(),
{
    reveal(decls_v);
}

/// Appending to a list appends to its model.
pub broadcast proof fn decls_v_push(s: Seq<Decl>, x: Decl)
    ensures
        #[trigger] decls_v(s.push(x)) == decls_v(s).push(x.v()),
{
    reveal(decls_v);
    assert(decls_v(s.push(x)) =~= decls_v(s).push(x.v()));
}

/// An empty list has an empty model.
pub broadcast proof fn decls_v_empty()
    ensures
        #[trigger] decls_v(Seq::<Decl>::empty()) == Seq::<DeclV>::empty(),
{
    reveal(decls_v);
    assert(decls_v(Seq::<Decl>::empty()) =~= Seq::<DeclV>::empty());
}

/// The model of two lists put together.
pub broadcast proof fn decls_v_add(a: Seq<Decl>, b: Seq<Decl>)
    ensures
        #[trigger] decls_v(a + b) == decls_v(a) + decls_v(b),
{
    reveal(decls_v);
    assert(decls_v(a + b) =~= decls_v(a) + decls_v(b));
}

/// The models of a list, element by element.
#[verifier::opaque]
pub open spec fn enum_variants_v(s: Seq<EnumVariant>) -> Seq<EnumVariantV> {
    Seq::new(s.len(), |i: int| s[i].v())
}

/// A list and its model are equally long.
pub broadcast proof fn enum_variants_v_len(s: Seq<EnumVariant>)
    ensures
        #[trigger] enum_variants_v(s).len() == s.len(),
{
    reveal(enum_variants_v);
}

/// The model of a list holds the models of its elements.
pub broadcast proof fn enum_variants_v_index(s: Seq<EnumVariant>, i: int)
    requires
        0 <= i < s.len(),
    ensures
        #[trigger] enum_variants_v(s)[i] == s[i].v(),
{
    reveal(enum_variants_v);
}

/// Appending to a list appends to its model.
pub broadcast proof fn enum_variants_v_push(s: Seq<EnumVariant>, x: EnumVariant)
    ensures
        #[trigger] enum_variants_v(s.push(x)) == enum_variants_v(s).push(x.v()),
{
    reveal(enum_variants_v);
    assert(enum_variants_v(s.push(x)) =~= enum_variants_v(s).push(x.v()));
}

/// An empty list has an empty model.
pub broadcast proof fn enum_variants_v_empty()
    ensures
        #[trigger] enum_variants_v(Seq::<EnumVariant>::empty()) == Seq::<EnumVariantV>::empty(),
{
    reveal(enum_variants_v);
    assert(enum_variants_v(Seq::<EnumVariant>::empty()) =~= Seq::<EnumVariantV>::empty());
}

/// The model of two lists put together.
pub broadcast proof fn enum_variants_v_add(a: Seq<EnumVariant>, b: Seq<EnumVariant>)
    ensures
        #[trigger] enum_variants_v(a + b) == enum_variants_v(a) + enum_variants_v(b),
{
    reveal(enum_variants_v);
    assert(enum_variants_v(a + b) =~= enum_variants_v(a) + enum_variants_v(b));
}

/// The models of a list, element by element.
#[verifier::opaque]
pub open spec fn expr_exprs_v(s: Seq<(Expr, Expr)>) -> Seq<(ExprV, ExprV)>
    decreases s,
{
    Seq::new(s.len(), |i: int| if 0 <= i < s.len() { (s[i].0.v(), s[i].1.v()) } else { arbitrary() })
}

/// A list and its model are equally long.
pub broadcast proof fn expr_exprs_v_len(s: Seq<(Expr, Expr)>)
    ensures
        #[trigger] expr_exprs_v(s).len() == s.len(),
{
    reveal(expr_exprs_v);
    reveal(Expr::v);
}

/// The model of a list holds the models of its elements.
pub broadcast proof fn expr_exprs_v_index(s: Seq<(Expr, Expr)>, i: int)
    requires
        0 <= i < s.len(),
    ensures
        #[trigger] expr_exprs_v(s)[i] == (s[i].0.v(), s[i].1.v()),
{
    reveal(expr_exprs_v);
    reveal(Expr::v);
}

/// Appending to a list appends to its model.
pub broadcast proof fn expr_exprs_v_push(s: Seq<(Expr, Expr)>, x: (Expr, Expr))
    ensures
        #[trigger] expr_exprs_v(s.push(x)) == expr_exprs_v(s).push((x.0.v(), x.1.v())),
{
    reveal(expr_exprs_v);
    reveal(Expr::v);
    assert(expr_exprs_v(s.push(x)) =~= expr_exprs_v(s).push((x.0.v(), x.1.v())));
}

/// An empty list has an empty model.
pub broadcast proof fn expr_exprs_v_empty()
    ensures
        #[trigger] expr_exprs_v(Seq::<(Expr, Expr)>::empty()) == Seq::<(ExprV, ExprV)>::empty(),
{
    reveal(expr_exprs_v);
    reveal(Expr::v);
    assert(expr_exprs_v(Seq::<(Expr, Expr)>::empty()) =~= Seq::<(ExprV, ExprV)>::empty());
}

/// The model of two lists put together.
pub broadcast proof fn expr_exprs_v_add(a: Seq<(Expr, Expr)>, b: Seq<(Expr, Expr)>)
    ensures
        #[trigger] expr_exprs_v(a + b) == expr_exprs_v(a) + expr_exprs_v(b),
{
    reveal(expr_exprs_v);
    reveal(Expr::v);
    assert(expr_exprs_v(a + b) =~= expr_exprs_v(a) + expr_exprs_v(b));
}

/// The models of a list, element by element.
#[verifier::opaque]
pub open spec fn exprs_v(s: Seq<Expr>) -> Seq<ExprV>
    decreases s,
{
    Seq::new(s.len(), |i: int| if 0 <= i < s.len() { s[i].v() } else { arbitrary() })
}

/// A list and its model are equally long.
pub broadcast proof fn exprs_v_len(s: Seq<Expr>)
    ensures
        #[trigger] exprs_v(s).len() == s.len(),
{
    reveal(exprs_v);
    reveal(Expr::v);
}

/// The model of a list holds the models of its elements.
pub broadcast proof fn exprs_v_index(s: Seq<Expr>, i: int)
    requires
        0 <= i < s.len(),
    ensures
        #[trigger] exprs_v(s)[i] == s[i].v(),
{
    reveal(exprs_v);
    reveal(Expr::v);
}

/// Appending to a list appends to its model.
pub broadcast proof fn exprs_v_push(s: Seq<Expr>, x: Expr)
    ensures
        #[trigger] exprs_v(s.push(x)) == exprs_v(s).push(x.v()),
{
    reveal(exprs_v);
    reveal(Expr::v);
    assert(exprs_v(s.push(x)) =~= exprs_v(s).push(x.v()));
}

/// An empty list has an empty model.
pub broadcast proof fn exprs_v_empty()
    ensures
        #[trigger] exprs_v(Seq::<Expr>::empty()) == Seq::<ExprV>::empty(),
{
    reveal(exprs_v);
    reveal(Expr::v);
    assert(exprs_v(Seq::<Expr>::empty()) =~= Seq::<ExprV>::empty());
}

/// The model of two lists put together.
pub broadcast proof fn exprs_v_add(a: Seq<Expr>, b: Seq<Expr>)
    ensures
        #[trigger] exprs_v(a + b) == exprs_v(a) + exprs_v(b),
{
    reveal(exprs_v);
    reveal(Expr::v);
    assert(exprs_v(a + b) =~= exprs_v(a) + exprs_v(b));
}

/// The models of a list, element by element.
#[verifier::opaque]
pub open spec fn fields_v(s: Seq<Field>) -> Seq<FieldV> {
    Seq::new(s.len(), |i: int| s[i].v())
}

/// A list and its model are equally long.
pub broadcast proof fn fields_v_len(s: Seq<Field>)
    ensures
        #[trigger] fields_v(s).len() == s.len(),
{
    reveal(fields_v);
}

/// The model of a list holds the models of its elements.
pub broadcast proof fn fields_v_index(s: Seq<Field>, i: int)
    requires
        0 <= i < s.len(),
    ensures
        #[trigger] fields_v(s)[i] == s[i].v(),
{
    reveal(fields_v);
}

/// Appending to a list appends to its model.
pub broadcast proof fn fields_v_push(s: Seq<Field>, x: Field)
    ensures
        #[trigger] fields_v(s.push(x)) == fields_v(s).push(x.v()),
{
    reveal(fields_v);
    assert(fields_v(s.push(x)) =~= fields_v(s).push(x.v()));
}

/// An empty list has an empty model.
pub broadcast proof fn fields_v_empty()
    ensures
        #[trigger] fields_v(Seq::<Field>::empty()) == Seq::<FieldV>::empty(),
{
    reveal(fields_v);
    assert(fields_v(Seq::<Field>::empty()) =~= Seq::<FieldV>::empty());
}

/// The model of two lists put together.
pub broadcast proof fn fields_v_add(a: Seq<Field>, b: Seq<Field>)
    ensures
        #[trigger] fields_v(a + b) == fields_v(a) + fields_v(b),
{
    reveal(fields_v);
    assert(fields_v(a + b) =~= fields_v(a) + fields_v(b));
}

/// The models of a list, element by element.
#[verifier::opaque]
pub open spec fn functions_v(s: Seq<Function>) -> Seq<FunctionV> {
    Seq::new(s.len(), |i: int| s[i].v())
}

/// A list and its model are equally long.
pub broadcast proof fn functions_v_len(s: Seq<Function>)
    ensures
        #[trigger] functions_v(s).len() == s.len(),
{
    reveal(functions_v);
}

/// The model of a list holds the models of its elements.
pub broadcast proof fn functions_v_index(s: Seq<Function>, i: int)
    requires
        0 <= i < s.len(),
    ensures
        #[trigger] functions_v(s)[i] == s[i].v(),
{
    reveal(functions_v);
}

/// Appending to a list appends to its model.
pub broadcast proof fn functions_v_push(s: Seq<Function>, x: Function)
    ensures
        #[trigger] functions_v(s.push(x)) == functions_v(s).push(x.v()),
{
    reveal(functions_v);
    assert(functions_v(s.push(x)) =~= functions_v(s).push(x.v()));
}

/// An empty list has an empty model.
pub broadcast proof fn functions_v_empty()
    ensures
        #[trigger] functions_v(Seq::<Function>::empty()) == Seq::<FunctionV>::empty(),
{
    reveal(functions_v);
    assert(functions_v(Seq::<Function>::empty()) =~= Seq::<FunctionV>::empty());
}

/// The model of two lists put together.
pub broadcast proof fn functions_v_add(a: Seq<Function>, b: Seq<Function>)
    ensures
        #[trigger] functions_v(a + b) == functions_v(a) + functions_v(b),
{
    reveal(functions_v);
    assert(functions_v(a + b) =~= functions_v(a) + functions_v(b));
}

/// The models of a list, element by element.
#[verifier::opaque]
pub open spec fn imports_v(s: Seq<Import>) -> Seq<ImportV> {
    Seq::new(s.len(), |i: int| s[i].v())
}

/// A list and its model are equally long.
pub broadcast proof fn imports_v_len(s: Seq<Import>)
    ensures
        #[trigger] imports_v(s).len() == s.len(),
{
    reveal(imports_v);
}

/// The model of a list holds the models of its elements.
pub broadcast proof fn imports_v_index(s: Seq<Import>, i: int)
    requires
        0 <= i < s.len(),
    ensures
        #[trigger] imports_v(s)[i] == s[i].v(),
{
    reveal(imports_v);
}

/// Appending to a list appends to its model.
pub broadcast proof fn imports_v_push(s: Seq<Import>, x: Import)
    ensures
        #[trigger] imports_v(s.push(x)) == imports_v(s).push(x.v()),
{
    reveal(imports_v);
    assert(imports_v(s.push(x)) =~= imports_v(s).push(x.v()));
}

/// An empty list has an empty model.
pub broadcast proof fn imports_v_empty()
    ensures
        #[trigger] imports_v(Seq::<Import>::empty()) == Seq::<ImportV>::empty(),
{
    reveal(imports_v);
    assert(imports_v(Seq::<Import>::empty()) =~= Seq::<ImportV>::empty());
}

/// The model of two lists put together.
pub broadcast proof fn imports_v_add(a: Seq<Import>, b: Seq<Import>)
    ensures
        #[trigger] imports_v(a + b) == imports_v(a) + imports_v(b),
{
    reveal(imports_v);
    assert(imports_v(a + b) =~= imports_v(a) + imports_v(b));
}

/// The models of a list, element by element.
#[verifier::opaque]
pub open spec fn metas_v(s: Seq<Meta>) -> Seq<MetaV> {
    Seq::new(s.len(), |i: int| s[i].v())
}

/// A list and its model are equally long.
pub broadcast proof fn metas_v_len(s: Seq<Meta>)
    ensures
        #[trigger] metas_v(s).len() == s.len(),
{
    reveal(metas_v);
}

/// The model of a list holds the models of its elements.
pub broadcast proof fn metas_v_index(s: Seq<Meta>, i: int)
    requires
        0 <= i < s.len(),
    ensures
        #[trigger] metas_v(s)[i] == s[i].v(),
{
    reveal(metas_v);
}

/// Appending to a list appends to its model.
pub broadcast proof fn metas_v_push(s: Seq<Meta>, x: Meta)
    ensures
        #[trigger] metas_v(s.push(x)) == metas_v(s).push(x.v()),
{
    reveal(metas_v);
    assert(metas_v(s.push(x)) =~= metas_v(s).push(x.v()));
}

/// An empty list has an empty model.
pub broadcast proof fn metas_v_empty()
    ensures
        #[trigger] metas_v(Seq::<Meta>::empty()) == Seq::<MetaV>::empty(),
{
    reveal(metas_v);
    assert(metas_v(Seq::<Meta>::empty()) =~= Seq::<MetaV>::empty());
}

/// The model of two lists put together.
pub broadcast proof fn metas_v_add(a: Seq<Meta>, b: Seq<Meta>)
    ensures
        #[trigger] metas_v(a + b) == metas_v(a) + metas_v(b),
{
    reveal(metas_v);
    assert(metas_v(a + b) =~= metas_v(a) + metas_v(b));
}

/// The models of a list, element by element.
#[verifier::opaque]
pub open spec fn params_v(s: Seq<Param>) -> Seq<ParamV>
    decreases s,
{
    Seq::new(s.len(), |i: int| if 0 <= i < s.len() { s[i].v() } else { arbitrary() })
}

/// A list and its model are equally long.
pub broadcast proof fn params_v_len(s: Seq<Param>)
    ensures
        #[trigger] params_v(s).len() == s.len(),
{
    reveal(params_v);
    reveal(Param::v);
}

/// The model of a list holds the models of its elements.
pub broadcast proof fn params_v_index(s: Seq<Param>, i: int)
    requires
        0 <= i < s.len(),
    ensures
        #[trigger] params_v(s)[i] == s[i].v(),
{
    reveal(params_v);
    reveal(Param::v);
}

/// Appending to a list appends to its model.
pub broadcast proof fn params_v_push(s: Seq<Param>, x: Param)
    ensures
        #[trigger] params_v(s.push(x)) == params_v(s).push(x.v()),
{
    reveal(params_v);
    reveal(Param::v);
    assert(params_v(s.push(x)) =~= params_v(s).push(x.v()));
}

/// An empty list has an empty model.
pub broadcast proof fn params_v_empty()
    ensures
        #[trigger] params_v(Seq::<Param>::empty()) == Seq::<ParamV>::empty(),
{
    reveal(params_v);
    reveal(Param::v);
    assert(params_v(Seq::<Param>::empty()) =~= Seq::<ParamV>::empty());
}

/// The model of two lists put together.
pub broadcast proof fn params_v_add(a: Seq<Param>, b: Seq<Param>)
    ensures
        #[trigger] params_v(a + b) == params_v(a) + params_v(b),
{
    reveal(params_v);
    reveal(Param::v);
    assert(params_v(a + b) =~= params_v(a) + params_v(b));
}

/// The models of a list, element by element.
#[verifier::opaque]
pub open spec fn stmts_v(s: Seq<Stmt>) -> Seq<StmtV>
    decreases s,
{
    Seq::new(s.len(), |i: int| if 0 <= i < s.len() { s[i].v() } else { arbitrary() })
}

/// A list and its model are equally long.
pub broadcast proof fn stmts_v_len(s: Seq<Stmt>)
    ensures
        #[trigger] stmts_v(s).len() == s.len(),
{
    reveal(stmts_v);
    reveal(Stmt::v);
}

/// The model of a list holds the models of its elements.
pub broadcast proof fn stmts_v_index(s: Seq<Stmt>, i: int)
    requires
        0 <= i < s.len(),
    ensures
        #[trigger] stmts_v(s)[i] == s[i].v(),
{
    reveal(stmts_v);
    reveal(Stmt::v);
}

/// Appending to a list appends to its model.
pub broadcast proof fn stmts_v_push(s: Seq<Stmt>, x: Stmt)
    ensures
        #[trigger] stmts_v(s.push(x)) == stmts_v(s).push(x.v()),
{
    reveal(stmts_v);
    reveal(Stmt::v);
    assert(stmts_v(s.push(x)) =~= stmts_v(s).push(x.v()));
}

/// An empty list has an empty model.
pub broadcast proof fn stmts_v_empty()
    ensures
        #[trigger] stmts_v(Seq::<Stmt>::empty()) == Seq::<StmtV>::empty(),
{
    reveal(stmts_v);
    reveal(Stmt::v);
    assert(stmts_v(Seq::<Stmt>::empty()) =~= Seq::<StmtV>::empty());
}

/// The model of two lists put together.
pub broadcast proof fn stmts_v_add(a: Seq<Stmt>, b: Seq<Stmt>)
    ensures
        #[trigger] stmts_v(a + b) == stmts_v(a) + stmts_v(b),
{
    reveal(stmts_v);
    reveal(Stmt::v);
    assert(stmts_v(a + b) =~= stmts_v(a) + stmts_v(b));
}

/// The models of a list, element by element.
#[verifier::opaque]
pub open spec fn struct_fields_v(s: Seq<StructField>) -> Seq<StructFieldV>
    decreases s,
{
    Seq::new(s.len(), |i: int| if 0 <= i < s.len() { s[i].v() } else { arbitrary() })
}

/// A list and its model are equally long.
pub broadcast proof fn struct_fields_v_len(s: Seq<StructField>)
    ensures
        #[trigger] struct_fields_v(s).len() == s.len(),
{
    reveal(struct_fields_v);
    reveal(StructField::v);
}

/// The model of a list holds the models of its elements.
pub broadcast proof fn struct_fields_v_index(s: Seq<StructField>, i: int)
    requires
        0 <= i < s.len(),
    ensures
        #[trigger] struct_fields_v(s)[i] == s[i].v(),
{
    reveal(struct_fields_v);
    reveal(StructField::v);
}

/// Appending to a list appends to its model.
pub broadcast proof fn struct_fields_v_push(s: Seq<StructField>, x: StructField)
    ensures
        #[trigger] struct_fields_v(s.push(x)) == struct_fields_v(s).push(x.v()),
{
    reveal(struct_fields_v);
    reveal(StructField::v);
    assert(struct_fields_v(s.push(x)) =~= struct_fields_v(s).push(x.v()));
}

/// An empty list has an empty model.
pub broadcast proof fn struct_fields_v_empty()
    ensures
        #[trigger] struct_fields_v(Seq::<StructField>::empty()) == Seq::<StructFieldV>::empty(),
{
    reveal(struct_fields_v);
    reveal(StructField::v);
    assert(struct_fields_v(Seq::<StructField>::empty()) =~= Seq::<StructFieldV>::empty());
}

/// The model of two lists put together.
pub broadcast proof fn struct_fields_v_add(a: Seq<StructField>, b: Seq<StructField>)
    ensures
        #[trigger] struct_fields_v(a + b) == struct_fields_v(a) + struct_fields_v(b),
{
    reveal(struct_fields_v);
    reveal(StructField::v);
    assert(struct_fields_v(a + b) =~= struct_fields_v(a) + struct_fields_v(b));
}

/// The models of a list, element by element.
#[verifier::opaque]
pub open spec fn text_exprs_v(s: Seq<(String, Expr)>) -> Seq<(Seq<char>, ExprV)>
    decreases s,
{
    Seq::new(s.len(), |i: int| if 0 <= i < s.len() { (s[i].0@, s[i].1.v()) } else { arbitrary() })
}

/// A list and its model are equally long.
pub broadcast proof fn text_exprs_v_len(s: Seq<(String, Expr)>)
    ensures
        #[trigger] text_exprs_v(s).len() == s.len(),
{
    reveal(text_exprs_v);
    reveal(Expr::v);
}

/// The model of a list holds the models of its elements.
pub broadcast proof fn text_exprs_v_index(s: Seq<(String, Expr)>, i: int)
    requires
        0 <= i < s.len(),
    ensures
        #[trigger] text_exprs_v(s)[i] == (s[i].0@, s[i].1.v()),
{
    reveal(text_exprs_v);
    reveal(Expr::v);
}

/// Appending to a list appends to its model.
pub broadcast proof fn text_exprs_v_push(s: Seq<(String, Expr)>, x: (String, Expr))
    ensures
        #[trigger] text_exprs_v(s.push(x)) == text_exprs_v(s).push((x.0@, x.1.v())),
{
    reveal(text_exprs_v);
    reveal(Expr::v);
    assert(text_exprs_v(s.push(x)) =~= text_exprs_v(s).push((x.0@, x.1.v())));
}

/// An empty list has an empty model.
pub broadcast proof fn text_exprs_v_empty()
    ensures
        #[trigger] text_exprs_v(Seq::<(String, Expr)>::empty()) == Seq::<(Seq<char>, ExprV)>::empty(),
{
    reveal(text_exprs_v);
    reveal(Expr::v);
    assert(text_exprs_v(Seq::<(String, Expr)>::empty()) =~= Seq::<(Seq<char>, ExprV)>::empty());
}

/// The model of two lists put together.
pub broadcast proof fn text_exprs_v_add(a: Seq<(String, Expr)>, b: Seq<(String, Expr)>)
    ensures
        #[trigger] text_exprs_v(a + b) == text_exprs_v(a) + text_exprs_v(b),
{
    reveal(text_exprs_v);
    reveal(Expr::v);
    assert(text_exprs_v(a + b) =~= text_exprs_v(a) + text_exprs_v(b));
}

/// The models of a list, element by element.
#[verifier::opaque]
pub open spec fn types_v(s: Seq<Type>) -> Seq<TypeV>
    decreases s,
{
    Seq::new(s.len(), |i: int| if 0 <= i < s.len() { s[i].v() } else { arbitrary() })
}

/// A list and its model are equally long.
pub broadcast proof fn types_v_len(s: Seq<Type>)
    ensures
        #[trigger] types_v(s).len() == s.len(),
{
    reveal(types_v);
    reveal(Type::v);
}

/// The model of a list holds the models of its elements.
pub broadcast proof fn types_v_index(s: Seq<Type>, i: int)
    requires
        0 <= i < s.len(),
    ensures
        #[trigger] types_v(s)[i] == s[i].v(),
{
    reveal(types_v);
    reveal(Type::v);
}

/// Appending to a list appends to its model.
pub broadcast proof fn types_v_push(s: Seq<Type>, x: Type)
    ensures
        #[trigger] types_v(s.push(x)) == types_v(s).push(x.v()),
{
    reveal(types_v);
    reveal(Type::v);
    assert(types_v(s.push(x)) =~= types_v(s).push(x.v()));
}

/// An empty list has an empty model.
pub broadcast proof fn types_v_empty()
    ensures
        #[trigger] types_v(Seq::<Type>::empty()) == Seq::<TypeV>::empty(),
{
    reveal(types_v);
    reveal(Type::v);
    assert(types_v(Seq::<Type>::empty()) =~= Seq::<TypeV>::empty());
}

/// The model of two lists put together.
pub broadcast proof fn types_v_add(a: Seq<Type>, b: Seq<Type>)
    ensures
        #[trigger] types_v(a + b) == types_v(a) + types_v(b),
{
    reveal(types_v);
    reveal(Type::v);
    assert(types_v(a + b) =~= types_v(a) + types_v(b));
}

/// The models of a list, element by element.
#[verifier::opaque]
pub open spec fn usings_v(s: Seq<Using>) -> Seq<UsingV> {
    Seq::new(s.len(), |i: int| s[i].v())
}

/// A list and its model are equally long.
pub broadcast proof fn usings_v_len(s: Seq<Using>)
    ensures
        #[trigger] usings_v(s).len() == s.len(),
{
    reveal(usings_v);
}

/// The model of a list holds the models of its elements.
pub broadcast proof fn usings_v_index(s: Seq<Using>, i: int)
    requires
        0 <= i < s.len(),
    ensures
        #[trigger] usings_v(s)[i] == s[i].v(),
{
    reveal(usings_v);
}

/// Appending to a list appends to its model.
pub broadcast proof fn usings_v_push(s: Seq<Using>, x: Using)
    ensures
        #[trigger] usings_v(s.push(x)) == usings_v(s).push(x.v()),
{
    reveal(usings_v);
    assert(usings_v(s.push(x)) =~= usings_v(s).push(x.v()));
}

/// An empty list has an empty model.
pub broadcast proof fn usings_v_empty()
    ensures
        #[trigger] usings_v(Seq::<Using>::empty()) == Seq::<UsingV>::empty(),
{
    reveal(usings_v);
    assert(usings_v(Seq::<Using>::empty()) =~= Seq::<UsingV>::empty());
}

/// The model of two lists put together.
pub broadcast proof fn usings_v_add(a: Seq<Using>, b: Seq<Using>)
    ensures
        #[trigger] usings_v(a + b) == usings_v(a) + usings_v(b),
{
    reveal(usings_v);
    assert(usings_v(a + b) =~= usings_v(a) + usings_v(b));
}

/// How models follow what they are models of.
pub broadcast group group_model {
    type_named_model,
    type_anon_model,
    type_func_model,
    struct_field_model,
    expr_int_model,
    expr_float_model,
    expr_str_model,
    expr_bool_model,
    expr_null_model,
    expr_this_model,
    expr_super_model,
    expr_ident_model,
    expr_field_model,
    expr_index_model,
    expr_call_model,
    expr_new_model,
    expr_unary_model,
    expr_binary_model,
    expr_ternary_model,
    expr_assign_model,
    expr_null_coalesce_model,
    expr_safe_field_model,
    expr_array_lit_model,
    expr_map_lit_model,
    expr_object_lit_model,
    expr_comprehension_model,
    expr_lambda_model,
    expr_cast_model,
    expr_type_check_model,
    expr_is_model,
    expr_switch_model,
    expr_if_model,
    expr_block_model,
    expr_paren_model,
    expr_untyped_model,
    expr_regex_model,
    expr_meta_model,
    compr_body_value_model,
    compr_body_key_value_model,
    lambda_body_expr_model,
    lambda_body_block_model,
    iterable_range_model,
    iterable_coll_model,
    stmt_var_model,
    stmt_expr_model,
    stmt_if_model,
    stmt_for_model,
    stmt_while_model,
    stmt_switch_model,
    stmt_return_model,
    stmt_break_model,
    stmt_continue_model,
    stmt_throw_model,
    stmt_try_model,
    stmt_block_model,
    stmt_verbatim_model,
    case_model,
    catch_model,
    param_model,
    cases_v_len,
    cases_v_index,
    cases_v_push,
    cases_v_empty,
    cases_v_add,
    catchs_v_len,
    catchs_v_index,
    catchs_v_push,
    catchs_v_empty,
    catchs_v_add,
    decls_v_len,
    decls_v_index,
    decls_v_push,
    decls_v_empty,
    decls_v_add,
    enum_variants_v_len,
    enum_variants_v_index,
    enum_variants_v_push,
    enum_variants_v_empty,
    enum_variants_v_add,
    expr_exprs_v_len,
    expr_exprs_v_index,
    expr_exprs_v_push,
    expr_exprs_v_empty,
    expr_exprs_v_add,
    exprs_v_len,
    exprs_v_index,
    exprs_v_push,
    exprs_v_empty,
    exprs_v_add,
    fields_v_len,
    fields_v_index,
    fields_v_push,
    fields_v_empty,
    fields_v_add,
    functions_v_len,
    functions_v_index,
    functions_v_push,
    functions_v_empty,
    functions_v_add,
    imports_v_len,
    imports_v_index,
    imports_v_push,
    imports_v_empty,
    imports_v_add,
    metas_v_len,
    metas_v_index,
    metas_v_push,
    metas_v_empty,
    metas_v_add,
    params_v_len,
    params_v_index,
    params_v_push,
    params_v_empty,
    params_v_add,
    stmts_v_len,
    stmts_v_index,
    stmts_v_push,
    stmts_v_empty,
    stmts_v_add,
    struct_fields_v_len,
    struct_fields_v_index,
    struct_fields_v_push,
    struct_fields_v_empty,
    struct_fields_v_add,
    text_exprs_v_len,
    text_exprs_v_index,
    text_exprs_v_push,
    text_exprs_v_empty,
    text_exprs_v_add,
    types_v_len,
    types_v_index,
    types_v_push,
    types_v_empty,
    types_v_add,
    usings_v_len,
    usings_v_index,
    usings_v_push,
    usings_v_empty,
    usings_v_add,
}

} // verus!
