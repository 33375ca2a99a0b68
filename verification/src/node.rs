//! Looking at the form of a tree while keeping its model in view.

use vstd::prelude::*;

use crate::ast::{Case, Catch, ComprBody, Expr, Iterable, LambdaBody, Param, Stmt, StructField, Type};
use crate::model::{ComprBodyV, ExprV, IterableV, LambdaBodyV, StmtV, TypeV, cases_v, catchs_v, expr_exprs_v, exprs_v, metas_v, params_v, stmts_v, struct_fields_v, text_exprs_v, types_v};
use crate::text::texts;

verus! {

impl Type {
    /// The model, one level at a time.
    pub open spec fn top(self) -> TypeV {
        match self {
            Type::Named { path, params, optional, line } => TypeV::Named { path: texts(path@), params: types_v(params@), optional: optional, line: line as int },
            Type::Anon(a) => TypeV::Anon(struct_fields_v(a@)),
            Type::Func { params, ret } => TypeV::Func { params: types_v(params@), ret: Box::new(ret.v()) },
        }
    }

    /// A model is spelled out by its top level.
    pub proof fn unfold(self)
        ensures
            self.v() == self.top(),
    {
        reveal(StructField::v);
        reveal(Type::v);
        reveal(struct_fields_v);
        reveal(types_v);
    }

    /// The tree itself, to look at its form.
    pub fn node(&self) -> (r: &Type)
        ensures
            *r == *self,
            self.v() == self.top(),
    {
        proof {
            self.unfold();
        }
        self
    }

    /// The tree itself, to take apart.
    pub fn into_node(self) -> (r: Type)
        ensures
            r == self,
            self.v() == self.top(),
    {
        proof {
            self.unfold();
        }
        self
    }
}

impl Expr {
    /// The model, one level at a time.
    pub open spec fn top(self) -> ExprV {
        match self {
            Expr::Int(a) => ExprV::Int(a@),
            Expr::Float(a) => ExprV::Float(a@),
            Expr::Str { raw, interpolated } => ExprV::Str { raw: raw@, interpolated: interpolated },
            Expr::Bool(a) => ExprV::Bool(a),
            Expr::Null => ExprV::Null,
            Expr::This => ExprV::This,
            Expr::Super => ExprV::Super,
            Expr::Ident(a) => ExprV::Ident(a@),
            Expr::Field(a, b) => ExprV::Field(Box::new(a.v()), b@),
            Expr::Index(a, b) => ExprV::Index(Box::new(a.v()), Box::new(b.v())),
            Expr::Call(a, b) => ExprV::Call(Box::new(a.v()), exprs_v(b@)),
            Expr::New(a, b) => ExprV::New(a.v(), exprs_v(b@)),
            Expr::Unary { op, expr, prefix } => ExprV::Unary { op: op, expr: Box::new(expr.v()), prefix: prefix },
            Expr::Binary { op, lhs, rhs } => ExprV::Binary { op: op, lhs: Box::new(lhs.v()), rhs: Box::new(rhs.v()) },
            Expr::Ternary { cond, then, els } => ExprV::Ternary { cond: Box::new(cond.v()), then: Box::new(then.v()), els: Box::new(els.v()) },
            Expr::Assign { op, target, value } => ExprV::Assign { op: op, target: Box::new(target.v()), value: Box::new(value.v()) },
            Expr::NullCoalesce(a, b) => ExprV::NullCoalesce(Box::new(a.v()), Box::new(b.v())),
            Expr::SafeField(a, b) => ExprV::SafeField(Box::new(a.v()), b@),
            Expr::ArrayLit(a) => ExprV::ArrayLit(exprs_v(a@)),
            Expr::MapLit(a) => ExprV::MapLit(expr_exprs_v(a@)),
            Expr::ObjectLit(a) => ExprV::ObjectLit(text_exprs_v(a@)),
            Expr::Comprehension { var, value_var, iter, guard, body } => ExprV::Comprehension { var: var@, value_var: (match value_var { Some(y) => Some(y@), None => None }), iter: Box::new(iter.v()), guard: (match guard { Some(y) => Some(Box::new(y.v())), None => None }), body: body.v() },
            Expr::Lambda { params, ret, body } => ExprV::Lambda { params: params_v(params@), ret: (match ret { Some(y) => Some(y.v()), None => None }), body: Box::new(body.v()) },
            Expr::Cast { expr, ty } => ExprV::Cast { expr: Box::new(expr.v()), ty: (match ty { Some(y) => Some(y.v()), None => None }) },
            Expr::TypeCheck { expr, ty } => ExprV::TypeCheck { expr: Box::new(expr.v()), ty: ty.v() },
            Expr::Is { expr, ty } => ExprV::Is { expr: Box::new(expr.v()), ty: ty.v() },
            Expr::Switch { subject, cases, default } => ExprV::Switch { subject: Box::new(subject.v()), cases: cases_v(cases@), default: (match default { Some(y) => Some(stmts_v(y@)), None => None }) },
            Expr::If { cond, then, els } => ExprV::If { cond: Box::new(cond.v()), then: Box::new(then.v()), els: (match els { Some(y) => Some(Box::new(y.v())), None => None }) },
            Expr::Block(a) => ExprV::Block(stmts_v(a@)),
            Expr::Paren(a) => ExprV::Paren(Box::new(a.v())),
            Expr::Untyped(a) => ExprV::Untyped(Box::new(a.v())),
            Expr::Regex { pattern, flags } => ExprV::Regex { pattern: pattern@, flags: flags@ },
            Expr::Meta(a, b) => ExprV::Meta(metas_v(a@), Box::new(b.v())),
        }
    }

    /// A model is spelled out by its top level.
    pub proof fn unfold(self)
        ensures
            self.v() == self.top(),
    {
        reveal(Case::v);
        reveal(ComprBody::v);
        reveal(Expr::v);
        reveal(Iterable::v);
        reveal(LambdaBody::v);
        reveal(Param::v);
        reveal(Stmt::v);
        reveal(Type::v);
        reveal(cases_v);
        reveal(expr_exprs_v);
        reveal(exprs_v);
        reveal(metas_v);
        reveal(params_v);
        reveal(stmts_v);
        reveal(text_exprs_v);
    }

    /// The tree itself, to look at its form.
    pub fn node(&self) -> (r: &Expr)
        ensures
            *r == *self,
            self.v() == self.top(),
    {
        proof {
            self.unfold();
        }
        self
    }

    /// The tree itself, to take apart.
    pub fn into_node(self) -> (r: Expr)
        ensures
            r == self,
            self.v() == self.top(),
    {
        proof {
            self.unfold();
        }
        self
    }
}

impl ComprBody {
    /// The model, one level at a time.
    pub open spec fn top(self) -> ComprBodyV {
        match self {
            ComprBody::Value(a) => ComprBodyV::Value(Box::new(a.v())),
            ComprBody::KeyValue(a, b) => ComprBodyV::KeyValue(Box::new(a.v()), Box::new(b.v())),
        }
    }

    /// A model is spelled out by its top level.
    pub proof fn unfold(self)
        ensures
            self.v() == self.top(),
    {
        reveal(ComprBody::v);
        reveal(Expr::v);
    }

    /// The tree itself, to look at its form.
    pub fn node(&self) -> (r: &ComprBody)
        ensures
            *r == *self,
            self.v() == self.top(),
    {
        proof {
            self.unfold();
        }
        self
    }

    /// The tree itself, to take apart.
    pub fn into_node(self) -> (r: ComprBody)
        ensures
            r == self,
            self.v() == self.top(),
    {
        proof {
            self.unfold();
        }
        self
    }
}

impl LambdaBody {
    /// The model, one level at a time.
    pub open spec fn top(self) -> LambdaBodyV {
        match self {
            LambdaBody::Expr(a) => LambdaBodyV::Expr(a.v()),
            LambdaBody::Block(a) => LambdaBodyV::Block(stmts_v(a@)),
        }
    }

    /// A model is spelled out by its top level.
    pub proof fn unfold(self)
        ensures
            self.v() == self.top(),
    {
        reveal(Expr::v);
        reveal(LambdaBody::v);
        reveal(Stmt::v);
        reveal(stmts_v);
    }

    /// The tree itself, to look at its form.
    pub fn node(&self) -> (r: &LambdaBody)
        ensures
            *r == *self,
            self.v() == self.top(),
    {
        proof {
            self.unfold();
        }
        self
    }

    /// The tree itself, to take apart.
    pub fn into_node(self) -> (r: LambdaBody)
        ensures
            r == self,
            self.v() == self.top(),
    {
        proof {
            self.unfold();
        }
        self
    }
}

impl Iterable {
    /// The model, one level at a time.
    pub open spec fn top(self) -> IterableV {
        match self {
            Iterable::Range(a, b) => IterableV::Range(a.v(), b.v()),
            Iterable::Coll(a) => IterableV::Coll(a.v()),
        }
    }

    /// A model is spelled out by its top level.
    pub proof fn unfold(self)
        ensures
            self.v() == self.top(),
    {
        reveal(Expr::v);
        reveal(Iterable::v);
    }

    /// The tree itself, to look at its form.
    pub fn node(&self) -> (r: &Iterable)
        ensures
            *r == *self,
            self.v() == self.top(),
    {
        proof {
            self.unfold();
        }
        self
    }

    /// The tree itself, to take apart.
    pub fn into_node(self) -> (r: Iterable)
        ensures
            r == self,
            self.v() == self.top(),
    {
        proof {
            self.unfold();
        }
        self
    }
}

impl Stmt {
    /// The model, one level at a time.
    pub open spec fn top(self) -> StmtV {
        match self {
            Stmt::Var { name, ty, init, is_final, delete, sink, line } => StmtV::Var { name: name@, ty: (match ty { Some(y) => Some(y.v()), None => None }), init: (match init { Some(y) => Some(y.v()), None => None }), is_final: is_final, delete: delete, sink: sink, line: line as int },
            Stmt::Expr(a, b) => StmtV::Expr(a.v(), b as int),
            Stmt::If { cond, then, els, line } => StmtV::If { cond: cond.v(), then: Box::new(then.v()), els: (match els { Some(y) => Some(Box::new(y.v())), None => None }), line: line as int },
            Stmt::For { var, value_var, iter, body, line } => StmtV::For { var: var@, value_var: (match value_var { Some(y) => Some(y@), None => None }), iter: iter.v(), body: Box::new(body.v()), line: line as int },
            Stmt::While { cond, body, do_while, line } => StmtV::While { cond: cond.v(), body: Box::new(body.v()), do_while: do_while, line: line as int },
            Stmt::Switch { subject, cases, default, line } => StmtV::Switch { subject: subject.v(), cases: cases_v(cases@), default: (match default { Some(y) => Some(stmts_v(y@)), None => None }), line: line as int },
            Stmt::Return(a, b) => StmtV::Return((match a { Some(y) => Some(y.v()), None => None }), b as int),
            Stmt::Break => StmtV::Break,
            Stmt::Continue => StmtV::Continue,
            Stmt::Throw(a, b) => StmtV::Throw(a.v(), b as int),
            Stmt::Try { body, catches, line } => StmtV::Try { body: Box::new(body.v()), catches: catchs_v(catches@), line: line as int },
            Stmt::Block(a) => StmtV::Block(stmts_v(a@)),
            Stmt::Verbatim { code, line } => StmtV::Verbatim { code: code@, line: line as int },
        }
    }

    /// A model is spelled out by its top level.
    pub proof fn unfold(self)
        ensures
            self.v() == self.top(),
    {
        reveal(Case::v);
        reveal(Catch::v);
        reveal(Expr::v);
        reveal(Iterable::v);
        reveal(Stmt::v);
        reveal(Type::v);
        reveal(cases_v);
        reveal(catchs_v);
        reveal(stmts_v);
    }

    /// The tree itself, to look at its form.
    pub fn node(&self) -> (r: &Stmt)
        ensures
            *r == *self,
            self.v() == self.top(),
    {
        proof {
            self.unfold();
        }
        self
    }

    /// The tree itself, to take apart.
    pub fn into_node(self) -> (r: Stmt)
        ensures
            r == self,
            self.v() == self.top(),
    {
        proof {
            self.unfold();
        }
        self
    }
}

} // verus!
