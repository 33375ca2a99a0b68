//! C++ generation.

pub mod access;
pub mod amalgam;
pub mod args;
pub mod array;
pub mod branch;
pub mod call;
pub mod callee;
pub mod classdef;
pub mod common;
pub mod compr;
pub mod consts;
pub mod container;
pub mod control;
pub mod ctypes;
pub mod expr;
pub mod fndef;
pub mod gen;
pub mod hclass;
pub mod hdecls;
pub mod header;
pub mod helpers;
pub mod interp;
pub mod intrinsic;
pub mod literal;
pub mod lookup;
pub mod loops;
pub mod member;
pub mod method;
pub mod modfns;
pub mod operators;
pub mod ordered;
pub mod parts;
pub mod quote;
pub mod refs;
pub mod scan;
pub mod simple_stmt;
pub mod source;
pub mod state;
pub mod stmt;
pub mod strcall;
pub mod strtools;
pub mod switch;
pub mod textual;
pub mod ty;
pub mod ty_copy;
pub mod types;
pub mod values;
pub mod write;
