//! Copies of type descriptions.

use vstd::prelude::*;

use crate::codegen::ty::{IterAlias, Ty};
use crate::program::TypeInfo;

verus! {

broadcast use {crate::codegen::ty::group_ty, crate::program::group_program, crate::text::group_texts};

impl Ty {
    /// A copy with the same model.
    pub fn dup(&self) -> (r: Ty)
        ensures
            r.v() == self.v(),
        decreases self,
    {
        Ty {
            base: self.base.clone(),
            is_ptr: self.is_ptr,
            info: match &self.info { Some(y) => Some(y.dup()), None => None },
            nullable: self.nullable,
            unsigned: self.unsigned,
            iter: match &self.iter { Some(y) => Some(Box::new(y.dup())), None => None },
        }
    }
}

impl Clone for Ty {
    fn clone(&self) -> (r: Ty)
        ensures
            r.v() == self.v(),
    {
        self.dup()
    }
}

impl IterAlias {
    /// A copy with the same model.
    pub fn dup(&self) -> (r: IterAlias)
        ensures
            r.v() == self.v(),
        decreases self,
    {
        IterAlias {
            it_name: self.it_name.clone(),
            map_code: self.map_code.clone(),
            value_ty: self.value_ty.dup(),
        }
    }
}

impl Clone for IterAlias {
    fn clone(&self) -> (r: IterAlias)
        ensures
            r.v() == self.v(),
    {
        self.dup()
    }
}

/// A copy with the same model.
pub fn dup_opt_ty(t: &Option<Ty>) -> (r: Option<Ty>)
    ensures
        (match r { Some(x) => Some(x.v()), None => None }) == (match t { Some(x) => Some(x.v()), None => None }),
{
    match t {
        Some(x) => Some(x.dup()),
        None => None,
    }
}

/// A copy with the same model.
pub fn dup_opt_info(t: &Option<TypeInfo>) -> (r: Option<TypeInfo>)
    ensures
        (match r { Some(x) => Some(x.v()), None => None }) == (match t { Some(x) => Some(x.v()), None => None }),
{
    match t {
        Some(x) => Some(x.dup()),
        None => None,
    }
}

/// A copy with the same model.
pub fn dup_opt_text(t: &Option<String>) -> (r: Option<String>)
    ensures
        (match r { Some(x) => Some(x@), None => None }) == (match t { Some(x) => Some(x@), None => None }),
{
    match t {
        Some(x) => Some(x.clone()),
        None => None,
    }
}

} // verus!
