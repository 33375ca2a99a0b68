//! The C++ type of an expression, as far as generation needs it.

use vstd::prelude::*;

use crate::program::{TypeInfo, TypeInfoV};

verus! {

broadcast use {crate::program::group_program, crate::text::group_texts};

/// A lightweight description of an expression's C++ type, enough to drive member
/// access and pointer handling.
pub struct Ty {
    /// C++ spelling without a trailing `*`.
    pub base: String,
    /// Whether the C++ value is a pointer.
    pub is_ptr: bool,
    /// The resolved type, for member lookup.
    pub info: Option<TypeInfo>,
    /// The type came from a `Null<T>`: a nullable value type lowered to a pointer.
    pub nullable: bool,
    /// The C++ value is an unsigned size (`.length`). A comparison with a signed value
    /// makes the conversion explicit.
    pub unsigned: bool,
    /// Set for a local that aliases a `Map.get(k)` result: it is bound to a map iterator,
    /// a null check becomes the existence check, and a use becomes `it->second`.
    pub iter: Option<Box<IterAlias>>,
}

/// A local bound to a `Map.get(k)` result, represented as a map iterator.
pub struct IterAlias {
    /// The C++ iterator local.
    pub it_name: String,
    /// The generated map receiver, for the `it == map.end()` check.
    pub map_code: String,
    /// The map's value type.
    pub value_ty: Ty,
}

/// An access of an `@orderedMap` field: its two parallel vectors and their element types.
pub struct OrderedMapRef {
    /// C++ accessor of the keys vector.
    pub keys: String,
    /// C++ accessor of the values vector.
    pub vals: String,
    pub key_ty: Ty,
    pub val_ty: Ty,
}

/// Mathematical model of [`Ty`].
pub struct TyV {
    pub base: Seq<char>,
    pub is_ptr: bool,
    pub info: Option<TypeInfoV>,
    pub nullable: bool,
    pub unsigned: bool,
    pub iter: Option<Box<IterAliasV>>,
}

/// Mathematical model of [`IterAlias`].
pub struct IterAliasV {
    pub it_name: Seq<char>,
    pub map_code: Seq<char>,
    pub value_ty: TyV,
}

/// Mathematical model of [`OrderedMapRef`].
pub struct OrderedMapRefV {
    pub keys: Seq<char>,
    pub vals: Seq<char>,
    pub key_ty: TyV,
    pub val_ty: TyV,
}

impl Ty {
    /// The value with every string and list seen as a sequence.
    #[verifier::opaque]
    pub open spec fn v(self) -> TyV
        decreases self,
    {
        TyV {
            base: self.base@,
            is_ptr: self.is_ptr,
            info: (match self.info { Some(y) => Some(y.v()), None => None }),
            nullable: self.nullable,
            unsigned: self.unsigned,
            iter: (match self.iter { Some(y) => Some(Box::new(y.v())), None => None }),
        }
    }
}

/// The model of this form, from the models of its parts.
pub broadcast proof fn ty_model(x: Ty)
    ensures
        #[trigger] x.v() == (TyV { base: x.base@, is_ptr: x.is_ptr, info: (match x.info { Some(y) => Some(y.v()), None => None }), nullable: x.nullable, unsigned: x.unsigned, iter: (match x.iter { Some(y) => Some(Box::new(y.v())), None => None }) }),
{
    reveal(IterAlias::v);
    reveal(Ty::v);
}

impl IterAlias {
    /// The value with every string and list seen as a sequence.
    #[verifier::opaque]
    pub open spec fn v(self) -> IterAliasV
        decreases self,
    {
        IterAliasV {
            it_name: self.it_name@,
            map_code: self.map_code@,
            value_ty: self.value_ty.v(),
        }
    }
}

/// The model of this form, from the models of its parts.
pub broadcast proof fn iter_alias_model(x: IterAlias)
    ensures
        #[trigger] x.v() == (IterAliasV { it_name: x.it_name@, map_code: x.map_code@, value_ty: x.value_ty.v() }),
{
    reveal(IterAlias::v);
    reveal(Ty::v);
}

impl OrderedMapRef {
    /// The value with every string and list seen as a sequence.
    pub open spec fn v(self) -> OrderedMapRefV
    {
        OrderedMapRefV {
            keys: self.keys@,
            vals: self.vals@,
            key_ty: self.key_ty.v(),
            val_ty: self.val_ty.v(),
        }
    }
}

/// The models of a list, element by element.
#[verifier::opaque]
pub open spec fn opt_tys_v(s: Seq<Option<Ty>>) -> Seq<Option<TyV>>
    decreases s,
{
    Seq::new(s.len(), |i: int| if 0 <= i < s.len() { (match s[i] { Some(y) => Some(y.v()), None => None }) } else { arbitrary() })
}

/// A list and its model are equally long.
pub broadcast proof fn opt_tys_v_len(s: Seq<Option<Ty>>)
    ensures
        #[trigger] opt_tys_v(s).len() == s.len(),
{
    reveal(opt_tys_v);
    reveal(Ty::v);
}

/// The model of a list holds the models of its elements.
pub broadcast proof fn opt_tys_v_index(s: Seq<Option<Ty>>, i: int)
    requires
        0 <= i < s.len(),
    ensures
        #[trigger] opt_tys_v(s)[i] == (match s[i] { Some(y) => Some(y.v()), None => None }),
{
    reveal(opt_tys_v);
    reveal(Ty::v);
}

/// Appending to a list appends to its model.
pub broadcast proof fn opt_tys_v_push(s: Seq<Option<Ty>>, x: Option<Ty>)
    ensures
        #[trigger] opt_tys_v(s.push(x)) == opt_tys_v(s).push((match x { Some(y) => Some(y.v()), None => None })),
{
    reveal(opt_tys_v);
    reveal(Ty::v);
    assert(opt_tys_v(s.push(x)) =~= opt_tys_v(s).push((match x { Some(y) => Some(y.v()), None => None })));
}

/// An empty list has an empty model.
pub broadcast proof fn opt_tys_v_empty()
    ensures
        #[trigger] opt_tys_v(Seq::<Option<Ty>>::empty()) == Seq::<Option<TyV>>::empty(),
{
    reveal(opt_tys_v);
    reveal(Ty::v);
    assert(opt_tys_v(Seq::<Option<Ty>>::empty()) =~= Seq::<Option<TyV>>::empty());
}

/// The model of two lists put together.
pub broadcast proof fn opt_tys_v_add(a: Seq<Option<Ty>>, b: Seq<Option<Ty>>)
    ensures
        #[trigger] opt_tys_v(a + b) == opt_tys_v(a) + opt_tys_v(b),
{
    reveal(opt_tys_v);
    reveal(Ty::v);
    assert(opt_tys_v(a + b) =~= opt_tys_v(a) + opt_tys_v(b));
}

/// How models follow what they are models of.
pub broadcast group group_ty {
    ty_model,
    iter_alias_model,
    opt_tys_v_len,
    opt_tys_v_index,
    opt_tys_v_push,
    opt_tys_v_empty,
    opt_tys_v_add,
}

} // verus!
