//! The state of generating one body.

use vstd::prelude::*;

use crate::codegen::ty::{Ty, TyV};
use crate::program::usize_texts_v;
use crate::text::texts;

verus! {

broadcast use {crate::codegen::ty::group_ty, crate::program::group_program, crate::text::group_texts};

/// What generation keeps track of.
pub struct Gen {
    /// The module being generated.
    pub mi: usize,
    /// The namespace generated into.
    pub ns: Vec<String>,
    /// The locals of each open scope and their types; a later entry hides an earlier one.
    pub scopes: Vec<Vec<(String, Ty)>>,
    /// The C++ names of locals that had to be renamed, per scope.
    pub renames: Vec<Vec<(String, String)>>,
    /// How many temporaries were named.
    pub tmp: usize,
    /// The underlying type while in a method of an `abstract` newtype, where `this` denotes
    /// the underlying value.
    pub abstract_this: Option<Ty>,
    pub current_ret: Ty,
    /// Lines to emit before the current statement.
    pub prelude: String,
    /// The indentation of those lines.
    pub prelude_t: String,
    /// The function being generated, for diagnostics.
    pub current_fn: String,
    /// The line of the current statement, for diagnostics.
    pub current_line: usize,
    /// How deep the current expression is nested; 1 is a sink position.
    pub expr_depth: usize,
    /// The depth up to which a buried `Null<T>` call is extracted into an owned local.
    pub max_extract_depth: usize,
    pub warnings: Vec<(usize, String)>,
    pub errors: Vec<(usize, String)>,
    /// The heap locals each open scope must delete when it closes.
    pub owned: Vec<Vec<String>>,
    /// Locals whose value is owned elsewhere.
    pub escaping: Vec<String>,
    /// Set while the value of the current statement escapes: `new` arguments stay inline.
    pub new_args_escape: bool,
    /// Container parameters, which are passed by value.
    pub container_params: Vec<String>,
    /// Value-struct parameters, which cannot be assigned through.
    pub value_struct_params: Vec<String>,
    /// Optional `String` parameters, for which a null check reads as an emptiness check.
    pub optional_string_params: Vec<String>,
    /// Set while generating the operands of a null comparison.
    pub no_nullable_deref: bool,
    pub loop_depth: usize,
    /// The flag a `break` inside a `switch` inside a loop must set.
    pub switch_break_flag: Option<String>,
    /// Pointer fields the object owns.
    pub owned_fields: Vec<String>,
    /// Container fields the object owns.
    pub owned_containers: Vec<String>,
    /// The type the current value lands in, where that is known.
    pub expected: Option<Ty>,
    /// Whether `trace(...)` calls are stripped.
    pub no_trace: bool,
    /// Catch variables that C++ cannot bind.
    pub nonbinding_catch_vars: Vec<String>,
    /// Whether definitions are marked `inline`.
    pub inline_defs: bool,
}

/// Mathematical model of [`Gen`].
pub struct GenV {
    pub mi: int,
    pub ns: Seq<Seq<char>>,
    pub scopes: Seq<Seq<(Seq<char>, TyV)>>,
    pub renames: Seq<Seq<(Seq<char>, Seq<char>)>>,
    pub tmp: int,
    pub abstract_this: Option<TyV>,
    pub current_ret: TyV,
    pub prelude: Seq<char>,
    pub prelude_t: Seq<char>,
    pub current_fn: Seq<char>,
    pub current_line: int,
    pub expr_depth: int,
    pub max_extract_depth: int,
    pub warnings: Seq<(int, Seq<char>)>,
    pub errors: Seq<(int, Seq<char>)>,
    pub owned: Seq<Seq<Seq<char>>>,
    pub escaping: Seq<Seq<char>>,
    pub new_args_escape: bool,
    pub container_params: Seq<Seq<char>>,
    pub value_struct_params: Seq<Seq<char>>,
    pub optional_string_params: Seq<Seq<char>>,
    pub no_nullable_deref: bool,
    pub loop_depth: int,
    pub switch_break_flag: Option<Seq<char>>,
    pub owned_fields: Seq<Seq<char>>,
    pub owned_containers: Seq<Seq<char>>,
    pub expected: Option<TyV>,
    pub no_trace: bool,
    pub nonbinding_catch_vars: Seq<Seq<char>>,
    pub inline_defs: bool,
}

impl Gen {
    /// The value with every string and list seen as a sequence.
    pub open spec fn v(self) -> GenV
    {
        GenV {
            mi: self.mi as int,
            ns: texts(self.ns@),
            scopes: text_ty_lists_v(self.scopes@),
            renames: text_text_lists_v(self.renames@),
            tmp: self.tmp as int,
            abstract_this: (match self.abstract_this { Some(y) => Some(y.v()), None => None }),
            current_ret: self.current_ret.v(),
            prelude: self.prelude@,
            prelude_t: self.prelude_t@,
            current_fn: self.current_fn@,
            current_line: self.current_line as int,
            expr_depth: self.expr_depth as int,
            max_extract_depth: self.max_extract_depth as int,
            warnings: usize_texts_v(self.warnings@),
            errors: usize_texts_v(self.errors@),
            owned: text_lists_v(self.owned@),
            escaping: texts(self.escaping@),
            new_args_escape: self.new_args_escape,
            container_params: texts(self.container_params@),
            value_struct_params: texts(self.value_struct_params@),
            optional_string_params: texts(self.optional_string_params@),
            no_nullable_deref: self.no_nullable_deref,
            loop_depth: self.loop_depth as int,
            switch_break_flag: (match self.switch_break_flag { Some(y) => Some(y@), None => None }),
            owned_fields: texts(self.owned_fields@),
            owned_containers: texts(self.owned_containers@),
            expected: (match self.expected { Some(y) => Some(y.v()), None => None }),
            no_trace: self.no_trace,
            nonbinding_catch_vars: texts(self.nonbinding_catch_vars@),
            inline_defs: self.inline_defs,
        }
    }
}

/// The models of a list, element by element.
#[verifier::opaque]
pub open spec fn text_lists_v(s: Seq<Vec<String>>) -> Seq<Seq<Seq<char>>> {
    Seq::new(s.len(), |i: int| texts(s[i]@))
}

/// A list and its model are equally long.
pub broadcast proof fn text_lists_v_len(s: Seq<Vec<String>>)
    ensures
        #[trigger] text_lists_v(s).len() == s.len(),
{
    reveal(text_lists_v);
}

/// The model of a list holds the models of its elements.
pub broadcast proof fn text_lists_v_index(s: Seq<Vec<String>>, i: int)
    requires
        0 <= i < s.len(),
    ensures
        #[trigger] text_lists_v(s)[i] == texts(s[i]@),
{
    reveal(text_lists_v);
}

/// Appending to a list appends to its model.
pub broadcast proof fn text_lists_v_push(s: Seq<Vec<String>>, x: Vec<String>)
    ensures
        #[trigger] text_lists_v(s.push(x)) == text_lists_v(s).push(texts(x@)),
{
    reveal(text_lists_v);
    assert(text_lists_v(s.push(x)) =~= text_lists_v(s).push(texts(x@)));
}

/// An empty list has an empty model.
pub broadcast proof fn text_lists_v_empty()
    ensures
        #[trigger] text_lists_v(Seq::<Vec<String>>::empty()) == Seq::<Seq<Seq<char>>>::empty(),
{
    reveal(text_lists_v);
    assert(text_lists_v(Seq::<Vec<String>>::empty()) =~= Seq::<Seq<Seq<char>>>::empty());
}

/// The model of two lists put together.
pub broadcast proof fn text_lists_v_add(a: Seq<Vec<String>>, b: Seq<Vec<String>>)
    ensures
        #[trigger] text_lists_v(a + b) == text_lists_v(a) + text_lists_v(b),
{
    reveal(text_lists_v);
    assert(text_lists_v(a + b) =~= text_lists_v(a) + text_lists_v(b));
}

/// The models of a list, element by element.
#[verifier::opaque]
pub open spec fn text_text_lists_v(s: Seq<Vec<(String, String)>>) -> Seq<Seq<(Seq<char>, Seq<char>)>> {
    Seq::new(s.len(), |i: int| text_texts_v(s[i]@))
}

/// A list and its model are equally long.
pub broadcast proof fn text_text_lists_v_len(s: Seq<Vec<(String, String)>>)
    ensures
        #[trigger] text_text_lists_v(s).len() == s.len(),
{
    reveal(text_text_lists_v);
}

/// The model of a list holds the models of its elements.
pub broadcast proof fn text_text_lists_v_index(s: Seq<Vec<(String, String)>>, i: int)
    requires
        0 <= i < s.len(),
    ensures
        #[trigger] text_text_lists_v(s)[i] == text_texts_v(s[i]@),
{
    reveal(text_text_lists_v);
}

/// Appending to a list appends to its model.
pub broadcast proof fn text_text_lists_v_push(s: Seq<Vec<(String, String)>>, x: Vec<(String, String)>)
    ensures
        #[trigger] text_text_lists_v(s.push(x)) == text_text_lists_v(s).push(text_texts_v(x@)),
{
    reveal(text_text_lists_v);
    assert(text_text_lists_v(s.push(x)) =~= text_text_lists_v(s).push(text_texts_v(x@)));
}

/// An empty list has an empty model.
pub broadcast proof fn text_text_lists_v_empty()
    ensures
        #[trigger] text_text_lists_v(Seq::<Vec<(String, String)>>::empty()) == Seq::<Seq<(Seq<char>, Seq<char>)>>::empty(),
{
    reveal(text_text_lists_v);
    assert(text_text_lists_v(Seq::<Vec<(String, String)>>::empty()) =~= Seq::<Seq<(Seq<char>, Seq<char>)>>::empty());
}

/// The model of two lists put together.
pub broadcast proof fn text_text_lists_v_add(a: Seq<Vec<(String, String)>>, b: Seq<Vec<(String, String)>>)
    ensures
        #[trigger] text_text_lists_v(a + b) == text_text_lists_v(a) + text_text_lists_v(b),
{
    reveal(text_text_lists_v);
    assert(text_text_lists_v(a + b) =~= text_text_lists_v(a) + text_text_lists_v(b));
}

/// The models of a list, element by element.
#[verifier::opaque]
pub open spec fn text_texts_v(s: Seq<(String, String)>) -> Seq<(Seq<char>, Seq<char>)> {
    Seq::new(s.len(), |i: int| (s[i].0@, s[i].1@))
}

/// A list and its model are equally long.
pub broadcast proof fn text_texts_v_len(s: Seq<(String, String)>)
    ensures
        #[trigger] text_texts_v(s).len() == s.len(),
{
    reveal(text_texts_v);
}

/// The model of a list holds the models of its elements.
pub broadcast proof fn text_texts_v_index(s: Seq<(String, String)>, i: int)
    requires
        0 <= i < s.len(),
    ensures
        #[trigger] text_texts_v(s)[i] == (s[i].0@, s[i].1@),
{
    reveal(text_texts_v);
}

/// Appending to a list appends to its model.
pub broadcast proof fn text_texts_v_push(s: Seq<(String, String)>, x: (String, String))
    ensures
        #[trigger] text_texts_v(s.push(x)) == text_texts_v(s).push((x.0@, x.1@)),
{
    reveal(text_texts_v);
    assert(text_texts_v(s.push(x)) =~= text_texts_v(s).push((x.0@, x.1@)));
}

/// An empty list has an empty model.
pub broadcast proof fn text_texts_v_empty()
    ensures
        #[trigger] text_texts_v(Seq::<(String, String)>::empty()) == Seq::<(Seq<char>, Seq<char>)>::empty(),
{
    reveal(text_texts_v);
    assert(text_texts_v(Seq::<(String, String)>::empty()) =~= Seq::<(Seq<char>, Seq<char>)>::empty());
}

/// The model of two lists put together.
pub broadcast proof fn text_texts_v_add(a: Seq<(String, String)>, b: Seq<(String, String)>)
    ensures
        #[trigger] text_texts_v(a + b) == text_texts_v(a) + text_texts_v(b),
{
    reveal(text_texts_v);
    assert(text_texts_v(a + b) =~= text_texts_v(a) + text_texts_v(b));
}

/// The models of a list, element by element.
#[verifier::opaque]
pub open spec fn text_ty_lists_v(s: Seq<Vec<(String, Ty)>>) -> Seq<Seq<(Seq<char>, TyV)>>
    decreases s,
{
    Seq::new(s.len(), |i: int| if 0 <= i < s.len() { text_tys_v(s[i]@) } else { arbitrary() })
}

/// A list and its model are equally long.
pub broadcast proof fn text_ty_lists_v_len(s: Seq<Vec<(String, Ty)>>)
    ensures
        #[trigger] text_ty_lists_v(s).len() == s.len(),
{
    reveal(text_ty_lists_v);
    reveal(Ty::v);
}

/// The model of a list holds the models of its elements.
pub broadcast proof fn text_ty_lists_v_index(s: Seq<Vec<(String, Ty)>>, i: int)
    requires
        0 <= i < s.len(),
    ensures
        #[trigger] text_ty_lists_v(s)[i] == text_tys_v(s[i]@),
{
    reveal(text_ty_lists_v);
    reveal(Ty::v);
}

/// Appending to a list appends to its model.
pub broadcast proof fn text_ty_lists_v_push(s: Seq<Vec<(String, Ty)>>, x: Vec<(String, Ty)>)
    ensures
        #[trigger] text_ty_lists_v(s.push(x)) == text_ty_lists_v(s).push(text_tys_v(x@)),
{
    reveal(text_ty_lists_v);
    reveal(Ty::v);
    assert(text_ty_lists_v(s.push(x)) =~= text_ty_lists_v(s).push(text_tys_v(x@)));
}

/// An empty list has an empty model.
pub broadcast proof fn text_ty_lists_v_empty()
    ensures
        #[trigger] text_ty_lists_v(Seq::<Vec<(String, Ty)>>::empty()) == Seq::<Seq<(Seq<char>, TyV)>>::empty(),
{
    reveal(text_ty_lists_v);
    reveal(Ty::v);
    assert(text_ty_lists_v(Seq::<Vec<(String, Ty)>>::empty()) =~= Seq::<Seq<(Seq<char>, TyV)>>::empty());
}

/// The model of two lists put together.
pub broadcast proof fn text_ty_lists_v_add(a: Seq<Vec<(String, Ty)>>, b: Seq<Vec<(String, Ty)>>)
    ensures
        #[trigger] text_ty_lists_v(a + b) == text_ty_lists_v(a) + text_ty_lists_v(b),
{
    reveal(text_ty_lists_v);
    reveal(Ty::v);
    assert(text_ty_lists_v(a + b) =~= text_ty_lists_v(a) + text_ty_lists_v(b));
}

/// The models of a list, element by element.
#[verifier::opaque]
pub open spec fn text_tys_v(s: Seq<(String, Ty)>) -> Seq<(Seq<char>, TyV)>
    decreases s,
{
    Seq::new(s.len(), |i: int| if 0 <= i < s.len() { (s[i].0@, s[i].1.v()) } else { arbitrary() })
}

/// A list and its model are equally long.
pub broadcast proof fn text_tys_v_len(s: Seq<(String, Ty)>)
    ensures
        #[trigger] text_tys_v(s).len() == s.len(),
{
    reveal(text_tys_v);
    reveal(Ty::v);
}

/// The model of a list holds the models of its elements.
pub broadcast proof fn text_tys_v_index(s: Seq<(String, Ty)>, i: int)
    requires
        0 <= i < s.len(),
    ensures
        #[trigger] text_tys_v(s)[i] == (s[i].0@, s[i].1.v()),
{
    reveal(text_tys_v);
    reveal(Ty::v);
}

/// Appending to a list appends to its model.
pub broadcast proof fn text_tys_v_push(s: Seq<(String, Ty)>, x: (String, Ty))
    ensures
        #[trigger] text_tys_v(s.push(x)) == text_tys_v(s).push((x.0@, x.1.v())),
{
    reveal(text_tys_v);
    reveal(Ty::v);
    assert(text_tys_v(s.push(x)) =~= text_tys_v(s).push((x.0@, x.1.v())));
}

/// An empty list has an empty model.
pub broadcast proof fn text_tys_v_empty()
    ensures
        #[trigger] text_tys_v(Seq::<(String, Ty)>::empty()) == Seq::<(Seq<char>, TyV)>::empty(),
{
    reveal(text_tys_v);
    reveal(Ty::v);
    assert(text_tys_v(Seq::<(String, Ty)>::empty()) =~= Seq::<(Seq<char>, TyV)>::empty());
}

/// The model of two lists put together.
pub broadcast proof fn text_tys_v_add(a: Seq<(String, Ty)>, b: Seq<(String, Ty)>)
    ensures
        #[trigger] text_tys_v(a + b) == text_tys_v(a) + text_tys_v(b),
{
    reveal(text_tys_v);
    reveal(Ty::v);
    assert(text_tys_v(a + b) =~= text_tys_v(a) + text_tys_v(b));
}

/// How models follow what they are models of.
pub broadcast group group_gen {
    text_lists_v_len,
    text_lists_v_index,
    text_lists_v_push,
    text_lists_v_empty,
    text_lists_v_add,
    text_text_lists_v_len,
    text_text_lists_v_index,
    text_text_lists_v_push,
    text_text_lists_v_empty,
    text_text_lists_v_add,
    text_texts_v_len,
    text_texts_v_index,
    text_texts_v_push,
    text_texts_v_empty,
    text_texts_v_add,
    text_ty_lists_v_len,
    text_ty_lists_v_index,
    text_ty_lists_v_push,
    text_ty_lists_v_empty,
    text_ty_lists_v_add,
    text_tys_v_len,
    text_tys_v_index,
    text_tys_v_push,
    text_tys_v_empty,
    text_tys_v_add,
}

} // verus!
