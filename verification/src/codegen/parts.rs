//! What the generation of branches and loops passes around.

use vstd::prelude::*;

use crate::codegen::ty::{Ty, TyV};

verus! {

broadcast use {crate::codegen::ty::group_ty, crate::text::group_texts};

/// What is put aside while the lines of a branch or a loop inside an expression are
/// generated.
pub struct Saved {
    pub prelude: String,
    pub prelude_t: String,
    pub depth: usize,
    pub expected: Option<Ty>,
    pub escape: bool,
    pub line: usize,
}

/// Where the value of a branch goes.
pub struct Sink {
    /// The variable it is assigned to; empty where it is not wanted.
    pub dest: String,
    /// The type wanted, where one is.
    pub want: Option<Ty>,
    /// Whether what it allocates is owned by the receiver.
    pub escape: bool,
}

/// How a `switch` is emitted.
#[derive(Debug, Clone, Copy, PartialEq, Eq, Structural)]
pub enum Shape {
    /// A C++ `switch` over constants.
    Plain,
    /// A C++ `switch` over the tag of an algebraic enum.
    Tag,
    /// A chain of comparisons.
    Chain,
}

/// What a `switch` looks at.
pub struct Subject {
    pub code: String,
    pub ty: Ty,
    pub shape: Shape,
}

/// What a loop runs over.
#[derive(Debug, Clone, Copy, PartialEq, Eq, Structural)]
pub enum SourceKind {
    Range,
    Vector,
    Entries,
    /// An ordered map: its keys and its values.
    Ordered,
    /// An object with `hasNext` and `next`.
    Custom,
}

/// What a loop runs over, generated.
pub struct LoopSource {
    pub kind: SourceKind,
    /// The first number of a range, the container, the keys of an ordered map, or the iterator
    /// with the operator that reaches its members.
    pub code: String,
    /// The number a range ends before, the spelling of a map, or the values of an ordered
    /// map.
    pub aux: String,
    pub key_ty: Ty,
    pub val_ty: Ty,
}

/// Mathematical model of [`Saved`].
pub struct SavedV {
    pub prelude: Seq<char>,
    pub prelude_t: Seq<char>,
    pub depth: int,
    pub expected: Option<TyV>,
    pub escape: bool,
    pub line: int,
}

/// Mathematical model of [`Sink`].
pub struct SinkV {
    pub dest: Seq<char>,
    pub want: Option<TyV>,
    pub escape: bool,
}

/// Mathematical model of [`Subject`].
pub struct SubjectV {
    pub code: Seq<char>,
    pub ty: TyV,
    pub shape: Shape,
}

/// Mathematical model of [`LoopSource`].
pub struct LoopSourceV {
    pub kind: SourceKind,
    pub code: Seq<char>,
    pub aux: Seq<char>,
    pub key_ty: TyV,
    pub val_ty: TyV,
}

impl Saved {
    /// The value with every string and list seen as a sequence.
    pub open spec fn v(self) -> SavedV
    {
        SavedV {
            prelude: self.prelude@,
            prelude_t: self.prelude_t@,
            depth: self.depth as int,
            expected: (match self.expected { Some(y) => Some(y.v()), None => None }),
            escape: self.escape,
            line: self.line as int,
        }
    }
}

impl Sink {
    /// The value with every string and list seen as a sequence.
    pub open spec fn v(self) -> SinkV
    {
        SinkV {
            dest: self.dest@,
            want: (match self.want { Some(y) => Some(y.v()), None => None }),
            escape: self.escape,
        }
    }
}

impl Subject {
    /// The value with every string and list seen as a sequence.
    pub open spec fn v(self) -> SubjectV
    {
        SubjectV {
            code: self.code@,
            ty: self.ty.v(),
            shape: self.shape,
        }
    }
}

impl LoopSource {
    /// The value with every string and list seen as a sequence.
    pub open spec fn v(self) -> LoopSourceV
    {
        LoopSourceV {
            kind: self.kind,
            code: self.code@,
            aux: self.aux@,
            key_ty: self.key_ty.v(),
            val_ty: self.val_ty.v(),
        }
    }
}

} // verus!
