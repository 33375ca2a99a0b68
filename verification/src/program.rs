//! The program being transpiled: its modules and the types they declare.

use vstd::prelude::*;

use crate::ast::{Class, Enum, Expr, File, Interface};
use crate::model::{ExprV, FileV, text_exprs_v};
use crate::parser::decls::Member;
use crate::text::{dup_texts, texts};

verus! {

broadcast use {crate::model::group_model, crate::text::group_texts};

/// What kind of declaration a type comes from.
#[derive(Debug, Clone, Copy, PartialEq, Eq, Structural)]
pub enum TypeKind {
    Class,
    Interface,
    Enum,
    /// `enum abstract X(T)`
    EnumAbstract,
    /// `typedef X = { ... }`
    StructTypedef,
    /// `typedef X = Y`
    AliasTypedef,
}

/// A type some module declares.
#[derive(Debug, PartialEq)]
pub struct TypeInfo {
    pub name: String,
    pub kind: TypeKind,
    /// The module that declares it.
    pub module_index: usize,
    /// The C++ name it is emitted or found under: its `@:native` rename, or its own name.
    pub cpp: String,
    /// The C++ namespace it lives in.
    pub namespace: Vec<String>,
}

/// What an argument of `super(...)` becomes when the call is not the first statement.
#[derive(Debug, PartialEq)]
pub enum SuperArg {
    /// a member of the holder
    Member(String),
    /// an expression that only needs the parameters
    PassThrough(Expr),
}

/// The intermediate base that computes what a constructor does before `super(...)`.
#[derive(Debug, PartialEq)]
pub struct Holder {
    pub name: String,
    /// The base list of the class with the holder in front.
    pub base_list: String,
    pub member_decls: Vec<String>,
    /// Where the `super(...)` call stands in the constructor body.
    pub super_idx: usize,
    /// Locals that become members.
    pub lifted: Vec<String>,
    /// Members computed from arguments of the `super(...)` call.
    pub hoisted: Vec<(String, Expr)>,
    pub super_args: Vec<SuperArg>,
}

/// What the ownership analysis says of a class.
#[derive(Debug, PartialEq)]
pub struct ClassFacts {
    pub name: String,
    pub module_index: usize,
    /// Fields the object frees when it dies.
    pub owned_fields: Vec<String>,
    /// Container names into which a pushed `new` escapes to class-level storage.
    pub push_receivers: Vec<String>,
    /// Positions of the constructor parameters that take ownership of their argument.
    pub owned_params: Vec<usize>,
    /// The statements of the destructor.
    pub deletes: Vec<String>,
    pub holder: Option<Holder>,
    /// Overrides that look unsound, with their lines.
    pub advisories: Vec<(usize, String)>,
}

/// A source file of the program.
#[derive(Debug, PartialEq)]
pub struct Module {
    /// The file name without its extension.
    pub stem: String,
    /// The directories from the project root to the file.
    pub dir: Vec<String>,
    pub package: Vec<String>,
    pub file: File,
    /// Whether it supplies the prelude.
    pub is_stdafx: bool,
    /// Whether it is only there for what it declares, and not transpiled.
    pub is_include: bool,
    /// Whether it produces a header at all.
    pub has_header: bool,
    /// What its header includes, in order.
    pub includes: Vec<String>,
}

/// A source file that was found.
#[derive(Debug, PartialEq)]
pub struct SourceFile {
    pub path: String,
    /// The parts of the directory it is in.
    pub dir: Vec<String>,
    pub text: String,
}

/// A parsed source file and where it stands.
#[derive(Debug, PartialEq)]
pub struct Unit {
    pub dir: Vec<String>,
    pub stem: String,
    pub file: File,
    pub is_include: bool,
}

/// A whole program.
#[derive(Debug, PartialEq)]
pub struct Program {
    pub modules: Vec<Module>,
    pub types: Vec<TypeInfo>,
    pub facts: Vec<ClassFacts>,
    /// The file stem of the prelude.
    pub stdafx_stem: String,
    /// The prefix of the export macros.
    pub export_macro: String,
    pub no_trace: bool,
    pub extract_depth: usize,
}

/// Mathematical model of [`TypeInfo`].
pub struct TypeInfoV {
    pub name: Seq<char>,
    pub kind: TypeKind,
    pub module_index: int,
    pub cpp: Seq<char>,
    pub namespace: Seq<Seq<char>>,
}

/// Mathematical model of [`SuperArg`].
#[allow(inconsistent_fields)]
pub enum SuperArgV {
    Member(Seq<char>),
    PassThrough(ExprV),
}

/// Mathematical model of [`Holder`].
pub struct HolderV {
    pub name: Seq<char>,
    pub base_list: Seq<char>,
    pub member_decls: Seq<Seq<char>>,
    pub super_idx: int,
    pub lifted: Seq<Seq<char>>,
    pub hoisted: Seq<(Seq<char>, ExprV)>,
    pub super_args: Seq<SuperArgV>,
}

/// Mathematical model of [`ClassFacts`].
pub struct ClassFactsV {
    pub name: Seq<char>,
    pub module_index: int,
    pub owned_fields: Seq<Seq<char>>,
    pub push_receivers: Seq<Seq<char>>,
    pub owned_params: Seq<int>,
    pub deletes: Seq<Seq<char>>,
    pub holder: Option<HolderV>,
    pub advisories: Seq<(int, Seq<char>)>,
}

/// Mathematical model of [`Module`].
pub struct ModuleV {
    pub stem: Seq<char>,
    pub dir: Seq<Seq<char>>,
    pub package: Seq<Seq<char>>,
    pub file: FileV,
    pub is_stdafx: bool,
    pub is_include: bool,
    pub has_header: bool,
    pub includes: Seq<Seq<char>>,
}

/// Mathematical model of [`SourceFile`].
pub struct SourceFileV {
    pub path: Seq<char>,
    pub dir: Seq<Seq<char>>,
    pub text: Seq<char>,
}

/// Mathematical model of [`Unit`].
pub struct UnitV {
    pub dir: Seq<Seq<char>>,
    pub stem: Seq<char>,
    pub file: FileV,
    pub is_include: bool,
}

/// Mathematical model of [`Program`].
pub struct ProgramV {
    pub modules: Seq<ModuleV>,
    pub types: Seq<TypeInfoV>,
    pub facts: Seq<ClassFactsV>,
    pub stdafx_stem: Seq<char>,
    pub export_macro: Seq<char>,
    pub no_trace: bool,
    pub extract_depth: int,
}

impl TypeInfo {
    /// The value with every string and list seen as a sequence.
    pub open spec fn v(self) -> TypeInfoV
    {
        TypeInfoV {
            name: self.name@,
            kind: self.kind,
            module_index: self.module_index as int,
            cpp: self.cpp@,
            namespace: texts(self.namespace@),
        }
    }
}

impl SuperArg {
    /// The value with every string and list seen as a sequence.
    pub open spec fn v(self) -> SuperArgV
    {
        match self {
            SuperArg::Member(a) => SuperArgV::Member(a@),
            SuperArg::PassThrough(a) => SuperArgV::PassThrough(a.v()),
        }
    }
}

impl Holder {
    /// The value with every string and list seen as a sequence.
    pub open spec fn v(self) -> HolderV
    {
        HolderV {
            name: self.name@,
            base_list: self.base_list@,
            member_decls: texts(self.member_decls@),
            super_idx: self.super_idx as int,
            lifted: texts(self.lifted@),
            hoisted: text_exprs_v(self.hoisted@),
            super_args: super_args_v(self.super_args@),
        }
    }
}

impl ClassFacts {
    /// The value with every string and list seen as a sequence.
    pub open spec fn v(self) -> ClassFactsV
    {
        ClassFactsV {
            name: self.name@,
            module_index: self.module_index as int,
            owned_fields: texts(self.owned_fields@),
            push_receivers: texts(self.push_receivers@),
            owned_params: usizes_v(self.owned_params@),
            deletes: texts(self.deletes@),
            holder: (match self.holder { Some(y) => Some(y.v()), None => None }),
            advisories: usize_texts_v(self.advisories@),
        }
    }
}

impl Module {
    /// The value with every string and list seen as a sequence.
    pub open spec fn v(self) -> ModuleV
    {
        ModuleV {
            stem: self.stem@,
            dir: texts(self.dir@),
            package: texts(self.package@),
            file: self.file.v(),
            is_stdafx: self.is_stdafx,
            is_include: self.is_include,
            has_header: self.has_header,
            includes: texts(self.includes@),
        }
    }
}

impl SourceFile {
    /// The value with every string and list seen as a sequence.
    pub open spec fn v(self) -> SourceFileV
    {
        SourceFileV {
            path: self.path@,
            dir: texts(self.dir@),
            text: self.text@,
        }
    }
}

impl Unit {
    /// The value with every string and list seen as a sequence.
    pub open spec fn v(self) -> UnitV
    {
        UnitV {
            dir: texts(self.dir@),
            stem: self.stem@,
            file: self.file.v(),
            is_include: self.is_include,
        }
    }
}

impl Program {
    /// The value with every string and list seen as a sequence.
    pub open spec fn v(self) -> ProgramV
    {
        ProgramV {
            modules: modules_v(self.modules@),
            types: type_infos_v(self.types@),
            facts: class_factss_v(self.facts@),
            stdafx_stem: self.stdafx_stem@,
            export_macro: self.export_macro@,
            no_trace: self.no_trace,
            extract_depth: self.extract_depth as int,
        }
    }
}

/// The models of a list, element by element.
#[verifier::opaque]
pub open spec fn class_factss_v(s: Seq<ClassFacts>) -> Seq<ClassFactsV> {
    Seq::new(s.len(), |i: int| s[i].v())
}

/// A list and its model are equally long.
pub broadcast proof fn class_factss_v_len(s: Seq<ClassFacts>)
    ensures
        #[trigger] class_factss_v(s).len() == s.len(),
{
    reveal(class_factss_v);
}

/// The model of a list holds the models of its elements.
pub broadcast proof fn class_factss_v_index(s: Seq<ClassFacts>, i: int)
    requires
        0 <= i < s.len(),
    ensures
        #[trigger] class_factss_v(s)[i] == s[i].v(),
{
    reveal(class_factss_v);
}

/// Appending to a list appends to its model.
pub broadcast proof fn class_factss_v_push(s: Seq<ClassFacts>, x: ClassFacts)
    ensures
        #[trigger] class_factss_v(s.push(x)) == class_factss_v(s).push(x.v()),
{
    reveal(class_factss_v);
    assert(class_factss_v(s.push(x)) =~= class_factss_v(s).push(x.v()));
}

/// An empty list has an empty model.
pub broadcast proof fn class_factss_v_empty()
    ensures
        #[trigger] class_factss_v(Seq::<ClassFacts>::empty()) == Seq::<ClassFactsV>::empty(),
{
    reveal(class_factss_v);
    assert(class_factss_v(Seq::<ClassFacts>::empty()) =~= Seq::<ClassFactsV>::empty());
}

/// The model of two lists put together.
pub broadcast proof fn class_factss_v_add(a: Seq<ClassFacts>, b: Seq<ClassFacts>)
    ensures
        #[trigger] class_factss_v(a + b) == class_factss_v(a) + class_factss_v(b),
{
    reveal(class_factss_v);
    assert(class_factss_v(a + b) =~= class_factss_v(a) + class_factss_v(b));
}

/// The models of a list, element by element.
#[verifier::opaque]
pub open spec fn modules_v(s: Seq<Module>) -> Seq<ModuleV> {
    Seq::new(s.len(), |i: int| s[i].v())
}

/// A list and its model are equally long.
pub broadcast proof fn modules_v_len(s: Seq<Module>)
    ensures
        #[trigger] modules_v(s).len() == s.len(),
{
    reveal(modules_v);
}

/// The model of a list holds the models of its elements.
pub broadcast proof fn modules_v_index(s: Seq<Module>, i: int)
    requires
        0 <= i < s.len(),
    ensures
        #[trigger] modules_v(s)[i] == s[i].v(),
{
    reveal(modules_v);
}

/// Appending to a list appends to its model.
pub broadcast proof fn modules_v_push(s: Seq<Module>, x: Module)
    ensures
        #[trigger] modules_v(s.push(x)) == modules_v(s).push(x.v()),
{
    reveal(modules_v);
    assert(modules_v(s.push(x)) =~= modules_v(s).push(x.v()));
}

/// An empty list has an empty model.
pub broadcast proof fn modules_v_empty()
    ensures
        #[trigger] modules_v(Seq::<Module>::empty()) == Seq::<ModuleV>::empty(),
{
    reveal(modules_v);
    assert(modules_v(Seq::<Module>::empty()) =~= Seq::<ModuleV>::empty());
}

/// The model of two lists put together.
pub broadcast proof fn modules_v_add(a: Seq<Module>, b: Seq<Module>)
    ensures
        #[trigger] modules_v(a + b) == modules_v(a) + modules_v(b),
{
    reveal(modules_v);
    assert(modules_v(a + b) =~= modules_v(a) + modules_v(b));
}

/// The models of a list, element by element.
#[verifier::opaque]
pub open spec fn source_files_v(s: Seq<SourceFile>) -> Seq<SourceFileV> {
    Seq::new(s.len(), |i: int| s[i].v())
}

/// A list and its model are equally long.
pub broadcast proof fn source_files_v_len(s: Seq<SourceFile>)
    ensures
        #[trigger] source_files_v(s).len() == s.len(),
{
    reveal(source_files_v);
}

/// The model of a list holds the models of its elements.
pub broadcast proof fn source_files_v_index(s: Seq<SourceFile>, i: int)
    requires
        0 <= i < s.len(),
    ensures
        #[trigger] source_files_v(s)[i] == s[i].v(),
{
    reveal(source_files_v);
}

/// Appending to a list appends to its model.
pub broadcast proof fn source_files_v_push(s: Seq<SourceFile>, x: SourceFile)
    ensures
        #[trigger] source_files_v(s.push(x)) == source_files_v(s).push(x.v()),
{
    reveal(source_files_v);
    assert(source_files_v(s.push(x)) =~= source_files_v(s).push(x.v()));
}

/// An empty list has an empty model.
pub broadcast proof fn source_files_v_empty()
    ensures
        #[trigger] source_files_v(Seq::<SourceFile>::empty()) == Seq::<SourceFileV>::empty(),
{
    reveal(source_files_v);
    assert(source_files_v(Seq::<SourceFile>::empty()) =~= Seq::<SourceFileV>::empty());
}

/// The model of two lists put together.
pub broadcast proof fn source_files_v_add(a: Seq<SourceFile>, b: Seq<SourceFile>)
    ensures
        #[trigger] source_files_v(a + b) == source_files_v(a) + source_files_v(b),
{
    reveal(source_files_v);
    assert(source_files_v(a + b) =~= source_files_v(a) + source_files_v(b));
}

/// The models of a list, element by element.
#[verifier::opaque]
pub open spec fn super_args_v(s: Seq<SuperArg>) -> Seq<SuperArgV> {
    Seq::new(s.len(), |i: int| s[i].v())
}

/// A list and its model are equally long.
pub broadcast proof fn super_args_v_len(s: Seq<SuperArg>)
    ensures
        #[trigger] super_args_v(s).len() == s.len(),
{
    reveal(super_args_v);
}

/// The model of a list holds the models of its elements.
pub broadcast proof fn super_args_v_index(s: Seq<SuperArg>, i: int)
    requires
        0 <= i < s.len(),
    ensures
        #[trigger] super_args_v(s)[i] == s[i].v(),
{
    reveal(super_args_v);
}

/// Appending to a list appends to its model.
pub broadcast proof fn super_args_v_push(s: Seq<SuperArg>, x: SuperArg)
    ensures
        #[trigger] super_args_v(s.push(x)) == super_args_v(s).push(x.v()),
{
    reveal(super_args_v);
    assert(super_args_v(s.push(x)) =~= super_args_v(s).push(x.v()));
}

/// An empty list has an empty model.
pub broadcast proof fn super_args_v_empty()
    ensures
        #[trigger] super_args_v(Seq::<SuperArg>::empty()) == Seq::<SuperArgV>::empty(),
{
    reveal(super_args_v);
    assert(super_args_v(Seq::<SuperArg>::empty()) =~= Seq::<SuperArgV>::empty());
}

/// The model of two lists put together.
pub broadcast proof fn super_args_v_add(a: Seq<SuperArg>, b: Seq<SuperArg>)
    ensures
        #[trigger] super_args_v(a + b) == super_args_v(a) + super_args_v(b),
{
    reveal(super_args_v);
    assert(super_args_v(a + b) =~= super_args_v(a) + super_args_v(b));
}

/// The models of a list, element by element.
#[verifier::opaque]
pub open spec fn type_infos_v(s: Seq<TypeInfo>) -> Seq<TypeInfoV> {
    Seq::new(s.len(), |i: int| s[i].v())
}

/// A list and its model are equally long.
pub broadcast proof fn type_infos_v_len(s: Seq<TypeInfo>)
    ensures
        #[trigger] type_infos_v(s).len() == s.len(),
{
    reveal(type_infos_v);
}

/// The model of a list holds the models of its elements.
pub broadcast proof fn type_infos_v_index(s: Seq<TypeInfo>, i: int)
    requires
        0 <= i < s.len(),
    ensures
        #[trigger] type_infos_v(s)[i] == s[i].v(),
{
    reveal(type_infos_v);
}

/// Appending to a list appends to its model.
pub broadcast proof fn type_infos_v_push(s: Seq<TypeInfo>, x: TypeInfo)
    ensures
        #[trigger] type_infos_v(s.push(x)) == type_infos_v(s).push(x.v()),
{
    reveal(type_infos_v);
    assert(type_infos_v(s.push(x)) =~= type_infos_v(s).push(x.v()));
}

/// An empty list has an empty model.
pub broadcast proof fn type_infos_v_empty()
    ensures
        #[trigger] type_infos_v(Seq::<TypeInfo>::empty()) == Seq::<TypeInfoV>::empty(),
{
    reveal(type_infos_v);
    assert(type_infos_v(Seq::<TypeInfo>::empty()) =~= Seq::<TypeInfoV>::empty());
}

/// The model of two lists put together.
pub broadcast proof fn type_infos_v_add(a: Seq<TypeInfo>, b: Seq<TypeInfo>)
    ensures
        #[trigger] type_infos_v(a + b) == type_infos_v(a) + type_infos_v(b),
{
    reveal(type_infos_v);
    assert(type_infos_v(a + b) =~= type_infos_v(a) + type_infos_v(b));
}

/// The models of a list, element by element.
#[verifier::opaque]
pub open spec fn units_v(s: Seq<Unit>) -> Seq<UnitV> {
    Seq::new(s.len(), |i: int| s[i].v())
}

/// A list and its model are equally long.
pub broadcast proof fn units_v_len(s: Seq<Unit>)
    ensures
        #[trigger] units_v(s).len() == s.len(),
{
    reveal(units_v);
}

/// The model of a list holds the models of its elements.
pub broadcast proof fn units_v_index(s: Seq<Unit>, i: int)
    requires
        0 <= i < s.len(),
    ensures
        #[trigger] units_v(s)[i] == s[i].v(),
{
    reveal(units_v);
}

/// Appending to a list appends to its model.
pub broadcast proof fn units_v_push(s: Seq<Unit>, x: Unit)
    ensures
        #[trigger] units_v(s.push(x)) == units_v(s).push(x.v()),
{
    reveal(units_v);
    assert(units_v(s.push(x)) =~= units_v(s).push(x.v()));
}

/// An empty list has an empty model.
pub broadcast proof fn units_v_empty()
    ensures
        #[trigger] units_v(Seq::<Unit>::empty()) == Seq::<UnitV>::empty(),
{
    reveal(units_v);
    assert(units_v(Seq::<Unit>::empty()) =~= Seq::<UnitV>::empty());
}

/// The model of two lists put together.
pub broadcast proof fn units_v_add(a: Seq<Unit>, b: Seq<Unit>)
    ensures
        #[trigger] units_v(a + b) == units_v(a) + units_v(b),
{
    reveal(units_v);
    assert(units_v(a + b) =~= units_v(a) + units_v(b));
}

/// The models of a list, element by element.
#[verifier::opaque]
pub open spec fn usize_texts_v(s: Seq<(usize, String)>) -> Seq<(int, Seq<char>)> {
    Seq::new(s.len(), |i: int| ((s[i].0 as int), s[i].1@))
}

/// A list and its model are equally long.
pub broadcast proof fn usize_texts_v_len(s: Seq<(usize, String)>)
    ensures
        #[trigger] usize_texts_v(s).len() == s.len(),
{
    reveal(usize_texts_v);
}

/// The model of a list holds the models of its elements.
pub broadcast proof fn usize_texts_v_index(s: Seq<(usize, String)>, i: int)
    requires
        0 <= i < s.len(),
    ensures
        #[trigger] usize_texts_v(s)[i] == ((s[i].0 as int), s[i].1@),
{
    reveal(usize_texts_v);
}

/// Appending to a list appends to its model.
pub broadcast proof fn usize_texts_v_push(s: Seq<(usize, String)>, x: (usize, String))
    ensures
        #[trigger] usize_texts_v(s.push(x)) == usize_texts_v(s).push(((x.0 as int), x.1@)),
{
    reveal(usize_texts_v);
    assert(usize_texts_v(s.push(x)) =~= usize_texts_v(s).push(((x.0 as int), x.1@)));
}

/// An empty list has an empty model.
pub broadcast proof fn usize_texts_v_empty()
    ensures
        #[trigger] usize_texts_v(Seq::<(usize, String)>::empty()) == Seq::<(int, Seq<char>)>::empty(),
{
    reveal(usize_texts_v);
    assert(usize_texts_v(Seq::<(usize, String)>::empty()) =~= Seq::<(int, Seq<char>)>::empty());
}

/// The model of two lists put together.
pub broadcast proof fn usize_texts_v_add(a: Seq<(usize, String)>, b: Seq<(usize, String)>)
    ensures
        #[trigger] usize_texts_v(a + b) == usize_texts_v(a) + usize_texts_v(b),
{
    reveal(usize_texts_v);
    assert(usize_texts_v(a + b) =~= usize_texts_v(a) + usize_texts_v(b));
}

/// The models of a list, element by element.
#[verifier::opaque]
pub open spec fn usizes_v(s: Seq<usize>) -> Seq<int> {
    Seq::new(s.len(), |i: int| (s[i] as int))
}

/// A list and its model are equally long.
pub broadcast proof fn usizes_v_len(s: Seq<usize>)
    ensures
        #[trigger] usizes_v(s).len() == s.len(),
{
    reveal(usizes_v);
}

/// The model of a list holds the models of its elements.
pub broadcast proof fn usizes_v_index(s: Seq<usize>, i: int)
    requires
        0 <= i < s.len(),
    ensures
        #[trigger] usizes_v(s)[i] == (s[i] as int),
{
    reveal(usizes_v);
}

/// Appending to a list appends to its model.
pub broadcast proof fn usizes_v_push(s: Seq<usize>, x: usize)
    ensures
        #[trigger] usizes_v(s.push(x)) == usizes_v(s).push((x as int)),
{
    reveal(usizes_v);
    assert(usizes_v(s.push(x)) =~= usizes_v(s).push((x as int)));
}

/// An empty list has an empty model.
pub broadcast proof fn usizes_v_empty()
    ensures
        #[trigger] usizes_v(Seq::<usize>::empty()) == Seq::<int>::empty(),
{
    reveal(usizes_v);
    assert(usizes_v(Seq::<usize>::empty()) =~= Seq::<int>::empty());
}

/// The model of two lists put together.
pub broadcast proof fn usizes_v_add(a: Seq<usize>, b: Seq<usize>)
    ensures
        #[trigger] usizes_v(a + b) == usizes_v(a) + usizes_v(b),
{
    reveal(usizes_v);
    assert(usizes_v(a + b) =~= usizes_v(a) + usizes_v(b));
}

/// How models follow what they are models of.
pub broadcast group group_program {
    class_factss_v_len,
    class_factss_v_index,
    class_factss_v_push,
    class_factss_v_empty,
    class_factss_v_add,
    modules_v_len,
    modules_v_index,
    modules_v_push,
    modules_v_empty,
    modules_v_add,
    source_files_v_len,
    source_files_v_index,
    source_files_v_push,
    source_files_v_empty,
    source_files_v_add,
    super_args_v_len,
    super_args_v_index,
    super_args_v_push,
    super_args_v_empty,
    super_args_v_add,
    type_infos_v_len,
    type_infos_v_index,
    type_infos_v_push,
    type_infos_v_empty,
    type_infos_v_add,
    units_v_len,
    units_v_index,
    units_v_push,
    units_v_empty,
    units_v_add,
    usize_texts_v_len,
    usize_texts_v_index,
    usize_texts_v_push,
    usize_texts_v_empty,
    usize_texts_v_add,
    usizes_v_len,
    usizes_v_index,
    usizes_v_push,
    usizes_v_empty,
    usizes_v_add,
}

impl TypeInfo {
    /// A copy with the same model.
    pub fn dup(&self) -> (r: TypeInfo)
        ensures
            r.v() == self.v(),
    {
        TypeInfo {
            name: self.name.clone(),
            kind: self.kind,
            module_index: self.module_index,
            cpp: self.cpp.clone(),
            namespace: dup_texts(&self.namespace),
        }
    }
}

impl Clone for TypeInfo {
    fn clone(&self) -> (r: TypeInfo)
        ensures
            r.v() == self.v(),
    {
        self.dup()
    }
}

} // verus!
