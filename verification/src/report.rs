//! What a run reports and what it is to do.

use vstd::prelude::*;

use crate::program::usize_texts_v;
use crate::text::texts;

verus! {

broadcast use {crate::program::group_program, crate::text::group_texts};

/// An error found in a file; line 0 where none is known.
#[derive(Debug, PartialEq)]
pub struct Diagnostic {
    pub file: String,
    pub line: usize,
    pub message: String,
}

/// What an analysis found in a module before anything is generated.
#[derive(Debug, PartialEq)]
pub struct Findings {
    pub deprecations: Vec<(usize, String)>,
    pub errors: Vec<Diagnostic>,
}

/// One thing a run does.
#[derive(Debug, PartialEq)]
pub enum Step {
    /// Tell the user.
    Info(String),
    /// Warn the user.
    Warn(String),
    /// Emit a generated file.
    Emit {
        dir: Vec<String>,
        file: String,
        text: String,
    },
}

/// A directory that received a header, and the package of what is in it.
#[derive(Debug, PartialEq)]
pub struct HeaderDir {
    pub dir: Vec<String>,
    pub package: Vec<String>,
}

/// What a run does, and the errors that keep modules from being generated.
#[derive(Debug, PartialEq)]
pub struct Plan {
    pub steps: Vec<Step>,
    pub errors: Vec<Diagnostic>,
    /// In order of the directories.
    pub dirs: Vec<HeaderDir>,
}

/// How far a run has come.
#[derive(Debug, PartialEq)]
pub struct Run {
    /// The module that is next.
    pub at: usize,
    /// Whether it, or the single header, was announced.
    pub announced: bool,
    /// How many modules were announced.
    pub done: usize,
    pub over: bool,
    pub plan: Plan,
}

/// A function of a package, and the file that defines it.
#[derive(Debug, PartialEq)]
pub struct SeenFn {
    pub package: Vec<String>,
    pub name: String,
    pub file: String,
}

/// Mathematical model of [`Diagnostic`].
pub struct DiagnosticV {
    pub file: Seq<char>,
    pub line: int,
    pub message: Seq<char>,
}

/// Mathematical model of [`Findings`].
pub struct FindingsV {
    pub deprecations: Seq<(int, Seq<char>)>,
    pub errors: Seq<DiagnosticV>,
}

/// Mathematical model of [`Step`].
#[allow(inconsistent_fields)]
pub enum StepV {
    Info(Seq<char>),
    Warn(Seq<char>),
    Emit { dir: Seq<Seq<char>>, file: Seq<char>, text: Seq<char> },
}

/// Mathematical model of [`HeaderDir`].
pub struct HeaderDirV {
    pub dir: Seq<Seq<char>>,
    pub package: Seq<Seq<char>>,
}

/// Mathematical model of [`Plan`].
pub struct PlanV {
    pub steps: Seq<StepV>,
    pub errors: Seq<DiagnosticV>,
    pub dirs: Seq<HeaderDirV>,
}

/// Mathematical model of [`Run`].
pub struct RunV {
    pub at: int,
    pub announced: bool,
    pub done: int,
    pub over: bool,
    pub plan: PlanV,
}

/// Mathematical model of [`SeenFn`].
pub struct SeenFnV {
    pub package: Seq<Seq<char>>,
    pub name: Seq<char>,
    pub file: Seq<char>,
}

impl Diagnostic {
    /// The value with every string and list seen as a sequence.
    pub open spec fn v(self) -> DiagnosticV
    {
        DiagnosticV {
            file: self.file@,
            line: self.line as int,
            message: self.message@,
        }
    }
}

impl Findings {
    /// The value with every string and list seen as a sequence.
    pub open spec fn v(self) -> FindingsV
    {
        FindingsV {
            deprecations: usize_texts_v(self.deprecations@),
            errors: diagnostics_v(self.errors@),
        }
    }
}

impl Step {
    /// The value with every string and list seen as a sequence.
    pub open spec fn v(self) -> StepV
    {
        match self {
            Step::Info(a) => StepV::Info(a@),
            Step::Warn(a) => StepV::Warn(a@),
            Step::Emit { dir, file, text } => StepV::Emit {
                dir: texts(dir@),
                file: file@,
                text: text@,
            },
        }
    }
}

impl HeaderDir {
    /// The value with every string and list seen as a sequence.
    pub open spec fn v(self) -> HeaderDirV
    {
        HeaderDirV {
            dir: texts(self.dir@),
            package: texts(self.package@),
        }
    }
}

impl Plan {
    /// The value with every string and list seen as a sequence.
    pub open spec fn v(self) -> PlanV
    {
        PlanV {
            steps: steps_v(self.steps@),
            errors: diagnostics_v(self.errors@),
            dirs: header_dirs_v(self.dirs@),
        }
    }
}

impl Run {
    /// The value with every string and list seen as a sequence.
    pub open spec fn v(self) -> RunV
    {
        RunV {
            at: self.at as int,
            announced: self.announced,
            done: self.done as int,
            over: self.over,
            plan: self.plan.v(),
        }
    }
}

impl SeenFn {
    /// The value with every string and list seen as a sequence.
    pub open spec fn v(self) -> SeenFnV
    {
        SeenFnV {
            package: texts(self.package@),
            name: self.name@,
            file: self.file@,
        }
    }
}

/// The models of a list, element by element.
#[verifier::opaque]
pub open spec fn diagnostics_v(s: Seq<Diagnostic>) -> Seq<DiagnosticV> {
    Seq::new(s.len(), |i: int| s[i].v())
}

/// A list and its model are equally long.
pub broadcast proof fn diagnostics_v_len(s: Seq<Diagnostic>)
    ensures
        #[trigger] diagnostics_v(s).len() == s.len(),
{
    reveal(diagnostics_v);
}

/// The model of a list holds the models of its elements.
pub broadcast proof fn diagnostics_v_index(s: Seq<Diagnostic>, i: int)
    requires
        0 <= i < s.len(),
    ensures
        #[trigger] diagnostics_v(s)[i] == s[i].v(),
{
    reveal(diagnostics_v);
}

/// Appending to a list appends to its model.
pub broadcast proof fn diagnostics_v_push(s: Seq<Diagnostic>, x: Diagnostic)
    ensures
        #[trigger] diagnostics_v(s.push(x)) == diagnostics_v(s).push(x.v()),
{
    reveal(diagnostics_v);
    assert(diagnostics_v(s.push(x)) =~= diagnostics_v(s).push(x.v()));
}

/// An empty list has an empty model.
pub broadcast proof fn diagnostics_v_empty()
    ensures
        #[trigger] diagnostics_v(Seq::<Diagnostic>::empty()) == Seq::<DiagnosticV>::empty(),
{
    reveal(diagnostics_v);
    assert(diagnostics_v(Seq::<Diagnostic>::empty()) =~= Seq::<DiagnosticV>::empty());
}

/// The model of two lists put together.
pub broadcast proof fn diagnostics_v_add(a: Seq<Diagnostic>, b: Seq<Diagnostic>)
    ensures
        #[trigger] diagnostics_v(a + b) == diagnostics_v(a) + diagnostics_v(b),
{
    reveal(diagnostics_v);
    assert(diagnostics_v(a + b) =~= diagnostics_v(a) + diagnostics_v(b));
}

/// The models of a list, element by element.
#[verifier::opaque]
pub open spec fn findingss_v(s: Seq<Findings>) -> Seq<FindingsV> {
    Seq::new(s.len(), |i: int| s[i].v())
}

/// A list and its model are equally long.
pub broadcast proof fn findingss_v_len(s: Seq<Findings>)
    ensures
        #[trigger] findingss_v(s).len() == s.len(),
{
    reveal(findingss_v);
}

/// The model of a list holds the models of its elements.
pub broadcast proof fn findingss_v_index(s: Seq<Findings>, i: int)
    requires
        0 <= i < s.len(),
    ensures
        #[trigger] findingss_v(s)[i] == s[i].v(),
{
    reveal(findingss_v);
}

/// Appending to a list appends to its model.
pub broadcast proof fn findingss_v_push(s: Seq<Findings>, x: Findings)
    ensures
        #[trigger] findingss_v(s.push(x)) == findingss_v(s).push(x.v()),
{
    reveal(findingss_v);
    assert(findingss_v(s.push(x)) =~= findingss_v(s).push(x.v()));
}

/// An empty list has an empty model.
pub broadcast proof fn findingss_v_empty()
    ensures
        #[trigger] findingss_v(Seq::<Findings>::empty()) == Seq::<FindingsV>::empty(),
{
    reveal(findingss_v);
    assert(findingss_v(Seq::<Findings>::empty()) =~= Seq::<FindingsV>::empty());
}

/// The model of two lists put together.
pub broadcast proof fn findingss_v_add(a: Seq<Findings>, b: Seq<Findings>)
    ensures
        #[trigger] findingss_v(a + b) == findingss_v(a) + findingss_v(b),
{
    reveal(findingss_v);
    assert(findingss_v(a + b) =~= findingss_v(a) + findingss_v(b));
}

/// The models of a list, element by element.
#[verifier::opaque]
pub open spec fn header_dirs_v(s: Seq<HeaderDir>) -> Seq<HeaderDirV> {
    Seq::new(s.len(), |i: int| s[i].v())
}

/// A list and its model are equally long.
pub broadcast proof fn header_dirs_v_len(s: Seq<HeaderDir>)
    ensures
        #[trigger] header_dirs_v(s).len() == s.len(),
{
    reveal(header_dirs_v);
}

/// The model of a list holds the models of its elements.
pub broadcast proof fn header_dirs_v_index(s: Seq<HeaderDir>, i: int)
    requires
        0 <= i < s.len(),
    ensures
        #[trigger] header_dirs_v(s)[i] == s[i].v(),
{
    reveal(header_dirs_v);
}

/// Appending to a list appends to its model.
pub broadcast proof fn header_dirs_v_push(s: Seq<HeaderDir>, x: HeaderDir)
    ensures
        #[trigger] header_dirs_v(s.push(x)) == header_dirs_v(s).push(x.v()),
{
    reveal(header_dirs_v);
    assert(header_dirs_v(s.push(x)) =~= header_dirs_v(s).push(x.v()));
}

/// An empty list has an empty model.
pub broadcast proof fn header_dirs_v_empty()
    ensures
        #[trigger] header_dirs_v(Seq::<HeaderDir>::empty()) == Seq::<HeaderDirV>::empty(),
{
    reveal(header_dirs_v);
    assert(header_dirs_v(Seq::<HeaderDir>::empty()) =~= Seq::<HeaderDirV>::empty());
}

/// The model of two lists put together.
pub broadcast proof fn header_dirs_v_add(a: Seq<HeaderDir>, b: Seq<HeaderDir>)
    ensures
        #[trigger] header_dirs_v(a + b) == header_dirs_v(a) + header_dirs_v(b),
{
    reveal(header_dirs_v);
    assert(header_dirs_v(a + b) =~= header_dirs_v(a) + header_dirs_v(b));
}

/// The models of a list, element by element.
#[verifier::opaque]
pub open spec fn seen_fns_v(s: Seq<SeenFn>) -> Seq<SeenFnV> {
    Seq::new(s.len(), |i: int| s[i].v())
}

/// A list and its model are equally long.
pub broadcast proof fn seen_fns_v_len(s: Seq<SeenFn>)
    ensures
        #[trigger] seen_fns_v(s).len() == s.len(),
{
    reveal(seen_fns_v);
}

/// The model of a list holds the models of its elements.
pub broadcast proof fn seen_fns_v_index(s: Seq<SeenFn>, i: int)
    requires
        0 <= i < s.len(),
    ensures
        #[trigger] seen_fns_v(s)[i] == s[i].v(),
{
    reveal(seen_fns_v);
}

/// Appending to a list appends to its model.
pub broadcast proof fn seen_fns_v_push(s: Seq<SeenFn>, x: SeenFn)
    ensures
        #[trigger] seen_fns_v(s.push(x)) == seen_fns_v(s).push(x.v()),
{
    reveal(seen_fns_v);
    assert(seen_fns_v(s.push(x)) =~= seen_fns_v(s).push(x.v()));
}

/// An empty list has an empty model.
pub broadcast proof fn seen_fns_v_empty()
    ensures
        #[trigger] seen_fns_v(Seq::<SeenFn>::empty()) == Seq::<SeenFnV>::empty(),
{
    reveal(seen_fns_v);
    assert(seen_fns_v(Seq::<SeenFn>::empty()) =~= Seq::<SeenFnV>::empty());
}

/// The model of two lists put together.
pub broadcast proof fn seen_fns_v_add(a: Seq<SeenFn>, b: Seq<SeenFn>)
    ensures
        #[trigger] seen_fns_v(a + b) == seen_fns_v(a) + seen_fns_v(b),
{
    reveal(seen_fns_v);
    assert(seen_fns_v(a + b) =~= seen_fns_v(a) + seen_fns_v(b));
}

/// The models of a list, element by element.
#[verifier::opaque]
pub open spec fn steps_v(s: Seq<Step>) -> Seq<StepV> {
    Seq::new(s.len(), |i: int| s[i].v())
}

/// A list and its model are equally long.
pub broadcast proof fn steps_v_len(s: Seq<Step>)
    ensures
        #[trigger] steps_v(s).len() == s.len(),
{
    reveal(steps_v);
}

/// The model of a list holds the models of its elements.
pub broadcast proof fn steps_v_index(s: Seq<Step>, i: int)
    requires
        0 <= i < s.len(),
    ensures
        #[trigger] steps_v(s)[i] == s[i].v(),
{
    reveal(steps_v);
}

/// Appending to a list appends to its model.
pub broadcast proof fn steps_v_push(s: Seq<Step>, x: Step)
    ensures
        #[trigger] steps_v(s.push(x)) == steps_v(s).push(x.v()),
{
    reveal(steps_v);
    assert(steps_v(s.push(x)) =~= steps_v(s).push(x.v()));
}

/// An empty list has an empty model.
pub broadcast proof fn steps_v_empty()
    ensures
        #[trigger] steps_v(Seq::<Step>::empty()) == Seq::<StepV>::empty(),
{
    reveal(steps_v);
    assert(steps_v(Seq::<Step>::empty()) =~= Seq::<StepV>::empty());
}

/// The model of two lists put together.
pub broadcast proof fn steps_v_add(a: Seq<Step>, b: Seq<Step>)
    ensures
        #[trigger] steps_v(a + b) == steps_v(a) + steps_v(b),
{
    reveal(steps_v);
    assert(steps_v(a + b) =~= steps_v(a) + steps_v(b));
}

/// How models follow what they are models of.
pub broadcast group group_report {
    diagnostics_v_len,
    diagnostics_v_index,
    diagnostics_v_push,
    diagnostics_v_empty,
    diagnostics_v_add,
    findingss_v_len,
    findingss_v_index,
    findingss_v_push,
    findingss_v_empty,
    findingss_v_add,
    header_dirs_v_len,
    header_dirs_v_index,
    header_dirs_v_push,
    header_dirs_v_empty,
    header_dirs_v_add,
    seen_fns_v_len,
    seen_fns_v_index,
    seen_fns_v_push,
    seen_fns_v_empty,
    seen_fns_v_add,
    steps_v_len,
    steps_v_index,
    steps_v_push,
    steps_v_empty,
    steps_v_add,
}

} // verus!
