//! One header for a whole program.

use vstd::prelude::*;

use crate::assemble::{header_path, header_path_spec};
use crate::codegen::common::{sanitize, sanitize_spec};
use crate::codegen::header::{block, block_spec, include_lines, include_lines_spec, inline_defs_section, inline_defs_section_spec, no_feeds, no_feeds_spec, section, section_spec};
use crate::codegen::scan::{with_name, with_name_spec};
use crate::codegen::source::{add_reports, add_reports_spec};
use crate::parser::pp::{trim_end, trim_end_spec};
use crate::prelude::{header_code_of, header_code_of_spec};
use crate::program::{Module, ModuleV, Program, ProgramV, usize_texts_v, usizes_v};
use crate::resolve::{module_at, module_at_spec};
use crate::strings::{to_upper, upper};
use crate::text::{cat2, cat8, empty, same, texts};

verus! {

broadcast use {crate::program::group_program, crate::text::group_texts};

/// Whether an include of a file in `dir` is a header this program generates, from module `j`
/// on.
pub fn is_own_header(prog: &Program, dir: &Vec<String>, name: &str, j: usize) -> (r: bool)
    ensures
        r == is_own_header_spec(prog.v(), texts(dir@), name@, (j as int)),
{
    let ghost j_0 = j;
    let mut j: usize = j;
    #[verifier::loop_isolation(false)]
    loop
        invariant
            is_own_header_spec(prog.v(), texts(dir@), name@, (j_0 as int)) == is_own_header_spec(prog.v(), texts(dir@), name@, (j as int)),
        decreases prog.modules.len() - j,
    {
        if j >= prog.modules.len() {
            return false;
        }
        if same(name, &header_path(dir, &prog.modules[j].dir, &prog.modules[j].stem)) {
            return true;
        }
        j = j + 1;
    }
}

/// The outside includes of a module from `i` on, added to `out`.
pub fn outside_includes(prog: &Program, m: &Module, i: usize, out: Vec<String>) -> (r: Vec<String>)
    ensures
        texts(r@) == outside_includes_spec(prog.v(), m.v(), (i as int), texts(out@)),
{
    let ghost i_0 = i;
    let ghost out_0 = out;
    let mut i: usize = i;
    let mut out: Vec<String> = out;
    #[verifier::loop_isolation(false)]
    loop
        invariant
            outside_includes_spec(prog.v(), m.v(), (i_0 as int), texts(out_0@)) == outside_includes_spec(prog.v(), m.v(), (i as int), texts(out@)),
        decreases m.includes.len() - i,
    {
        if i >= m.includes.len() {
            return out;
        }
        if !same(&m.includes[i], &cat2(&prog.stdafx_stem, ".h")) && !is_own_header(prog, &m.dir, &m.includes[i], 0) {
            out = with_name(out, &m.includes[i]);
        }
        i = i + 1;
    }
}

/// The outside includes of the modules of the indices from `i` on.
pub fn hoisted_includes(prog: &Program, indices: &Vec<usize>, i: usize, out: Vec<String>) -> (r: Vec<String>)
    ensures
        texts(r@) == hoisted_includes_spec(prog.v(), usizes_v(indices@), (i as int), texts(out@)),
{
    let ghost i_0 = i;
    let ghost out_0 = out;
    let mut i: usize = i;
    let mut out: Vec<String> = out;
    #[verifier::loop_isolation(false)]
    loop
        invariant
            hoisted_includes_spec(prog.v(), usizes_v(indices@), (i_0 as int), texts(out_0@)) == hoisted_includes_spec(prog.v(), usizes_v(indices@), (i as int), texts(out@)),
        decreases indices.len() - i,
    {
        if i >= indices.len() {
            return out;
        }
        match module_at(prog, indices[i]) {
            Some(m) => {
                out = outside_includes(prog, m, 0, out);
            },
            None => {},
        }
        i = i + 1;
    }
}

/// The code the modules of the indices from `i` on ask for.
pub fn module_codes(prog: &Program, indices: &Vec<usize>, i: usize, out: String) -> (r: String)
    ensures
        r@ == module_codes_spec(prog.v(), usizes_v(indices@), (i as int), out@),
{
    let ghost i_0 = i;
    let ghost out_0 = out;
    let mut i: usize = i;
    let mut out: String = out;
    #[verifier::loop_isolation(false)]
    loop
        invariant
            module_codes_spec(prog.v(), usizes_v(indices@), (i_0 as int), out_0@) == module_codes_spec(prog.v(), usizes_v(indices@), (i as int), out@),
        decreases indices.len() - i,
    {
        if i >= indices.len() {
            return out;
        }
        match module_at(prog, indices[i]) {
            Some(m) => match header_code_of(&m.file) {
                Some(hc) => {
                    out = cat2(&out, &block(&no_feeds(&hc)));
                },
                None => {},
            },
            None => {},
        }
        i = i + 1;
    }
}

/// The declarations of the modules of the indices from `i` on.
pub fn sections(prog: &Program, indices: &Vec<usize>, i: usize, out: String, warnings: Vec<(usize, String)>, errors: Vec<(usize, String)>) -> (r: (String, Vec<(usize, String)>, Vec<(usize, String)>))
    ensures
        (r.0@, usize_texts_v(r.1@), usize_texts_v(r.2@)) == sections_spec(prog.v(), usizes_v(indices@), (i as int), out@, usize_texts_v(warnings@), usize_texts_v(errors@)),
{
    let ghost i_0 = i;
    let ghost out_0 = out;
    let ghost warnings_0 = warnings;
    let ghost errors_0 = errors;
    let mut i: usize = i;
    let mut out: String = out;
    let mut warnings: Vec<(usize, String)> = warnings;
    let mut errors: Vec<(usize, String)> = errors;
    #[verifier::loop_isolation(false)]
    loop
        invariant
            sections_spec(prog.v(), usizes_v(indices@), (i_0 as int), out_0@, usize_texts_v(warnings_0@), usize_texts_v(errors_0@)) == sections_spec(prog.v(), usizes_v(indices@), (i as int), out@, usize_texts_v(warnings@), usize_texts_v(errors@)),
        decreases indices.len() - i,
    {
        if i >= indices.len() {
            return (out, warnings, errors);
        }
        match module_at(prog, indices[i]) {
            Some(m) => {
                let (text, w, e) = section(prog, indices[i], m, false);
                out = cat2(&out, &text);
                warnings = add_reports(warnings, &w);
                errors = add_reports(errors, &e);
            },
            None => {},
        }
        i = i + 1;
    }
}

/// The inline definitions of the modules of the indices from `i` on.
pub fn inline_sections(prog: &Program, indices: &Vec<usize>, i: usize, out: String, warnings: Vec<(usize, String)>, errors: Vec<(usize, String)>) -> (r: (String, Vec<(usize, String)>, Vec<(usize, String)>))
    ensures
        (r.0@, usize_texts_v(r.1@), usize_texts_v(r.2@)) == inline_sections_spec(prog.v(), usizes_v(indices@), (i as int), out@, usize_texts_v(warnings@), usize_texts_v(errors@)),
{
    let ghost i_0 = i;
    let ghost out_0 = out;
    let ghost warnings_0 = warnings;
    let ghost errors_0 = errors;
    let mut i: usize = i;
    let mut out: String = out;
    let mut warnings: Vec<(usize, String)> = warnings;
    let mut errors: Vec<(usize, String)> = errors;
    #[verifier::loop_isolation(false)]
    loop
        invariant
            inline_sections_spec(prog.v(), usizes_v(indices@), (i_0 as int), out_0@, usize_texts_v(warnings_0@), usize_texts_v(errors_0@)) == inline_sections_spec(prog.v(), usizes_v(indices@), (i as int), out@, usize_texts_v(warnings@), usize_texts_v(errors@)),
        decreases indices.len() - i,
    {
        if i >= indices.len() {
            return (out, warnings, errors);
        }
        match module_at(prog, indices[i]) {
            Some(m) => {
                let (text, w, e) = inline_defs_section(prog, indices[i], m);
                out = cat2(&out, &text);
                warnings = add_reports(warnings, &w);
                errors = add_reports(errors, &e);
            },
            None => {},
        }
        i = i + 1;
    }
}

/// One self-contained header of the given modules: the prelude, the outside includes, every
/// module's declarations, then every module's definitions.
pub fn generate_amalgamation(prog: &Program, stem: &str, indices: &Vec<usize>, prelude: &str) -> (r: (String, Vec<(usize, String)>, Vec<(usize, String)>))
    ensures
        (r.0@, usize_texts_v(r.1@), usize_texts_v(r.2@)) == generate_amalgamation_spec(prog.v(), stem@, usizes_v(indices@), prelude@),
{
    proof {
        reveal(generate_amalgamation_spec);
    }
    let guard = cat2(&sanitize(&to_upper(stem)), "_H");
    let includes = include_lines(&hoisted_includes(prog, indices, 0, Vec::new()), "", 0, String::new());
    let gap = if empty(&includes) { "" } else { "\n" };
    let head = cat2(&cat8("#ifndef ", &guard, "\n#define ", &guard, "\n\n", &block(&trim_end(prelude)), &includes, gap), &module_codes(prog, indices, 0, String::new()));
    let (decls, w, e) = sections(prog, indices, 0, head, Vec::new(), Vec::new());
    let (defs, w2, e2) = inline_sections(prog, indices, 0, decls, w, e);
    (cat2(&defs, "#endif\n"), w2, e2)
}

/// What [`is_own_header`] computes.
pub open spec fn is_own_header_spec(prog: ProgramV, dir: Seq<Seq<char>>, name: Seq<char>, j: int) -> bool
    decreases prog.modules.len() - j,
{
    if !(0 <= j < prog.modules.len()) { false } else {
        if (name == header_path_spec(dir, prog.modules[j].dir, prog.modules[j].stem)) { true } else {
            let j = j + 1;
            is_own_header_spec(prog, dir, name, j)
        }
    }
}

/// What [`outside_includes`] computes.
pub open spec fn outside_includes_spec(prog: ProgramV, m: ModuleV, i: int, out: Seq<Seq<char>>) -> Seq<Seq<char>>
    decreases m.includes.len() - i,
{
    if !(0 <= i < m.includes.len()) { out } else {
        let out = if !(m.includes[i] == prog.stdafx_stem + ".h"@) && (!is_own_header_spec(prog, m.dir, m.includes[i], 0int)) {
            let out = with_name_spec(out, m.includes[i]);
            out
        } else { out };
        let i = i + 1;
        outside_includes_spec(prog, m, i, out)
    }
}

/// What [`hoisted_includes`] computes.
pub open spec fn hoisted_includes_spec(prog: ProgramV, indices: Seq<int>, i: int, out: Seq<Seq<char>>) -> Seq<Seq<char>>
    decreases indices.len() - i,
{
    if !(0 <= i < indices.len()) { out } else {
        let out = match module_at_spec(prog, indices[i]) {
            Some(m) => {
                let out = outside_includes_spec(prog, m, 0int, out);
                out
            },
            None => { out },
        };
        let i = i + 1;
        hoisted_includes_spec(prog, indices, i, out)
    }
}

/// What [`module_codes`] computes.
pub open spec fn module_codes_spec(prog: ProgramV, indices: Seq<int>, i: int, out: Seq<char>) -> Seq<char>
    decreases indices.len() - i,
{
    if !(0 <= i < indices.len()) { out } else {
        let out = match module_at_spec(prog, indices[i]) {
            Some(m) => {
                match header_code_of_spec(m.file) {
                    Some(hc) => {
                        let out = out + (block_spec(no_feeds_spec(hc)));
                        out
                    },
                    None => { out },
                }
            },
            None => { out },
        };
        let i = i + 1;
        module_codes_spec(prog, indices, i, out)
    }
}

/// What [`sections`] computes.
pub open spec fn sections_spec(prog: ProgramV, indices: Seq<int>, i: int, out: Seq<char>, warnings: Seq<(int, Seq<char>)>, errors: Seq<(int, Seq<char>)>) -> (Seq<char>, Seq<(int, Seq<char>)>, Seq<(int, Seq<char>)>)
    decreases indices.len() - i,
{
    if !(0 <= i < indices.len()) { (out, warnings, errors) } else {
        let (errors, out, warnings) = match module_at_spec(prog, indices[i]) {
            Some(m) => {
                let (text, w, e) = section_spec(prog, indices[i], m, false);
                let out = out + text;
                let warnings = add_reports_spec(warnings, w);
                let errors = add_reports_spec(errors, e);
                (errors, out, warnings)
            },
            None => { (errors, out, warnings) },
        };
        let i = i + 1;
        sections_spec(prog, indices, i, out, warnings, errors)
    }
}

/// What [`inline_sections`] computes.
pub open spec fn inline_sections_spec(prog: ProgramV, indices: Seq<int>, i: int, out: Seq<char>, warnings: Seq<(int, Seq<char>)>, errors: Seq<(int, Seq<char>)>) -> (Seq<char>, Seq<(int, Seq<char>)>, Seq<(int, Seq<char>)>)
    decreases indices.len() - i,
{
    if !(0 <= i < indices.len()) { (out, warnings, errors) } else {
        let (errors, out, warnings) = match module_at_spec(prog, indices[i]) {
            Some(m) => {
                let (text, w, e) = inline_defs_section_spec(prog, indices[i], m);
                let out = out + text;
                let warnings = add_reports_spec(warnings, w);
                let errors = add_reports_spec(errors, e);
                (errors, out, warnings)
            },
            None => { (errors, out, warnings) },
        };
        let i = i + 1;
        inline_sections_spec(prog, indices, i, out, warnings, errors)
    }
}

/// What [`generate_amalgamation`] computes.
#[verifier::opaque]
pub open spec fn generate_amalgamation_spec(prog: ProgramV, stem: Seq<char>, indices: Seq<int>, prelude: Seq<char>) -> (Seq<char>, Seq<(int, Seq<char>)>, Seq<(int, Seq<char>)>)
{
    let guard = (sanitize_spec(upper(stem))) + "_H"@;
    let includes = include_lines_spec(hoisted_includes_spec(prog, indices, 0int, Seq::empty()), ""@, 0int, Seq::empty());
    let gap = if ((includes).len() == 0) { ""@ } else { "\n"@ };
    let head = "#ifndef "@ + guard + "\n#define "@ + guard + "\n\n"@ + (block_spec(trim_end_spec(prelude))) + includes + gap + (module_codes_spec(prog, indices, 0int, Seq::empty()));
    let (decls, w, e) = sections_spec(prog, indices, 0int, head, Seq::empty(), Seq::empty());
    let (defs, w2, e2) = inline_sections_spec(prog, indices, 0int, decls, w, e);
    (defs + "#endif\n"@, w2, e2)
}

} // verus!
