//! What holds of the generated headers and sources.

use vstd::prelude::*;

use crate::codegen::common::{sanitize_from_spec, sanitize_spec};
use crate::codegen::header::{HeaderOptsV, block_spec, build_header_spec, generate_header_with_spec, include_lines_spec, no_feeds_spec, section_spec};
use crate::codegen::modfns::is_emitted_class_spec;
use crate::codegen::source::{add_reports_spec, advisories_spec, class_defs_spec, classes_text_spec, export_defs_spec, generate_source_diagnostics_spec, has_ns_body_spec, module_defs_spec, ns_close_spec, ns_open_spec, source_text_spec};
use crate::lexer::is_word_spec;
use crate::model::DeclV;
use crate::parser::pp::trim_end_spec;
use crate::program::ProgramV;
use crate::resolve::module_at_spec;
use crate::strings::upper;

verus! {

broadcast use {crate::model::group_model, crate::program::group_program, crate::text::group_texts};

proof fn sanitized_from(cs: Seq<char>, i: int, out: Seq<char>)
    requires
        0 <= i <= cs.len(),
        out.len() == i,
        forall|k: int| 0 <= k < i ==> #[trigger] out[k] == (if is_word_spec(cs[k]) { cs[k] } else { '_' }),
    ensures
        sanitize_from_spec(cs, i, out).len() == cs.len(),
        forall|k: int| 0 <= k < cs.len() ==> #[trigger] sanitize_from_spec(cs, i, out)[k] == (if is_word_spec(cs[k]) { cs[k] } else { '_' }),
    decreases cs.len() - i,
{
    reveal_strlit("_");
    if i < cs.len() {
        let more = if is_word_spec(cs[i]) { out.push(cs[i]) } else { out + "_"@ };
        assert(more.len() == i + 1);
        assert forall|k: int| 0 <= k < i + 1 implies #[trigger] more[k] == (if is_word_spec(cs[k]) { cs[k] } else { '_' }) by {
            if k < i {
                assert(more[k] == out[k]);
            }
        }
        sanitized_from(cs, i + 1, more);
    }
}

/// An identifier is made of a text character by character: one that can stand in a name is
/// kept, any other becomes an underscore.
pub proof fn law_identifier_of_a_text(s: Seq<char>)
    ensures
        sanitize_spec(s).len() == s.len(),
        forall|k: int| 0 <= k < s.len() ==> #[trigger] sanitize_spec(s)[k] == (if is_word_spec(s[k]) { s[k] } else { '_' }),
        forall|k: int| 0 <= k < s.len() ==> is_word_spec(#[trigger] sanitize_spec(s)[k]),
{
    sanitized_from(s, 0, Seq::empty());
}

/// The include guard of a header of this stem.
pub open spec fn guard_of(stem: Seq<char>) -> Seq<char> {
    sanitize_spec(upper(stem)) + "_H"@
}

/// Whether a text opens with an include guard and closes with the end of it.
pub open spec fn is_guarded(text: Seq<char>, guard: Seq<char>) -> bool {
    &&& ("#ifndef "@ + guard + "\n#define "@ + guard + "\n\n"@).is_prefix_of(text)
    &&& ("#endif\n"@).is_suffix_of(text)
    &&& ("#ifndef "@ + guard + "\n#define "@ + guard + "\n\n"@ + "#endif\n"@).len() <= text.len()
}

/// A header stands between its include guard and the end of it; the guard is named after the
/// stem of the file, or after the one that is asked for.
pub proof fn law_header_is_guarded(prog: ProgramV, mi: int, opts: HeaderOptsV)
    ensures
        generate_header_with_spec(prog, mi, opts) matches Some(out) ==> is_guarded(
            out.0,
            guard_of(match opts.guard_stem { Some(s) => s, None => prog.modules[mi].stem }),
        ),
{
    reveal(generate_header_with_spec);
    reveal(build_header_spec);
    reveal(module_at_spec);
    match generate_header_with_spec(prog, mi, opts) {
        Some(out) => {
            let m = prog.modules[mi];
            let guard = guard_of(match opts.guard_stem { Some(s) => s, None => m.stem });
            let head = "#ifndef "@ + guard + "\n#define "@ + guard + "\n\n"@;
            let tail = "#endif\n"@;
            assert(out == build_header_spec(prog, mi, m, opts));
            let prelude = match opts.inline_prelude {
                Some(text) => block_spec(trim_end_spec(text)),
                None => Seq::empty(),
            };
            let skip = match opts.inline_prelude {
                Some(_) => prog.stdafx_stem + ".h"@,
                None => Seq::empty(),
            };
            let code = match opts.header_code {
                Some(hc) => block_spec(no_feeds_spec(hc)),
                None => Seq::empty(),
            };
            let lines = include_lines_spec(m.includes, skip, 0, Seq::empty());
            let text = section_spec(prog, mi, m, opts.inline_bodies).0;
            let inside = prelude + lines + "\n"@ + code + text;
            assert(out.0 == head + prelude + lines + "\n"@ + code + text + tail);
            assert(out.0 =~= head + inside + tail);
            assert(head =~= out.0.subrange(0, head.len() as int));
            assert(tail =~= out.0.subrange(out.0.len() - tail.len(), out.0.len() as int));
        },
        None => {},
    }
}

proof fn classes_come_after(prog: ProgramV, mi: int, decls: Seq<DeclV>, depth: int, no_trace: bool, i: int, out: Seq<char>, warnings: Seq<(int, Seq<char>)>, errors: Seq<(int, Seq<char>)>, head: Seq<char>)
    requires
        0 <= i,
        head.is_prefix_of(out),
    ensures
        head.is_prefix_of(classes_text_spec(prog, mi, decls, depth, no_trace, i, out, warnings, errors).0),
    decreases decls.len() - i,
{
    if i < decls.len() {
        match decls[i] {
            DeclV::Class(c) => {
                if is_emitted_class_spec(*c) {
                    let (text, w, e) = class_defs_spec(prog, mi, *c, depth, no_trace, false);
                    stays_in_front(head, out, text);
                    classes_come_after(prog, mi, decls, depth, no_trace, i + 1, out + text,
                        add_reports_spec(add_reports_spec(warnings, w), advisories_spec(prog, mi, *c)), add_reports_spec(errors, e), head);
                } else {
                    classes_come_after(prog, mi, decls, depth, no_trace, i + 1, out, warnings, errors, head);
                }
            },
            _ => {
                classes_come_after(prog, mi, decls, depth, no_trace, i + 1, out, warnings, errors, head);
            },
        }
    }
}

proof fn stays_in_front(head: Seq<char>, out: Seq<char>, more: Seq<char>)
    requires
        head.is_prefix_of(out),
    ensures
        head.is_prefix_of(out + more),
{
    assert(head =~= (out + more).subrange(0, head.len() as int));
}

proof fn closing_comes_after(n: int, out: Seq<char>, head: Seq<char>)
    requires
        head.is_prefix_of(out),
    ensures
        head.is_prefix_of(ns_close_spec(n, out)),
    decreases n,
{
    if n >= 1 {
        stays_in_front(head, out, "}\n"@);
        closing_comes_after(n - 1, out + "}\n"@, head);
    }
}

/// The first line of a source includes the header of the same stem.
pub proof fn law_source_includes_its_header(prog: ProgramV, mi: int, depth: int, no_trace: bool)
    ensures
        generate_source_diagnostics_spec(prog, mi, depth, no_trace) matches Some(out)
            ==> ("#include \""@ + prog.modules[mi].stem + ".h\"\n\n"@).is_prefix_of(out.0),
{
    reveal(generate_source_diagnostics_spec);
    reveal(source_text_spec);
    reveal(module_at_spec);
    match generate_source_diagnostics_spec(prog, mi, depth, no_trace) {
        Some(out) => {
            let m = prog.modules[mi];
            let decls = m.file.decls;
            let head = "#include \""@ + m.stem + ".h\"\n\n"@;
            assert(head.is_prefix_of(head));
            assert(out == source_text_spec(prog, mi, m, depth, no_trace));
            if !has_ns_body_spec(decls) {
                stays_in_front(head, head, export_defs_spec(prog, mi, decls, ""@, depth, no_trace).0);
            } else {
                let (text, w, e) = module_defs_spec(prog, mi, decls, depth, no_trace, false);
                let open = ns_open_spec(m.package, 0, Seq::empty());
                stays_in_front(head, head, open);
                stays_in_front(head, head + open, "\n"@);
                stays_in_front(head, head + open + "\n"@, text);
                let start = head + open + "\n"@ + text;
                classes_come_after(prog, mi, decls, depth, no_trace, 0, start, w, e, head);
                let body = classes_text_spec(prog, mi, decls, depth, no_trace, 0, start, w, e).0;
                closing_comes_after(m.package.len() as int, body, head);
                let closed = ns_close_spec(m.package.len() as int, body);
                stays_in_front(head, closed, export_defs_spec(prog, mi, decls, "\n"@, depth, no_trace).0);
            }
        },
        None => {},
    }
}

} // verus!
