//! The prelude every generated header starts from.

use vstd::prelude::*;

use crate::ast::{Decl, File};
use crate::codegen::common::{sanitize, sanitize_spec};
use crate::codegen::header::{block, block_spec, no_feeds, no_feeds_spec};
use crate::codegen::stmt::{line_feeds, line_feeds_spec};
use crate::model::{DeclV, FileV, decls_v};
use crate::resolve::{decl_meta, decl_meta_spec, meta_arg, meta_arg_spec};
use crate::strings::{join, join_spec, to_upper, upper};
use crate::text::{cat2, cat3, cat5, cat7, cat8, dup_texts, texts};

verus! {

broadcast use {crate::model::group_model, crate::text::group_texts};

/// The macros an exported function or class is marked with.
pub fn export_macros(name: &str) -> (r: String)
    ensures
        r@ == export_macros_spec(name@),
{
    cat5(&cat8(&cat8("#if defined(_WIN32)\n#define ", name, "_EXPORT extern \"C\" __declspec(dllexport)\n#define ", name, "_CALL __cdecl\n#define ", name, "_CLASS __declspec(dllexport)\n#elif defined(__GNUC__) && __GNUC__ >= 4\n#define ", name), "_EXPORT extern \"C\" __attribute__((visibility(\"default\")))\n#define ", name, "_CALL\n#define ", name, "_CLASS __attribute__((visibility(\"default\")))\n#else\n#define ", name, "_EXPORT extern \"C\"\n#define "), name, "_CALL\n#define ", name, "_CLASS\n#endif\n")
}

/// The text of the prelude: the library headers, the code a project adds, and the export
/// macros.
pub fn prelude_body(header_code: &Option<String>, export_macro: &str) -> (r: String)
    ensures
        r@ == prelude_body_spec((match header_code { Some(y) => Some(y@), None => None }), export_macro@),
{
    proof {
        reveal(prelude_body_spec);
    }
    let code = match header_code {
        Some(hc) => block(&no_feeds(&line_feeds(hc))),
        None => String::new(),
    };
    cat3("#include <stdio.h>\n#include <stdlib.h>\n#include <math.h>\n#include <time.h>\n#include <string>\n#include <vector>\n#include <map>\n\n", &code, &export_macros(export_macro))
}

/// The prelude as a header of its own.
pub fn content_for(stem: &str, header_code: &Option<String>, package: &Vec<String>, export_macro: &str) -> (r: String)
    ensures
        r@ == content_for_spec(stem@, (match header_code { Some(y) => Some(y@), None => None }), texts(package@), export_macro@),
{
    proof {
        reveal(content_for_spec);
    }
    let mut parts = dup_texts(package);
    parts.push(stem.to_owned());
    let guard = cat2(&sanitize(&to_upper(&join(&parts, "_"))), "_H");
    cat7("#ifndef ", &guard, "\n#define ", &guard, "\n\n", &prelude_body(header_code, export_macro), "\n#endif\n")
}

/// The code a file asks to be put into its header.
pub fn header_code_of(file: &File) -> (r: Option<String>)
    ensures
        (match r { Some(y) => Some(y@), None => None }) == header_code_of_spec(file.v()),
{
    proof {
        reveal(header_code_of_spec);
    }
    match meta_arg(&file.meta, "headerCode", 0) {
        Some(hc) => Some(line_feeds(&hc)),
        None => header_code_from(&file.decls, 0),
    }
}

/// The code the first declaration from `i` on that asks for any wants in the header.
pub fn header_code_from(decls: &Vec<Decl>, i: usize) -> (r: Option<String>)
    ensures
        (match r { Some(y) => Some(y@), None => None }) == header_code_from_spec(decls_v(decls@), (i as int)),
{
    let ghost i_0 = i;
    let mut i: usize = i;
    #[verifier::loop_isolation(false)]
    loop
        invariant
            header_code_from_spec(decls_v(decls@), (i_0 as int)) == header_code_from_spec(decls_v(decls@), (i as int)),
        decreases decls.len() - i,
    {
        if i >= decls.len() {
            return None;
        }
        match meta_arg(&decl_meta(&decls[i]), "headerCode", 0) {
            Some(hc) => {
                return Some(line_feeds(&hc));
            },
            None => {},
        }
        i = i + 1;
    }
}

/// What [`export_macros`] computes.
pub open spec fn export_macros_spec(name: Seq<char>) -> Seq<char>
{
    "#if defined(_WIN32)\n#define "@ + name + "_EXPORT extern \"C\" __declspec(dllexport)\n#define "@ + name + "_CALL __cdecl\n#define "@ + name + "_CLASS __declspec(dllexport)\n#elif defined(__GNUC__) && __GNUC__ >= 4\n#define "@ + name + "_EXPORT extern \"C\" __attribute__((visibility(\"default\")))\n#define "@ + name + "_CALL\n#define "@ + name + "_CLASS __attribute__((visibility(\"default\")))\n#else\n#define "@ + name + "_EXPORT extern \"C\"\n#define "@ + name + "_CALL\n#define "@ + name + "_CLASS\n#endif\n"@
}

/// What [`prelude_body`] computes.
#[verifier::opaque]
pub open spec fn prelude_body_spec(header_code: Option<Seq<char>>, export_macro: Seq<char>) -> Seq<char>
{
    let code = match header_code {
        Some(hc) => { block_spec(no_feeds_spec(line_feeds_spec(hc))) },
        None => { Seq::empty() },
    };
    "#include <stdio.h>\n#include <stdlib.h>\n#include <math.h>\n#include <time.h>\n#include <string>\n#include <vector>\n#include <map>\n\n"@ + code + export_macros_spec(export_macro)
}

/// What [`content_for`] computes.
#[verifier::opaque]
pub open spec fn content_for_spec(stem: Seq<char>, header_code: Option<Seq<char>>, package: Seq<Seq<char>>, export_macro: Seq<char>) -> Seq<char>
{
    let parts = package;
    let parts = parts.push(stem);
    let guard = (sanitize_spec(upper(join_spec(parts, "_"@)))) + "_H"@;
    "#ifndef "@ + guard + "\n#define "@ + guard + "\n\n"@ + prelude_body_spec(header_code, export_macro) + "\n#endif\n"@
}

/// What [`header_code_of`] computes.
#[verifier::opaque]
pub open spec fn header_code_of_spec(file: FileV) -> Option<Seq<char>>
{
    match meta_arg_spec(file.meta, "headerCode"@, 0int) {
        Some(hc) => { Some(line_feeds_spec(hc)) },
        None => { header_code_from_spec(file.decls, 0int) },
    }
}

/// What [`header_code_from`] computes.
pub open spec fn header_code_from_spec(decls: Seq<DeclV>, i: int) -> Option<Seq<char>>
    decreases decls.len() - i,
{
    if !(0 <= i < decls.len()) { None } else {
        match meta_arg_spec(decl_meta_spec(decls[i]), "headerCode"@, 0int) {
            Some(hc) => { Some(line_feeds_spec(hc)) },
            None => {
                let i = i + 1;
                header_code_from_spec(decls, i)
            },
        }
    }
}

} // verus!
