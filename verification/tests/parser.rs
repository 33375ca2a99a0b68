//! Parsing Haxe sources.

use hatchet::ast::{has_meta, Decl, Expr, File, LambdaBody, PropAccess, Stmt, Type, TypedefTarget};
use hatchet::lexer::lex;
use hatchet::parser::cursor::Parser;
use hatchet::parser::parse;
use hatchet::parser::pp::set_defines;

fn file(src: &str) -> File {
    match parse(src) {
        Ok(f) => f,
        Err(e) => panic!("{}", e.describe()),
    }
}

#[test]
fn parses_package_and_imports() {
    let f =
        file("package modules;\nimport native.api.Native;\nimport modules.Module;\nclass X {}");
    assert_eq!(f.package, vec!["modules"]);
    assert_eq!(f.imports.len(), 2);
    assert_eq!(f.imports[0].path, vec!["native", "api", "Native"]);
}

#[test]
fn parses_empty_package_as_root() {
    // `package;` is valid Haxe and equivalent to omitting the declaration:
    // the file lives in the root package.
    let f = file("package;\nclass X {}");
    assert!(f.package.is_empty(), "empty package should be the root");
    assert_eq!(f.decls.len(), 1);
}

#[test]
fn parses_class_less_file_with_file_level_metadata() {
    // A `StdAfx.hx` style file: package + `@:headerCode`, no declaration.
    let f = file("package modules;\n@:headerCode('#include <vector>')");
    assert_eq!(f.package, vec!["modules"]);
    assert!(f.decls.is_empty(), "no declarations expected");
    assert_eq!(f.meta.len(), 1);
    assert_eq!(f.meta[0].name, "headerCode");
    assert_eq!(f.meta[0].first_arg(), Some("#include <vector>"));
}

#[test]
fn parses_statement_level_cpp_file_code_as_verbatim() {
    let f = file(
        "package p;\nclass X {\n\
           function f():Void {\n\
             @:cppFileCode('#ifdef DREAMCAST')\n\
             var a:Int = 1;\n\
           }\n\
         }",
    );
    let cls = match &f.decls[0] {
        Decl::Class(c) => c,
        _ => panic!("expected class"),
    };
    let body = cls.methods[0].body.as_ref().expect("body");
    match &body[0] {
        Stmt::Verbatim { code, .. } => assert_eq!(code, "#ifdef DREAMCAST"),
        other => panic!("expected verbatim statement, got {other:?}"),
    }
}

#[test]
fn parses_conditional_compilation_into_verbatim_statements() {
    // `#if FLAG`/`#else`/`#end` and a statement-level `@:include` lower to
    // `Stmt::Verbatim` carrying the C++ preprocessor lines; `untyped` wraps its
    // operand (a real, transpiled expression) in `Expr::Untyped`.
    let f = file(
        "package p;\nclass X {\n\
           function f(d:Float):Float {\n\
         #if DREAMCAST\n\
             @:include('<dc/fmath.h>');\n\
             return untyped fsqrtf(d * d);\n\
         #else\n\
             return d;\n\
         #end\n\
           }\n\
         }",
    );
    let cls = match &f.decls[0] {
        Decl::Class(c) => c,
        _ => panic!("expected class"),
    };
    let body = cls.methods[0].body.as_ref().expect("body");
    let verbatims: Vec<&str> = body
        .iter()
        .filter_map(|s| match s {
            Stmt::Verbatim { code, .. } => Some(code.as_str()),
            _ => None,
        })
        .collect();
    assert_eq!(
        verbatims,
        vec![
            "#ifdef DREAMCAST",
            "#include <dc/fmath.h>",
            "#else",
            "#endif"
        ]
    );
    // The DREAMCAST `return` carries the `untyped` operand as a real call expr.
    match &body[2] {
        Stmt::Return(Some(Expr::Untyped(inner)), _) => match &**inner {
            Expr::Call(target, args) => {
                assert_eq!(**target, Expr::Ident("fsqrtf".into()));
                assert_eq!(args.len(), 1);
            }
            other => panic!("expected untyped call, got {other:?}"),
        },
        other => panic!("expected untyped return, got {other:?}"),
    }
}

#[test]
fn strips_a_leading_utf8_bom_keeping_offsets_aligned() {
    // A leading UTF-8 BOM (U+FEFF) some editors prepend is stripped before lexing.
    // Because it is stripped in `parse` (not `lex`), the parser's source slice stays
    // byte-aligned with the token offsets, so raw metadata-argument spans come out
    // exact, not shifted by the 3 BOM bytes.
    let f = file(
        "\u{FEFF}package p;\nclass X {\n  function f(d:Float):Float { return untyped fsqrtf(d * d); }\n}",
    );
    assert_eq!(f.package, vec!["p"]);
    let cls = match &f.decls[0] {
        Decl::Class(c) => c,
        _ => panic!("expected class"),
    };
    let body = cls.methods[0].body.as_ref().expect("body");
    match &body[0] {
        Stmt::Return(Some(Expr::Untyped(inner)), _) => {
            assert!(matches!(&**inner, Expr::Call(..)), "got {inner:?}");
        }
        other => panic!("expected untyped return, got {other:?}"),
    }
}

#[test]
fn conditional_compilation_flags_and_boolean_conditions() {
    // Boolean conditions over flags map each flag through `defined(…)`.
    assert!(
        parse("package p;\nclass X {\n function f():Void {\n#if !DEBUG\n#end\n }\n}").is_ok()
    );
    assert!(
        parse("package p;\nclass X {\n function f():Void {\n#if (A && B)\n#end\n }\n}").is_ok()
    );
    // A bare `#elseif FLAG` is supported (→ `#elif defined(FLAG)`)...
    assert!(parse(
        "package p;\nclass X {\n function f():Void {\n#if A\n#elseif B\n#end\n }\n}"
    )
    .is_ok());
    // ...as is a boolean `#elseif` condition (→ `#elif defined(B) && …`).
    assert!(parse(
        "package p;\nclass X {\n function f():Void {\n#if A\n#elseif (B && C)\n#end\n }\n}"
    )
    .is_ok());
    // Version comparisons / values have no `defined(…)` mapping — rejected.
    assert!(parse(
        "package p;\nclass X {\n function f():Void {\n#if (haxe_ver >= 4)\n#end\n }\n}"
    )
    .is_err());
}

#[test]
fn parses_multiline_cpp_file_code_verbatim() {
    // A single `@:cppFileCode` whose string literal spans several lines is
    // captured verbatim (internal newlines preserved).
    let f = file(
        "package p;\nclass X {\n\
           function f():Void {\n\
             @:cppFileCode('#ifdef DC\n#include <dc/fmath.h>\n#else')\n\
           }\n\
         }",
    );
    let cls = match &f.decls[0] {
        Decl::Class(c) => c,
        _ => panic!("expected class"),
    };
    let body = cls.methods[0].body.as_ref().expect("body");
    match &body[0] {
        Stmt::Verbatim { code, .. } => {
            assert_eq!(code, "#ifdef DC\n#include <dc/fmath.h>\n#else");
        }
        other => panic!("expected verbatim statement, got {other:?}"),
    }
}

#[test]
fn parses_parenthesized_function_type_annotation() {
    // `Square:(Int, Int) -> Int = (a, b) -> a * b;` — the function-type
    // annotation on the binding parses to `Type::Func`.
    let f = file("package p;\nfinal Square:(Int, Int) -> Int = (a, b) -> a * b;");
    let g = match &f.decls[0] {
        Decl::Global(g) => g,
        other => panic!("expected global, got {other:?}"),
    };
    match &g.ty {
        Some(Type::Func { params, ret }) => {
            assert_eq!(params.len(), 2, "two parameter types");
            assert_eq!(ret.base_name(), Some("Int"), "return type is Int");
        }
        other => panic!("expected Type::Func, got {other:?}"),
    }
}

#[test]
fn parses_class_with_accessors_and_ctor() {
    let f = file(
        "package modules;\n\
         class Vertex extends Module {\n\
           public var x(default, set):Float;\n\
           public function new(engine:IEngine, x:Float) { this.x = x; }\n\
           public function set_x(x:Float) { return this.x = x; }\n\
         }",
    );
    let Decl::Class(c) = &f.decls[0] else {
        panic!()
    };
    assert_eq!(c.name, "Vertex");
    assert_eq!(c.extends.as_ref().unwrap().base_name(), Some("Module"));
    assert_eq!(c.fields[0].name, "x");
    assert_eq!(c.fields[0].set, PropAccess::Setter);
    assert!(c.ctor.is_some());
    assert_eq!(c.methods.len(), 1);
}

#[test]
fn parses_enum_and_typedef_and_native_meta() {
    let f = file(
        "package native.api;\n\
         @:include(\"../../src/Native.h\")\n\
         @:native enum EffectType { Unknown; Fog; }\n\
         @:native typedef Vertex = { x:Float, ?color:UInt32 };\n\
         @:native typedef Cursor = TexturedQuad;",
    );
    let Decl::Enum(e) = &f.decls[0] else {
        panic!("{:?}", f.decls[0])
    };
    assert_eq!(e.name, "EffectType");
    assert_eq!(e.variants.len(), 2);
    assert!(has_meta(&e.meta, "native"));
    assert_eq!(
        e.meta
            .iter()
            .find(|m| m.name == "include")
            .unwrap()
            .first_arg(),
        Some("../../src/Native.h")
    );

    let Decl::Typedef(t) = &f.decls[1] else {
        panic!()
    };
    let TypedefTarget::Struct(fields) = &t.target else {
        panic!()
    };
    assert_eq!(fields[1].name, "color");
    assert!(fields[1].optional);

    let Decl::Typedef(t2) = &f.decls[2] else {
        panic!()
    };
    assert!(matches!(t2.target, TypedefTarget::Alias(_)));
}

#[test]
fn parses_interface_with_overloads() {
    let f = file(
        "package native.api;\n\
         @:native interface ISceneManager {\n\
           @:overload(function(s:Int):Void {})\n\
           public function SetScene(s:Dynamic):Void;\n\
         }",
    );
    let Decl::Interface(i) = &f.decls[0] else {
        panic!()
    };
    assert_eq!(i.methods.len(), 1);
    assert!(has_meta(&i.methods[0].meta, "overload"));
}

#[test]
fn parses_switch_and_sugar() {
    let f = file(
        "package game;\nclass S {\n\
           public function f(button:Int):Void {\n\
             switch (button) {\n\
               case Left: { this.x = 1; }\n\
               case Right: { trace(\"r\"); }\n\
               default: {}\n\
             }\n\
             var w = width ?? 128;\n\
             var list = [for (i in 0...6) i * 2];\n\
             this.coords.SetText(x + \",\" + y);\n\
           }\n\
         }",
    );
    let Decl::Class(c) = &f.decls[0] else {
        panic!()
    };
    let body = c.methods[0].body.as_ref().unwrap();
    assert!(matches!(body[0], Stmt::Switch { .. }));
    if let Stmt::Var {
        init: Some(Expr::NullCoalesce(..)),
        ..
    } = &body[1]
    {
    } else {
        panic!("expected null-coalesce var, got {:?}", body[1]);
    }
    assert!(matches!(
        body[2],
        Stmt::Var {
            init: Some(Expr::Comprehension { .. }),
            ..
        }
    ));
}

#[test]
fn parses_anon_struct_and_map_literal() {
    let f = file(
        "package game;\nclass S {\n\
           public function f():Void {\n\
             var s = { walk: { targetIndex: 0, walking: false } };\n\
             var m = [ \"idle\" => { loop:true }, \"walk\" => { loop:false } ];\n\
           }\n\
         }",
    );
    let Decl::Class(c) = &f.decls[0] else {
        panic!()
    };
    let body = c.methods[0].body.as_ref().unwrap();
    assert!(matches!(
        &body[0],
        Stmt::Var {
            init: Some(Expr::ObjectLit(_)),
            ..
        }
    ));
    assert!(matches!(
        &body[1],
        Stmt::Var {
            init: Some(Expr::MapLit(_)),
            ..
        }
    ));
}

fn parser(src: &str) -> Parser {
    match lex(src) {
        Ok(toks) => Parser::new(toks, src.chars().collect(), &set_defines(Vec::new())),
        Err(_) => panic!("does not lex"),
    }
}

#[test]
fn declarators_stay_in_their_list() {
    let mut p = parser("{ var a = 1, b = 2, c = function() { g(); }; }");
    let Ok(body) = p.parse_block() else {
        panic!("parses")
    };
    let mut names = Vec::new();
    for s in &body {
        match s {
            Stmt::Var { name, .. } => names.push(name.as_str()),
            other => panic!("expected a variable, got {other:?}"),
        }
    }
    assert_eq!(names, ["a", "b", "c"]);
    let Stmt::Var { init: Some(Expr::Lambda { body, .. }), .. } = &body[2] else {
        panic!("expected a lambda")
    };
    match &**body {
        LambdaBody::Block(inner) => {
            assert_eq!(inner.len(), 1);
            assert!(matches!(&inner[0], Stmt::Expr(Expr::Call(..), _)));
        }
        other => panic!("expected a block, got {other:?}"),
    }
}

#[test]
fn a_block_that_is_not_alone_stays_a_block() {
    let cases = |src: &str| {
        let mut p = parser(src);
        match p.parse_stmt() {
            Ok(Stmt::Switch { cases, .. }) => cases,
            _ => panic!("expected a switch"),
        }
    };
    let one = cases("switch (n) { case 1: { a(); b(); }; case 2: c(); }");
    assert_eq!(one[0].body.len(), 2);
    let more = cases("switch (n) { case 1: { a(); b(); } c(); case 2: d(); }");
    assert_eq!(more.len(), 2);
    assert_eq!(more[0].body.len(), 2);
    assert!(matches!(&more[0].body[0], Stmt::Block(inner) if inner.len() == 2));
}

#[test]
fn only_a_directive_is_taken() {
    let mut p = parser("class C {}");
    assert!(!p.at_directive());
    assert!(matches!(p.outer_directive(), Ok(false)));
    assert_eq!(p.pos(), 0);
    let mut p = parser("#if FLAG\nclass C {}\n#end\nclass D {}");
    assert!(p.at_directive());
    assert!(matches!(p.outer_directive(), Ok(true)));
    assert!(p.pos() > 0);
}

#[test]
fn metadata_of_a_constant_is_skipped() {
    let f = file("enum abstract C(Int) { @:doc(\"first\", 2) var A = 1; @x public var B; }");
    let Decl::Enum(e) = &f.decls[0] else {
        panic!("expected an enum")
    };
    assert_eq!(e.variants.len(), 2);
    assert_eq!(e.variants[1].name, "B");
}
