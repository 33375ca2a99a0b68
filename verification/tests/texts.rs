use hatchet::assemble::build_program;
use hatchet::codegen::common::find_method;
use hatchet::codegen::header::{generate_header, generate_header_with, HeaderOpts};
use hatchet::codegen::lookup::{field_named, variant_named};
use hatchet::codegen::source::{generate_source, generate_source_diagnostics};
use hatchet::ast::{BinOp, Decl, Expr};
use hatchet::driver::{advance, dir_before, outcome, plan_run, start_run, text_before};
use hatchet::lexer::lex;
use hatchet::parser::{parse, parse_expression};
use hatchet::cli::{header_only_stem, Config, OutputMode};
use hatchet::codegen::helpers::{parse_overload_sig, split_top_commas};
use hatchet::codegen::interp::split_interpolation;
use hatchet::codegen::quote::{has_interpolation, Seg};
use hatchet::codegen::scan::collect_escaping;
use hatchet::parser::pp::{trim, trim_end};
use hatchet::report::Step;
use hatchet::program::{Program, Unit};
use hatchet::rebase::{rebase_include, rebase_includes};
use hatchet::resolve::{find_decl, resolve_type, type_decl};
use hatchet::strings::{between, cap, ends_with, join, no_stars, split, split_once, starts_with};

fn texts(v: &[&str]) -> Vec<String> {
    v.iter().map(|s| s.to_string()).collect()
}

fn program(files: &[(&str, &str)]) -> Program {
    let mut units = Vec::new();
    for (stem, text) in files {
        let file = parse(text).expect("parses");
        units.push(Unit { dir: file.package.clone(), stem: stem.to_string(), file, is_include: false });
    }
    build_program(&units, "StdAfx", "HATCHET", false, 1)
}

#[test]
fn pieces_and_separators_are_the_text_again() {
    assert_eq!(split("a.b..c", '.'), texts(&["a", "b", "", "c"]));
    assert_eq!(join(&split("a.b..c", '.'), "."), "a.b..c");
    assert_eq!(split("", '.'), texts(&[""]));
    assert_eq!(join(&Vec::new(), ", "), "");
    assert_eq!(join(&texts(&["x", "y"]), ", "), "x, y");
}

#[test]
fn a_text_is_cut_at_the_first_separator() {
    assert_eq!(split_once("a::b::c", "::"), Some(("a".to_string(), "b::c".to_string())));
    assert_eq!(split_once("abc", "::"), None);
}

#[test]
fn prefixes_and_suffixes() {
    assert!(starts_with("std::vector<int>", "std::"));
    assert!(!starts_with("st", "std::"));
    assert!(ends_with("std::vector<int>", ">"));
    assert_eq!(between("std::vector<int>", "std::vector<", ">"), Some("int".to_string()));
    assert_eq!(between("std::list<int>", "std::vector<", ">"), None);
    assert_eq!(no_stars("Foo**"), "Foo");
    assert_eq!(cap("stra\u{df}e"), "Stra\u{df}e");
    assert_eq!(cap("\u{df}"), "SS");
}

#[test]
fn tokens_stand_in_order() {
    let src = "class A { /* c */ var x = \"s\"; } // end";
    let toks = lex(src).unwrap();
    let n = src.chars().count();
    let mut last = 0;
    for t in &toks {
        assert!(last <= t.start && t.start <= t.end && t.end <= n);
        last = t.end;
    }
    assert_eq!(toks.len(), 10);
}

#[test]
fn a_header_is_guarded_and_a_source_includes_it() {
    let p = program(&[("My-File", "class A { public function new() {} public function f():Int { return 1; } }")]);
    let h = generate_header(&p, 0).unwrap();
    assert!(h.starts_with("#ifndef MY_FILE_H\n#define MY_FILE_H\n\n"));
    assert!(h.ends_with("#endif\n"));
    let opts = HeaderOpts { inline_prelude: None, inline_bodies: false, header_code: None, guard_stem: Some("other".to_string()) };
    assert!(generate_header_with(&p, 0, &opts).unwrap().0.starts_with("#ifndef OTHER_H\n#define OTHER_H\n\n"));
    assert!(generate_source(&p, 0).unwrap().starts_with("#include \"My-File.h\"\n\n"));
}

#[test]
fn a_path_names_the_nearest_type() {
    let p = program(&[
        ("A", "package a; class X { }"),
        ("B", "package b; import a.X; class Y { }"),
        ("C", "package b; class X { }"),
        ("D", "package b; class Z { } class X { }"),
    ]);
    let at = |path: &[&str], mi: usize| resolve_type(&p, &texts(path), mi).map(|t| t.module_index);
    assert_eq!(at(&["X"], 1), Some(0));
    assert_eq!(at(&["X"], 3), Some(3));
    assert_eq!(at(&["X"], 2), Some(2));
    assert_eq!(at(&["b", "X"], 0), Some(2));
    assert_eq!(at(&["Y"], 0), Some(1));
    assert_eq!(at(&["W"], 0), None);
    assert_eq!(at(&[], 0), None);
}

#[test]
fn every_type_has_its_declaration() {
    let p = program(&[
        ("A", "package a; class X { } enum E { P; Q(n:Int); } typedef T = { x:Int }; interface I { }"),
        ("StdAfx", "class Gone { }"),
    ]);
    assert_eq!(p.types.len(), 5);
    for t in &p.types {
        let d = type_decl(&p, t).unwrap();
        let name = match d {
            Decl::Class(c) => &c.name,
            Decl::Enum(e) => &e.name,
            Decl::Typedef(t) => &t.name,
            Decl::Interface(i) => &i.name,
            _ => panic!("a type"),
        };
        assert_eq!(name, &t.name);
    }
    assert!(p.modules[0].has_header && !p.modules[0].is_stdafx);
    assert!(p.modules[1].is_stdafx && !p.modules[1].has_header);
    assert!(find_decl(&p.modules[1].file.decls, &p.types[0], 0).is_none());
}

#[test]
fn a_name_finds_the_first_that_has_it() {
    let p = program(&[("A", "class X { var a:Int; var b:Float; var a:String; function f() {} function g() {} } enum E { P; Q(n:Int); }")]);
    let (c, e) = match (&p.modules[0].file.decls[0], &p.modules[0].file.decls[1]) {
        (Decl::Class(c), Decl::Enum(e)) => (c, e),
        _ => panic!("a class and an enum"),
    };
    assert!(std::ptr::eq(field_named(&c.fields, "a", 0).unwrap(), &c.fields[0]));
    assert!(std::ptr::eq(field_named(&c.fields, "a", 1).unwrap(), &c.fields[2]));
    assert!(field_named(&c.fields, "c", 0).is_none());
    assert!(std::ptr::eq(find_method(&c.methods, "g", 0).unwrap(), &c.methods[1]));
    assert!(find_method(&c.methods, "h", 0).is_none());
    assert_eq!(variant_named(&e.variants, "Q", 0).unwrap().params.len(), 1);
    assert!(variant_named(&e.variants, "R", 0).is_none());
}

#[test]
fn texts_and_directories_are_ordered() {
    assert!(text_before("a", "ab") && text_before("ab", "b") && text_before("Z", "a"));
    assert!(!text_before("a", "a") && !text_before("b", "ab"));
    assert!(dir_before(&texts(&[]), &texts(&["a"]), 0));
    assert!(dir_before(&texts(&["a", "z"]), &texts(&["ab"]), 0));
    assert!(!dir_before(&texts(&["a"]), &texts(&["a"]), 0));
}

#[test]
fn an_include_that_leaves_the_tree_follows_the_output() {
    let dir = texts(&["a"]);
    let root = texts(&["/", "w", "src"]);
    let out = texts(&["/", "tmp", "gen"]);
    assert_eq!(rebase_include("../../engine/e.h", &dir, &root, &out), "../../../w/engine/e.h");
    assert_eq!(rebase_include("../b/B.h", &dir, &root, &out), "../b/B.h");
    assert_eq!(rebase_include("e.h", &dir, &root, &out), "e.h");
    assert_eq!(rebase_include("<vector>", &dir, &root, &out), "<vector>");
    let beside = texts(&["/", "w", "gen"]);
    assert_eq!(rebase_include("../../engine/e.h", &dir, &root, &beside), "../../engine/e.h");
    let below = texts(&["/", "w", "gen", "x"]);
    assert_eq!(rebase_include("../../engine/e.h", &dir, &root, &below), "../../../engine/e.h");
}

#[test]
fn includes_are_rewritten_only_for_files_that_move() {
    let text = "package a; @:include(\"../../engine/e.h\") class A { public function new() {} }";
    let root = texts(&["/", "w", "src"]);
    let out = texts(&["/", "tmp", "gen"]);
    let plain = program(&[("A", text)]).modules[0].includes.clone();
    let files = rebase_includes(program(&[("A", text)]), OutputMode::Files, &root, &out);
    let shown = rebase_includes(program(&[("A", text)]), OutputMode::Stdout, &root, &out);
    let in_place = rebase_includes(program(&[("A", text)]), OutputMode::Files, &root, &root);
    assert!(plain.contains(&"../../engine/e.h".to_string()));
    assert_eq!(shown.modules[0].includes, plain);
    assert_eq!(in_place.modules[0].includes, plain);
    assert!(files.modules[0].includes.contains(&"../../../w/engine/e.h".to_string()));
    assert_eq!(files.modules[0].includes.len(), plain.len());
}

fn shape(e: &Expr) -> String {
    match e {
        Expr::Ident(n) => n.clone(),
        Expr::Paren(x) => format!("[{}]", shape(x)),
        Expr::Unary { expr, .. } => format!("!{}", shape(expr)),
        Expr::Binary { op, lhs, rhs } => {
            let sign = match op {
                BinOp::Add => "+",
                BinOp::Sub => "-",
                BinOp::Mul => "*",
                BinOp::Lt => "<",
                BinOp::And => "&&",
                BinOp::Or => "||",
                _ => "?",
            };
            format!("({}{}{})", shape(lhs), sign, shape(rhs))
        }
        _ => "other".to_string(),
    }
}

#[test]
fn operators_are_grouped_as_they_bind() {
    let of = |s: &str| shape(&parse_expression(s).unwrap());
    assert_eq!(of("a + b * c - d"), "((a+(b*c))-d)");
    assert_eq!(of("a - b - c"), "((a-b)-c)");
    assert_eq!(of("a * (b + c)"), "(a*[(b+c)])");
    assert_eq!(of("a || b && c < d + e"), "(a||(b&&(c<(d+e))))");
    assert_eq!(of("!a && b"), "(!a&&b)");
}

#[test]
fn free_functions_of_a_package_are_told_apart() {
    use_plan("package g; function f():Int { return 1; }", "package g; function f():Int { return 2; }", 1);
    use_plan("package g; function f():Int { return 1; }", "package h; function f():Int { return 2; }", 0);
    use_plan("package g; function f():Int { return 1; } final f = (n:Int) -> n;", "package h; class C { public function new() {} }", 1);
}

fn use_plan(a: &str, b: &str, clashes: usize) {
    let p = program(&[("A", a), ("B", b)]);
    let cfg = Config {
        root_dir: String::new(),
        files: Vec::new(),
        include_files: Vec::new(),
        out_dir: String::new(),
        force: false,
        extract_depth: 1,
        no_traces: false,
        mode: OutputMode::Stdout,
        stdafx_stem: "StdAfx".to_string(),
        export_macro: "API".to_string(),
        header_only: Some("All".to_string()),
    };
    let plan = plan_run(&p, &cfg, &Vec::new());
    assert_eq!(plan.errors.len(), clashes);
    assert_eq!(outcome(&plan.errors).is_err(), clashes > 0);
    let written = plan.steps.iter().filter(|s| matches!(s, Step::Emit { .. })).count();
    assert_eq!(written, if clashes > 0 { 0 } else { 1 });
}

#[test]
fn text_without_interpolation_is_one_literal() {
    let (one, none) = split_interpolation("plain $ 5%");
    assert_eq!(one.len(), 1);
    assert!(matches!(&one[0], Seg::Lit(t) if t == "plain $ 5%"));
    assert!(none.is_empty());
    let (more, sources) = split_interpolation("a${b}c$d");
    assert_eq!(more.len(), 4);
    assert_eq!(sources, texts(&["b", "d"]));
    assert!(split_interpolation("").0.is_empty());
    for raw in ["", "a", "$", "$ 5", "a$", "$$x", "${", "x${y}", "$_", "$1"] {
        assert_eq!(has_interpolation(raw), !split_interpolation(raw).1.is_empty());
    }
}

#[test]
fn white_space_around_is_trimmed() {
    assert_eq!(trim(" \t a b\r\n\u{a0}"), "a b");
    assert_eq!(trim(" \n"), "");
    assert_eq!(trim("\u{2003}\u{3000}a\u{205f}\u{85}"), "a");
    assert_eq!(trim("\u{200b}a"), "\u{200b}a");
    assert_eq!(trim_end("  a  "), "  a");
    assert_eq!(header_only_stem(&Some("Json".to_string())), Some("Json".to_string()));
    assert_eq!(header_only_stem(&Some("Json.h".to_string())), Some("Json".to_string()));
}

#[test]
fn what_is_returned_or_stored_escapes() {
    let p = program(&[(
        "A",
        "class A { var q:A; function f(n:Int):A { var a = new A(); var b = new A(); var c = new A(); \
         while (n > 0) { switch (n) { case 1: q = b; default: c.f(n); } } return a; } }",
    )]);
    let body = match &p.modules[0].file.decls[0] {
        Decl::Class(c) => c.methods[0].body.as_ref().unwrap(),
        _ => panic!("a class"),
    };
    assert_eq!(collect_escaping(body, &texts(&["q"]), 0, Vec::new()), texts(&["b", "a"]));
    assert_eq!(collect_escaping(body, &Vec::new(), 0, Vec::new()), texts(&["a"]));
}

#[test]
fn an_arrow_closes_no_bracket() {
    assert_eq!(split_top_commas("f:Int->Void, s:String"), texts(&["f:Int->Void", " s:String"]));
    assert_eq!(split_top_commas("m:Map<Int, String>, n:Int"), texts(&["m:Map<Int, String>", " n:Int"]));
    assert_eq!(split_top_commas("f:(Int, Int)->Array<Int>,b:Bool"), texts(&["f:(Int, Int)->Array<Int>", "b:Bool"]));
}

#[test]
fn extraction_goes_at_least_one_deep() {
    let p = program(&[(
        "A",
        "typedef Pt = { x:Int }; class A { public function new() {} function make():Null<Pt> { return null; } \
         function use(b:Null<Pt>):Int { return 1; } public function f():Int { return use(make()); } }",
    )]);
    assert_eq!(generate_source_diagnostics(&p, 0, 0, false), generate_source_diagnostics(&p, 0, 1, false));
    assert_ne!(generate_source_diagnostics(&p, 0, 1, false), generate_source_diagnostics(&p, 0, 2, false));
}

#[test]
fn a_run_announces_a_module_before_it_makes_it() {
    let p = program(&[
        ("A", "class A { public function new() {} }"),
        ("Main", "class Main { public function new() {} }"),
        ("B", "class B { public function new() {} }"),
    ]);
    for header_only in [None, Some("All".to_string())] {
        let cfg = Config {
            root_dir: String::new(),
            files: Vec::new(),
            include_files: Vec::new(),
            out_dir: String::new(),
            force: false,
            extract_depth: 1,
            no_traces: false,
            mode: OutputMode::Stdout,
            stdafx_stem: "StdAfx".to_string(),
            export_macro: "API".to_string(),
            header_only,
        };
        let none = Vec::new();
        let mut run = start_run(&cfg);
        assert_eq!(run.plan.steps.len(), 1);
        run = advance(&p, &cfg, &none, run);
        assert_eq!(run.plan.steps.len(), 2);
        assert!(matches!(&run.plan.steps[1], Step::Info(_)));
        while !run.over {
            run = advance(&p, &cfg, &none, run);
        }
        let plan = plan_run(&p, &cfg, &none);
        assert_eq!(run.plan, plan);
        assert_eq!(advance(&p, &cfg, &none, run).plan, plan);
    }
}

#[test]
fn an_overload_names_its_types() {
    assert_eq!(
        parse_overload_sig("function(p:Int, ?f:Int->Void, m:Map<String, Int>):Bool {}"),
        Some((texts(&["Int", "Int->Void", "Map<String, Int>"]), "Bool".to_string())),
    );
    assert_eq!(parse_overload_sig("f"), None);
}
