use hatchet::ast::{Class, Decl, Expr};
use hatchet::cli::{
    glob_base, glob_match, header_only_stem, infer_root, is_glob, is_haxe, output_mode, path_text, project_root,
    resolve_config, select_files, select_includes, skip_note, Args, Config, OutputMode,
};
use hatchet::codegen::helpers::{int_ty, str_ty};
use hatchet::codegen::interp::printf_escape;
use hatchet::codegen::quote::{escape_str, has_interpolation};
use hatchet::codegen::source::{generate_source, generate_source_diagnostics, is_free_fn_global};
use hatchet::codegen::header::generate_header;
use hatchet::codegen::state::BodyGen;
use hatchet::codegen::stmt::line_feeds;
use hatchet::codegen::values::{replace_all, unescape_cpp_code};
use hatchet::driver::{
    artifact_label, closing, errors_module_count, generated_banner, insert_dir, outcome, plan_run,
    printed_artifact, report_line, written_artifact,
};
use hatchet::assemble::build_program;
use hatchet::parser::pp::{evaluate, set_defines};
use hatchet::parser::{package_parts, parse, parse_expression, parse_with};
use hatchet::program::{Program, SourceFile, Unit};
use hatchet::report::{Diagnostic, Findings, HeaderDir, Step};

fn texts(v: &[&str]) -> Vec<String> {
    v.iter().map(|s| s.to_string()).collect()
}

fn program(files: &[(&str, &str)]) -> Program {
    let mut units = Vec::new();
    for (stem, text) in files {
        let file = parse(text).expect("parses");
        units.push(Unit { dir: file.package.clone(), stem: stem.to_string(), file, is_include: false });
    }
    build_program(&units, "StdAfx", "HATCHET", false, 1)
}

fn first_class(p: &Program) -> &Class {
    match &p.modules[0].file.decls[0] {
        Decl::Class(c) => c,
        _ => panic!("a class"),
    }
}

fn arguments() -> Args {
    Args {
        src: Vec::new(),
        includes: Vec::new(),
        define: Vec::new(),
        out: None,
        force: false,
        dry_run: false,
        stdout: false,
        depth: 0,
        no_traces: false,
        stdafx: "  ".to_string(),
        export_macro: " API ".to_string(),
        header_only: Some(" All.h ".to_string()),
    }
}

fn configuration(mode: OutputMode, header_only: Option<&str>) -> Config {
    Config {
        root_dir: "/p".to_string(),
        files: texts(&["/p/A.hx"]),
        include_files: Vec::new(),
        out_dir: "/out".to_string(),
        force: false,
        extract_depth: 1,
        no_traces: false,
        mode,
        stdafx_stem: "StdAfx".to_string(),
        export_macro: "HATCHET".to_string(),
        header_only: header_only.map(|s| s.to_string()),
    }
}

// ---- sources ---------------------------------------------------------------

#[test]
fn a_byte_order_mark_changes_nothing() {
    let src = "package a;\nclass C { public function new() {} }";
    assert_eq!(parse(&format!("\u{FEFF}{src}")).unwrap(), parse(src).unwrap());
}

#[test]
fn conditions_are_decided_by_what_they_say() {
    let defs = set_defines(texts(&["a", "b.c"]));
    assert_eq!(evaluate("a", &defs), Some(true));
    assert_eq!(evaluate("!a", &defs), Some(false));
    assert_eq!(evaluate("(a&&b.c)", &defs), Some(true));
    assert_eq!(evaluate("(a && !x) || y", &defs), Some(true));
    assert_eq!(evaluate("x || y", &defs), Some(false));
    assert_eq!(evaluate("a ==", &defs), None);
    let none = set_defines(Vec::new());
    for cond in ["a", "a ==", "(x || !y)", "(a", "!", ""] {
        assert_eq!(evaluate(cond, &defs).is_none(), evaluate(cond, &none).is_none());
    }
    assert_eq!(evaluate("(a", &defs), None);
    assert_eq!(evaluate("", &defs), None);
}

#[test]
fn a_flag_decides_which_declarations_are_there() {
    let src = "#if debug\nclass A { public function new() {} }\n#else\nclass B { public function new() {} }\n#end";
    let with = parse_with(src, &set_defines(texts(&["debug"]))).unwrap();
    let without = parse(src).unwrap();
    assert!(matches!(&with.decls[0], Decl::Class(c) if c.name == "A"));
    assert!(matches!(&without.decls[0], Decl::Class(c) if c.name == "B"));
    assert_eq!(with.decls.len(), 1);
}

#[test]
fn an_error_says_what_was_found_and_where() {
    let e = parse("class C {\n  var \"x\";\n}").unwrap_err();
    assert_eq!(e.line, 2);
    assert!(e.message.contains("\"x\""));
    assert!(e.describe().contains("2"));
    assert!(parse("class").is_err());
    assert!(parse("class C { function f() { return 1 +; } }").is_err());
    assert!(parse("class C { var s = \"open; }").is_err());
}

#[test]
fn an_expression_is_parsed_alone() {
    assert_eq!(parse_expression("x").unwrap(), Expr::Ident("x".to_string()));
    assert!(parse_expression("+").is_err());
}

// ---- texts -----------------------------------------------------------------

#[test]
fn line_ends_become_line_feeds() {
    assert_eq!(line_feeds("a\r\nb\rc\n"), "a\nb\nc\n");
    assert_eq!(line_feeds("a\nb"), "a\nb");
}

#[test]
fn escaped_text_stays_in_its_literal() {
    assert_eq!(escape_str("a\"b"), "a\\\"b");
    assert_eq!(escape_str("a\\\"b"), "a\\\"b");
    assert_eq!(escape_str("a\nb\tc"), "a\\nb\\tc");
    assert_eq!(escape_str("\\x41"), "\\101");
    assert_eq!(escape_str("\\0"), "\\000");
    assert_eq!(escape_str("\\'"), "'");
    assert_eq!(escape_str("\\q"), "\\\\q");
}

#[test]
fn interpolation_is_recognised() {
    assert!(has_interpolation("a $b"));
    assert!(has_interpolation("${a}"));
    assert!(!has_interpolation("a $$ b"));
    assert_eq!(printf_escape("50% \"x\""), "50%% \\\"x\\\"");
}

#[test]
fn raw_code_is_decoded() {
    assert_eq!(unescape_cpp_code("a\\n\\t\\\"\\\\\\q\\"), "a\n\t\"\\\\q\\");
    assert_eq!(replace_all("a{0}b{0}", "{0}", "x"), "axbx");
    assert_eq!(replace_all("abc", "", "x"), "abc");
}

// ---- names, scopes and ownership ---------------------------------------------

#[test]
fn a_closed_scope_restores_what_was_there() {
    let p = program(&[("C", "class C { public function new() {} }")]);
    let mut g = BodyGen::new(&p, 0, first_class(&p), 1, false);
    g.define_local("x", int_ty());
    g.push_scope();
    g.define_local("x", str_ty());
    g.define_local("y", int_ty());
    assert_eq!(g.lookup_local("x").unwrap().base, "std::string");
    g.pop_scope();
    assert_eq!(g.lookup_local("x").unwrap().base, "int");
    assert!(g.lookup_local("y").is_none());
}

#[test]
fn new_names_are_free() {
    let p = program(&[("C", "class C { public function new() {} }")]);
    let mut g = BodyGen::new(&p, 0, first_class(&p), 1, false);
    assert_eq!(g.fresh("v"), "_v1");
    assert_eq!(g.fresh("v"), "_v2");
    assert_eq!(g.bind_local_name("n"), "n");
    g.define_local("n", int_ty());
    assert_eq!(g.bind_local_name("n"), "n_2");
    assert_eq!(g.cpp_name("n"), "n_2");
    g.define_local("n_2", int_ty());
    assert_eq!(g.bind_local_name("n"), "n_3");
}

#[test]
fn owned_locals_are_deleted_last_first() {
    let p = program(&[("C", "class C { public function new() {} }")]);
    let mut g = BodyGen::new(&p, 0, first_class(&p), 1, false);
    assert!(!g.has_owned_locals());
    assert_eq!(g.all_owned_deletes("\t"), "");
    g.register_owned("a");
    g.register_owned("b");
    assert_eq!(g.owned_deletes("\t"), "\tdelete b;\n\tdelete a;\n");
    g.push_scope();
    g.register_owned("c");
    assert_eq!(g.all_owned_deletes(""), "delete c;\ndelete b;\ndelete a;\n");
    g.transfer_owned("a");
    assert_eq!(g.all_owned_deletes(""), "delete c;\ndelete b;\n");
}

// ---- generated files -----------------------------------------------------------

#[test]
fn a_source_is_the_text_of_its_diagnostics() {
    let p = program(&[("C", "class C { public function new() {} public function f():Int { return 1; } }")]);
    let (text, warnings, errors) = generate_source_diagnostics(&p, 0, 1, false).unwrap();
    assert_eq!(generate_source(&p, 0), Some(text));
    assert!(warnings.is_empty());
    assert!(errors.is_empty());
}

#[test]
fn nothing_to_declare_means_no_files() {
    let p = program(&[
        ("E", "package a;"),
        ("StdAfx", "class S { public function new() {} }"),
        ("K", "enum Kind { A; B; }"),
    ]);
    assert_eq!(generate_header(&p, 0), None);
    assert_eq!(generate_source(&p, 0), None);
    assert_eq!(generate_header(&p, 1), None);
    assert_eq!(generate_source(&p, 1), None);
    assert!(generate_header(&p, 2).is_some());
    assert_eq!(generate_source(&p, 2), None);
    assert_eq!(generate_header(&p, 9), None);
}

#[test]
fn traces_are_stripped() {
    let p = program(&[("C", "class C { public function new() { trace(f()); } function f():Int { return 1; } }")]);
    let (text, _, _) = generate_source_diagnostics(&p, 0, 1, true).unwrap();
    assert!(text.contains("\t((void)0);\n"));
    assert!(!text.contains("printf"));
    assert!(!text.contains("f();"));
}

#[test]
fn a_deeper_extraction_keeps_a_buried_result() {
    let src = "class C { public function new() { take(find()); } function find():Null<Int> { return null; } function take(n:Int):Void {} }";
    let p = program(&[("C", src)]);
    let (text, warnings, _) = generate_source_diagnostics(&p, 0, 2, false).unwrap();
    assert!(text.contains("\tint* _null1 = find();\n\ttake(_null1);\n\tdelete _null1;\n"));
    assert!(warnings.is_empty());
}

#[test]
fn a_header_includes_what_it_mentions() {
    let p = program(&[
        ("A", "package g.a; import g.b.B; class A { public var b:B; public function new() {} }"),
        ("B", "package g.b; class B { public function new() {} }"),
    ]);
    assert_eq!(p.modules[0].includes, texts(&["StdAfx.h", "../../g/b/B.h"]));
    assert_eq!(p.modules[1].includes, texts(&["StdAfx.h"]));
}

#[test]
fn a_constant_bound_to_a_function_is_one() {
    let p = program(&[("C", "final f = (n:Int) -> n; final k = 3;")]);
    let flags: Vec<bool> = p.modules[0]
        .file
        .decls
        .iter()
        .map(|d| match d {
            Decl::Global(g) => is_free_fn_global(g),
            _ => panic!("a constant"),
        })
        .collect();
    assert_eq!(flags, vec![true, false]);
}

// ---- the command line ------------------------------------------------------------

#[test]
fn a_dry_run_wins_over_standard_output() {
    let mut a = arguments();
    assert_eq!(output_mode(&a), OutputMode::Files);
    a.stdout = true;
    assert_eq!(output_mode(&a), OutputMode::Stdout);
    a.dry_run = true;
    assert_eq!(output_mode(&a), OutputMode::DryRun);
}

#[test]
fn files_are_selected_once_and_without_the_entry_point() {
    let found = texts(&["/p/A.hx", "/p/Main.hx", "/p/B.hx", "/p/A.hx"]);
    assert_eq!(select_files(&found), texts(&["/p/A.hx", "/p/B.hx"]));
    assert_eq!(select_includes(&found, &texts(&["/p/A.hx"])), texts(&["/p/B.hx"]));
    assert_eq!(skip_note("/p/Main.hx"), "Skipping /p/Main.hx (Main.hx is never transpiled).");
    assert_eq!(skip_note("/p/NotMain.hx"), "");
}

#[test]
fn the_root_is_in_front_of_the_package() {
    let dir = texts(&["/", "p", "a", "b"]);
    assert_eq!(infer_root(&dir, &texts(&["a", "b"])), texts(&["/", "p"]));
    assert_eq!(infer_root(&dir, &texts(&["x"])), dir);
    assert_eq!(infer_root(&dir, &Vec::new()), dir);
    assert_eq!(package_parts("package a.b;\nclass C {}"), texts(&["a", "b"]));
    assert_eq!(package_parts("\u{feff}package a; class {"), texts(&["a"]));
    assert_eq!(package_parts("package;\nclass C {}"), Vec::<String>::new());
    assert_eq!(package_parts("class {"), Vec::<String>::new());
    assert_eq!(path_text(&texts(&["/", "p", "a"])), "/p/a");
}

fn found(path: &str, dir: &[&str], text: &str) -> SourceFile {
    SourceFile { path: path.to_string(), dir: texts(dir), text: text.to_string() }
}

#[test]
fn a_configuration_is_resolved() {
    let sources = vec![
        found("/p/Main.hx", &["/", "q"], ""),
        found("/p/a/A.hx", &["/", "p", "a"], "package a; class A {}"),
        found("/p/B.hx", &["/", "p"], "class B {"),
        found("/p/a/A.hx", &["/", "q"], ""),
    ];
    assert_eq!(project_root(&sources), Ok(texts(&["/", "p"])));
    let includes = texts(&["/p/B.hx", "/i/N.hx", "/i/Main.hx", "/i/N.hx"]);
    let cfg = resolve_config(&arguments(), &sources, &includes, "/out").unwrap();
    assert_eq!(cfg.files, texts(&["/p/a/A.hx", "/p/B.hx"]));
    assert_eq!(cfg.include_files, texts(&["/i/N.hx"]));
    assert_eq!(cfg.root_dir, "/p");
    assert_eq!(cfg.out_dir, "/out");
    assert_eq!(cfg.extract_depth, 1);
    assert_eq!(cfg.stdafx_stem, "StdAfx");
    assert_eq!(cfg.export_macro, "API");
    assert_eq!(cfg.header_only, Some("All".to_string()));
    assert!(!cfg.info_to_stderr());
}

#[test]
fn a_configuration_is_refused() {
    let none = resolve_config(&arguments(), &vec![found("/p/Main.hx", &["/", "p"], "")], &Vec::new(), "");
    assert_eq!(none.unwrap_err(), "no transpilable .hx files given");
    let two = vec![found("/p/A.hx", &["/", "p"], "class A {}"), found("/p/q/B.hx", &["/", "p", "q"], "class B {}")];
    assert_eq!(
        resolve_config(&arguments(), &two, &Vec::new(), "").unwrap_err(),
        "files resolve to different project roots (/p vs /p/q); transpile one project at a time",
    );
}

#[test]
fn patterns_match_paths() {
    assert!(is_glob("src/*.hx"));
    assert!(!is_glob("src/A.hx"));
    assert!(glob_match("src/*.hx", "src/A.hx"));
    assert!(!glob_match("src/*.hx", "src/a/A.hx"));
    assert!(glob_match("src/**/*.hx", "src/a/b/A.hx"));
    assert!(glob_match("src/**/*.hx", "src/A.hx"));
    assert!(glob_match("?.hx", "A.hx"));
    assert!(!glob_match("?.hx", "AB.hx"));
    assert_eq!(glob_base("src/a/*.hx"), "src/a");
    assert_eq!(glob_base("*.hx"), "");
    assert_eq!(header_only_stem(&Some(" .h ".to_string())), None);
    assert_eq!(header_only_stem(&None), None);
}

// ---- a run ---------------------------------------------------------------------------

#[test]
fn a_run_emits_headers_sources_and_preludes() {
    let p = program(&[
        ("A", "package g; class A { public function new() {} }"),
        ("Main", "class Main { static function main() {} }"),
        ("K", "enum Kind { A; }"),
    ]);
    let plan = plan_run(&p, &configuration(OutputMode::Files, None), &Vec::new());
    let mut seen = Vec::new();
    for s in &plan.steps {
        match s {
            Step::Info(m) => seen.push(m.clone()),
            Step::Warn(m) => seen.push(m.clone()),
            Step::Emit { dir, file, .. } => seen.push(artifact_label(dir, file)),
        }
    }
    assert_eq!(
        seen,
        texts(&[
            "Transpiling 1 Haxe file(s).",
            "[1/2] g/A.hx",
            "g/A.h",
            "g/A.cpp",
            "[2/2] K.hx",
            "K.h",
            "StdAfx.h",
            "g/StdAfx.h",
        ]),
    );
    assert!(plan.errors.is_empty());
}

#[test]
fn a_faulty_module_is_not_generated() {
    let p = program(&[("A", "class A { public function new() {} }")]);
    let error = Diagnostic { file: "A.hx".to_string(), line: 3, message: "bad".to_string() };
    let found = vec![Findings { deprecations: vec![(2, "old".to_string())], errors: vec![error] }];
    let plan = plan_run(&p, &configuration(OutputMode::Files, None), &found);
    assert!(!plan.steps.iter().any(|s| matches!(s, Step::Emit { .. })));
    assert!(plan.steps.contains(&Step::Warn("warning: A.hx:2: old".to_string())));
    assert_eq!(plan.errors.len(), 1);
    assert_eq!(outcome(&plan.errors), Err("1 error(s); 1 module(s) were not generated".to_string()));
}

#[test]
fn a_faulty_body_is_not_emitted() {
    let p = program(&[("A", "class A { public function new() {} public function f(s:String):Bool { return s == null; } }")]);
    let plan = plan_run(&p, &configuration(OutputMode::Stdout, None), &Vec::new());
    assert!(!plan.steps.iter().any(|s| matches!(s, Step::Emit { .. })));
    assert_eq!(plan.errors.len(), 1);
    assert_eq!(plan.errors[0].file, "A.hx");
}

#[test]
fn one_header_holds_everything() {
    let p = program(&[
        ("A", "package g; class A { public function new() {} } function f():Int { return 1; }"),
        ("B", "package g; class B { public function new() {} }"),
    ]);
    let plan = plan_run(&p, &configuration(OutputMode::Files, Some("All")), &Vec::new());
    assert_eq!(plan.steps[1], Step::Info("Amalgamating 2 module(s) into All.h.".to_string()));
    assert!(matches!(&plan.steps[2], Step::Emit { dir, file, .. } if dir.is_empty() && file == "All.h"));
    assert_eq!(plan.steps.len(), 3);
}

#[test]
fn one_header_has_one_function_of_a_name() {
    let p = program(&[
        ("A", "package g; function f():Int { return 1; }"),
        ("B", "package g; final f = (n:Int) -> n; @cexport function e():Void {}"),
        ("D", "package h; function f():Int { return 1; }"),
    ]);
    let plan = plan_run(&p, &configuration(OutputMode::Files, Some("All")), &Vec::new());
    assert_eq!(plan.errors.len(), 2);
    assert_eq!(plan.errors[0].file, "B.hx");
    assert!(plan.errors[0].message.starts_with("module-level function `f` clashes with one already defined in `A.hx`"));
    assert!(plan.errors[1].message.starts_with("@cexport extern \"C\" exports are not supported"));
    assert_eq!(errors_module_count(&plan.errors), 1);
    assert!(!plan.steps.iter().any(|s| matches!(s, Step::Emit { .. })));
}

#[test]
fn directories_are_in_order() {
    let mut dirs = Vec::new();
    for d in [&["b"][..], &["a", "c"], &["a"], &[], &["a", "b"]] {
        dirs = insert_dir(&dirs, &texts(d), &texts(&["x"]), 0, Vec::new());
    }
    dirs = insert_dir(&dirs, &texts(&["a"]), &texts(&["y"]), 0, Vec::new());
    let all: Vec<String> = dirs.iter().map(|d: &HeaderDir| format!("{}={}", d.dir.join("/"), d.package[0])).collect();
    assert_eq!(all, texts(&["=x", "a=y", "a/b=x", "a/c=x", "b=x"]));
}

#[test]
fn reports_and_endings() {
    assert_eq!(report_line("warning", "A.hx", 4, "m"), "warning: A.hx:4: m");
    assert_eq!(report_line("error", "A.hx", 0, "m"), "error: A.hx: m");
    assert_eq!(closing(&configuration(OutputMode::Files, None), 2, &Vec::new()), "\nGenerated 2 file(s) in /out.");
    assert_eq!(closing(&configuration(OutputMode::DryRun, None), 0, &Vec::new()), "\nWould generate 0 file(s).");
    let e = vec![Diagnostic { file: "A.hx".to_string(), line: 0, message: "m".to_string() }];
    assert_eq!(
        closing(&configuration(OutputMode::Stdout, None), 1, &e),
        "\nEmitted 1 file(s); 1 module(s) skipped due to errors.",
    );
    assert_eq!(outcome(&Vec::new()), Ok(()));
}

#[test]
fn artifacts_are_stamped() {
    let banner = generated_banner("r", "1.0");
    assert_eq!(banner, "// Generated by Hatchet (r) v1.0\n");
    assert_eq!(printed_artifact("a/A.h", &banner, "x"), "// ===== a/A.h =====\n// Generated by Hatchet (r) v1.0\nx\n");
    assert_eq!(printed_artifact("A.h", "", "x\n"), "// ===== A.h =====\nx\n");
    assert_eq!(written_artifact("A.h", "b\n", "x\r\ny", false, false), Ok("b\nx\ny".to_string()));
    assert_eq!(written_artifact("A.h", "", "x", true, true), Ok("x".to_string()));
    assert_eq!(
        written_artifact("A.h", "", "x", true, false),
        Err("A.h already exists (use --force to overwrite)".to_string()),
    );
}

#[test]
fn a_file_that_is_all_extension_has_none() {
    assert!(is_haxe("/p/A.hx"));
    assert!(is_haxe("A.b.hx"));
    assert!(!is_haxe("/p/.hx"));
    assert!(!is_haxe(".hx"));
    assert!(!is_haxe("/p/hx"));
    assert!(!is_haxe("/p/A.hxx"));
}

#[test]
fn inferring_an_array_keeps_earlier_lines() {
    let p = program(&[("M", "class M {}")]);
    let mut g = BodyGen::new(&p, 0, first_class(&p), 1, false);
    g.say("int k = 1;");
    let before = g.prelude().clone();
    let ty = g.infer_array(&vec![Expr::Bool(true)]);
    assert_eq!(ty.base, "std::vector<bool >");
    assert_eq!(g.prelude(), &before);
}

#[test]
fn no_two_locals_share_a_name() {
    let p = program(&[("M", "class M {}")]);
    let mut g = BodyGen::new(&p, 0, first_class(&p), 1, false);
    g.define_local("x", int_ty());
    assert_eq!(g.bind_local_name("x"), "x_2");
    g.define_local("x", int_ty());
    assert_eq!(g.bind_local_name("x"), "x_3");
    assert_eq!(g.cpp_name("x"), "x_3");
}
