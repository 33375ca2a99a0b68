use hatchet::assemble::build_program;
use hatchet::codegen::amalgam::generate_amalgamation;
use hatchet::codegen::header::{generate_header, generate_header_with, HeaderOpts};
use hatchet::codegen::source::{generate_source, generate_source_diagnostics, inline_class_defs, inline_free_fn_defs};
use hatchet::ast::{Decl, Expr};
use hatchet::parser::{parse, parse_expression};
use hatchet::prelude::{content_for, prelude_body};
use hatchet::program::{ClassFacts, Holder, Program, SuperArg, Unit};

fn program(files: &[(&str, &str)]) -> Program {
    let mut units = Vec::new();
    for (stem, text) in files {
        let file = parse(text).expect("parses");
        units.push(Unit { dir: file.package.clone(), stem: stem.to_string(), file, is_include: false });
    }
    build_program(&units, "StdAfx", "HATCHET", false, 1)
}

fn one(text: &str) -> Program {
    program(&[("M", text)])
}

fn concat(parts: &[&str]) -> String {
    parts.concat()
}

/// The declarations of a header, without what every header has.
fn header(p: &Program) -> String {
    let text = generate_header(p, 0).unwrap();
    let head = "#ifndef M_H\n#define M_H\n\n#include \"StdAfx.h\"\n\n";
    assert!(text.starts_with(head));
    assert!(text.ends_with("#endif\n"));
    text[head.len()..text.len() - 7].to_string()
}

/// The source file, without what every one starts with.
fn source(p: &Program) -> String {
    let text = generate_source(p, 0).unwrap();
    let head = "#include \"M.h\"\n\n";
    assert!(text.starts_with(head));
    text[head.len()..].to_string()
}

fn facts(name: &str) -> ClassFacts {
    ClassFacts {
        name: name.to_string(),
        module_index: 0,
        owned_fields: Vec::new(),
        push_receivers: Vec::new(),
        owned_params: Vec::new(),
        deletes: Vec::new(),
        holder: None,
        advisories: Vec::new(),
    }
}

#[test]
fn header_enum_abstracts() {
    assert_eq!(
        header(&one("enum abstract Color(Int) { var Red = 0; var Green = 5; var Blue; } enum abstract Name(String) { var A = \"a\"; } ")),
        concat(&[
            "\n",
            "struct Color_ {\n",
            "\tenum Enum {\n",
            "\t\tRed = 0,\n",
            "\t\tGreen = 5,\n",
            "\t\tBlue\n",
            "\t};\n",
            "};\n",
            "typedef Color_::Enum Color;\n",
            "\n",
            "namespace Name_ {\n",
            "\tstatic const std::string A = \"a\";\n",
            "}\n",
            "\n",
            "\n",
        ]),
    );
}

#[test]
fn header_interface() {
    assert_eq!(
        header(&one("interface Shape { function area():Float; function name(n:Int):String; } interface Big extends Shape { } ")),
        concat(&[
            "\n",
            "class Shape {\n",
            "public:\n",
            "\tvirtual ~Shape() {}\n",
            "\tvirtual double area() = 0;\n",
            "\tvirtual std::string name(int n) = 0;\n",
            "};\n",
            "\n",
            "class Big : public Shape {\n",
            "public:\n",
            "\tvirtual ~Big() {}\n",
            "};\n",
            "\n",
            "\n",
        ]),
    );
}

#[test]
fn header_typedefs() {
    assert_eq!(
        header(&one("package a.b; typedef Pt = { x:Int, ?y:Float, ?s:String }; typedef Pts = Array<Pt>; @:native(\"eng.V\") typedef V = { x:Int }; ")),
        concat(&[
            "namespace a {\n",
            "namespace b {\n",
            "\n",
            "\t\tstruct Pt {\n",
            "\t\t\tint x;\n",
            "\t\t\tdouble y;\n",
            "\t\t\tstd::string s;\n",
            "\t\t\tPt() : y(0.0), s(\"\") {}\n",
            "\t\t};\n",
            "\n",
            "\t\ttypedef std::vector<Pt > Pts;\n",
            "\n",
            "}\n",
            "}\n",
            "\n",
        ]),
    );
}

#[test]
fn header_inheritance() {
    assert_eq!(
        header(&one("class A { public function new() {} public function go():Void {} function only():Int { return 1; } } class B extends A implements I { public function new() { super(); } override public function go():Void {} } interface I { } abstract class D { abstract public function run():Void; } ")),
        concat(&[
            "\n",
            "class A {\n",
            "public:\n",
            "\tA();\n",
            "\tvirtual ~A() {}\n",
            "\tvirtual void go();\n",
            "protected:\n",
            "\tint only();\n",
            "};\n",
            "\n",
            "class B : public A, public I {\n",
            "public:\n",
            "\tB();\n",
            "\tvirtual ~B() {}\n",
            "\tvirtual void go();\n",
            "};\n",
            "\n",
            "class I {\n",
            "public:\n",
            "\tvirtual ~I() {}\n",
            "};\n",
            "\n",
            "class D {\n",
            "public:\n",
            "\tvirtual ~D() {}\n",
            "\tvirtual void run() = 0;\n",
            "};\n",
            "\n",
            "\n",
        ]),
    );
}

#[test]
fn header_properties() {
    assert_eq!(
        header(&one("class A { public var a(default, null):Int; public var b(get, set):String; public var c(get, never):Float; public var d(default, set):Array<Int>; @orderedMap public var m:Map<String, Int>; public function new() {} function get_b() { return b; } function set_b(v) { b = v; return v; } function get_c():Float { return 1.0; } } ")),
        concat(&[
            "\n",
            "class A {\n",
            "public:\n",
            "\tA();\n",
            "\tvirtual ~A() {}\n",
            "\tstd::string get_b();\n",
            "\tstd::string set_b(int v);\n",
            "\tdouble get_c();\n",
            "\tconst int GetA() { return a; }\n",
            "\tstd::vector<int >& GetD() { return d; }\n",
            "\tvoid SetD(std::vector<int > d) { this->d = d; }\n",
            "\tstd::vector<std::string> m_keys;\n",
            "\tstd::vector<int> m_vals;\n",
            "protected:\n",
            "\tint a;\n",
            "\tstd::string b;\n",
            "\tstd::vector<int > d;\n",
            "};\n",
            "\n",
            "\n",
        ]),
    );
}

#[test]
fn header_statics_and_constants() {
    assert_eq!(
        header(&one("final LIMIT:Int = 3; private final HIDDEN:Int = 4; final NAME:String = \"n\"; class A { public static final MAX:Int = 3; static var table:Array<Int> = [1]; public static var count:Int = 0; public static final LIST:Array<Int> = [2]; public function new() {} } ")),
        concat(&[
            "\n",
            "\tstatic const int LIMIT = 3;\n",
            "\tstatic const std::string NAME = \"n\";\n",
            "\n",
            "class A {\n",
            "public:\n",
            "\tA();\n",
            "\tvirtual ~A() {}\n",
            "\tstatic const int MAX = 3;\n",
            "\tstatic int count;\n",
            "\tstatic const std::vector<int >& LIST();\n",
            "protected:\n",
            "\tstatic std::vector<int >& table();\n",
            "};\n",
            "\n",
            "\n",
        ]),
    );
}

#[test]
fn header_value_class() {
    assert_eq!(
        header(&one("@:stackOnly class V { public var x:Int; public function new(?x:Int) {} } @libexport class E { public function new() {} } @:native(\"Renamed\") class R { public function new() {} } extern class X { } @proxy class Y { } ")),
        concat(&[
            "\n",
            "class V {\n",
            "public:\n",
            "\tV(int x = 0);\n",
            "\t~V() {}\n",
            "\tint x;\n",
            "};\n",
            "\n",
            "class HATCHET_CLASS E {\n",
            "public:\n",
            "\tE();\n",
            "\tvirtual ~E() {}\n",
            "};\n",
            "\n",
            "class Renamed {\n",
            "public:\n",
            "\tRenamed();\n",
            "\tvirtual ~Renamed() {}\n",
            "};\n",
            "\n",
            "\n",
        ]),
    );
}

#[test]
fn header_forward_declarations() {
    assert_eq!(
        header(&one("class A { public var b:B; public function new() {} } class B { public var a:A; public function new() {} } ")),
        concat(&[
            "\n",
            "class B;\n",
            "\n",
            "class A {\n",
            "public:\n",
            "\tA();\n",
            "\tvirtual ~A() {}\n",
            "\tB* b;\n",
            "};\n",
            "\n",
            "class B {\n",
            "public:\n",
            "\tB();\n",
            "\tvirtual ~B() {}\n",
            "\tA* a;\n",
            "};\n",
            "\n",
            "\n",
        ]),
    );
}

#[test]
fn header_operators() {
    assert_eq!(
        header(&one("abstract Money(Int) { public function new(n:Int) { this = n; } @:op(A + B) public function plus(o:Money):Money { return o; } @:op([]) public function at(k:Int):Later { return null; } @:op(-A) public function neg():Money { return null; } @:to public function toInt():Int { return this; } @:from static public function of(n:Int):Money { return new Money(n); } } @:stackOnly class Later { public function new() {} } ")),
        concat(&[
            "\n",
            "class Later;\n",
            "\n",
            "class Money {\n",
            "public:\n",
            "\tMoney(int n);\n",
            "\t~Money() {}\n",
            "\tMoney plus(Money o);\n",
            "\tMoney operator+(Money o) { return plus(o); }\n",
            "\tLater at(int k);\n",
            "\tLater operator[](int k);\n",
            "\tMoney neg();\n",
            "\tMoney operator-() { return neg(); }\n",
            "\tint toInt();\n",
            "\toperator int() { return toInt(); }\n",
            "\tstatic Money of(int n);\n",
            "\tMoney(int n) { *this = of(n); }\n",
            "protected:\n",
            "\tint __this;\n",
            "};\n",
            "\n",
            "class Later {\n",
            "public:\n",
            "\tLater();\n",
            "\t~Later() {}\n",
            "};\n",
            "\n",
            "inline Later Money::operator[](int k) { return at(k); }\n",
            "\n",
            "\n",
        ]),
    );
}

#[test]
fn header_functions() {
    assert_eq!(
        header(&one("function twice(n:Int, k:Int = 2):Int { return n * k; } final half = (x:Float) -> x / 2; private function hidden():Void {} @cexport function exported(n:Int):Void {} class A { public function new() {} } ")),
        concat(&[
            "\n",
            "class A {\n",
            "public:\n",
            "\tA();\n",
            "\tvirtual ~A() {}\n",
            "};\n",
            "\n",
            "int twice(int n, int k = 2);\n",
            "double half(double x);\n",
            "\n",
            "\n",
            "HATCHET_EXPORT void HATCHET_CALL exported(int n);\n",
            "\n",
        ]),
    );
}

#[test]
fn source_functions() {
    assert_eq!(
        source(&one("package a.b; private final K:Int = 3; private final L:Array<Int> = [1, 2]; function twice(n:Int, k:Int = 2):Int { return n * k; } private function hidden():Void {} final half = (x:Float) -> x / 2; private final sq:(Int) -> Int = function(n) { return n * n; }; @cexport function exported(n:Int):Void { hidden(); } ")),
        concat(&[
            "namespace a {\n",
            "namespace b {\n",
            "\n",
            "\tstatic const int K = 3;\n",
            "\tstatic std::vector<int > _init_L() {\n",
            "\t\tstd::vector<int > v;\n",
            "\t\tv.push_back(1);\n",
            "\t\tv.push_back(2);\n",
            "\t\treturn v;\n",
            "\t}\n",
            "\tstatic const std::vector<int > L = _init_L();\n",
            "\n",
            "\tstatic int sq(int n);\n",
            "\n",
            "\tdouble half(double x) {\n",
            "\treturn x / 2;\n",
            "\t}\n",
            "\n",
            "\tstatic int sq(int n) {\n",
            "\treturn n * n;\n",
            "\t}\n",
            "\n",
            "\tstatic void hidden();\n",
            "\n",
            "\tint twice(int n, int k) {\n",
            "\treturn n * k;\n",
            "\t}\n",
            "\n",
            "\tstatic void hidden() {\n",
            "\t}\n",
            "\n",
            "}\n",
            "}\n",
            "\n",
            "HATCHET_EXPORT void HATCHET_CALL exported(int n) {\n",
            "\thidden();\n",
            "}\n",
        ]),
    );
}

#[test]
fn source_constructor() {
    assert_eq!(
        source(&one("class B { public function new(n:Int) {} } class C2 extends B { var x:Int = 7; var y:String; public function new(n:Int) { super(n + 1); y = \"s\"; } } ")),
        concat(&[
            "\n",
            "\tB::B(int n) {\n",
            "\t}\n",
            "\n",
            "\tC2::C2(int n) : B(n + 1) {\n",
            "\tthis->x = 7;\n",
            "\tthis->y = \"s\";\n",
            "\t}\n",
            "\n",
        ]),
    );
}

#[test]
fn source_statics() {
    assert_eq!(
        source(&one("class A { public static final MAX:Int = 3; static var table:Array<Int> = [1]; public static var count:Int = 0; static var late:Map<String, Int>; static final o:A = new A(); public function new() {} } ")),
        concat(&[
            "\n",
            "\tA::A() {\n",
            "\t}\n",
            "\n",
            "\tconst int A::MAX;\n",
            "\n",
            "\tstatic std::vector<int > _init_A_table() {\n",
            "\t\tstd::vector<int > _arr1;\n",
            "\t\t_arr1.push_back(1);\n",
            "\t\treturn _arr1;\n",
            "\t}\n",
            "\tstd::vector<int >& A::table() {\n",
            "\t\tstatic std::vector<int > _hx_v = _init_A_table();\n",
            "\t\treturn _hx_v;\n",
            "\t}\n",
            "\n",
            "\tint A::count = 0;\n",
            "\n",
            "\tstd::map<std::string, int >& A::late() {\n",
            "\t\tstatic std::map<std::string, int > _hx_v = std::map<std::string, int >();\n",
            "\t\treturn _hx_v;\n",
            "\t}\n",
            "\n",
            "\tconst A*& A::o() {\n",
            "\t\tstatic const A* _hx_v = new A();\n",
            "\t\treturn _hx_v;\n",
            "\t}\n",
            "\n",
        ]),
    );
}

#[test]
fn owned_fields_are_freed() {
    assert_eq!(
        { let mut p = one("class Q { public function new() {} } class A { var q:Q; var n:Int; public function new() { q = new Q(); } public function swap():Void { q = new Q(); } }"); let mut f = facts("A"); f.owned_fields.push("q".to_string()); f.deletes.push("delete q;".to_string()); p.facts.push(f); format!("{}{}", header(&p), source(&p)) },
        concat(&[
            "\n",
            "class Q {\n",
            "public:\n",
            "\tQ();\n",
            "\tvirtual ~Q() {}\n",
            "};\n",
            "\n",
            "class A {\n",
            "public:\n",
            "\tA();\n",
            "\tvirtual ~A() {\n",
            "\t\tdelete q;\n",
            "\t}\n",
            "\tvoid swap();\n",
            "protected:\n",
            "\tQ* q;\n",
            "\tint n;\n",
            "};\n",
            "\n",
            "\n",
            "\n",
            "\tQ::Q() {\n",
            "\t}\n",
            "\n",
            "\tA::A() : q(NULL) {\n",
            "\tthis->q = new Q();\n",
            "\t}\n",
            "\n",
            "\tvoid A::swap() {\n",
            "\tdelete this->q;\n",
            "\tthis->q = new Q();\n",
            "\t}\n",
            "\n",
        ]),
    );
}

#[test]
fn holder_constructor() {
    assert_eq!(
        { let mut p = one("class B { public function new(n:Int) {} } class A extends B { public function new(k:Int) { var t = k * 2; super(t); trace(t); } }"); let mut f = facts("A"); f.holder = Some(Holder { name: "AHolder".to_string(), base_list: " : private AHolder, public B".to_string(), member_decls: vec!["int t;".to_string()], super_idx: 1, lifted: vec!["t".to_string()], hoisted: Vec::new(), super_args: vec![SuperArg::Member("t".to_string())] }); p.facts.push(f); format!("{}{}", header(&p), source(&p)) },
        concat(&[
            "\n",
            "class B {\n",
            "public:\n",
            "\tB(int n);\n",
            "\tvirtual ~B() {}\n",
            "};\n",
            "\n",
            "struct AHolder {\n",
            "\tint t;\n",
            "\tAHolder(int k);\n",
            "};\n",
            "\n",
            "class A : private AHolder, public B {\n",
            "public:\n",
            "\tA(int k);\n",
            "\tvirtual ~A() {}\n",
            "};\n",
            "\n",
            "\n",
            "\n",
            "\tB::B(int n) {\n",
            "\t}\n",
            "\n",
            "\tAHolder::AHolder(int k) {\n",
            "\tthis->t = k * 2;\n",
            "\t}\n",
            "\n",
            "\tA::A(int k) : AHolder(k), B(t) {\n",
            "\tprintf(\"M.hx:1: %d\\n\", t);\n",
            "\t}\n",
            "\n",
        ]),
    );
}

#[test]
fn inline_definitions() {
    assert_eq!(
        { let p = one("class A { public function new() {} public function f():Int { return 1; } } private function g():Int { return 2; } final h = (n:Int) -> n;"); let c = match &p.modules[0].file.decls[0] { Decl::Class(c) => c, _ => panic!() }; format!("{}---\n{}", inline_class_defs(&p, 0, c).0, inline_free_fn_defs(&p, 0).0) },
        concat(&[
            "\tinline A::A() {\n",
            "\t}\n",
            "\n",
            "\tinline int A::f() {\n",
            "\treturn 1;\n",
            "\t}\n",
            "\n",
            "---\n",
            "\tinline int g();\n",
            "\n",
            "\tinline double h(int n) {\n",
            "\treturn n;\n",
            "\t}\n",
            "\tinline int g() {\n",
            "\treturn 2;\n",
            "\t}\n",
        ]),
    );
}

#[test]
fn single_header() {
    assert_eq!(
        { let p = program(&[("A", "package g; import g.B; class A { public var b:B; public function new() {} public function f():Int { return b.n; } }"), ("B", "package g; @:include(\"eng.h\") class B { public var n:Int; public function new() {} }")]); generate_amalgamation(&p, "All", &vec![0, 1], "// prelude\n\n").0 },
        concat(&[
            "#ifndef ALL_H\n",
            "#define ALL_H\n",
            "\n",
            "// prelude\n",
            "\n",
            "#include \"eng.h\"\n",
            "\n",
            "namespace g {\n",
            "\n",
            "\tclass A {\n",
            "\tpublic:\n",
            "\t\tA();\n",
            "\t\tvirtual ~A() {}\n",
            "\t\tint f();\n",
            "\t\tB* b;\n",
            "\t};\n",
            "\n",
            "}\n",
            "\n",
            "namespace g {\n",
            "\n",
            "\tclass B {\n",
            "\tpublic:\n",
            "\t\tB();\n",
            "\t\tvirtual ~B() {}\n",
            "\t\tint n;\n",
            "\t};\n",
            "\n",
            "}\n",
            "\n",
            "namespace g {\n",
            "\n",
            "\tinline A::A() {\n",
            "\t}\n",
            "\n",
            "\tinline int A::f() {\n",
            "\treturn this->b->n;\n",
            "\t}\n",
            "\n",
            "\n",
            "}\n",
            "\n",
            "namespace g {\n",
            "\n",
            "\tinline B::B() {\n",
            "\t}\n",
            "\n",
            "\n",
            "}\n",
            "\n",
            "#endif\n",
        ]),
    );
}

#[test]
fn header_options() {
    assert_eq!(
        { let p = one("class A { public function new() {} public function f():Int { return 1; } }"); let o = HeaderOpts { inline_prelude: Some("// prelude\n".to_string()), inline_bodies: true, header_code: Some("\n#define X 1\n".to_string()), guard_stem: Some("my-lib".to_string()) }; generate_header_with(&p, 0, &o).unwrap().0 },
        concat(&[
            "#ifndef MY_LIB_H\n",
            "#define MY_LIB_H\n",
            "\n",
            "// prelude\n",
            "\n",
            "\n",
            "#define X 1\n",
            "\n",
            "\n",
            "class A {\n",
            "public:\n",
            "\tA();\n",
            "\tvirtual ~A() {}\n",
            "\tint f();\n",
            "};\n",
            "\n",
            "\tinline A::A() {\n",
            "\t}\n",
            "\n",
            "\tinline int A::f() {\n",
            "\treturn 1;\n",
            "\t}\n",
            "\n",
            "\n",
            "\n",
            "#endif\n",
        ]),
    );
}

#[test]
fn prelude_header() {
    assert_eq!(
        content_for("StdAfx", &Some("#include <set>".to_string()), &vec!["a".to_string()], "API"),
        concat(&[
            "#ifndef A_STDAFX_H\n",
            "#define A_STDAFX_H\n",
            "\n",
            "#include <stdio.h>\n",
            "#include <stdlib.h>\n",
            "#include <math.h>\n",
            "#include <time.h>\n",
            "#include <string>\n",
            "#include <vector>\n",
            "#include <map>\n",
            "\n",
            "#include <set>\n",
            "\n",
            "#if defined(_WIN32)\n",
            "#define API_EXPORT extern \"C\" __declspec(dllexport)\n",
            "#define API_CALL __cdecl\n",
            "#define API_CLASS __declspec(dllexport)\n",
            "#elif defined(__GNUC__) && __GNUC__ >= 4\n",
            "#define API_EXPORT extern \"C\" __attribute__((visibility(\"default\")))\n",
            "#define API_CALL\n",
            "#define API_CLASS __attribute__((visibility(\"default\")))\n",
            "#else\n",
            "#define API_EXPORT extern \"C\"\n",
            "#define API_CALL\n",
            "#define API_CLASS\n",
            "#endif\n",
            "\n",
            "#endif\n",
        ]),
    );
}

#[test]
fn source_constants_of_a_file() {
    assert_eq!(
        source(&one("typedef Pt = { x:Int, y:Int }; private final M:Map<String, Int> = [\"a\" => 1]; private final P:Pt = { x: 1, y: 2 }; private final Q:Pt = P; function f():Int { return 1; }")),
        concat(&[
            "\n",
            "\tstatic std::map<std::string, int > _init_M() {\n",
            "\t\tstd::map<std::string, int > m;\n",
            "\t\tm[\"a\"] = 1;\n",
            "\t\treturn m;\n",
            "\t}\n",
            "\tstatic const std::map<std::string, int > M = _init_M();\n",
            "\tstatic const Pt P = { 1, 2 };\n",
            "\tstatic const Pt Q = P;\n",
            "\n",
            "\tint f() {\n",
            "\treturn 1;\n",
            "\t}\n",
            "\n",
        ]),
    );
}

#[test]
fn inherited_field_has_its_own_type() {
    assert_eq!(
        source(&program(&[("M", "package c; import b.D; class M { public function new() {} public function f(d:D):String { return \"x\" + d.t.n; } }"), ("Base", "package a; class Base { public var t:T; public function new() {} } class T { public var n:Int; public function new() {} }"), ("D", "package b; import a.Base; class D extends Base { public function new() { super(); } } class T { public var n:String; public function new() {} }")])),
        concat(&[
            "namespace c {\n",
            "\n",
            "\tM::M() {\n",
            "\t}\n",
            "\n",
            "\tstd::string M::f(b::D* d) {\n",
            "\tchar _buf1[24]; sprintf(_buf1, \"%d\", d->t->n);\n",
            "\treturn \"x\" + std::string(_buf1);\n",
            "\t}\n",
            "\n",
            "}\n",
        ]),
    );
}

#[test]
fn enum_of_another_package() {
    assert_eq!(
        source(&program(&[("M", "package c; import a.Color; class M { public function new() {} public function f():Void { var k = Color.Red; } }"), ("Color", "package a; enum Color { Red; Green; }")])),
        concat(&[
            "namespace c {\n",
            "\n",
            "\tM::M() {\n",
            "\t}\n",
            "\n",
            "\tvoid M::f() {\n",
            "\ta::Color k = a::Color_::Red;\n",
            "\t}\n",
            "\n",
            "}\n",
        ]),
    );
}

#[test]
fn source_expression_function() {
    assert_eq!(
        source(&one("class Foo { public function new() {} } function use(a:Foo):Int { return 1; } final made = () -> use(new Foo());")),
        concat(&[
            "\n",
            "\tdouble made() {\n",
            "\tFoo* _v1 = new Foo();\n",
            "\tdouble _ret2 = use(_v1);\n",
            "\tdelete _v1;\n",
            "\treturn _ret2;\n",
            "\t}\n",
            "\n",
            "\tint use(Foo* a) {\n",
            "\treturn 1;\n",
            "\t}\n",
            "\n",
            "\tFoo::Foo() {\n",
            "\t}\n",
            "\n",
        ]),
    );
}

#[test]
fn header_renamed_types() {
    assert_eq!(
        header(&one("@:native(\"Hue\") enum Color { Red; } @:native(\"Word\") enum Op { Halt; Add(a:Int); } @:native(\"Names\") enum abstract Name(String) { var A = \"a\"; } @:native(\"Sized\") interface Shape { function area():Float; }")),
        concat(&[
            "\n",
            "struct Hue_ {\n",
            "\tenum Enum {\n",
            "\t\tRed\n",
            "\t};\n",
            "};\n",
            "typedef Hue_::Enum Hue;\n",
            "\n",
            "struct Word_ {\n",
            "\tenum Enum {\n",
            "\t\tHalt,\n",
            "\t\tAdd\n",
            "\t};\n",
            "};\n",
            "class Word {\n",
            "public:\n",
            "\tWord_::Enum kind;\n",
            "\tint Add_a;\n",
            "\tstatic Word Halt() { Word e; e.kind = Word_::Halt; return e; }\n",
            "\tstatic Word Add(int a) { Word e; e.kind = Word_::Add; e.Add_a = a; return e; }\n",
            "\tbool operator==(const Word& o) const {\n",
            "\t\tif (kind != o.kind) return false;\n",
            "\t\tif (kind == Word_::Add) return Add_a == o.Add_a;\n",
            "\t\treturn true;\n",
            "\t}\n",
            "\tbool operator!=(const Word& o) const { return !(*this == o); }\n",
            "};\n",
            "\n",
            "namespace Names_ {\n",
            "\tstatic const std::string A = \"a\";\n",
            "}\n",
            "\n",
            "class Sized {\n",
            "public:\n",
            "\tvirtual ~Sized() {}\n",
            "\tvirtual double area() = 0;\n",
            "};\n",
            "\n",
            "\n",
        ]),
    );
}

#[test]
fn header_aliased_container() {
    assert_eq!(
        header(&one("typedef Ints = Array<Int>; class A { public var xs(default, null):Ints; public var n(default, null):Int; public function new() {} }")),
        concat(&[
            "\n",
            "typedef std::vector<int > Ints;\n",
            "\n",
            "class A {\n",
            "public:\n",
            "\tA();\n",
            "\tvirtual ~A() {}\n",
            "\tInts& GetXs() { return xs; }\n",
            "\tconst int GetN() { return n; }\n",
            "protected:\n",
            "\tInts xs;\n",
            "\tint n;\n",
            "};\n",
            "\n",
            "\n",
        ]),
    );
}

#[test]
fn header_deferred_operator() {
    assert_eq!(
        header(&one("abstract Money(Int) { public function new(n:Int) { this = n; } @:op(A + B) public function plus(o:Later):Money { return this; } } abstract Later(Int) { public function new(n:Int) { this = n; } }")),
        concat(&[
            "\n",
            "class Later;\n",
            "\n",
            "class Money {\n",
            "public:\n",
            "\tMoney(int n);\n",
            "\t~Money() {}\n",
            "\tMoney plus(Later o);\n",
            "\tMoney operator+(Later o);\n",
            "protected:\n",
            "\tint __this;\n",
            "};\n",
            "\n",
            "class Later {\n",
            "public:\n",
            "\tLater(int n);\n",
            "\t~Later() {}\n",
            "protected:\n",
            "\tint __this;\n",
            "};\n",
            "\n",
            "inline Money Money::operator+(Later o) { return plus(o); }\n",
            "\n",
            "\n",
        ]),
    );
}

#[test]
fn namesake_overrides_nothing() {
    assert_eq!(
        { let p = program(&[("M", "package a; class M { public function new() {} public function go():Void {} }"), ("N", "package b; class M { public function new() {} public function go():Void {} } class N extends M { public function new() { super(); } override public function go():Void {} }")]); generate_header(&p, 0).unwrap() },
        concat(&[
            "#ifndef M_H\n",
            "#define M_H\n",
            "\n",
            "#include \"StdAfx.h\"\n",
            "\n",
            "namespace a {\n",
            "\n",
            "\tclass M {\n",
            "\tpublic:\n",
            "\t\tM();\n",
            "\t\tvirtual ~M() {}\n",
            "\t\tvoid go();\n",
            "\t};\n",
            "\n",
            "}\n",
            "\n",
            "#endif\n",
        ]),
    );
}

#[test]
fn source_private_defaults() {
    assert_eq!(
        source(&one("private function pad(n:Int, k:Int = 2):Int { return n * k; } function g():Int { return pad(1); }")),
        concat(&[
            "\n",
            "\tstatic int pad(int n, int k);\n",
            "\n",
            "\tstatic int pad(int n, int k) {\n",
            "\treturn n * k;\n",
            "\t}\n",
            "\n",
            "\tint g() {\n",
            "\treturn pad(1);\n",
            "\t}\n",
            "\n",
        ]),
    );
}
