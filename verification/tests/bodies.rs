use hatchet::assemble::build_program;
use hatchet::codegen::source::generate_source_diagnostics;
use hatchet::parser::parse;
use hatchet::program::{Program, Unit};

fn program(src: &str) -> Program {
    let mut units = Vec::new();
    for (stem, text) in [("C", src), ("Other", "class Other { public function new() {} } function away(n:Int):Int { return n; }")] {
        let file = parse(text).expect("parses");
        units.push(Unit { dir: file.package.clone(), stem: stem.to_string(), file, is_include: false });
    }
    build_program(&units, "StdAfx", "HATCHET", false, 1)
}

fn concat(parts: &[&str]) -> String {
    parts.concat()
}

/// The body of the method `f`, then the warnings, then the errors.
fn body(decls: &str, fields: &str, params: &str, ret: &str, stmts: &str) -> String {
    let src = format!("{decls}class C {{ {fields} public function new() {{}}\npublic function f({params}):{ret} {{ {stmts} }} }}");
    let p = program(&src);
    let (text, warnings, errors) = generate_source_diagnostics(&p, 0, 1, false).unwrap();
    let from = text.find("C::f(").unwrap();
    let open = from + text[from..].find("{\n").unwrap() + 2;
    let close = open + text[open..].find("\n\t}\n\n").map(|i| i + 1).unwrap_or(0);
    let mut out = text[open..close].to_string();
    for (_, w) in warnings {
        out.push_str(&format!("warning: {w}\n"));
    }
    for (_, e) in errors {
        out.push_str(&format!("error: {e}\n"));
    }
    out
}

#[test]
fn literals() {
    assert_eq!(
        body("", "", "", "Void", "var a = 1; var b = 1.5; var d = true; var e:String = \"q\\\"\\n\"; var f:cpp.Float32 = 0.1;"),
        concat(&[
            "\tint a = 1;\n",
            "\tdouble b = 1.5;\n",
            "\tbool d = true;\n",
            "\tstd::string e = \"q\\\"\\n\";\n",
            "\tfloat f = 0.1f;\n",
        ]),
    );
}

#[test]
fn integer_division_is_double() {
    assert_eq!(
        body("", "", "x:Int, y:Int, f:Float", "Void", "var a = x / y; var b = x >>> 2; var q = f % 2;"),
        concat(&[
            "\tdouble a = ((double)(x) / y);\n",
            "\tint b = ((int)((unsigned int)(x) >> 2));\n",
            "\tdouble q = fmod(f, 2);\n",
        ]),
    );
}

#[test]
fn string_concatenation() {
    assert_eq!(
        body("", "", "s:String, n:Int", "Void", "var a = s + n; var b = \"x\" + \"y\"; var q = n + s;"),
        concat(&[
            "\tchar _buf1[24]; sprintf(_buf1, \"%d\", n);\n",
            "\tstd::string a = s + std::string(_buf1);\n",
            "\tstd::string b = std::string(\"x\") + \"y\";\n",
            "\tchar _buf2[24]; sprintf(_buf2, \"%d\", n);\n",
            "\tstd::string q = std::string(_buf2) + s;\n",
        ]),
    );
}

#[test]
fn length_comparison_casts() {
    assert_eq!(
        body("", "", "a:Array<Int>, i:Int", "Void", "if (i < a.length) { a.push(i); } while (a.length != 3) { i++; }"),
        concat(&[
            "\tif ((size_t)(i) < a.size()) {\n",
            "\t\ta.push_back(i);\n",
            "\t}\n",
            "\twhile (a.size() != (size_t)(3)) {\n",
            "\t\ti++;\n",
            "\t}\n",
            "warning: f: `push` mutates `a`, an Array parameter — Haxe containers are shared by reference (the caller would see this change), but Hatchet passes containers by value (`const&`), so the mutation is lost and the generated C++ will not compile; mutate a local copy and return it, or hold the container in a class\n",
        ]),
    );
}

#[test]
fn ternary_of_string_literals() {
    assert_eq!(
        body("", "", "b:Bool, s:String", "Void", "var a = b ? \"x\" : \"y\"; var q = b ? s : \"y\";"),
        concat(&[
            "\tstd::string a = std::string(b ? \"x\" : \"y\");\n",
            "\tstd::string q = b ? s : \"y\";\n",
        ]),
    );
}

#[test]
fn optional_string_null_check() {
    assert_eq!(
        body("", "", "?s:String", "Int", "if (s == null) { return 1; } if (null != s) { return 2; } return 3;"),
        concat(&[
            "\tif (s.empty()) {\n",
            "\t\treturn 1;\n",
            "\t}\n",
            "\tif (!s.empty()) {\n",
            "\t\treturn 2;\n",
            "\t}\n",
            "\treturn 3;\n",
        ]),
    );
}

#[test]
fn string_null_check_is_an_error() {
    assert_eq!(
        body("", "", "s:String", "Void", "if (s == null) { return; }"),
        concat(&[
            "\tif (s == NULL) {\n",
            "\t\treturn;\n",
            "\t}\n",
            "error: f: a `String` compared to `null` is never null in Hatchet (it is a value `std::string`, not a nullable reference). Use `!= \"\"` / `== \"\"` to test for the empty string, or declare it `Null<String>` for a genuinely nullable string (an optional `?s:String` may instead take a default, e.g. `?s:String = \"…\"`)\n",
        ]),
    );
}

#[test]
fn null_string_is_dereferenced() {
    assert_eq!(
        body("", "var name:Null<String>;", "", "Void", "var a:String = name; if (name != null) { a = name; }"),
        concat(&[
            "\tstd::string a = (this->name != NULL ? *(this->name) : std::string());\n",
            "\tif (this->name != NULL) {\n",
            "\t\ta = (this->name != NULL ? *(this->name) : std::string());\n",
            "\t}\n",
        ]),
    );
}

#[test]
fn own_setter_is_used() {
    assert_eq!(
        body("", "var x(default, set):Int; function set_x(v:Int):Int { x = v; return v; }", "", "Void", "x = 3; this.x += 2; x++; x %= 2;"),
        concat(&[
            "\tthis->set_x(3);\n",
            "\tthis->set_x(this->x + 2);\n",
            "\tthis->set_x(this->x + 1);\n",
            "\tthis->set_x(this->x % 2);\n",
        ]),
    );
}

#[test]
fn own_getter_is_used() {
    assert_eq!(
        body("", "var x(get, never):Int; function get_x():Int { return 4; }", "", "Void", "var a = x + this.x;"),
        "\tint a = this->get_x() + this->get_x();\n",
    );
}

#[test]
fn foreign_accessors() {
    assert_eq!(
        body("class P { public var v(default, set):Int; public var w(get, never):Int; public var open:Int; public var name:Null<String>; public function new() {} public function get_w():Int { return 1; } public function go(n:Int):P { return null; } } ", "", "p:P", "Void", "p.v = 3; p.v += 2; var a = p.v + p.w; p.go(1).v++; p.open = 4;"),
        concat(&[
            "\tp->SetV(3);\n",
            "\tp->SetV(p->GetV() + 2);\n",
            "\tint a = p->GetV() + p->get_w();\n",
            "\tP* _rcv1 = p->go(1);\n",
            "\t_rcv1->SetV(_rcv1->GetV() + 1);\n",
            "\tp->open = 4;\n",
        ]),
    );
}

#[test]
fn array_write_grows() {
    assert_eq!(
        body("", "var a:Array<Int>;", "i:Int", "Void", "a[i] = 3; a[0] = a[1];"),
        concat(&[
            "\tsize_t _ix1 = (size_t)(i);\n",
            "\tif (_ix1 >= this->a.size()) this->a.resize(_ix1 + 1);\n",
            "\tthis->a[_ix1] = 3;\n",
            "\tsize_t _ix2 = (size_t)(0);\n",
            "\tif (_ix2 >= this->a.size()) this->a.resize(_ix2 + 1);\n",
            "\tthis->a[_ix2] = this->a[1];\n",
        ]),
    );
}

#[test]
fn parameter_container_mutation_warns() {
    assert_eq!(
        body("", "", "a:Array<Int>, m:Map<String, Int>", "Void", "a[0] = 1; a.push(2); m.set(\"k\", 1);"),
        concat(&[
            "\tsize_t _ix1 = (size_t)(0);\n",
            "\tif (_ix1 >= a.size()) a.resize(_ix1 + 1);\n",
            "\ta[_ix1] = 1;\n",
            "\ta.push_back(2);\n",
            "\tm[\"k\"] = 1;\n",
            "warning: f: `[i] = …` mutates `a`, an Array parameter — Haxe containers are shared by reference (the caller would see this change), but Hatchet passes containers by value (`const&`), so the mutation is lost and the generated C++ will not compile; mutate a local copy and return it, or hold the container in a class\n",
            "warning: f: `push` mutates `a`, an Array parameter — Haxe containers are shared by reference (the caller would see this change), but Hatchet passes containers by value (`const&`), so the mutation is lost and the generated C++ will not compile; mutate a local copy and return it, or hold the container in a class\n",
            "warning: f: `set` mutates `m`, a Map parameter — Haxe containers are shared by reference (the caller would see this change), but Hatchet passes containers by value (`const&`), so the mutation is lost and the generated C++ will not compile; mutate a local copy and return it, or hold the container in a class\n",
        ]),
    );
}

#[test]
fn value_struct_parameter_write_is_an_error() {
    assert_eq!(
        body("typedef Pt = { x:Int, y:Int }; ", "", "s:Pt", "Void", "s.x = 1;"),
        concat(&[
            "\ts.x = 1;\n",
            "error: f: cannot assign to `s` or its fields: a value-struct parameter is lowered to C++ `const&` and cannot be mutated in place. Copy it into a local first, or — if the caller should see the change — pass it as a class or `Null<T>`\n",
        ]),
    );
}

#[test]
fn map_get_binds_an_iterator() {
    assert_eq!(
        body("", "var m:Map<String, Int>;", "k:String", "Int", "var v = m.get(k); if (v == null) { return 0; } return v + 1;"),
        concat(&[
            "\tstd::map<std::string, int >::iterator _it1 = this->m.find(k);\n",
            "\tif (_it1 == this->m.end()) {\n",
            "\t\treturn 0;\n",
            "\t}\n",
            "\treturn _it1->second + 1;\n",
        ]),
    );
}

#[test]
fn null_coalescing() {
    assert_eq!(
        body("class P { public var v(default, set):Int; public var w(get, never):Int; public var open:Int; public var name:Null<String>; public function new() {} public function get_w():Int { return 1; } public function go(n:Int):P { return null; } } ", "var q:P;", "p:P", "Void", "var a = p ?? this.q; var b = p?.open ?? 3; var d = p?.go(1) ?? p; p?.go(2);"),
        concat(&[
            "\tP* a = (p != NULL ? p : this->q);\n",
            "\tint b = (p != NULL ? p->open : 3);\n",
            "\tP* d = (p != NULL ? p->go(1) : p);\n",
            "\t(p != NULL ? (p->go(2), 0) : 0);\n",
        ]),
    );
}

#[test]
fn enum_values() {
    assert_eq!(
        body("enum Color { Red; Green; } enum Op { Halt; Add(a:Int, b:Int); } ", "var k:Color;", "", "Void", "k = Red; k = Color.Green; var o = Add(1, 2); o = Op.Halt; if (k == Red) { o = Halt; }"),
        concat(&[
            "\tthis->k = Color_::Red;\n",
            "\tthis->k = Color_::Green;\n",
            "\tOp o = Op::Add(1, 2);\n",
            "\to = Op::Halt();\n",
            "\tif (this->k == Color_::Red) {\n",
            "\t\to = Op::Halt();\n",
            "\t}\n",
        ]),
    );
}

#[test]
fn switch_over_an_enum() {
    assert_eq!(
        body("enum Color { Red; Green; Blue; } ", "var x:Int;", "k:Color", "Void", "switch (k) { case Red: x = 1; case Green, Blue: x = 2; default: x = 3; }"),
        concat(&[
            "\tswitch (k) {\n",
            "\t\tcase Color_::Red: {\n",
            "\t\t\tthis->x = 1;\n",
            "\t\t\tbreak;\n",
            "\t\t}\n",
            "\t\tcase Color_::Green:\n",
            "\t\tcase Color_::Blue: {\n",
            "\t\t\tthis->x = 2;\n",
            "\t\t\tbreak;\n",
            "\t\t}\n",
            "\t\tdefault: {\n",
            "\t\t\tthis->x = 3;\n",
            "\t\t\tbreak;\n",
            "\t\t}\n",
            "\t}\n",
        ]),
    );
}

#[test]
fn switch_over_a_variant() {
    assert_eq!(
        body("enum Op { Halt; Add(a:Int, b:Int); Neg(a:Int); } ", "", "o:Op", "Int", "switch (o) { case Halt: return 0; case Add(a, b): return a + b; case Neg(_): return -1; }"),
        concat(&[
            "\tswitch (o.kind) {\n",
            "\t\tcase Op_::Halt: {\n",
            "\t\t\treturn 0;\n",
            "\t\t}\n",
            "\t\tcase Op_::Add: {\n",
            "\t\t\tint a = o.Add_a;\n",
            "\t\t\tint b = o.Add_b;\n",
            "\t\t\treturn a + b;\n",
            "\t\t}\n",
            "\t\tcase Op_::Neg: {\n",
            "\t\t\treturn -1;\n",
            "\t\t}\n",
            "\t}\n",
        ]),
    );
}

#[test]
fn switch_over_strings() {
    assert_eq!(
        body("", "", "s:String", "Int", "switch (s) { case \"a\", \"b\": return 1; case \"c\": return 2; default: return 3; }"),
        concat(&[
            "\tif (s == \"a\" || s == \"b\") {\n",
            "\t\treturn 1;\n",
            "\t} else if (s == \"c\") {\n",
            "\t\treturn 2;\n",
            "\t} else {\n",
            "\t\treturn 3;\n",
            "\t}\n",
        ]),
    );
}

#[test]
fn break_in_a_switch_leaves_the_loop() {
    assert_eq!(
        body("", "var x:Int;", "n:Int", "Void", "for (i in 0...n) { switch (i) { case 3: break; default: x += i; } }"),
        concat(&[
            "\tint _end1 = n;\n",
            "\tfor (int _i2 = 0; _i2 < _end1; ++_i2) {\n",
            "\t\tbool _brk3 = false;\n",
            "\t\tswitch (_i2) {\n",
            "\t\t\tcase 3: {\n",
            "\t\t\t\t_brk3 = true;\n",
            "\t\t\t\tbreak;\n",
            "\t\t\t}\n",
            "\t\t\tdefault: {\n",
            "\t\t\t\tthis->x += _i2;\n",
            "\t\t\t\tbreak;\n",
            "\t\t\t}\n",
            "\t\t}\n",
            "\t\tif (_brk3) break;\n",
            "\t}\n",
        ]),
    );
}

#[test]
fn switch_value() {
    assert_eq!(
        body("", "", "n:Int", "Int", "var a = switch (n) { case 1: \"one\"; default: var t = \"x\"; t + \"y\"; }; return switch (n) { case 2: 5; default: 6; };"),
        concat(&[
            "\tstd::string _val1;\n",
            "\tswitch (n) {\n",
            "\t\tcase 1: {\n",
            "\t\t\t_val1 = \"one\";\n",
            "\t\t\tbreak;\n",
            "\t\t}\n",
            "\t\tdefault: {\n",
            "\t\t\tstd::string t = \"x\";\n",
            "\t\t\t_val1 = t + \"y\";\n",
            "\t\t\tbreak;\n",
            "\t\t}\n",
            "\t}\n",
            "\tstd::string a = _val1;\n",
            "\tint _val2;\n",
            "\tswitch (n) {\n",
            "\t\tcase 2: {\n",
            "\t\t\t_val2 = 5;\n",
            "\t\t\tbreak;\n",
            "\t\t}\n",
            "\t\tdefault: {\n",
            "\t\t\t_val2 = 6;\n",
            "\t\t\tbreak;\n",
            "\t\t}\n",
            "\t}\n",
            "\treturn _val2;\n",
        ]),
    );
}

#[test]
fn if_value() {
    assert_eq!(
        body("", "", "b:Bool", "Void", "var a = if (b) { 1; } else { var q = 3; q * 2; };"),
        concat(&[
            "\tint _val1;\n",
            "\tif (b) {\n",
            "\t\t_val1 = 1;\n",
            "\t} else {\n",
            "\t\tint q = 3;\n",
            "\t\t_val1 = q * 2;\n",
            "\t}\n",
            "\tint a = _val1;\n",
        ]),
    );
}

#[test]
fn loops() {
    assert_eq!(
        body("", "", "i:Int, a:Array<Int>", "Void", "while (i < 3) { i++; } do { i--; } while (i > 0); for (x in a) { i += x; } for (k => v in a) { i += k * v; }"),
        concat(&[
            "\twhile (i < 3) {\n",
            "\t\ti++;\n",
            "\t}\n",
            "\tdo {\n",
            "\t\ti--;\n",
            "\t} while (i > 0);\n",
            "\tfor (size_t _i1 = 0; _i1 < a.size(); ++_i1) {\n",
            "\t\tint x = a[_i1];\n",
            "\t\ti += x;\n",
            "\t}\n",
            "\tfor (size_t _i2 = 0; _i2 < a.size(); ++_i2) {\n",
            "\t\tint k = (int)_i2;\n",
            "\t\tint v = a[_i2];\n",
            "\t\ti += k * v;\n",
            "\t}\n",
        ]),
    );
}

#[test]
fn map_iteration() {
    assert_eq!(
        body("", "var m:Map<String, Int>; var t:Int; var s:String;", "", "Void", "for (v in m) { t += v; } for (k => v in m) { s = k; t += v; } for (k in m.keys()) { s = k; }"),
        concat(&[
            "\tfor (std::map<std::string, int >::iterator _it1 = this->m.begin(); _it1 != this->m.end(); ++_it1) {\n",
            "\t\tint v = _it1->second;\n",
            "\t\tthis->t += v;\n",
            "\t}\n",
            "\tfor (std::map<std::string, int >::iterator _it2 = this->m.begin(); _it2 != this->m.end(); ++_it2) {\n",
            "\t\tstd::string k = _it2->first;\n",
            "\t\tint v = _it2->second;\n",
            "\t\tthis->s = k;\n",
            "\t\tthis->t += v;\n",
            "\t}\n",
            "\tstd::vector<std::string > _keys4;\n",
            "\tfor (std::map<std::string, int >::iterator _it3 = this->m.begin(); _it3 != this->m.end(); ++_it3) { _keys4.push_back(_it3->first); }\n",
            "\tstd::vector<std::string > _coll5 = _keys4;\n",
            "\tfor (size_t _i6 = 0; _i6 < _coll5.size(); ++_i6) {\n",
            "\t\tstd::string k = _coll5[_i6];\n",
            "\t\tthis->s = k;\n",
            "\t}\n",
        ]),
    );
}

#[test]
fn comprehensions() {
    assert_eq!(
        body("", "", "", "Void", "var a = [for (i in 0...3) i * i]; var m = [for (x in a) if (x > 1) x => \"v\"]; var q:Array<String> = [for (k => v in m) v];"),
        concat(&[
            "\tstd::vector<int > _arr1;\n",
            "\tfor (int _i2 = 0; _i2 < 3; ++_i2) {\n",
            "\t\t_arr1.push_back(_i2 * _i2);\n",
            "\t}\n",
            "\tstd::vector<int > a = _arr1;\n",
            "\tstd::map<int, std::string > _map3;\n",
            "\tfor (size_t _i4 = 0; _i4 < a.size(); ++_i4) {\n",
            "\t\tint x = a[_i4];\n",
            "\t\tif (x > 1) {\n",
            "\t\t\t_map3[x] = \"v\";\n",
            "\t\t}\n",
            "\t}\n",
            "\tstd::map<int, std::string > m = _map3;\n",
            "\tstd::vector<std::string > _arr5;\n",
            "\tfor (std::map<int, std::string >::iterator _it6 = m.begin(); _it6 != m.end(); ++_it6) {\n",
            "\t\tint k = _it6->first;\n",
            "\t\tstd::string v = _it6->second;\n",
            "\t\t_arr5.push_back(v);\n",
            "\t}\n",
            "\tstd::vector<std::string > q = _arr5;\n",
        ]),
    );
}

#[test]
fn array_functions() {
    assert_eq!(
        body("", "var a:Array<Int>;", "", "Void", "var b = a.map((x) -> x + 1); var d = a.filter(function(x) { return x > 1; }); a.sort((x, y) -> x - y);"),
        concat(&[
            "\tstd::vector<int > _map1;\n",
            "\tfor (size_t _i2 = 0; _i2 < this->a.size(); ++_i2) {\n",
            "\t\tint x = this->a[_i2];\n",
            "\t\t_map1.push_back(x + 1);\n",
            "\t}\n",
            "\tstd::vector<int > b = _map1;\n",
            "\tstd::vector<int > _flt3;\n",
            "\tfor (size_t _i4 = 0; _i4 < this->a.size(); ++_i4) {\n",
            "\t\tint x = this->a[_i4];\n",
            "\t\tif (x > 1) { _flt3.push_back(this->a[_i4]); }\n",
            "\t}\n",
            "\tstd::vector<int > d = _flt3;\n",
            "\tfor (size_t _i5 = 1; _i5 < this->a.size(); ++_i5) {\n",
            "\t\tint _key7 = this->a[_i5];\n",
            "\t\tsize_t _j6 = _i5;\n",
            "\t\twhile (_j6 > 0) {\n",
            "\t\t\tint x = this->a[_j6 - 1];\n",
            "\t\t\tint y = _key7;\n",
            "\t\t\tbool _ord8 = ((x - y) > 0);\n",
            "\t\t\tif (!_ord8) break;\n",
            "\t\t\tthis->a[_j6] = this->a[_j6 - 1];\n",
            "\t\t\t--_j6;\n",
            "\t\t}\n",
            "\t\tthis->a[_j6] = _key7;\n",
            "\t}\n",
            "\t((void)0);\n",
        ]),
    );
}

#[test]
fn array_queries() {
    assert_eq!(
        body("", "var a:Array<Int>;", "", "Void", "var b = a.contains(3); var d = a.indexOf(2, 1); var e = a.lastIndexOf(2); a.remove(1); a.reverse(); var g = a.copy(); var h = a.join(\",\"); var k = a.concat(g); var l = a.slice(1, -1);"),
        concat(&[
            "\tbool _has2 = false;\n",
            "\tfor (size_t _i1 = 0; _i1 < this->a.size(); ++_i1) { if (this->a[_i1] == 3) { _has2 = true; break; } }\n",
            "\tbool b = _has2;\n",
            "\tint _idx4 = -1;\n",
            "\tfor (size_t _i3 = (size_t)(1); _i3 < this->a.size(); ++_i3) { if (this->a[_i3] == 2) { _idx4 = (int)_i3; break; } }\n",
            "\tint d = _idx4;\n",
            "\tint _idx6 = -1;\n",
            "\tfor (size_t _i5 = this->a.size(); _i5-- > 0; ) { if (_i5 < this->a.size() && this->a[_i5] == 2) { _idx6 = (int)_i5; break; } }\n",
            "\tint e = _idx6;\n",
            "\tbool _rem8 = false;\n",
            "\tfor (size_t _i7 = 0; _i7 < this->a.size(); ++_i7) { if (this->a[_i7] == 1) { this->a.erase(this->a.begin() + _i7); _rem8 = true; break; } }\n",
            "\t_rem8;\n",
            "\tfor (size_t _i9 = 0; _i9 < this->a.size() / 2; ++_i9) { int _tmp10 = this->a[_i9]; this->a[_i9] = this->a[this->a.size() - 1 - _i9]; this->a[this->a.size() - 1 - _i9] = _tmp10; }\n",
            "\t((void)0);\n",
            "\tstd::vector<int > g = std::vector<int >(this->a);\n",
            "\tstd::string _join12;\n",
            "\tfor (size_t _i11 = 0; _i11 < this->a.size(); ++_i11) { if (_i11) _join12 += \",\"; char _buf13[64]; sprintf(_buf13, \"%d\", this->a[_i11]); _join12 += _buf13; }\n",
            "\tstd::string h = _join12;\n",
            "\tstd::vector<int > _cat15 = this->a;\n",
            "\tfor (size_t _i14 = 0; _i14 < (g).size(); ++_i14) { _cat15.push_back((g)[_i14]); }\n",
            "\tstd::vector<int > k = _cat15;\n",
            "\tstd::vector<int > _slc16;\n",
            "\tint _a17 = (int)(1); if (_a17 < 0) _a17 += (int)this->a.size(); if (_a17 < 0) _a17 = 0; if ((size_t)_a17 > this->a.size()) _a17 = (int)this->a.size();\n",
            "\tint _b18 = (int)(-1); if (_b18 < 0) _b18 += (int)this->a.size(); if (_b18 < 0) _b18 = 0; if ((size_t)_b18 > this->a.size()) _b18 = (int)this->a.size();\n",
            "\tfor (size_t _i19 = (size_t)_a17; _i19 < (size_t)_b18; ++_i19) { _slc16.push_back(this->a[_i19]); }\n",
            "\tstd::vector<int > l = _slc16;\n",
        ]),
    );
}

#[test]
fn array_ends() {
    assert_eq!(
        body("", "var a:Array<Int>; var v:Array<Array<Int>>;", "n:Int", "Void", "var b = a.pop(); var d = a.shift(); a.unshift(3); a.insert(1, n + 1); a.push(n); a.push(n + 1); v.push([]);"),
        concat(&[
            "\tint _pop1 = this->a.back();\n",
            "\tthis->a.pop_back();\n",
            "\tint b = _pop1;\n",
            "\tint _shift2 = this->a.front();\n",
            "\tthis->a.erase(this->a.begin());\n",
            "\tint d = _shift2;\n",
            "\tthis->a.insert(this->a.begin(), 3);\n",
            "\tint _elem3 = n + 1;\n",
            "\tthis->a.insert(this->a.begin() + 1, _elem3);\n",
            "\tthis->a.push_back(n);\n",
            "\tint _elem4 = n + 1;\n",
            "\tthis->a.push_back(_elem4);\n",
            "\tthis->v.push_back(std::vector<int >());\n",
        ]),
    );
}

#[test]
fn map_methods() {
    assert_eq!(
        body("", "var m:Map<String, Int>;", "", "Void", "m.set(\"a\", 1); var b = m.exists(\"a\"); var d = m.remove(\"a\"); var e = m.get(\"b\") + 1;"),
        concat(&[
            "\tthis->m[\"a\"] = 1;\n",
            "\tbool b = (this->m.find(\"a\") != this->m.end());\n",
            "\tbool d = (this->m.erase(\"a\") != 0);\n",
            "\tint e = this->m[\"b\"] + 1;\n",
        ]),
    );
}

#[test]
fn ordered_map() {
    assert_eq!(
        body("", "@orderedMap var m:Map<String, Int>; var t:Int;", "", "Void", "m = new Map(); m.set(\"a\", 1); var b = m.get(\"a\"); var d = m.exists(\"b\"); m.remove(\"a\"); for (k => v in m) { t += v; } m = [\"x\" => 1];"),
        concat(&[
            "\tthis->m_keys.clear(), this->m_vals.clear();\n",
            "\tbool _found2 = false;\n",
            "\tfor (size_t _i1 = 0; _i1 < this->m_keys.size(); ++_i1) { if (this->m_keys[_i1] == \"a\") { this->m_vals[_i1] = 1; _found2 = true; break; } }\n",
            "\tif (!_found2) { this->m_keys.push_back(\"a\"); this->m_vals.push_back(1); }\n",
            "\tint _get4 = int();\n",
            "\tfor (size_t _i3 = 0; _i3 < this->m_keys.size(); ++_i3) { if (this->m_keys[_i3] == \"a\") { _get4 = this->m_vals[_i3]; break; } }\n",
            "\tint b = _get4;\n",
            "\tbool _has6 = false;\n",
            "\tfor (size_t _i5 = 0; _i5 < this->m_keys.size(); ++_i5) { if (this->m_keys[_i5] == \"b\") { _has6 = true; break; } }\n",
            "\tbool d = _has6;\n",
            "\tbool _rem8 = false;\n",
            "\tfor (size_t _i7 = 0; _i7 < this->m_keys.size(); ++_i7) { if (this->m_keys[_i7] == \"a\") { this->m_keys.erase(this->m_keys.begin() + _i7); this->m_vals.erase(this->m_vals.begin() + _i7); _rem8 = true; break; } }\n",
            "\t_rem8;\n",
            "\tfor (size_t _i9 = 0; _i9 < this->m_keys.size(); ++_i9) {\n",
            "\t\tstd::string k = this->m_keys[_i9];\n",
            "\t\tint v = this->m_vals[_i9];\n",
            "\t\tthis->t += v;\n",
            "\t}\n",
            "\tthis->m_keys.clear();\n",
            "\tthis->m_vals.clear();\n",
            "\tthis->m_keys.push_back(\"x\");\n",
            "\tthis->m_vals.push_back(1);\n",
        ]),
    );
}

#[test]
fn ordered_map_as_a_value_is_an_error() {
    assert_eq!(
        body("", "@orderedMap var m:Map<String, Int>;", "", "Map<String, Int>", "return this.m;"),
        concat(&[
            "\treturn this->m;\n",
            "error: f: `m` is an @orderedMap field and has no single map value: use it via `get`/`set`/`exists`/`remove`/`keys` or a `for` loop, not as a whole value (it cannot be passed, returned, or assigned as a map)\n",
        ]),
    );
}

#[test]
fn string_methods() {
    assert_eq!(
        body("", "", "s:String", "Void", "var a = s.charAt(1); var b = s.indexOf(\"x\", 2); var d = s.lastIndexOf(\"x\"); var e = s.charCodeAt(0); var f = s.toUpperCase(); var n = \"abc\".length; var q = \"A\".code;"),
        concat(&[
            "\tstd::string a = s.substr(1, 1);\n",
            "\tint b = ((int)s.find(\"x\", 2));\n",
            "\tint d = ((int)s.rfind(\"x\"));\n",
            "\tint e = ((int)(unsigned char)s.at(0));\n",
            "\tstd::string _case1 = s;\n",
            "\tfor (size_t _i2 = 0; _i2 < _case1.size(); ++_i2) { if (_case1[_i2] >= 'a' && _case1[_i2] <= 'z') _case1[_i2] = (char)(_case1[_i2] - 'a' + 'A'); }\n",
            "\tstd::string f = _case1;\n",
            "\tint n = std::string(\"abc\").length();\n",
            "\tint q = ((int)(unsigned char)(\"A\")[0]);\n",
        ]),
    );
}

#[test]
fn string_split() {
    assert_eq!(
        body("", "", "s:String", "Void", "var a = s.split(\",\"); var b = s.substr(1, 2); var d = s.substring(3);"),
        concat(&[
            "\tstd::vector<std::string > _spl1;\n",
            "\tstd::string _s2 = s;\n",
            "\tstd::string _d3 = \",\";\n",
            "\tif (_d3.empty()) {\n",
            "\t\tfor (size_t _i4 = 0; _i4 < _s2.size(); ++_i4) { _spl1.push_back(_s2.substr(_i4, 1)); }\n",
            "\t} else {\n",
            "\t\tsize_t _start5 = 0;\n",
            "\t\tsize_t _found6;\n",
            "\t\twhile ((_found6 = _s2.find(_d3, _start5)) != std::string::npos) {\n",
            "\t\t\t_spl1.push_back(_s2.substr(_start5, _found6 - _start5));\n",
            "\t\t\t_start5 = _found6 + _d3.size();\n",
            "\t\t}\n",
            "\t\t_spl1.push_back(_s2.substr(_start5));\n",
            "\t}\n",
            "\tstd::vector<std::string > a = _spl1;\n",
            "\tstd::string _s7 = s;\n",
            "\tint _p8 = (int)(1);\n",
            "\tif (_p8 < 0) _p8 += (int)_s7.size();\n",
            "\tif (_p8 < 0) _p8 = 0;\n",
            "\tif ((size_t)_p8 > _s7.size()) _p8 = (int)_s7.size();\n",
            "\tint _n10 = (int)(2); if (_n10 < 0) _n10 = 0;\n",
            "\tstd::string _sub9 = _s7.substr((size_t)_p8, (size_t)_n10);\n",
            "\tstd::string b = _sub9;\n",
            "\tstd::string _s11 = s;\n",
            "\tint _a12 = (int)(3); if (_a12 < 0) _a12 = 0; if ((size_t)_a12 > _s11.size()) _a12 = (int)_s11.size();\n",
            "\tint _b13 = (int)_s11.size();\n",
            "\tif (_a12 > _b13) { int t = _a12; _a12 = _b13; _b13 = t; }\n",
            "\tstd::string _sub14 = _s11.substr((size_t)_a12, (size_t)(_b13 - _a12));\n",
            "\tstd::string d = _sub14;\n",
        ]),
    );
}

#[test]
fn math_functions() {
    assert_eq!(
        body("", "", "x:Float, n:Int", "Void", "var a = Math.sqrt(x); var b = Math.floor(x); var d = Math.min(x, 2); var e = Math.abs(n); var f = Math.abs(x); var g = Math.PI; var h = Math.round(x); var k = Math.isNaN(x); var l = Math.pow(x, 2);"),
        concat(&[
            "\tdouble a = sqrt(x);\n",
            "\tint b = ((int)floor(x));\n",
            "\tdouble d = ((x) < (2) ? (x) : ((x) == (x) ? (2) : (x)));\n",
            "\tint e = abs(n);\n",
            "\tdouble f = fabs(x);\n",
            "\tdouble g = 3.141592653589793;\n",
            "\tint h = ((int)floor((x) + 0.5));\n",
            "\tbool k = ((x) != (x));\n",
            "\tdouble l = pow(x, 2);\n",
        ]),
    );
}

#[test]
fn std_functions() {
    assert_eq!(
        body("", "", "x:Float, n:Int, s:String", "Void", "var a = Std.int(x); var b = Std.string(n); var d = Std.string(true); var e = Std.parseInt(s); var f = Std.parseFloat(\"1.5\"); var g = Std.random(6); var h = Std.string(\"lit\");"),
        concat(&[
            "\tint a = (int)(x);\n",
            "\tchar _buf1[24]; sprintf(_buf1, \"%d\", n);\n",
            "\tstd::string b = std::string(_buf1);\n",
            "\tstd::string d = ((true) ? std::string(\"true\") : std::string(\"false\"));\n",
            "\tint e = (int)strtol(s.c_str(), NULL, 0);\n",
            "\tdouble f = atof(\"1.5\");\n",
            "\tint g = (((int)(6)) > 0 ? (rand() % (int)(6)) : 0);\n",
            "\tstd::string h = std::string(\"lit\");\n",
        ]),
    );
}

#[test]
fn string_tools() {
    assert_eq!(
        body("", "", "s:String, n:Int", "Void", "var a = StringTools.replace(s, \"a\", \"b\"); var b = StringTools.ltrim(s); var d = StringTools.startsWith(s, \"x\"); var e = StringTools.hex(n, 4);"),
        concat(&[
            "\tstd::string _rep1 = s;\n",
            "\tstd::string _sub2 = \"a\";\n",
            "\tstd::string _by3 = \"b\";\n",
            "\tif (!_sub2.empty()) {\n",
            "\t\tsize_t _pos4 = 0;\n",
            "\t\twhile ((_pos4 = _rep1.find(_sub2, _pos4)) != std::string::npos) { _rep1.replace(_pos4, _sub2.size(), _by3); _pos4 += _by3.size(); }\n",
            "\t}\n",
            "\tstd::string a = _rep1;\n",
            "\tstd::string _trm5 = s;\n",
            "\tsize_t _a6 = 0; size_t _b7 = _trm5.size();\n",
            "\twhile (_a6 < _b7 && (_trm5[_a6] == ' ' || _trm5[_a6] == '\\t' || _trm5[_a6] == '\\n' || _trm5[_a6] == '\\r')) ++_a6;\n",
            "\tstd::string _res8 = _trm5.substr(_a6, _b7 - _a6);\n",
            "\tstd::string b = _res8;\n",
            "\tstd::string _s9 = s;\n",
            "\tstd::string _sub10 = \"x\";\n",
            "\tbool _res11 = (_s9.size() >= _sub10.size() && _s9.compare(0, _sub10.size(), _sub10) == 0);\n",
            "\tbool d = _res11;\n",
            "\tchar _hex12[32];\n",
            "\tsprintf(_hex12, \"%0*X\", (int)(4), (unsigned int)(n));\n",
            "\tstd::string _res13 = _hex12;\n",
            "\tstd::string e = _res13;\n",
        ]),
    );
}

#[test]
fn interpolation() {
    assert_eq!(
        body("", "", "n:Int, s:String", "Void", "var a = 'n=${n + 1} $s ok'; var b = 'plain'; var d = '${\"in\" + n}';"),
        concat(&[
            "\tstd::string _str1;\n",
            "\t_str1 += \"n=\";\n",
            "\tchar _buf2[24]; sprintf(_buf2, \"%d\", n + 1);\n",
            "\t_str1 += _buf2;\n",
            "\t_str1 += \" \";\n",
            "\t_str1 += s;\n",
            "\t_str1 += \" ok\";\n",
            "\tstd::string a = _str1;\n",
            "\tstd::string b = \"plain\";\n",
            "\tstd::string _str3;\n",
            "\tchar _buf4[24]; sprintf(_buf4, \"%d\", n);\n",
            "\t_str3 += \"in\" + std::string(_buf4);\n",
            "\tstd::string d = _str3;\n",
        ]),
    );
}

#[test]
fn trace_lines() {
    assert_eq!(
        body("", "", "n:Int, s:String", "Void", "trace(\"hi\", n, 1.5, s);"),
        "\tprintf(\"C.hx:2: %s, %d, %f, %s\\n\", \"hi\", n, 1.5, s.c_str());\n",
    );
}

#[test]
fn object_literals() {
    assert_eq!(
        body("typedef Pt = { x:Int, y:Int }; ", "function take(q:Pt):Void {}", "n:Int", "Pt", "var a:Pt = { x: 1, y: n }; var b = { u: 1, v: \"s\" }; take({ x: 2, y: 3 }); return { x: 4, y: 5 };"),
        concat(&[
            "\tPt a;\n",
            "\ta.x = 1;\n",
            "\ta.y = n;\n",
            "\tstruct { int u; std::string v; } b;\n",
            "\tb.u = 1;\n",
            "\tb.v = \"s\";\n",
            "\tPt _anon1;\n",
            "\t_anon1.x = 2;\n",
            "\t_anon1.y = 3;\n",
            "\ttake(_anon1);\n",
            "\tPt _ret2;\n",
            "\t_ret2.x = 4;\n",
            "\t_ret2.y = 5;\n",
            "\treturn _ret2;\n",
        ]),
    );
}

#[test]
fn array_literals() {
    assert_eq!(
        body("", "function use(q:Array<Int>):Void {}", "", "Array<String>", "var a = [1, 2]; var b:Array<String> = []; var d = [1, -2, 3, 4, 5, 6, 7, 8]; use([3]); return [\"x\"];"),
        concat(&[
            "\tstd::vector<int > a;\n",
            "\ta.push_back(1);\n",
            "\ta.push_back(2);\n",
            "\tstd::vector<std::string > b;\n",
            "\tstatic const int d_data[] = {\n",
            "\t\t1, -2, 3, 4, 5, 6, 7, 8,\n",
            "\t};\n",
            "\tstd::vector<int > d(d_data, d_data + 8);\n",
            "\tstd::vector<int > _arr1;\n",
            "\t_arr1.push_back(3);\n",
            "\tuse(_arr1);\n",
            "\tstd::vector<std::string > _ret2;\n",
            "\t_ret2.push_back(\"x\");\n",
            "\treturn _ret2;\n",
        ]),
    );
}

#[test]
fn map_literals() {
    assert_eq!(
        body("", "", "", "Void", "var a:Map<String, Int> = [\"k\" => 1, \"l\" => 2];"),
        concat(&[
            "\tstd::map<std::string, int > a;\n",
            "\ta[\"k\"] = 1;\n",
            "\ta[\"l\"] = 2;\n",
        ]),
    );
}

#[test]
fn new_values() {
    assert_eq!(
        body("@:stackOnly class V { public function new(n:Int) {} } ", "", "", "Void", "var a = new Array<Int>(); var b = new Map<String, Int>(); var d = new String(\"x\"); var e = new V(1);"),
        concat(&[
            "\tstd::vector<int > a = std::vector<int >();\n",
            "\tstd::map<std::string, int > b = std::map<std::string, int >();\n",
            "\tstd::string d = std::string(\"x\");\n",
            "\tV e = V(1);\n",
        ]),
    );
}

#[test]
fn owned_locals_are_deleted() {
    assert_eq!(
        body("class Q { public function new() {} public function go():Void {} } ", "", "", "Void", "var a = new Q(); var b = new Q(); a.go();"),
        concat(&[
            "\tQ* a = new Q();\n",
            "\tQ* b = new Q();\n",
            "\ta->go();\n",
            "\tdelete b;\n",
            "\tdelete a;\n",
        ]),
    );
}

#[test]
fn early_return_deletes_owned_locals() {
    assert_eq!(
        body("class Q { public function new() {} } ", "", "n:Int", "Int", "var a = new Q(); if (n > 1) { return 1; } return n + 2;"),
        concat(&[
            "\tQ* a = new Q();\n",
            "\tif (n > 1) {\n",
            "\t\tint _ret1 = 1;\n",
            "\t\tdelete a;\n",
            "\t\treturn _ret1;\n",
            "\t}\n",
            "\tint _ret2 = n + 2;\n",
            "\tdelete a;\n",
            "\treturn _ret2;\n",
        ]),
    );
}

#[test]
fn returned_local_is_not_deleted() {
    assert_eq!(
        body("class Q { public function new() {} } ", "", "", "Q", "var a = new Q(); return a;"),
        concat(&[
            "\tQ* a = new Q();\n",
            "\treturn a;\n",
        ]),
    );
}

#[test]
fn sink_hands_a_local_over() {
    assert_eq!(
        body("class Q { public function new() {} } ", "function take(q:Q):Void {}", "", "Void", "@sink var a = new Q(); take(@sink new Q()); var b = new Q(); take(@sink b);"),
        concat(&[
            "\tQ* a = new Q();\n",
            "\ttake(new Q());\n",
            "\tQ* b = new Q();\n",
            "\ttake(b);\n",
        ]),
    );
}

#[test]
fn delete_forces_a_free() {
    assert_eq!(
        body("class Q { public function new() {} } ", "function make():Q { return null; }", "", "Void", "@delete var a = make(); @delete var n = 3;"),
        concat(&[
            "\tQ* a = make();\n",
            "\tint n = 3;\n",
            "\tdelete a;\n",
            "warning: f: `@delete` on `n` has no effect — it is a value local (freed automatically at scope close), not an owned pointer\n",
        ]),
    );
}

#[test]
fn new_arguments_are_owned() {
    assert_eq!(
        body("class Q { public function new() {} } ", "function take(q:Q):Void {}", "", "Void", "take(new Q());"),
        concat(&[
            "\tQ* _v1 = new Q();\n",
            "\ttake(_v1);\n",
            "\tdelete _v1;\n",
        ]),
    );
}

#[test]
fn nullable_result_is_kept() {
    assert_eq!(
        body("", "function find(n:Int):Null<Int> { return null; }", "", "Void", "find(1); var a = find(2); var b:Null<Int> = find(3);"),
        concat(&[
            "\tint* _null1 = find(1);\n",
            "\tint* a = find(2);\n",
            "\tint* b = find(3);\n",
            "\tdelete b;\n",
            "\tdelete a;\n",
            "\tdelete _null1;\n",
            "warning: f: local 'a' is assigned a Null<T> value but is not declared `Null<T>`; declare it `Null<T>` so the nullable result is tracked\n",
        ]),
    );
}

#[test]
fn buried_nullable_result_warns() {
    assert_eq!(
        body("", "function find(n:Int):Null<Int> { return null; } function take(n:Int):Void {}", "", "Void", "take(find(1));"),
        concat(&[
            "\ttake(find(1));\n",
            "warning: f: a Null<T> function result is used inside a larger expression (nesting depth 2), so it cannot be stored in a `Null<T>` local and freed (extract the call to its own `Null<T>` local, or raise --depth to auto-extract)\n",
        ]),
    );
}

#[test]
fn nullable_assignment_allocates() {
    assert_eq!(
        body("", "var q:Null<Int>;", "", "Void", "q = 3; q = null; q = q;"),
        concat(&[
            "\tthis->q = new int(3);\n",
            "\tthis->q = NULL;\n",
            "\tthis->q = this->q;\n",
        ]),
    );
}

#[test]
fn nullable_return_allocates() {
    assert_eq!(
        body("", "", "n:Int", "Null<Int>", "if (n > 1) { return null; } return n;"),
        concat(&[
            "\tif (n > 1) {\n",
            "\t\treturn NULL;\n",
            "\t}\n",
            "\treturn new int(n);\n",
        ]),
    );
}

#[test]
fn null_return_of_a_struct() {
    assert_eq!(
        body("typedef Pt = { x:Int }; ", "", "", "Pt", "return null;"),
        "\treturn Pt();\n",
    );
}

#[test]
fn casts() {
    assert_eq!(
        body("", "", "x:Float, n:Int, s:String", "Void", "var a = cast(x, Int); var b = (n : Float); var d = cast n; var e = (s : String); var q:cpp.UInt16 = n + 1;"),
        concat(&[
            "\tint a = ((int) x);\n",
            "\tdouble b = ((double) n);\n",
            "\tint d = n;\n",
            "\tstd::string e = s;\n",
            "\tuint16_t q = (uint16_t)(n + 1);\n",
        ]),
    );
}

#[test]
fn raw_code() {
    assert_eq!(
        body("", "", "n:Int", "Void", "__cpp__(\"foo({0}, {1});\", n, n + 1); untyped __cpp__(\"\\\"q\\\"\");"),
        concat(&[
            "\tfoo(n, n + 1);;\n",
            "\t\"q\";\n",
        ]),
    );
}

#[test]
fn raw_pointers() {
    assert_eq!(
        body("", "", "n:Int, v:Array<Int>", "Void", "var a = cpp.Pointer.fromStar(n).raw; var b = cpp.Pointer.ofArray(v).raw;"),
        concat(&[
            "\tint* a = &(n);\n",
            "\tint* b = &(v)[0];\n",
        ]),
    );
}

#[test]
fn catch_all_value_is_an_error() {
    assert_eq!(
        body("", "function go():Void {}", "", "Void", "try { go(); } catch (e) { trace(e); }"),
        concat(&[
            "\ttry {\n",
            "\t\tgo();\n",
            "\t} catch (...) {\n",
            "\t\tprintf(\"C.hx:2: %d\\n\", e);\n",
            "\t}\n",
            "error: f: the value `e` of an untyped/`Dynamic` catch cannot be used: C++ `catch (...)` does not bind the exception — give the catch a concrete type (e.g. `catch (e:String)`)\n",
        ]),
    );
}

#[test]
fn throw_and_catch() {
    assert_eq!(
        body("", "", "", "Void", "try { throw \"x\"; } catch (e:String) { trace(e); } catch (e:Dynamic) { return; }"),
        concat(&[
            "\ttry {\n",
            "\t\tthrow std::string(\"x\");\n",
            "\t} catch (const std::string& e) {\n",
            "\t\tprintf(\"C.hx:2: %s\\n\", e.c_str());\n",
            "\t} catch (...) {\n",
            "\t\treturn;\n",
            "\t}\n",
        ]),
    );
}

#[test]
fn statics() {
    assert_eq!(
        body("class P2 { public static var Q:Int = 4; public static function twice(n:Int):Int { return n * 2; } } ", "static final MAX:Int = 3; static var table:Array<Int> = [1]; var n:Int;", "", "Void", "n = C.MAX + C.table[0] + P2.Q; var f = P2.twice(3);"),
        concat(&[
            "\tthis->n = C::MAX + C::table()[0] + P2::Q;\n",
            "\tint f = P2::twice(3);\n",
        ]),
    );
}

#[test]
fn shadowing_is_renamed() {
    assert_eq!(
        body("", "", "n:Int", "Void", "var n = 1; { var n = 2; n++; } n++;"),
        concat(&[
            "\tint n_2 = 1;\n",
            "\t{\n",
            "\t\tint n_3 = 2;\n",
            "\t\tn_3++;\n",
            "\t}\n",
            "\tn_2++;\n",
        ]),
    );
}

#[test]
fn overload_mismatch_is_an_error() {
    assert_eq!(
        body("class Ov { public function new() {} @:overload(function(a:Int):Int {}) public function put(s:String):Void {} } ", "", "o:Ov", "Void", "o.put(1); o.put(true);"),
        concat(&[
            "\to->put(1);\n",
            "\to->put(true);\n",
            "error: f: call to overloaded method `put` with argument type(s) (bool) matches no @:overload signature; Hatchet will not guess the intended C++ overload (add a matching @:overload or correct the call arguments)\n",
        ]),
    );
}

#[test]
fn module_function_call() {
    assert_eq!(
        body("function helper(n:Int):Int { return n; } ", "", "", "Void", "var a = helper(2); var b = Other.away(1);"),
        concat(&[
            "\tint a = helper(2);\n",
            "\tint b = away(1);\n",
        ]),
    );
}

#[test]
fn custom_iterators() {
    assert_eq!(
        body("class It { public function new() {} public function hasNext():Bool { return false; } public function next():Int { return 1; } } class Bag { public function new() {} public function iterator():It { return new It(); } } ", "var n:Int;", "it:It, b:Bag", "Void", "for (x in it) { n += x; } for (y in b) { n += y; } for (z in b.iterator()) { n += z; } var a = [for (q in it) q * 2]; for (k => v in it) { n += v; }"),
        concat(&[
            "\twhile (it->hasNext()) {\n",
            "\t\tint x = it->next();\n",
            "\t\tthis->n += x;\n",
            "\t}\n",
            "\tIt* _iter1 = b->iterator();\n",
            "\twhile (_iter1->hasNext()) {\n",
            "\t\tint y = _iter1->next();\n",
            "\t\tthis->n += y;\n",
            "\t}\n",
            "\tIt* _iter2 = b->iterator();\n",
            "\twhile (_iter2->hasNext()) {\n",
            "\t\tint z = _iter2->next();\n",
            "\t\tthis->n += z;\n",
            "\t}\n",
            "\tstd::vector<int > _arr3;\n",
            "\twhile (it->hasNext()) {\n",
            "\t\tint q = it->next();\n",
            "\t\t_arr3.push_back(q * 2);\n",
            "\t}\n",
            "\tstd::vector<int > a = _arr3;\n",
            "\twhile (it->hasNext()) {\n",
            "\t\tint k = it->next();\n",
            "\t\tthis->n += v;\n",
            "\t}\n",
            "error: f: `for (k => v in ...)` over a custom iterator is not supported\n",
        ]),
    );
}

#[test]
fn three_locals_of_a_name() {
    assert_eq!(
        body("", "", "", "Int", "var x = 1; var x = 2; var x = 3; return x;"),
        concat(&[
            "\tint x = 1;\n",
            "\tint x_2 = 2;\n",
            "\tint x_3 = 3;\n",
            "\treturn x_3;\n",
        ]),
    );
}

#[test]
fn literal_initialisers_get_free_names() {
    assert_eq!(
        body("", "", "", "Void", "var a = [1]; var a = [2]; a.push(3);"),
        concat(&[
            "\tstd::vector<int > a;\n",
            "\ta.push_back(1);\n",
            "\tstd::vector<int > a_2;\n",
            "\ta_2.push_back(2);\n",
            "\ta_2.push_back(3);\n",
        ]),
    );
}

#[test]
fn probing_keeps_earlier_lines() {
    assert_eq!(
        body("class Foo { public function new() {} } ", "", "", "Void", "h(new Foo(), [true]);"),
        concat(&[
            "\tstd::vector<bool > _arr2;\n",
            "\tFoo* _v1 = new Foo();\n",
            "\t_arr2.push_back(true);\n",
            "\th(_v1, _arr2);\n",
            "\tdelete _v1;\n",
        ]),
    );
}

#[test]
fn ascription_casts_the_whole_sum() {
    assert_eq!(
        body("", "", "", "Int", "return (1.5 + 2.5 : Int);"),
        "\treturn ((int) (1.5 + 2.5));\n",
    );
}

#[test]
fn ascription_keeps_its_parentheses() {
    assert_eq!(
        body("", "", "n:Int", "Int", "var a = 2 * (n + 1 : Int); var b = (n * 2 : Int) + 1; var d = -(n + 1 : Int); var e = (n + 1 : Int); var q = cast(n / 2, Int); return n - (n - 1 : Int);"),
        concat(&[
            "\tint a = 2 * (n + 1);\n",
            "\tint b = n * 2 + 1;\n",
            "\tint d = -(n + 1);\n",
            "\tint e = n + 1;\n",
            "\tint q = ((int) ((double)(n) / 2));\n",
            "\treturn n - (n - 1);\n",
        ]),
    );
}

#[test]
fn injected_code_is_left_alone() {
    assert_eq!(
        body("", "", "", "Void", "untyped __cpp__(\"f({0}, {1})\", \"{1}\", true);"),
        "\tf(\"{1}\", true);\n",
    );
}

#[test]
fn absolute_value_of_a_nullable() {
    assert_eq!(
        body("", "", "v:Null<Float>", "Void", "var a = Math.abs(v);"),
        concat(&[
            "\tdouble* a = fabs(v);\n",
            "\tdelete a;\n",
            "warning: f: local 'a' is assigned a Null<T> value but is not declared `Null<T>`; declare it `Null<T>` so the nullable result is tracked\n",
        ]),
    );
}

#[test]
fn handed_over_local_is_not_freed() {
    assert_eq!(
        body("class Foo { public function new() {} } class K { public function new() {} public function keep(@sink a:Foo):Void {} } ", "var k:K;", "", "Void", "var x = new Foo(); var x = new Foo(); k.keep(x);"),
        concat(&[
            "\tFoo* x = new Foo();\n",
            "\tFoo* x_2 = new Foo();\n",
            "\tthis->k->keep(x_2);\n",
            "\tdelete x;\n",
        ]),
    );
}

#[test]
fn written_map_is_popped_once() {
    assert_eq!(
        body("", "var ms:Array<Map<String, Int>>;", "", "Void", "ms.pop()[\"a\"] = 1;"),
        concat(&[
            "\tstd::map<std::string, int > _pop2 = this->ms.back();\n",
            "\tthis->ms.pop_back();\n",
            "\t_pop2[\"a\"] = 1;\n",
        ]),
    );
}

#[test]
fn trace_of_quoted_literals() {
    assert_eq!(
        body("", "", "", "Void", "trace('hi', \"a\");"),
        "\tprintf(\"C.hx:2: %s, %s\\n\", \"hi\", \"a\");\n",
    );
}

#[test]
fn text_of_a_sum() {
    assert_eq!(
        body("", "", "a:String, b:String", "Void", "trace(a + b, 1 + 2); var n = Std.parseInt(a + b);"),
        concat(&[
            "\tprintf(\"C.hx:2: %s, %d\\n\", (a + b).c_str(), 1 + 2);\n",
            "\tint n = (int)strtol((a + b).c_str(), NULL, 0);\n",
        ]),
    );
}

#[test]
fn map_values_have_their_type() {
    assert_eq!(
        body("", "var m:Map<String, Int>;", "", "String", "return \"n\" + m[\"a\"];"),
        concat(&[
            "\tchar _buf1[24]; sprintf(_buf1, \"%d\", this->m[\"a\"]);\n",
            "\treturn \"n\" + std::string(_buf1);\n",
        ]),
    );
}

#[test]
fn null_result_of_a_string() {
    assert_eq!(
        body("", "", "", "String", "return null;"),
        "\treturn std::string();\n",
    );
}

#[test]
fn compound_write_through_a_setter() {
    assert_eq!(
        body("", "var x(default, set):Int; function set_x(v:Int):Int { x = v; return v; }", "b:Bool", "Void", "x *= 2 + 3; x += 2 * 3; x -= b ? 1 : 2; x %= 2 + 3;"),
        concat(&[
            "\tthis->set_x(this->x * (2 + 3));\n",
            "\tthis->set_x(this->x + 2 * 3);\n",
            "\tthis->set_x(this->x - (b ? 1 : 2));\n",
            "\tthis->set_x(this->x % (2 + 3));\n",
        ]),
    );
}

#[test]
fn unsigned_shift_assignment() {
    assert_eq!(
        body("", "", "n:Int", "Void", "n >>>= 1 | 2; n >>>= 1 + 2;"),
        concat(&[
            "\tn = (int)((unsigned int)(n) >> (1 | 2));\n",
            "\tn = (int)((unsigned int)(n) >> 1 + 2);\n",
        ]),
    );
}

#[test]
fn grouped_literals_are_joined() {
    assert_eq!(
        body("", "", "", "String", "return \"a\" + (\"b\");"),
        "\treturn std::string(\"a\") + (\"b\");\n",
    );
}

#[test]
fn pushed_property_is_bound() {
    assert_eq!(
        body("", "var xs:Array<Int>; var p(get, never):Int; function get_p():Int { return 1; }", "", "Void", "xs.push(p);"),
        concat(&[
            "\tint _elem1 = this->get_p();\n",
            "\tthis->xs.push_back(_elem1);\n",
        ]),
    );
}

#[test]
fn shadowed_optional_is_a_value() {
    assert_eq!(
        body("", "", "?s:String", "Void", "{ var s = \"q\"; if (s == null) { return; } }"),
        concat(&[
            "\t{\n",
            "\t\tstd::string s_2 = \"q\";\n",
            "\t\tif (s_2 == NULL) {\n",
            "\t\t\treturn;\n",
            "\t\t}\n",
            "\t}\n",
            "error: f: a `String` compared to `null` is never null in Hatchet (it is a value `std::string`, not a nullable reference). Use `!= \"\"` / `== \"\"` to test for the empty string, or declare it `Null<String>` for a genuinely nullable string (an optional `?s:String` may instead take a default, e.g. `?s:String = \"…\"`)\n",
        ]),
    );
}

#[test]
fn added_to_popped_once() {
    assert_eq!(
        body("class N { public var n:Int; public function new() {} } ", "var os:Array<N>;", "", "Void", "os.pop().n += 1;"),
        concat(&[
            "\tN* _pop2 = this->os.back();\n",
            "\tthis->os.pop_back();\n",
            "\t_pop2->n += 1;\n",
        ]),
    );
}

#[test]
fn aliased_array_write_grows() {
    assert_eq!(
        body("typedef Ints = Array<Int>; ", "var a:Ints;", "", "Void", "a[3] = 4;"),
        concat(&[
            "\tsize_t _ix1 = (size_t)(3);\n",
            "\tif (_ix1 >= this->a.size()) this->a.resize(_ix1 + 1);\n",
            "\tthis->a[_ix1] = 4;\n",
        ]),
    );
}

#[test]
fn ascribed_map_literal() {
    assert_eq!(
        body("", "", "", "Void", "h(([\"a\" => 1] : Map<String, Int>)); h([\"b\" => 2]);"),
        concat(&[
            "\tstd::map<std::string, int > _map1;\n",
            "\t_map1[\"a\"] = 1;\n",
            "\th(_map1);\n",
            "\tstd::map<std::string, void*> _map2;\n",
            "\t_map2[\"b\"] = 2;\n",
            "\th(_map2);\n",
        ]),
    );
}

#[test]
fn joined_numbers() {
    assert_eq!(
        body("", "", "a:Array<Float>", "Void", "var s = a.join(\",\");"),
        concat(&[
            "\tstd::string _join2;\n",
            "\tfor (size_t _i1 = 0; _i1 < a.size(); ++_i1) { if (_i1) _join2 += \",\"; char _buf3[64]; sprintf(_buf3, \"%f\", a[_i1]); _join2 += _buf3; }\n",
            "\tstd::string s = _join2;\n",
        ]),
    );
}

#[test]
fn array_literal_for_a_nullable() {
    assert_eq!(
        body("", "function g(a:Null<Array<Int>>):Void {}", "", "Void", "g([1]);"),
        concat(&[
            "\tstd::vector<int > _arr1;\n",
            "\t_arr1.push_back(1);\n",
            "\tstd::vector<int >* _v2 = new std::vector<int >(_arr1);\n",
            "\tg(_v2);\n",
            "\tdelete _v2;\n",
        ]),
    );
}

#[test]
fn ordered_map_is_no_value() {
    assert_eq!(
        body("", "@orderedMap var m:Map<String, Int>;", "", "Void", "var x = m;"),
        concat(&[
            "\t x = this->m;\n",
            "error: f: `m` is an @orderedMap field and has no single map value: use it via `get`/`set`/`exists`/`remove`/`keys` or a `for` loop, not as a whole value (it cannot be passed, returned, or assigned as a map)\n",
        ]),
    );
}

#[test]
fn literals_are_not_narrowed() {
    assert_eq!(
        body("", "", "n:Int", "Void", "var q:cpp.UInt16 = 5; var w:cpp.UInt8 = -(1); q = n; var s = (n : cpp.Int16);"),
        concat(&[
            "\tuint16_t q = 5;\n",
            "\tuint8_t w = -(1);\n",
            "\tq = (uint16_t)(n);\n",
            "\tshort s = ((short) n);\n",
        ]),
    );
}

#[test]
fn aliased_container_parameter() {
    assert_eq!(
        body("typedef Ints = Array<Int>; ", "", "a:Ints, ?b:Ints", "Void", "a.push(1); b.push(2);"),
        concat(&[
            "\ta.push_back(1);\n",
            "\tb.push_back(2);\n",
            "warning: f: `push` mutates `a`, an Array parameter — Haxe containers are shared by reference (the caller would see this change), but Hatchet passes containers by value (`const&`), so the mutation is lost and the generated C++ will not compile; mutate a local copy and return it, or hold the container in a class\n",
            "warning: f: `push` mutates `b`, an Array parameter — Haxe containers are shared by reference (the caller would see this change), but Hatchet passes containers by value (`const&`), so the mutation is lost and the generated C++ will not compile; mutate a local copy and return it, or hold the container in a class\n",
        ]),
    );
}
