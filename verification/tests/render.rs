//! Exercises the rendering protocol end to end: member access spelling,
//! parameter lists, the declaration/definition split, the pure destructor
//! short-circuit, indentation discipline and the top-level scope.

use crustal::BaseType;
use crustal::Block;
use crustal::Class;
use crustal::Comment;
use crustal::Destructor;
use crustal::Enum;
use crustal::Expr;
use crustal::Formatter;
use crustal::Function;
use crustal::Method;
use crustal::Scope;
use crustal::Stmt;
use crustal::Struct;
use crustal::Type;
use crustal::WhileLoop;

#[test]
fn member_access_by_pointerness() {
    let obj = Expr::new_var("obj", Type::new_class("Foo"));
    assert_eq!(obj.field_access("x").to_string(), "(obj).x");

    let obj_ptr = Expr::new_var("obj", Type::new_class("Foo").to_ptr());
    assert_eq!(obj_ptr.field_access("x").to_string(), "(obj)->x");

    assert_eq!(Expr::method_call(&obj, "m", vec![]).to_string(), "obj.m()");
    assert_eq!(Expr::method_call(&obj_ptr, "m", vec![]).to_string(), "obj->m()");
}

#[test]
fn numeric_constants_render_in_hex() {
    assert_eq!(Expr::new_num(255).to_string(), "0xff");
    assert_eq!(Expr::new_num(0).to_string(), "0x0");
    assert_eq!(Expr::new_num(4096).to_string(), "0x1000");
}

#[test]
fn void_parameter_list() {
    let mut f = Formatter::new();
    let func = Function::new("foo", Type::new_void());
    func.fmt_decl(&mut f);
    assert_eq!(f.output(), "void foo(void);\n");

    let mut f = Formatter::new();
    let m = Method::new("bar", Type::new_void());
    m.fmt_decl(&mut f);
    assert_eq!(f.output(), "void bar(void);\n");
}

#[test]
fn inline_method_declaration_definition_split() {
    let mut m = Method::new("foo", Type::new_void());
    m.inline();
    m.push_stmt(Stmt::retnone(), false);

    let mut f = Formatter::new();
    m.fmt_decl(&mut f);
    let decl = f.output();
    assert!(!decl.is_empty());
    assert_eq!(decl, "inline void foo(void) {\n\n    return;\n}");

    let mut f = Formatter::new();
    m.fmt_def(&mut f);
    assert_eq!(f.output(), "");
}

#[test]
fn pure_destructor_short_circuit() {
    let d = Destructor::new_pure("Foo");
    let mut f = Formatter::new();
    d.fmt(&mut f);
    assert_eq!(f.output(), "virtual ~Foo(void) = 0;\n");

    let mut d2 = Destructor::new("Foo");
    d2.push_stmt(Stmt::retnone());
    d2.pure();
    let mut f = Formatter::new();
    d2.fmt(&mut f);
    assert_eq!(f.output(), "virtual ~Foo(void) = 0;\n");
}

#[test]
fn bitfield_with_documentation() {
    let mut fld = crustal::Field::new("count", Type::new_uint8());
    fld.push_doc_str("packet count");
    fld.bitfield_width(8);
    assert_eq!(fld.to_string(), "/// packet count\nuint8_t count : 8;\n");
}

#[test]
fn empty_class_single_statement() {
    let c = Class::new("Foo");
    let mut f = Formatter::new();
    c.fmt_decl(&mut f);
    assert_eq!(f.output(), "class Foo { };\n");
}

#[test]
fn rendering_is_deterministic() {
    let mut s = Scope::new();
    s.push_comment(Comment::with_str("hello"));
    let st = s.new_struct("S");
    st.new_field("a", Type::new_uint8());
    st.new_field("b", Type::new_uint32());
    let a = s.to_string();
    let b = s.to_string();
    assert_eq!(a, b);
}

#[test]
fn indentation_stack_discipline() {
    let mut inner = Stmt::retnone();
    let mut depth = 0;
    while depth < 5 {
        inner = Stmt::ifthen(Expr::btrue(), vec![inner]);
        depth += 1;
    }
    let mut f = Formatter::new();
    inner.fmt(&mut f);
    assert_eq!(f.get_indent(), 0);
    let out = f.output();
    for line in out.lines() {
        let lead = line.len() - line.trim_start_matches(' ').len();
        assert_eq!(lead % 4, 0);
    }
}

#[test]
fn struct_with_fields() {
    let mut st = Struct::new("S");
    st.new_field("a", Type::new_uint8());
    st.new_field("b", Type::new_uint8());
    let mut f = Formatter::new();
    st.fmt(&mut f);
    assert_eq!(f.output(), "struct S {\n    uint8_t a;\n    uint8_t b;\n}\n;\n");
}

#[test]
fn enum_with_variants() {
    let mut e = Enum::new("E");
    e.new_variant("A", None);
    e.new_variant("B", Some(7));
    let mut f = Formatter::new();
    e.fmt(&mut f);
    assert_eq!(f.output(), "enum E {\n    A,\n    B = 7}\n;\n");
}

#[test]
fn empty_while_body_renders_bare_guard() {
    let w = WhileLoop::new(&Expr::btrue());
    let mut f = Formatter::new();
    w.fmt(&mut f);
    assert_eq!(f.output(), "while (true) \n    ;\n");
}

#[test]
fn long_documentation_lines_are_wrapped() {
    let mut fld = crustal::Field::new("x", Type::new_uint8());
    let mut long = String::new();
    let mut i = 0;
    while i < 30 {
        long.push_str("word ");
        i += 1;
    }
    fld.push_doc_str(&long);
    let out = fld.to_string();
    assert!(out.matches("/// ").count() >= 2);
}

#[test]
fn block_statements_render_in_order() {
    let mut b = Block::new();
    b.new_comment("start");
    b.printstr("hi");
    b.return_none();
    let mut f = Formatter::new();
    b.fmt(&mut f);
    assert_eq!(f.output(), "// start\nprintf(\"hi\");\nreturn;\n");
}

#[test]
fn heading_comment_is_framed() {
    let mut c = Comment::with_str("hi");
    c.set_heading();
    let mut f = Formatter::new();
    c.fmt(&mut f);
    let out = f.output();
    let lines: Vec<&str> = out.lines().collect();
    assert_eq!(lines.len(), 3);
    assert_eq!(lines[0].len(), 100);
    assert!(lines[0].chars().all(|ch| ch == '/'));
    assert_eq!(lines[1], "// hi");
    assert_eq!(lines[2], lines[0]);
}

#[test]
fn scope_output_drops_trailing_newline() {
    let mut s = Scope::new();
    s.push_comment(Comment::with_str("hi"));
    assert_eq!(s.to_string(), "// hi");
}

#[test]
fn struct_field_lookup() {
    let mut st = Struct::new("S");
    st.new_field("a", Type::new_uint8());
    st.new_field("b", Type::new_uint32());
    assert!(st.field_by_name("a").is_some());
    assert!(st.field_by_name("c").is_none());
    assert_eq!(st.field_by_name("b").unwrap().name(), "b");
}
