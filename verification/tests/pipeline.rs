use noble::model::Shape;
use noble::classify::classify;
use noble::noble;

fn rewritten(input: &str) -> String {
    match noble("", input) {
        Ok(text) => text,
        Err(error) => panic!("refused: {}", error.message),
    }
}

fn is_valid(text: &str) -> bool {
    syn::parse_str::<syn::File>(text).is_ok()
}

#[test]
fn routine_body_is_wrapped() {
    let out = rewritten("fn f() { g(); }");
    assert_eq!(out, "fn f () { unsafe { g () ; } }");
    assert!(is_valid(&out));
}

#[test]
fn routine_with_empty_body_is_wrapped() {
    let out = rewritten("pub fn nothing() {}");
    assert_eq!(out, "pub fn nothing () { unsafe { } }");
    assert!(is_valid(&out));
}

#[test]
fn routine_keeps_metadata_visibility_and_signature() {
    let out = rewritten("#[inline] pub(crate) async fn get<T: Clone>(x: &T) -> Option<T> where T: Send { Some(x.clone()) }");
    assert_eq!(
        out,
        "# [inline] pub (crate) async fn get < T : Clone > (x : & T) -> Option < T > where T : Send { unsafe { Some (x . clone ()) } }"
    );
    assert!(is_valid(&out));
}

#[test]
fn routine_body_is_wrapped_with_the_metadata_inside_it() {
    let out = rewritten("fn f() { #![allow(unused)] g() }");
    assert_eq!(out, "fn f () { unsafe { # ! [allow (unused)] g () } }");
    assert!(is_valid(&out));
}

#[test]
fn routine_body_keeps_its_literals() {
    let out = rewritten("fn f() -> &'static str { \"a  b\\n\" }");
    assert_eq!(out, "fn f () -> & 'static str { unsafe { \"a  b\\n\" } }");
    assert!(is_valid(&out));
}

#[test]
fn routine_arguments_of_the_annotation_are_ignored() {
    let with = noble("anything, at = all", "fn f() {}").unwrap();
    let without = noble("", "fn f() {}").unwrap();
    assert_eq!(with, without);
}

#[test]
fn record_with_named_fields() {
    let out = rewritten("struct P { x: i32, y: u8 }");
    assert_eq!(
        out,
        "struct P { x: i32, y: u8 }\nimpl P { #[doc = \" Unsafe constructor\"] pub unsafe fn new_unsafe(x: i32, y: u8) -> Self { unsafe { Self { x, y } } } }"
    );
    assert!(is_valid(&out));
}

#[test]
fn record_with_positional_fields() {
    let out = rewritten("pub struct Q(i32, String);");
    assert_eq!(
        out,
        "pub struct Q(i32, String);\nimpl Q { #[doc = \" Unsafe constructor\"] pub unsafe fn new_unsafe(field_0: i32, field_1: String) -> Self { unsafe { Self(field_0, field_1) } } }"
    );
    assert!(is_valid(&out));
}

#[test]
fn record_without_fields() {
    let out = rewritten("struct U;");
    assert_eq!(
        out,
        "struct U;\nimpl U { #[doc = \" Unsafe constructor\"] pub unsafe fn new_unsafe() -> Self { unsafe { Self } } }"
    );
    assert!(is_valid(&out));
}

#[test]
fn record_with_empty_braces_and_empty_parentheses() {
    let braces = rewritten("struct B {}");
    assert_eq!(
        braces,
        "struct B {}\nimpl B { #[doc = \" Unsafe constructor\"] pub unsafe fn new_unsafe() -> Self { unsafe { Self {  } } } }"
    );
    assert!(is_valid(&braces));
    let parentheses = rewritten("struct C();");
    assert_eq!(
        parentheses,
        "struct C();\nimpl C { #[doc = \" Unsafe constructor\"] pub unsafe fn new_unsafe() -> Self { unsafe { Self() } } }"
    );
    assert!(is_valid(&parentheses));
}

#[test]
fn record_generics_reach_the_constructor_block() {
    let out = rewritten("struct G<'a, T: Clone = u8> where T: Copy { v: &'a T }");
    assert_eq!(
        out,
        "struct G<'a, T: Clone = u8> where T: Copy { v: &'a T }\nimpl < 'a , T : Clone > G < 'a , T > where T : Copy { #[doc = \" Unsafe constructor\"] pub unsafe fn new_unsafe(v: & 'a T) -> Self { unsafe { Self { v } } } }"
    );
    assert!(is_valid(&out));
}

#[test]
fn union_gets_one_constructor_per_variant() {
    let out = rewritten("enum E { Idle, Move { x: i32, y: i32 }, Write(String) }");
    assert_eq!(
        out,
        "enum E { Idle, Move { x: i32, y: i32 }, Write(String) }\nimpl E { pub unsafe fn new_idle_unsafe() -> Self { Self::Idle } pub unsafe fn new_move_unsafe(x: i32, y: i32) -> Self { Self::Move { x, y } } pub unsafe fn new_write_unsafe(field_0: String) -> Self { Self::Write(field_0) } }"
    );
    assert!(is_valid(&out));
}

#[test]
fn union_variant_without_fields() {
    let out = rewritten("enum State { Idle }");
    assert_eq!(
        out,
        "enum State { Idle }\nimpl State { pub unsafe fn new_idle_unsafe() -> Self { Self::Idle } }"
    );
}

#[test]
fn union_without_variants() {
    let out = rewritten("enum Never {}");
    assert_eq!(out, "enum Never {}\nimpl Never { }");
    assert!(is_valid(&out));
}

#[test]
fn union_variants_that_differ_by_case_get_the_same_name() {
    let out = rewritten("enum C { Foo, FOO }");
    assert_eq!(
        out,
        "enum C { Foo, FOO }\nimpl C { pub unsafe fn new_foo_unsafe() -> Self { Self::Foo } pub unsafe fn new_foo_unsafe() -> Self { Self::FOO } }"
    );
}

#[test]
fn contract_and_its_operations_are_marked() {
    let out = rewritten("pub trait T { fn a(&self); fn b(&self) { x() } type X; }");
    assert_eq!(
        out,
        "pub unsafe trait T { unsafe fn a (& self) ; unsafe fn b (& self) { unsafe { x () } } type X ; }"
    );
    assert!(is_valid(&out));
}

#[test]
fn contract_that_is_marked_already_is_not_marked_twice() {
    let out = rewritten("unsafe trait T { unsafe fn a(); }");
    assert_eq!(out, "unsafe trait T { unsafe fn a () ; }");
}

#[test]
fn contract_marker_goes_before_the_calling_convention() {
    let out = rewritten("trait T { extern \"C\" fn a(); const fn b(); }");
    assert_eq!(out, "unsafe trait T { unsafe extern \"C\" fn a () ; const unsafe fn b () ; }");
    assert!(is_valid(&out));
}

#[test]
fn contract_without_members() {
    assert_eq!(rewritten("trait Empty {}"), "unsafe trait Empty { }");
}

#[test]
fn implementation_of_a_contract_is_marked() {
    let out = rewritten("impl T for S { fn a(&self) { y() } }");
    assert_eq!(out, "unsafe impl T for S { fn a (& self) { unsafe { y () } } }");
    assert!(is_valid(&out));
}

#[test]
fn implementation_without_members_is_marked() {
    assert_eq!(rewritten("impl Send for MyStruct {}"), "unsafe impl Send for MyStruct { }");
}

#[test]
fn implementation_of_the_type_alone_is_not_marked() {
    let out = rewritten("impl S { pub fn new() -> Self { S } const N: u8 = 1; }");
    assert_eq!(out, "impl S { pub fn new () -> Self { unsafe { S } } const N : u8 = 1 ; }");
    assert!(is_valid(&out));
}

#[test]
fn implementation_keeps_metadata_inside_its_braces() {
    let out = rewritten("#[cfg(test)] impl S { #![allow(dead_code)] fn a() {} }");
    assert_eq!(
        out,
        "# [cfg (test)] impl S { # ! [allow (dead_code)] fn a () { unsafe { } } }"
    );
    assert!(is_valid(&out));
}

#[test]
fn other_shapes_pass_through() {
    assert_eq!(rewritten("type A = u8;"), "type A = u8;");
    assert_eq!(rewritten("use std::fmt;"), "use std::fmt;");
    assert_eq!(rewritten("const  N : usize=3 ;"), "const  N : usize=3 ;");
    assert_eq!(rewritten("mod m { fn f() {} }"), "mod m { fn f() {} }");
}

#[test]
fn text_that_is_no_declaration_is_refused() {
    assert!(noble("", "fn (").is_err());
    assert!(noble("", "").is_err());
    assert!(noble("", "struct").is_err());
    assert!(noble("", "fn f() {} fn g() {}").is_err());
    assert!(noble("", "1 + 1").is_err());
}

#[test]
fn refusal_says_where() {
    let error = noble("", "struct P {\n    x: i32,\n    y\n}").unwrap_err();
    assert!(!error.message.is_empty());
    assert_eq!(error.line, 4);
    assert_eq!(error.column, 0);
}

#[test]
fn classifier_tags_each_shape() {
    assert_eq!(classify("fn f() {}").unwrap().shape(), Shape::Routine);
    assert_eq!(classify("struct S;").unwrap().shape(), Shape::DataRecord);
    assert_eq!(classify("enum E {}").unwrap().shape(), Shape::TaggedUnion);
    assert_eq!(classify("trait T {}").unwrap().shape(), Shape::CapabilityContract);
    assert_eq!(classify("impl S {}").unwrap().shape(), Shape::ContractImplementation);
    assert_eq!(classify("impl T for S {}").unwrap().shape(), Shape::ContractImplementation);
    assert_eq!(classify("type A = u8;").unwrap().shape(), Shape::Other);
    assert_eq!(classify("union U { a: u8 }").unwrap().shape(), Shape::Other);
    assert!(classify("let x = 1;").is_err());
}

#[test]
fn applying_twice_wraps_twice() {
    let once = rewritten("fn f() { g() }");
    let twice = rewritten(&once);
    assert_eq!(twice, "fn f () { unsafe { unsafe { g () } } }");
}
