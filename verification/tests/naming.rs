use noble::naming::{decimal_text, positional, record_constructor, variant_constructor};

#[test]
fn decimal_text_of_small_numbers() {
    assert_eq!(decimal_text(0), "0");
    assert_eq!(decimal_text(7), "7");
    assert_eq!(decimal_text(9), "9");
}

#[test]
fn decimal_text_of_numbers_with_several_digits() {
    assert_eq!(decimal_text(10), "10");
    assert_eq!(decimal_text(99), "99");
    assert_eq!(decimal_text(100), "100");
    assert_eq!(decimal_text(1234567890), "1234567890");
    assert_eq!(decimal_text(4294967295), "4294967295");
}

#[test]
fn decimal_text_agrees_with_the_standard_formatting() {
    for n in [0usize, 1, 9, 10, 11, 19, 20, 101, 999, 1000, 65535, 65536, usize::MAX] {
        assert_eq!(decimal_text(n), format!("{}", n));
    }
}

#[test]
fn positional_names_count_from_zero() {
    assert_eq!(positional(0), "field_0");
    assert_eq!(positional(1), "field_1");
    assert_eq!(positional(12), "field_12");
}

#[test]
fn positional_names_differ() {
    for i in 0..30usize {
        for j in 0..30usize {
            if i != j {
                assert_ne!(positional(i), positional(j));
            }
        }
    }
}

#[test]
fn record_constructor_has_a_fixed_name() {
    assert_eq!(record_constructor(), "new_unsafe");
}

#[test]
fn variant_constructor_lowers_the_variant_name() {
    assert_eq!(variant_constructor("Idle"), "new_idle_unsafe");
    assert_eq!(variant_constructor("HttpRequest"), "new_httprequest_unsafe");
    assert_eq!(variant_constructor("already_lower"), "new_already_lower_unsafe");
    assert_eq!(variant_constructor("V2"), "new_v2_unsafe");
}

#[test]
fn variant_constructor_lowers_letters_outside_ascii() {
    assert_eq!(variant_constructor("Änderung"), "new_änderung_unsafe");
}

#[test]
fn variant_constructor_names_collide_across_case() {
    assert_eq!(variant_constructor("Foo"), variant_constructor("foo"));
    assert_eq!(variant_constructor("Foo"), variant_constructor("FOO"));
}
