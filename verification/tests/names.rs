use hermes::container::{create_name, short_type_name};

const STRING: &str = "alloc::string::String";
const SOME_GENERIC: &str = "hermes::container::tests::SomeGeneric<f64, i32>";
const SOME_GENERIC_OF_FN: &str =
    "hermes::container::tests::SomeGeneric<fn(i32) -> alloc::string::String, f64>";

#[test]
fn crate_name_for_two_strings_returns_expected() {
    let name = create_name(STRING, STRING);
    assert_eq!("string::String<String>", name.as_str());
}

#[test]
fn create_name_returns_correct_type_for_generics() {
    let name = create_name(SOME_GENERIC, STRING);
    assert_eq!("tests::SomeGeneric<String>", name.as_str());
}

#[test]
fn type_name_for_too_deep_depth_doesnt_error() {
    let name = short_type_name(STRING, 100);
    assert_eq!(STRING, name);
}

#[test]
fn type_name_for_depth_0_returns_empty_string() {
    let name = short_type_name(STRING, 0);
    assert_eq!("", name.as_str());
}

#[test]
fn type_name_returns_correct_for_function_pointer() {
    let name = short_type_name(SOME_GENERIC_OF_FN, 2);

    assert_eq!("tests::SomeGeneric", name.as_str());
}

#[test]
fn short_name_keeps_the_last_segments() {
    assert_eq!("String", short_type_name(STRING, 1));
    assert_eq!("string::String", short_type_name(STRING, 2));
    assert_eq!(STRING, short_type_name(STRING, 3));
    assert_eq!("", short_type_name("", 1));
    assert_eq!("b", short_type_name("a::b", 1));
    assert_eq!(":b", short_type_name("a:::b", 1));
    assert_eq!("", short_type_name("a::", 1));
}

#[test]
fn short_name_cuts_generic_arguments_first() {
    assert_eq!("Vec", short_type_name("alloc::vec::Vec<core::option::Option<u8>>", 1));
    assert_eq!("vec::Vec", short_type_name("alloc::vec::Vec<core::option::Option<u8>>", 2));
    assert_eq!("", short_type_name("<T as Trait>::Out", 1));
}

#[test]
fn short_name_counts_bytes_before_the_generics() {
    // Two characters of two bytes each stand before the `<`: four
    // characters are kept.
    assert_eq!("éé<T", short_type_name("éé<T>", 1));
    assert_eq!("é<", short_type_name("é<", 1));
}

#[test]
fn default_name_of_a_container() {
    assert_eq!(
        "tasked::Container<()>",
        create_name("hermes::container::tasked::Container<alloc::string::String, ()>", "()")
    );
}
