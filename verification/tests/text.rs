use zed_razor::text::{
    contains_char, first_two_components, i32_to_decimal, last_line_of, split_whitespace,
    starts_with, str_eq, trim_brackets_of, u32_to_decimal,
};

#[test]
fn contains_char_finds_and_misses() {
    assert!(contains_char("csharp|inlay_hints", '|'));
    assert!(!contains_char("csharp.inlay_hints", '|'));
    assert!(!contains_char("", '.'));
}

#[test]
fn starts_with_and_equality() {
    assert!(starts_with("win-x64", "win-"));
    assert!(!starts_with("linux-x64", "win-"));
    assert!(!starts_with("wi", "win-"));
    assert!(str_eq("any", "any"));
    assert!(!str_eq("any", "anyx"));
}

#[test]
fn split_whitespace_words() {
    assert_eq!(
        split_whitespace("  10.0.100 \t [/home/user/.dotnet/sdk]  "),
        vec!["10.0.100".to_string(), "[/home/user/.dotnet/sdk]".to_string()]
    );
    assert!(split_whitespace("   ").is_empty());
    assert_eq!(split_whitespace("a\u{3000}b"), vec!["a".to_string(), "b".to_string()]);
}

#[test]
fn last_line_as_lines_yields_it() {
    assert_eq!(last_line_of(""), None);
    assert_eq!(last_line_of("a\nb\n"), Some("b".to_string()));
    assert_eq!(last_line_of("a\nb"), Some("b".to_string()));
    assert_eq!(last_line_of("a\r\nb\r\n"), Some("b".to_string()));
    assert_eq!(last_line_of("a\nb\r"), Some("b\r".to_string()));
    assert_eq!(last_line_of("\n"), Some("".to_string()));
    assert_eq!(last_line_of("a\n\n"), Some("".to_string()));
}

#[test]
fn trim_brackets_both_ends() {
    assert_eq!(trim_brackets_of("[/usr/share/dotnet/sdk]"), "/usr/share/dotnet/sdk");
    assert_eq!(trim_brackets_of("[[x]]"), "x");
    assert_eq!(trim_brackets_of("[]]["), "");
    assert_eq!(trim_brackets_of("a[b]c"), "a[b]c");
}

#[test]
fn first_two_components_of_versions() {
    assert_eq!(first_two_components("10.0.100"), "10.0");
    assert_eq!(first_two_components("9"), "9");
    assert_eq!(first_two_components("9.0"), "9.0");
    assert_eq!(first_two_components("9."), "9.");
    assert_eq!(first_two_components(".5.1"), ".5");
    assert_eq!(first_two_components("8.0.100-preview.1"), "8.0");
}

#[test]
fn decimal_formatting() {
    assert_eq!(u32_to_decimal(0), "0");
    assert_eq!(u32_to_decimal(4096), "4096");
    assert_eq!(i32_to_decimal(-1), "-1");
    assert_eq!(i32_to_decimal(i32::MIN), "-2147483648");
    assert_eq!(i32_to_decimal(i32::MAX), "2147483647");
}
