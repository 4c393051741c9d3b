use bitfun::text::{contains_dot_dot, normalize_line_endings, str_eq, u64_to_decimal};

#[test]
fn normalize_line_endings_converts_crlf_and_cr_to_lf() {
    let input = "line1\r\nline2\rline3\nline4";
    let normalized = normalize_line_endings(input);

    assert_eq!(normalized, "line1\nline2\nline3\nline4");
}

#[test]
fn normalize_line_endings_handles_runs_of_carriage_returns() {
    assert_eq!(normalize_line_endings("a\r\r\nb"), "a\n\nb");
    assert_eq!(normalize_line_endings("\r"), "\n");
    assert_eq!(normalize_line_endings("\r\n\r\n"), "\n\n");
    assert_eq!(normalize_line_endings("\n\r"), "\n\n");
    assert_eq!(normalize_line_endings(""), "");
}

#[test]
fn normalize_line_endings_keeps_text_without_carriage_return() {
    let text = "plain\ntext with ünïcode\n";
    assert_eq!(normalize_line_endings(text), text);
}

#[test]
fn normalize_line_endings_is_idempotent() {
    let once = normalize_line_endings("x\r\ny\rz\r\r\n");
    let twice = normalize_line_endings(&once);
    assert_eq!(once, twice);
    assert!(!once.contains('\r'));
}

#[test]
fn decimal_rendering() {
    assert_eq!(u64_to_decimal(0), "0");
    assert_eq!(u64_to_decimal(7), "7");
    assert_eq!(u64_to_decimal(5000), "5000");
    assert_eq!(u64_to_decimal(u64::MAX), "18446744073709551615");
}

#[test]
fn string_equality_and_dot_dot() {
    assert!(str_eq("abc", "abc"));
    assert!(!str_eq("abc", "abd"));
    assert!(!str_eq("abc", "ab"));
    assert!(contains_dot_dot("a/../b"));
    assert!(contains_dot_dot(".."));
    assert!(!contains_dot_dot("a/./b.c"));
    assert!(!contains_dot_dot(""));
}
