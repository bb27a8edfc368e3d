use kernel_builder::text::{decimal_string, last_segment_of, str_eq, strip_suffix_of};

#[test]
fn decimal_renders_zero() {
    assert_eq!(decimal_string(0), "0");
}

#[test]
fn decimal_renders_single_digit() {
    assert_eq!(decimal_string(7), "7");
}

#[test]
fn decimal_renders_multiple_digits() {
    assert_eq!(decimal_string(42), "42");
    assert_eq!(decimal_string(100), "100");
    assert_eq!(decimal_string(65536), "65536");
}

#[test]
fn decimal_renders_largest_value() {
    assert_eq!(decimal_string(usize::MAX), usize::MAX.to_string());
}

#[test]
fn last_segment_takes_the_file_name() {
    assert_eq!(
        last_segment_of("https://cdn.kernel.org/pub/linux/kernel/v6.x/linux-6.15.4.tar.xz"),
        "linux-6.15.4.tar.xz"
    );
}

#[test]
fn last_segment_without_separator_is_whole() {
    assert_eq!(last_segment_of("archive.tar.xz"), "archive.tar.xz");
}

#[test]
fn last_segment_after_trailing_separator_is_empty() {
    assert_eq!(last_segment_of("a/b/"), "");
}

#[test]
fn strip_suffix_removes_one_trailing_match() {
    assert_eq!(strip_suffix_of("linux-6.15.4.tar.xz", ".tar.xz"), "linux-6.15.4");
}

#[test]
fn strip_suffix_leaves_other_strings_alone() {
    assert_eq!(strip_suffix_of("linux-6.15.4.tar.gz", ".tar.xz"), "linux-6.15.4.tar.gz");
    assert_eq!(strip_suffix_of("xz", ".tar.xz"), "xz");
    assert_eq!(strip_suffix_of("", ".tar.xz"), "");
}

#[test]
fn str_eq_compares_by_content() {
    assert!(str_eq("make", "make"));
    assert!(!str_eq("make", "tar"));
    assert!(!str_eq("defconfig", "olddefconfig"));
    assert!(str_eq("", ""));
}
