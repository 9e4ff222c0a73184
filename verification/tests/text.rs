use feather::text::{
    concat2, concat3, decimal_string, hex_string, join, join_path, same_text,
    signed_decimal_string,
};

#[test]
fn decimal_of_small_and_large_numbers() {
    assert_eq!(decimal_string(0), "0");
    assert_eq!(decimal_string(7), "7");
    assert_eq!(decimal_string(10), "10");
    assert_eq!(decimal_string(1000), "1000");
    assert_eq!(decimal_string(4294967295), "4294967295");
    assert_eq!(decimal_string(u64::MAX), "18446744073709551615");
}

#[test]
fn signed_decimal_keeps_the_sign() {
    assert_eq!(signed_decimal_string(0), "0");
    assert_eq!(signed_decimal_string(137), "137");
    assert_eq!(signed_decimal_string(-1), "-1");
    assert_eq!(signed_decimal_string(i32::MIN), "-2147483648");
    assert_eq!(signed_decimal_string(i32::MAX), "2147483647");
}

#[test]
fn hex_is_lower_case_without_padding() {
    assert_eq!(hex_string(0), "0");
    assert_eq!(hex_string(10), "a");
    assert_eq!(hex_string(255), "ff");
    assert_eq!(hex_string(4096), "1000");
    assert_eq!(hex_string(0xdead_beef), "deadbeef");
    assert_eq!(hex_string(u64::MAX), "ffffffffffffffff");
    assert_eq!(hex_string(0x0123_4567_89ab_cdef), format!("{:x}", 0x0123_4567_89ab_cdefu64));
}

#[test]
fn same_text_compares_characters() {
    assert!(same_text("linux", "linux"));
    assert!(!same_text("linux", "Linux"));
    assert!(!same_text("linux", "linu"));
    assert!(same_text("", ""));
}

#[test]
fn concat_keeps_order() {
    assert_eq!(concat2("ab", "cd"), "abcd");
    assert_eq!(concat2("", "x"), "x");
    assert_eq!(concat3("a", "", "c"), "ac");
}

#[test]
fn join_puts_the_separator_between() {
    let none: Vec<String> = vec![];
    assert_eq!(join(&none, " "), "");
    assert_eq!(join(&vec!["one".to_string()], " "), "one");
    assert_eq!(
        join(&vec!["-Xmx2G".to_string(), "-Xms1G".to_string(), "".to_string()], " "),
        "-Xmx2G -Xms1G "
    );
    assert_eq!(join(&vec!["a".to_string(), "b".to_string()], ", "), "a, b");
}

#[test]
fn join_path_behaves_like_a_unix_join() {
    assert_eq!(join_path("/opt/feather", "java"), "/opt/feather/java");
    assert_eq!(join_path("/opt/feather/", "java"), "/opt/feather/java");
    assert_eq!(join_path("/opt/feather", "/etc/passwd"), "/etc/passwd");
    assert_eq!(join_path("", "java"), "java");
    assert_eq!(join_path("/opt", ""), "/opt/");
    assert_eq!(join_path("relative", "a/b"), "relative/a/b");
    assert_eq!(
        join_path("/opt/feather", "java"),
        std::path::Path::new("/opt/feather").join("java").to_string_lossy().to_string()
    );
    assert_eq!(
        join_path("/opt", ""),
        std::path::Path::new("/opt").join("").to_string_lossy().to_string()
    );
}
