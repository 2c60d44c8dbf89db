use frida_manager::text::{ends_with, equal, is_space, starts_with, trim};

#[test]
fn prefix_of_a_server_asset() {
    assert!(starts_with("frida-server-16.0-android-arm64.xz", "frida-server-"));
    assert!(!starts_with("other-tool-v1.0", "frida-server-"));
}

#[test]
fn prefix_longer_than_the_text() {
    assert!(!starts_with("frida", "frida-server-"));
    assert!(starts_with("frida", ""));
    assert!(starts_with("", ""));
}

#[test]
fn prefix_is_read_by_characters() {
    assert!(starts_with("żółw-1", "żółw"));
    assert!(!starts_with("zolw-1", "żółw"));
}

#[test]
fn suffix_of_a_compressed_asset() {
    assert!(ends_with("frida-server-16.0-android-arm64.xz", ".xz"));
    assert!(!ends_with("frida-server-16.0-android-arm64", ".xz"));
    assert!(!ends_with("xz", ".xz"));
    assert!(ends_with(".xz", ".xz"));
    assert!(ends_with("anything", ""));
}

#[test]
fn equal_texts() {
    assert!(equal("16.0.0", "16.0.0"));
    assert!(!equal("16.0.0", "16.0.01"));
    assert!(!equal("16.0.0", "15.9.0"));
    assert!(equal("", ""));
    assert!(!equal("a", ""));
}

#[test]
fn whitespace_is_what_std_says() {
    let mut code: u32 = 0;
    while code < 0x11000 {
        if let Some(c) = char::from_u32(code) {
            assert_eq!(is_space(c), c.is_whitespace(), "U+{:04X}", code);
        }
        code += 1;
    }
}

#[test]
fn trim_takes_the_whitespace_around() {
    assert_eq!(trim("16.0.0\n"), "16.0.0");
    assert_eq!(trim("  16.0.0 \r\n"), "16.0.0");
    assert_eq!(trim("\t a b \u{3000}"), "a b");
    assert_eq!(trim("16.0.0"), "16.0.0");
}

#[test]
fn trim_of_nothing_but_whitespace() {
    assert_eq!(trim(""), "");
    assert_eq!(trim(" \n\t"), "");
}

#[test]
fn trim_is_what_std_does() {
    for text in ["", " ", "a", " a", "a ", " a b ", "\u{2003}x\u{00A0}", "\u{200B}x", "é \u{1680}"] {
        assert_eq!(trim(text), text.trim());
    }
}
