use acp_agent::path::{file_name, join, join_text, os_text, shown, PathStyle};
use acp_agent::text::{
    chars_of, compare_chars, contains_chars, decimal_of, is_white_space, lower_chars, same_text,
    string_of, trim_chars, TextOrder,
};
use std::path::Path;

const SAMPLES: [&str; 16] = [
    "",
    "a",
    "A",
    "ab",
    "aB",
    "b",
    " a ",
    "\u{85}x\u{3000}",
    "\t\r\n",
    "Ünï",
    "ünï",
    "\u{1f600}",
    "\u{ffff}",
    "Zebra",
    "zebra",
    "a\u{300}",
];

#[test]
fn white_space_is_that_of_the_standard_library() {
    for c in '\0'..=char::MAX {
        assert_eq!(is_white_space(c), c.is_whitespace(), "{c:?}");
    }
}

#[test]
fn text_functions_agree_with_the_standard_library() {
    for a in SAMPLES {
        let chars = chars_of(a);
        assert_eq!(string_of(&chars), a);
        assert_eq!(string_of(&trim_chars(&chars)), a.trim());
        assert_eq!(string_of(&lower_chars(&chars)), a.to_ascii_lowercase());
        for b in SAMPLES {
            let other = chars_of(b);
            assert_eq!(same_text(a, b), a == b);
            assert_eq!(contains_chars(&chars, &other), a.contains(b));
            let order = compare_chars(&chars, &other);
            assert_eq!(matches!(order, TextOrder::Before), a < b);
            assert_eq!(matches!(order, TextOrder::Same), a == b);
            assert_eq!(matches!(order, TextOrder::After), a > b);
        }
    }
}

#[test]
fn numerals_agree_with_the_standard_library() {
    for n in [0, 1, 9, 10, 11, 99, 100, 65535, 1234567890, u64::MAX] {
        assert_eq!(decimal_of(n), n.to_string());
    }
}

const PATHS: [&str; 28] = [
    "",
    "/",
    "//",
    ".",
    "..",
    "./",
    "../",
    "a",
    "a/",
    "a//",
    "a/.",
    "a/./",
    "a/..",
    "a/../b",
    "/a",
    "/a/b",
    "/a/b/",
    "a/b/.//./",
    "./a",
    "/.",
    "/..",
    "...",
    "a/...",
    ".a",
    "a.",
    "a b/c d",
    "./dist-package/cursor-agent",
    "é/ü",
];

#[test]
fn paths_agree_with_the_standard_library() {
    for base in PATHS {
        assert_eq!(
            file_name(PathStyle::Unix, base.as_bytes()),
            Path::new(base)
                .file_name()
                .map(|name| name.as_encoded_bytes().to_vec()),
            "{base:?}"
        );
        for rest in PATHS {
            assert_eq!(
                join_text(PathStyle::Unix, base.as_bytes(), rest),
                Path::new(base).join(rest).as_os_str().as_encoded_bytes(),
                "{base:?} {rest:?}"
            );
        }
    }
}

#[test]
fn paths_are_any_bytes() {
    assert_eq!(join(PathStyle::Unix, b"/\xff", b"\xfe"), b"/\xff/\xfe");
    assert_eq!(join(PathStyle::Unix, b"/\xff/", b"/\xfe"), b"/\xfe");
    assert_eq!(
        file_name(PathStyle::Unix, b"/\xff/\xfe/"),
        Some(b"\xfe".to_vec())
    );
    assert_eq!(os_text("\u{e9}/x"), b"\xc3\xa9/x");
    assert_eq!(shown(b"\xc3\xa9/x"), "\u{e9}/x");
    assert_eq!(shown(b"/\xff/x"), "/\u{fffd}/x");
}

fn joined(base: &str, rest: &str) -> String {
    shown(&join_text(PathStyle::Windows, base.as_bytes(), rest))
}

#[test]
fn windows_paths_are_joined_with_backslashes() {
    assert_eq!(joined("C:\\Users\\A", ".acp-agent"), "C:\\Users\\A\\.acp-agent");
    assert_eq!(joined("C:\\", "a"), "C:\\a");
    assert_eq!(joined("C:/x/", "a"), "C:/x/a");
    assert_eq!(joined("C:", "a"), "C:a");
    assert_eq!(joined("a", "D:\\b"), "D:\\b");
    assert_eq!(joined("a", "D:b"), "D:b");
    assert_eq!(joined("C:\\x\\y", "\\b"), "C:\\b");
    assert_eq!(joined("C:\\x\\y", "/b"), "C:/b");
    assert_eq!(joined("\\\\server\\share\\x", "\\b"), "\\\\server\\share\\b");
    assert_eq!(joined("a", "\\\\server\\share\\b"), "\\\\server\\share\\b");
    assert_eq!(joined("\\x", "\\b"), "\\b");
    assert_eq!(joined("", "b"), "b");
    assert_eq!(joined("ab", "c/d"), "ab\\c/d");
    assert_eq!(joined("\\\\.\\pipe\\x", "\\b"), "\\\\.\\pipe\\b");
    assert_eq!(joined("a", "\\\\.\\pipe"), "\\\\.\\pipe");
}

#[test]
fn verbatim_paths_follow_every_segment() {
    assert_eq!(joined("\\\\?\\C:\\a", "b"), "\\\\?\\C:\\a\\b");
    assert_eq!(joined("\\\\?\\C:\\a", "dist/bin/tool"), "\\\\?\\C:\\a\\dist\\bin\\tool");
    assert_eq!(joined("\\\\?\\C:\\a\\b", "./c"), "\\\\?\\C:\\a\\b\\c");
    assert_eq!(joined("\\\\?\\C:\\a\\b", "../c"), "\\\\?\\C:\\a\\c");
    assert_eq!(joined("\\\\?\\C:\\a", "..\\.."), "\\\\?\\C:\\");
    assert_eq!(joined("\\\\?\\C:\\a\\", "b"), "\\\\?\\C:\\a\\b");
    assert_eq!(joined("\\\\?\\C:\\a\\.", "../b"), "\\\\?\\C:\\a\\.\\b");
    assert_eq!(joined("\\\\?\\C:", "b"), "\\\\?\\C:\\b");
    assert_eq!(joined("\\\\?\\C:\\a", "\\b"), "\\\\?\\C:\\b");
    assert_eq!(joined("\\\\?\\C:\\a", "D:\\b"), "D:\\b");
    assert_eq!(joined("\\\\?\\C:\\a/b", "c"), "\\\\?\\C:\\a/b\\c");
    assert_eq!(joined("\\\\?\\C:\\a", ""), "\\\\?\\C:\\a\\");
    assert_eq!(
        joined("\\\\?\\UNC\\server\\share\\a", "/b"),
        "\\\\?\\UNC\\server\\share\\b"
    );
    assert_eq!(joined("\\\\?\\name\\a", "b"), "\\\\?\\name\\a\\b");
    // With other separators a path is not verbatim.
    assert_eq!(joined("//?/C:/a", "../b"), "//?/C:/a\\../b");
}

#[test]
fn windows_file_names_know_both_separators() {
    let name = |path: &str| {
        file_name(PathStyle::Windows, path.as_bytes()).map(|name| shown(&name))
    };
    assert_eq!(name(".\\tool.exe"), Some("tool.exe".to_string()));
    assert_eq!(name("C:\\x\\.\\bin/tool.exe"), Some("tool.exe".to_string()));
    assert_eq!(name("C:tool.exe"), Some("tool.exe".to_string()));
    assert_eq!(name("C:"), None);
    assert_eq!(name("C:\\"), None);
    assert_eq!(name("\\\\server\\share"), None);
    assert_eq!(name("\\\\server\\share\\a\\"), Some("a".to_string()));
    assert_eq!(name("\\\\.\\COM1"), None);
    assert_eq!(name("a\\.."), None);
    // A verbatim path has one separator, and `.` ends it without a name.
    assert_eq!(name("\\\\?\\C:\\a\\tool.exe"), Some("tool.exe".to_string()));
    assert_eq!(name("\\\\?\\C:\\a/tool.exe"), Some("a/tool.exe".to_string()));
    assert_eq!(name("\\\\?\\C:\\a\\."), None);
    assert_eq!(name("\\\\?\\C:"), None);
    assert_eq!(name("\\\\?\\UNC\\server\\share"), None);
    // A backslash is an ordinary character elsewhere.
    assert_eq!(
        file_name(PathStyle::Unix, b".\\tool.exe"),
        Some(b".\\tool.exe".to_vec())
    );
    assert_eq!(PathStyle::of("windows"), PathStyle::Windows);
    assert_eq!(PathStyle::of("linux"), PathStyle::Unix);
}
