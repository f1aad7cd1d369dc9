use installer::path::PathValue;
use installer::print::emph;

#[test]
fn test_emph_str() {
    let text = "Здравствуйте means 你好 in Chinese.";
    let emphed = emph(text, true);
    assert!(emphed.contains(text));
}

#[test]
fn test_emph_path() {
    let path_str = "/usr/bin/bash";
    let path = PathValue::new(path_str.to_string());
    let emphed = emph(&path, true);
    assert!(emphed.contains(path_str));
}

#[test]
fn test_emph_str_plain_contains() {
    let text = "Здравствуйте means 你好 in Chinese.";
    let emphed = emph(text, false);
    assert!(emphed.contains(text));
}

#[test]
fn test_emph_path_plain_contains() {
    let path_str = "/usr/bin/bash";
    let path = PathValue::new(path_str.to_string());
    let emphed = emph(&path, false);
    assert!(emphed.contains(path_str));
}

#[test]
fn test_emph_terminal_exact() {
    assert_eq!(emph("hello", true), "\u{001b}[36mhello\u{001b}[0m");
}

#[test]
fn test_emph_plain_exact() {
    assert_eq!(emph("hello", false), "hello");
}

#[test]
fn test_emph_path_terminal_exact() {
    let path = PathValue::new("/usr/bin/bash".to_string());
    assert_eq!(emph(&path, true), "\u{001b}[36m/usr/bin/bash\u{001b}[0m");
}

#[test]
fn test_emph_empty() {
    assert_eq!(emph("", false), "");
    assert_eq!(emph("", true), "\u{001b}[36m\u{001b}[0m");
}

#[test]
fn test_path_value_display() {
    let path = PathValue::new("/usr/bin/bash".to_string());
    assert_eq!(path.display(), "/usr/bin/bash");
}
