use installer::path::expand_home;

#[test]
fn test_expand_home_prefix() {
    assert_eq!(expand_home("~/docs", Some("/home/alice")), "/home/alice/docs");
}

#[test]
fn test_expand_home_every_occurrence() {
    assert_eq!(expand_home("~/a~b", Some("/h")), "/h/a/hb");
}

#[test]
fn test_expand_home_unset() {
    assert_eq!(expand_home("~/docs", None), "~/docs");
}

#[test]
fn test_expand_home_no_placeholder() {
    assert_eq!(expand_home("/etc/hosts", Some("/home/alice")), "/etc/hosts");
}

#[test]
fn test_expand_home_empty_input() {
    assert_eq!(expand_home("", Some("/home/alice")), "");
}

#[test]
fn test_expand_home_empty_home() {
    assert_eq!(expand_home("~/x", Some("")), "/x");
}

#[test]
fn test_expand_home_unicode() {
    assert_eq!(expand_home("~/файл", Some("/home/alice")), "/home/alice/файл");
}
