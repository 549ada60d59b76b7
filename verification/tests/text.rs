use rpush::context::WorkingContext;
use rpush::utils::{base_name, chain, del_start_separator, is_empty, join, same_text, trim};

#[test]
fn blank_fields_are_empty() {
    assert!(is_empty(""));
    assert!(is_empty("   "));
    assert!(is_empty(" \t\r\n"));
    assert!(is_empty("\u{3000}\u{a0}"));
    assert!(!is_empty("a"));
    assert!(!is_empty("  a  "));
    assert!(!is_empty("\n.\n"));
}

#[test]
fn trim_drops_the_white_space_around() {
    assert_eq!(trim("  prod \n"), "prod");
    assert_eq!(trim("prod"), "prod");
    assert_eq!(trim("a b"), "a b");
    assert_eq!(trim("\t a b \t"), "a b");
    assert_eq!(trim("   "), "");
    assert_eq!(trim(""), "");
    assert_eq!(trim("　空间　"), "空间");
    for text in ["", " ", "x", " x", "x ", " x y  ", "\n\n", "é \u{2003}"] {
        assert_eq!(trim(text), text.trim());
        assert_eq!(is_empty(text), text.trim().len() == 0);
    }
}

#[test]
fn one_leading_separator_is_dropped() {
    assert_eq!(del_start_separator("/site"), "site");
    assert_eq!(del_start_separator("site"), "site");
    assert_eq!(del_start_separator("//site"), "/site");
    assert_eq!(del_start_separator("/"), "");
    assert_eq!(del_start_separator(""), "");
    assert_eq!(del_start_separator("site/"), "site/");
    assert_eq!(del_start_separator("/目录/x"), "目录/x");
    assert_eq!(del_start_separator("\\site"), "\\site");
}

#[test]
fn same_text_compares_by_content() {
    assert!(same_text("prod", "prod"));
    assert!(same_text("", ""));
    assert!(!same_text("prod", "Prod"));
    assert!(!same_text("prod", "prod "));
    assert!(!same_text("prod", "pro"));
    assert!(same_text("空间", "空间"));
    assert!(!same_text("空间", "空問"));
}

#[test]
fn chain_appends() {
    assert_eq!(chain("a", "b"), "ab");
    assert_eq!(chain("", ""), "");
    assert_eq!(chain("site", ".tar.gz"), "site.tar.gz");
}

#[test]
fn join_puts_one_separator_between() {
    assert_eq!(join("/home/me", "site"), "/home/me/site");
    assert_eq!(join("/home/me/", "site"), "/home/me/site");
    assert_eq!(join("/", "site"), "/site");
    assert_eq!(join("", "site"), "site");
    assert_eq!(join("/home/me", ""), "/home/me/");
    assert_eq!(join("/home/me", "a/b"), "/home/me/a/b");
}

#[test]
fn base_name_is_what_follows_the_last_separator() {
    assert_eq!(base_name("/home/me/site.tar.gz"), "site.tar.gz");
    assert_eq!(base_name("site.tar.gz"), "site.tar.gz");
    assert_eq!(base_name("/home/me/a/b.tar.gz"), "b.tar.gz");
    assert_eq!(base_name("/home/me/site/"), "");
    assert_eq!(base_name("/"), "");
    assert_eq!(base_name(""), "");
    assert_eq!(base_name("/x"), "x");
}

#[test]
fn registry_file_lies_in_the_home_directory() {
    let context = WorkingContext::new("/work", "/home/me");
    assert_eq!(context.get_config_path(), "/home/me/.rpush_config");
    assert_eq!(WorkingContext::new("/", "").get_config_path(), "/.rpush_config");
}

#[test]
fn pushed_directory_is_taken_under_the_working_directory() {
    let context = WorkingContext::new("/work", "/home/me");
    assert_eq!(context.resolve("site"), "/work/site");
    assert_eq!(context.resolve("/site"), "/work/site");
    assert_eq!(context.resolve("a/b"), "/work/a/b");
    assert_eq!(context.resolve("//etc"), "/work//etc");
    assert_eq!(WorkingContext::new("/work/", "/h").resolve("/site"), "/work/site");
}
