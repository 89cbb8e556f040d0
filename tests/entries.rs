use ignore::gitignore::{Gitignore, GitignoreBuilder};
use sharkit::{preview_text, shown_path, sort_catalog, Entry};

#[test]
fn hidden_follows_name() {
    assert!(Entry::new(".env".to_string(), "./.env".to_string(), false).hidden());
    assert!(!Entry::new("env".to_string(), "./env".to_string(), false).hidden());
    assert!(!Entry::new(String::new(), String::new(), false).hidden());
    let e = Entry::new("x".to_string(), "./x".to_string(), true);
    assert!(e.ignored());
    assert!(e.dimmed());
    assert_eq!(e.path(), "./x");
}

#[test]
fn matcher_flags_ignored_paths() {
    let mut b = GitignoreBuilder::new(".");
    b.add_line(None, "*.log").unwrap();
    let gi = b.build().unwrap();
    let e = Entry::with_matcher("x.log".to_string(), "./x.log".to_string(), &gi);
    assert!(e.ignored());
    let e = Entry::with_matcher("x.txt".to_string(), "./x.txt".to_string(), &gi);
    assert!(!e.ignored());
    let e = Entry::with_matcher("x.log".to_string(), "./x.log".to_string(), &Gitignore::empty());
    assert!(!e.ignored());
}

#[test]
fn sort_catalog_orders() {
    let v = sort_catalog(vec![
        Entry::new("b".to_string(), "b".to_string(), false),
        Entry::new(".a".to_string(), ".a".to_string(), false),
        Entry::new("A".to_string(), "A".to_string(), false),
    ]);
    let names: Vec<String> = v.iter().map(|e| e.name().clone()).collect();
    assert_eq!(names, vec!["A", "b", ".a"]);
}

#[test]
fn preview_small_file_verbatim() {
    assert_eq!(preview_text(Ok("abc".to_string())), "abc");
}

#[test]
fn preview_empty_file() {
    assert_eq!(preview_text(Ok(String::new())), "<empty file>");
}

#[test]
fn preview_truncates_long_file() {
    let content = "x".repeat(11000);
    let expected = format!("{}\n\n... (truncated, file is 11000 bytes)", "x".repeat(10000));
    assert_eq!(preview_text(Ok(content)), expected);
}

#[test]
fn preview_at_limit_is_whole() {
    let content = "y".repeat(10000);
    assert_eq!(preview_text(Ok(content.clone())), content);
}

#[test]
fn preview_counts_characters_not_bytes() {
    let content = "\u{e9}".repeat(10001);
    let expected = format!("{}\n\n... (truncated, file is 20002 bytes)", "\u{e9}".repeat(10000));
    assert_eq!(preview_text(Ok(content)), expected);
    let short = "\u{e9}".repeat(6000);
    assert_eq!(preview_text(Ok(short.clone())), short);
}

#[test]
fn preview_read_error() {
    assert_eq!(preview_text(Err("permission denied".to_string())), "Error reading file: permission denied");
}

#[test]
fn shown_path_relative_to_cwd() {
    assert_eq!(shown_path(&"./a.txt".to_string()), "a.txt");
    assert_eq!(shown_path(&"/etc/hosts".to_string()), "/etc/hosts");
}
