use whop::dedup::{choose_unique_name, numbered_name, unique_path};
use whop::text::{push_decimal, text_eq};

#[test]
fn unique_path_keeps_free_name() {
    let taken = |_: &str| false;
    assert_eq!(unique_path("report.pdf", &taken).as_deref(), Some("report.pdf"));
}

#[test]
fn unique_path_numbers_before_extension() {
    let existing = ["report.pdf", "report (1).pdf", "report (2).pdf"];
    let taken = |s: &str| existing.contains(&s);
    assert_eq!(unique_path("report.pdf", &taken).as_deref(), Some("report (3).pdf"));
}

#[test]
fn unique_path_without_extension() {
    let existing = ["notes"];
    let taken = |s: &str| existing.contains(&s);
    assert_eq!(unique_path("notes", &taken).as_deref(), Some("notes (1)"));
}

#[test]
fn unique_path_uses_last_dot() {
    let existing = ["archive.tar.gz"];
    let taken = |s: &str| existing.contains(&s);
    assert_eq!(unique_path("archive.tar.gz", &taken).as_deref(), Some("archive.tar (1).gz"));
}

#[test]
fn unique_path_leading_dot_is_stem() {
    let existing = [".profile"];
    let taken = |s: &str| existing.contains(&s);
    assert_eq!(unique_path(".profile", &taken).as_deref(), Some(".profile (1)"));
}

#[test]
fn unique_path_reads_final_component() {
    let taken = |s: &str| s == "x/a.txt";
    assert_eq!(unique_path("x/a.txt", &taken).as_deref(), Some("a (1).txt"));
    let all_first = |s: &str| !s.contains('(');
    assert_eq!(unique_path("a/b/./", &all_first).as_deref(), Some("b (1)"));
    assert_eq!(unique_path("dir/..", &all_first).as_deref(), Some("download (1)"));
    assert_eq!(unique_path("/", &all_first).as_deref(), Some("download (1)"));
    assert_eq!(unique_path("a//c.tar.gz/", &all_first).as_deref(), Some("c.tar (1).gz"));
}

#[test]
fn unique_path_gives_up_after_9999() {
    let taken = |_: &str| true;
    assert_eq!(unique_path("busy.txt", &taken), None);
}

#[test]
fn unique_path_finds_last_candidate() {
    let taken = |s: &str| s != "busy (9999).txt";
    assert_eq!(unique_path("busy.txt", &taken).as_deref(), Some("busy (9999).txt"));
}

#[test]
fn unique_path_empty_stem_falls_back() {
    let existing = [""];
    let taken = |s: &str| existing.contains(&s);
    assert_eq!(unique_path("", &taken).as_deref(), Some("download (1)"));
}

#[test]
fn choose_unique_name_uses_given_parts() {
    let existing = ["x.bin"];
    let taken = |s: &str| existing.contains(&s);
    assert_eq!(choose_unique_name("x.bin", Some("x"), Some("bin"), &taken).as_deref(), Some("x (1).bin"));
    assert_eq!(choose_unique_name("x.bin", None, None, &taken).as_deref(), Some("download (1)"));
    assert_eq!(choose_unique_name("y.bin", None, None, &taken).as_deref(), Some("y.bin"));
}

#[test]
fn choose_unique_name_never_returns_taken_name() {
    let all = |_: &str| true;
    assert_eq!(choose_unique_name("x.bin", Some("x"), Some("bin"), &all), None);
    let existing = ["x.bin", "x (1).bin"];
    let taken = |s: &str| existing.contains(&s);
    let got = choose_unique_name("x.bin", Some("x"), Some("bin"), &taken).unwrap();
    assert!(!existing.contains(&got.as_str()));
}

#[test]
fn numbered_name_formats() {
    assert_eq!(numbered_name("a", Some("txt"), 1), "a (1).txt");
    assert_eq!(numbered_name("a", None, 42), "a (42)");
    assert_eq!(numbered_name("", Some(""), 10000), " (10000).");
}

#[test]
fn push_decimal_writes_digits() {
    let mut s = String::from("n=");
    push_decimal(&mut s, 0);
    assert_eq!(s, "n=0");
    let mut t = String::new();
    push_decimal(&mut t, 4294967295);
    assert_eq!(t, "4294967295");
    let mut u = String::new();
    push_decimal(&mut u, 1000);
    assert_eq!(u, "1000");
}

#[test]
fn text_eq_compares_characters() {
    assert!(text_eq("main", "main"));
    assert!(!text_eq("main", "Main"));
    assert!(!text_eq("main", "mai"));
    assert!(text_eq("", ""));
    assert!(text_eq("\u{201c}", "\u{201c}"));
}
