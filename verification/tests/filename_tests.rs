use whop::filename::sanitize_filename;
use whop::web::{filename_from_url, WebUrl};

fn url_with_path(path: &str) -> WebUrl {
    WebUrl { scheme: "https".to_string(), host: Some("cdn.whop.com".to_string()), path: path.to_string() }
}

#[test]
fn sanitize_keeps_safe_names() {
    assert_eq!(sanitize_filename("Report 2024 (final)+v2.pdf"), "Report 2024 (final)+v2.pdf");
}

#[test]
fn sanitize_replaces_separators_and_unsafe_chars() {
    assert_eq!(sanitize_filename("a/b\\c:d*e?.txt"), "a_b_c_d_e_.txt");
    assert_eq!(sanitize_filename("caf\u{e9}.png"), "caf_.png");
}

#[test]
fn sanitize_trims_dots_and_spaces() {
    assert_eq!(sanitize_filename("  ..hidden.txt. "), "hidden.txt");
    assert_eq!(sanitize_filename("../etc/passwd"), "_etc_passwd");
}

#[test]
fn sanitize_falls_back_to_download() {
    assert_eq!(sanitize_filename(""), "download");
    assert_eq!(sanitize_filename(" . .. "), "download");
    assert_eq!(sanitize_filename(".."), "download");
}

#[test]
fn sanitize_caps_length_at_150() {
    let long = "x".repeat(400);
    let out = sanitize_filename(&long);
    assert_eq!(out.len(), 150);
    assert!(out.chars().all(|c| c == 'x'));
    let exact = "y".repeat(150);
    assert_eq!(sanitize_filename(&exact), exact);
}

#[test]
fn sanitize_cut_can_leave_trailing_space() {
    let name = format!("{} b", "a".repeat(149));
    let once = sanitize_filename(&name);
    assert_eq!(once, format!("{} ", "a".repeat(149)));
    let twice = sanitize_filename(&once);
    assert_eq!(twice, "a".repeat(149));
}

#[test]
fn sanitize_twice_only_trims_the_end() {
    for name in [format!("{} b", "a".repeat(149)), format!("{}..x", "z".repeat(148)), "ok.txt".to_string()] {
        let once = sanitize_filename(&name);
        let trimmed = once.trim_end_matches(|c| c == '.' || c == ' ');
        assert_eq!(sanitize_filename(&once), trimmed);
    }
}

#[test]
fn sanitize_is_idempotent_on_ordinary_names() {
    for name in ["x/y.zip", "  spaced name .txt", "", "%20encoded%2F.pdf", "\u{1f600}.gif"] {
        let once = sanitize_filename(name);
        assert_eq!(sanitize_filename(&once), once);
    }
}

#[test]
fn sanitized_names_are_safe_components() {
    for name in ["..", "/", "a/../../b", "::", "\\\\server\\share", ".bashrc"] {
        let out = sanitize_filename(name);
        assert!(!out.is_empty());
        assert!(out.len() <= 150);
        assert!(!out.contains('/') && !out.contains('\\') && !out.contains(':'));
        assert!(!out.starts_with('.') && !out.starts_with(' '));
        assert_ne!(out, ".");
        assert_ne!(out, "..");
    }
}

#[test]
fn filename_from_url_takes_last_segment() {
    assert_eq!(filename_from_url(&url_with_path("/files/2024/invoice.pdf")), "invoice.pdf");
    assert_eq!(filename_from_url(&url_with_path("/a%20b.txt")), "a_20b.txt");
}

#[test]
fn filename_from_url_defaults_to_download() {
    assert_eq!(filename_from_url(&url_with_path("/files/")), "download");
    assert_eq!(filename_from_url(&url_with_path("/")), "download");
    assert_eq!(filename_from_url(&url_with_path("")), "download");
    assert_eq!(filename_from_url(&url_with_path("opaque-path.txt")), "download");
}

#[test]
fn filename_from_url_sanitizes_segment() {
    assert_eq!(filename_from_url(&url_with_path("/dl/..secret..")), "secret");
    assert_eq!(filename_from_url(&url_with_path("/dl/x:y")), "x_y");
}
