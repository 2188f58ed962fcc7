use whop::download::{download_display_name, download_file_name, finished_download_notice, record_finished};
use whop::menu::{about_info, menu_command, menu_layout, MenuCommand, MenuEntry, StandardItem};
use whop::web::WebUrl;
use whop::window::{hides_on_close, main_window_spec};

fn url_with_path(path: &str) -> WebUrl {
    WebUrl { scheme: "https".to_string(), host: Some("whop.com".to_string()), path: path.to_string() }
}

const ALL_COMMANDS: [MenuCommand; 10] = [
    MenuCommand::Back,
    MenuCommand::Forward,
    MenuCommand::Reload,
    MenuCommand::ForceReload,
    MenuCommand::ActualSize,
    MenuCommand::ZoomIn,
    MenuCommand::ZoomOut,
    MenuCommand::RevealDownload,
    MenuCommand::OpenDownloads,
    MenuCommand::Inspector,
];

#[test]
fn menu_command_routes_known_ids() {
    assert_eq!(menu_command("back", false), Some(MenuCommand::Back));
    assert_eq!(menu_command("zoom_out", false), Some(MenuCommand::ZoomOut));
    assert_eq!(menu_command("reveal_download", true), Some(MenuCommand::RevealDownload));
    assert_eq!(menu_command("quit", false), None);
    assert_eq!(menu_command("", true), None);
}

#[test]
fn inspector_routes_only_in_debug() {
    assert_eq!(menu_command("inspector", true), Some(MenuCommand::Inspector));
    assert_eq!(menu_command("inspector", false), None);
}

#[test]
fn command_ids_round_trip() {
    for c in ALL_COMMANDS {
        assert_eq!(menu_command(c.id(), true), Some(c));
        if c != MenuCommand::Inspector {
            assert_eq!(menu_command(c.id(), false), Some(c));
        }
    }
}

#[test]
fn about_panel_text() {
    let info = about_info();
    assert_eq!(info.name, "Whop");
    assert_eq!(info.version, "0.1.0");
    assert_eq!(info.comments, "Unofficial personal-use desktop wrapper for whop.com. Not affiliated with Whop.");
}

#[test]
fn menu_layout_release() {
    let bar = menu_layout(false);
    let titles: Vec<&str> = bar.iter().map(|m| m.title.as_str()).collect();
    assert_eq!(titles, vec!["Whop", "File", "Edit", "View"]);
    assert_eq!(bar[0].entries.len(), 7);
    assert!(matches!(&bar[0].entries[0], MenuEntry::Standard(StandardItem::About, Some(l)) if l == "About Whop"));
    assert!(matches!(&bar[0].entries[6], MenuEntry::Standard(StandardItem::Quit, Some(l)) if l == "Quit Whop"));
    assert_eq!(bar[1].entries.len(), 2);
    match &bar[1].entries[0] {
        MenuEntry::Custom(item) => {
            assert_eq!(item.command, MenuCommand::RevealDownload);
            assert_eq!(item.label, "Reveal Last Download in Finder");
            assert_eq!(item.accelerator.as_deref(), Some("CmdOrCtrl+Shift+J"));
        }
        _ => panic!("expected a custom item"),
    }
    assert_eq!(bar[2].entries.len(), 7);
    assert_eq!(bar[3].entries.len(), 10);
    assert!(matches!(&bar[3].entries[9], MenuEntry::Standard(StandardItem::Fullscreen, None)));
}

#[test]
fn menu_layout_debug_adds_inspector() {
    let bar = menu_layout(true);
    assert_eq!(bar[3].entries.len(), 12);
    assert!(matches!(&bar[3].entries[10], MenuEntry::Separator));
    match &bar[3].entries[11] {
        MenuEntry::Custom(item) => {
            assert_eq!(item.command, MenuCommand::Inspector);
            assert_eq!(item.accelerator.as_deref(), Some("CmdOrCtrl+Alt+I"));
        }
        _ => panic!("expected the inspector item"),
    }
}

#[test]
fn every_menu_item_routes() {
    for debug in [false, true] {
        for sub in menu_layout(debug) {
            for entry in &sub.entries {
                if let MenuEntry::Custom(item) = entry {
                    assert_eq!(menu_command(item.command.id(), debug), Some(item.command));
                }
            }
        }
    }
}

#[test]
fn inspector_item_matches_devtools() {
    for debug in [false, true] {
        let has_item = menu_layout(debug).iter().any(|m| {
            m.entries.iter().any(|e| matches!(e, MenuEntry::Custom(i) if i.command == MenuCommand::Inspector))
        });
        assert_eq!(has_item, main_window_spec(debug).devtools);
    }
}

#[test]
fn main_window_is_persistent() {
    let a = main_window_spec(false);
    let b = main_window_spec(true);
    assert_eq!(a.label, "main");
    assert_eq!(a.title, "Whop");
    assert_eq!(a.url, "https://whop.com");
    assert!(!a.incognito && !b.incognito);
    assert_eq!(a.data_store_id, b.data_store_id);
    assert_eq!(a.data_store_id[..11], *b"whopwrapper");
    assert!(a.zoom_hotkeys && !a.background_throttling && a.resizable && a.centered);
    assert_eq!((a.width, a.height, a.min_width, a.min_height), (1440, 900, 1000, 700));
    assert!(!a.devtools && b.devtools);
}

#[test]
fn only_main_window_hides_on_close() {
    assert!(hides_on_close("main"));
    assert!(!hides_on_close("popup"));
    assert!(!hides_on_close("Main"));
    assert!(hides_on_close(&main_window_spec(false).label));
}

#[test]
fn download_file_name_avoids_existing() {
    let existing = ["invoice.pdf", "invoice (1).pdf"];
    let taken = |s: &str| existing.contains(&s);
    assert_eq!(download_file_name(&url_with_path("/f/invoice.pdf"), &taken).as_deref(), Some("invoice (2).pdf"));
    assert_eq!(download_file_name(&url_with_path("/f/other.pdf"), &taken).as_deref(), Some("other.pdf"));
}

#[test]
fn download_file_name_none_when_all_taken() {
    let taken = |_: &str| true;
    assert_eq!(download_file_name(&url_with_path("/f/invoice.pdf"), &taken), None);
}

#[test]
fn download_file_name_stays_a_component() {
    let existing = ["_etc_passwd"];
    let taken = |s: &str| existing.contains(&s);
    let name = download_file_name(&url_with_path("/x/..%2F..%2Fetc%2Fpasswd"), &taken).unwrap();
    assert!(!name.contains('/') && !name.starts_with('.'));
    assert_eq!(name, "_2F.._2Fetc_2Fpasswd");
    assert_eq!(
        download_file_name(&url_with_path("/"), &|s: &str| s == "download").as_deref(),
        Some("download (1)")
    );
}

#[test]
fn display_name_defaults() {
    assert_eq!(download_display_name(Some("a.zip")), "a.zip");
    assert_eq!(download_display_name(None), "download");
}

#[test]
fn notice_only_on_success() {
    assert!(finished_download_notice(false, Some("a.zip")).is_none());
    let n = finished_download_notice(true, Some("a.zip")).unwrap();
    assert_eq!(n.title, "Download complete");
    assert_eq!(n.body, "Saved \u{201c}a.zip\u{201d} to Downloads");
    let m = finished_download_notice(true, None).unwrap();
    assert_eq!(m.body, "Saved \u{201c}download\u{201d} to Downloads");
}

#[test]
fn record_finished_keeps_last_success() {
    let mut last: Option<String> = None;
    record_finished(&mut last, Some("/d/a".to_string()), true);
    assert_eq!(last.as_deref(), Some("/d/a"));
    record_finished(&mut last, Some("/d/b".to_string()), false);
    assert_eq!(last.as_deref(), Some("/d/a"));
    record_finished(&mut last, None, true);
    assert_eq!(last.as_deref(), Some("/d/a"));
    record_finished(&mut last, Some("/d/c".to_string()), true);
    assert_eq!(last.as_deref(), Some("/d/c"));
}
