use whop::web::{host_only, navigation_decision, new_window_decision, NavigationDecision, PopupDecision, WebUrl};

fn url(scheme: &str, host: Option<&str>, path: &str) -> WebUrl {
    WebUrl { scheme: scheme.to_string(), host: host.map(|h| h.to_string()), path: path.to_string() }
}

#[test]
fn navigation_keeps_web_traffic_in_app() {
    for s in ["https", "http", "about", "blob", "data"] {
        assert_eq!(navigation_decision(&url(s, None, "")), NavigationDecision::Allow);
    }
}

#[test]
fn navigation_hands_contact_schemes_to_system() {
    for s in ["mailto", "tel", "sms", "facetime", "facetime-audio"] {
        assert_eq!(navigation_decision(&url(s, None, "")), NavigationDecision::OpenExternally);
    }
}

#[test]
fn navigation_blocks_everything_else() {
    for s in ["file", "javascript", "whop", "ftp", "HTTPS", ""] {
        assert_eq!(navigation_decision(&url(s, None, "")), NavigationDecision::Block);
    }
}

#[test]
fn popups_for_web_schemes_open() {
    for s in ["https", "http", "about", "blob"] {
        assert_eq!(new_window_decision(&url(s, None, "")), PopupDecision::Allow);
    }
}

#[test]
fn popups_for_data_are_denied() {
    assert_eq!(new_window_decision(&url("data", None, "text/html,hi")), PopupDecision::Deny);
}

#[test]
fn popups_for_contact_schemes_go_to_system() {
    for s in ["mailto", "tel", "sms", "facetime", "facetime-audio"] {
        assert_eq!(new_window_decision(&url(s, None, "")), PopupDecision::OpenExternally);
    }
    assert_eq!(new_window_decision(&url("file", None, "/etc/passwd")), PopupDecision::Deny);
}

#[test]
fn popup_never_allowed_where_navigation_is_not() {
    for s in ["https", "http", "about", "blob", "data", "mailto", "tel", "sms", "facetime", "facetime-audio", "file", "x"] {
        let u = url(s, None, "");
        let nav = navigation_decision(&u);
        let pop = new_window_decision(&u);
        if pop == PopupDecision::Allow {
            assert_eq!(nav, NavigationDecision::Allow);
        }
        assert_eq!(pop == PopupDecision::OpenExternally, nav == NavigationDecision::OpenExternally);
    }
}

#[test]
fn host_only_drops_path_and_query() {
    assert_eq!(host_only(&url("https", Some("whop.com"), "/checkout/secret-token")), "https://whop.com");
    assert_eq!(host_only(&url("mailto", None, "someone@example.com")), "mailto://");
}

#[test]
fn host_only_ignores_path() {
    let a = host_only(&url("https", Some("api.whop.com"), "/a?token=1"));
    let b = host_only(&url("https", Some("api.whop.com"), "/b"));
    assert_eq!(a, b);
}
