//! What the webview may do with a URL: follow it, hand it to the system, or
//! refuse it; and what of a URL may be written to the log.
use vstd::prelude::*;
use crate::dedup::last_index_of;
use crate::filename::{fallback_name, sanitize_filename, sanitized};
use crate::text::{owned_text_view, text_eq};

verus! {

/// The parts of a parsed URL that the wrapper reads: its scheme (lower case,
/// as URL parsing leaves it), its host if it has one, and its percent-encoded
/// path.
pub struct WebUrl {
    pub scheme: String,
    pub host: Option<String>,
    pub path: String,
}

/// What happens to a top-level navigation inside the main webview.
#[derive(Debug, Clone, Copy, PartialEq, Eq, Structural)]
pub enum NavigationDecision {
    /// The webview follows it.
    Allow,
    /// The system's default handler gets the URL; the webview stays put.
    OpenExternally,
    /// The webview stays put and nothing else happens.
    Block,
}

/// What happens to a `window.open` / `target="_blank"` request.
#[derive(Debug, Clone, Copy, PartialEq, Eq, Structural)]
pub enum PopupDecision {
    /// A real popup opens with the webview's default behaviour.
    Allow,
    /// The system's default handler gets the URL; no popup opens.
    OpenExternally,
    /// No popup opens and nothing else happens.
    Deny,
}

/// Schemes of ordinary web traffic that stay inside the app as popups too.
pub open spec fn is_web_scheme(s: Seq<char>) -> bool {
    s == "https"@ || s == "http"@ || s == "about"@ || s == "blob"@
}

/// Schemes that the top-level webview follows.
pub open spec fn is_in_app_scheme(s: Seq<char>) -> bool {
    is_web_scheme(s) || s == "data"@
}

/// Schemes handed to the operating system's default handler.
pub open spec fn is_external_scheme(s: Seq<char>) -> bool {
    ||| s == "mailto"@
    ||| s == "tel"@
    ||| s == "sms"@
    ||| s == "facetime"@
    ||| s == "facetime-audio"@
}

/// The decision for a top-level navigation to a URL with scheme `s`.
pub open spec fn navigation_for(s: Seq<char>) -> NavigationDecision {
    if is_in_app_scheme(s) {
        NavigationDecision::Allow
    } else if is_external_scheme(s) {
        NavigationDecision::OpenExternally
    } else {
        NavigationDecision::Block
    }
}

/// The decision for a popup request to a URL with scheme `s`.
pub open spec fn popup_for(s: Seq<char>) -> PopupDecision {
    if is_web_scheme(s) {
        PopupDecision::Allow
    } else if is_external_scheme(s) {
        PopupDecision::OpenExternally
    } else {
        PopupDecision::Deny
    }
}

fn is_web(s: &str) -> (r: bool)
    ensures
        r == is_web_scheme(s@),
{
    text_eq(s, "https") || text_eq(s, "http") || text_eq(s, "about") || text_eq(s, "blob")
}

fn is_external(s: &str) -> (r: bool)
    ensures
        r == is_external_scheme(s@),
{
    text_eq(s, "mailto") || text_eq(s, "tel") || text_eq(s, "sms") || text_eq(s, "facetime")
        || text_eq(s, "facetime-audio")
}

/// Decides whether a top-level navigation inside the main webview may
/// proceed: `https`, `http`, `about`, `blob` and `data` stay in the app;
/// `mailto`, `tel`, `sms`, `facetime` and `facetime-audio` go to the system's
/// handler; everything else (`file`, custom schemes) is blocked.
pub fn navigation_decision(url: &WebUrl) -> (res: NavigationDecision)
    ensures
        res == navigation_for(url.scheme@),
{
    let s = url.scheme.as_str();
    if is_web(s) || text_eq(s, "data") {
        NavigationDecision::Allow
    } else if is_external(s) {
        NavigationDecision::OpenExternally
    } else {
        NavigationDecision::Block
    }
}

/// Decides how to answer a `window.open` / `target="_blank"` request:
/// `https`, `http`, `about` and `blob` open as real popups (keeping
/// `window.opener`); the same non-web schemes as for navigation go to the
/// system's handler; everything else, `data` included, is denied.
pub fn new_window_decision(url: &WebUrl) -> (res: PopupDecision)
    ensures
        res == popup_for(url.scheme@),
{
    let s = url.scheme.as_str();
    if is_web(s) {
        PopupDecision::Allow
    } else if is_external(s) {
        PopupDecision::OpenExternally
    } else {
        PopupDecision::Deny
    }
}

/// The loggable form of a URL: `scheme://host`.
pub open spec fn loggable(scheme: Seq<char>, host: Option<Seq<char>>) -> Seq<char> {
    match host {
        Some(h) => scheme + "://"@ + h,
        None => scheme + "://"@,
    }
}

/// Returns `scheme://host` for logging, dropping path and query so that no
/// secret embedded in a URL reaches the log.
pub fn host_only(url: &WebUrl) -> (res: String)
    ensures
        res@ == loggable(url.scheme@, owned_text_view(url.host)),
{
    let mut out = url.scheme.clone();
    out.append("://");
    match &url.host {
        Some(h) => {
            out.append(h.as_str());
        },
        None => {},
    }
    out
}

/// The last segment of a URL path, as `Url::path_segments().next_back()`
/// yields it: none unless the path starts with `/`, else the text after the
/// last `/`.
pub open spec fn last_path_segment(path: Seq<char>) -> Option<Seq<char>> {
    if path.len() > 0 && path[0] == '/' {
        Some(path.skip(last_index_of(path, '/') + 1))
    } else {
        None
    }
}

/// The raw download name of a URL path: its last segment when that is not
/// empty, else `download`.
pub open spec fn raw_download_name(path: Seq<char>) -> Seq<char> {
    match last_path_segment(path) {
        Some(seg) => if seg.len() > 0 { seg } else { fallback_name() },
        None => fallback_name(),
    }
}

/// Derives a safe file name from a download URL's last path segment.
pub fn filename_from_url(url: &WebUrl) -> (res: String)
    ensures
        res@ == sanitized(raw_download_name(url.path@)),
{
    let path = url.path.as_str();
    let n = path.unicode_len();
    if n > 0 && path.get_char(0) == '/' {
        let mut k: usize = n;
        assert(path@.take(n as int) =~= path@);
        while k > 0 && path.get_char(k - 1) != '/'
            invariant
                n == path@.len(),
                0 < n,
                path@[0] == '/',
                0 < k <= n,
                last_index_of(path@, '/') == last_index_of(path@.take(k as int), '/'),
            decreases k,
        {
            assert(path@.take(k as int).drop_last() =~= path@.take(k - 1));
            k = k - 1;
        }
        proof {
            assert(path@.take(k as int).last() == '/');
        }
        let seg = path.substring_char(k, n);
        assert(seg@ =~= path@.skip(k as int));
        if seg.unicode_len() > 0 {
            return sanitize_filename(seg);
        }
    }
    let fallback = "download";
    proof {
        reveal_strlit("download");
        assert(fallback@ =~= fallback_name());
    }
    sanitize_filename(fallback)
}

/// A popup opens only where a top-level navigation may go; the schemes
/// handed to the system are the same for both; whatever navigation blocks, a
/// popup is denied too. `data` is the one scheme that navigation follows and
/// popups do not.
pub proof fn lemma_popups_within_navigation(s: Seq<char>)
    ensures
        popup_for(s) == PopupDecision::Allow ==> navigation_for(s) == NavigationDecision::Allow,
        (popup_for(s) == PopupDecision::OpenExternally) <==> (navigation_for(s)
            == NavigationDecision::OpenExternally),
        navigation_for(s) == NavigationDecision::Block ==> popup_for(s) == PopupDecision::Deny,
        navigation_for(s) == NavigationDecision::Allow && popup_for(s) != PopupDecision::Allow ==> s
            == "data"@,
{
    reveal_strlit("data");
    reveal_strlit("mailto");
    reveal_strlit("tel");
    reveal_strlit("sms");
    reveal_strlit("facetime");
    reveal_strlit("facetime-audio");
    if is_external_scheme(s) {
        assert(s[0] != 'd');
        assert("data"@[0] == 'd');
    }
}

/// What is logged of a URL depends on its scheme and host alone: two URLs
/// that differ only in path (or query) log the same.
pub proof fn lemma_log_ignores_path(a: WebUrl, b: WebUrl)
    requires
        a.scheme@ == b.scheme@,
        owned_text_view(a.host) == owned_text_view(b.host),
    ensures
        loggable(a.scheme@, owned_text_view(a.host)) == loggable(b.scheme@, owned_text_view(b.host)),
{
}

/// The scheme table, stated over the scheme texts themselves: `https`,
/// `http`, `about`, `blob` and `data` are followed in the app; exactly the
/// five texts `mailto`, `tel`, `sms`, `facetime` and `facetime-audio` go to
/// the system (as navigations and as popups); every other scheme, custom app
/// schemes included, is blocked as a navigation and denied as a popup. Popups
/// open for `https`, `http`, `about` and `blob` only.
pub proof fn lemma_scheme_table(s: Seq<char>)
    ensures
        (s == "https"@ || s == "http"@ || s == "about"@ || s == "blob"@ || s == "data"@)
            ==> navigation_for(s) == NavigationDecision::Allow,
        (s == "https"@ || s == "http"@ || s == "about"@ || s == "blob"@) ==> popup_for(s)
            == PopupDecision::Allow,
        (s == "mailto"@ || s == "tel"@ || s == "sms"@ || s == "facetime"@ || s == "facetime-audio"@)
            ==> navigation_for(s) == NavigationDecision::OpenExternally && popup_for(s)
            == PopupDecision::OpenExternally,
        (navigation_for(s) == NavigationDecision::OpenExternally || popup_for(s)
            == PopupDecision::OpenExternally) ==> (s == "mailto"@ || s == "tel"@ || s == "sms"@ || s
            == "facetime"@ || s == "facetime-audio"@),
        !(s == "https"@ || s == "http"@ || s == "about"@ || s == "blob"@ || s == "data"@ || s
            == "mailto"@ || s == "tel"@ || s == "sms"@ || s == "facetime"@ || s == "facetime-audio"@)
            ==> navigation_for(s) == NavigationDecision::Block && popup_for(s) == PopupDecision::Deny,
        popup_for(s) == PopupDecision::Allow ==> (s == "https"@ || s == "http"@ || s == "about"@ || s
            == "blob"@),
{
    lemma_popups_within_navigation(s);
    reveal_strlit("https");
    reveal_strlit("http");
    reveal_strlit("about");
    reveal_strlit("blob");
    reveal_strlit("data");
    reveal_strlit("mailto");
    reveal_strlit("tel");
    reveal_strlit("sms");
    reveal_strlit("facetime");
    reveal_strlit("facetime-audio");
    assert("https"@ =~= seq!['h', 't', 't', 'p', 's']);
    assert("http"@ =~= seq!['h', 't', 't', 'p']);
    assert("about"@ =~= seq!['a', 'b', 'o', 'u', 't']);
    assert("blob"@ =~= seq!['b', 'l', 'o', 'b']);
    assert("data"@ =~= seq!['d', 'a', 't', 'a']);
    assert("mailto"@ =~= seq!['m', 'a', 'i', 'l', 't', 'o']);
    assert("tel"@ =~= seq!['t', 'e', 'l']);
    assert("sms"@ =~= seq!['s', 'm', 's']);
    assert("facetime"@ =~= seq!['f', 'a', 'c', 'e', 't', 'i', 'm', 'e']);
    assert("facetime-audio"@ =~= seq!['f', 'a', 'c', 'e', 't', 'i', 'm', 'e', '-', 'a', 'u', 'd', 'i', 'o']);
}

} // verus!
