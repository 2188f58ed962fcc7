//! The main window: how it is configured and what closing it does.
use vstd::prelude::*;
use crate::menu::{is_custom, is_inspector_entry, is_menu_bar, MenuCommand, Submenu};
use crate::text::text_eq;

verus! {

/// The label under which the main window is created and looked up.
pub open spec fn main_label() -> Seq<char> {
    "main"@
}

/// The one site the wrapper hosts, loaded as the top-level document.
pub open spec fn site_url() -> Seq<char> {
    "https://whop.com"@
}

/// The fixed identifier of the webview's persistent data store.
pub open spec fn data_store_id() -> Seq<u8> {
    seq![0x77u8, 0x68, 0x6f, 0x70, 0x77, 0x72, 0x61, 0x70, 0x70, 0x65, 0x72, 0x01, 0x00, 0x00, 0x00, 0x01]
}

/// What the main window is made with, apart from its geometry.
pub struct MainWindowSpec {
    pub label: String,
    pub title: String,
    pub url: String,
    /// Initial inner size, in logical pixels.
    pub width: u32,
    pub height: u32,
    /// Smallest inner size the window can be resized to, in logical pixels.
    pub min_width: u32,
    pub min_height: u32,
    pub resizable: bool,
    pub centered: bool,
    /// An incognito webview keeps no cookies or storage across launches.
    pub incognito: bool,
    pub data_store_id: [u8; 16],
    pub zoom_hotkeys: bool,
    /// Whether timers and media are throttled while the window is hidden.
    pub background_throttling: bool,
    /// Whether the Web Inspector is compiled in.
    pub devtools: bool,
}

/// The main window as `main_window_spec(debug)` describes it.
pub open spec fn is_main_window_spec(w: MainWindowSpec, debug: bool) -> bool {
    &&& w.label@ == main_label()
    &&& w.title@ == "Whop"@
    &&& w.url@ == site_url()
    &&& w.width == 1440 && w.height == 900
    &&& w.min_width == 1000 && w.min_height == 700
    &&& w.resizable
    &&& w.centered
    &&& !w.incognito
    &&& w.data_store_id@ == data_store_id()
    &&& w.zoom_hotkeys
    &&& !w.background_throttling
    &&& w.devtools == debug
}

/// Describes the main window: `https://whop.com` as a top-level document in
/// a resizable, centered window titled `Whop`, 1440 by 900 logical pixels
/// and never smaller than 1000 by 700, with a persistent
/// (non-incognito) data store under a fixed identifier, zoom hotkeys on,
/// background throttling off, and the Web Inspector only in debug builds.
pub fn main_window_spec(debug: bool) -> (res: MainWindowSpec)
    ensures
        is_main_window_spec(res, debug),
{
    let id: [u8; 16] = [
        0x77, 0x68, 0x6f, 0x70, 0x77, 0x72, 0x61, 0x70, 0x70, 0x65, 0x72, 0x01, 0x00, 0x00, 0x00, 0x01,
    ];
    assert(id@ =~= data_store_id());
    MainWindowSpec {
        label: "main".to_string(),
        title: "Whop".to_string(),
        url: "https://whop.com".to_string(),
        width: 1440,
        height: 900,
        min_width: 1000,
        min_height: 700,
        resizable: true,
        centered: true,
        incognito: false,
        data_store_id: id,
        zoom_hotkeys: true,
        background_throttling: false,
        devtools: debug,
    }
}

/// Whether a close request for the window labelled `label` hides it instead
/// (only the main window is kept alive this way).
pub fn hides_on_close(label: &str) -> (res: bool)
    ensures
        res == (label@ == main_label()),
{
    text_eq(label, "main")
}

/// Every launch, debug or not, makes the main window with the same
/// persistent data store, so logins and cookies survive quitting the app.
pub proof fn lemma_store_persists(a: MainWindowSpec, debug_a: bool, b: MainWindowSpec, debug_b: bool)
    requires
        is_main_window_spec(a, debug_a),
        is_main_window_spec(b, debug_b),
    ensures
        !a.incognito && !b.incognito,
        a.data_store_id@ == b.data_store_id@,
{
}

/// Closing the main window hides it, and closing any other window does not.
pub proof fn lemma_close_hides_main_only(w: MainWindowSpec, debug: bool, label: Seq<char>)
    requires
        is_main_window_spec(w, debug),
    ensures
        (label == main_label()) <==> (label == w.label@),
{
}

/// The menu offers the Web Inspector exactly when the main window has it.
pub proof fn lemma_inspector_item_iff_devtools(bar: Seq<Submenu>, w: MainWindowSpec, debug: bool)
    requires
        is_menu_bar(bar, debug),
        is_main_window_spec(w, debug),
    ensures
        (exists|i: int, j: int|
            0 <= i < bar.len() && 0 <= j < bar[i].entries@.len() && #[trigger] is_inspector_entry(
                bar[i].entries@[j],
            )) <==> w.devtools,
{
    if w.devtools {
        let e = bar[3].entries@[11];
        assert(is_custom(e, MenuCommand::Inspector, "Open Web Inspector"@, Some("CmdOrCtrl+Alt+I"@)));
        assert(is_inspector_entry(bar[3].entries@[11]));
    }
}

} // verus!
