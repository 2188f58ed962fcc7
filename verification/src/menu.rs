//! The native menu: what it holds, and which command each custom item's id
//! stands for.
use vstd::prelude::*;
use crate::text::{owned_text_view, text_eq, text_view};

verus! {

/// A menu command that the wrapper carries out itself.
#[derive(Debug, Clone, Copy, PartialEq, Eq, Structural)]
pub enum MenuCommand {
    Back,
    Forward,
    Reload,
    ForceReload,
    ActualSize,
    ZoomIn,
    ZoomOut,
    RevealDownload,
    OpenDownloads,
    Inspector,
}

/// A menu item whose behaviour the operating system provides.
#[derive(Debug, Clone, Copy, PartialEq, Eq, Structural)]
pub enum StandardItem {
    About,
    Hide,
    HideOthers,
    ShowAll,
    Quit,
    Undo,
    Redo,
    Cut,
    Copy,
    Paste,
    SelectAll,
    Fullscreen,
}

/// The id under which a custom item of the menu reports its command.
pub open spec fn command_id(c: MenuCommand) -> Seq<char> {
    match c {
        MenuCommand::Back => "back"@,
        MenuCommand::Forward => "forward"@,
        MenuCommand::Reload => "reload"@,
        MenuCommand::ForceReload => "force_reload"@,
        MenuCommand::ActualSize => "actual_size"@,
        MenuCommand::ZoomIn => "zoom_in"@,
        MenuCommand::ZoomOut => "zoom_out"@,
        MenuCommand::RevealDownload => "reveal_download"@,
        MenuCommand::OpenDownloads => "open_downloads"@,
        MenuCommand::Inspector => "inspector"@,
    }
}

/// The command that a menu event with id `id` asks for; the Web Inspector
/// exists only in debug builds.
pub open spec fn command_for(id: Seq<char>, debug: bool) -> Option<MenuCommand> {
    if id == "back"@ {
        Some(MenuCommand::Back)
    } else if id == "forward"@ {
        Some(MenuCommand::Forward)
    } else if id == "reload"@ {
        Some(MenuCommand::Reload)
    } else if id == "force_reload"@ {
        Some(MenuCommand::ForceReload)
    } else if id == "actual_size"@ {
        Some(MenuCommand::ActualSize)
    } else if id == "zoom_in"@ {
        Some(MenuCommand::ZoomIn)
    } else if id == "zoom_out"@ {
        Some(MenuCommand::ZoomOut)
    } else if id == "reveal_download"@ {
        Some(MenuCommand::RevealDownload)
    } else if id == "open_downloads"@ {
        Some(MenuCommand::OpenDownloads)
    } else if debug && id == "inspector"@ {
        Some(MenuCommand::Inspector)
    } else {
        None
    }
}

impl MenuCommand {
    /// The id of the custom menu item that carries this command.
    pub fn id(&self) -> (res: &'static str)
        ensures
            res@ == command_id(*self),
    {
        match self {
            MenuCommand::Back => "back",
            MenuCommand::Forward => "forward",
            MenuCommand::Reload => "reload",
            MenuCommand::ForceReload => "force_reload",
            MenuCommand::ActualSize => "actual_size",
            MenuCommand::ZoomIn => "zoom_in",
            MenuCommand::ZoomOut => "zoom_out",
            MenuCommand::RevealDownload => "reveal_download",
            MenuCommand::OpenDownloads => "open_downloads",
            MenuCommand::Inspector => "inspector",
        }
    }
}

/// Routes a menu event by its id to the command it asks for; ids that no
/// custom item carries (and the Web Inspector outside debug builds) are ignored.
pub fn menu_command(id: &str, debug: bool) -> (res: Option<MenuCommand>)
    ensures
        res == command_for(id@, debug),
{
    if text_eq(id, "back") {
        Some(MenuCommand::Back)
    } else if text_eq(id, "forward") {
        Some(MenuCommand::Forward)
    } else if text_eq(id, "reload") {
        Some(MenuCommand::Reload)
    } else if text_eq(id, "force_reload") {
        Some(MenuCommand::ForceReload)
    } else if text_eq(id, "actual_size") {
        Some(MenuCommand::ActualSize)
    } else if text_eq(id, "zoom_in") {
        Some(MenuCommand::ZoomIn)
    } else if text_eq(id, "zoom_out") {
        Some(MenuCommand::ZoomOut)
    } else if text_eq(id, "reveal_download") {
        Some(MenuCommand::RevealDownload)
    } else if text_eq(id, "open_downloads") {
        Some(MenuCommand::OpenDownloads)
    } else if debug && text_eq(id, "inspector") {
        Some(MenuCommand::Inspector)
    } else {
        None
    }
}

/// A custom menu item: the command it carries, its label and its keyboard
/// accelerator, if any.
pub struct CustomItem {
    pub command: MenuCommand,
    pub label: String,
    pub accelerator: Option<String>,
}

/// One entry of a submenu.
pub enum MenuEntry {
    /// A standard item, with its label when it differs from the system's.
    Standard(StandardItem, Option<String>),
    /// A custom item that the wrapper handles.
    Custom(CustomItem),
    Separator,
}

/// A submenu of the menu bar: its title and its entries, top to bottom.
pub struct Submenu {
    pub title: String,
    pub entries: Vec<MenuEntry>,
}

/// `e` is the standard item `item` with label `label`.
pub open spec fn is_standard(e: MenuEntry, item: StandardItem, label: Option<Seq<char>>) -> bool {
    e matches MenuEntry::Standard(i, l) && i == item && owned_text_view(l) == label
}

/// `e` is a custom item for `command` with label `label` and accelerator `accel`.
pub open spec fn is_custom(e: MenuEntry, command: MenuCommand, label: Seq<char>, accel: Option<Seq<char>>) -> bool {
    e matches MenuEntry::Custom(item) && item.command == command && item.label@ == label
        && owned_text_view(item.accelerator) == accel
}

/// `e` is the custom item that opens the Web Inspector.
pub open spec fn is_inspector_entry(e: MenuEntry) -> bool {
    e matches MenuEntry::Custom(item) && item.command == MenuCommand::Inspector
}

/// `e` is a separator.
pub open spec fn is_separator(e: MenuEntry) -> bool {
    e is Separator
}

/// The application menu: About, Hide, Hide Others, Show All and Quit.
pub open spec fn is_app_submenu(m: Submenu) -> bool {
    &&& m.title@ == "Whop"@
    &&& m.entries@.len() == 7
    &&& is_standard(m.entries@[0], StandardItem::About, Some("About Whop"@))
    &&& is_separator(m.entries@[1])
    &&& is_standard(m.entries@[2], StandardItem::Hide, Some("Hide Whop"@))
    &&& is_standard(m.entries@[3], StandardItem::HideOthers, Some("Hide Others"@))
    &&& is_standard(m.entries@[4], StandardItem::ShowAll, None)
    &&& is_separator(m.entries@[5])
    &&& is_standard(m.entries@[6], StandardItem::Quit, Some("Quit Whop"@))
}

/// The File menu: reveal the last download, open the Downloads folder.
pub open spec fn is_file_submenu(m: Submenu) -> bool {
    &&& m.title@ == "File"@
    &&& m.entries@.len() == 2
    &&& is_custom(
        m.entries@[0],
        MenuCommand::RevealDownload,
        "Reveal Last Download in Finder"@,
        Some("CmdOrCtrl+Shift+J"@),
    )
    &&& is_custom(m.entries@[1], MenuCommand::OpenDownloads, "Open Downloads Folder"@, None)
}

/// The Edit menu: the system's undo, redo, cut, copy, paste and select all.
pub open spec fn is_edit_submenu(m: Submenu) -> bool {
    &&& m.title@ == "Edit"@
    &&& m.entries@.len() == 7
    &&& is_standard(m.entries@[0], StandardItem::Undo, None)
    &&& is_standard(m.entries@[1], StandardItem::Redo, None)
    &&& is_separator(m.entries@[2])
    &&& is_standard(m.entries@[3], StandardItem::Cut, None)
    &&& is_standard(m.entries@[4], StandardItem::Copy, None)
    &&& is_standard(m.entries@[5], StandardItem::Paste, None)
    &&& is_standard(m.entries@[6], StandardItem::SelectAll, None)
}

/// The View menu: history, reload, zoom and full screen, and in debug builds
/// the Web Inspector after a last separator.
pub open spec fn is_view_submenu(m: Submenu, debug: bool) -> bool {
    &&& m.title@ == "View"@
    &&& m.entries@.len() == if debug { 12int } else { 10int }
    &&& is_custom(m.entries@[0], MenuCommand::Back, "Back"@, Some("CmdOrCtrl+["@))
    &&& is_custom(m.entries@[1], MenuCommand::Forward, "Forward"@, Some("CmdOrCtrl+]"@))
    &&& is_custom(m.entries@[2], MenuCommand::Reload, "Reload"@, Some("CmdOrCtrl+R"@))
    &&& is_custom(m.entries@[3], MenuCommand::ForceReload, "Force Reload"@, Some("CmdOrCtrl+Shift+R"@))
    &&& is_separator(m.entries@[4])
    &&& is_custom(m.entries@[5], MenuCommand::ActualSize, "Actual Size"@, Some("CmdOrCtrl+0"@))
    &&& is_custom(m.entries@[6], MenuCommand::ZoomIn, "Zoom In"@, Some("CmdOrCtrl+Plus"@))
    &&& is_custom(m.entries@[7], MenuCommand::ZoomOut, "Zoom Out"@, Some("CmdOrCtrl+-"@))
    &&& is_separator(m.entries@[8])
    &&& is_standard(m.entries@[9], StandardItem::Fullscreen, None)
    &&& debug ==> is_separator(m.entries@[10])
    &&& debug ==> is_custom(
        m.entries@[11],
        MenuCommand::Inspector,
        "Open Web Inspector"@,
        Some("CmdOrCtrl+Alt+I"@),
    )
}

fn standard(item: StandardItem, label: Option<&str>) -> (res: MenuEntry)
    ensures
        is_standard(res, item, text_view(label)),
{
    match label {
        Some(l) => MenuEntry::Standard(item, Some(l.to_string())),
        None => MenuEntry::Standard(item, None),
    }
}

fn custom(command: MenuCommand, label: &str, accel: Option<&str>) -> (res: MenuEntry)
    ensures
        is_custom(res, command, label@, text_view(accel)),
{
    let accelerator = match accel {
        Some(a) => Some(a.to_string()),
        None => None,
    };
    MenuEntry::Custom(CustomItem { command, label: label.to_string(), accelerator })
}

fn app_submenu() -> (res: Submenu)
    ensures
        is_app_submenu(res),
{
    let mut entries: Vec<MenuEntry> = Vec::new();
    entries.push(standard(StandardItem::About, Some("About Whop")));
    entries.push(MenuEntry::Separator);
    entries.push(standard(StandardItem::Hide, Some("Hide Whop")));
    entries.push(standard(StandardItem::HideOthers, Some("Hide Others")));
    entries.push(standard(StandardItem::ShowAll, None));
    entries.push(MenuEntry::Separator);
    entries.push(standard(StandardItem::Quit, Some("Quit Whop")));
    Submenu { title: "Whop".to_string(), entries }
}

fn file_submenu() -> (res: Submenu)
    ensures
        is_file_submenu(res),
{
    let mut entries: Vec<MenuEntry> = Vec::new();
    entries.push(
        custom(MenuCommand::RevealDownload, "Reveal Last Download in Finder", Some("CmdOrCtrl+Shift+J")),
    );
    entries.push(custom(MenuCommand::OpenDownloads, "Open Downloads Folder", None));
    Submenu { title: "File".to_string(), entries }
}

fn edit_submenu() -> (res: Submenu)
    ensures
        is_edit_submenu(res),
{
    let mut entries: Vec<MenuEntry> = Vec::new();
    entries.push(standard(StandardItem::Undo, None));
    entries.push(standard(StandardItem::Redo, None));
    entries.push(MenuEntry::Separator);
    entries.push(standard(StandardItem::Cut, None));
    entries.push(standard(StandardItem::Copy, None));
    entries.push(standard(StandardItem::Paste, None));
    entries.push(standard(StandardItem::SelectAll, None));
    Submenu { title: "Edit".to_string(), entries }
}

fn view_submenu(debug: bool) -> (res: Submenu)
    ensures
        is_view_submenu(res, debug),
{
    let mut entries: Vec<MenuEntry> = Vec::new();
    entries.push(custom(MenuCommand::Back, "Back", Some("CmdOrCtrl+[")));
    entries.push(custom(MenuCommand::Forward, "Forward", Some("CmdOrCtrl+]")));
    entries.push(custom(MenuCommand::Reload, "Reload", Some("CmdOrCtrl+R")));
    entries.push(custom(MenuCommand::ForceReload, "Force Reload", Some("CmdOrCtrl+Shift+R")));
    entries.push(MenuEntry::Separator);
    entries.push(custom(MenuCommand::ActualSize, "Actual Size", Some("CmdOrCtrl+0")));
    entries.push(custom(MenuCommand::ZoomIn, "Zoom In", Some("CmdOrCtrl+Plus")));
    entries.push(custom(MenuCommand::ZoomOut, "Zoom Out", Some("CmdOrCtrl+-")));
    entries.push(MenuEntry::Separator);
    entries.push(standard(StandardItem::Fullscreen, None));
    if debug {
        entries.push(MenuEntry::Separator);
        entries.push(custom(MenuCommand::Inspector, "Open Web Inspector", Some("CmdOrCtrl+Alt+I")));
    }
    Submenu { title: "View".to_string(), entries }
}

/// What the About panel shows: the application's name, its version and a
/// line saying what it is.
pub struct AboutInfo {
    pub name: String,
    pub version: String,
    pub comments: String,
}

/// The About panel: name `Whop`, version `0.1.0` (this package's version),
/// and a comment line saying the wrapper is unofficial and not affiliated
/// with Whop.
pub fn about_info() -> (res: AboutInfo)
    ensures
        res.name@ == "Whop"@,
        res.version@ == "0.1.0"@,
        res.comments@ == "Unofficial personal-use desktop wrapper for whop.com. Not affiliated with Whop."@,
{
    AboutInfo {
        name: "Whop".to_string(),
        version: "0.1.0".to_string(),
        comments: "Unofficial personal-use desktop wrapper for whop.com. Not affiliated with Whop.".to_string(),
    }
}

/// The menu bar, left to right: the application menu, File, Edit and View.
/// The Web Inspector item exists only in debug builds.
pub fn menu_layout(debug: bool) -> (res: Vec<Submenu>)
    ensures
        is_menu_bar(res@, debug),
{
    let mut bar: Vec<Submenu> = Vec::new();
    bar.push(app_submenu());
    bar.push(file_submenu());
    bar.push(edit_submenu());
    bar.push(view_submenu(debug));
    bar
}


/// Every command's id routes back to that command, the Web Inspector's only
/// in debug builds; and an id routes to a command only if it is that
/// command's id.
pub proof fn lemma_command_ids_round_trip(c: MenuCommand, id: Seq<char>, debug: bool)
    ensures
        c != MenuCommand::Inspector || debug ==> command_for(command_id(c), debug) == Some(c),
        !debug ==> command_for(command_id(MenuCommand::Inspector), debug) is None,
        command_for(id, debug) == Some(c) ==> id == command_id(c),
{
    reveal_strlit("back");
    reveal_strlit("forward");
    reveal_strlit("reload");
    reveal_strlit("force_reload");
    reveal_strlit("actual_size");
    reveal_strlit("zoom_in");
    reveal_strlit("zoom_out");
    reveal_strlit("reveal_download");
    reveal_strlit("open_downloads");
    reveal_strlit("inspector");
    assert("back"@ =~= seq!['b', 'a', 'c', 'k']);
    assert("forward"@ =~= seq!['f', 'o', 'r', 'w', 'a', 'r', 'd']);
    assert("reload"@ =~= seq!['r', 'e', 'l', 'o', 'a', 'd']);
    assert("force_reload"@ =~= seq!['f', 'o', 'r', 'c', 'e', '_', 'r', 'e', 'l', 'o', 'a', 'd']);
    assert("actual_size"@ =~= seq!['a', 'c', 't', 'u', 'a', 'l', '_', 's', 'i', 'z', 'e']);
    assert("zoom_in"@ =~= seq!['z', 'o', 'o', 'm', '_', 'i', 'n']);
    assert("zoom_out"@ =~= seq!['z', 'o', 'o', 'm', '_', 'o', 'u', 't']);
    assert("reveal_download"@ =~= seq!['r', 'e', 'v', 'e', 'a', 'l', '_', 'd', 'o', 'w', 'n', 'l', 'o', 'a', 'd']);
    assert("open_downloads"@ =~= seq!['o', 'p', 'e', 'n', '_', 'd', 'o', 'w', 'n', 'l', 'o', 'a', 'd', 's']);
    assert("inspector"@ =~= seq!['i', 'n', 's', 'p', 'e', 'c', 't', 'o', 'r']);
}

/// The menu bar that `menu_layout(debug)` describes.
pub open spec fn is_menu_bar(bar: Seq<Submenu>, debug: bool) -> bool {
    &&& bar.len() == 4
    &&& is_app_submenu(bar[0])
    &&& is_file_submenu(bar[1])
    &&& is_edit_submenu(bar[2])
    &&& is_view_submenu(bar[3], debug)
}

/// Every custom item of the menu bar carries an id that `menu_command`, in
/// the same kind of build, routes back to that item's command: no custom item
/// is dead.
pub proof fn lemma_menu_items_route(bar: Seq<Submenu>, debug: bool, i: int, j: int)
    requires
        is_menu_bar(bar, debug),
        0 <= i < bar.len(),
        0 <= j < bar[i].entries@.len(),
    ensures
        match bar[i].entries@[j] {
            MenuEntry::Custom(item) => command_for(command_id(item.command), debug) == Some(item.command),
            _ => true,
        },
{
    match bar[i].entries@[j] {
        MenuEntry::Custom(item) => {
            if item.command == MenuCommand::Inspector {
                assert(i == 3 && j == 11);
            }
            lemma_command_ids_round_trip(item.command, command_id(item.command), debug);
        },
        _ => {},
    }
}

/// The label that names each command in the menu.
pub open spec fn command_label(c: MenuCommand) -> Seq<char> {
    match c {
        MenuCommand::Back => "Back"@,
        MenuCommand::Forward => "Forward"@,
        MenuCommand::Reload => "Reload"@,
        MenuCommand::ForceReload => "Force Reload"@,
        MenuCommand::ActualSize => "Actual Size"@,
        MenuCommand::ZoomIn => "Zoom In"@,
        MenuCommand::ZoomOut => "Zoom Out"@,
        MenuCommand::RevealDownload => "Reveal Last Download in Finder"@,
        MenuCommand::OpenDownloads => "Open Downloads Folder"@,
        MenuCommand::Inspector => "Open Web Inspector"@,
    }
}

/// The keyboard accelerator of each command, if it has one.
pub open spec fn command_accelerator(c: MenuCommand) -> Option<Seq<char>> {
    match c {
        MenuCommand::Back => Some("CmdOrCtrl+["@),
        MenuCommand::Forward => Some("CmdOrCtrl+]"@),
        MenuCommand::Reload => Some("CmdOrCtrl+R"@),
        MenuCommand::ForceReload => Some("CmdOrCtrl+Shift+R"@),
        MenuCommand::ActualSize => Some("CmdOrCtrl+0"@),
        MenuCommand::ZoomIn => Some("CmdOrCtrl+Plus"@),
        MenuCommand::ZoomOut => Some("CmdOrCtrl+-"@),
        MenuCommand::RevealDownload => Some("CmdOrCtrl+Shift+J"@),
        MenuCommand::OpenDownloads => None,
        MenuCommand::Inspector => Some("CmdOrCtrl+Alt+I"@),
    }
}

/// Every custom item of the menu bar carries the command that its label
/// names, with that command's accelerator: `Zoom In` (Cmd+Plus) zooms in,
/// `Zoom Out` (Cmd+-) zooms out, `Back` goes back, and so on.
pub proof fn lemma_labels_name_commands(bar: Seq<Submenu>, debug: bool, i: int, j: int)
    requires
        is_menu_bar(bar, debug),
        0 <= i < bar.len(),
        0 <= j < bar[i].entries@.len(),
    ensures
        match bar[i].entries@[j] {
            MenuEntry::Custom(item) => item.label@ == command_label(item.command) && owned_text_view(
                item.accelerator,
            ) == command_accelerator(item.command),
            _ => true,
        },
{
}

/// The standard item an entry holds, if it is one.
pub open spec fn standard_item_of(e: MenuEntry) -> Option<StandardItem> {
    match e {
        MenuEntry::Standard(item, _) => Some(item),
        _ => None,
    }
}

/// The submenu `m` holds the standard item `item`.
pub open spec fn holds_standard(m: Submenu, item: StandardItem) -> bool {
    exists|j: int| 0 <= j < m.entries@.len() && #[trigger] standard_item_of(m.entries@[j]) == Some(item)
}

/// No standard item appears twice in the menu bar, and the Edit menu holds
/// each of Undo, Redo, Cut, Copy, Paste and Select All.
pub proof fn lemma_standard_items(bar: Seq<Submenu>, debug: bool)
    requires
        is_menu_bar(bar, debug),
    ensures
        forall|i1: int, j1: int, i2: int, j2: int|
            0 <= i1 < bar.len() && 0 <= j1 < bar[i1].entries@.len() && 0 <= i2 < bar.len() && 0 <= j2
                < bar[i2].entries@.len() && #[trigger] standard_item_of(bar[i1].entries@[j1]) is Some
                && #[trigger] standard_item_of(bar[i2].entries@[j2]) == standard_item_of(
                bar[i1].entries@[j1],
            ) ==> i1 == i2 && j1 == j2,
        forall|item: StandardItem|
            (item == StandardItem::Undo || item == StandardItem::Redo || item == StandardItem::Cut
                || item == StandardItem::Copy || item == StandardItem::Paste || item
                == StandardItem::SelectAll) ==> #[trigger] holds_standard(bar[2], item),
{
    assert forall|item: StandardItem|
        (item == StandardItem::Undo || item == StandardItem::Redo || item == StandardItem::Cut
            || item == StandardItem::Copy || item == StandardItem::Paste || item
            == StandardItem::SelectAll) implies #[trigger] holds_standard(bar[2], item) by {
        let e = bar[2].entries@;
        assert(standard_item_of(e[0]) == Some(StandardItem::Undo));
        assert(standard_item_of(e[1]) == Some(StandardItem::Redo));
        assert(standard_item_of(e[3]) == Some(StandardItem::Cut));
        assert(standard_item_of(e[4]) == Some(StandardItem::Copy));
        assert(standard_item_of(e[5]) == Some(StandardItem::Paste));
        assert(standard_item_of(e[6]) == Some(StandardItem::SelectAll));
    }
}

} // verus!
