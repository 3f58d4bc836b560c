//! The application menu as plain data.
//!
//! A [`Menu`] is a list of [`Submenu`]s, each holding [`MenuEntry`]s. The
//! shell builds the native menu from this description once at startup.

use crate::text::opt_text;
use vstd::prelude::*;

verus! {

/// The platform the menu is built for.
///
/// macOS keeps "About" and "Quit" in an application menu of its own, so
/// the tree differs there.
#[derive(Clone, Copy, Debug, PartialEq, Eq)]
pub enum Platform {
    MacOs,
    Other,
}

/// An entry that the host toolkit supplies ready-made.
#[derive(Clone, Copy, Debug, PartialEq, Eq)]
pub enum PredefinedItem {
    Separator,
    Undo,
    Redo,
    Cut,
    Copy,
    Paste,
    SelectAll,
    Hide,
    HideOthers,
    ShowAll,
    About,
    Quit,
}

/// One line of a submenu.
#[derive(Debug, PartialEq, Eq)]
pub enum MenuEntry {
    /// A clickable item with a stable identifier and a display label.
    Item { id: String, label: String, accelerator: Option<String> },
    /// An item inserted verbatim from the host toolkit.
    Predefined(PredefinedItem),
}

/// A top-level menu with its entries.
#[derive(Debug, PartialEq, Eq)]
pub struct Submenu {
    pub id: String,
    pub label: String,
    pub entries: Vec<MenuEntry>,
}

/// The whole menu tree.
#[derive(Debug, PartialEq, Eq)]
pub struct Menu {
    pub submenus: Vec<Submenu>,
}

/// Mathematical model of a [`MenuEntry`].
pub enum EntryModel {
    Item { id: Seq<char>, label: Seq<char>, accelerator: Option<Seq<char>> },
    Predefined(PredefinedItem),
}

/// Mathematical model of a [`Submenu`].
pub struct SubmenuModel {
    pub id: Seq<char>,
    pub label: Seq<char>,
    pub entries: Seq<EntryModel>,
}

impl View for MenuEntry {
    type V = EntryModel;

    open spec fn view(&self) -> EntryModel {
        match *self {
            MenuEntry::Item { id, label, accelerator } => EntryModel::Item {
                id: id@,
                label: label@,
                accelerator: opt_text(accelerator),
            },
            MenuEntry::Predefined(kind) => EntryModel::Predefined(kind),
        }
    }
}

impl View for Submenu {
    type V = SubmenuModel;

    open spec fn view(&self) -> SubmenuModel {
        SubmenuModel {
            id: self.id@,
            label: self.label@,
            entries: self.entries@.map_values(|e: MenuEntry| e@),
        }
    }
}

impl View for Menu {
    type V = Seq<SubmenuModel>;

    open spec fn view(&self) -> Seq<SubmenuModel> {
        self.submenus@.map_values(|s: Submenu| s@)
    }
}

/// A clickable item without a keyboard shortcut.
pub open spec fn plain_item(id: Seq<char>, label: Seq<char>) -> EntryModel {
    EntryModel::Item { id, label, accelerator: None }
}

/// A clickable item with a keyboard shortcut.
pub open spec fn shortcut_item(id: Seq<char>, label: Seq<char>, keys: Seq<char>) -> EntryModel {
    EntryModel::Item { id, label, accelerator: Some(keys) }
}

/// A separator line.
pub open spec fn separator() -> EntryModel {
    EntryModel::Predefined(PredefinedItem::Separator)
}

/// An entry supplied by the host toolkit.
pub open spec fn predefined(kind: PredefinedItem) -> EntryModel {
    EntryModel::Predefined(kind)
}

/// The "File" menu. The explicit "Exit" entry is left out on macOS, which
/// supplies its own.
pub open spec fn file_menu_model(platform: Platform) -> SubmenuModel {
    let common = seq![
        plain_item("file:new"@, "新建"@),
        shortcut_item("file:open"@, "打开..."@, "CmdOrCtrl+O"@),
        separator(),
        shortcut_item("file:save"@, "保存"@, "CmdOrCtrl+S"@),
        shortcut_item("file:save-as"@, "另存为..."@, "CmdOrCtrl+Shift+S"@),
        separator(),
    ];
    SubmenuModel {
        id: "file"@,
        label: "文件"@,
        entries: match platform {
            Platform::MacOs => common,
            Platform::Other => common.push(plain_item("file:exit"@, "退出"@)),
        },
    }
}

/// The "Edit" menu: the toolkit's editing entries, then "Find".
pub open spec fn edit_menu_model() -> SubmenuModel {
    SubmenuModel {
        id: "edit"@,
        label: "编辑"@,
        entries: seq![
            predefined(PredefinedItem::Undo),
            predefined(PredefinedItem::Redo),
            separator(),
            predefined(PredefinedItem::Cut),
            predefined(PredefinedItem::Copy),
            predefined(PredefinedItem::Paste),
            predefined(PredefinedItem::SelectAll),
            separator(),
            shortcut_item("edit:find"@, "查找..."@, "CmdOrCtrl+F"@),
        ],
    }
}

/// The "View" menu: the three editor modes, then the zoom controls.
pub open spec fn view_menu_model() -> SubmenuModel {
    SubmenuModel {
        id: "view"@,
        label: "视图"@,
        entries: seq![
            shortcut_item("view:edit-mode"@, "编辑模式"@, "CmdOrCtrl+Shift+E"@),
            shortcut_item("view:preview-mode"@, "预览模式"@, "CmdOrCtrl+Shift+P"@),
            shortcut_item("view:split-mode"@, "分屏模式"@, "CmdOrCtrl+Shift+L"@),
            separator(),
            shortcut_item("view:zoom-in"@, "放大"@, "CmdOrCtrl+Plus"@),
            shortcut_item("view:zoom-out"@, "缩小"@, "CmdOrCtrl+-"@),
            shortcut_item("view:reset-zoom"@, "重置缩放"@, "CmdOrCtrl+0"@),
        ],
    }
}

/// The "Help" menu. "About" is left out on macOS, where it sits in the
/// application menu.
pub open spec fn help_menu_model(platform: Platform) -> SubmenuModel {
    let common = seq![
        plain_item("help:docs"@, "文档"@),
        separator(),
        shortcut_item("help:shortcuts"@, "快捷键参考"@, "CmdOrCtrl+?"@),
    ];
    SubmenuModel {
        id: "help"@,
        label: "帮助"@,
        entries: match platform {
            Platform::MacOs => common,
            Platform::Other => seq![plain_item("help:about"@, "关于 Medit"@)] + common,
        },
    }
}

/// The application menu, shown first on macOS under the application's name.
/// "About", the hiding entries and "Quit" are the toolkit's own, so that they
/// act as the platform means them to; only "Preferences" is the editor's.
pub open spec fn app_menu_model() -> SubmenuModel {
    SubmenuModel {
        id: "app"@,
        label: "Medit"@,
        entries: seq![
            predefined(PredefinedItem::About),
            separator(),
            shortcut_item("app:preferences"@, "偏好设置..."@, "Cmd+,"@),
            separator(),
            predefined(PredefinedItem::Hide),
            predefined(PredefinedItem::HideOthers),
            predefined(PredefinedItem::ShowAll),
            separator(),
            predefined(PredefinedItem::Quit),
        ],
    }
}

/// The whole tree: File, Edit, View, Help, preceded on macOS by the
/// application menu.
pub open spec fn menu_model(platform: Platform) -> Seq<SubmenuModel> {
    let common = seq![
        file_menu_model(platform),
        edit_menu_model(),
        view_menu_model(),
        help_menu_model(platform),
    ];
    match platform {
        Platform::MacOs => seq![app_menu_model()] + common,
        Platform::Other => common,
    }
}

fn new_item(id: &str, label: &str) -> (entry: MenuEntry)
    ensures
        entry@ == plain_item(id@, label@),
{
    MenuEntry::Item { id: id.to_owned(), label: label.to_owned(), accelerator: None }
}

fn new_shortcut_item(id: &str, label: &str, keys: &str) -> (entry: MenuEntry)
    ensures
        entry@ == shortcut_item(id@, label@, keys@),
{
    MenuEntry::Item {
        id: id.to_owned(),
        label: label.to_owned(),
        accelerator: Some(keys.to_owned()),
    }
}

fn new_predefined(kind: PredefinedItem) -> (entry: MenuEntry)
    ensures
        entry@ == predefined(kind),
{
    MenuEntry::Predefined(kind)
}

/// Builds the whole menu tree for `platform`.
pub fn create_menu(platform: Platform) -> (menu: Menu)
    ensures
        menu@ == menu_model(platform),
{
    let mut submenus: Vec<Submenu> = Vec::new();
    match platform {
        Platform::MacOs => {
            submenus.push(create_app_menu());
        },
        Platform::Other => {},
    }
    submenus.push(create_file_menu(platform));
    submenus.push(create_edit_menu());
    submenus.push(create_view_menu());
    submenus.push(create_help_menu(platform));
    let menu = Menu { submenus };
    assert(menu@ =~= menu_model(platform));
    menu
}

/// Builds the "File" menu.
pub fn create_file_menu(platform: Platform) -> (submenu: Submenu)
    ensures
        submenu@ == file_menu_model(platform),
{
    let mut entries: Vec<MenuEntry> = Vec::new();
    entries.push(new_item("file:new", "新建"));
    entries.push(new_shortcut_item("file:open", "打开...", "CmdOrCtrl+O"));
    entries.push(new_predefined(PredefinedItem::Separator));
    entries.push(new_shortcut_item("file:save", "保存", "CmdOrCtrl+S"));
    entries.push(new_shortcut_item("file:save-as", "另存为...", "CmdOrCtrl+Shift+S"));
    entries.push(new_predefined(PredefinedItem::Separator));
    match platform {
        Platform::MacOs => {},
        Platform::Other => {
            entries.push(new_item("file:exit", "退出"));
        },
    }
    let submenu = Submenu { id: "file".to_owned(), label: "文件".to_owned(), entries };
    assert(submenu@.entries =~= file_menu_model(platform).entries);
    submenu
}

/// Builds the "Edit" menu.
pub fn create_edit_menu() -> (submenu: Submenu)
    ensures
        submenu@ == edit_menu_model(),
{
    let mut entries: Vec<MenuEntry> = Vec::new();
    entries.push(new_predefined(PredefinedItem::Undo));
    entries.push(new_predefined(PredefinedItem::Redo));
    entries.push(new_predefined(PredefinedItem::Separator));
    entries.push(new_predefined(PredefinedItem::Cut));
    entries.push(new_predefined(PredefinedItem::Copy));
    entries.push(new_predefined(PredefinedItem::Paste));
    entries.push(new_predefined(PredefinedItem::SelectAll));
    entries.push(new_predefined(PredefinedItem::Separator));
    entries.push(new_shortcut_item("edit:find", "查找...", "CmdOrCtrl+F"));
    let submenu = Submenu { id: "edit".to_owned(), label: "编辑".to_owned(), entries };
    assert(submenu@.entries =~= edit_menu_model().entries);
    submenu
}

/// Builds the "View" menu.
pub fn create_view_menu() -> (submenu: Submenu)
    ensures
        submenu@ == view_menu_model(),
{
    let mut entries: Vec<MenuEntry> = Vec::new();
    entries.push(new_shortcut_item("view:edit-mode", "编辑模式", "CmdOrCtrl+Shift+E"));
    entries.push(new_shortcut_item("view:preview-mode", "预览模式", "CmdOrCtrl+Shift+P"));
    entries.push(new_shortcut_item("view:split-mode", "分屏模式", "CmdOrCtrl+Shift+L"));
    entries.push(new_predefined(PredefinedItem::Separator));
    entries.push(new_shortcut_item("view:zoom-in", "放大", "CmdOrCtrl+Plus"));
    entries.push(new_shortcut_item("view:zoom-out", "缩小", "CmdOrCtrl+-"));
    entries.push(new_shortcut_item("view:reset-zoom", "重置缩放", "CmdOrCtrl+0"));
    let submenu = Submenu { id: "view".to_owned(), label: "视图".to_owned(), entries };
    assert(submenu@.entries =~= view_menu_model().entries);
    submenu
}

/// Builds the "Help" menu.
pub fn create_help_menu(platform: Platform) -> (submenu: Submenu)
    ensures
        submenu@ == help_menu_model(platform),
{
    let mut entries: Vec<MenuEntry> = Vec::new();
    match platform {
        Platform::MacOs => {},
        Platform::Other => {
            entries.push(new_item("help:about", "关于 Medit"));
        },
    }
    entries.push(new_item("help:docs", "文档"));
    entries.push(new_predefined(PredefinedItem::Separator));
    entries.push(new_shortcut_item("help:shortcuts", "快捷键参考", "CmdOrCtrl+?"));
    let submenu = Submenu { id: "help".to_owned(), label: "帮助".to_owned(), entries };
    assert(submenu@.entries =~= help_menu_model(platform).entries);
    submenu
}

/// Builds the application menu that macOS shows first.
pub fn create_app_menu() -> (submenu: Submenu)
    ensures
        submenu@ == app_menu_model(),
{
    let mut entries: Vec<MenuEntry> = Vec::new();
    entries.push(new_predefined(PredefinedItem::About));
    entries.push(new_predefined(PredefinedItem::Separator));
    entries.push(new_shortcut_item("app:preferences", "偏好设置...", "Cmd+,"));
    entries.push(new_predefined(PredefinedItem::Separator));
    entries.push(new_predefined(PredefinedItem::Hide));
    entries.push(new_predefined(PredefinedItem::HideOthers));
    entries.push(new_predefined(PredefinedItem::ShowAll));
    entries.push(new_predefined(PredefinedItem::Separator));
    entries.push(new_predefined(PredefinedItem::Quit));
    let submenu = Submenu { id: "app".to_owned(), label: "Medit".to_owned(), entries };
    assert(submenu@.entries =~= app_menu_model().entries);
    submenu
}

/// Whether `id` is the identifier of a clickable item somewhere in `menu`.
pub open spec fn has_item(menu: Seq<SubmenuModel>, id: Seq<char>) -> bool {
    exists|i: int, j: int|
        0 <= i < menu.len() && 0 <= j < menu[i].entries.len() && item_id(
            #[trigger] menu[i].entries[j],
        ) == Some(id)
}

/// The identifier of a clickable item; toolkit entries have none.
pub open spec fn item_id(entry: EntryModel) -> Option<Seq<char>> {
    match entry {
        EntryModel::Item { id, .. } => Some(id),
        EntryModel::Predefined(_) => None,
    }
}

} // verus!
