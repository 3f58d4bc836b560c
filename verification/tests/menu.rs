use medit::events::handle_menu_event;
use medit::menu::{
    create_app_menu, create_edit_menu, create_file_menu, create_help_menu, create_menu,
    create_view_menu, Menu, MenuEntry, Platform, PredefinedItem, Submenu,
};

fn plain(id: &str, label: &str) -> MenuEntry {
    MenuEntry::Item { id: id.to_string(), label: label.to_string(), accelerator: None }
}

fn keyed(id: &str, label: &str, keys: &str) -> MenuEntry {
    MenuEntry::Item {
        id: id.to_string(),
        label: label.to_string(),
        accelerator: Some(keys.to_string()),
    }
}

fn toolkit(kind: PredefinedItem) -> MenuEntry {
    MenuEntry::Predefined(kind)
}

fn item_ids(menu: &Menu) -> Vec<String> {
    let mut ids = Vec::new();
    for submenu in &menu.submenus {
        for entry in &submenu.entries {
            if let MenuEntry::Item { id, .. } = entry {
                ids.push(id.clone());
            }
        }
    }
    ids
}

#[test]
fn file_menu_off_macos_ends_with_exit() {
    assert_eq!(
        create_file_menu(Platform::Other),
        Submenu {
            id: "file".to_string(),
            label: "文件".to_string(),
            entries: vec![
                plain("file:new", "新建"),
                keyed("file:open", "打开...", "CmdOrCtrl+O"),
                toolkit(PredefinedItem::Separator),
                keyed("file:save", "保存", "CmdOrCtrl+S"),
                keyed("file:save-as", "另存为...", "CmdOrCtrl+Shift+S"),
                toolkit(PredefinedItem::Separator),
                plain("file:exit", "退出"),
            ],
        }
    );
}

#[test]
fn file_menu_on_macos_has_no_exit() {
    let submenu = create_file_menu(Platform::MacOs);
    assert_eq!(submenu.entries.len(), 6);
    assert_eq!(submenu.entries[5], toolkit(PredefinedItem::Separator));
    assert!(!submenu.entries.contains(&plain("file:exit", "退出")));
    let other = create_file_menu(Platform::Other);
    assert_eq!(submenu.entries[..], other.entries[..6]);
}

#[test]
fn edit_menu_holds_toolkit_entries_then_find() {
    assert_eq!(
        create_edit_menu(),
        Submenu {
            id: "edit".to_string(),
            label: "编辑".to_string(),
            entries: vec![
                toolkit(PredefinedItem::Undo),
                toolkit(PredefinedItem::Redo),
                toolkit(PredefinedItem::Separator),
                toolkit(PredefinedItem::Cut),
                toolkit(PredefinedItem::Copy),
                toolkit(PredefinedItem::Paste),
                toolkit(PredefinedItem::SelectAll),
                toolkit(PredefinedItem::Separator),
                keyed("edit:find", "查找...", "CmdOrCtrl+F"),
            ],
        }
    );
}

#[test]
fn view_menu_holds_modes_then_zoom() {
    assert_eq!(
        create_view_menu(),
        Submenu {
            id: "view".to_string(),
            label: "视图".to_string(),
            entries: vec![
                keyed("view:edit-mode", "编辑模式", "CmdOrCtrl+Shift+E"),
                keyed("view:preview-mode", "预览模式", "CmdOrCtrl+Shift+P"),
                keyed("view:split-mode", "分屏模式", "CmdOrCtrl+Shift+L"),
                toolkit(PredefinedItem::Separator),
                keyed("view:zoom-in", "放大", "CmdOrCtrl+Plus"),
                keyed("view:zoom-out", "缩小", "CmdOrCtrl+-"),
                keyed("view:reset-zoom", "重置缩放", "CmdOrCtrl+0"),
            ],
        }
    );
}

#[test]
fn help_menu_off_macos_starts_with_about() {
    assert_eq!(
        create_help_menu(Platform::Other),
        Submenu {
            id: "help".to_string(),
            label: "帮助".to_string(),
            entries: vec![
                plain("help:about", "关于 Medit"),
                plain("help:docs", "文档"),
                toolkit(PredefinedItem::Separator),
                keyed("help:shortcuts", "快捷键参考", "CmdOrCtrl+?"),
            ],
        }
    );
}

#[test]
fn help_menu_on_macos_has_no_about() {
    assert_eq!(
        create_help_menu(Platform::MacOs).entries,
        vec![
            plain("help:docs", "文档"),
            toolkit(PredefinedItem::Separator),
            keyed("help:shortcuts", "快捷键参考", "CmdOrCtrl+?"),
        ]
    );
}

#[test]
fn application_menu_takes_about_hiding_and_quit_from_the_toolkit() {
    assert_eq!(
        create_app_menu(),
        Submenu {
            id: "app".to_string(),
            label: "Medit".to_string(),
            entries: vec![
                toolkit(PredefinedItem::About),
                toolkit(PredefinedItem::Separator),
                keyed("app:preferences", "偏好设置...", "Cmd+,"),
                toolkit(PredefinedItem::Separator),
                toolkit(PredefinedItem::Hide),
                toolkit(PredefinedItem::HideOthers),
                toolkit(PredefinedItem::ShowAll),
                toolkit(PredefinedItem::Separator),
                toolkit(PredefinedItem::Quit),
            ],
        }
    );
}

#[test]
fn menu_off_macos_is_file_edit_view_help() {
    let menu = create_menu(Platform::Other);
    assert_eq!(
        menu.submenus,
        vec![
            create_file_menu(Platform::Other),
            create_edit_menu(),
            create_view_menu(),
            create_help_menu(Platform::Other),
        ]
    );
}

#[test]
fn menu_on_macos_starts_with_the_application_menu() {
    let menu = create_menu(Platform::MacOs);
    assert_eq!(
        menu.submenus,
        vec![
            create_app_menu(),
            create_file_menu(Platform::MacOs),
            create_edit_menu(),
            create_view_menu(),
            create_help_menu(Platform::MacOs),
        ]
    );
}

#[test]
fn building_twice_gives_the_same_menu() {
    assert_eq!(create_menu(Platform::Other), create_menu(Platform::Other));
    assert_eq!(create_menu(Platform::MacOs), create_menu(Platform::MacOs));
    assert_ne!(create_menu(Platform::MacOs), create_menu(Platform::Other));
}

#[test]
fn off_macos_every_item_has_an_event_and_every_event_an_item() {
    let ids = item_ids(&create_menu(Platform::Other));
    assert_eq!(ids.len(), 15);
    for id in &ids {
        assert_eq!(handle_menu_event(id), Some(format!("menu:{}", id)));
    }
    for id in ["file:exit", "help:about", "edit:find", "view:split-mode"] {
        assert!(ids.iter().any(|known| known == id));
    }
}

#[test]
fn on_macos_only_preferences_lacks_an_event() {
    let ids = item_ids(&create_menu(Platform::MacOs));
    assert_eq!(ids.len(), 14);
    for id in ids {
        let event = handle_menu_event(&id);
        if id == "app:preferences" {
            assert_eq!(event, None);
        } else {
            assert_eq!(event, Some(format!("menu:{}", id)));
        }
    }
}

#[test]
fn quit_and_about_are_never_items_of_the_editor() {
    for platform in [Platform::MacOs, Platform::Other] {
        let ids = item_ids(&create_menu(platform));
        assert!(!ids.iter().any(|id| id == "app:quit" || id == "app:about"));
    }
    let entries = create_app_menu().entries;
    assert_eq!(entries[0], toolkit(PredefinedItem::About));
    assert_eq!(entries[8], toolkit(PredefinedItem::Quit));
}

#[test]
fn item_identifiers_are_unique() {
    for platform in [Platform::MacOs, Platform::Other] {
        let mut ids = item_ids(&create_menu(platform));
        let count = ids.len();
        ids.sort();
        ids.dedup();
        assert_eq!(ids.len(), count);
    }
}
