use medit::events::handle_menu_event;

fn event(id: &str) -> Option<String> {
    handle_menu_event(id)
}

#[test]
fn zoom_in_click_emits_its_one_event() {
    assert_eq!(event("view:zoom-in"), Some("menu:view:zoom-in".to_string()));
}

#[test]
fn file_clicks_emit_file_events() {
    assert_eq!(event("file:new"), Some("menu:file:new".to_string()));
    assert_eq!(event("file:open"), Some("menu:file:open".to_string()));
    assert_eq!(event("file:save"), Some("menu:file:save".to_string()));
    assert_eq!(event("file:save-as"), Some("menu:file:save-as".to_string()));
    assert_eq!(event("file:exit"), Some("menu:file:exit".to_string()));
}

#[test]
fn edit_click_emits_find_event() {
    assert_eq!(event("edit:find"), Some("menu:edit:find".to_string()));
}

#[test]
fn view_clicks_emit_view_events() {
    assert_eq!(event("view:edit-mode"), Some("menu:view:edit-mode".to_string()));
    assert_eq!(event("view:preview-mode"), Some("menu:view:preview-mode".to_string()));
    assert_eq!(event("view:split-mode"), Some("menu:view:split-mode".to_string()));
    assert_eq!(event("view:zoom-out"), Some("menu:view:zoom-out".to_string()));
    assert_eq!(event("view:reset-zoom"), Some("menu:view:reset-zoom".to_string()));
}

#[test]
fn help_clicks_emit_help_events() {
    assert_eq!(event("help:about"), Some("menu:help:about".to_string()));
    assert_eq!(event("help:docs"), Some("menu:help:docs".to_string()));
    assert_eq!(event("help:shortcuts"), Some("menu:help:shortcuts".to_string()));
}

#[test]
fn unknown_identifier_emits_nothing() {
    assert_eq!(event("view:zoom-sideways"), None);
    assert_eq!(event(""), None);
    assert_eq!(event("file"), None);
}

#[test]
fn preferences_click_emits_nothing() {
    assert_eq!(event("app:preferences"), None);
}

#[test]
fn quit_and_about_have_no_event_of_their_own() {
    assert_eq!(event("app:about"), None);
    assert_eq!(event("app:quit"), None);
    assert_eq!(event("quit"), None);
}

#[test]
fn identifiers_are_matched_exactly() {
    assert_eq!(event("File:New"), None);
    assert_eq!(event("file:new "), None);
    assert_eq!(event(" file:new"), None);
    assert_eq!(event("file:ne"), None);
    assert_eq!(event("file:news"), None);
    assert_eq!(event("menu:file:new"), None);
}

#[test]
fn non_ascii_identifier_emits_nothing() {
    assert_eq!(event("文件"), None);
    assert_eq!(event("file:néw"), None);
}

#[test]
fn every_event_is_the_identifier_behind_the_menu_prefix() {
    let ids = [
        "file:new",
        "file:open",
        "file:save",
        "file:save-as",
        "file:exit",
        "edit:find",
        "view:edit-mode",
        "view:preview-mode",
        "view:split-mode",
        "view:zoom-in",
        "view:zoom-out",
        "view:reset-zoom",
        "help:about",
        "help:docs",
        "help:shortcuts",
    ];
    for id in ids {
        assert_eq!(event(id), Some(format!("menu:{}", id)));
    }
}
