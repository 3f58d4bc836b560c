//! From a menu click to the event the front end receives.
//!
//! A click on the item with identifier `X` becomes the event `menu:X`. Only
//! the identifiers in [`event_ids`] are forwarded; a click on anything else
//! is dropped without complaint, so that menu and front end may drift apart
//! in version without a crash.

use crate::menu::{has_item, item_id, menu_model, Platform};
use crate::text::{opt_text, str_eq};
use vstd::prelude::*;

verus! {

/// The identifiers whose clicks are forwarded to the front end.
pub open spec fn event_ids() -> Set<Seq<char>> {
    set![
        "file:new"@,
        "file:open"@,
        "file:save"@,
        "file:save-as"@,
        "file:exit"@,
        "edit:find"@,
        "view:edit-mode"@,
        "view:preview-mode"@,
        "view:split-mode"@,
        "view:zoom-in"@,
        "view:zoom-out"@,
        "view:reset-zoom"@,
        "help:about"@,
        "help:docs"@,
        "help:shortcuts"@,
    ]
}

/// The name of the event for the identifier `id`: the identifier in the
/// `menu:` namespace, its own colons kept.
pub open spec fn event_name(id: Seq<char>) -> Seq<char> {
    "menu:"@ + id
}

/// The event that a click on `id` emits, if any.
pub open spec fn menu_event(id: Seq<char>) -> Option<Seq<char>> {
    if event_ids().contains(id) {
        Some(event_name(id))
    } else {
        None
    }
}

/// Decides what a click on the menu item `id` sends to the front end.
///
/// Returns the name of the one event to emit (it carries no payload), or
/// `None` when the identifier is not in the table and nothing is emitted.
pub fn handle_menu_event(id: &str) -> (event: Option<String>)
    ensures
        opt_text(event) == menu_event(id@),
{
    let known = str_eq(id, "file:new")
        || str_eq(id, "file:open")
        || str_eq(id, "file:save")
        || str_eq(id, "file:save-as")
        || str_eq(id, "file:exit")
        || str_eq(id, "edit:find")
        || str_eq(id, "view:edit-mode")
        || str_eq(id, "view:preview-mode")
        || str_eq(id, "view:split-mode")
        || str_eq(id, "view:zoom-in")
        || str_eq(id, "view:zoom-out")
        || str_eq(id, "view:reset-zoom")
        || str_eq(id, "help:about")
        || str_eq(id, "help:docs")
        || str_eq(id, "help:shortcuts");
    if known {
        let mut name = "menu:".to_owned();
        name.append(id);
        Some(name)
    } else {
        None
    }
}

/// An event name determines the identifier it was made from: two different
/// identifiers never share an event.
pub proof fn lemma_event_name_injective(a: Seq<char>, b: Seq<char>)
    requires
        event_name(a) == event_name(b),
    ensures
        a == b,
{
    reveal_strlit("menu:");
    assert(a =~= event_name(a).skip(5));
    assert(b =~= event_name(b).skip(5));
}

/// Every emitted event lies in the `menu:` namespace and carries the
/// clicked identifier behind it unchanged.
pub proof fn lemma_event_keeps_identifier(id: Seq<char>)
    requires
        menu_event(id) is Some,
    ensures
        event_ids().contains(id),
        menu_event(id)->Some_0.len() == 5 + id.len(),
        menu_event(id)->Some_0.take(5) == seq!['m', 'e', 'n', 'u', ':'],
        menu_event(id)->Some_0.skip(5) == id,
{
    reveal_strlit("menu:");
    let name = menu_event(id)->Some_0;
    assert(name.take(5) =~= seq!['m', 'e', 'n', 'u', ':']);
    assert(name.skip(5) =~= id);
}

/// The events that can reach the front end are exactly these fifteen, one
/// for each identifier of the table.
pub proof fn lemma_event_table()
    ensures
        menu_event("file:new"@) == Some("menu:file:new"@),
        menu_event("file:open"@) == Some("menu:file:open"@),
        menu_event("file:save"@) == Some("menu:file:save"@),
        menu_event("file:save-as"@) == Some("menu:file:save-as"@),
        menu_event("file:exit"@) == Some("menu:file:exit"@),
        menu_event("edit:find"@) == Some("menu:edit:find"@),
        menu_event("view:edit-mode"@) == Some("menu:view:edit-mode"@),
        menu_event("view:preview-mode"@) == Some("menu:view:preview-mode"@),
        menu_event("view:split-mode"@) == Some("menu:view:split-mode"@),
        menu_event("view:zoom-in"@) == Some("menu:view:zoom-in"@),
        menu_event("view:zoom-out"@) == Some("menu:view:zoom-out"@),
        menu_event("view:reset-zoom"@) == Some("menu:view:reset-zoom"@),
        menu_event("help:about"@) == Some("menu:help:about"@),
        menu_event("help:docs"@) == Some("menu:help:docs"@),
        menu_event("help:shortcuts"@) == Some("menu:help:shortcuts"@),
{
    reveal_strlit("menu:");
    reveal_strlit("file:new");
    reveal_strlit("menu:file:new");
    assert("menu:file:new"@ =~= event_name("file:new"@));
    reveal_strlit("file:open");
    reveal_strlit("menu:file:open");
    assert("menu:file:open"@ =~= event_name("file:open"@));
    reveal_strlit("file:save");
    reveal_strlit("menu:file:save");
    assert("menu:file:save"@ =~= event_name("file:save"@));
    reveal_strlit("file:save-as");
    reveal_strlit("menu:file:save-as");
    assert("menu:file:save-as"@ =~= event_name("file:save-as"@));
    reveal_strlit("file:exit");
    reveal_strlit("menu:file:exit");
    assert("menu:file:exit"@ =~= event_name("file:exit"@));
    reveal_strlit("edit:find");
    reveal_strlit("menu:edit:find");
    assert("menu:edit:find"@ =~= event_name("edit:find"@));
    reveal_strlit("view:edit-mode");
    reveal_strlit("menu:view:edit-mode");
    assert("menu:view:edit-mode"@ =~= event_name("view:edit-mode"@));
    reveal_strlit("view:preview-mode");
    reveal_strlit("menu:view:preview-mode");
    assert("menu:view:preview-mode"@ =~= event_name("view:preview-mode"@));
    reveal_strlit("view:split-mode");
    reveal_strlit("menu:view:split-mode");
    assert("menu:view:split-mode"@ =~= event_name("view:split-mode"@));
    reveal_strlit("view:zoom-in");
    reveal_strlit("menu:view:zoom-in");
    assert("menu:view:zoom-in"@ =~= event_name("view:zoom-in"@));
    reveal_strlit("view:zoom-out");
    reveal_strlit("menu:view:zoom-out");
    assert("menu:view:zoom-out"@ =~= event_name("view:zoom-out"@));
    reveal_strlit("view:reset-zoom");
    reveal_strlit("menu:view:reset-zoom");
    assert("menu:view:reset-zoom"@ =~= event_name("view:reset-zoom"@));
    reveal_strlit("help:about");
    reveal_strlit("menu:help:about");
    assert("menu:help:about"@ =~= event_name("help:about"@));
    reveal_strlit("help:docs");
    reveal_strlit("menu:help:docs");
    assert("menu:help:docs"@ =~= event_name("help:docs"@));
    reveal_strlit("help:shortcuts");
    reveal_strlit("menu:help:shortcuts");
    assert("menu:help:shortcuts"@ =~= event_name("help:shortcuts"@));
}

/// Off macOS, the clickable items of the menu and the forwarded identifiers
/// are the same: every item has its event, and no event lacks its item.
pub proof fn lemma_menu_items_have_events(id: Seq<char>)
    ensures
        has_item(menu_model(Platform::Other), id) <==> event_ids().contains(id),
{
    let menu = menu_model(Platform::Other);
    if has_item(menu, id) {
        let (i, j) = choose|i: int, j: int|
            0 <= i < menu.len() && 0 <= j < menu[i].entries.len() && item_id(
                #[trigger] menu[i].entries[j],
            ) == Some(id);
        assert(event_ids().contains(id));
    }
    if event_ids().contains(id) {
        assert(item_id(menu[0].entries[0]) == Some("file:new"@));
        assert(item_id(menu[0].entries[1]) == Some("file:open"@));
        assert(item_id(menu[0].entries[3]) == Some("file:save"@));
        assert(item_id(menu[0].entries[4]) == Some("file:save-as"@));
        assert(item_id(menu[0].entries[6]) == Some("file:exit"@));
        assert(item_id(menu[1].entries[8]) == Some("edit:find"@));
        assert(item_id(menu[2].entries[0]) == Some("view:edit-mode"@));
        assert(item_id(menu[2].entries[1]) == Some("view:preview-mode"@));
        assert(item_id(menu[2].entries[2]) == Some("view:split-mode"@));
        assert(item_id(menu[2].entries[4]) == Some("view:zoom-in"@));
        assert(item_id(menu[2].entries[5]) == Some("view:zoom-out"@));
        assert(item_id(menu[2].entries[6]) == Some("view:reset-zoom"@));
        assert(item_id(menu[3].entries[0]) == Some("help:about"@));
        assert(item_id(menu[3].entries[1]) == Some("help:docs"@));
        assert(item_id(menu[3].entries[3]) == Some("help:shortcuts"@));
        assert(has_item(menu, id));
    }
}

/// On macOS every clickable item of the menu has its event too, but for
/// "Preferences", whose click is dropped.
pub proof fn lemma_macos_items_have_events(id: Seq<char>)
    requires
        has_item(menu_model(Platform::MacOs), id),
    ensures
        id == "app:preferences"@ || event_ids().contains(id),
{
    let menu = menu_model(Platform::MacOs);
    let (i, j) = choose|i: int, j: int|
        0 <= i < menu.len() && 0 <= j < menu[i].entries.len() && item_id(
            #[trigger] menu[i].entries[j],
        ) == Some(id);
    assert(menu[i].entries[j] is Item);
}

} // verus!
