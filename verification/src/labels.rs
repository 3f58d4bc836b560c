//! Replacing menu text by identifier, used when the language changes.
//!
//! The caller supplies pairs of identifier and new label. They are read as
//! a mapping: where an identifier occurs more than once, the last pair
//! counts. Every submenu and every clickable item whose identifier is in
//! the mapping takes the new label; everything else stays as it was.

use crate::menu::{EntryModel, Menu, MenuEntry, Submenu, SubmenuModel};
use crate::text::str_eq;
use vstd::prelude::*;

verus! {

/// The mapping that a list of (identifier, label) pairs stands for.
pub open spec fn label_map(pairs: Seq<(String, String)>) -> Map<Seq<char>, Seq<char>>
    decreases pairs.len(),
{
    if pairs.len() == 0 {
        Map::empty()
    } else {
        label_map(pairs.drop_last()).insert(pairs.last().0@, pairs.last().1@)
    }
}

/// The label shown for `id` once `labels` has been applied to `label`.
pub open spec fn relabeled(
    label: Seq<char>,
    id: Seq<char>,
    labels: Map<Seq<char>, Seq<char>>,
) -> Seq<char> {
    if labels.contains_key(id) {
        labels[id]
    } else {
        label
    }
}

/// An entry after relabeling: only the label of a clickable item can change.
pub open spec fn relabel_entry(entry: EntryModel, labels: Map<Seq<char>, Seq<char>>) -> EntryModel {
    match entry {
        EntryModel::Item { id, label, accelerator } => EntryModel::Item {
            id,
            label: relabeled(label, id, labels),
            accelerator,
        },
        EntryModel::Predefined(kind) => EntryModel::Predefined(kind),
    }
}

/// A submenu after relabeling: its own label and those of its entries.
pub open spec fn relabel_submenu(
    submenu: SubmenuModel,
    labels: Map<Seq<char>, Seq<char>>,
) -> SubmenuModel {
    SubmenuModel {
        id: submenu.id,
        label: relabeled(submenu.label, submenu.id, labels),
        entries: submenu.entries.map_values(|e: EntryModel| relabel_entry(e, labels)),
    }
}

/// The whole menu after relabeling.
pub open spec fn relabel_menu(
    menu: Seq<SubmenuModel>,
    labels: Map<Seq<char>, Seq<char>>,
) -> Seq<SubmenuModel> {
    menu.map_values(|s: SubmenuModel| relabel_submenu(s, labels))
}

/// Looks `id` up in the mapping that `labels` stands for.
pub fn find_label<'a>(labels: &'a Vec<(String, String)>, id: &str) -> (found: Option<&'a String>)
    ensures
        match found {
            Some(text) => label_map(labels@).contains_key(id@) && label_map(labels@)[id@]
                == text@,
            None => !label_map(labels@).contains_key(id@),
        },
{
    let mut found: Option<&'a String> = None;
    let mut i: usize = 0;
    while i < labels.len()
        invariant
            i <= labels.len(),
            match found {
                Some(text) => label_map(labels@.take(i as int)).contains_key(id@) && label_map(
                    labels@.take(i as int),
                )[id@] == text@,
                None => !label_map(labels@.take(i as int)).contains_key(id@),
            },
        decreases labels.len() - i,
    {
        proof {
            assert(labels@.take(i + 1).drop_last() =~= labels@.take(i as int));
        }
        if str_eq(labels[i].0.as_str(), id) {
            found = Some(&labels[i].1);
        }
        i = i + 1;
    }
    proof {
        assert(labels@.take(i as int) =~= labels@);
    }
    found
}

fn relabel_entry_in_place(entry: &mut MenuEntry, labels: &Vec<(String, String)>)
    ensures
        final(entry)@ == relabel_entry(old(entry)@, label_map(labels@)),
{
    match entry {
        MenuEntry::Item { id, label, accelerator } => {
            match find_label(labels, id.as_str()) {
                Some(text) => {
                    *label = text.clone();
                },
                None => {},
            }
        },
        MenuEntry::Predefined(_) => {},
    }
}

fn relabel_submenu_in_place(submenu: &mut Submenu, labels: &Vec<(String, String)>)
    ensures
        final(submenu)@ == relabel_submenu(old(submenu)@, label_map(labels@)),
{
    match find_label(labels, submenu.id.as_str()) {
        Some(text) => {
            submenu.label = text.clone();
        },
        None => {},
    }
    let mut j: usize = 0;
    while j < submenu.entries.len()
        invariant
            j <= submenu.entries.len(),
            submenu.id@ == old(submenu).id@,
            submenu.label@ == relabeled(old(submenu).label@, old(submenu).id@, label_map(labels@)),
            submenu.entries.len() == old(submenu).entries.len(),
            forall|k: int|
                0 <= k < j ==> (#[trigger] submenu.entries[k])@ == relabel_entry(
                    old(submenu).entries[k]@,
                    label_map(labels@),
                ),
            forall|k: int|
                j <= k < submenu.entries.len() ==> #[trigger] submenu.entries[k] == old(
                    submenu,
                ).entries[k],
        decreases submenu.entries.len() - j,
    {
        relabel_entry_in_place(&mut submenu.entries[j], labels);
        j = j + 1;
    }
    assert(submenu@.entries =~= relabel_submenu(old(submenu)@, label_map(labels@)).entries);
}

/// Applies `labels` to the menu held in `menu`.
///
/// With a menu in place, every submenu and clickable item whose identifier
/// is in the mapping takes its new label, nothing else changes, and the
/// call succeeds. Identifiers that the menu does not hold are ignored.
/// Without a menu there is nothing to relabel and the call fails with
/// "No menu found".
pub fn update_menu_labels(
    menu: &mut Option<Menu>,
    labels: &Vec<(String, String)>,
) -> (outcome: Result<(), String>)
    ensures
        match *old(menu) {
            Some(before) => outcome is Ok && match *final(menu) {
                Some(after) => after@ == relabel_menu(before@, label_map(labels@)),
                None => false,
            },
            None => *final(menu) is None && match outcome {
                Ok(_) => false,
                Err(message) => message@ == "No menu found"@,
            },
        },
{
    match menu {
        None => Err("No menu found".to_owned()),
        Some(current) => {
            let ghost before = *current;
            let mut i: usize = 0;
            while i < current.submenus.len()
                invariant
                    i <= current.submenus.len(),
                    current.submenus.len() == before.submenus.len(),
                    forall|k: int|
                        0 <= k < i ==> (#[trigger] current.submenus[k])@ == relabel_submenu(
                            before.submenus[k]@,
                            label_map(labels@),
                        ),
                    forall|k: int|
                        i <= k < current.submenus.len() ==> #[trigger] current.submenus[k]
                            == before.submenus[k],
                decreases current.submenus.len() - i,
            {
                relabel_submenu_in_place(&mut current.submenus[i], labels);
                i = i + 1;
            }
            assert(current@ =~= relabel_menu(before@, label_map(labels@)));
            Ok(())
        },
    }
}

/// Relabeling touches labels only: the tree keeps its shape, every
/// identifier, shortcut and toolkit entry stays, and a label changes only
/// where its identifier is in the mapping, to the label given there.
pub proof fn lemma_relabel_changes_only_listed_labels(
    menu: Seq<SubmenuModel>,
    labels: Map<Seq<char>, Seq<char>>,
)
    ensures
        relabel_menu(menu, labels).len() == menu.len(),
        forall|i: int|
            #![trigger relabel_menu(menu, labels)[i]]
            0 <= i < menu.len() ==> {
                let before = menu[i];
                let after = relabel_menu(menu, labels)[i];
                &&& after.id == before.id
                &&& after.entries.len() == before.entries.len()
                &&& labels.contains_key(before.id) ==> after.label == labels[before.id]
                &&& !labels.contains_key(before.id) ==> after.label == before.label
            },
        forall|i: int, j: int|
            #![trigger relabel_menu(menu, labels)[i].entries[j]]
            0 <= i < menu.len() && 0 <= j < menu[i].entries.len() ==> {
                let after = relabel_menu(menu, labels)[i].entries[j];
                match menu[i].entries[j] {
                    EntryModel::Item { id, label, accelerator } => after == (EntryModel::Item {
                        id,
                        label: if labels.contains_key(id) {
                            labels[id]
                        } else {
                            label
                        },
                        accelerator,
                    }),
                    EntryModel::Predefined(kind) => after == EntryModel::Predefined(kind),
                }
            },
{
}

/// A mapping with a single pair changes the label of what carries that
/// identifier and leaves every other label as it was.
pub proof fn lemma_single_label(menu: Seq<SubmenuModel>, pairs: Seq<(String, String)>)
    requires
        pairs.len() == 1,
    ensures
        label_map(pairs) == Map::<Seq<char>, Seq<char>>::empty().insert(pairs[0].0@, pairs[0].1@),
        forall|i: int|
            #![trigger relabel_menu(menu, label_map(pairs))[i]]
            0 <= i < menu.len() ==> relabel_menu(menu, label_map(pairs))[i].label == (if menu[i].id
                == pairs[0].0@ {
                pairs[0].1@
            } else {
                menu[i].label
            }),
        forall|i: int, j: int|
            #![trigger relabel_menu(menu, label_map(pairs))[i].entries[j]]
            0 <= i < menu.len() && 0 <= j < menu[i].entries.len() ==> (
            match menu[i].entries[j] {
                EntryModel::Item { id, label, accelerator } => relabel_menu(
                    menu,
                    label_map(pairs),
                )[i].entries[j] == (EntryModel::Item {
                    id,
                    label: if id == pairs[0].0@ {
                        pairs[0].1@
                    } else {
                        label
                    },
                    accelerator,
                }),
                EntryModel::Predefined(kind) => relabel_menu(menu, label_map(pairs))[i].entries[j]
                    == EntryModel::Predefined(kind),
            }),
{
    assert(pairs.drop_last().len() == 0);
    assert(label_map(pairs.drop_last()) == Map::<Seq<char>, Seq<char>>::empty());
    assert(label_map(pairs) =~= Map::<Seq<char>, Seq<char>>::empty().insert(
        pairs[0].0@,
        pairs[0].1@,
    ));
}

/// An empty mapping changes nothing.
pub proof fn lemma_no_labels_no_change(menu: Seq<SubmenuModel>)
    ensures
        relabel_menu(menu, label_map(Seq::empty())) == menu,
{
    let labels = label_map(Seq::<(String, String)>::empty());
    assert forall|i: int| 0 <= i < menu.len() implies #[trigger] relabel_menu(menu, labels)[i]
        == menu[i] by {
        assert(relabel_menu(menu, labels)[i].entries =~= menu[i].entries);
    }
    assert(relabel_menu(menu, labels) =~= menu);
}

/// Applying the same mapping a second time changes nothing more.
pub proof fn lemma_relabel_idempotent(menu: Seq<SubmenuModel>, labels: Map<Seq<char>, Seq<char>>)
    ensures
        relabel_menu(relabel_menu(menu, labels), labels) == relabel_menu(menu, labels),
{
    let once = relabel_menu(menu, labels);
    assert forall|i: int| 0 <= i < once.len() implies #[trigger] relabel_menu(once, labels)[i]
        == once[i] by {
        assert(relabel_menu(once, labels)[i].entries =~= once[i].entries);
    }
    assert(relabel_menu(once, labels) =~= once);
}

} // verus!
