//! The two menu trees of the shell, as plain descriptions that the host turns
//! into live menus.
//!
//! A tree is fixed when it is built: the identifiers, labels, accelerators and
//! first checkmarks never change afterwards, and nothing is ever added to a
//! live menu.

use crate::identifier::MenuIdentifier;
use vstd::prelude::*;

verus! {

/// An entry whose behaviour the platform supplies.
#[derive(Clone, Copy, Debug, PartialEq, Eq, Structural)]
pub enum PredefinedItem {
    Separator,
    Undo,
    Redo,
    Cut,
    Copy,
    Paste,
    SelectAll,
    Minimize,
    CloseWindow,
}

/// One entry of a menu tree.
#[derive(Debug)]
#[allow(inconsistent_fields)]
pub enum MenuEntry {
    /// A plain entry that reports its identifier when activated.
    Item {
        id: MenuIdentifier,
        label: &'static str,
        enabled: bool,
        accelerator: Option<&'static str>,
    },
    /// An entry with a checkmark; `checked` is the checkmark it starts with.
    Check { id: MenuIdentifier, label: &'static str, enabled: bool, checked: bool },
    /// An entry of the platform, with the label to show in place of the
    /// platform's own.
    Predefined { item: PredefinedItem, label: Option<&'static str> },
    /// A group of entries under a label.
    Submenu { label: &'static str, enabled: bool, entries: Vec<MenuEntry> },
}

/// What a menu entry is, with its texts as character sequences and its
/// children as a sequence.
#[allow(inconsistent_fields)]
pub enum MenuShape {
    Item { id: MenuIdentifier, label: Seq<char>, enabled: bool, accelerator: Option<Seq<char>> },
    Check { id: MenuIdentifier, label: Seq<char>, enabled: bool, checked: bool },
    Predefined { item: PredefinedItem, label: Option<Seq<char>> },
    Submenu { label: Seq<char>, enabled: bool, entries: Seq<MenuShape> },
}

/// The characters of an optional text.
pub open spec fn text_of(text: Option<&'static str>) -> Option<Seq<char>> {
    match text {
        Some(t) => Some(t@),
        None => None,
    }
}

impl MenuEntry {
    /// What this entry is.
    pub open spec fn shape(self) -> MenuShape
        decreases self,
    {
        match self {
            MenuEntry::Item { id, label, enabled, accelerator } => MenuShape::Item {
                id,
                label: label@,
                enabled,
                accelerator: text_of(accelerator),
            },
            MenuEntry::Check { id, label, enabled, checked } => MenuShape::Check {
                id,
                label: label@,
                enabled,
                checked,
            },
            MenuEntry::Predefined { item, label } => MenuShape::Predefined {
                item,
                label: text_of(label),
            },
            MenuEntry::Submenu { label, enabled, entries } => MenuShape::Submenu {
                label: label@,
                enabled,
                entries: shapes_upto(entries@, entries@.len()),
            },
        }
    }
}

/// What the first `count` of `entries` are.
pub open spec fn shapes_upto(entries: Seq<MenuEntry>, count: nat) -> Seq<MenuShape>
    decreases entries, count,
{
    if count == 0 || count > entries.len() {
        Seq::empty()
    } else {
        shapes_upto(entries, (count - 1) as nat).push(entries[count - 1].shape())
    }
}

/// What a list of entries is.
pub open spec fn shapes(entries: Seq<MenuEntry>) -> Seq<MenuShape> {
    shapes_upto(entries, entries.len())
}

impl MenuShape {
    /// The identifiers that this entry wires, in the order of the tree.
    pub open spec fn wired(self) -> Seq<MenuIdentifier>
        decreases self,
    {
        match self {
            MenuShape::Item { id, .. } => seq![id],
            MenuShape::Check { id, .. } => seq![id],
            MenuShape::Predefined { .. } => Seq::empty(),
            MenuShape::Submenu { entries, .. } => wired_upto(entries, entries.len()),
        }
    }

    /// The checkable entries in this entry, each with the checkmark it starts
    /// with, in the order of the tree.
    pub open spec fn checkmarks(self) -> Seq<(MenuIdentifier, bool)>
        decreases self,
    {
        match self {
            MenuShape::Check { id, checked, .. } => seq![(id, checked)],
            MenuShape::Submenu { entries, .. } => checkmarks_upto(entries, entries.len()),
            _ => Seq::empty(),
        }
    }
}

/// The identifiers that the first `count` of `entries` wire.
pub open spec fn wired_upto(entries: Seq<MenuShape>, count: nat) -> Seq<MenuIdentifier>
    decreases entries, count,
{
    if count == 0 || count > entries.len() {
        Seq::empty()
    } else {
        wired_upto(entries, (count - 1) as nat) + entries[count - 1].wired()
    }
}

/// The identifiers that a menu wires, in the order of the tree.
pub open spec fn wired(entries: Seq<MenuShape>) -> Seq<MenuIdentifier> {
    wired_upto(entries, entries.len())
}

/// The checkable entries among the first `count` of `entries`.
pub open spec fn checkmarks_upto(entries: Seq<MenuShape>, count: nat) -> Seq<
    (MenuIdentifier, bool),
>
    decreases entries, count,
{
    if count == 0 || count > entries.len() {
        Seq::empty()
    } else {
        checkmarks_upto(entries, (count - 1) as nat) + entries[count - 1].checkmarks()
    }
}

/// The checkable entries of a menu, each with the checkmark it starts with,
/// in the order of the tree.
pub open spec fn checkmarks(entries: Seq<MenuShape>) -> Seq<(MenuIdentifier, bool)> {
    checkmarks_upto(entries, entries.len())
}

/// The first entries of a list are what they are, whatever follows them.
pub proof fn lemma_shapes_upto_prefix(entries: Seq<MenuEntry>, more: Seq<MenuEntry>, count: nat)
    requires
        count <= entries.len(),
    ensures
        shapes_upto(entries + more, count) == shapes_upto(entries, count),
        shapes_upto(entries, count).len() == count,
        forall|k: int| 0 <= k < count ==> shapes_upto(entries, count)[k] == entries[k].shape(),
    decreases count,
{
    if count > 0 {
        lemma_shapes_upto_prefix(entries, more, (count - 1) as nat);
        assert((entries + more)[count - 1] == entries[count - 1]);
    }
}

/// A list is, entry by entry, what its entries are.
pub proof fn lemma_shapes_index(entries: Seq<MenuEntry>)
    ensures
        shapes(entries).len() == entries.len(),
        forall|k: int| 0 <= k < entries.len() ==> shapes(entries)[k] == entries[k].shape(),
{
    lemma_shapes_upto_prefix(entries, Seq::empty(), entries.len());
}

/// What a list with one more entry at its end is.
pub proof fn lemma_shapes_push(entries: Seq<MenuEntry>, last: MenuEntry)
    ensures
        shapes(entries.push(last)) == shapes(entries).push(last.shape()),
{
    lemma_shapes_upto_prefix(entries, seq![last], entries.len());
    assert(entries + seq![last] =~= entries.push(last));
}

/// The identifiers that the first entries of a menu wire do not depend on
/// what follows them.
pub proof fn lemma_wired_upto_prefix(entries: Seq<MenuShape>, more: Seq<MenuShape>, count: nat)
    requires
        count <= entries.len(),
    ensures
        wired_upto(entries + more, count) == wired_upto(entries, count),
    decreases count,
{
    if count > 0 {
        lemma_wired_upto_prefix(entries, more, (count - 1) as nat);
        assert((entries + more)[count - 1] == entries[count - 1]);
    }
}

/// The identifiers that a menu with one more entry at its end wires.
pub proof fn lemma_wired_push(entries: Seq<MenuShape>, last: MenuShape)
    ensures
        wired(entries.push(last)) == wired(entries) + last.wired(),
{
    lemma_wired_upto_prefix(entries, seq![last], entries.len());
    assert(entries + seq![last] =~= entries.push(last));
}

/// The checkable entries among the first entries of a menu do not depend on
/// what follows them.
pub proof fn lemma_checkmarks_upto_prefix(
    entries: Seq<MenuShape>,
    more: Seq<MenuShape>,
    count: nat,
)
    requires
        count <= entries.len(),
    ensures
        checkmarks_upto(entries + more, count) == checkmarks_upto(entries, count),
    decreases count,
{
    if count > 0 {
        lemma_checkmarks_upto_prefix(entries, more, (count - 1) as nat);
        assert((entries + more)[count - 1] == entries[count - 1]);
    }
}

/// The checkable entries of a menu with one more entry at its end.
pub proof fn lemma_checkmarks_push(entries: Seq<MenuShape>, last: MenuShape)
    ensures
        checkmarks(entries.push(last)) == checkmarks(entries) + last.checkmarks(),
{
    lemma_checkmarks_upto_prefix(entries, seq![last], entries.len());
    assert(entries + seq![last] =~= entries.push(last));
}

/// Lists the identifiers that a menu wires, in the order of the tree.
pub fn wired_identifiers(entries: &Vec<MenuEntry>) -> (ids: Vec<MenuIdentifier>)
    ensures
        ids@ == wired(shapes(entries@)),
    decreases entries,
{
    let mut ids: Vec<MenuIdentifier> = Vec::new();
    let mut i: usize = 0;
    proof {
        lemma_shapes_index(entries@);
    }
    while i < entries.len()
        invariant
            i <= entries.len(),
            shapes(entries@).len() == entries.len(),
            forall|k: int| 0 <= k < entries.len() ==> shapes(entries@)[k] == entries@[k].shape(),
            ids@ == wired_upto(shapes(entries@), i as nat),
        decreases entries.len() - i,
    {
        match &entries[i] {
            MenuEntry::Item { id, .. } => {
                ids.push(*id);
            },
            MenuEntry::Check { id, .. } => {
                ids.push(*id);
            },
            MenuEntry::Predefined { .. } => {},
            MenuEntry::Submenu { entries: inner, .. } => {
                let mut below = wired_identifiers(inner);
                ids.append(&mut below);
            },
        }
        assert(ids@ =~= wired_upto(shapes(entries@), i as nat) + entries@[i as int].shape().wired());
        i += 1;
    }
    ids
}

/// Lists the checkable entries of a menu, each with the checkmark it starts
/// with, in the order of the tree.
pub fn initial_checkmarks(entries: &Vec<MenuEntry>) -> (marks: Vec<(MenuIdentifier, bool)>)
    ensures
        marks@ == checkmarks(shapes(entries@)),
    decreases entries,
{
    let mut marks: Vec<(MenuIdentifier, bool)> = Vec::new();
    let mut i: usize = 0;
    proof {
        lemma_shapes_index(entries@);
    }
    while i < entries.len()
        invariant
            i <= entries.len(),
            shapes(entries@).len() == entries.len(),
            forall|k: int| 0 <= k < entries.len() ==> shapes(entries@)[k] == entries@[k].shape(),
            marks@ == checkmarks_upto(shapes(entries@), i as nat),
        decreases entries.len() - i,
    {
        match &entries[i] {
            MenuEntry::Check { id, checked, .. } => {
                marks.push((*id, *checked));
            },
            MenuEntry::Submenu { entries: inner, .. } => {
                let mut below = initial_checkmarks(inner);
                marks.append(&mut below);
            },
            _ => {},
        }
        assert(marks@ =~= checkmarks_upto(shapes(entries@), i as nat)
            + entries@[i as int].shape().checkmarks());
        i += 1;
    }
    marks
}

/// A plain entry, enabled.
pub open spec fn item_shape(
    id: MenuIdentifier,
    label: Seq<char>,
    accelerator: Option<Seq<char>>,
) -> MenuShape {
    MenuShape::Item { id, label, enabled: true, accelerator }
}

/// A checkable entry, enabled.
pub open spec fn check_shape(id: MenuIdentifier, label: Seq<char>, checked: bool) -> MenuShape {
    MenuShape::Check { id, label, enabled: true, checked }
}

/// A platform entry under a label of the shell's own.
pub open spec fn predefined_shape(item: PredefinedItem, label: Seq<char>) -> MenuShape {
    MenuShape::Predefined { item, label: Some(label) }
}

/// A separator.
pub open spec fn separator_shape() -> MenuShape {
    MenuShape::Predefined { item: PredefinedItem::Separator, label: None }
}

/// A group of entries, enabled.
pub open spec fn group_shape(label: Seq<char>, entries: Seq<MenuShape>) -> MenuShape {
    MenuShape::Submenu { label, enabled: true, entries }
}

/// The theme group: three checkable entries, of which the system theme starts
/// out checked.
pub open spec fn appearance_group() -> MenuShape {
    group_shape(
        "Erscheinungsbild"@,
        seq![
            check_shape(MenuIdentifier::ThemeSystem, "System"@, true),
            check_shape(MenuIdentifier::ThemeLight, "Hell"@, false),
            check_shape(MenuIdentifier::ThemeDark, "Dunkel"@, false),
        ],
    )
}

/// The application group: about, the theme group, always-on-top (checked at
/// start) and quit.
pub open spec fn application_group() -> MenuShape {
    group_shape(
        "Voice Intelligence"@,
        seq![
            item_shape(MenuIdentifier::About, "Über Voice Intelligence"@, None),
            separator_shape(),
            appearance_group(),
            check_shape(MenuIdentifier::AlwaysOnTop, "Immer im Vordergrund"@, true),
            separator_shape(),
            item_shape(MenuIdentifier::QuitApp, "Beenden"@, Some("CmdOrCtrl+Q"@)),
        ],
    )
}

/// The edit group: the platform's editing entries.
pub open spec fn edit_group() -> MenuShape {
    group_shape(
        "Bearbeiten"@,
        seq![
            predefined_shape(PredefinedItem::Undo, "Widerrufen"@),
            predefined_shape(PredefinedItem::Redo, "Wiederholen"@),
            separator_shape(),
            predefined_shape(PredefinedItem::Cut, "Ausschneiden"@),
            predefined_shape(PredefinedItem::Copy, "Kopieren"@),
            predefined_shape(PredefinedItem::Paste, "Einfügen"@),
            predefined_shape(PredefinedItem::SelectAll, "Alles auswählen"@),
        ],
    )
}

/// The window group: minimize and close.
pub open spec fn window_group() -> MenuShape {
    group_shape(
        "Fenster"@,
        seq![
            predefined_shape(PredefinedItem::Minimize, "Minimieren"@),
            predefined_shape(PredefinedItem::CloseWindow, "Schließen"@),
        ],
    )
}

/// The menu bar: the application, edit and window groups.
pub open spec fn menu_bar_shape() -> Seq<MenuShape> {
    seq![application_group(), edit_group(), window_group()]
}

/// The context menu of the tray icon: show and quit.
pub open spec fn tray_menu_shape() -> Seq<MenuShape> {
    seq![
        item_shape(MenuIdentifier::Show, "Anzeigen"@, None),
        item_shape(MenuIdentifier::Quit, "Beenden"@, None),
    ]
}

/// Adds an entry at the end of a list.
fn append_entry(list: &mut Vec<MenuEntry>, entry: MenuEntry)
    ensures
        shapes(final(list)@) == shapes(old(list)@).push(entry.shape()),
{
    proof {
        lemma_shapes_push(list@, entry);
    }
    list.push(entry);
}

/// A plain entry, enabled.
fn item(id: MenuIdentifier, label: &'static str, accelerator: Option<&'static str>) -> (entry:
    MenuEntry)
    ensures
        entry.shape() == item_shape(id, label@, text_of(accelerator)),
{
    MenuEntry::Item { id, label, enabled: true, accelerator }
}

/// A checkable entry, enabled.
fn check(id: MenuIdentifier, label: &'static str, checked: bool) -> (entry: MenuEntry)
    ensures
        entry.shape() == check_shape(id, label@, checked),
{
    MenuEntry::Check { id, label, enabled: true, checked }
}

/// A platform entry under a label of the shell's own.
fn predefined(item: PredefinedItem, label: &'static str) -> (entry: MenuEntry)
    ensures
        entry.shape() == predefined_shape(item, label@),
{
    MenuEntry::Predefined { item, label: Some(label) }
}

/// A separator.
fn separator() -> (entry: MenuEntry)
    ensures
        entry.shape() == separator_shape(),
{
    MenuEntry::Predefined { item: PredefinedItem::Separator, label: None }
}

/// A group of entries, enabled.
fn group(label: &'static str, entries: Vec<MenuEntry>) -> (entry: MenuEntry)
    ensures
        entry.shape() == group_shape(label@, shapes(entries@)),
{
    MenuEntry::Submenu { label, enabled: true, entries }
}

/// Builds the menu bar.
pub fn menu_bar() -> (bar: Vec<MenuEntry>)
    ensures
        shapes(bar@) == menu_bar_shape(),
{
    let mut appearance: Vec<MenuEntry> = Vec::new();
    append_entry(&mut appearance, check(MenuIdentifier::ThemeSystem, "System", true));
    append_entry(&mut appearance, check(MenuIdentifier::ThemeLight, "Hell", false));
    append_entry(&mut appearance, check(MenuIdentifier::ThemeDark, "Dunkel", false));

    assert(shapes(appearance@) =~= appearance_group()->entries);

    let mut application: Vec<MenuEntry> = Vec::new();
    append_entry(&mut application, item(MenuIdentifier::About, "Über Voice Intelligence", None));
    append_entry(&mut application, separator());
    append_entry(&mut application, group("Erscheinungsbild", appearance));
    append_entry(&mut application, check(MenuIdentifier::AlwaysOnTop, "Immer im Vordergrund", true));
    append_entry(&mut application, separator());
    append_entry(&mut application, item(MenuIdentifier::QuitApp, "Beenden", Some("CmdOrCtrl+Q")));

    assert(shapes(application@) =~= application_group()->entries);

    let mut edit: Vec<MenuEntry> = Vec::new();
    append_entry(&mut edit, predefined(PredefinedItem::Undo, "Widerrufen"));
    append_entry(&mut edit, predefined(PredefinedItem::Redo, "Wiederholen"));
    append_entry(&mut edit, separator());
    append_entry(&mut edit, predefined(PredefinedItem::Cut, "Ausschneiden"));
    append_entry(&mut edit, predefined(PredefinedItem::Copy, "Kopieren"));
    append_entry(&mut edit, predefined(PredefinedItem::Paste, "Einfügen"));
    append_entry(&mut edit, predefined(PredefinedItem::SelectAll, "Alles auswählen"));

    assert(shapes(edit@) =~= edit_group()->entries);

    let mut window: Vec<MenuEntry> = Vec::new();
    append_entry(&mut window, predefined(PredefinedItem::Minimize, "Minimieren"));
    append_entry(&mut window, predefined(PredefinedItem::CloseWindow, "Schließen"));

    assert(shapes(window@) =~= window_group()->entries);

    let mut bar: Vec<MenuEntry> = Vec::new();
    append_entry(&mut bar, group("Voice Intelligence", application));
    append_entry(&mut bar, group("Bearbeiten", edit));
    append_entry(&mut bar, group("Fenster", window));
    bar
}

/// Builds the context menu of the tray icon.
pub fn tray_menu() -> (menu: Vec<MenuEntry>)
    ensures
        shapes(menu@) == tray_menu_shape(),
{
    let mut menu: Vec<MenuEntry> = Vec::new();
    append_entry(&mut menu, item(MenuIdentifier::Show, "Anzeigen", None));
    append_entry(&mut menu, item(MenuIdentifier::Quit, "Beenden", None));
    menu
}

} // verus!
