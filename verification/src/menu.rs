//! The tray menu model: item ids, entries, and the default menu.
//!
//! Menu-item ids form a closed set, so the dispatch over them is exhaustive;
//! a genuinely unknown external id parses to nothing and is ignored by the
//! dispatcher. Ids are unique within a menu, an invariant the tray manager
//! checks when the menu is installed.

use vstd::prelude::*;

verus! {

/// The closed set of menu-item ids this core understands.
#[derive(Clone, Copy, Debug, PartialEq, Eq, Structural)]
pub enum MenuId {
    PlayPause,
    Reset,
    Skip,
    Quit,
}

/// The stable wire id of each menu item.
pub open spec fn menu_id_name_spec(id: MenuId) -> Seq<char> {
    match id {
        MenuId::PlayPause => "play_pause"@,
        MenuId::Reset => "reset"@,
        MenuId::Skip => "skip"@,
        MenuId::Quit => "quit"@,
    }
}

/// Which menu id, if any, a raw external id string denotes.
pub open spec fn parse_menu_id_spec(s: Seq<char>) -> Option<MenuId> {
    if s == "play_pause"@ {
        Some(MenuId::PlayPause)
    } else if s == "reset"@ {
        Some(MenuId::Reset)
    } else if s == "skip"@ {
        Some(MenuId::Skip)
    } else if s == "quit"@ {
        Some(MenuId::Quit)
    } else {
        None
    }
}

impl MenuId {
    /// The id's stable wire form.
    pub fn name(&self) -> (r: String)
        ensures
            r@ == menu_id_name_spec(*self),
    {
        match self {
            MenuId::PlayPause => "play_pause".to_owned(),
            MenuId::Reset => "reset".to_owned(),
            MenuId::Skip => "skip".to_owned(),
            MenuId::Quit => "quit".to_owned(),
        }
    }
}

/// Parses a raw menu-item id as delivered by the host shell. An id outside
/// the closed set yields nothing, which the dispatcher treats as a no-op.
pub fn parse_menu_id(id: &str) -> (r: Option<MenuId>)
    ensures
        r == parse_menu_id_spec(id@),
{
    let owned = id.to_owned();
    if owned == "play_pause".to_owned() {
        Some(MenuId::PlayPause)
    } else if owned == "reset".to_owned() {
        Some(MenuId::Reset)
    } else if owned == "skip".to_owned() {
        Some(MenuId::Skip)
    } else if owned == "quit".to_owned() {
        Some(MenuId::Quit)
    } else {
        None
    }
}

/// Law: parsing an id's own wire form gives exactly that id back, so the
/// dispatcher recognizes every entry of the closed id set under the name the
/// menu registers it with.
pub proof fn lemma_menu_id_name_round_trip(id: MenuId)
    ensures
        parse_menu_id_spec(menu_id_name_spec(id)) == Some(id),
{
    reveal_strlit("play_pause");
    reveal_strlit("reset");
    reveal_strlit("skip");
    reveal_strlit("quit");
    assert("play_pause"@.index(0) == 'p');
    assert("reset"@.index(0) == 'r');
    assert("skip"@.index(0) == 's');
    assert("quit"@.index(0) == 'q');
    match id {
        MenuId::PlayPause => {
        },
        MenuId::Reset => {
            assert("reset"@ != "play_pause"@);
        },
        MenuId::Skip => {
            assert("skip"@ != "play_pause"@);
            assert("skip"@ != "reset"@);
        },
        MenuId::Quit => {
            assert("quit"@ != "play_pause"@);
            assert("quit"@ != "reset"@);
            assert("quit"@ != "skip"@);
        },
    }
}

/// One selectable entry of the tray menu. Immutable after creation: this
/// core never relabels or re-enables an item at runtime.
pub struct MenuItem {
    pub id: MenuId,
    pub label: String,
    pub enabled: bool,
}

/// One slot of the menu: a selectable item or a visual separator.
pub enum MenuEntry {
    Item(MenuItem),
    Separator,
}

/// The id carried by a menu slot, if it is a selectable item.
pub open spec fn entry_id(e: MenuEntry) -> Option<MenuId> {
    match e {
        MenuEntry::Item(it) => Some(it.id),
        MenuEntry::Separator => None,
    }
}

/// Ids are unique within a menu: no two selectable entries share one.
pub open spec fn menu_ids_unique(m: Seq<MenuEntry>) -> bool {
    forall|i: int, j: int|
        0 <= i < j < m.len() ==> !(#[trigger] entry_id(m[i]) is Some && entry_id(m[i])
            == #[trigger] entry_id(m[j]))
}

/// The id carried by a menu slot, if it is a selectable item.
pub fn entry_id_of(e: &MenuEntry) -> (r: Option<MenuId>)
    ensures
        r == entry_id(*e),
{
    match e {
        MenuEntry::Item(it) => Some(it.id),
        MenuEntry::Separator => None,
    }
}

/// Decides whether every id in the menu is unique.
pub fn check_menu_ids_unique(m: &Vec<MenuEntry>) -> (b: bool)
    ensures
        b == menu_ids_unique(m@),
{
    let n = m.len();
    let mut i: usize = 0;
    while i < n
        invariant
            n == m@.len(),
            i <= n,
            forall|p: int, q: int|
                0 <= p < q < m@.len() && p < i ==> !(#[trigger] entry_id(m@[p]) is Some
                    && entry_id(m@[p]) == #[trigger] entry_id(m@[q])),
        decreases n - i,
    {
        if let Some(id_i) = entry_id_of(&m[i]) {
            let mut j: usize = i + 1;
            while j < n
                invariant
                    n == m@.len(),
                    i < n,
                    i + 1 <= j <= n,
                    entry_id(m@[i as int]) == Some(id_i),
                    forall|q: int|
                        i < q < j ==> entry_id(m@[i as int]) != #[trigger] entry_id(m@[q]),
                decreases n - j,
            {
                if let Some(id_j) = entry_id_of(&m[j]) {
                    if id_i == id_j {
                        return false;
                    }
                }
                j += 1;
            }
        }
        i += 1;
    }
    true
}

/// The fixed menu of the tray icon, in display order: play/pause, reset,
/// skip, a separator, and quit; every item enabled.
pub open spec fn is_default_menu(m: Seq<MenuEntry>) -> bool {
    &&& m.len() == 5
    &&& m[0] matches MenuEntry::Item(it) && it.id == MenuId::PlayPause && it.label@
        == "Start/Pause"@ && it.enabled
    &&& m[1] matches MenuEntry::Item(it) && it.id == MenuId::Reset && it.label@ == "Reset"@
        && it.enabled
    &&& m[2] matches MenuEntry::Item(it) && it.id == MenuId::Skip && it.label@ == "Skip Phase"@
        && it.enabled
    &&& m[3] is Separator
    &&& m[4] matches MenuEntry::Item(it) && it.id == MenuId::Quit && it.label@ == "Quit"@
        && it.enabled
}

/// Builds the fixed tray menu. Its ids are unique, so installing it in the
/// tray manager always succeeds.
pub fn default_menu() -> (m: Vec<MenuEntry>)
    ensures
        is_default_menu(m@),
        menu_ids_unique(m@),
{
    let mut m: Vec<MenuEntry> = Vec::new();
    m.push(MenuEntry::Item(MenuItem {
        id: MenuId::PlayPause,
        label: "Start/Pause".to_owned(),
        enabled: true,
    }));
    m.push(MenuEntry::Item(MenuItem {
        id: MenuId::Reset,
        label: "Reset".to_owned(),
        enabled: true,
    }));
    m.push(MenuEntry::Item(MenuItem {
        id: MenuId::Skip,
        label: "Skip Phase".to_owned(),
        enabled: true,
    }));
    m.push(MenuEntry::Separator);
    m.push(MenuEntry::Item(MenuItem {
        id: MenuId::Quit,
        label: "Quit".to_owned(),
        enabled: true,
    }));
    m
}

} // verus!
