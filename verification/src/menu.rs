//! The application menu: a static two-submenu tree, built once per window.
//!
//! The App submenu holds the platform About metadata entry, a separator,
//! and the hide, hide-others and quit actions, in that order. The File
//! submenu holds the Open item followed by a separator. An About menu item
//! is constructed (id `"about"`, accelerator Cmd/Ctrl+A) but deliberately
//! never attached to any submenu; the Open item (id `"open"`, accelerator
//! Cmd/Ctrl+O) is the only clickable item the tree reaches.

use vstd::prelude::*;
use vstd::string::StringExecFns;

verus! {

/// A clickable menu entry, identified by a stable string id, with a label
/// and a keyboard accelerator.
#[derive(Debug, PartialEq)]
pub struct MenuItemModel {
    pub id: String,
    pub label: String,
    pub accelerator: Option<String>,
}

/// Ghost mirror of a clickable menu entry.
#[verifier::ext_equal]
pub ghost struct SpecMenuItem {
    pub id: Seq<char>,
    pub label: Seq<char>,
    pub accelerator: Option<Seq<char>>,
}

impl View for MenuItemModel {
    type V = SpecMenuItem;

    open spec fn view(&self) -> SpecMenuItem {
        SpecMenuItem {
            id: self.id@,
            label: self.label@,
            accelerator: match self.accelerator {
                Some(a) => Some(a@),
                None => None,
            },
        }
    }
}

impl Clone for MenuItemModel {
    /// Cloning keeps the id, the label and the accelerator.
    fn clone(&self) -> (r: Self)
        ensures
            r@ == self@,
    {
        MenuItemModel {
            id: self.id.clone(),
            label: self.label.clone(),
            accelerator: match &self.accelerator {
                Some(a) => Some(a.clone()),
                None => None,
            },
        }
    }
}

/// One entry of a submenu: a clickable item, a separator, or one of the
/// predefined platform actions the shell uses.
#[derive(Debug, PartialEq)]
pub enum MenuEntry {
    Item(MenuItemModel),
    PredefinedAbout,
    Separator,
    Hide,
    HideOthers,
    Quit,
}

/// Ghost mirror of a submenu entry.
#[verifier::ext_equal]
pub ghost enum SpecMenuEntry {
    Item(SpecMenuItem),
    PredefinedAbout,
    Separator,
    Hide,
    HideOthers,
    Quit,
}

impl View for MenuEntry {
    type V = SpecMenuEntry;

    open spec fn view(&self) -> SpecMenuEntry {
        match self {
            MenuEntry::Item(it) => SpecMenuEntry::Item(it@),
            MenuEntry::PredefinedAbout => SpecMenuEntry::PredefinedAbout,
            MenuEntry::Separator => SpecMenuEntry::Separator,
            MenuEntry::Hide => SpecMenuEntry::Hide,
            MenuEntry::HideOthers => SpecMenuEntry::HideOthers,
            MenuEntry::Quit => SpecMenuEntry::Quit,
        }
    }
}

/// A labelled grouping of entries under a top-level menu label.
#[derive(Debug, PartialEq)]
pub struct SubmenuModel {
    pub label: String,
    pub entries: Vec<MenuEntry>,
}

/// Ghost mirror of a submenu.
#[verifier::ext_equal]
pub ghost struct SpecSubmenu {
    pub label: Seq<char>,
    pub entries: Seq<SpecMenuEntry>,
}

impl View for SubmenuModel {
    type V = SpecSubmenu;

    open spec fn view(&self) -> SpecSubmenu {
        SpecSubmenu {
            label: self.label@,
            entries: Seq::new(self.entries@.len(), |i: int| self.entries@[i]@),
        }
    }
}

/// The whole menu tree: a container id and the top-level submenus in order.
#[derive(Debug, PartialEq)]
pub struct MenuModel {
    pub id: String,
    pub submenus: Vec<SubmenuModel>,
}

/// Ghost mirror of the menu tree.
#[verifier::ext_equal]
pub ghost struct SpecMenu {
    pub id: Seq<char>,
    pub submenus: Seq<SpecSubmenu>,
}

impl View for MenuModel {
    type V = SpecMenu;

    open spec fn view(&self) -> SpecMenu {
        SpecMenu {
            id: self.id@,
            submenus: Seq::new(self.submenus@.len(), |i: int| self.submenus@[i]@),
        }
    }
}

/// Everything menu construction produces: the built tree and the two items
/// the shell constructs. Only the open item is attached to the tree.
#[derive(Debug, PartialEq)]
pub struct MenuSetup {
    pub menu: MenuModel,
    pub about_item: MenuItemModel,
    pub open_item: MenuItemModel,
}

/// The About item as constructed: id `"about"`, accelerator Cmd/Ctrl+A.
pub open spec fn spec_about_item() -> SpecMenuItem {
    SpecMenuItem { id: "about"@, label: "About"@, accelerator: Some("CmdOrCtrl+A"@) }
}

/// The Open item as constructed: id `"open"`, accelerator Cmd/Ctrl+O.
pub open spec fn spec_open_item() -> SpecMenuItem {
    SpecMenuItem { id: "open"@, label: "Open"@, accelerator: Some("CmdOrCtrl+O"@) }
}

/// The App submenu: About metadata, separator, hide, hide-others, quit —
/// and no clickable item.
pub open spec fn spec_app_submenu() -> SpecSubmenu {
    SpecSubmenu {
        label: "App"@,
        entries: seq![
            SpecMenuEntry::PredefinedAbout,
            SpecMenuEntry::Separator,
            SpecMenuEntry::Hide,
            SpecMenuEntry::HideOthers,
            SpecMenuEntry::Quit,
        ],
    }
}

/// The File submenu: the Open item, then a separator.
pub open spec fn spec_file_submenu() -> SpecSubmenu {
    SpecSubmenu {
        label: "File"@,
        entries: seq![SpecMenuEntry::Item(spec_open_item()), SpecMenuEntry::Separator],
    }
}

/// The full menu tree: container id `"menu"`, App submenu, File submenu.
pub open spec fn spec_menu() -> SpecMenu {
    SpecMenu { id: "menu"@, submenus: seq![spec_app_submenu(), spec_file_submenu()] }
}

/// What menu construction guarantees: the tree and both constructed items
/// are exactly the fixed ones above.
pub open spec fn menu_built(s: MenuSetup) -> bool {
    &&& s.menu@ == spec_menu()
    &&& s.about_item@ == spec_about_item()
    &&& s.open_item@ == spec_open_item()
}

/// Build one clickable entry, as the shell's item builder is invoked: a
/// label, then a stable id, then a keyboard accelerator.
pub fn build_menu_item(label: &str, id: &str, accelerator: &str) -> (r: MenuItemModel)
    ensures
        r@ == (SpecMenuItem { id: id@, label: label@, accelerator: Some(accelerator@) }),
{
    MenuItemModel {
        id: String::from_str(id),
        label: String::from_str(label),
        accelerator: Some(String::from_str(accelerator)),
    }
}

/// Construct the application menu for one window.
///
/// Both the About and the Open item are constructed, but only the Open item
/// is attached; any failure of the host framework's builders aborts setup
/// before this model is reached, so construction itself is total.
pub fn build_menu() -> (s: MenuSetup)
    ensures
        menu_built(s),
{
    let about_item = build_menu_item("About", "about", "CmdOrCtrl+A");
    let open_item = build_menu_item("Open", "open", "CmdOrCtrl+O");

    let mut app_entries: Vec<MenuEntry> = Vec::new();
    app_entries.push(MenuEntry::PredefinedAbout);
    app_entries.push(MenuEntry::Separator);
    app_entries.push(MenuEntry::Hide);
    app_entries.push(MenuEntry::HideOthers);
    app_entries.push(MenuEntry::Quit);
    let app_submenu = SubmenuModel { label: String::from_str("App"), entries: app_entries };

    let mut file_entries: Vec<MenuEntry> = Vec::new();
    file_entries.push(MenuEntry::Item(open_item.clone()));
    file_entries.push(MenuEntry::Separator);
    let file_submenu = SubmenuModel { label: String::from_str("File"), entries: file_entries };

    let mut submenus: Vec<SubmenuModel> = Vec::new();
    submenus.push(app_submenu);
    submenus.push(file_submenu);
    let menu = MenuModel { id: String::from_str("menu"), submenus };

    proof {
        assert(menu@.submenus[0] =~~= spec_app_submenu());
        assert(menu@.submenus[1] =~~= spec_file_submenu());
        assert(menu@ =~~= spec_menu());
    }

    MenuSetup { menu, about_item, open_item }
}

/// Menu construction is idempotent per window: two independently built
/// setups carry structurally identical trees, with identical ids, and
/// identical constructed items.
pub proof fn lemma_menu_idempotent(first: MenuSetup, second: MenuSetup)
    requires
        menu_built(first),
        menu_built(second),
    ensures
        first.menu@ == second.menu@,
        first.about_item@ == second.about_item@,
        first.open_item@ == second.open_item@,
{
}

/// The About item, though constructed, is unreachable from the built tree:
/// no submenu's entry list holds an item carrying the About item's id.
pub proof fn lemma_about_item_unattached(s: MenuSetup)
    requires
        menu_built(s),
    ensures
        forall|i: int, j: int|
            0 <= i < s.menu@.submenus.len() && 0 <= j < s.menu@.submenus[i].entries.len()
                ==> !((#[trigger] s.menu@.submenus[i].entries[j]) matches SpecMenuEntry::Item(it)
                    && it.id == s.about_item@.id),
{
    assert("open"@ != "about"@) by {
        reveal_strlit("open");
        reveal_strlit("about");
        assert("open"@.len() == 4);
        assert("about"@.len() == 5);
    }
    assert forall|i: int, j: int|
        0 <= i < s.menu@.submenus.len() && 0 <= j < s.menu@.submenus[i].entries.len()
            implies !((#[trigger] s.menu@.submenus[i].entries[j]) matches SpecMenuEntry::Item(it)
                && it.id == s.about_item@.id) by {
        if i == 1 && j == 0 {
            assert(s.menu@.submenus[1].entries[0] == SpecMenuEntry::Item(spec_open_item()));
        }
    }
}

} // verus!
