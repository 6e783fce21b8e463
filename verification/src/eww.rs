//! What a widget bar is told of the tray: icons by file, menus by label.

use crate::message::menu::{
    item_views, lemma_submenu_views, MenuItem, MenuItemView, MenuType, TrayMenu, TrayMenuView,
};
use crate::message::tray::{StatusNotifierItem, StatusNotifierItemView};
use crate::tray_icon::{icon_file_in, try_fetch_icon};
use vstd::prelude::*;

verus! {

/// An entry of a menu, reduced to what the bar shows.
#[derive(Debug, PartialEq, Eq)]
pub struct EwwTraySubMenu {
    pub id: i32,
    pub label: String,
    pub menu_type: MenuType,
    pub submenu: Vec<EwwTraySubMenu>,
}

/// Mathematical counterpart of [`EwwTraySubMenu`].
pub struct EwwTraySubMenuView {
    pub id: i32,
    pub label: Seq<char>,
    pub menu_type: MenuType,
    pub submenu: Seq<EwwTraySubMenuView>,
}

/// The views of a sequence of entries, element by element.
pub open spec fn submenu_views(items: Seq<EwwTraySubMenu>) -> Seq<EwwTraySubMenuView> {
    Seq::new(items.len(), |i: int| items[i]@)
}

/// The mathematical entry that `m` stands for.
pub open spec fn submenu_view(m: EwwTraySubMenu) -> EwwTraySubMenuView
    decreases m, 0nat,
{
    EwwTraySubMenuView {
        id: m.id,
        label: m.label@,
        menu_type: m.menu_type,
        submenu: prefix_submenu_views(m.submenu@, m.submenu@.len()),
    }
}

/// The views of the first `n` of `items`.
pub open spec fn prefix_submenu_views(items: Seq<EwwTraySubMenu>, n: nat) -> Seq<
    EwwTraySubMenuView,
>
    decreases items, n,
{
    if n == 0 || n > items.len() {
        Seq::empty()
    } else {
        prefix_submenu_views(items, (n - 1) as nat).push(submenu_view(items[n - 1]))
    }
}

impl View for EwwTraySubMenu {
    type V = EwwTraySubMenuView;

    open spec fn view(&self) -> EwwTraySubMenuView {
        submenu_view(*self)
    }
}

proof fn lemma_prefix_submenu_views(items: Seq<EwwTraySubMenu>, n: nat)
    requires
        n <= items.len(),
    ensures
        prefix_submenu_views(items, n) == submenu_views(items.take(n as int)),
    decreases n,
{
    if n > 0 {
        lemma_prefix_submenu_views(items, (n - 1) as nat);
    }
    assert(prefix_submenu_views(items, n) =~= submenu_views(items.take(n as int)));
}

/// The submenu of an entry's view holds the views of its children.
pub proof fn lemma_eww_submenu_views(m: EwwTraySubMenu)
    ensures
        m@.submenu == submenu_views(m.submenu@),
{
    lemma_prefix_submenu_views(m.submenu@, m.submenu@.len());
    assert(m.submenu@.take(m.submenu@.len() as int) =~= m.submenu@);
}

/// What the bar shows of the entry `m`: its id, label and kind, and the
/// same of every entry below it, in order.
pub open spec fn shown_entry(m: MenuItemView) -> EwwTraySubMenuView
    decreases m, 0nat,
{
    EwwTraySubMenuView {
        id: m.id,
        label: m.label,
        menu_type: m.menu_type,
        submenu: shown_prefix(m.submenu, m.submenu.len()),
    }
}

/// What the bar shows of the first `n` of `items`.
pub open spec fn shown_prefix(items: Seq<MenuItemView>, n: nat) -> Seq<EwwTraySubMenuView>
    decreases items, n,
{
    if n == 0 || n > items.len() {
        Seq::empty()
    } else {
        shown_prefix(items, (n - 1) as nat).push(shown_entry(items[n - 1]))
    }
}

/// What is shown of a list of entries is as long as the list, and holds
/// what is shown of each entry at its place.
pub proof fn lemma_shown_prefix(items: Seq<MenuItemView>, n: nat)
    requires
        n <= items.len(),
    ensures
        shown_prefix(items, n).len() == n,
        forall|i: int| 0 <= i < n ==> #[trigger] shown_prefix(items, n)[i] == shown_entry(items[i]),
    decreases n,
{
    if n > 0 {
        lemma_shown_prefix(items, (n - 1) as nat);
    }
}

/// Reduces a list of entries to what the bar shows.
fn shown_entries(items: &Vec<MenuItem>) -> (r: Vec<EwwTraySubMenu>)
    ensures
        submenu_views(r@) == shown_prefix(item_views(items@), items@.len()),
    decreases items,
{
    let mut out: Vec<EwwTraySubMenu> = Vec::new();
    let mut i: usize = 0;
    assert(submenu_views(out@) =~= Seq::empty());
    assert(forall|k: int| 0 <= k < items.len() ==> decreases_to!(items => #[trigger] items[k]));
    while i < items.len()
        invariant
            i <= items.len(),
            submenu_views(out@) == shown_prefix(item_views(items@), i as nat),
            forall|k: int| 0 <= k < items.len() ==> decreases_to!(items => #[trigger] items[k]),
        decreases items.len() - i,
    {
        let ghost before = submenu_views(out@);
        let entry = EwwTraySubMenu::from(&items[i]);
        out.push(entry);
        assert(submenu_views(out@) =~= before.push(entry@));
        i += 1;
    }
    out
}

impl EwwTraySubMenu {
    /// Reduces a menu entry to what the bar shows.
    pub fn from(menu: &MenuItem) -> (r: EwwTraySubMenu)
        ensures
            r@ == shown_entry(menu@),
        decreases menu,
    {
        let r = EwwTraySubMenu {
            id: menu.id,
            label: menu.label.clone(),
            menu_type: menu.menu_type,
            submenu: shown_entries(&menu.submenu),
        };
        proof {
            lemma_submenu_views(*menu);
            lemma_eww_submenu_views(r);
        }
        r
    }
}

/// A menu, reduced to what the bar shows.
#[derive(Debug, PartialEq, Eq)]
pub struct EwwTrayMenu {
    pub id: u32,
    pub submenu: Vec<EwwTraySubMenu>,
}

/// Mathematical counterpart of [`EwwTrayMenu`].
pub struct EwwTrayMenuView {
    pub id: u32,
    pub submenu: Seq<EwwTraySubMenuView>,
}

impl View for EwwTrayMenu {
    type V = EwwTrayMenuView;

    open spec fn view(&self) -> EwwTrayMenuView {
        EwwTrayMenuView { id: self.id, submenu: submenu_views(self.submenu@) }
    }
}

/// What the bar shows of the menu `menu`.
pub open spec fn shown_menu(menu: TrayMenuView) -> EwwTrayMenuView {
    EwwTrayMenuView { id: menu.id, submenu: shown_prefix(menu.submenus, menu.submenus.len()) }
}

impl EwwTrayMenu {
    /// Reduces a menu to what the bar shows.
    pub fn from(menu: &TrayMenu) -> (r: EwwTrayMenu)
        ensures
            r@ == shown_menu(menu@),
    {
        EwwTrayMenu { id: menu.id, submenu: shown_entries(&menu.submenus) }
    }
}

/// An item, reduced to its id and the file of its icon.
#[derive(Debug, PartialEq, Eq)]
pub struct EwwTrayItem {
    pub id: String,
    pub icon_path: String,
}

/// Where the bar gets the icon of an item from.
#[derive(Debug, PartialEq, Eq)]
pub enum IconSource {
    /// The item names no icon.
    Missing,
    /// The icon is in this file.
    File(EwwTrayItem),
    /// The icon of this name has to be looked up in the icon themes.
    Theme(String),
}

/// Mathematical counterpart of [`IconSource`].
pub enum IconSourceView {
    Missing,
    File { id: Seq<char>, icon_path: Seq<char> },
    Theme(Seq<char>),
}

impl View for IconSource {
    type V = IconSourceView;

    open spec fn view(&self) -> IconSourceView {
        match self {
            IconSource::Missing => IconSourceView::Missing,
            IconSource::File(item) => IconSourceView::File {
                id: item.id@,
                icon_path: item.icon_path@,
            },
            IconSource::Theme(name) => IconSourceView::Theme(name@),
        }
    }
}

/// Where the icon of `item` comes from: nowhere when the item names none,
/// from the item's own theme path when it has one, else from the icon
/// themes.
pub open spec fn icon_source(item: StatusNotifierItemView) -> IconSourceView {
    match item.icon_name {
        None => IconSourceView::Missing,
        Some(name) => match item.icon_theme_path {
            Some(path) => if path.len() > 0 {
                IconSourceView::File { id: item.id, icon_path: icon_file_in(path, name) }
            } else {
                IconSourceView::Theme(name)
            },
            None => IconSourceView::Theme(name),
        },
    }
}

impl EwwTrayItem {
    /// Tells what the bar shows for `item`, as far as that can be told
    /// without a lookup in the icon themes.
    pub fn try_from(item: &StatusNotifierItem) -> (r: IconSource)
        ensures
            r@ == icon_source(item@),
    {
        let icon_name = match &item.icon_name {
            Some(name) => name,
            None => {
                return IconSource::Missing;
            },
        };
        let search_path = match &item.icon_theme_path {
            Some(path) => Some(path.as_str()),
            None => None,
        };
        match try_fetch_icon(icon_name.as_str(), search_path) {
            Some(icon_path) => IconSource::File(EwwTrayItem { id: item.id.clone(), icon_path }),
            None => IconSource::Theme(icon_name.clone()),
        }
    }
}

} // verus!
