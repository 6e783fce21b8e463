//! Menus of tray items: the typed model and its decoder from a
//! `com.canonical.dbusmenu` layout.

use crate::dbus::dbusmenu_proxy::{MenuLayout, MenuLayoutView};
use crate::error::{ErrorView, StatusNotifierWatcherError};
use crate::text::{clone_option, lemma_without_absent, opt_view, remove_char, str_eq, without};
use crate::value::{
    dict_find, dict_get, entry_views, lemma_container_views, read_bool, read_str, read_structure,
    views, Value, ValueView,
};
use vstd::prelude::*;

pub mod layout;

verus! {

/// Whether and how an item can be toggled.
#[derive(Debug, Copy, Clone, PartialEq, Eq, Structural)]
pub enum ToggleType {
    /// An independent item with a check mark.
    Checkmark,
    /// One of a group of which a single item is on at a time.
    Radio,
    /// The item cannot be toggled.
    CannotBeToggled,
}

/// Kind of a menu entry.
#[derive(Debug, Copy, Clone, PartialEq, Eq, Structural)]
pub enum MenuType {
    /// A line between groups of entries.
    Separator,
    /// An entry that can be activated or opens a submenu.
    Standard,
}

/// How the information of an entry should be presented.
#[derive(Debug, Copy, Clone, PartialEq, Eq, Structural)]
pub enum Disposition {
    /// An ordinary entry.
    Normal,
    /// Additional information for the user.
    Informative,
    /// Possibly harmful results.
    Warning,
    /// Something bad may happen.
    Alert,
}

/// State of an item that can be toggled.
#[derive(Debug, Copy, Clone, PartialEq, Eq, Structural)]
pub enum ToggleState {
    /// The item is on.
    On,
    /// The item is off.
    Off,
    /// The state is not known, or the item cannot be toggled.
    Indeterminate,
}

impl MenuType {
    /// The menu type that `s` names.
    pub open spec fn parse(s: Seq<char>) -> Option<MenuType> {
        if s == "standard"@ {
            Some(MenuType::Standard)
        } else if s == "separator"@ {
            Some(MenuType::Separator)
        } else {
            None
        }
    }

    /// Reads a menu type from its name on the bus.
    pub fn from_str(s: &str) -> (r: Result<MenuType, StatusNotifierWatcherError>)
        ensures
            match r {
                Ok(t) => Self::parse(s@) == Some(t),
                Err(e) => Self::parse(s@) is None && e@ == ErrorView::UnknownVariant(s@),
            },
    {
        if str_eq(s, "standard") {
            Ok(MenuType::Standard)
        } else if str_eq(s, "separator") {
            Ok(MenuType::Separator)
        } else {
            Err(StatusNotifierWatcherError::UnknownVariant(String::from_str(s)))
        }
    }
}

impl ToggleType {
    /// The toggle type that `s` names.
    pub open spec fn parse(s: Seq<char>) -> Option<ToggleType> {
        if s == "checkmark"@ {
            Some(ToggleType::Checkmark)
        } else if s == "radio"@ {
            Some(ToggleType::Radio)
        } else {
            None
        }
    }

    /// Reads a toggle type from its name on the bus.
    pub fn from_str(s: &str) -> (r: Result<ToggleType, StatusNotifierWatcherError>)
        ensures
            match r {
                Ok(t) => Self::parse(s@) == Some(t),
                Err(e) => Self::parse(s@) is None && e@ == ErrorView::UnknownVariant(s@),
            },
    {
        if str_eq(s, "checkmark") {
            Ok(ToggleType::Checkmark)
        } else if str_eq(s, "radio") {
            Ok(ToggleType::Radio)
        } else {
            Err(StatusNotifierWatcherError::UnknownVariant(String::from_str(s)))
        }
    }
}

impl Disposition {
    /// The disposition that `s` names.
    pub open spec fn parse(s: Seq<char>) -> Option<Disposition> {
        if s == "normal"@ {
            Some(Disposition::Normal)
        } else if s == "informative"@ {
            Some(Disposition::Informative)
        } else if s == "warning"@ {
            Some(Disposition::Warning)
        } else if s == "alert"@ {
            Some(Disposition::Alert)
        } else {
            None
        }
    }

    /// Reads a disposition from its name on the bus.
    pub fn from_str(s: &str) -> (r: Result<Disposition, StatusNotifierWatcherError>)
        ensures
            match r {
                Ok(t) => Self::parse(s@) == Some(t),
                Err(e) => Self::parse(s@) is None && e@ == ErrorView::UnknownVariant(s@),
            },
    {
        if str_eq(s, "normal") {
            Ok(Disposition::Normal)
        } else if str_eq(s, "informative") {
            Ok(Disposition::Informative)
        } else if str_eq(s, "warning") {
            Ok(Disposition::Warning)
        } else if str_eq(s, "alert") {
            Ok(Disposition::Alert)
        } else {
            Err(StatusNotifierWatcherError::UnknownVariant(String::from_str(s)))
        }
    }
}

impl ToggleState {
    /// The state that a `toggle-state` flag stands for: on when set, off
    /// when cleared. Indeterminate is the state of an entry without a flag.
    pub open spec fn of(value: bool) -> ToggleState {
        if value {
            ToggleState::On
        } else {
            ToggleState::Off
        }
    }

    /// Reads a toggle state from a `toggle-state` flag.
    pub fn from(value: bool) -> (r: ToggleState)
        ensures
            r == Self::of(value),
    {
        if value {
            ToggleState::On
        } else {
            ToggleState::Off
        }
    }
}

/// An entry of a menu, with the entries below it.
#[derive(Debug, PartialEq, Eq)]
pub struct MenuItem {
    /// Id of the entry, unique within its menu.
    pub id: i32,
    /// `"submenu"` when the entry has children.
    pub children_display: Option<String>,
    /// Text of the entry, without mnemonic markers.
    pub label: String,
    /// Whether the entry can be activated.
    pub enabled: bool,
    /// Whether the entry is shown.
    pub visible: bool,
    /// Name of the entry's icon.
    pub icon_name: Option<String>,
    /// State of an entry that can be toggled.
    pub toggle_state: ToggleState,
    /// Whether and how the entry can be toggled.
    pub toggle_type: ToggleType,
    /// Kind of the entry.
    pub menu_type: MenuType,
    /// How the entry should be presented.
    pub disposition: Disposition,
    /// The entries below this one, in layout order.
    pub submenu: Vec<MenuItem>,
}

/// Mathematical counterpart of [`MenuItem`].
pub struct MenuItemView {
    pub id: i32,
    pub children_display: Option<Seq<char>>,
    pub label: Seq<char>,
    pub enabled: bool,
    pub visible: bool,
    pub icon_name: Option<Seq<char>>,
    pub toggle_state: ToggleState,
    pub toggle_type: ToggleType,
    pub menu_type: MenuType,
    pub disposition: Disposition,
    pub submenu: Seq<MenuItemView>,
}

/// The views of a sequence of menu items, element by element.
pub open spec fn item_views(items: Seq<MenuItem>) -> Seq<MenuItemView> {
    Seq::new(items.len(), |i: int| items[i]@)
}

/// The mathematical menu item that `m` stands for.
pub open spec fn item_view(m: MenuItem) -> MenuItemView
    decreases m, 0nat,
{
    MenuItemView {
        id: m.id,
        children_display: opt_view(m.children_display),
        label: m.label@,
        enabled: m.enabled,
        visible: m.visible,
        icon_name: opt_view(m.icon_name),
        toggle_state: m.toggle_state,
        toggle_type: m.toggle_type,
        menu_type: m.menu_type,
        disposition: m.disposition,
        submenu: prefix_item_views(m.submenu@, m.submenu@.len()),
    }
}

/// The views of the first `n` of `items`.
pub open spec fn prefix_item_views(items: Seq<MenuItem>, n: nat) -> Seq<MenuItemView>
    decreases items, n,
{
    if n == 0 || n > items.len() {
        Seq::empty()
    } else {
        prefix_item_views(items, (n - 1) as nat).push(item_view(items[n - 1]))
    }
}

impl View for MenuItem {
    type V = MenuItemView;

    open spec fn view(&self) -> MenuItemView {
        item_view(*self)
    }
}

proof fn lemma_prefix_item_views(items: Seq<MenuItem>, n: nat)
    requires
        n <= items.len(),
    ensures
        prefix_item_views(items, n) == item_views(items.take(n as int)),
    decreases n,
{
    if n > 0 {
        lemma_prefix_item_views(items, (n - 1) as nat);
    }
    assert(prefix_item_views(items, n) =~= item_views(items.take(n as int)));
}

/// The submenu of a menu item's view holds the views of its children.
pub proof fn lemma_submenu_views(m: MenuItem)
    ensures
        m@.submenu == item_views(m.submenu@),
{
    lemma_prefix_item_views(m.submenu@, m.submenu@.len());
    assert(m.submenu@.take(m.submenu@.len() as int) =~= m.submenu@);
}

impl MenuItemView {
    /// The entry that a layout node without properties stands for.
    pub open spec fn default() -> MenuItemView {
        MenuItemView {
            id: 0,
            children_display: None,
            label: Seq::empty(),
            enabled: true,
            visible: true,
            icon_name: None,
            toggle_state: ToggleState::Indeterminate,
            toggle_type: ToggleType::CannotBeToggled,
            menu_type: MenuType::Standard,
            disposition: Disposition::Normal,
            submenu: Seq::empty(),
        }
    }
}

impl Default for MenuItem {
    fn default() -> (r: MenuItem)
        ensures
            r@ == MenuItemView::default(),
    {
        let r = MenuItem {
            id: 0,
            children_display: None,
            label: String::new(),
            enabled: true,
            visible: true,
            icon_name: None,
            toggle_state: ToggleState::Indeterminate,
            toggle_type: ToggleType::CannotBeToggled,
            menu_type: MenuType::Standard,
            disposition: Disposition::Normal,
            submenu: Vec::new(),
        };
        proof {
            lemma_submenu_views(r);
            assert(r@.submenu =~= Seq::empty());
        }
        r
    }
}

/// The string stored under `key`, if there is one.
pub open spec fn find_str(entries: Seq<(ValueView, ValueView)>, key: Seq<char>) -> Option<
    Seq<char>,
> {
    match dict_find(entries, key) {
        Some(v) => read_str(v),
        None => None,
    }
}

/// The boolean stored under `key`, if there is one.
pub open spec fn find_bool(entries: Seq<(ValueView, ValueView)>, key: Seq<char>) -> Option<bool> {
    match dict_find(entries, key) {
        Some(v) => read_bool(v),
        None => None,
    }
}

/// A label without its mnemonic markers: every underscore is taken out.
pub open spec fn strip_mnemonics(label: Seq<char>) -> Seq<char> {
    without(label, '_')
}

/// The entry that the properties of a layout node describe, without id and
/// children. A property that is absent, or of another type than expected,
/// or that names no known variant, leaves the default in place.
pub open spec fn decode_properties(entries: Seq<(ValueView, ValueView)>) -> MenuItemView {
    MenuItemView {
        id: 0,
        children_display: find_str(entries, "children_display"@),
        label: match find_str(entries, "label"@) {
            Some(label) => strip_mnemonics(label),
            None => Seq::empty(),
        },
        enabled: match find_bool(entries, "enabled"@) {
            Some(b) => b,
            None => true,
        },
        visible: match find_bool(entries, "visible"@) {
            Some(b) => b,
            None => true,
        },
        icon_name: find_str(entries, "icon-name"@),
        toggle_state: match find_bool(entries, "toggle-state"@) {
            Some(b) => ToggleState::of(b),
            None => ToggleState::Indeterminate,
        },
        toggle_type: match find_str(entries, "toggle-type"@) {
            Some(name) => match ToggleType::parse(name) {
                Some(t) => t,
                None => ToggleType::CannotBeToggled,
            },
            None => ToggleType::CannotBeToggled,
        },
        menu_type: match find_str(entries, "type"@) {
            Some(name) => match MenuType::parse(name) {
                Some(t) => t,
                None => MenuType::Standard,
            },
            None => MenuType::Standard,
        },
        disposition: match find_str(entries, "disposition"@) {
            Some(name) => match Disposition::parse(name) {
                Some(d) => d,
                None => Disposition::Normal,
            },
            None => Disposition::Normal,
        },
        submenu: Seq::empty(),
    }
}

/// The id that the first field of a layout node gives: the field itself when
/// it is a 32-bit signed integer, zero otherwise.
pub open spec fn node_id(fields: Seq<ValueView>) -> i32 {
    if fields.len() > 0 {
        match fields[0] {
            ValueView::I32(id) => id,
            _ => 0,
        }
    } else {
        0
    }
}

/// The properties that the second field of a layout node gives: its entries
/// when it is a dictionary, none otherwise.
pub open spec fn node_properties(fields: Seq<ValueView>) -> Seq<(ValueView, ValueView)> {
    if fields.len() > 1 {
        match fields[1] {
            ValueView::Dict(entries) => entries,
            _ => Seq::empty(),
        }
    } else {
        Seq::empty()
    }
}

/// The children that the third field of a layout node gives: its elements
/// when it is an array, none otherwise.
pub open spec fn node_children(fields: Seq<ValueView>) -> Seq<ValueView> {
    if fields.len() > 2 {
        match fields[2] {
            ValueView::Array(items) => items,
            _ => Seq::empty(),
        }
    } else {
        Seq::empty()
    }
}

/// The menu entry that the layout node `v` stands for, with at most `depth`
/// levels of entries below it; `None` when `v` is not a structure.
pub open spec fn decode_item(v: ValueView, depth: nat) -> Option<MenuItemView>
    decreases depth, 1nat, 0nat,
{
    match read_structure(v) {
        None => None,
        Some(fields) => Some(
            MenuItemView {
                id: node_id(fields),
                submenu: decode_children(node_children(fields), depth),
                ..decode_properties(node_properties(fields))
            },
        ),
    }
}

/// The menu entries that the layout nodes `items` stand for, in order, with
/// `depth` levels in all: each entry has at most `depth - 1` levels below
/// it, and there is none when `depth` is zero. A node that is not a
/// structure is left out.
pub open spec fn decode_children(items: Seq<ValueView>, depth: nat) -> Seq<MenuItemView>
    decreases depth, 0nat, items.len(),
{
    if depth == 0 || items.len() == 0 {
        Seq::empty()
    } else {
        let before = decode_children(items.drop_last(), depth);
        match decode_item(items.last(), (depth - 1) as nat) {
            Some(item) => before.push(item),
            None => before,
        }
    }
}

/// Number of levels that a decoded entry holds at most, itself included.
pub open spec fn item_levels() -> nat {
    crate::dbus::dbusmenu_proxy::RECURSION_DEPTH as nat
}

/// Copies a string that a lookup has found.
fn found_string(s: Option<&String>) -> (r: Option<String>)
    ensures
        match s {
            Some(t) => opt_view(r) == Some(t@),
            None => r is None,
        },
{
    match s {
        Some(t) => Some(t.clone()),
        None => None,
    }
}

/// Looks up a string property.
fn get_str<'a>(entries: &'a Vec<(Value, Value)>, key: &str) -> (r: Option<&'a String>)
    ensures
        match r {
            Some(s) => find_str(entry_views(entries@), key@) == Some(s@),
            None => find_str(entry_views(entries@), key@) is None,
        },
{
    match dict_get(entries, key) {
        Some(v) => v.as_str(),
        None => None,
    }
}

/// Looks up a boolean property.
fn get_bool(entries: &Vec<(Value, Value)>, key: &str) -> (r: Option<bool>)
    ensures
        r == find_bool(entry_views(entries@), key@),
{
    match dict_get(entries, key) {
        Some(v) => v.as_bool(),
        None => None,
    }
}

impl MenuItem {
    /// Builds the entry that the properties of a layout node describe.
    fn from_properties(entries: &Vec<(Value, Value)>) -> (r: MenuItem)
        ensures
            r@ == decode_properties(entry_views(entries@)),
    {
        let label = match get_str(entries, "label") {
            Some(label) => remove_char(label.as_str(), '_'),
            None => String::new(),
        };
        let enabled = match get_bool(entries, "enabled") {
            Some(b) => b,
            None => true,
        };
        let visible = match get_bool(entries, "visible") {
            Some(b) => b,
            None => true,
        };
        let toggle_state = match get_bool(entries, "toggle-state") {
            Some(b) => ToggleState::from(b),
            None => ToggleState::Indeterminate,
        };
        let toggle_type = match get_str(entries, "toggle-type") {
            Some(name) => match ToggleType::from_str(name.as_str()) {
                Ok(t) => t,
                Err(_) => ToggleType::CannotBeToggled,
            },
            None => ToggleType::CannotBeToggled,
        };
        let menu_type = match get_str(entries, "type") {
            Some(name) => match MenuType::from_str(name.as_str()) {
                Ok(t) => t,
                Err(_) => MenuType::Standard,
            },
            None => MenuType::Standard,
        };
        let disposition = match get_str(entries, "disposition") {
            Some(name) => match Disposition::from_str(name.as_str()) {
                Ok(d) => d,
                Err(_) => Disposition::Normal,
            },
            None => Disposition::Normal,
        };
        let r = MenuItem {
            id: 0,
            children_display: found_string(get_str(entries, "children_display")),
            label,
            enabled,
            visible,
            icon_name: found_string(get_str(entries, "icon-name")),
            toggle_state,
            toggle_type,
            menu_type,
            disposition,
            submenu: Vec::new(),
        };
        proof {
            lemma_submenu_views(r);
            assert(r@.submenu =~= Seq::empty());
        }
        r
    }

    /// Decodes a layout node and at most `depth` levels of entries below it.
    ///
    /// The node is a structure of an id, a dictionary of properties and an
    /// array of children. A field that is missing or of another type leaves
    /// the default in place; a child that is not a structure is left out.
    /// `None` is returned when `value` itself is not a structure.
    pub fn decode(value: &Value, depth: u32) -> (r: Option<MenuItem>)
        ensures
            match r {
                Some(item) => decode_item(value@, depth as nat) == Some(item@),
                None => decode_item(value@, depth as nat) is None,
            },
            r matches Some(item) ==> labels_stripped(item@) && within_levels(
                item@,
                (depth + 1) as nat,
            ),
        decreases depth, 1nat,
    {
        proof {
            lemma_decoded_labels_stripped(value@, depth as nat);
            lemma_decoded_within_levels(value@, depth as nat);
        }
        let fields = match value.as_structure() {
            Some(fields) => fields,
            None => {
                return None;
            },
        };
        let ghost fv = views(fields@);
        let mut item = if fields.len() > 1 {
            proof {
                lemma_container_views(fields[1]);
            }
            match &fields[1] {
                Value::Dict(entries) => MenuItem::from_properties(entries),
                _ => MenuItem::from_properties(&Vec::new()),
            }
        } else {
            MenuItem::from_properties(&Vec::new())
        };
        assert(entry_views(Seq::<(Value, Value)>::empty()) =~= Seq::empty());
        assert(item@ == decode_properties(node_properties(fv)));
        if fields.len() > 0 {
            if let Value::I32(id) = &fields[0] {
                item.id = *id;
            }
        }
        if fields.len() > 2 {
            proof {
                lemma_container_views(fields[2]);
            }
            if let Value::Array(children) = &fields[2] {
                item.submenu = decode_all(children, depth);
            }
        }
        proof {
            lemma_submenu_views(item);
            assert(views(Seq::<Value>::empty()) =~= Seq::empty());
        }
        Some(item)
    }

    /// Decodes a layout node with the entries below it, as far as a layout
    /// reaches.
    pub fn try_from(value: &Value) -> (r: Result<MenuItem, StatusNotifierWatcherError>)
        ensures
            match r {
                Ok(item) => decode_item(value@, (item_levels() - 1) as nat) == Some(item@),
                Err(e) => decode_item(value@, (item_levels() - 1) as nat) is None
                    && e@ == ErrorView::IncorrectType,
            },
    {
        match MenuItem::decode(value, 9) {
            Some(item) => Ok(item),
            None => Err(StatusNotifierWatcherError::IncorrectType),
        }
    }
}

/// Decodes a list of layout nodes into `depth` levels of entries.
pub fn decode_all(items: &Vec<Value>, depth: u32) -> (r: Vec<MenuItem>)
    ensures
        item_views(r@) == decode_children(views(items@), depth as nat),
    decreases depth, 0nat,
{
    let mut out: Vec<MenuItem> = Vec::new();
    if depth == 0 {
        assert(item_views(out@) =~= Seq::empty());
        return out;
    }
    let ghost all = views(items@);
    let mut i: usize = 0;
    assert(item_views(out@) =~= Seq::empty());
    while i < items.len()
        invariant
            i <= items.len(),
            depth > 0,
            all == views(items@),
            item_views(out@) == decode_children(all.take(i as int), depth as nat),
        decreases items.len() - i,
    {
        proof {
            assert(all.take(i + 1).drop_last() =~= all.take(i as int));
            assert(all.take(i + 1).last() == items[i as int]@);
        }
        let ghost before = item_views(out@);
        match MenuItem::decode(&items[i], depth - 1) {
            Some(item) => {
                out.push(item);
                assert(item_views(out@) =~= before.push(item@));
            },
            None => {},
        }
        i += 1;
    }
    assert(all.take(items.len() as int) =~= all);
    out
}

impl Clone for MenuItem {
    fn clone(&self) -> (r: MenuItem)
        ensures
            r@ == self@,
        decreases self,
    {
        let mut submenu: Vec<MenuItem> = Vec::new();
        let mut i: usize = 0;
        assert(forall|k: int|
            0 <= k < self.submenu.len() ==> decreases_to!(self => #[trigger] self.submenu[k]));
        while i < self.submenu.len()
            invariant
                i <= self.submenu.len(),
                submenu.len() == i,
                forall|k: int| 0 <= k < i ==> submenu[k]@ == self.submenu[k]@,
                forall|k: int|
                    0 <= k < self.submenu.len() ==> decreases_to!(self => #[trigger] self.submenu[k]),
            decreases self.submenu.len() - i,
        {
            let child = self.submenu[i].clone();
            submenu.push(child);
            i += 1;
        }
        let r = MenuItem {
            id: self.id,
            children_display: clone_option(&self.children_display),
            label: self.label.clone(),
            enabled: self.enabled,
            visible: self.visible,
            icon_name: clone_option(&self.icon_name),
            toggle_state: self.toggle_state,
            toggle_type: self.toggle_type,
            menu_type: self.menu_type,
            disposition: self.disposition,
            submenu,
        };
        proof {
            lemma_submenu_views(r);
            lemma_submenu_views(*self);
            assert(item_views(r.submenu@) =~= item_views(self.submenu@));
        }
        r
    }
}

/// Clones a list of menu items.
pub fn clone_items(items: &Vec<MenuItem>) -> (r: Vec<MenuItem>)
    ensures
        item_views(r@) == item_views(items@),
{
    let mut out: Vec<MenuItem> = Vec::new();
    let mut i: usize = 0;
    while i < items.len()
        invariant
            i <= items.len(),
            out.len() == i,
            forall|k: int| 0 <= k < i ==> out[k]@ == items[k]@,
        decreases items.len() - i,
    {
        out.push(items[i].clone());
        i += 1;
    }
    assert(item_views(out@) =~= item_views(items@));
    out
}

/// The menu of a tray item.
#[derive(Debug, PartialEq, Eq)]
pub struct TrayMenu {
    /// Revision of the layout the menu was decoded from.
    pub id: u32,
    /// The entries of the menu, in layout order.
    pub submenus: Vec<MenuItem>,
}

/// Mathematical counterpart of [`TrayMenu`].
pub struct TrayMenuView {
    pub id: u32,
    pub submenus: Seq<MenuItemView>,
}

impl TrayMenuView {
    /// No label of the menu holds an underscore.
    pub open spec fn labels_stripped(self) -> bool {
        forall|i: int| 0 <= i < self.submenus.len() ==> labels_stripped(#[trigger] self.submenus[i])
    }

    /// The menu has at most `levels` levels of entries.
    pub open spec fn within_levels(self, levels: nat) -> bool {
        forall|i: int|
            0 <= i < self.submenus.len() ==> within_levels(#[trigger] self.submenus[i], levels)
    }
}

impl View for TrayMenu {
    type V = TrayMenuView;

    open spec fn view(&self) -> TrayMenuView {
        TrayMenuView { id: self.id, submenus: item_views(self.submenus@) }
    }
}

impl Clone for TrayMenu {
    fn clone(&self) -> (r: TrayMenu)
        ensures
            r@ == self@,
    {
        TrayMenu { id: self.id, submenus: clone_items(&self.submenus) }
    }
}

/// The menu that a layout stands for: the layout's revision as id, and the
/// children of the root as entries. The root's own id and properties are
/// not part of the menu.
pub open spec fn decode_menu(layout: MenuLayoutView) -> TrayMenuView {
    TrayMenuView {
        id: layout.id,
        submenus: decode_children(layout.fields.submenus, item_levels()),
    }
}

impl TrayMenu {
    /// Decodes the answer of `GetLayout`: the menu takes the layout's
    /// revision as its id, and the children of the root as its entries.
    /// This never fails: what cannot be read is defaulted or left out.
    pub fn try_from(value: MenuLayout) -> (r: Result<TrayMenu, StatusNotifierWatcherError>)
        ensures
            r matches Ok(menu) && menu@ == decode_menu(value@),
            r matches Ok(menu) && menu@.labels_stripped(),
            r matches Ok(menu) && menu@.within_levels(item_levels()),
    {
        let submenus = decode_all(&value.fields.submenus, 10);
        proof {
            lemma_decoded_list_labels_stripped(views(value.fields.submenus@), item_levels());
            lemma_decoded_list_within_levels(views(value.fields.submenus@), item_levels());
        }
        Ok(TrayMenu { id: value.id, submenus })
    }
}

/// No label in the tree of `m` holds an underscore.
pub open spec fn labels_stripped(m: MenuItemView) -> bool
    decreases m,
{
    &&& !m.label.contains('_')
    &&& forall|i: int| 0 <= i < m.submenu.len() ==> labels_stripped(#[trigger] m.submenu[i])
}

/// The tree of `m` has at most `levels` levels, `m` itself included.
pub open spec fn within_levels(m: MenuItemView, levels: nat) -> bool
    decreases levels,
{
    &&& levels > 0
    &&& forall|i: int|
        0 <= i < m.submenu.len() ==> within_levels(#[trigger] m.submenu[i], (levels - 1) as nat)
}

/// `m` with everything below its first `levels` levels of children cut off.
pub open spec fn truncated(m: MenuItemView, levels: nat) -> MenuItemView
    decreases levels,
{
    MenuItemView {
        submenu: if levels == 0 {
            Seq::empty()
        } else {
            Seq::new(m.submenu.len(), |i: int| truncated(m.submenu[i], (levels - 1) as nat))
        },
        ..m
    }
}

/// Every label of a decoded entry is free of underscores, at every level.
pub proof fn lemma_decoded_labels_stripped(v: ValueView, depth: nat)
    ensures
        decode_item(v, depth) matches Some(m) ==> labels_stripped(m),
    decreases depth, 1nat, 0nat,
{
    if let Some(fields) = read_structure(v) {
        let entries = node_properties(fields);
        if let Some(label) = find_str(entries, "label"@) {
            lemma_without_absent(label, '_');
        }
        lemma_decoded_list_labels_stripped(node_children(fields), depth);
        let m = decode_item(v, depth)->0;
        assert(m.submenu == decode_children(node_children(fields), depth));
        assert(m.label == decode_properties(entries).label);
        assert forall|i: int| 0 <= i < m.submenu.len() implies labels_stripped(
            #[trigger] m.submenu[i],
        ) by {
            assert(labels_stripped(decode_children(node_children(fields), depth)[i]));
        }
    }
}

/// Every label of a decoded list of entries is free of underscores.
pub proof fn lemma_decoded_list_labels_stripped(items: Seq<ValueView>, depth: nat)
    ensures
        forall|i: int|
            0 <= i < decode_children(items, depth).len() ==> labels_stripped(
                #[trigger] decode_children(items, depth)[i],
            ),
    decreases depth, 0nat, items.len(),
{
    if depth == 0 || items.len() == 0 {
    } else {
        lemma_decoded_list_labels_stripped(items.drop_last(), depth);
        lemma_decoded_labels_stripped(items.last(), (depth - 1) as nat);
        let before = decode_children(items.drop_last(), depth);
        let all = decode_children(items, depth);
        assert forall|i: int| 0 <= i < all.len() implies labels_stripped(#[trigger] all[i]) by {
            if i < before.len() {
                assert(all[i] == before[i]);
            }
        }
    }
}

/// A decoded entry has at most `depth` levels below it.
pub proof fn lemma_decoded_within_levels(v: ValueView, depth: nat)
    ensures
        decode_item(v, depth) matches Some(m) ==> within_levels(m, depth + 1),
    decreases depth, 1nat, 0nat,
{
    if let Some(fields) = read_structure(v) {
        lemma_decoded_list_within_levels(node_children(fields), depth);
        let m = decode_item(v, depth)->0;
        assert(m.submenu == decode_children(node_children(fields), depth));
        assert forall|i: int| 0 <= i < m.submenu.len() implies within_levels(
            #[trigger] m.submenu[i],
            depth,
        ) by {
            assert(within_levels(decode_children(node_children(fields), depth)[i], depth));
        }
    }
}

/// A decoded list of entries has at most `depth` levels.
pub proof fn lemma_decoded_list_within_levels(items: Seq<ValueView>, depth: nat)
    ensures
        forall|i: int|
            0 <= i < decode_children(items, depth).len() ==> within_levels(
                #[trigger] decode_children(items, depth)[i],
                depth,
            ),
    decreases depth, 0nat, items.len(),
{
    if depth == 0 || items.len() == 0 {
    } else {
        lemma_decoded_list_within_levels(items.drop_last(), depth);
        lemma_decoded_within_levels(items.last(), (depth - 1) as nat);
        let before = decode_children(items.drop_last(), depth);
        let all = decode_children(items, depth);
        assert forall|i: int| 0 <= i < all.len() implies within_levels(#[trigger] all[i], depth) by {
            if i < before.len() {
                assert(all[i] == before[i]);
            }
        }
    }
}

/// Decoding with fewer levels gives what decoding with more levels gives,
/// cut off: the levels that both keep are the same.
pub proof fn lemma_decode_truncates(v: ValueView, shallow: nat, deep: nat)
    requires
        shallow <= deep,
    ensures
        decode_item(v, shallow) == match decode_item(v, deep) {
            Some(m) => Some(truncated(m, shallow)),
            None => None,
        },
    decreases deep, 1nat, 0nat,
{
    if let Some(fields) = read_structure(v) {
        lemma_decode_list_truncates(node_children(fields), shallow, deep);
        let m = decode_item(v, deep)->0;
        assert(decode_item(v, shallow)->0.submenu =~= truncated(m, shallow).submenu);
    }
}

/// Decoding a list with fewer levels gives what decoding it with more
/// levels gives, each entry cut off.
pub proof fn lemma_decode_list_truncates(items: Seq<ValueView>, shallow: nat, deep: nat)
    requires
        shallow <= deep,
    ensures
        shallow == 0 ==> decode_children(items, shallow).len() == 0,
        shallow > 0 ==> decode_children(items, shallow).len() == decode_children(
            items,
            deep,
        ).len(),
        shallow > 0 ==> forall|i: int|
            0 <= i < decode_children(items, deep).len() ==> #[trigger] decode_children(
                items,
                shallow,
            )[i] == truncated(decode_children(items, deep)[i], (shallow - 1) as nat),
    decreases deep, 0nat, items.len(),
{
    if shallow == 0 || items.len() == 0 {
    } else {
        lemma_decode_list_truncates(items.drop_last(), shallow, deep);
        lemma_decode_truncates(items.last(), (shallow - 1) as nat, (deep - 1) as nat);
    }
}

} // verus!
