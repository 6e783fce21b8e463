//! Menu entries written back as layout nodes, and the proof that the
//! decoder reads them as they were.

use crate::message::menu::{
    decode_children, decode_item, decode_properties, item_views, lemma_submenu_views, node_children,
    node_id, node_properties, within_levels, Disposition, MenuItem, MenuItemView, MenuType,
    ToggleState, ToggleType,
};
use crate::text::{lemma_without_unchanged, opt_view};
use crate::value::{
    dict_find, entry_views, lemma_container_views, read_structure, views, Value, ValueView,
};
use vstd::prelude::*;

verus! {

impl MenuType {
    /// The name of the menu type on the bus.
    pub open spec fn name(self) -> Seq<char> {
        match self {
            MenuType::Standard => "standard"@,
            MenuType::Separator => "separator"@,
        }
    }

    /// The name of the menu type on the bus.
    pub fn as_str(&self) -> (r: &'static str)
        ensures
            r@ == self.name(),
    {
        match self {
            MenuType::Standard => "standard",
            MenuType::Separator => "separator",
        }
    }
}

impl Disposition {
    /// The name of the disposition on the bus.
    pub open spec fn name(self) -> Seq<char> {
        match self {
            Disposition::Normal => "normal"@,
            Disposition::Informative => "informative"@,
            Disposition::Warning => "warning"@,
            Disposition::Alert => "alert"@,
        }
    }

    /// The name of the disposition on the bus.
    pub fn as_str(&self) -> (r: &'static str)
        ensures
            r@ == self.name(),
    {
        match self {
            Disposition::Normal => "normal",
            Disposition::Informative => "informative",
            Disposition::Warning => "warning",
            Disposition::Alert => "alert",
        }
    }
}

impl ToggleType {
    /// The name of the toggle type on the bus. An item that cannot be
    /// toggled has none.
    pub open spec fn name(self) -> Option<Seq<char>> {
        match self {
            ToggleType::Checkmark => Some("checkmark"@),
            ToggleType::Radio => Some("radio"@),
            ToggleType::CannotBeToggled => None,
        }
    }

    /// The name of the toggle type on the bus.
    pub fn as_str(&self) -> (r: Option<&'static str>)
        ensures
            match r {
                Some(s) => self.name() == Some(s@),
                None => self.name() is None,
            },
    {
        match self {
            ToggleType::Checkmark => Some("checkmark"),
            ToggleType::Radio => Some("radio"),
            ToggleType::CannotBeToggled => None,
        }
    }
}

/// Each variant is read back from its name.
pub proof fn lemma_names_are_parsed(
    menu_type: MenuType,
    disposition: Disposition,
    toggle_type: ToggleType,
)
    ensures
        MenuType::parse(menu_type.name()) == Some(menu_type),
        Disposition::parse(disposition.name()) == Some(disposition),
        toggle_type.name() matches Some(name) ==> ToggleType::parse(name) == Some(toggle_type),
{
    reveal_strlit("standard");
    reveal_strlit("separator");
    reveal_strlit("normal");
    reveal_strlit("informative");
    reveal_strlit("warning");
    reveal_strlit("alert");
    reveal_strlit("checkmark");
    reveal_strlit("radio");
    assert("standard"@[1] != "separator"@[1]);
    assert("checkmark"@.len() != "radio"@.len());
    assert("normal"@.len() == 6 && "informative"@.len() == 11 && "warning"@.len() == 7
        && "alert"@.len() == 5);
}

/// A string property as it stands in a layout: the value inside a variant.
pub open spec fn str_property(key: Seq<char>, value: Seq<char>) -> (ValueView, ValueView) {
    (ValueView::Str(key), ValueView::Variant(Box::new(ValueView::Str(value))))
}

/// A boolean property as it stands in a layout: the value inside a variant.
pub open spec fn bool_property(key: Seq<char>, value: bool) -> (ValueView, ValueView) {
    (ValueView::Str(key), ValueView::Variant(Box::new(ValueView::Bool(value))))
}

/// A string property that is there only when it has a value.
pub open spec fn opt_str_property(key: Seq<char>, value: Option<Seq<char>>) -> Seq<
    (ValueView, ValueView),
> {
    match value {
        Some(v) => seq![str_property(key, v)],
        None => Seq::empty(),
    }
}

/// The `toggle-state` property of a state: set for on, cleared for off,
/// absent when indeterminate.
pub open spec fn toggle_state_property(state: ToggleState) -> Seq<(ValueView, ValueView)> {
    match state {
        ToggleState::On => seq![bool_property("toggle-state"@, true)],
        ToggleState::Off => seq![bool_property("toggle-state"@, false)],
        ToggleState::Indeterminate => Seq::empty(),
    }
}

/// The properties of the layout node that stands for `m`.
pub open spec fn encode_properties(m: MenuItemView) -> Seq<(ValueView, ValueView)> {
    opt_str_property("children_display"@, m.children_display) + seq![
        str_property("label"@, m.label),
    ] + seq![bool_property("enabled"@, m.enabled)] + seq![bool_property("visible"@, m.visible)]
        + opt_str_property("icon-name"@, m.icon_name) + seq![
        str_property("disposition"@, m.disposition.name()),
    ] + toggle_state_property(m.toggle_state) + opt_str_property(
        "toggle-type"@,
        m.toggle_type.name(),
    ) + seq![str_property("type"@, m.menu_type.name())]
}

/// The layout node that stands for `m`: its id, its properties, and its
/// children, each inside a variant.
pub open spec fn encode_item(m: MenuItemView) -> ValueView
    decreases m, 0nat,
{
    ValueView::Structure(
        seq![
            ValueView::I32(m.id),
            ValueView::Dict(encode_properties(m)),
            ValueView::Array(encode_prefix(m.submenu, m.submenu.len())),
        ],
    )
}

/// The layout nodes that stand for the first `n` of `items`, each inside a
/// variant.
pub open spec fn encode_prefix(items: Seq<MenuItemView>, n: nat) -> Seq<ValueView>
    decreases items, n,
{
    if n == 0 || n > items.len() {
        Seq::empty()
    } else {
        encode_prefix(items, (n - 1) as nat).push(
            ValueView::Variant(Box::new(encode_item(items[n - 1]))),
        )
    }
}

/// What a decoder reads back as it was written: an entry without an
/// underscore in a label, at any level. An underscore is a mnemonic marker
/// to the decoder, and is taken out.
pub open spec fn encodable(m: MenuItemView) -> bool
    decreases m,
{
    &&& !m.label.contains('_')
    &&& forall|i: int| 0 <= i < m.submenu.len() ==> encodable(#[trigger] m.submenu[i])
}

/// The first of two answers that is there.
pub open spec fn or_else(first: Option<ValueView>, second: Option<ValueView>) -> Option<
    ValueView,
> {
    match first {
        Some(v) => Some(v),
        None => second,
    }
}

/// A key is looked up in a concatenation part by part.
pub proof fn lemma_find_concat(
    a: Seq<(ValueView, ValueView)>,
    b: Seq<(ValueView, ValueView)>,
    key: Seq<char>,
)
    ensures
        dict_find(a + b, key) == or_else(dict_find(a, key), dict_find(b, key)),
    decreases a.len(),
{
    if a.len() == 0 {
        assert(a + b =~= b);
    } else {
        assert((a + b)[0] == a[0]);
        assert((a + b).drop_first() =~= a.drop_first() + b);
        lemma_find_concat(a.drop_first(), b, key);
    }
}

/// A key is found in a single string-keyed entry when it is the entry's key.
pub proof fn lemma_find_single(name: Seq<char>, value: ValueView, key: Seq<char>)
    ensures
        dict_find(seq![(ValueView::Str(name), value)], key) == if name == key {
            Some(value)
        } else {
            None
        },
        dict_find(Seq::empty(), key) is None,
{
    let one = seq![(ValueView::Str(name), value)];
    assert(one.drop_first() =~= Seq::empty());
    assert(dict_find(one.drop_first(), key) is None);
}

/// What is found under `key` in a string property that may be absent.
proof fn lemma_find_opt_str(name: Seq<char>, value: Option<Seq<char>>, key: Seq<char>)
    ensures
        dict_find(opt_str_property(name, value), key) == if name == key && value is Some {
            Some(str_property(name, value->0).1)
        } else {
            None
        },
{
    match value {
        Some(v) => {
            lemma_find_single(name, str_property(name, v).1, key);
        },
        None => {
            lemma_find_single(name, ValueView::Other, key);
        },
    }
}

/// What is found under `key` in a `toggle-state` property.
proof fn lemma_find_toggle_state(state: ToggleState, key: Seq<char>)
    ensures
        dict_find(toggle_state_property(state), key) == if "toggle-state"@ == key && state
            != ToggleState::Indeterminate {
            Some(bool_property("toggle-state"@, state == ToggleState::On).1)
        } else {
            None
        },
{
    lemma_find_single("toggle-state"@, bool_property("toggle-state"@, true).1, key);
    lemma_find_single("toggle-state"@, bool_property("toggle-state"@, false).1, key);
}

/// The names of the nine properties differ from one another: by their
/// length, or by their first character where the lengths agree.
proof fn lemma_property_names_differ()
    ensures
        "children_display"@.len() == 16,
        "label"@.len() == 5,
        "enabled"@.len() == 7,
        "visible"@.len() == 7,
        "icon-name"@.len() == 9,
        "disposition"@.len() == 11,
        "toggle-state"@.len() == 12,
        "toggle-type"@.len() == 11,
        "type"@.len() == 4,
        "enabled"@[0] != "visible"@[0],
        "disposition"@[0] != "toggle-type"@[0],
{
    reveal_strlit("children_display");
    reveal_strlit("label");
    reveal_strlit("enabled");
    reveal_strlit("visible");
    reveal_strlit("icon-name");
    reveal_strlit("disposition");
    reveal_strlit("toggle-state");
    reveal_strlit("toggle-type");
    reveal_strlit("type");
}

/// What is found under `key` among the encoded properties of `m`: the
/// value of the property that `key` names.
proof fn lemma_find_encoded(m: MenuItemView, key: Seq<char>)
    ensures
        dict_find(encode_properties(m), key) == if key == "children_display"@
            && m.children_display is Some {
            Some(str_property(key, m.children_display->0).1)
        } else if key == "label"@ {
            Some(str_property(key, m.label).1)
        } else if key == "enabled"@ {
            Some(bool_property(key, m.enabled).1)
        } else if key == "visible"@ {
            Some(bool_property(key, m.visible).1)
        } else if key == "icon-name"@ && m.icon_name is Some {
            Some(str_property(key, m.icon_name->0).1)
        } else if key == "disposition"@ {
            Some(str_property(key, m.disposition.name()).1)
        } else if key == "toggle-state"@ && m.toggle_state != ToggleState::Indeterminate {
            Some(bool_property(key, m.toggle_state == ToggleState::On).1)
        } else if key == "toggle-type"@ && m.toggle_type.name() is Some {
            Some(str_property(key, m.toggle_type.name()->0).1)
        } else if key == "type"@ {
            Some(str_property(key, m.menu_type.name()).1)
        } else {
            None
        },
{
    lemma_property_names_differ();
    let display = opt_str_property("children_display"@, m.children_display);
    let label = seq![str_property("label"@, m.label)];
    let enabled = seq![bool_property("enabled"@, m.enabled)];
    let visible = seq![bool_property("visible"@, m.visible)];
    let icon = opt_str_property("icon-name"@, m.icon_name);
    let disposition = seq![str_property("disposition"@, m.disposition.name())];
    let state = toggle_state_property(m.toggle_state);
    let toggle = opt_str_property("toggle-type"@, m.toggle_type.name());
    let kind = seq![str_property("type"@, m.menu_type.name())];
    lemma_find_concat(display + label + enabled + visible + icon + disposition + state + toggle, kind, key);
    lemma_find_concat(display + label + enabled + visible + icon + disposition + state, toggle, key);
    lemma_find_concat(display + label + enabled + visible + icon + disposition, state, key);
    lemma_find_concat(display + label + enabled + visible + icon, disposition, key);
    lemma_find_concat(display + label + enabled + visible, icon, key);
    lemma_find_concat(display + label + enabled, visible, key);
    lemma_find_concat(display + label, enabled, key);
    lemma_find_concat(display, label, key);
    lemma_find_opt_str("children_display"@, m.children_display, key);
    lemma_find_single("label"@, str_property("label"@, m.label).1, key);
    lemma_find_single("enabled"@, bool_property("enabled"@, m.enabled).1, key);
    lemma_find_single("visible"@, bool_property("visible"@, m.visible).1, key);
    lemma_find_opt_str("icon-name"@, m.icon_name, key);
    lemma_find_single("disposition"@, str_property("disposition"@, m.disposition.name()).1, key);
    lemma_find_toggle_state(m.toggle_state, key);
    lemma_find_opt_str("toggle-type"@, m.toggle_type.name(), key);
    lemma_find_single("type"@, str_property("type"@, m.menu_type.name()).1, key);
}

/// The properties of an encodable entry are read back from their encoding.
pub proof fn lemma_properties_round_trip(m: MenuItemView)
    requires
        !m.label.contains('_'),
    ensures
        decode_properties(encode_properties(m)) == (MenuItemView {
            id: 0,
            submenu: Seq::empty(),
            ..m
        }),
{
    lemma_property_names_differ();
    lemma_find_encoded(m, "children_display"@);
    lemma_find_encoded(m, "label"@);
    lemma_find_encoded(m, "enabled"@);
    lemma_find_encoded(m, "visible"@);
    lemma_find_encoded(m, "icon-name"@);
    lemma_find_encoded(m, "disposition"@);
    lemma_find_encoded(m, "toggle-state"@);
    lemma_find_encoded(m, "toggle-type"@);
    lemma_find_encoded(m, "type"@);
    lemma_without_unchanged(m.label, '_');
    lemma_names_are_parsed(m.menu_type, m.disposition, m.toggle_type);
}

/// Decoding the layout node that stands for an entry gives the entry back,
/// when the entry is encodable and the decoder is left enough levels.
pub proof fn lemma_round_trip(m: MenuItemView, depth: nat)
    requires
        encodable(m),
        within_levels(m, depth + 1),
    ensures
        decode_item(encode_item(m), depth) == Some(m),
    decreases depth, 1nat, 0nat,
{
    lemma_properties_round_trip(m);
    lemma_round_trip_list(m.submenu, m.submenu.len(), depth);
    assert(m.submenu.take(m.submenu.len() as int) =~= m.submenu);
    let fields = read_structure(encode_item(m))->0;
    assert(node_children(fields) == encode_prefix(m.submenu, m.submenu.len()));
    assert(node_properties(fields) == encode_properties(m));
    assert(node_id(fields) == m.id);
}

/// Decoding the layout nodes that stand for a list of entries gives the
/// entries back.
pub proof fn lemma_round_trip_list(items: Seq<MenuItemView>, n: nat, depth: nat)
    requires
        n <= items.len(),
        forall|i: int| 0 <= i < items.len() ==> encodable(#[trigger] items[i]),
        forall|i: int| 0 <= i < items.len() ==> within_levels(#[trigger] items[i], depth),
    ensures
        encode_prefix(items, n).len() == n,
        decode_children(encode_prefix(items, n), depth) == items.take(n as int),
    decreases depth, 0nat, n,
{
    if n == 0 {
        assert(items.take(0) =~= Seq::empty());
    } else {
        lemma_round_trip_list(items, (n - 1) as nat, depth);
        let encoded = encode_prefix(items, n);
        let last = items[n - 1];
        assert(within_levels(last, depth));
        assert(encoded.drop_last() =~= encode_prefix(items, (n - 1) as nat));
        assert(encoded.last() == ValueView::Variant(Box::new(encode_item(last))));
        lemma_round_trip(last, (depth - 1) as nat);
        assert(decode_item(encoded.last(), (depth - 1) as nat) == decode_item(
            encode_item(last),
            (depth - 1) as nat,
        ));
        assert(items.take(n as int) =~= items.take(n - 1).push(last));
    }
}

/// Builds a string property of a layout node.
fn str_entry(key: &str, value: &str) -> (r: (Value, Value))
    ensures
        (r.0@, r.1@) == str_property(key@, value@),
{
    let name = Value::Str(String::from_str(key));
    let inner = Value::Str(String::from_str(value));
    assert(inner@ == ValueView::Str(value@));
    let boxed = Value::Variant(Box::new(inner));
    assert(boxed@ == ValueView::Variant(Box::new(inner@)));
    (name, boxed)
}

/// Builds a boolean property of a layout node.
fn bool_entry(key: &str, value: bool) -> (r: (Value, Value))
    ensures
        (r.0@, r.1@) == bool_property(key@, value),
{
    let name = Value::Str(String::from_str(key));
    let inner = Value::Bool(value);
    assert(inner@ == ValueView::Bool(value));
    let boxed = Value::Variant(Box::new(inner));
    assert(boxed@ == ValueView::Variant(Box::new(inner@)));
    (name, boxed)
}

/// Appends a string property.
fn add_str(entries: &mut Vec<(Value, Value)>, key: &str, value: &str)
    ensures
        entry_views(final(entries)@) == entry_views(old(entries)@) + seq![
            str_property(key@, value@),
        ],
{
    entries.push(str_entry(key, value));
    assert(entry_views(entries@) =~= entry_views(old(entries)@) + seq![
        str_property(key@, value@),
    ]);
}

/// Appends a boolean property.
fn add_bool(entries: &mut Vec<(Value, Value)>, key: &str, value: bool)
    ensures
        entry_views(final(entries)@) == entry_views(old(entries)@) + seq![
            bool_property(key@, value),
        ],
{
    entries.push(bool_entry(key, value));
    assert(entry_views(entries@) =~= entry_views(old(entries)@) + seq![
        bool_property(key@, value),
    ]);
}

/// Appends a string property if it has a value.
fn add_opt_str(entries: &mut Vec<(Value, Value)>, key: &str, value: &Option<String>)
    ensures
        entry_views(final(entries)@) == entry_views(old(entries)@) + opt_str_property(
            key@,
            opt_view(*value),
        ),
{
    match value {
        Some(v) => {
            add_str(entries, key, v.as_str());
        },
        None => {
            assert(entry_views(entries@) =~= entry_views(entries@) + Seq::empty());
        },
    }
}

/// Appends the `toggle-state` property of a state.
fn add_toggle_state(entries: &mut Vec<(Value, Value)>, state: ToggleState)
    ensures
        entry_views(final(entries)@) == entry_views(old(entries)@) + toggle_state_property(state),
{
    match state {
        ToggleState::On => {
            add_bool(entries, "toggle-state", true);
        },
        ToggleState::Off => {
            add_bool(entries, "toggle-state", false);
        },
        ToggleState::Indeterminate => {
            assert(entry_views(entries@) =~= entry_views(entries@) + Seq::empty());
        },
    }
}

impl MenuItem {
    /// Builds the properties of the layout node that stands for the entry.
    fn layout_properties(&self) -> (r: Vec<(Value, Value)>)
        ensures
            entry_views(r@) == encode_properties(self@),
    {
        let mut entries: Vec<(Value, Value)> = Vec::new();
        assert(entry_views(entries@) =~= Seq::empty());
        add_opt_str(&mut entries, "children_display", &self.children_display);
        assert(entry_views(entries@) =~= opt_str_property(
            "children_display"@,
            self@.children_display,
        ));
        add_str(&mut entries, "label", self.label.as_str());
        add_bool(&mut entries, "enabled", self.enabled);
        add_bool(&mut entries, "visible", self.visible);
        add_opt_str(&mut entries, "icon-name", &self.icon_name);
        add_str(&mut entries, "disposition", self.disposition.as_str());
        add_toggle_state(&mut entries, self.toggle_state);
        match self.toggle_type.as_str() {
            Some(name) => {
                add_str(&mut entries, "toggle-type", name);
            },
            None => {
                assert(entry_views(entries@) =~= entry_views(entries@) + Seq::empty());
            },
        }
        add_str(&mut entries, "type", self.menu_type.as_str());
        entries
    }

    /// Builds the layout node that stands for the entry, with everything
    /// below it.
    pub fn to_layout(&self) -> (r: Value)
        ensures
            r@ == encode_item(self@),
        decreases self,
    {
        let ghost below = self@.submenu;
        proof {
            lemma_submenu_views(*self);
        }
        let mut children: Vec<Value> = Vec::new();
        let mut i: usize = 0;
        assert(views(children@) =~= encode_prefix(below, 0));
        assert(forall|k: int|
            0 <= k < self.submenu.len() ==> decreases_to!(self => #[trigger] self.submenu[k]));
        while i < self.submenu.len()
            invariant
                i <= self.submenu.len(),
                below == item_views(self.submenu@),
                views(children@) == encode_prefix(below, i as nat),
                forall|k: int|
                    0 <= k < self.submenu.len() ==> decreases_to!(self => #[trigger] self.submenu[k]),
            decreases self.submenu.len() - i,
        {
            let ghost before = views(children@);
            let node = Value::Variant(Box::new(self.submenu[i].to_layout()));
            children.push(node);
            assert(views(children@) =~= before.push(node@));
            i += 1;
        }
        let properties = Value::Dict(self.layout_properties());
        let array = Value::Array(children);
        proof {
            lemma_container_views(properties);
            lemma_container_views(array);
        }
        let mut fields: Vec<Value> = Vec::new();
        fields.push(Value::I32(self.id));
        fields.push(properties);
        fields.push(array);
        let r = Value::Structure(fields);
        proof {
            lemma_container_views(r);
            assert(views(fields@) =~= seq![
                ValueView::I32(self.id),
                ValueView::Dict(encode_properties(self@)),
                ValueView::Array(encode_prefix(below, below.len())),
            ]);
        }
        r
    }
}

} // verus!
