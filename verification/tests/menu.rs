use stray::dbus::dbusmenu_proxy::{MenuLayout, SubMenuLayout};
use stray::error::StatusNotifierWatcherError;
use stray::message::menu::{
    decode_all, Disposition, MenuItem, MenuType, ToggleState, ToggleType, TrayMenu,
};
use stray::value::Value;

fn text(s: &str) -> Value {
    Value::Variant(Box::new(Value::Str(s.to_string())))
}

fn flag(b: bool) -> Value {
    Value::Variant(Box::new(Value::Bool(b)))
}

fn key(s: &str) -> Value {
    Value::Str(s.to_string())
}

fn node(id: i32, properties: Vec<(Value, Value)>, children: Vec<Value>) -> Value {
    Value::Structure(vec![Value::I32(id), Value::Dict(properties), Value::Array(children)])
}

fn child(id: i32, properties: Vec<(Value, Value)>, children: Vec<Value>) -> Value {
    Value::Variant(Box::new(node(id, properties, children)))
}

fn labelled(id: i32, label: &str, children: Vec<Value>) -> Value {
    child(id, vec![(key("label"), text(label))], children)
}

fn chain(levels: i32) -> Value {
    let mut current = labelled(levels, "leaf", vec![]);
    let mut id = levels - 1;
    while id >= 1 {
        current = labelled(id, "inner", vec![current]);
        id -= 1;
    }
    current
}

fn depth_of(item: &MenuItem) -> usize {
    1 + item.submenu.iter().map(depth_of).max().unwrap_or(0)
}

fn layout(id: u32, submenus: Vec<Value>) -> MenuLayout {
    MenuLayout { id, fields: SubMenuLayout { id: 0, fields: vec![], submenus } }
}

fn has_underscore(item: &MenuItem) -> bool {
    item.label.contains('_') || item.submenu.iter().any(has_underscore)
}

#[test]
fn default_menu_item() {
    let item = MenuItem::default();
    assert_eq!(item.id, 0);
    assert_eq!(item.children_display, None);
    assert_eq!(item.label, "");
    assert!(item.enabled);
    assert!(item.visible);
    assert_eq!(item.icon_name, None);
    assert_eq!(item.toggle_state, ToggleState::Indeterminate);
    assert_eq!(item.toggle_type, ToggleType::CannotBeToggled);
    assert_eq!(item.menu_type, MenuType::Standard);
    assert_eq!(item.disposition, Disposition::Normal);
    assert!(item.submenu.is_empty());
}

#[test]
fn label_strip() {
    let value = node(1, vec![(key("label"), text("_File"))], vec![]);
    let item = MenuItem::try_from(&value).unwrap();
    assert_eq!(item.label, "File");
    assert_eq!(item.id, 1);
}

#[test]
fn every_underscore_is_stripped() {
    let value = node(1, vec![(key("label"), text("Save _As__ _"))], vec![]);
    assert_eq!(MenuItem::try_from(&value).unwrap().label, "Save As ");
}

#[test]
fn all_properties_are_read() {
    let value = node(
        42,
        vec![
            (key("children_display"), text("submenu")),
            (key("label"), text("_Open")),
            (key("enabled"), flag(false)),
            (key("visible"), flag(false)),
            (key("icon-name"), text("document-open")),
            (key("disposition"), text("warning")),
            (key("toggle-state"), flag(true)),
            (key("toggle-type"), text("radio")),
            (key("type"), text("separator")),
        ],
        vec![labelled(43, "Below", vec![])],
    );
    let item = MenuItem::try_from(&value).unwrap();
    let mut below = MenuItem::default();
    below.id = 43;
    below.label = "Below".to_string();
    assert_eq!(
        item,
        MenuItem {
            id: 42,
            children_display: Some("submenu".to_string()),
            label: "Open".to_string(),
            enabled: false,
            visible: false,
            icon_name: Some("document-open".to_string()),
            toggle_state: ToggleState::On,
            toggle_type: ToggleType::Radio,
            menu_type: MenuType::Separator,
            disposition: Disposition::Warning,
            submenu: vec![below],
        }
    );
}

#[test]
fn missing_entries_use_defaults() {
    let item = MenuItem::try_from(&node(5, vec![], vec![])).unwrap();
    let mut expected = MenuItem::default();
    expected.id = 5;
    assert_eq!(item, expected);
}

#[test]
fn mistyped_entries_use_defaults() {
    let value = node(
        5,
        vec![
            (key("label"), flag(true)),
            (key("enabled"), text("no")),
            (key("visible"), Value::I32(0)),
            (key("icon-name"), Value::U32(3)),
            (key("children_display"), Value::Other),
            (key("disposition"), text("loud")),
            (key("toggle-state"), text("on")),
            (key("toggle-type"), text("switch")),
            (key("type"), text("fancy")),
        ],
        vec![],
    );
    let mut expected = MenuItem::default();
    expected.id = 5;
    assert_eq!(MenuItem::try_from(&value).unwrap(), expected);
}

#[test]
fn mistyped_fields_use_defaults() {
    let value = Value::Structure(vec![
        Value::Str("id".to_string()),
        Value::Array(vec![]),
        Value::Dict(vec![]),
    ]);
    assert_eq!(MenuItem::try_from(&value).unwrap(), MenuItem::default());
    assert_eq!(MenuItem::try_from(&Value::Structure(vec![])).unwrap(), MenuItem::default());
    let mut seven = MenuItem::default();
    seven.id = 7;
    assert_eq!(MenuItem::try_from(&Value::Structure(vec![Value::I32(7)])).unwrap(), seven);
}

#[test]
fn first_entry_of_a_key_counts() {
    let value =
        node(1, vec![(key("label"), text("First")), (key("label"), text("Second"))], vec![]);
    assert_eq!(MenuItem::try_from(&value).unwrap().label, "First");
}

#[test]
fn keys_of_other_types_are_passed_over() {
    let value = node(1, vec![(Value::I32(1), text("no")), (key("label"), text("Yes"))], vec![]);
    assert_eq!(MenuItem::try_from(&value).unwrap().label, "Yes");
}

#[test]
fn plain_values_are_read_like_variants() {
    let value = node(
        1,
        vec![(key("label"), Value::Str("Bare".to_string())), (key("enabled"), Value::Bool(false))],
        vec![],
    );
    let item = MenuItem::try_from(&value).unwrap();
    assert_eq!(item.label, "Bare");
    assert!(!item.enabled);
}

#[test]
fn only_one_variant_level_is_opened() {
    let twice = Value::Variant(Box::new(text("Deep")));
    let value = node(1, vec![(key("label"), twice)], vec![]);
    assert_eq!(MenuItem::try_from(&value).unwrap().label, "");
}

#[test]
fn value_that_is_no_structure_is_rejected() {
    assert_eq!(MenuItem::try_from(&Value::I32(3)), Err(StatusNotifierWatcherError::IncorrectType));
    assert_eq!(
        MenuItem::try_from(&Value::Array(vec![])),
        Err(StatusNotifierWatcherError::IncorrectType)
    );
    assert_eq!(MenuItem::decode(&Value::Other, 3), None);
}

#[test]
fn malformed_child_does_not_drop_its_siblings() {
    let value = node(
        1,
        vec![],
        vec![labelled(2, "a", vec![]), Value::I32(9), text("x"), labelled(3, "b", vec![])],
    );
    let item = MenuItem::try_from(&value).unwrap();
    let ids: Vec<i32> = item.submenu.iter().map(|m| m.id).collect();
    assert_eq!(ids, vec![2, 3]);
}

#[test]
fn order_of_children_is_kept() {
    let children = (1..=20).rev().map(|id| labelled(id, "x", vec![])).collect();
    let item = MenuItem::try_from(&node(0, vec![], children)).unwrap();
    let ids: Vec<i32> = item.submenu.iter().map(|m| m.id).collect();
    assert_eq!(ids, (1..=20).rev().collect::<Vec<i32>>());
}

#[test]
fn toggle_state_from_flag() {
    assert_eq!(ToggleState::from(true), ToggleState::On);
    assert_eq!(ToggleState::from(false), ToggleState::Off);
}

#[test]
fn menu_type_names() {
    assert_eq!(MenuType::from_str("standard"), Ok(MenuType::Standard));
    assert_eq!(MenuType::from_str("separator"), Ok(MenuType::Separator));
    assert_eq!(
        MenuType::from_str("Standard"),
        Err(StatusNotifierWatcherError::UnknownVariant("Standard".to_string()))
    );
    assert_eq!(MenuType::Standard.as_str(), "standard");
    assert_eq!(MenuType::Separator.as_str(), "separator");
}

#[test]
fn toggle_type_names() {
    assert_eq!(ToggleType::from_str("checkmark"), Ok(ToggleType::Checkmark));
    assert_eq!(ToggleType::from_str("radio"), Ok(ToggleType::Radio));
    assert_eq!(
        ToggleType::from_str(""),
        Err(StatusNotifierWatcherError::UnknownVariant(String::new()))
    );
    assert_eq!(ToggleType::Checkmark.as_str(), Some("checkmark"));
    assert_eq!(ToggleType::Radio.as_str(), Some("radio"));
    assert_eq!(ToggleType::CannotBeToggled.as_str(), None);
}

#[test]
fn disposition_names() {
    assert_eq!(Disposition::from_str("normal"), Ok(Disposition::Normal));
    assert_eq!(Disposition::from_str("informative"), Ok(Disposition::Informative));
    assert_eq!(Disposition::from_str("warning"), Ok(Disposition::Warning));
    assert_eq!(Disposition::from_str("alert"), Ok(Disposition::Alert));
    assert_eq!(
        Disposition::from_str("alarm"),
        Err(StatusNotifierWatcherError::UnknownVariant("alarm".to_string()))
    );
    for d in
        [Disposition::Normal, Disposition::Informative, Disposition::Warning, Disposition::Alert]
    {
        assert_eq!(Disposition::from_str(d.as_str()), Ok(d));
    }
}

#[test]
fn tray_menu_takes_the_layout_revision() {
    let menu = TrayMenu::try_from(layout(17, vec![labelled(1, "_Quit", vec![])])).unwrap();
    assert_eq!(menu.id, 17);
    assert_eq!(menu.submenus.len(), 1);
    assert_eq!(menu.submenus[0].label, "Quit");
}

#[test]
fn empty_layout_is_an_empty_menu() {
    assert_eq!(TrayMenu::try_from(layout(0, vec![])), Ok(TrayMenu { id: 0, submenus: vec![] }));
}

#[test]
fn menu_of_ten_levels_is_kept_whole() {
    let menu = TrayMenu::try_from(layout(1, vec![chain(10)])).unwrap();
    assert_eq!(depth_of(&menu.submenus[0]), 10);
}

#[test]
fn menu_deeper_than_ten_levels_is_truncated() {
    let deep = TrayMenu::try_from(layout(1, vec![chain(13)])).unwrap();
    assert_eq!(depth_of(&deep.submenus[0]), 10);
    let mut item = &deep.submenus[0];
    for id in 1..=10 {
        assert_eq!(item.id, id);
        assert_eq!(item.label, "inner");
        if id < 10 {
            item = &item.submenu[0];
        }
    }
    assert!(item.submenu.is_empty());
}

#[test]
fn decoding_with_no_levels_gives_nothing() {
    assert_eq!(decode_all(&vec![labelled(1, "a", vec![])], 0), Vec::new());
}

#[test]
fn shallower_levels_are_the_same_whatever_the_depth() {
    let shallow = MenuItem::decode(&chain(6), 2).unwrap();
    let deep = MenuItem::decode(&chain(6), 5).unwrap();
    assert_eq!(depth_of(&shallow), 3);
    assert_eq!(depth_of(&deep), 6);
    assert_eq!(shallow.id, deep.id);
    assert_eq!(shallow.submenu[0].id, deep.submenu[0].id);
    assert_eq!(shallow.submenu[0].submenu[0].id, deep.submenu[0].submenu[0].id);
    assert!(shallow.submenu[0].submenu[0].submenu.is_empty());
}

#[test]
fn no_label_keeps_an_underscore() {
    let tree = vec![
        labelled(1, "_a", vec![labelled(2, "b__c", vec![labelled(3, "_", vec![])])]),
        labelled(4, "d_", vec![]),
    ];
    let menu = TrayMenu::try_from(layout(1, tree)).unwrap();
    assert!(!menu.submenus.iter().any(has_underscore));
    assert_eq!(menu.submenus[0].submenu[0].label, "bc");
    assert_eq!(menu.submenus[0].submenu[0].submenu[0].label, "");
}

#[test]
fn layout_round_trip() {
    let mut leaf = MenuItem::default();
    leaf.id = 3;
    leaf.label = "Leaf".to_string();
    leaf.toggle_type = ToggleType::Checkmark;
    leaf.toggle_state = ToggleState::On;
    let mut separator = MenuItem::default();
    separator.id = 4;
    separator.menu_type = MenuType::Separator;
    separator.visible = false;
    let item = MenuItem {
        id: 2,
        children_display: Some("submenu".to_string()),
        label: "Parent".to_string(),
        enabled: false,
        visible: true,
        icon_name: Some("folder".to_string()),
        toggle_state: ToggleState::Indeterminate,
        toggle_type: ToggleType::CannotBeToggled,
        menu_type: MenuType::Standard,
        disposition: Disposition::Alert,
        submenu: vec![leaf, separator],
    };
    assert_eq!(MenuItem::try_from(&item.to_layout()), Ok(item.clone()));
    assert_eq!(MenuItem::decode(&item.to_layout(), 1), Some(item));
}

#[test]
fn layout_of_default_item() {
    let value = MenuItem::default().to_layout();
    assert_eq!(
        value,
        Value::Structure(vec![
            Value::I32(0),
            Value::Dict(vec![
                (key("label"), text("")),
                (key("enabled"), flag(true)),
                (key("visible"), flag(true)),
                (key("disposition"), text("normal")),
                (key("type"), text("standard")),
            ]),
            Value::Array(vec![]),
        ])
    );
}

#[test]
fn cleared_toggle_state_is_off() {
    let value = node(1, vec![(key("toggle-state"), flag(false))], vec![]);
    assert_eq!(MenuItem::try_from(&value).unwrap().toggle_state, ToggleState::Off);
    let value = node(1, vec![(key("toggle-state"), flag(true))], vec![]);
    assert_eq!(MenuItem::try_from(&value).unwrap().toggle_state, ToggleState::On);
    let value = node(1, vec![], vec![]);
    assert_eq!(MenuItem::try_from(&value).unwrap().toggle_state, ToggleState::Indeterminate);
}

#[test]
fn every_toggle_state_is_read_back() {
    for state in [ToggleState::On, ToggleState::Off, ToggleState::Indeterminate] {
        let mut child = MenuItem::default();
        child.id = 2;
        child.toggle_state = state;
        child.toggle_type = ToggleType::Radio;
        let mut item = MenuItem::default();
        item.id = 1;
        item.toggle_state = state;
        item.toggle_type = ToggleType::Checkmark;
        item.submenu = vec![child];
        assert_eq!(MenuItem::try_from(&item.to_layout()), Ok(item));
    }
}

#[test]
fn underscore_in_a_label_is_not_read_back() {
    let mut item = MenuItem::default();
    item.label = "a_b".to_string();
    assert_eq!(MenuItem::try_from(&item.to_layout()).unwrap().label, "ab");
}

#[test]
fn cloned_menu_is_equal() {
    let menu = TrayMenu::try_from(layout(3, vec![chain(4), labelled(9, "x", vec![])])).unwrap();
    assert_eq!(menu.clone(), menu);
    assert_eq!(menu.submenus[0].clone(), menu.submenus[0]);
}
