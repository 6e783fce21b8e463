use stray::error::StatusNotifierWatcherError;
use stray::message::tray::{Category, DBusProperties, IconPixmap, Status, StatusNotifierItem};
use stray::value::Value;

fn text(s: &str) -> Value {
    Value::Variant(Box::new(Value::Str(s.to_string())))
}

fn entry(name: &str, value: Value) -> (String, Value) {
    (name.to_string(), value)
}

fn bag(entries: Vec<(String, Value)>) -> DBusProperties {
    DBusProperties { entries }
}

fn minimal() -> Vec<(String, Value)> {
    vec![
        entry("Id", text("nm-applet")),
        entry("Category", text("SystemServices")),
        entry("Status", text("Active")),
    ]
}

fn pixmap(width: i32, height: i32, pixels: Vec<u8>) -> Value {
    Value::Structure(vec![
        Value::I32(width),
        Value::I32(height),
        Value::Array(pixels.into_iter().map(Value::U8).collect()),
    ])
}

fn missing(name: &str) -> StatusNotifierWatcherError {
    StatusNotifierWatcherError::MissingProperty(name.to_string())
}

#[test]
fn minimal_item() {
    let item = StatusNotifierItem::try_from(&bag(minimal())).unwrap();
    assert_eq!(
        item,
        StatusNotifierItem {
            id: "nm-applet".to_string(),
            category: Category::SystemServices,
            status: Status::Active,
            icon_name: None,
            icon_accessible_desc: None,
            attention_icon_name: None,
            title: None,
            icon_theme_path: None,
            icon_pixmap: None,
            menu: None,
        }
    );
}

#[test]
fn full_item() {
    let mut entries = minimal();
    entries.push(entry("Title", text("Network")));
    entries.push(entry("IconName", text("network-wired")));
    entries.push(entry("IconAccessibleDesc", text("wired")));
    entries.push(entry("AttentionIconName", text("network-error")));
    entries.push(entry("IconThemePath", text("/usr/share/icons")));
    entries.push(entry(
        "IconPixmap",
        Value::Variant(Box::new(Value::Array(vec![
            pixmap(1, 1, vec![255, 0, 0, 0]),
            pixmap(2, 1, vec![1, 2, 3, 4, 5, 6, 7, 8]),
        ]))),
    ));
    entries.push(entry(
        "Menu",
        Value::Variant(Box::new(Value::ObjectPath("/MenuBar".to_string()))),
    ));
    let item = StatusNotifierItem::try_from(&bag(entries)).unwrap();
    assert_eq!(item.title, Some("Network".to_string()));
    assert_eq!(item.icon_name, Some("network-wired".to_string()));
    assert_eq!(item.icon_accessible_desc, Some("wired".to_string()));
    assert_eq!(item.attention_icon_name, Some("network-error".to_string()));
    assert_eq!(item.icon_theme_path, Some("/usr/share/icons".to_string()));
    assert_eq!(
        item.icon_pixmap,
        Some(vec![
            IconPixmap { width: 1, height: 1, pixels: vec![255, 0, 0, 0] },
            IconPixmap { width: 2, height: 1, pixels: vec![1, 2, 3, 4, 5, 6, 7, 8] },
        ])
    );
    assert_eq!(item.menu, Some("/MenuBar".to_string()));
    assert_eq!(item.clone(), item);
}

#[test]
fn missing_id() {
    let entries =
        vec![entry("Category", text("SystemServices")), entry("Status", text("Active"))];
    assert_eq!(StatusNotifierItem::try_from(&bag(entries)), Err(missing("Id")));
    assert_eq!(StatusNotifierItem::try_from(&bag(vec![])), Err(missing("Id")));
}

#[test]
fn id_of_another_type_is_missing() {
    let mut entries = minimal();
    entries[0] = entry("Id", Value::I32(3));
    assert_eq!(StatusNotifierItem::try_from(&bag(entries)), Err(missing("Id")));
}

#[test]
fn missing_category_and_status() {
    let entries = vec![entry("Id", text("a")), entry("Status", text("Active"))];
    assert_eq!(StatusNotifierItem::try_from(&bag(entries)), Err(missing("Category")));
    let entries = vec![entry("Id", text("a")), entry("Category", text("Hardware"))];
    assert_eq!(StatusNotifierItem::try_from(&bag(entries)), Err(missing("Status")));
    let entries = vec![entry("Id", text("a"))];
    assert_eq!(StatusNotifierItem::try_from(&bag(entries)), Err(missing("Category")));
}

#[test]
fn unknown_category_and_status() {
    let mut entries = minimal();
    entries[1] = entry("Category", text("Games"));
    assert_eq!(
        StatusNotifierItem::try_from(&bag(entries)),
        Err(StatusNotifierWatcherError::UnknownVariant("Games".to_string()))
    );
    let mut entries = minimal();
    entries[2] = entry("Status", text("NeedsAttention"));
    assert_eq!(
        StatusNotifierItem::try_from(&bag(entries)),
        Err(StatusNotifierWatcherError::UnknownVariant("NeedsAttention".to_string()))
    );
}

#[test]
fn status_names_stand_for_themselves() {
    assert_eq!(Status::from_str("Passive"), Ok(Status::Passive));
    assert_eq!(Status::from_str("Active"), Ok(Status::Active));
    assert_eq!(
        Status::from_str("active"),
        Err(StatusNotifierWatcherError::UnknownVariant("active".to_string()))
    );
}

#[test]
fn category_names() {
    assert_eq!(Category::from_str("ApplicationStatus"), Ok(Category::ApplicationStatus));
    assert_eq!(Category::from_str("Communications"), Ok(Category::Communications));
    assert_eq!(Category::from_str("SystemServices"), Ok(Category::SystemServices));
    assert_eq!(Category::from_str("Hardware"), Ok(Category::Hardware));
    assert_eq!(
        Category::from_str(""),
        Err(StatusNotifierWatcherError::UnknownVariant(String::new()))
    );
}

#[test]
fn empty_icon_theme_path_is_absent() {
    let mut entries = minimal();
    entries.push(entry("IconThemePath", text("")));
    entries.push(entry("IconName", text("")));
    let item = StatusNotifierItem::try_from(&bag(entries)).unwrap();
    assert_eq!(item.icon_theme_path, None);
    assert_eq!(item.icon_name, Some(String::new()));
}

#[test]
fn menu_must_be_an_object_path() {
    let mut entries = minimal();
    entries.push(entry("Menu", text("/MenuBar")));
    assert_eq!(StatusNotifierItem::try_from(&bag(entries)).unwrap().menu, None);
}

#[test]
fn first_entry_of_a_name_counts() {
    let mut entries = minimal();
    entries.push(entry("Id", text("second")));
    assert_eq!(StatusNotifierItem::try_from(&bag(entries)).unwrap().id, "nm-applet");
}

#[test]
fn getters_of_the_bag() {
    let mut entries = minimal();
    entries.push(entry("Menu", Value::ObjectPath("/M".to_string())));
    let props = bag(entries);
    assert_eq!(props.get_string("Id"), Some("nm-applet".to_string()));
    assert_eq!(props.get_string("Menu"), None);
    assert_eq!(props.get_string("Nothing"), None);
    assert_eq!(props.get_object_path("Menu"), Some("/M".to_string()));
    assert_eq!(props.get_object_path("Id"), None);
    assert_eq!(props.get_category(), Ok(Category::SystemServices));
    assert_eq!(props.get_status(), Ok(Status::Active));
    assert_eq!(props.get_icon_pixmap(), None);
    assert_eq!(props.get_icon_theme_path(), None);
    assert_eq!(props.get_u32("Id"), None);
}

#[test]
fn unsigned_property() {
    let props = bag(vec![
        entry("XAyatanaOrderingIndex", Value::Variant(Box::new(Value::U32(7)))),
        entry("Signed", Value::I32(7)),
    ]);
    assert_eq!(props.get_u32("XAyatanaOrderingIndex"), Some(7));
    assert_eq!(props.get_u32("Signed"), None);
    assert_eq!(props.get_u32("Absent"), None);
}

#[test]
fn pixmaps_are_read_as_a_whole() {
    let good = vec![pixmap(1, 2, vec![9]), pixmap(3, 4, vec![])];
    assert_eq!(
        IconPixmap::from_array(&good),
        Some(vec![
            IconPixmap { width: 1, height: 2, pixels: vec![9] },
            IconPixmap { width: 3, height: 4, pixels: vec![] },
        ])
    );
    assert_eq!(IconPixmap::from_array(&vec![]), Some(vec![]));
    let bad = vec![pixmap(1, 2, vec![9]), Value::I32(3)];
    assert_eq!(IconPixmap::from_array(&bad), None);
    let short = vec![Value::Structure(vec![Value::I32(1), Value::I32(2)])];
    assert_eq!(IconPixmap::from_array(&short), None);
    let wide = vec![Value::Structure(vec![
        Value::I64(1),
        Value::I32(2),
        Value::Array(vec![]),
    ])];
    assert_eq!(IconPixmap::from_array(&wide), None);
    let not_bytes = vec![Value::Structure(vec![
        Value::I32(1),
        Value::I32(2),
        Value::Array(vec![Value::U8(1), Value::I32(2)]),
    ])];
    assert_eq!(IconPixmap::from_array(&not_bytes), None);
}

#[test]
fn malformed_pixmap_leaves_the_item_without() {
    let mut entries = minimal();
    entries.push(entry("IconPixmap", Value::Array(vec![Value::Bool(true)])));
    assert_eq!(StatusNotifierItem::try_from(&bag(entries)).unwrap().icon_pixmap, None);
}
