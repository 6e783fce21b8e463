use stray::message::menu::TrayMenu;
use stray::message::tray::{Category, Status, StatusNotifierItem};
use stray::message::NotifierItemMessage;
use stray::table::AddressTable;
use stray::tray_icon::{Message, TrayIcon, TrayIconMessage};

fn listed(table: &AddressTable<u32>) -> Vec<(String, u32)> {
    let mut out = Vec::new();
    let mut index = 0;
    while let Some((address, value)) = table.entry(index) {
        out.push((address.clone(), *value));
        index += 1;
    }
    out
}

fn item(id: &str) -> StatusNotifierItem {
    StatusNotifierItem {
        id: id.to_string(),
        category: Category::Communications,
        status: Status::Passive,
        icon_name: None,
        icon_accessible_desc: None,
        attention_icon_name: None,
        title: None,
        icon_theme_path: None,
        icon_pixmap: None,
        menu: None,
    }
}

fn update(address: &str, id: &str, menu: Option<TrayMenu>) -> NotifierItemMessage {
    NotifierItemMessage::Update { address: address.to_string(), item: Box::new(item(id)), menu }
}

fn icon_update(address: &str) -> Message {
    Message::Update {
        address: address.to_string(),
        icon: TrayIconMessage { theme_path: None, icon_name: "x".to_string() },
    }
}

#[test]
fn new_table_is_empty() {
    let table: AddressTable<u32> = AddressTable::new();
    assert_eq!(table.len(), 0);
    assert_eq!(table.get(":1.1"), None);
    assert_eq!(table.entry(0), None);
}

#[test]
fn insert_lists_in_order_of_arrival() {
    let mut table = AddressTable::new();
    table.insert(":1.2".to_string(), 20);
    table.insert(":1.1".to_string(), 10);
    table.insert(":1.3".to_string(), 30);
    assert_eq!(
        listed(&table),
        vec![(":1.2".to_string(), 20), (":1.1".to_string(), 10), (":1.3".to_string(), 30)]
    );
    assert_eq!(table.get(":1.1"), Some(&10));
    assert_eq!(table.get(":1.4"), None);
    assert_eq!(table.len(), 3);
}

#[test]
fn insert_replaces_in_place() {
    let mut table = AddressTable::new();
    table.insert("a".to_string(), 1);
    table.insert("b".to_string(), 2);
    table.insert("a".to_string(), 3);
    assert_eq!(listed(&table), vec![("a".to_string(), 3), ("b".to_string(), 2)]);
}

#[test]
fn remove_takes_the_entry_out() {
    let mut table = AddressTable::new();
    table.insert("a".to_string(), 1);
    table.insert("b".to_string(), 2);
    table.insert("c".to_string(), 3);
    table.remove("b");
    assert_eq!(listed(&table), vec![("a".to_string(), 1), ("c".to_string(), 3)]);
    table.remove("b");
    table.remove("zz");
    assert_eq!(table.len(), 2);
    table.remove("a");
    table.remove("c");
    assert_eq!(table.len(), 0);
}

#[test]
fn messages_bring_the_tray_up_to_date() {
    let mut tray = AddressTable::new();
    update(":1.1", "one", None).apply(&mut tray);
    update(":1.2", "two", Some(TrayMenu { id: 4, submenus: vec![] })).apply(&mut tray);
    update(":1.1", "uno", None).apply(&mut tray);
    assert_eq!(tray.len(), 2);
    assert_eq!(tray.get(":1.1"), Some(&(item("uno"), None)));
    assert_eq!(tray.get(":1.2"), Some(&(item("two"), Some(TrayMenu { id: 4, submenus: vec![] }))));
    NotifierItemMessage::Remove { address: ":1.1".to_string() }.apply(&mut tray);
    assert_eq!(tray.get(":1.1"), None);
    assert_eq!(tray.len(), 1);
}

#[test]
fn update_after_remove_lists_the_item_anew() {
    let mut tray = AddressTable::new();
    update(":1.1", "one", None).apply(&mut tray);
    update(":1.2", "two", None).apply(&mut tray);
    NotifierItemMessage::Remove { address: ":1.1".to_string() }.apply(&mut tray);
    update(":1.1", "one", None).apply(&mut tray);
    assert_eq!(tray.entry(0).map(|(a, _)| a.clone()), Some(":1.2".to_string()));
    assert_eq!(tray.entry(1).map(|(a, _)| a.clone()), Some(":1.1".to_string()));
}

#[test]
fn remove_of_unknown_address_changes_nothing() {
    let mut tray = AddressTable::new();
    update(":1.1", "one", None).apply(&mut tray);
    NotifierItemMessage::Remove { address: ":1.9".to_string() }.apply(&mut tray);
    assert_eq!(tray.len(), 1);
}

#[test]
fn icons_follow_the_messages() {
    let mut icons = AddressTable::new();
    icon_update(":1.1").apply(&mut icons, Some(TrayIcon::new("/p/x.png".to_string())));
    icon_update(":1.2").apply(&mut icons, None);
    assert_eq!(icons.len(), 1);
    assert_eq!(
        icons.get(":1.1"),
        Some(&TrayIcon { icon_path: "/p/x.png".to_string(), tooltip: "the tool tip".to_string() })
    );
    icon_update(":1.1").apply(&mut icons, None);
    assert_eq!(icons.len(), 1);
    Message::Remove { address: ":1.1".to_string() }.apply(&mut icons, None);
    assert_eq!(icons.len(), 0);
}
