use stray::dbus::dbusmenu_proxy::{MenuEvent, MenuLayout, SubMenuLayout};
use stray::message::menu::{MenuItem, TrayMenu};
use stray::message::tray::{Category, DBusProperties, Status, StatusNotifierItem};
use stray::message::{NotifierItemCommand, NotifierItemMessage};
use stray::notifier_watcher::notifier_address::NotifierAddress;
use stray::notifier_watcher::{
    dispatch_ui_command, menu_event, ItemSubscription, TrackerAction, TrackerEvent,
};
use stray::value::Value;

fn text(s: &str) -> Value {
    Value::Variant(Box::new(Value::Str(s.to_string())))
}

fn props(id: Option<&str>, menu: Option<&str>) -> DBusProperties {
    let mut entries = vec![
        ("Category".to_string(), text("ApplicationStatus")),
        ("Status".to_string(), text("Passive")),
    ];
    if let Some(id) = id {
        entries.push(("Id".to_string(), text(id)));
    }
    if let Some(menu) = menu {
        entries.push(("Menu".to_string(), Value::ObjectPath(menu.to_string())));
    }
    DBusProperties { entries }
}

fn item(id: &str, menu: Option<&str>) -> StatusNotifierItem {
    StatusNotifierItem {
        id: id.to_string(),
        category: Category::ApplicationStatus,
        status: Status::Passive,
        icon_name: None,
        icon_accessible_desc: None,
        attention_icon_name: None,
        title: None,
        icon_theme_path: None,
        icon_pixmap: None,
        menu: menu.map(str::to_string),
    }
}

fn subscription() -> ItemSubscription {
    ItemSubscription::new(NotifierAddress {
        destination: ":1.50".to_string(),
        path: "/StatusNotifierItem".to_string(),
    })
}

fn layout() -> MenuLayout {
    let entry = Value::Variant(Box::new(Value::Structure(vec![
        Value::I32(4),
        Value::Dict(vec![(Value::Str("label".to_string()), text("_Quit"))]),
        Value::Array(vec![]),
    ])));
    MenuLayout { id: 8, fields: SubMenuLayout { id: 0, fields: vec![], submenus: vec![entry] } }
}

fn update(id: &str, menu_path: Option<&str>, menu: Option<TrayMenu>) -> TrackerAction {
    TrackerAction::Publish(NotifierItemMessage::Update {
        address: ":1.50".to_string(),
        item: Box::new(item(id, menu_path)),
        menu,
    })
}

fn fetch_layout(path: &str) -> TrackerAction {
    TrackerAction::FetchLayout {
        destination: ":1.50".to_string(),
        path: path.to_string(),
        parent_id: 0,
        recursion_depth: 10,
        property_names: vec![],
    }
}

#[test]
fn first_step_fetches_all_properties() {
    let subscription = subscription();
    assert_eq!(subscription.destination(), ":1.50");
    assert_eq!(subscription.item(), None);
    assert_eq!(
        subscription.on_item_signal(),
        TrackerAction::FetchProperties {
            destination: ":1.50".to_string(),
            path: "/StatusNotifierItem".to_string(),
            interface: "org.kde.StatusNotifierItem".to_string(),
        }
    );
}

#[test]
fn item_without_menu_is_published() {
    let mut subscription = subscription();
    let action = subscription.on_properties(Some(props(Some("app"), None)));
    assert_eq!(action, update("app", None, None));
    assert_eq!(subscription.item(), Some(&item("app", None)));
    assert_eq!(subscription.on_menu_signal(), TrackerAction::Wait);
}

#[test]
fn missing_id_publishes_nothing() {
    let mut subscription = subscription();
    assert_eq!(subscription.on_properties(Some(props(None, Some("/Menu")))), TrackerAction::Wait);
    assert_eq!(subscription.item(), None);
    assert_eq!(subscription.on_layout(Some(layout())), TrackerAction::Wait);
    assert_eq!(subscription.on_menu_signal(), TrackerAction::Wait);
}

#[test]
fn failed_fetch_publishes_nothing() {
    let mut subscription = subscription();
    assert_eq!(subscription.on_properties(None), TrackerAction::Wait);
    assert_eq!(subscription.item(), None);
}

#[test]
fn parse_failure_keeps_the_last_item() {
    let mut subscription = subscription();
    subscription.on_properties(Some(props(Some("app"), None)));
    assert_eq!(subscription.on_properties(Some(props(None, None))), TrackerAction::Wait);
    assert_eq!(subscription.item(), Some(&item("app", None)));
}

#[test]
fn item_with_menu_asks_for_the_layout() {
    let mut subscription = subscription();
    let action = subscription.on_properties(Some(props(Some("app"), Some("/MenuBar"))));
    assert_eq!(action, fetch_layout("/MenuBar"));
    let mut quit = MenuItem::default();
    quit.id = 4;
    quit.label = "Quit".to_string();
    assert_eq!(
        subscription.on_layout(Some(layout())),
        update("app", Some("/MenuBar"), Some(TrayMenu { id: 8, submenus: vec![quit] }))
    );
}

#[test]
fn failed_layout_publishes_without_menu() {
    let mut subscription = subscription();
    subscription.on_properties(Some(props(Some("app"), Some("/MenuBar"))));
    assert_eq!(subscription.on_layout(None), update("app", Some("/MenuBar"), None));
}

#[test]
fn menu_signal_asks_for_the_layout_again() {
    let mut subscription = subscription();
    subscription.on_properties(Some(props(Some("app"), Some("/MenuBar"))));
    assert_eq!(subscription.on_menu_signal(), fetch_layout("/MenuBar"));
}

#[test]
fn later_properties_replace_the_item() {
    let mut subscription = subscription();
    subscription.on_properties(Some(props(Some("one"), None)));
    assert_eq!(
        subscription.on_properties(Some(props(Some("two"), None))),
        update("two", None, None)
    );
    assert_eq!(subscription.on_layout(None), update("two", None, None));
}

#[test]
fn click_becomes_an_event() {
    let command = NotifierItemCommand::MenuItemClicked {
        submenu_id: 12,
        menu_path: "/MenuBar".to_string(),
        notifier_address: ":1.50".to_string(),
    };
    assert_eq!(
        menu_event(&command, 123_456),
        MenuEvent {
            destination: ":1.50".to_string(),
            path: "/MenuBar".to_string(),
            id: 12,
            event_id: "clicked".to_string(),
            data: Value::I32(32),
            timestamp: 123_456,
        }
    );
}

#[test]
fn event_stamp_is_taken_modulo_one_second() {
    let command = NotifierItemCommand::MenuItemClicked {
        submenu_id: -1,
        menu_path: "/".to_string(),
        notifier_address: "a".to_string(),
    };
    assert_eq!(menu_event(&command, 1_000_000).timestamp, 0);
    assert_eq!(menu_event(&command, 1_999_999).timestamp, 999_999);
    assert_eq!(menu_event(&command, 999_999).timestamp, 999_999);
    assert_eq!(menu_event(&command, 0).timestamp, 0);
}

#[test]
fn dispatched_click_is_stamped_by_the_clock() {
    let command = NotifierItemCommand::MenuItemClicked {
        submenu_id: 3,
        menu_path: "/MenuBar".to_string(),
        notifier_address: ":1.50".to_string(),
    };
    let event = dispatch_ui_command(&command);
    assert!(event.timestamp < 1_000_000);
    assert_eq!(event, menu_event(&command, event.timestamp));
}

#[test]
fn cloned_message_is_equal() {
    let message = NotifierItemMessage::Update {
        address: ":1.50".to_string(),
        item: Box::new(item("app", Some("/M"))),
        menu: Some(TrayMenu::try_from(layout()).unwrap()),
    };
    assert_eq!(message.clone(), message);
    let remove = NotifierItemMessage::Remove { address: ":1.50".to_string() };
    assert_eq!(remove.clone(), remove);
}

#[test]
fn steps_of_a_fetch_cycle() {
    let mut subscription = subscription();
    assert_eq!(
        subscription.step(TrackerEvent::ItemSignal),
        TrackerAction::FetchProperties {
            destination: ":1.50".to_string(),
            path: "/StatusNotifierItem".to_string(),
            interface: "org.kde.StatusNotifierItem".to_string(),
        }
    );
    assert_eq!(subscription.step(TrackerEvent::Layout(Some(layout()))), TrackerAction::Wait);
    assert_eq!(
        subscription.step(TrackerEvent::Properties(Some(props(Some("app"), Some("/MenuBar"))))),
        fetch_layout("/MenuBar")
    );
    assert_eq!(subscription.step(TrackerEvent::Layout(None)), update("app", Some("/MenuBar"), None));
    assert_eq!(subscription.step(TrackerEvent::MenuSignal), fetch_layout("/MenuBar"));
    assert_eq!(subscription.step(TrackerEvent::Properties(None)), TrackerAction::Wait);
    assert_eq!(subscription.item(), Some(&item("app", Some("/MenuBar"))));
}
