use stray::error::StatusNotifierWatcherError;
use stray::notifier_watcher::notifier_address::NotifierAddress;
use stray::notifier_watcher::{name_owner_lost, notifier_addresses};

#[test]
fn bare_colon_address() {
    let address = NotifierAddress::from_notifier_service(":1.42").unwrap();
    assert_eq!(address.destination, ":1.42");
    assert_eq!(address.path, "/StatusNotifierItem");
}

#[test]
fn slashed_address() {
    let address =
        NotifierAddress::from_notifier_service(":1.42/org/ayatana/NotificationItem/Element1")
            .unwrap();
    assert_eq!(address.destination, ":1.42");
    assert_eq!(address.path, "/org/ayatana/NotificationItem/Element1");
}

#[test]
fn address_without_slash_or_colon_is_rejected() {
    assert_eq!(
        NotifierAddress::from_notifier_service("org.example.Item"),
        Err(StatusNotifierWatcherError::DbusAddressError("org.example.Item".to_string()))
    );
}

#[test]
fn empty_address_is_rejected() {
    assert_eq!(
        NotifierAddress::from_notifier_service(""),
        Err(StatusNotifierWatcherError::DbusAddressError(String::new()))
    );
}

#[test]
fn long_unique_name_is_kept_whole() {
    let address = NotifierAddress::from_notifier_service(":1.123456").unwrap();
    assert_eq!(address.destination, ":1.123456");
    assert_eq!(address.path, "/StatusNotifierItem");
}

#[test]
fn short_unique_name_is_kept_whole() {
    let address = NotifierAddress::from_notifier_service(":1").unwrap();
    assert_eq!(address.destination, ":1");
    assert_eq!(address.path, "/StatusNotifierItem");
}

#[test]
fn colon_inside_is_no_unique_name() {
    assert!(NotifierAddress::from_notifier_service("a:1.5").is_err());
}

#[test]
fn well_known_name_with_path() {
    let address = NotifierAddress::from_notifier_service("org.example.App/Item").unwrap();
    assert_eq!(address.destination, "org.example.App");
    assert_eq!(address.path, "/Item");
}

#[test]
fn split_is_at_the_first_slash() {
    let address = NotifierAddress::from_notifier_service("/a/b").unwrap();
    assert_eq!(address.destination, "");
    assert_eq!(address.path, "/a/b");
}

#[test]
fn non_ascii_address() {
    let address = NotifierAddress::from_notifier_service(":1.é/ü/x").unwrap();
    assert_eq!(address.destination, ":1.é");
    assert_eq!(address.path, "/ü/x");
}

#[test]
fn parsed_path_starts_with_slash() {
    for service in [":1.42", ":1.42/a", "x/", "/", ":", "a/b/c"] {
        let address = NotifierAddress::from_notifier_service(service).unwrap();
        assert!(address.path.starts_with('/'), "{}", service);
    }
}

#[test]
fn composed_registration_is_recovered() {
    for (sender, path) in [
        (":1.99", "/StatusNotifierItem"),
        (":1.7", "/org/ayatana/NotificationItem/Element1"),
        ("org.kde.App", "/"),
    ] {
        let composed = format!("{}{}", sender, path);
        let address = NotifierAddress::from_notifier_service(&composed).unwrap();
        assert_eq!(address.destination, sender);
        assert_eq!(address.path, path);
    }
}

#[test]
fn unparsable_services_are_passed_over() {
    let services = vec![
        ":1.5/Item".to_string(),
        "nonsense".to_string(),
        ":1.6".to_string(),
        String::new(),
    ];
    let addresses = notifier_addresses(&services);
    assert_eq!(
        addresses,
        vec![
            NotifierAddress { destination: ":1.5".to_string(), path: "/Item".to_string() },
            NotifierAddress {
                destination: ":1.6".to_string(),
                path: "/StatusNotifierItem".to_string()
            },
        ]
    );
}

#[test]
fn no_services_no_addresses() {
    assert_eq!(notifier_addresses(&Vec::new()), Vec::new());
}

#[test]
fn owner_is_lost_when_no_new_owner_follows() {
    assert_eq!(name_owner_lost(":1.99", ""), Some(":1.99".to_string()));
}

#[test]
fn owner_is_not_lost_when_name_moves() {
    assert_eq!(name_owner_lost(":1.99", ":1.100"), None);
}

#[test]
fn owner_is_not_lost_when_name_appears() {
    assert_eq!(name_owner_lost("", ":1.99"), None);
    assert_eq!(name_owner_lost("", ""), None);
}

#[test]
fn address_error_message() {
    let e = StatusNotifierWatcherError::DbusAddressError("foo".to_string());
    assert_eq!(e.message(), "Service path foo was not understood");
}

#[test]
fn other_error_messages() {
    assert_eq!(
        StatusNotifierWatcherError::MissingProperty("Id".to_string()).message(),
        "Property Id is missing"
    );
    assert_eq!(
        StatusNotifierWatcherError::UnknownVariant("x".to_string()).message(),
        "Unknown variant x"
    );
    assert_eq!(StatusNotifierWatcherError::IncorrectType.message(), "Incorrect type");
}
