//! Tracking of registered notifier items: which items to follow, what to
//! fetch for each, and what to tell the subscribers.

use crate::dbus::dbusmenu_proxy::{
    MenuEvent, MenuEventView, MenuLayout, MenuLayoutView, RECURSION_DEPTH, ROOT_ID,
};
use crate::message::menu::{decode_menu, TrayMenu, TrayMenuView};
use crate::message::tray::{
    decode_notifier_item, prop_string, DBusProperties, StatusNotifierItem,
    StatusNotifierItemView,
};
use crate::message::{CommandView, MessageView, NotifierItemCommand, NotifierItemMessage};
use crate::notifier_watcher::notifier_address::{parse_service, NotifierAddress};
use crate::text::{opt_view, string_views};
use crate::value::{Value, ValueView};
use vstd::prelude::*;

pub mod notifier_address;

verus! {

/// Interface whose properties describe a tray item.
pub const ITEM_INTERFACE: &'static str = "org.kde.StatusNotifierItem";

/// Event id that tells a menu that an entry was clicked.
pub const CLICKED: &'static str = "clicked";

/// The addresses of those of `services` that are understood, in order.
pub open spec fn parsed_services(services: Seq<Seq<char>>) -> Seq<(Seq<char>, Seq<char>)>
    decreases services.len(),
{
    if services.len() == 0 {
        Seq::empty()
    } else {
        let before = parsed_services(services.drop_last());
        match parse_service(services.last()) {
            Some(address) => before.push(address),
            None => before,
        }
    }
}

/// The views of a sequence of addresses, element by element.
pub open spec fn address_views(list: Seq<NotifierAddress>) -> Seq<(Seq<char>, Seq<char>)> {
    Seq::new(list.len(), |i: int| (list[i].destination@, list[i].path@))
}

/// Picks the items to follow among the registration strings that the
/// watcher lists: those that are understood, in the order listed. The
/// others are passed over.
pub fn notifier_addresses(services: &Vec<String>) -> (r: Vec<NotifierAddress>)
    ensures
        address_views(r@) == parsed_services(string_views(services@)),
{
    let ghost all = string_views(services@);
    let mut out: Vec<NotifierAddress> = Vec::new();
    let mut i: usize = 0;
    assert(address_views(out@) =~= Seq::empty());
    while i < services.len()
        invariant
            i <= services.len(),
            all == string_views(services@),
            address_views(out@) == parsed_services(all.take(i as int)),
        decreases services.len() - i,
    {
        proof {
            assert(all.take(i + 1).drop_last() =~= all.take(i as int));
            assert(all.take(i + 1).last() == services[i as int]@);
        }
        let ghost before = address_views(out@);
        match NotifierAddress::from_notifier_service(services[i].as_str()) {
            Ok(address) => {
                out.push(address);
                assert(address_views(out@) =~= before.push((address.destination@, address.path@)));
            },
            Err(_) => {},
        }
        i += 1;
    }
    assert(all.take(services.len() as int) =~= all);
    out
}

/// The owner whose items are to be unregistered after `NameOwnerChanged`:
/// the old owner, when there was one and there is no new one.
pub open spec fn lost_owner(old_owner: Seq<char>, new_owner: Seq<char>) -> Option<Seq<char>> {
    if old_owner.len() > 0 && new_owner.len() == 0 {
        Some(old_owner)
    } else {
        None
    }
}

/// Tells from the arguments of `NameOwnerChanged` whether a peer has left
/// the bus, and which. An absent owner is the empty string.
pub fn name_owner_lost(old_owner: &str, new_owner: &str) -> (r: Option<String>)
    ensures
        opt_view(r) == lost_owner(old_owner@, new_owner@),
{
    if old_owner.unicode_len() > 0 && new_owner.unicode_len() == 0 {
        Some(String::from_str(old_owner))
    } else {
        None
    }
}

/// What the tracker asks of the outside for one item.
#[derive(Debug, PartialEq, Eq)]
pub enum TrackerAction {
    /// Call `GetAll(interface)` on the object at `(destination, path)`.
    FetchProperties { destination: String, path: String, interface: String },
    /// Call `GetLayout(parent_id, recursion_depth, property_names)` on the
    /// menu at `(destination, path)`.
    FetchLayout {
        destination: String,
        path: String,
        parent_id: i32,
        recursion_depth: i32,
        property_names: Vec<String>,
    },
    /// Hand the message to every subscriber.
    Publish(NotifierItemMessage),
    /// Nothing to do until the next signal.
    Wait,
}

/// Mathematical counterpart of [`TrackerAction`].
pub enum ActionView {
    FetchProperties { destination: Seq<char>, path: Seq<char>, interface: Seq<char> },
    FetchLayout {
        destination: Seq<char>,
        path: Seq<char>,
        parent_id: i32,
        recursion_depth: i32,
        property_names: Seq<Seq<char>>,
    },
    Publish(MessageView),
    Wait,
}

impl View for TrackerAction {
    type V = ActionView;

    open spec fn view(&self) -> ActionView {
        match self {
            TrackerAction::FetchProperties {
                destination,
                path,
                interface,
            } => ActionView::FetchProperties {
                destination: destination@,
                path: path@,
                interface: interface@,
            },
            TrackerAction::FetchLayout {
                destination,
                path,
                parent_id,
                recursion_depth,
                property_names,
            } => ActionView::FetchLayout {
                destination: destination@,
                path: path@,
                parent_id: *parent_id,
                recursion_depth: *recursion_depth,
                property_names: string_views(property_names@),
            },
            TrackerAction::Publish(m) => ActionView::Publish(m@),
            TrackerAction::Wait => ActionView::Wait,
        }
    }
}

/// What the tracker knows of one item: where it is, and how its owner last
/// described it.
#[derive(Debug)]
pub struct ItemSubscription {
    address: NotifierAddress,
    item: Option<StatusNotifierItem>,
}

/// Mathematical counterpart of [`ItemSubscription`].
pub struct SubscriptionView {
    pub destination: Seq<char>,
    pub path: Seq<char>,
    /// The item as of the last successful fetch of its properties.
    pub item: Option<StatusNotifierItemView>,
}

impl View for ItemSubscription {
    type V = SubscriptionView;

    closed spec fn view(&self) -> SubscriptionView {
        SubscriptionView {
            destination: self.address.destination@,
            path: self.address.path@,
            item: match self.item {
                Some(item) => Some(item@),
                None => None,
            },
        }
    }
}

/// The view of an optional property bag.
pub open spec fn opt_bag_view(props: Option<DBusProperties>) -> Option<Seq<(Seq<char>, ValueView)>> {
    match props {
        Some(p) => Some(p@),
        None => None,
    }
}

/// The view of an optional layout.
pub open spec fn opt_layout_view(layout: Option<MenuLayout>) -> Option<MenuLayoutView> {
    match layout {
        Some(l) => Some(l@),
        None => None,
    }
}

impl SubscriptionView {
    /// The request for the item's properties.
    pub open spec fn fetch_properties(self) -> ActionView {
        ActionView::FetchProperties {
            destination: self.destination,
            path: self.path,
            interface: ITEM_INTERFACE@,
        }
    }

    /// The request for the layout of the menu at `menu`: everything below
    /// the root, as deep as a layout goes, with all properties.
    pub open spec fn fetch_layout(self, menu: Seq<char>) -> ActionView {
        ActionView::FetchLayout {
            destination: self.destination,
            path: menu,
            parent_id: ROOT_ID,
            recursion_depth: RECURSION_DEPTH,
            property_names: Seq::empty(),
        }
    }

    /// The update that tells the subscribers of `item` and `menu`.
    pub open spec fn update(self, item: StatusNotifierItemView, menu: Option<
        TrayMenuView,
    >) -> ActionView {
        ActionView::Publish(MessageView::Update { address: self.destination, item, menu })
    }

    /// What the tracker knows after the answer to `GetAll`: the item that
    /// the properties describe, or what it knew before when the call failed
    /// (`None`) or the properties describe no item.
    pub open spec fn after_properties(self, props: Option<
        Seq<(Seq<char>, ValueView)>,
    >) -> SubscriptionView {
        match props {
            Some(bag) => match decode_notifier_item(bag) {
                Ok(item) => SubscriptionView { item: Some(item), ..self },
                Err(_) => self,
            },
            None => self,
        }
    }

    /// What the tracker does on the answer to `GetAll`: it asks for the
    /// menu of an item that names one, publishes an item that names none,
    /// and does nothing when the call failed or the properties describe no
    /// item.
    pub open spec fn on_properties(self, props: Option<Seq<(Seq<char>, ValueView)>>) -> ActionView {
        match props {
            Some(bag) => match decode_notifier_item(bag) {
                Ok(item) => match item.menu {
                    Some(menu) => self.fetch_layout(menu),
                    None => self.update(item, None),
                },
                Err(_) => ActionView::Wait,
            },
            None => ActionView::Wait,
        }
    }

    /// What the tracker does on the answer to `GetLayout`: it publishes the
    /// item it knows with the menu decoded from the layout, or without a
    /// menu when the call failed (`None`). Without an item there is nothing
    /// to publish.
    pub open spec fn on_layout(self, layout: Option<MenuLayoutView>) -> ActionView {
        match self.item {
            Some(item) => self.update(
                item,
                match layout {
                    Some(l) => Some(decode_menu(l)),
                    None => None,
                },
            ),
            None => ActionView::Wait,
        }
    }

    /// What the tracker does on a signal of the item's menu: it asks for
    /// the layout again, if it knows an item and the item names a menu.
    pub open spec fn on_menu_signal(self) -> ActionView {
        match self.item {
            Some(item) => match item.menu {
                Some(menu) => self.fetch_layout(menu),
                None => ActionView::Wait,
            },
            None => ActionView::Wait,
        }
    }
}

impl ItemSubscription {
    /// Starts to follow the item at `address`. Nothing is known of it yet.
    pub fn new(address: NotifierAddress) -> (r: ItemSubscription)
        ensures
            r@ == (SubscriptionView {
                destination: address.destination@,
                path: address.path@,
                item: None,
            }),
    {
        ItemSubscription { address, item: None }
    }

    /// Bus name of the item's owner.
    pub fn destination(&self) -> (r: &String)
        ensures
            r@ == self@.destination,
    {
        &self.address.destination
    }

    /// The item as of the last successful fetch of its properties.
    pub fn item(&self) -> (r: Option<&StatusNotifierItem>)
        ensures
            match r {
                Some(item) => self@.item == Some(item@),
                None => self@.item is None,
            },
    {
        self.item.as_ref()
    }

    fn fetch_layout(&self, menu: &String) -> (r: TrackerAction)
        ensures
            r@ == self@.fetch_layout(menu@),
    {
        let property_names: Vec<String> = Vec::new();
        assert(string_views(property_names@) =~= Seq::empty());
        TrackerAction::FetchLayout {
            destination: self.address.destination.clone(),
            path: menu.clone(),
            parent_id: ROOT_ID,
            recursion_depth: RECURSION_DEPTH,
            property_names,
        }
    }

    /// The first step, and the step on every signal of the item: ask for
    /// all its properties.
    pub fn on_item_signal(&self) -> (r: TrackerAction)
        ensures
            r@ == self@.fetch_properties(),
    {
        TrackerAction::FetchProperties {
            destination: self.address.destination.clone(),
            path: self.address.path.clone(),
            interface: String::from_str(ITEM_INTERFACE),
        }
    }

    /// The step on the answer to `GetAll`; `None` stands for a call that
    /// failed.
    pub fn on_properties(&mut self, props: Option<DBusProperties>) -> (r: TrackerAction)
        ensures
            final(self)@ == old(self)@.after_properties(opt_bag_view(props)),
            r@ == old(self)@.on_properties(opt_bag_view(props)),
    {
        let bag = match props {
            Some(bag) => bag,
            None => {
                return TrackerAction::Wait;
            },
        };
        let item = match StatusNotifierItem::try_from(&bag) {
            Ok(item) => item,
            Err(_) => {
                return TrackerAction::Wait;
            },
        };
        let action = match &item.menu {
            Some(menu) => self.fetch_layout(menu),
            None => TrackerAction::Publish(
                NotifierItemMessage::Update {
                    address: self.address.destination.clone(),
                    item: Box::new(item.clone()),
                    menu: None,
                },
            ),
        };
        self.item = Some(item);
        action
    }

    /// The step on the answer to `GetLayout`; `None` stands for a call that
    /// failed.
    pub fn on_layout(&self, layout: Option<MenuLayout>) -> (r: TrackerAction)
        ensures
            r@ == self@.on_layout(opt_layout_view(layout)),
    {
        let item = match &self.item {
            Some(item) => item,
            None => {
                return TrackerAction::Wait;
            },
        };
        let menu = match layout {
            Some(l) => match TrayMenu::try_from(l) {
                Ok(menu) => Some(menu),
                Err(_) => None,
            },
            None => None,
        };
        TrackerAction::Publish(
            NotifierItemMessage::Update {
                address: self.address.destination.clone(),
                item: Box::new(item.clone()),
                menu,
            },
        )
    }

    /// The step on a signal of the item's menu.
    pub fn on_menu_signal(&self) -> (r: TrackerAction)
        ensures
            r@ == self@.on_menu_signal(),
    {
        match &self.item {
            Some(item) => match &item.menu {
                Some(menu) => self.fetch_layout(menu),
                None => TrackerAction::Wait,
            },
            None => TrackerAction::Wait,
        }
    }
}

/// Number of microseconds in a second.
pub const MICROS_PER_SECOND: u32 = 1_000_000;

/// Number that goes with a click as its data.
pub const CLICK_DATA: i32 = 32;

/// The `Event` call that carries out `command`, stamped with the
/// microseconds `micros` past the second: a click on the entry, sent to the
/// menu that the command names. The stamp is taken modulo one second.
pub open spec fn event_for(command: CommandView, micros: u32) -> MenuEventView {
    match command {
        CommandView::MenuItemClicked { submenu_id, menu_path, notifier_address } => MenuEventView {
            destination: notifier_address,
            path: menu_path,
            id: submenu_id,
            event_id: CLICKED@,
            data: ValueView::I32(CLICK_DATA),
            timestamp: (micros % MICROS_PER_SECOND) as u32,
        },
    }
}

/// Builds the `Event` call that carries out `command`, stamped with
/// `micros`.
pub fn menu_event(command: &NotifierItemCommand, micros: u32) -> (r: MenuEvent)
    ensures
        r@ == event_for(command@, micros),
{
    match command {
        NotifierItemCommand::MenuItemClicked {
            submenu_id,
            menu_path,
            notifier_address,
        } => MenuEvent {
            destination: notifier_address.clone(),
            path: menu_path.clone(),
            id: *submenu_id,
            event_id: String::from_str(CLICKED),
            data: Value::I32(CLICK_DATA),
            timestamp: micros % MICROS_PER_SECOND,
        },
    }
}

/// Reads the clock with `std::time::SystemTime::now()` and returns
/// `timestamp_subsec_micros()` of the `chrono::DateTime<chrono::Utc>` that
/// chrono's `From<SystemTime>` makes of it: the microseconds since the last
/// second boundary. The conversion takes a clock before 1970 as well as one
/// after it, and no time zone is looked up. Nothing is claimed of the value.
#[verifier::external_body]
fn subsec_micros_now() -> (r: u32) {
    chrono::DateTime::<chrono::Utc>::from(std::time::SystemTime::now()).timestamp_subsec_micros()
}

/// Builds the `Event` call that carries out `command`, stamped with the
/// microseconds past the current second. Whatever the clock says, the call
/// is that of [`menu_event`] for some stamp.
pub fn dispatch_ui_command(command: &NotifierItemCommand) -> (r: MenuEvent)
    ensures
        r.timestamp < MICROS_PER_SECOND,
        r@ == event_for(command@, r.timestamp),
{
    menu_event(command, subsec_micros_now())
}

/// What happens to a subscription: a signal arrives, or a call is answered.
#[derive(Debug, PartialEq, Eq)]
pub enum TrackerEvent {
    /// A signal of the item.
    ItemSignal,
    /// A signal of the item's menu.
    MenuSignal,
    /// The answer to `GetAll`; `None` when the call failed.
    Properties(Option<DBusProperties>),
    /// The answer to `GetLayout`; `None` when the call failed.
    Layout(Option<MenuLayout>),
}

/// Mathematical counterpart of [`TrackerEvent`].
pub enum EventView {
    ItemSignal,
    MenuSignal,
    Properties(Option<Seq<(Seq<char>, ValueView)>>),
    Layout(Option<MenuLayoutView>),
}

impl View for TrackerEvent {
    type V = EventView;

    open spec fn view(&self) -> EventView {
        match self {
            TrackerEvent::ItemSignal => EventView::ItemSignal,
            TrackerEvent::MenuSignal => EventView::MenuSignal,
            TrackerEvent::Properties(props) => EventView::Properties(opt_bag_view(*props)),
            TrackerEvent::Layout(layout) => EventView::Layout(opt_layout_view(*layout)),
        }
    }
}

impl EventView {
    /// The event is an answer to `GetAll` that describes an item.
    pub open spec fn describes_item(self) -> bool {
        self matches EventView::Properties(Some(bag)) && decode_notifier_item(bag) is Ok
    }
}

impl ItemSubscription {
    /// Takes `event` in, and tells what to do next.
    pub fn step(&mut self, event: TrackerEvent) -> (r: TrackerAction)
        ensures
            final(self)@ == old(self)@.after(event@),
            r@ == old(self)@.action_on(event@),
    {
        match event {
            TrackerEvent::ItemSignal => self.on_item_signal(),
            TrackerEvent::MenuSignal => self.on_menu_signal(),
            TrackerEvent::Properties(props) => self.on_properties(props),
            TrackerEvent::Layout(layout) => self.on_layout(layout),
        }
    }
}

impl SubscriptionView {
    /// What the tracker knows of the item at `(destination, path)` before
    /// anything was fetched.
    pub open spec fn initial(destination: Seq<char>, path: Seq<char>) -> SubscriptionView {
        SubscriptionView { destination, path, item: None }
    }

    /// What the tracker knows after `event`.
    pub open spec fn after(self, event: EventView) -> SubscriptionView {
        match event {
            EventView::Properties(props) => self.after_properties(props),
            _ => self,
        }
    }

    /// What the tracker does on `event`.
    pub open spec fn action_on(self, event: EventView) -> ActionView {
        match event {
            EventView::ItemSignal => self.fetch_properties(),
            EventView::MenuSignal => self.on_menu_signal(),
            EventView::Properties(props) => self.on_properties(props),
            EventView::Layout(layout) => self.on_layout(layout),
        }
    }

    /// What the tracker knows after `events`, in order.
    pub open spec fn after_all(self, events: Seq<EventView>) -> SubscriptionView
        decreases events.len(),
    {
        if events.len() == 0 {
            self
        } else {
            self.after_all(events.drop_last()).after(events.last())
        }
    }
}

/// Every update is preceded by a successful fetch of the item's properties:
/// when the tracker, starting with nothing, publishes on the last of some
/// events, then that event or one before it is an answer to `GetAll` that
/// describes an item. And every update names the item's owner.
pub proof fn lemma_update_follows_fetch(
    destination: Seq<char>,
    path: Seq<char>,
    events: Seq<EventView>,
)
    requires
        events.len() > 0,
        SubscriptionView::initial(destination, path).after_all(events.drop_last()).action_on(
            events.last(),
        ) is Publish,
    ensures
        exists|i: int| 0 <= i < events.len() && (#[trigger] events[i]).describes_item(),
        SubscriptionView::initial(destination, path).after_all(events.drop_last()).action_on(
            events.last(),
        ) matches ActionView::Publish(m) && m is Update && m->Update_address == destination,
{
    let start = SubscriptionView::initial(destination, path);
    let before = events.drop_last();
    lemma_known_item_was_fetched(start, before);
    lemma_described_before_or_last(events);
}

/// Events hold an answer that describes an item when their last one is
/// such an answer, or the events before it hold one.
proof fn lemma_described_before_or_last(events: Seq<EventView>)
    requires
        events.len() > 0,
        events.last().describes_item() || exists|i: int|
            0 <= i < events.len() - 1 && (#[trigger] events.drop_last()[i]).describes_item(),
    ensures
        exists|i: int| 0 <= i < events.len() && (#[trigger] events[i]).describes_item(),
{
    if events.last().describes_item() {
        assert(events[events.len() - 1].describes_item());
    } else {
        let before = events.drop_last();
        let i = choose|i: int| 0 <= i < before.len() && (#[trigger] before[i]).describes_item();
        assert(events[i] == before[i]);
    }
}

/// The tracker keeps where the item is, and knows an item only from an
/// answer to `GetAll` that describes one.
pub proof fn lemma_known_item_was_fetched(start: SubscriptionView, events: Seq<EventView>)
    ensures
        start.after_all(events).destination == start.destination,
        start.after_all(events).path == start.path,
        start.item is None && start.after_all(events).item is Some ==> exists|i: int|
            0 <= i < events.len() && (#[trigger] events[i]).describes_item(),
    decreases events.len(),
{
    if events.len() > 0 {
        let before = events.drop_last();
        lemma_known_item_was_fetched(start, before);
        if start.item is None && start.after_all(events).item is Some {
            lemma_described_before_or_last(events);
        }
    }
}

/// A property bag without a string under `Id` leads to no update: the
/// tracker waits, and knows what it knew.
pub proof fn lemma_no_update_without_id(state: SubscriptionView, bag: Seq<(Seq<char>, ValueView)>)
    requires
        prop_string(bag, "Id"@) is None,
    ensures
        state.on_properties(Some(bag)) == ActionView::Wait,
        state.after_properties(Some(bag)) == state,
{
}

/// An update is published only for an item whose properties were fetched
/// and understood: on the answer to `GetAll` that describes it, or later
/// with what the tracker has kept of such an answer. The update names the
/// owner of the item as its address.
pub proof fn lemma_update_needs_properties(
    state: SubscriptionView,
    props: Option<Seq<(Seq<char>, ValueView)>>,
    layout: Option<MenuLayoutView>,
)
    ensures
        state.on_properties(props) matches ActionView::Publish(m) ==> props is Some
            && decode_notifier_item(props->0) is Ok && m == (MessageView::Update {
            address: state.destination,
            item: decode_notifier_item(props->0)->Ok_0,
            menu: None,
        }),
        state.on_layout(layout) matches ActionView::Publish(m) ==> state.item is Some && m
            is Update && m->Update_address == state.destination && m->Update_item
            == state.item->0,
        !(state.on_menu_signal() is Publish),
        !(state.fetch_properties() is Publish),
{
}

} // verus!
