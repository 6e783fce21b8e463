//! What the engine tells its subscribers, and what they may ask of it.

use crate::message::menu::{TrayMenu, TrayMenuView};
use crate::message::tray::{StatusNotifierItem, StatusNotifierItemView};
use crate::table::{keys_unique, with_entry, without_entry, AddressTable};
use vstd::prelude::*;

pub mod menu;
pub mod tray;

verus! {

/// A change in the set of tray items.
#[derive(Debug, PartialEq, Eq)]
pub enum NotifierItemMessage {
    /// The state of an item, with its menu if it has one.
    Update {
        /// Bus name of the item's owner. It identifies the item: a menu
        /// command names it, and so does the `Remove` that ends it.
        address: String,
        /// The item as its owner describes it.
        item: Box<StatusNotifierItem>,
        /// The item's menu.
        menu: Option<TrayMenu>,
    },
    /// An item has left the tray.
    Remove {
        /// Bus name of the item's owner.
        address: String,
    },
}

/// Mathematical counterpart of [`NotifierItemMessage`].
pub enum MessageView {
    Update { address: Seq<char>, item: StatusNotifierItemView, menu: Option<TrayMenuView> },
    Remove { address: Seq<char> },
}

/// The view of an optional menu.
pub open spec fn opt_menu_view(menu: Option<TrayMenu>) -> Option<TrayMenuView> {
    match menu {
        Some(m) => Some(m@),
        None => None,
    }
}

impl View for NotifierItemMessage {
    type V = MessageView;

    open spec fn view(&self) -> MessageView {
        match self {
            NotifierItemMessage::Update { address, item, menu } => MessageView::Update {
                address: address@,
                item: (**item)@,
                menu: opt_menu_view(*menu),
            },
            NotifierItemMessage::Remove { address } => MessageView::Remove { address: address@ },
        }
    }
}

impl Clone for NotifierItemMessage {
    fn clone(&self) -> (r: NotifierItemMessage)
        ensures
            r@ == self@,
    {
        match self {
            NotifierItemMessage::Update { address, item, menu } => NotifierItemMessage::Update {
                address: address.clone(),
                item: Box::new((**item).clone()),
                menu: match menu {
                    Some(m) => Some(m.clone()),
                    None => None,
                },
            },
            NotifierItemMessage::Remove { address } => NotifierItemMessage::Remove {
                address: address.clone(),
            },
        }
    }
}

impl NotifierItemMessage {
    /// Brings what a subscriber knows of the tray up to date: an update
    /// puts the item and its menu under the item's address, in the place of
    /// what was known of it, and a removal takes out what is under the
    /// address. An update after a removal lists the item anew.
    pub fn apply(self, tray: &mut AddressTable<(StatusNotifierItem, Option<TrayMenu>)>)
        ensures
            final(tray)@ == match self {
                NotifierItemMessage::Update { address, item, menu } => with_entry(
                    old(tray)@,
                    address@,
                    (*item, menu),
                ),
                NotifierItemMessage::Remove { address } => without_entry(old(tray)@, address@),
            },
            keys_unique(old(tray)@),
            keys_unique(final(tray)@),
    {
        match self {
            NotifierItemMessage::Update { address, item, menu } => {
                tray.insert(address, (*item, menu));
            },
            NotifierItemMessage::Remove { address } => {
                tray.remove(address.as_str());
            },
        }
    }
}

/// What a subscriber may ask of a tray item.
#[derive(Debug, PartialEq, Eq)]
pub enum NotifierItemCommand {
    /// Activate an entry of the item's menu.
    MenuItemClicked {
        /// Id of the entry within its menu.
        submenu_id: i32,
        /// Object path of the menu.
        menu_path: String,
        /// Bus name of the item's owner.
        notifier_address: String,
    },
}

/// Mathematical counterpart of [`NotifierItemCommand`].
pub enum CommandView {
    MenuItemClicked { submenu_id: i32, menu_path: Seq<char>, notifier_address: Seq<char> },
}

impl View for NotifierItemCommand {
    type V = CommandView;

    open spec fn view(&self) -> CommandView {
        match self {
            NotifierItemCommand::MenuItemClicked {
                submenu_id,
                menu_path,
                notifier_address,
            } => CommandView::MenuItemClicked {
                submenu_id: *submenu_id,
                menu_path: menu_path@,
                notifier_address: notifier_address@,
            },
        }
    }
}

} // verus!
