//! The `com.canonical.dbusmenu` interface: what `GetLayout` is asked and
//! what it answers.

use crate::value::{bag_views, views, Value, ValueView};
use vstd::prelude::*;

verus! {

/// Parent id that stands for the root of a menu.
pub const ROOT_ID: i32 = 0;

/// Number of levels below the root that a layout is asked for, and that a
/// decoded menu holds at most.
pub const RECURSION_DEPTH: i32 = 10;

/// One node of a layout as `GetLayout` returns it.
#[derive(Debug, PartialEq, Eq)]
pub struct SubMenuLayout {
    /// Id of the node.
    pub id: i32,
    /// Properties of the node, by name.
    pub fields: Vec<(String, Value)>,
    /// Children of the node, each a `(id, properties, children)` structure.
    pub submenus: Vec<Value>,
}

/// Answer of `GetLayout`: the layout's revision and its root node.
#[derive(Debug, PartialEq, Eq)]
pub struct MenuLayout {
    /// Revision of the layout.
    pub id: u32,
    /// The root node.
    pub fields: SubMenuLayout,
}

/// Mathematical counterpart of [`SubMenuLayout`].
pub struct SubMenuLayoutView {
    pub id: i32,
    pub fields: Seq<(Seq<char>, ValueView)>,
    pub submenus: Seq<ValueView>,
}

/// Mathematical counterpart of [`MenuLayout`].
pub struct MenuLayoutView {
    pub id: u32,
    pub fields: SubMenuLayoutView,
}

impl View for SubMenuLayout {
    type V = SubMenuLayoutView;

    open spec fn view(&self) -> SubMenuLayoutView {
        SubMenuLayoutView {
            id: self.id,
            fields: bag_views(self.fields@),
            submenus: views(self.submenus@),
        }
    }
}

impl View for MenuLayout {
    type V = MenuLayoutView;

    open spec fn view(&self) -> MenuLayoutView {
        MenuLayoutView { id: self.id, fields: self.fields@ }
    }
}

/// The arguments of an `Event` call, and the menu it goes to.
#[derive(Debug, PartialEq, Eq)]
pub struct MenuEvent {
    /// Bus name of the menu's owner.
    pub destination: String,
    /// Object path of the menu.
    pub path: String,
    /// Id of the entry that the event is about.
    pub id: i32,
    /// Kind of the event, such as `clicked`.
    pub event_id: String,
    /// Data that goes with the event.
    pub data: Value,
    /// When the event occurred.
    pub timestamp: u32,
}

/// Mathematical counterpart of [`MenuEvent`].
pub struct MenuEventView {
    pub destination: Seq<char>,
    pub path: Seq<char>,
    pub id: i32,
    pub event_id: Seq<char>,
    pub data: ValueView,
    pub timestamp: u32,
}

impl View for MenuEvent {
    type V = MenuEventView;

    open spec fn view(&self) -> MenuEventView {
        MenuEventView {
            destination: self.destination@,
            path: self.path@,
            id: self.id,
            event_id: self.event_id@,
            data: self.data@,
            timestamp: self.timestamp,
        }
    }
}

} // verus!
