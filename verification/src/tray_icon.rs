//! A tray reduced to icons: what a plain icon bar keeps of each item.

use crate::error::{ErrorView, StatusNotifierWatcherError};
use crate::message::tray::DBusProperties;
use crate::message::{MessageView, NotifierItemMessage};
use crate::table::{keys_unique, with_entry, without_entry, AddressTable};
use crate::text::{clone_option, opt_view};
use crate::value::{bag_find, bag_get, read_str, ValueView};
use vstd::prelude::*;

verus! {

/// An icon as the bar shows it.
#[derive(Debug, Clone, PartialEq, Eq)]
pub struct TrayIcon {
    /// File that holds the icon.
    pub icon_path: String,
    /// Text shown while the pointer rests on the icon.
    pub tooltip: String,
}

/// Text shown for every icon.
pub const TOOLTIP: &'static str = "the tool tip";

impl TrayIcon {
    /// The icon held by the file `icon_path`.
    pub fn new(icon_path: String) -> (r: TrayIcon)
        ensures
            r.icon_path == icon_path,
            r.tooltip@ == TOOLTIP@,
    {
        TrayIcon { icon_path, tooltip: String::from_str(TOOLTIP) }
    }
}

/// What an item says of its icon.
#[derive(Debug, PartialEq, Eq)]
pub struct TrayIconMessage {
    /// Additional directory in which the icon is looked up.
    pub theme_path: Option<String>,
    /// Name of the icon.
    pub icon_name: String,
}

/// Mathematical counterpart of [`TrayIconMessage`].
pub struct TrayIconMessageView {
    pub theme_path: Option<Seq<char>>,
    pub icon_name: Seq<char>,
}

impl View for TrayIconMessage {
    type V = TrayIconMessageView;

    open spec fn view(&self) -> TrayIconMessageView {
        TrayIconMessageView { theme_path: opt_view(self.theme_path), icon_name: self.icon_name@ }
    }
}

/// A change in the set of icons.
#[derive(Debug, PartialEq, Eq)]
pub enum Message {
    /// The icon of the item at `address`.
    Update { address: String, icon: TrayIconMessage },
    /// The item at `address` has left the tray.
    Remove { address: String },
}

/// Mathematical counterpart of [`Message`].
pub enum IconMessageView {
    Update { address: Seq<char>, icon: TrayIconMessageView },
    Remove { address: Seq<char> },
}

impl View for Message {
    type V = IconMessageView;

    open spec fn view(&self) -> IconMessageView {
        match self {
            Message::Update { address, icon } => IconMessageView::Update {
                address: address@,
                icon: icon@,
            },
            Message::Remove { address } => IconMessageView::Remove { address: address@ },
        }
    }
}

/// What the icon bar keeps of a message of the engine: of an update, the
/// address with the item's theme path and icon name, the empty name for an
/// item that names no icon; of a removal, the address.
pub open spec fn icon_message(message: MessageView) -> IconMessageView {
    match message {
        MessageView::Update { address, item, menu } => IconMessageView::Update {
            address,
            icon: TrayIconMessageView {
                theme_path: item.icon_theme_path,
                icon_name: match item.icon_name {
                    Some(name) => name,
                    None => Seq::empty(),
                },
            },
        },
        MessageView::Remove { address } => IconMessageView::Remove { address },
    }
}

impl Message {
    /// Keeps of a message of the engine what the icon bar shows.
    pub fn from_notifier_message(message: NotifierItemMessage) -> (r: Message)
        ensures
            r@ == icon_message(message@),
    {
        match message {
            NotifierItemMessage::Update { address, item, menu: _ } => Message::Update {
                address,
                icon: TrayIconMessage {
                    theme_path: clone_option(&item.icon_theme_path),
                    icon_name: match &item.icon_name {
                        Some(name) => name.clone(),
                        None => String::new(),
                    },
                },
            },
            NotifierItemMessage::Remove { address } => Message::Remove { address },
        }
    }

    /// Brings the icons of the bar up to date. An update comes with the
    /// icon that was found for it: the icon is put under the item's address,
    /// in the place of the one that was there, and nothing changes when none
    /// was found. A removal takes out what is under the address.
    pub fn apply(self, icons: &mut AddressTable<TrayIcon>, found: Option<TrayIcon>)
        ensures
            final(icons)@ == match self {
                Message::Update { address, .. } => match found {
                    Some(icon) => with_entry(old(icons)@, address@, icon),
                    None => old(icons)@,
                },
                Message::Remove { address } => without_entry(old(icons)@, address@),
            },
            keys_unique(old(icons)@),
            keys_unique(final(icons)@),
    {
        proof {
            use_type_invariant(&*icons);
        }
        match self {
            Message::Update { address, icon: _ } => {
                if let Some(icon) = found {
                    icons.insert(address, icon);
                }
            },
            Message::Remove { address } => {
                icons.remove(address.as_str());
            },
        }
    }
}

/// The text stored under `key` in a property bag: the string it holds, the
/// empty string when it holds something else, `None` when `key` is absent.
pub open spec fn prop_text(bag: Seq<(Seq<char>, ValueView)>, key: Seq<char>) -> Option<Seq<char>> {
    match bag_find(bag, key) {
        Some(v) => match read_str(v) {
            Some(s) => Some(s),
            None => Some(Seq::empty()),
        },
        None => None,
    }
}

/// What a property bag says of an item's icon. `IconThemePath` and
/// `IconName` are required, and looked at in this order; an empty theme
/// path counts as none.
pub open spec fn decode_icon(bag: Seq<(Seq<char>, ValueView)>) -> Result<
    TrayIconMessageView,
    ErrorView,
> {
    match prop_text(bag, "IconThemePath"@) {
        None => Err(ErrorView::MissingProperty("IconThemePath"@)),
        Some(theme) => match prop_text(bag, "IconName"@) {
            None => Err(ErrorView::MissingProperty("IconName"@)),
            Some(name) => Ok(
                TrayIconMessageView {
                    theme_path: if theme.len() == 0 {
                        None
                    } else {
                        Some(theme)
                    },
                    icon_name: name,
                },
            ),
        },
    }
}

/// Reads the text stored under `key`.
fn get_text(props: &DBusProperties, key: &str) -> (r: Option<String>)
    ensures
        opt_view(r) == prop_text(props@, key@),
{
    match bag_get(&props.entries, key) {
        Some(v) => match v.as_str() {
            Some(s) => Some(s.clone()),
            None => Some(String::new()),
        },
        None => None,
    }
}

impl TrayIconMessage {
    /// Reads from a property bag what an item says of its icon.
    pub fn try_from(props: &DBusProperties) -> (r: Result<
        TrayIconMessage,
        StatusNotifierWatcherError,
    >)
        ensures
            match r {
                Ok(icon) => decode_icon(props@) == Ok::<TrayIconMessageView, ErrorView>(icon@),
                Err(e) => decode_icon(props@) == Err::<TrayIconMessageView, ErrorView>(e@),
            },
    {
        let theme = match get_text(props, "IconThemePath") {
            Some(theme) => theme,
            None => {
                return Err(
                    StatusNotifierWatcherError::MissingProperty(String::from_str("IconThemePath")),
                );
            },
        };
        let icon_name = match get_text(props, "IconName") {
            Some(name) => name,
            None => {
                return Err(
                    StatusNotifierWatcherError::MissingProperty(String::from_str("IconName")),
                );
            },
        };
        let theme_path = if theme.as_str().unicode_len() == 0 {
            None
        } else {
            Some(theme)
        };
        Ok(TrayIconMessage { theme_path, icon_name })
    }
}

/// Theme in which an icon is looked up when the system's theme lacks it.
pub const FALL_BACK_THEME: &'static str = "hicolor";

/// The file that holds the icon `name` in the directory `path`.
pub open spec fn icon_file_in(path: Seq<char>, name: Seq<char>) -> Seq<char> {
    path + "/"@ + name + ".png"@
}

/// Where the icon `name` is to be had without a lookup in the icon themes:
/// in the additional search path, when there is one that is not empty.
pub open spec fn icon_file(name: Seq<char>, additional_search_path: Option<Seq<char>>) -> Option<
    Seq<char>,
> {
    match additional_search_path {
        Some(path) => if path.len() > 0 {
            Some(icon_file_in(path, name))
        } else {
            None
        },
        None => None,
    }
}

/// Names the file of an icon that comes with a search path of its own.
/// `None` says that the icon has to be looked up in the icon themes.
pub fn try_fetch_icon(name: &str, additional_search_path: Option<&str>) -> (r: Option<String>)
    ensures
        opt_view(r) == icon_file(
            name@,
            match additional_search_path {
                Some(p) => Some(p@),
                None => None,
            },
        ),
{
    match additional_search_path {
        Some(path) => {
            if path.unicode_len() > 0 {
                let mut file = String::from_str(path);
                file.append("/");
                file.append(name);
                file.append(".png");
                Some(file)
            } else {
                None
            }
        },
        None => None,
    }
}

} // verus!
