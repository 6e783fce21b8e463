//! Tray items: the typed model and its decoder from the property bag of an
//! `org.kde.StatusNotifierItem`.

use crate::error::{ErrorView, StatusNotifierWatcherError};
use crate::text::{clone_option, opt_view, str_eq};
use crate::value::{
    bag_find, bag_get, bag_views, read_array, read_i32, read_object_path, read_str,
    read_structure, read_u32, read_u8, views, Value, ValueView,
};
use vstd::prelude::*;

verus! {

/// State of a tray item or of the application behind it.
#[derive(Debug, Copy, Clone, PartialEq, Eq, Structural)]
pub enum Status {
    /// The item conveys nothing important and may be hidden.
    Passive,
    /// The item is active and should be shown.
    Active,
}

/// What kind of thing a tray item reports on.
#[derive(Debug, Copy, Clone, PartialEq, Eq, Structural)]
pub enum Category {
    /// The status of a generic application.
    ApplicationStatus,
    /// The status of a messenger, a mail client or the like.
    Communications,
    /// A service of the system that is no application of its own.
    SystemServices,
    /// The state of a piece of hardware.
    Hardware,
}

impl Status {
    /// The status that `s` names: each name stands for the variant it spells.
    pub open spec fn parse(s: Seq<char>) -> Option<Status> {
        if s == "Passive"@ {
            Some(Status::Passive)
        } else if s == "Active"@ {
            Some(Status::Active)
        } else {
            None
        }
    }

    /// Reads a status from its name on the bus.
    pub fn from_str(s: &str) -> (r: Result<Status, StatusNotifierWatcherError>)
        ensures
            match r {
                Ok(t) => Self::parse(s@) == Some(t),
                Err(e) => Self::parse(s@) is None && e@ == ErrorView::UnknownVariant(s@),
            },
    {
        if str_eq(s, "Passive") {
            Ok(Status::Passive)
        } else if str_eq(s, "Active") {
            Ok(Status::Active)
        } else {
            Err(StatusNotifierWatcherError::UnknownVariant(String::from_str(s)))
        }
    }
}

impl Category {
    /// The category that `s` names.
    pub open spec fn parse(s: Seq<char>) -> Option<Category> {
        if s == "ApplicationStatus"@ {
            Some(Category::ApplicationStatus)
        } else if s == "Communications"@ {
            Some(Category::Communications)
        } else if s == "SystemServices"@ {
            Some(Category::SystemServices)
        } else if s == "Hardware"@ {
            Some(Category::Hardware)
        } else {
            None
        }
    }

    /// Reads a category from its name on the bus.
    pub fn from_str(s: &str) -> (r: Result<Category, StatusNotifierWatcherError>)
        ensures
            match r {
                Ok(t) => Self::parse(s@) == Some(t),
                Err(e) => Self::parse(s@) is None && e@ == ErrorView::UnknownVariant(s@),
            },
    {
        if str_eq(s, "ApplicationStatus") {
            Ok(Category::ApplicationStatus)
        } else if str_eq(s, "Communications") {
            Ok(Category::Communications)
        } else if str_eq(s, "SystemServices") {
            Ok(Category::SystemServices)
        } else if str_eq(s, "Hardware") {
            Ok(Category::Hardware)
        } else {
            Err(StatusNotifierWatcherError::UnknownVariant(String::from_str(s)))
        }
    }
}

/// One rendering of an icon: its size and its pixels as ARGB32 bytes.
#[derive(Debug, PartialEq, Eq)]
pub struct IconPixmap {
    pub width: i32,
    pub height: i32,
    pub pixels: Vec<u8>,
}

/// Mathematical counterpart of [`IconPixmap`].
pub struct IconPixmapView {
    pub width: i32,
    pub height: i32,
    pub pixels: Seq<u8>,
}

impl View for IconPixmap {
    type V = IconPixmapView;

    open spec fn view(&self) -> IconPixmapView {
        IconPixmapView { width: self.width, height: self.height, pixels: self.pixels@ }
    }
}

/// The views of a sequence of pixmaps, element by element.
pub open spec fn pixmap_views(items: Seq<IconPixmap>) -> Seq<IconPixmapView> {
    Seq::new(items.len(), |i: int| items[i]@)
}

/// The view of an optional list of pixmaps.
pub open spec fn opt_pixmap_views(items: Option<Vec<IconPixmap>>) -> Option<Seq<IconPixmapView>> {
    match items {
        Some(list) => Some(pixmap_views(list@)),
        None => None,
    }
}

/// The bytes that the values `items` hold, when each of them holds a byte.
pub open spec fn decode_bytes(items: Seq<ValueView>) -> Option<Seq<u8>> {
    if forall|i: int| 0 <= i < items.len() ==> read_u8(#[trigger] items[i]) is Some {
        Some(Seq::new(items.len(), |i: int| read_u8(items[i])->0))
    } else {
        None
    }
}

/// The pixmap that `v` holds: a structure of a width, a height and an array
/// of bytes, in this order, possibly followed by more.
pub open spec fn decode_pixmap(v: ValueView) -> Option<IconPixmapView> {
    match read_structure(v) {
        Some(fields) => if fields.len() >= 3 {
            match (read_i32(fields[0]), read_i32(fields[1]), read_array(fields[2])) {
                (Some(width), Some(height), Some(bytes)) => match decode_bytes(bytes) {
                    Some(pixels) => Some(IconPixmapView { width, height, pixels }),
                    None => None,
                },
                _ => None,
            }
        } else {
            None
        },
        None => None,
    }
}

/// The pixmaps that the values `items` hold, when each of them holds one.
pub open spec fn decode_pixmaps(items: Seq<ValueView>) -> Option<Seq<IconPixmapView>> {
    if forall|i: int| 0 <= i < items.len() ==> decode_pixmap(#[trigger] items[i]) is Some {
        Some(Seq::new(items.len(), |i: int| decode_pixmap(items[i])->0))
    } else {
        None
    }
}

/// Reads a list of bytes.
fn bytes_from_array(items: &Vec<Value>) -> (r: Option<Vec<u8>>)
    ensures
        match r {
            Some(bytes) => decode_bytes(views(items@)) == Some(bytes@),
            None => decode_bytes(views(items@)) is None,
        },
{
    let mut out: Vec<u8> = Vec::new();
    let mut i: usize = 0;
    while i < items.len()
        invariant
            i <= items.len(),
            out.len() == i,
            forall|k: int| 0 <= k < i ==> read_u8(#[trigger] views(items@)[k]) == Some(out[k]),
        decreases items.len() - i,
    {
        match items[i].as_u8() {
            Some(b) => {
                out.push(b);
            },
            None => {
                assert(read_u8(views(items@)[i as int]) is None);
                return None;
            },
        }
        i += 1;
    }
    assert(out@ =~= decode_bytes(views(items@))->0);
    Some(out)
}

impl IconPixmap {
    /// Reads one pixmap.
    fn from_value(value: &Value) -> (r: Option<IconPixmap>)
        ensures
            match r {
                Some(p) => decode_pixmap(value@) == Some(p@),
                None => decode_pixmap(value@) is None,
            },
    {
        let fields = match value.as_structure() {
            Some(fields) => fields,
            None => {
                return None;
            },
        };
        if fields.len() < 3 {
            return None;
        }
        let width = match fields[0].as_i32() {
            Some(w) => w,
            None => {
                return None;
            },
        };
        let height = match fields[1].as_i32() {
            Some(h) => h,
            None => {
                return None;
            },
        };
        let bytes = match fields[2].as_array() {
            Some(bytes) => bytes,
            None => {
                return None;
            },
        };
        match bytes_from_array(bytes) {
            Some(pixels) => Some(IconPixmap { width, height, pixels }),
            None => None,
        }
    }

    /// Reads the list of pixmaps that an `IconPixmap` property holds. The
    /// list is read as a whole: `None` when an element is not a pixmap.
    pub fn from_array(a: &Vec<Value>) -> (r: Option<Vec<IconPixmap>>)
        ensures
            opt_pixmap_views(r) == decode_pixmaps(views(a@)),
    {
        let mut out: Vec<IconPixmap> = Vec::new();
        let mut i: usize = 0;
        while i < a.len()
            invariant
                i <= a.len(),
                out.len() == i,
                forall|k: int|
                    0 <= k < i ==> decode_pixmap(#[trigger] views(a@)[k]) == Some(out[k]@),
            decreases a.len() - i,
        {
            match IconPixmap::from_value(&a[i]) {
                Some(p) => {
                    out.push(p);
                },
                None => {
                    assert(decode_pixmap(views(a@)[i as int]) is None);
                    return None;
                },
            }
            i += 1;
        }
        assert(pixmap_views(out@) =~= decode_pixmaps(views(a@))->0);
        Some(out)
    }
}

impl Clone for IconPixmap {
    fn clone(&self) -> (r: IconPixmap)
        ensures
            r@ == self@,
    {
        let pixels = self.pixels.clone();
        assert(pixels@ =~= self.pixels@);
        IconPixmap { width: self.width, height: self.height, pixels }
    }
}

/// A tray item as its owner describes it.
#[derive(Debug, PartialEq, Eq)]
pub struct StatusNotifierItem {
    /// Name of the application, unique and the same from session to session.
    pub id: String,
    /// What kind of thing the item reports on.
    pub category: Category,
    /// State of the item or of the application behind it.
    pub status: Status,
    /// Name of the item's icon.
    pub icon_name: Option<String>,
    /// Description of the icon for accessibility.
    pub icon_accessible_desc: Option<String>,
    /// Name of the icon shown while the item asks for attention.
    pub attention_icon_name: Option<String>,
    /// Name that describes the application, possibly at more length than `id`.
    pub title: Option<String>,
    /// Additional directory in which icons are looked up.
    pub icon_theme_path: Option<String>,
    /// The icon as pixels, in one or more sizes.
    pub icon_pixmap: Option<Vec<IconPixmap>>,
    /// Object path of the item's menu.
    pub menu: Option<String>,
}

/// Mathematical counterpart of [`StatusNotifierItem`].
pub struct StatusNotifierItemView {
    pub id: Seq<char>,
    pub category: Category,
    pub status: Status,
    pub icon_name: Option<Seq<char>>,
    pub icon_accessible_desc: Option<Seq<char>>,
    pub attention_icon_name: Option<Seq<char>>,
    pub title: Option<Seq<char>>,
    pub icon_theme_path: Option<Seq<char>>,
    pub icon_pixmap: Option<Seq<IconPixmapView>>,
    pub menu: Option<Seq<char>>,
}

impl View for StatusNotifierItem {
    type V = StatusNotifierItemView;

    open spec fn view(&self) -> StatusNotifierItemView {
        StatusNotifierItemView {
            id: self.id@,
            category: self.category,
            status: self.status,
            icon_name: opt_view(self.icon_name),
            icon_accessible_desc: opt_view(self.icon_accessible_desc),
            attention_icon_name: opt_view(self.attention_icon_name),
            title: opt_view(self.title),
            icon_theme_path: opt_view(self.icon_theme_path),
            icon_pixmap: opt_pixmap_views(self.icon_pixmap),
            menu: opt_view(self.menu),
        }
    }
}

/// The string stored under `key` in a property bag, if there is one.
pub open spec fn prop_string(bag: Seq<(Seq<char>, ValueView)>, key: Seq<char>) -> Option<
    Seq<char>,
> {
    match bag_find(bag, key) {
        Some(v) => read_str(v),
        None => None,
    }
}

/// The object path stored under `key` in a property bag, if there is one.
pub open spec fn prop_object_path(bag: Seq<(Seq<char>, ValueView)>, key: Seq<char>) -> Option<
    Seq<char>,
> {
    match bag_find(bag, key) {
        Some(v) => read_object_path(v),
        None => None,
    }
}

/// The 32-bit unsigned integer stored under `key` in a property bag, if
/// there is one.
pub open spec fn prop_u32(bag: Seq<(Seq<char>, ValueView)>, key: Seq<char>) -> Option<u32> {
    match bag_find(bag, key) {
        Some(v) => read_u32(v),
        None => None,
    }
}

/// The category that a property bag gives under `Category`.
pub open spec fn prop_category(bag: Seq<(Seq<char>, ValueView)>) -> Result<Category, ErrorView> {
    match prop_string(bag, "Category"@) {
        Some(name) => match Category::parse(name) {
            Some(c) => Ok(c),
            None => Err(ErrorView::UnknownVariant(name)),
        },
        None => Err(ErrorView::MissingProperty("Category"@)),
    }
}

/// The status that a property bag gives under `Status`.
pub open spec fn prop_status(bag: Seq<(Seq<char>, ValueView)>) -> Result<Status, ErrorView> {
    match prop_string(bag, "Status"@) {
        Some(name) => match Status::parse(name) {
            Some(s) => Ok(s),
            None => Err(ErrorView::UnknownVariant(name)),
        },
        None => Err(ErrorView::MissingProperty("Status"@)),
    }
}

/// The pixmaps that a property bag gives under `IconPixmap`.
pub open spec fn prop_icon_pixmap(bag: Seq<(Seq<char>, ValueView)>) -> Option<
    Seq<IconPixmapView>,
> {
    match bag_find(bag, "IconPixmap"@) {
        Some(v) => match read_array(v) {
            Some(items) => decode_pixmaps(items),
            None => None,
        },
        None => None,
    }
}

/// The icon theme path that a property bag gives: the string under
/// `IconThemePath`, an empty one counting as absent.
pub open spec fn prop_icon_theme_path(bag: Seq<(Seq<char>, ValueView)>) -> Option<Seq<char>> {
    match prop_string(bag, "IconThemePath"@) {
        Some(path) => if path.len() == 0 {
            None
        } else {
            Some(path)
        },
        None => None,
    }
}

/// The tray item that a property bag describes. `Id`, `Category` and
/// `Status` are required, and looked at in this order; everything else is
/// optional.
pub open spec fn decode_notifier_item(bag: Seq<(Seq<char>, ValueView)>) -> Result<
    StatusNotifierItemView,
    ErrorView,
> {
    match prop_string(bag, "Id"@) {
        None => Err(ErrorView::MissingProperty("Id"@)),
        Some(id) => match prop_category(bag) {
            Err(e) => Err(e),
            Ok(category) => match prop_status(bag) {
                Err(e) => Err(e),
                Ok(status) => Ok(
                    StatusNotifierItemView {
                        id,
                        category,
                        status,
                        icon_name: prop_string(bag, "IconName"@),
                        icon_accessible_desc: prop_string(bag, "IconAccessibleDesc"@),
                        attention_icon_name: prop_string(bag, "AttentionIconName"@),
                        title: prop_string(bag, "Title"@),
                        icon_theme_path: prop_icon_theme_path(bag),
                        icon_pixmap: prop_icon_pixmap(bag),
                        menu: prop_object_path(bag, "Menu"@),
                    },
                ),
            },
        },
    }
}

/// The properties of an object, by name, as `GetAll` returns them.
#[derive(Debug, PartialEq, Eq)]
pub struct DBusProperties {
    pub entries: Vec<(String, Value)>,
}

impl View for DBusProperties {
    type V = Seq<(Seq<char>, ValueView)>;

    open spec fn view(&self) -> Seq<(Seq<char>, ValueView)> {
        bag_views(self.entries@)
    }
}

impl DBusProperties {
    /// The string stored under `key`.
    pub fn get_string(&self, key: &str) -> (r: Option<String>)
        ensures
            opt_view(r) == prop_string(self@, key@),
    {
        match bag_get(&self.entries, key) {
            Some(v) => match v.as_str() {
                Some(s) => Some(s.clone()),
                None => None,
            },
            None => None,
        }
    }

    /// The object path stored under `key`.
    pub fn get_object_path(&self, key: &str) -> (r: Option<String>)
        ensures
            opt_view(r) == prop_object_path(self@, key@),
    {
        match bag_get(&self.entries, key) {
            Some(v) => match v.as_object_path() {
                Some(s) => Some(s.clone()),
                None => None,
            },
            None => None,
        }
    }

    /// The 32-bit unsigned integer stored under `key`.
    pub fn get_u32(&self, key: &str) -> (r: Option<u32>)
        ensures
            r == prop_u32(self@, key@),
    {
        match bag_get(&self.entries, key) {
            Some(v) => v.as_u32(),
            None => None,
        }
    }

    /// The category stored under `Category`.
    pub fn get_category(&self) -> (r: Result<Category, StatusNotifierWatcherError>)
        ensures
            match r {
                Ok(c) => prop_category(self@) == Ok::<Category, ErrorView>(c),
                Err(e) => prop_category(self@) == Err::<Category, ErrorView>(e@),
            },
    {
        match self.get_string("Category") {
            Some(name) => Category::from_str(name.as_str()),
            None => Err(StatusNotifierWatcherError::MissingProperty(String::from_str("Category"))),
        }
    }

    /// The status stored under `Status`.
    pub fn get_status(&self) -> (r: Result<Status, StatusNotifierWatcherError>)
        ensures
            match r {
                Ok(s) => prop_status(self@) == Ok::<Status, ErrorView>(s),
                Err(e) => prop_status(self@) == Err::<Status, ErrorView>(e@),
            },
    {
        match self.get_string("Status") {
            Some(name) => Status::from_str(name.as_str()),
            None => Err(StatusNotifierWatcherError::MissingProperty(String::from_str("Status"))),
        }
    }

    /// The pixmaps stored under `IconPixmap`.
    pub fn get_icon_pixmap(&self) -> (r: Option<Vec<IconPixmap>>)
        ensures
            opt_pixmap_views(r) == prop_icon_pixmap(self@),
    {
        match bag_get(&self.entries, "IconPixmap") {
            Some(v) => match v.as_array() {
                Some(items) => IconPixmap::from_array(items),
                None => None,
            },
            None => None,
        }
    }

    /// The icon theme path stored under `IconThemePath`, unless it is empty.
    pub fn get_icon_theme_path(&self) -> (r: Option<String>)
        ensures
            opt_view(r) == prop_icon_theme_path(self@),
    {
        match self.get_string("IconThemePath") {
            Some(path) => if path.as_str().unicode_len() == 0 {
                None
            } else {
                Some(path)
            },
            None => None,
        }
    }
}

impl StatusNotifierItem {
    /// Builds the tray item that a property bag describes.
    ///
    /// Fails when `Id`, `Category` or `Status` is absent or no string, and
    /// when `Category` or `Status` names no known variant; the first of these
    /// that applies, in this order, is reported.
    pub fn try_from(props: &DBusProperties) -> (r: Result<
        StatusNotifierItem,
        StatusNotifierWatcherError,
    >)
        ensures
            match r {
                Ok(item) => decode_notifier_item(props@) == Ok::<
                    StatusNotifierItemView,
                    ErrorView,
                >(item@),
                Err(e) => decode_notifier_item(props@) == Err::<StatusNotifierItemView, ErrorView>(
                    e@,
                ),
            },
    {
        let id = match props.get_string("Id") {
            Some(id) => id,
            None => {
                return Err(StatusNotifierWatcherError::MissingProperty(String::from_str("Id")));
            },
        };
        let category = match props.get_category() {
            Ok(c) => c,
            Err(e) => {
                return Err(e);
            },
        };
        let status = match props.get_status() {
            Ok(s) => s,
            Err(e) => {
                return Err(e);
            },
        };
        Ok(
            StatusNotifierItem {
                id,
                category,
                status,
                icon_name: props.get_string("IconName"),
                icon_accessible_desc: props.get_string("IconAccessibleDesc"),
                attention_icon_name: props.get_string("AttentionIconName"),
                title: props.get_string("Title"),
                icon_theme_path: props.get_icon_theme_path(),
                icon_pixmap: props.get_icon_pixmap(),
                menu: props.get_object_path("Menu"),
            },
        )
    }
}

/// Clones an optional list of pixmaps.
fn clone_pixmaps(list: &Option<Vec<IconPixmap>>) -> (r: Option<Vec<IconPixmap>>)
    ensures
        opt_pixmap_views(r) == opt_pixmap_views(*list),
{
    match list {
        Some(items) => {
            let mut out: Vec<IconPixmap> = Vec::new();
            let mut i: usize = 0;
            while i < items.len()
                invariant
                    i <= items.len(),
                    out.len() == i,
                    forall|k: int| 0 <= k < i ==> out[k]@ == items[k]@,
                decreases items.len() - i,
            {
                out.push(items[i].clone());
                i += 1;
            }
            assert(pixmap_views(out@) =~= pixmap_views(items@));
            Some(out)
        },
        None => None,
    }
}

impl Clone for StatusNotifierItem {
    fn clone(&self) -> (r: StatusNotifierItem)
        ensures
            r@ == self@,
    {
        StatusNotifierItem {
            id: self.id.clone(),
            category: self.category,
            status: self.status,
            icon_name: clone_option(&self.icon_name),
            icon_accessible_desc: clone_option(&self.icon_accessible_desc),
            attention_icon_name: clone_option(&self.attention_icon_name),
            title: clone_option(&self.title),
            icon_theme_path: clone_option(&self.icon_theme_path),
            icon_pixmap: clone_pixmaps(&self.icon_pixmap),
            menu: clone_option(&self.menu),
        }
    }
}

} // verus!
