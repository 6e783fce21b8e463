//! Dynamically typed values as they travel over the bus, and typed reads
//! from them.

use crate::text::str_eq;
use vstd::prelude::*;

verus! {

/// A value of any D-Bus type.
#[derive(Debug, PartialEq, Eq)]
pub enum Value {
    U8(u8),
    Bool(bool),
    I16(i16),
    U16(u16),
    I32(i32),
    U32(u32),
    I64(i64),
    U64(u64),
    Str(String),
    Signature(String),
    ObjectPath(String),
    /// A value carried inside a variant container.
    Variant(Box<Value>),
    Array(Vec<Value>),
    /// Entries as `(key, value)`.
    Dict(Vec<(Value, Value)>),
    Structure(Vec<Value>),
    /// A value of a type this model does not read, such as a double or a
    /// file descriptor.
    Other,
}

/// Mathematical counterpart of [`Value`].
pub enum ValueView {
    U8(u8),
    Bool(bool),
    I16(i16),
    U16(u16),
    I32(i32),
    U32(u32),
    I64(i64),
    U64(u64),
    Str(Seq<char>),
    Signature(Seq<char>),
    ObjectPath(Seq<char>),
    Variant(Box<ValueView>),
    Array(Seq<ValueView>),
    Dict(Seq<(ValueView, ValueView)>),
    Structure(Seq<ValueView>),
    Other,
}

/// The views of a sequence of values, element by element.
pub open spec fn views(items: Seq<Value>) -> Seq<ValueView> {
    Seq::new(items.len(), |i: int| items[i]@)
}

/// The views of a sequence of dictionary entries, element by element.
pub open spec fn entry_views(entries: Seq<(Value, Value)>) -> Seq<(ValueView, ValueView)> {
    Seq::new(entries.len(), |i: int| (entries[i].0@, entries[i].1@))
}

impl View for Value {
    type V = ValueView;

    open spec fn view(&self) -> ValueView {
        value_view(*self)
    }
}

/// The mathematical value that `v` stands for.
pub open spec fn value_view(v: Value) -> ValueView
    decreases v, 0nat,
{
    match v {
        Value::U8(x) => ValueView::U8(x),
        Value::Bool(x) => ValueView::Bool(x),
        Value::I16(x) => ValueView::I16(x),
        Value::U16(x) => ValueView::U16(x),
        Value::I32(x) => ValueView::I32(x),
        Value::U32(x) => ValueView::U32(x),
        Value::I64(x) => ValueView::I64(x),
        Value::U64(x) => ValueView::U64(x),
        Value::Str(s) => ValueView::Str(s@),
        Value::Signature(s) => ValueView::Signature(s@),
        Value::ObjectPath(s) => ValueView::ObjectPath(s@),
        Value::Variant(inner) => ValueView::Variant(Box::new(value_view(*inner))),
        Value::Array(items) => ValueView::Array(prefix_views(items@, items@.len())),
        Value::Dict(entries) => ValueView::Dict(prefix_entry_views(entries@, entries@.len())),
        Value::Structure(items) => ValueView::Structure(prefix_views(items@, items@.len())),
        Value::Other => ValueView::Other,
    }
}

/// The views of the first `n` of `items`.
pub open spec fn prefix_views(items: Seq<Value>, n: nat) -> Seq<ValueView>
    decreases items, n,
{
    if n == 0 || n > items.len() {
        Seq::empty()
    } else {
        prefix_views(items, (n - 1) as nat).push(value_view(items[n - 1]))
    }
}

/// The views of the first `n` of `entries`.
pub open spec fn prefix_entry_views(entries: Seq<(Value, Value)>, n: nat) -> Seq<
    (ValueView, ValueView),
>
    decreases entries, n,
{
    if n == 0 || n > entries.len() {
        Seq::empty()
    } else {
        prefix_entry_views(entries, (n - 1) as nat).push(
            (value_view(entries[n - 1].0), value_view(entries[n - 1].1)),
        )
    }
}

proof fn lemma_prefix_views(items: Seq<Value>, n: nat)
    requires
        n <= items.len(),
    ensures
        prefix_views(items, n) == views(items.take(n as int)),
    decreases n,
{
    if n > 0 {
        lemma_prefix_views(items, (n - 1) as nat);
    }
    assert(prefix_views(items, n) =~= views(items.take(n as int)));
}

proof fn lemma_prefix_entry_views(entries: Seq<(Value, Value)>, n: nat)
    requires
        n <= entries.len(),
    ensures
        prefix_entry_views(entries, n) == entry_views(entries.take(n as int)),
    decreases n,
{
    if n > 0 {
        lemma_prefix_entry_views(entries, (n - 1) as nat);
    }
    assert(prefix_entry_views(entries, n) =~= entry_views(entries.take(n as int)));
}

/// The view of a container is the container of its elements' views.
pub proof fn lemma_container_views(v: Value)
    ensures
        v matches Value::Array(items) ==> v@ == ValueView::Array(views(items@)),
        v matches Value::Structure(items) ==> v@ == ValueView::Structure(views(items@)),
        v matches Value::Dict(entries) ==> v@ == ValueView::Dict(entry_views(entries@)),
{
    match v {
        Value::Array(items) => {
            lemma_prefix_views(items@, items@.len());
            assert(items@.take(items@.len() as int) =~= items@);
        },
        Value::Structure(items) => {
            lemma_prefix_views(items@, items@.len());
            assert(items@.take(items@.len() as int) =~= items@);
        },
        Value::Dict(entries) => {
            lemma_prefix_entry_views(entries@, entries@.len());
            assert(entries@.take(entries@.len() as int) =~= entries@);
        },
        _ => {},
    }
}

/// What a typed read looks at: the content of a variant container, or the
/// value itself when it is no such container. One level is opened, not more.
pub open spec fn peel(v: ValueView) -> ValueView {
    match v {
        ValueView::Variant(inner) => *inner,
        _ => v,
    }
}

/// The string that `v` holds, if it holds one.
pub open spec fn read_str(v: ValueView) -> Option<Seq<char>> {
    match peel(v) {
        ValueView::Str(s) => Some(s),
        _ => None,
    }
}

/// The object path that `v` holds, if it holds one.
pub open spec fn read_object_path(v: ValueView) -> Option<Seq<char>> {
    match peel(v) {
        ValueView::ObjectPath(s) => Some(s),
        _ => None,
    }
}

/// The boolean that `v` holds, if it holds one.
pub open spec fn read_bool(v: ValueView) -> Option<bool> {
    match peel(v) {
        ValueView::Bool(b) => Some(b),
        _ => None,
    }
}

/// The 32-bit signed integer that `v` holds, if it holds one.
pub open spec fn read_i32(v: ValueView) -> Option<i32> {
    match peel(v) {
        ValueView::I32(x) => Some(x),
        _ => None,
    }
}

/// The 32-bit unsigned integer that `v` holds, if it holds one.
pub open spec fn read_u32(v: ValueView) -> Option<u32> {
    match peel(v) {
        ValueView::U32(x) => Some(x),
        _ => None,
    }
}

/// The byte that `v` holds, if it holds one.
pub open spec fn read_u8(v: ValueView) -> Option<u8> {
    match peel(v) {
        ValueView::U8(x) => Some(x),
        _ => None,
    }
}

/// The elements of the array that `v` holds, if it holds one.
pub open spec fn read_array(v: ValueView) -> Option<Seq<ValueView>> {
    match peel(v) {
        ValueView::Array(items) => Some(items),
        _ => None,
    }
}

/// The fields of the structure that `v` holds, if it holds one.
pub open spec fn read_structure(v: ValueView) -> Option<Seq<ValueView>> {
    match peel(v) {
        ValueView::Structure(fields) => Some(fields),
        _ => None,
    }
}

/// The entries of the dictionary that `v` holds, if it holds one.
pub open spec fn read_dict(v: ValueView) -> Option<Seq<(ValueView, ValueView)>> {
    match peel(v) {
        ValueView::Dict(entries) => Some(entries),
        _ => None,
    }
}

/// The value of the first entry whose key is the string `key`. Entries with
/// a key of another type are passed over.
pub open spec fn dict_find(entries: Seq<(ValueView, ValueView)>, key: Seq<char>) -> Option<
    ValueView,
>
    decreases entries.len(),
{
    if entries.len() == 0 {
        None
    } else if read_str(entries[0].0) == Some(key) {
        Some(entries[0].1)
    } else {
        dict_find(entries.drop_first(), key)
    }
}

/// The value stored under `key` in a property bag: that of the first entry
/// named `key`.
pub open spec fn bag_find(entries: Seq<(Seq<char>, ValueView)>, key: Seq<char>) -> Option<
    ValueView,
>
    decreases entries.len(),
{
    if entries.len() == 0 {
        None
    } else if entries[0].0 == key {
        Some(entries[0].1)
    } else {
        bag_find(entries.drop_first(), key)
    }
}

impl Value {
    /// Opens one variant container, if `self` is one.
    pub fn peel(&self) -> (r: &Value)
        ensures
            r@ == peel(self@),
    {
        match self {
            Value::Variant(inner) => &**inner,
            _ => self,
        }
    }

    /// Reads `self` as a string.
    pub fn as_str(&self) -> (r: Option<&String>)
        ensures
            match r {
                Some(s) => read_str(self@) == Some(s@),
                None => read_str(self@) is None,
            },
    {
        match self.peel() {
            Value::Str(s) => Some(s),
            _ => None,
        }
    }

    /// Reads `self` as an object path.
    pub fn as_object_path(&self) -> (r: Option<&String>)
        ensures
            match r {
                Some(s) => read_object_path(self@) == Some(s@),
                None => read_object_path(self@) is None,
            },
    {
        match self.peel() {
            Value::ObjectPath(s) => Some(s),
            _ => None,
        }
    }

    /// Reads `self` as a boolean.
    pub fn as_bool(&self) -> (r: Option<bool>)
        ensures
            r == read_bool(self@),
    {
        match self.peel() {
            Value::Bool(b) => Some(*b),
            _ => None,
        }
    }

    /// Reads `self` as a 32-bit signed integer.
    pub fn as_i32(&self) -> (r: Option<i32>)
        ensures
            r == read_i32(self@),
    {
        match self.peel() {
            Value::I32(x) => Some(*x),
            _ => None,
        }
    }

    /// Reads `self` as a 32-bit unsigned integer.
    pub fn as_u32(&self) -> (r: Option<u32>)
        ensures
            r == read_u32(self@),
    {
        match self.peel() {
            Value::U32(x) => Some(*x),
            _ => None,
        }
    }

    /// Reads `self` as a byte.
    pub fn as_u8(&self) -> (r: Option<u8>)
        ensures
            r == read_u8(self@),
    {
        match self.peel() {
            Value::U8(x) => Some(*x),
            _ => None,
        }
    }

    /// Reads `self` as an array.
    pub fn as_array(&self) -> (r: Option<&Vec<Value>>)
        ensures
            match r {
                Some(items) => read_array(self@) == Some(views(items@)),
                None => read_array(self@) is None,
            },
    {
        let inner = self.peel();
        proof {
            lemma_container_views(*inner);
        }
        match inner {
            Value::Array(items) => Some(items),
            _ => None,
        }
    }

    /// Reads `self` as a structure.
    pub fn as_structure(&self) -> (r: Option<&Vec<Value>>)
        ensures
            match r {
                Some(fields) => read_structure(self@) == Some(views(fields@)),
                None => read_structure(self@) is None,
            },
    {
        let inner = self.peel();
        proof {
            lemma_container_views(*inner);
        }
        match inner {
            Value::Structure(fields) => Some(fields),
            _ => None,
        }
    }

    /// Reads `self` as a dictionary.
    pub fn as_dict(&self) -> (r: Option<&Vec<(Value, Value)>>)
        ensures
            match r {
                Some(entries) => read_dict(self@) == Some(entry_views(entries@)),
                None => read_dict(self@) is None,
            },
    {
        let inner = self.peel();
        proof {
            lemma_container_views(*inner);
        }
        match inner {
            Value::Dict(entries) => Some(entries),
            _ => None,
        }
    }
}

/// Looks `key` up among the entries of a dictionary.
pub fn dict_get<'a>(entries: &'a Vec<(Value, Value)>, key: &str) -> (r: Option<&'a Value>)
    ensures
        match r {
            Some(v) => dict_find(entry_views(entries@), key@) == Some(v@),
            None => dict_find(entry_views(entries@), key@) is None,
        },
{
    let ghost all = entry_views(entries@);
    let mut i: usize = 0;
    assert(all.subrange(0, all.len() as int) =~= all);
    while i < entries.len()
        invariant
            i <= entries.len(),
            all == entry_views(entries@),
            dict_find(all, key@) == dict_find(all.subrange(i as int, all.len() as int), key@),
        decreases entries.len() - i,
    {
        let ghost rest = all.subrange(i as int, all.len() as int);
        proof {
            assert(rest[0] == all[i as int]);
            assert(rest.drop_first() =~= all.subrange(i + 1, all.len() as int));
        }
        let hit = match entries[i].0.as_str() {
            Some(name) => str_eq(name.as_str(), key),
            None => false,
        };
        if hit {
            return Some(&entries[i].1);
        }
        i += 1;
    }
    None
}

/// The views of the entries of a property bag, element by element.
pub open spec fn bag_views(entries: Seq<(String, Value)>) -> Seq<(Seq<char>, ValueView)> {
    Seq::new(entries.len(), |i: int| (entries[i].0@, entries[i].1@))
}

/// Looks `key` up among the entries of a property bag.
pub fn bag_get<'a>(entries: &'a Vec<(String, Value)>, key: &str) -> (r: Option<&'a Value>)
    ensures
        match r {
            Some(v) => bag_find(bag_views(entries@), key@) == Some(v@),
            None => bag_find(bag_views(entries@), key@) is None,
        },
{
    let ghost all = bag_views(entries@);
    let mut i: usize = 0;
    assert(all.subrange(0, all.len() as int) =~= all);
    while i < entries.len()
        invariant
            i <= entries.len(),
            all == bag_views(entries@),
            bag_find(all, key@) == bag_find(all.subrange(i as int, all.len() as int), key@),
        decreases entries.len() - i,
    {
        let ghost rest = all.subrange(i as int, all.len() as int);
        proof {
            assert(rest[0] == all[i as int]);
            assert(rest.drop_first() =~= all.subrange(i + 1, all.len() as int));
        }
        if str_eq(entries[i].0.as_str(), key) {
            return Some(&entries[i].1);
        }
        i += 1;
    }
    None
}

} // verus!
