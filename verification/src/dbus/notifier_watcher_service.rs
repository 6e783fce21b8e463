//! State of the `org.kde.StatusNotifierWatcher` service: which hosts and
//! which items are registered, and what each call changes.

use crate::message::{MessageView, NotifierItemMessage};
use crate::text::{clone_strings, contains, occurs_in, str_eq, string_views};
use vstd::prelude::*;

verus! {

/// Well-known name under which the watcher is served.
pub const WATCHER_NAME: &'static str = "org.kde.StatusNotifierWatcher";

/// Object path at which the watcher is served.
pub const WATCHER_PATH: &'static str = "/StatusNotifierWatcher";

/// A signal that the watcher owes its peers after a call.
#[derive(Debug, PartialEq, Eq)]
pub enum WatcherSignal {
    /// The property `IsStatusNotifierHostRegistered` has changed.
    HostRegisteredChanged,
    /// `StatusNotifierItemRegistered`, with the registration string of the
    /// new item.
    ItemRegistered(String),
}

/// Mathematical counterpart of [`WatcherSignal`].
pub enum WatcherSignalView {
    HostRegisteredChanged,
    ItemRegistered(Seq<char>),
}

impl View for WatcherSignal {
    type V = WatcherSignalView;

    open spec fn view(&self) -> WatcherSignalView {
        match self {
            WatcherSignal::HostRegisteredChanged => WatcherSignalView::HostRegisteredChanged,
            WatcherSignal::ItemRegistered(s) => WatcherSignalView::ItemRegistered(s@),
        }
    }
}

/// The registry of hosts and items.
#[derive(Debug)]
pub struct DbusNotifierWatcher {
    status_notifier_hosts: Vec<String>,
    registered_status_notifier_items: Vec<String>,
    protocol_version: i32,
    is_status_notifier_host_registered: bool,
}

/// Mathematical counterpart of [`DbusNotifierWatcher`]. Hosts and items are
/// sets; each is listed in the order of registration.
pub struct WatcherView {
    pub hosts: Seq<Seq<char>>,
    pub items: Seq<Seq<char>>,
    pub protocol_version: i32,
    pub is_status_notifier_host_registered: bool,
}

/// `set` with `s` added, unless it is there already.
pub open spec fn with_member(set: Seq<Seq<char>>, s: Seq<char>) -> Seq<Seq<char>> {
    if set.contains(s) {
        set
    } else {
        set.push(s)
    }
}

/// Index of the first of `items` that `part` is a part of, or
/// `items.len()` when there is none.
pub open spec fn first_holding(items: Seq<Seq<char>>, part: Seq<char>) -> int
    decreases items.len(),
{
    if items.len() == 0 || occurs_in(items[0], part) {
        0
    } else {
        1 + first_holding(items.drop_first(), part)
    }
}

/// `first_holding` is the least index of an item that holds `part`, and the
/// length when there is none.
pub proof fn lemma_first_holding(items: Seq<Seq<char>>, part: Seq<char>)
    ensures
        0 <= first_holding(items, part) <= items.len(),
        forall|j: int| 0 <= j < first_holding(items, part) ==> !occurs_in(items[j], part),
        first_holding(items, part) < items.len() ==> occurs_in(
            items[first_holding(items, part)],
            part,
        ),
    decreases items.len(),
{
    if items.len() == 0 || occurs_in(items[0], part) {
    } else {
        let rest = items.drop_first();
        lemma_first_holding(rest, part);
        assert forall|j: int| 0 <= j < first_holding(items, part) implies !occurs_in(
            items[j],
            part,
        ) by {
            if j > 0 {
                assert(items[j] == rest[j - 1]);
            }
        }
        if first_holding(items, part) < items.len() {
            assert(items[first_holding(items, part)] == rest[first_holding(rest, part)]);
        }
    }
}

/// An index is `first_holding(items, part)` as soon as no item before it
/// holds `part` and it either holds `part` or is the length.
pub proof fn lemma_first_holding_is(items: Seq<Seq<char>>, part: Seq<char>, i: int)
    requires
        0 <= i <= items.len(),
        forall|j: int| 0 <= j < i ==> !occurs_in(items[j], part),
        i < items.len() ==> occurs_in(items[i], part),
    ensures
        first_holding(items, part) == i,
{
    lemma_first_holding(items, part);
}

/// The registry after `UnregisterStatusNotifierItem(service)`: the first
/// item that `service` is a part of is gone.
pub open spec fn without_first_holding(items: Seq<Seq<char>>, service: Seq<char>) -> Seq<
    Seq<char>,
> {
    let i = first_holding(items, service);
    if i < items.len() {
        items.remove(i)
    } else {
        items
    }
}

/// Whether `s` is among `list`.
fn holds(list: &Vec<String>, s: &str) -> (r: bool)
    ensures
        r == string_views(list@).contains(s@),
{
    let mut i: usize = 0;
    while i < list.len()
        invariant
            i <= list.len(),
            forall|j: int| 0 <= j < i ==> string_views(list@)[j] != s@,
        decreases list.len() - i,
    {
        if str_eq(list[i].as_str(), s) {
            assert(string_views(list@)[i as int] == s@);
            return true;
        }
        i += 1;
    }
    false
}

/// Adds `s` to `list` unless it is there already.
fn add_member(list: &mut Vec<String>, s: &str)
    ensures
        string_views(final(list)@) == with_member(string_views(old(list)@), s@),
{
    if !holds(list, s) {
        list.push(String::from_str(s));
        assert(string_views(list@) =~= string_views(old(list)@).push(s@));
    }
}

/// A set stays a set when a member is added.
pub proof fn lemma_with_member_no_duplicates(set: Seq<Seq<char>>, s: Seq<char>)
    requires
        set.no_duplicates(),
    ensures
        with_member(set, s).no_duplicates(),
        with_member(set, s).contains(s),
{
    if set.contains(s) {
    } else {
        let t = set.push(s);
        assert(t[set.len() as int] == s);
        assert forall|i: int, j: int| 0 <= i < t.len() && 0 <= j < t.len() && i != j implies t[i]
            != t[j] by {
            if i < set.len() && j < set.len() {
            } else if i < set.len() {
                assert(set.contains(set[i]));
            } else {
                assert(set.contains(set[j]));
            }
        }
    }
}

impl View for DbusNotifierWatcher {
    type V = WatcherView;

    closed spec fn view(&self) -> WatcherView {
        WatcherView {
            hosts: string_views(self.status_notifier_hosts@),
            items: string_views(self.registered_status_notifier_items@),
            protocol_version: self.protocol_version,
            is_status_notifier_host_registered: self.is_status_notifier_host_registered,
        }
    }
}

impl WatcherView {
    /// The registry before any call.
    pub open spec fn initial() -> WatcherView {
        WatcherView {
            hosts: Seq::empty(),
            items: Seq::empty(),
            protocol_version: 0,
            is_status_notifier_host_registered: false,
        }
    }

    /// What holds of every registry: nothing is listed twice, the protocol
    /// version is zero, and the flag tells whether a host is registered.
    pub open spec fn wf(self) -> bool {
        &&& self.hosts.no_duplicates()
        &&& self.items.no_duplicates()
        &&& self.protocol_version == 0
        &&& self.is_status_notifier_host_registered == (self.hosts.len() > 0)
    }

    /// The registry after `RegisterStatusNotifierHost(service)`.
    pub open spec fn register_host(self, service: Seq<char>) -> WatcherView {
        WatcherView {
            hosts: with_member(self.hosts, service),
            is_status_notifier_host_registered: true,
            ..self
        }
    }

    /// The registry after `RegisterStatusNotifierItem(service)` sent by
    /// `sender`: the item is listed as the sender's name followed by
    /// `service`.
    pub open spec fn register_item(self, sender: Seq<char>, service: Seq<char>) -> WatcherView {
        WatcherView { items: with_member(self.items, sender + service), ..self }
    }

    /// The registry after `UnregisterStatusNotifierItem(service)`.
    pub open spec fn unregister_item(self, service: Seq<char>) -> WatcherView {
        WatcherView { items: without_first_holding(self.items, service), ..self }
    }

    /// Whether `UnregisterStatusNotifierItem(service)` removes an item.
    pub open spec fn holds_item(self, service: Seq<char>) -> bool {
        first_holding(self.items, service) < self.items.len()
    }
}

/// A list without duplicates has none after an element is taken out.
pub proof fn lemma_remove_no_duplicates(items: Seq<Seq<char>>, i: int)
    requires
        items.no_duplicates(),
        0 <= i < items.len(),
    ensures
        items.remove(i).no_duplicates(),
{
    let after = items.remove(i);
    assert forall|a: int, b: int|
        0 <= a < after.len() && 0 <= b < after.len() && a != b implies after[a] != after[b] by {
        let a0 = if a < i { a } else { a + 1 };
        let b0 = if b < i { b } else { b + 1 };
        assert(after[a] == items[a0]);
        assert(after[b] == items[b0]);
    }
}

/// Finds the first of `list` that holds `part`.
fn first_holding_index(list: &Vec<String>, part: &str) -> (i: usize)
    ensures
        i == first_holding(string_views(list@), part@),
        i <= list.len(),
{
    let ghost items = string_views(list@);
    let mut i: usize = 0;
    while i < list.len()
        invariant
            i <= list.len(),
            items == string_views(list@),
            forall|j: int| 0 <= j < i ==> !occurs_in(items[j], part@),
        decreases list.len() - i,
    {
        if contains(list[i].as_str(), part) {
            proof {
                lemma_first_holding_is(items, part@, i as int);
            }
            return i;
        }
        i += 1;
    }
    proof {
        lemma_first_holding_is(items, part@, i as int);
    }
    i
}

impl DbusNotifierWatcher {
    /// Nothing is listed twice, the protocol version is zero, and the flag
    /// tells whether a host is registered.
    #[verifier::type_invariant]
    pub open spec fn well_formed(self) -> bool {
        self@.wf()
    }

    /// A registry without hosts and items.
    pub fn new() -> (r: DbusNotifierWatcher)
        ensures
            r@ == WatcherView::initial(),
            r@.wf(),
    {
        let hosts: Vec<String> = Vec::new();
        let items: Vec<String> = Vec::new();
        assert(string_views(hosts@) =~= Seq::empty());
        assert(string_views(items@) =~= Seq::empty());
        DbusNotifierWatcher {
            registered_status_notifier_items: items,
            protocol_version: 0,
            is_status_notifier_host_registered: false,
            status_notifier_hosts: hosts,
        }
    }

    /// Takes out the first registered item whose registration string holds
    /// `notifier_address`, and returns the `Remove` owed to the subscribers.
    /// When no item holds it, nothing changes and nothing is owed.
    pub fn remove_notifier(&mut self, notifier_address: &str) -> (r: Option<NotifierItemMessage>)
        ensures
            final(self)@ == old(self)@.unregister_item(notifier_address@),
            old(self)@.wf(),
            final(self)@.wf(),
            match r {
                Some(m) => old(self)@.holds_item(notifier_address@) && m@ == (MessageView::Remove {
                    address: notifier_address@,
                }),
                None => !old(self)@.holds_item(notifier_address@),
            },
    {
        proof {
            use_type_invariant(&*self);
        }
        let i = first_holding_index(&self.registered_status_notifier_items, notifier_address);
        if i >= self.registered_status_notifier_items.len() {
            return None;
        }
        let mut taken = DbusNotifierWatcher::new();
        core::mem::swap(self, &mut taken);
        let DbusNotifierWatcher {
            status_notifier_hosts,
            registered_status_notifier_items,
            protocol_version,
            is_status_notifier_host_registered,
        } = taken;
        let mut items = registered_status_notifier_items;
        let ghost before = string_views(items@);
        items.remove(i);
        proof {
            assert(string_views(items@) =~= before.remove(i as int));
            lemma_remove_no_duplicates(before, i as int);
        }
        *self = DbusNotifierWatcher {
            status_notifier_hosts,
            registered_status_notifier_items: items,
            protocol_version,
            is_status_notifier_host_registered,
        };
        Some(NotifierItemMessage::Remove { address: String::from_str(notifier_address) })
    }

    /// `RegisterStatusNotifierHost`: lists the host and raises the flag.
    /// The property-changed signal is owed in every case.
    pub fn register_status_notifier_host(&mut self, service: &str) -> (r: WatcherSignal)
        ensures
            final(self)@ == old(self)@.register_host(service@),
            old(self)@.wf(),
            final(self)@.wf(),
            r@ == WatcherSignalView::HostRegisteredChanged,
    {
        proof {
            use_type_invariant(&*self);
            lemma_with_member_no_duplicates(self@.hosts, service@);
        }
        let mut taken = DbusNotifierWatcher::new();
        core::mem::swap(self, &mut taken);
        let DbusNotifierWatcher {
            status_notifier_hosts,
            registered_status_notifier_items,
            protocol_version,
            is_status_notifier_host_registered: _,
        } = taken;
        let mut hosts = status_notifier_hosts;
        add_member(&mut hosts, service);
        *self = DbusNotifierWatcher {
            status_notifier_hosts: hosts,
            registered_status_notifier_items,
            protocol_version,
            is_status_notifier_host_registered: true,
        };
        WatcherSignal::HostRegisteredChanged
    }

    /// `RegisterStatusNotifierItem`, sent by the peer named `sender`: lists
    /// the item under the sender's name followed by `service`, which tells
    /// apart items that announce the same path from different owners.
    /// `StatusNotifierItemRegistered` is owed with that string.
    pub fn register_status_notifier_item(&mut self, sender: &str, service: &str) -> (r:
        WatcherSignal)
        ensures
            final(self)@ == old(self)@.register_item(sender@, service@),
            old(self)@.wf(),
            final(self)@.wf(),
            r@ == WatcherSignalView::ItemRegistered(sender@ + service@),
    {
        proof {
            use_type_invariant(&*self);
            lemma_with_member_no_duplicates(self@.items, sender@ + service@);
        }
        let mut notifier_item = String::from_str(sender);
        notifier_item.append(service);
        let mut taken = DbusNotifierWatcher::new();
        core::mem::swap(self, &mut taken);
        let DbusNotifierWatcher {
            status_notifier_hosts,
            registered_status_notifier_items,
            protocol_version,
            is_status_notifier_host_registered,
        } = taken;
        let mut items = registered_status_notifier_items;
        add_member(&mut items, notifier_item.as_str());
        *self = DbusNotifierWatcher {
            status_notifier_hosts,
            registered_status_notifier_items: items,
            protocol_version,
            is_status_notifier_host_registered,
        };
        WatcherSignal::ItemRegistered(notifier_item)
    }

    /// `UnregisterStatusNotifierItem`: see [`Self::remove_notifier`].
    pub fn unregister_status_notifier_item(&mut self, service: &str) -> (r: Option<
        NotifierItemMessage,
    >)
        ensures
            final(self)@ == old(self)@.unregister_item(service@),
            old(self)@.wf(),
            final(self)@.wf(),
            match r {
                Some(m) => old(self)@.holds_item(service@) && m@ == (MessageView::Remove {
                    address: service@,
                }),
                None => !old(self)@.holds_item(service@),
            },
    {
        self.remove_notifier(service)
    }

    /// The property `IsStatusNotifierHostRegistered`.
    pub fn is_status_notifier_host_registered(&self) -> (r: bool)
        ensures
            r == self@.is_status_notifier_host_registered,
            self@.wf(),
    {
        proof {
            use_type_invariant(self);
        }
        self.is_status_notifier_host_registered
    }

    /// The property `ProtocolVersion`.
    pub fn protocol_version(&self) -> (r: i32)
        ensures
            r == self@.protocol_version,
            r == 0,
            self@.wf(),
    {
        proof {
            use_type_invariant(self);
        }
        self.protocol_version
    }

    /// The property `RegisteredStatusNotifierItems`: the registration
    /// strings of the items, in the order of registration.
    pub fn registered_status_notifier_items(&self) -> (r: Vec<String>)
        ensures
            string_views(r@) == self@.items,
            self@.wf(),
    {
        proof {
            use_type_invariant(self);
        }
        clone_strings(&self.registered_status_notifier_items)
    }

    /// The names of the registered hosts, in the order of registration.
    pub fn status_notifier_hosts(&self) -> (r: Vec<String>)
        ensures
            string_views(r@) == self@.hosts,
            self@.wf(),
    {
        proof {
            use_type_invariant(self);
        }
        clone_strings(&self.status_notifier_hosts)
    }
}

/// A call of the watcher's interface, with the name of its sender where the
/// call depends on it.
pub enum WatcherCall {
    RegisterHost { service: Seq<char> },
    RegisterItem { sender: Seq<char>, service: Seq<char> },
    UnregisterItem { service: Seq<char> },
}

impl WatcherView {
    /// The registry after `call`.
    pub open spec fn after_call(self, call: WatcherCall) -> WatcherView {
        match call {
            WatcherCall::RegisterHost { service } => self.register_host(service),
            WatcherCall::RegisterItem { sender, service } => self.register_item(sender, service),
            WatcherCall::UnregisterItem { service } => self.unregister_item(service),
        }
    }

    /// The `Remove` messages that `call` sends to the subscribers: one when
    /// it takes an item out, none otherwise.
    pub open spec fn removes_of(self, call: WatcherCall) -> Seq<MessageView> {
        match call {
            WatcherCall::UnregisterItem { service } => if self.holds_item(service) {
                seq![MessageView::Remove { address: service }]
            } else {
                Seq::empty()
            },
            _ => Seq::empty(),
        }
    }

    /// How many items `call` adds to the registry: one when it registers an
    /// item that is not listed yet, none otherwise.
    pub open spec fn listed_by(self, call: WatcherCall) -> nat {
        match call {
            WatcherCall::RegisterItem { sender, service } => if self.items.contains(
                sender + service,
            ) {
                0
            } else {
                1
            },
            _ => 0,
        }
    }

    /// The registry after `calls`, made in order.
    pub open spec fn after_calls(self, calls: Seq<WatcherCall>) -> WatcherView
        decreases calls.len(),
    {
        if calls.len() == 0 {
            self
        } else {
            self.after_calls(calls.drop_last()).after_call(calls.last())
        }
    }

    /// The `Remove` messages that `calls`, made in order, send to the
    /// subscribers.
    pub open spec fn removes_of_calls(self, calls: Seq<WatcherCall>) -> Seq<MessageView>
        decreases calls.len(),
    {
        if calls.len() == 0 {
            Seq::empty()
        } else {
            self.removes_of_calls(calls.drop_last()) + self.after_calls(
                calls.drop_last(),
            ).removes_of(calls.last())
        }
    }

    /// How many items `calls`, made in order, add to the registry.
    pub open spec fn listed_by_calls(self, calls: Seq<WatcherCall>) -> nat
        decreases calls.len(),
    {
        if calls.len() == 0 {
            0
        } else {
            self.listed_by_calls(calls.drop_last()) + self.after_calls(
                calls.drop_last(),
            ).listed_by(calls.last())
        }
    }
}

/// Every call leaves a registry a registry.
pub proof fn lemma_call_keeps_wf(state: WatcherView, call: WatcherCall)
    requires
        state.wf(),
    ensures
        state.after_call(call).wf(),
{
    match call {
        WatcherCall::RegisterHost { service } => {
            lemma_with_member_no_duplicates(state.hosts, service);
        },
        WatcherCall::RegisterItem { sender, service } => {
            lemma_with_member_no_duplicates(state.items, sender + service);
        },
        WatcherCall::UnregisterItem { service } => {
            lemma_first_holding(state.items, service);
            let i = first_holding(state.items, service);
            if i < state.items.len() {
                lemma_remove_no_duplicates(state.items, i);
            }
        },
    }
}

/// Over any sequence of calls, the subscribers are sent one `Remove` for
/// each item that leaves the registry, and no other: the number of messages
/// is the number of items there were, plus the number that the calls added,
/// minus the number that are left.
pub proof fn lemma_one_remove_per_lost_item(state: WatcherView, calls: Seq<WatcherCall>)
    ensures
        state.removes_of_calls(calls).len() + state.after_calls(calls).items.len()
            == state.items.len() + state.listed_by_calls(calls),
        forall|i: int|
            0 <= i < state.removes_of_calls(calls).len() ==> #[trigger] state.removes_of_calls(
                calls,
            )[i] is Remove,
    decreases calls.len(),
{
    if calls.len() > 0 {
        let before = state.after_calls(calls.drop_last());
        lemma_one_remove_per_lost_item(state, calls.drop_last());
        match calls.last() {
            WatcherCall::UnregisterItem { service } => {
                lemma_first_holding(before.items, service);
            },
            _ => {},
        }
    }
}

/// A peer that registers an item and then leaves the bus costs the
/// subscribers exactly one `Remove`, named after the peer, and leaves the
/// registry as it was. This holds when no item listed before holds the
/// peer's name in its registration string.
pub proof fn lemma_registered_then_lost(state: WatcherView, sender: Seq<char>, service: Seq<char>)
    requires
        forall|i: int| 0 <= i < state.items.len() ==> !occurs_in(#[trigger] state.items[i], sender),
    ensures
        state.register_item(sender, service).holds_item(sender),
        state.register_item(sender, service).removes_of(
            WatcherCall::UnregisterItem { service: sender },
        ) == seq![MessageView::Remove { address: sender }],
        state.register_item(sender, service).unregister_item(sender) == state,
{
    let composite = sender + service;
    assert(composite.subrange(0, sender.len() as int) =~= sender);
    assert(crate::text::occurs_at(composite, sender, 0));
    assert(occurs_in(composite, sender));
    if state.items.contains(composite) {
        let i = choose|i: int| 0 <= i < state.items.len() && state.items[i] == composite;
        assert(occurs_in(state.items[i], sender));
    }
    let listed = state.items.push(composite);
    lemma_first_holding_is(listed, sender, state.items.len() as int);
    assert(listed.remove(state.items.len() as int) =~= state.items);
}

/// Number of `RegisterStatusNotifierItem` calls among `calls`.
pub open spec fn registrations(calls: Seq<WatcherCall>) -> nat
    decreases calls.len(),
{
    if calls.len() == 0 {
        0
    } else if calls.last() is RegisterItem {
        registrations(calls.drop_last()) + 1
    } else {
        registrations(calls.drop_last())
    }
}

/// Number of `UnregisterStatusNotifierItem` calls among `calls`.
pub open spec fn unregistrations(calls: Seq<WatcherCall>) -> nat
    decreases calls.len(),
{
    if calls.len() == 0 {
        0
    } else if calls.last() is UnregisterItem {
        unregistrations(calls.drop_last()) + 1
    } else {
        unregistrations(calls.drop_last())
    }
}

/// Peers that each register one item and later leave the bus, and when
/// each of the two happens: peer `i` is named `owners[i]`, registers the
/// path `paths[i]` by the call at index `registered_at[i]`, and is
/// unregistered under its name by the call at index `lost_at[i]`.
pub struct Pairs {
    pub owners: Seq<Seq<char>>,
    pub paths: Seq<Seq<char>>,
    pub registered_at: Seq<int>,
    pub lost_at: Seq<int>,
}

impl Pairs {
    /// Number of peers.
    pub open spec fn count(self) -> int {
        self.owners.len() as int
    }

    /// The registration string of the item of peer `i`.
    pub open spec fn item(self, i: int) -> Seq<char> {
        self.owners[i] + self.paths[i]
    }

    /// Peer `i` registers before it leaves, and `calls` hold its two calls
    /// where the schedule says.
    pub open spec fn scheduled(self, calls: Seq<WatcherCall>, i: int) -> bool {
        &&& 0 <= self.registered_at[i] < self.lost_at[i] < calls.len()
        &&& calls[self.registered_at[i]] == (WatcherCall::RegisterItem {
            sender: self.owners[i],
            service: self.paths[i],
        })
        &&& calls[self.lost_at[i]] == (WatcherCall::UnregisterItem { service: self.owners[i] })
    }

    /// The call at index `p` is one of the two calls of peer `i`.
    pub open spec fn steps_at(self, i: int, p: int) -> bool {
        0 <= i < self.count() && (self.registered_at[i] == p || self.lost_at[i] == p)
    }

    /// The call at index `p` is one of the two calls of some peer.
    pub open spec fn has_step(self, p: int) -> bool {
        exists|i: int| #[trigger] self.steps_at(i, p)
    }

    /// The name of peer `i` is no part of the registration string of
    /// another peer `j`.
    pub open spec fn apart(self, i: int, j: int) -> bool {
        i != j ==> !occurs_in(self.item(j), self.owners[i])
    }

    /// `calls` are the calls of these peers and no others, in some
    /// interleaving, and no peer's name is a part of the registration
    /// string of another.
    pub open spec fn interleaved_in(self, calls: Seq<WatcherCall>) -> bool {
        &&& self.paths.len() == self.owners.len()
        &&& self.registered_at.len() == self.owners.len()
        &&& self.lost_at.len() == self.owners.len()
        &&& calls.len() == 2 * self.owners.len()
        &&& forall|i: int| 0 <= i < self.count() ==> #[trigger] self.scheduled(calls, i)
        &&& forall|p: int| 0 <= p < calls.len() ==> #[trigger] self.has_step(p)
        &&& forall|i: int, j: int|
            0 <= i < self.count() && 0 <= j < self.count() ==> #[trigger] self.apart(i, j)
    }

    /// After the first `n` calls, peer `i` has registered and has not left.
    pub open spec fn live(self, i: int, n: int) -> bool {
        0 <= i < self.count() && self.registered_at[i] < n <= self.lost_at[i]
    }

    /// `entry` is the registration string of a peer that is live after the
    /// first `n` calls.
    pub open spec fn listed(self, entry: Seq<char>, n: int) -> bool {
        exists|i: int| #[trigger] self.live(i, n) && self.item(i) == entry
    }

    /// What holds after the first `n` of `calls`: the registry lists the
    /// items of the live peers and nothing else, and there was one `Remove`
    /// for each peer that has left, named after it.
    pub open spec fn holds_after(self, calls: Seq<WatcherCall>, n: int) -> bool {
        let prefix = calls.take(n);
        let state = WatcherView::initial().after_calls(prefix);
        let removes = WatcherView::initial().removes_of_calls(prefix);
        &&& state.wf()
        &&& state.hosts.len() == 0
        &&& forall|x: int|
            0 <= x < state.items.len() ==> self.listed(#[trigger] state.items[x], n)
        &&& forall|i: int| #[trigger] self.live(i, n) ==> state.items.contains(self.item(i))
        &&& removes.len() == unregistrations(prefix)
        &&& state.items.len() + unregistrations(prefix) == registrations(prefix)
        &&& registrations(prefix) + unregistrations(prefix) == n
        &&& forall|i: int|
            0 <= i < self.count() && #[trigger] self.lost_at[i] < n ==> removes.contains(
                MessageView::Remove { address: self.owners[i] },
            )
    }
}

/// A peer's name is a part of its own registration string.
proof fn lemma_owner_in_item(pairs: Pairs, i: int)
    ensures
        occurs_in(pairs.item(i), pairs.owners[i]),
{
    let item = pairs.item(i);
    assert(item.subrange(0, pairs.owners[i].len() as int) =~= pairs.owners[i]);
    assert(crate::text::occurs_at(item, pairs.owners[i], 0));
}

/// Two peers with the same name, or with the same registration string, are
/// one peer.
proof fn lemma_peers_differ(pairs: Pairs, calls: Seq<WatcherCall>, i: int, j: int)
    requires
        pairs.interleaved_in(calls),
        0 <= i < pairs.count(),
        0 <= j < pairs.count(),
        pairs.owners[i] == pairs.owners[j] || pairs.item(i) == pairs.item(j),
    ensures
        i == j,
{
    lemma_owner_in_item(pairs, i);
    lemma_owner_in_item(pairs, j);
    assert(pairs.apart(i, j));
    assert(pairs.apart(j, i));
}

/// The invariant of interleaved pairs holds after every prefix of the calls.
proof fn lemma_pairs_prefix(pairs: Pairs, calls: Seq<WatcherCall>, n: int)
    requires
        pairs.interleaved_in(calls),
        0 <= n <= calls.len(),
    ensures
        pairs.holds_after(calls, n),
    decreases n,
{
    let start = WatcherView::initial();
    if n == 0 {
        assert(calls.take(0) =~= Seq::<WatcherCall>::empty());
        assert forall|i: int| #[trigger] pairs.live(i, 0) implies false by {
            assert(pairs.scheduled(calls, i));
        }
        assert forall|i: int| 0 <= i < pairs.count() implies #[trigger] pairs.lost_at[i] >= 0 by {
            assert(pairs.scheduled(calls, i));
        }
    } else {
        let m = n - 1;
        lemma_pairs_prefix(pairs, calls, m);
        let before = calls.take(m);
        let prefix = calls.take(n);
        assert(prefix.drop_last() =~= before);
        assert(prefix.last() == calls[m]);
        let old_state = start.after_calls(before);
        let state = start.after_calls(prefix);
        let old_removes = start.removes_of_calls(before);
        let removes = start.removes_of_calls(prefix);
        assert(state == old_state.after_call(calls[m]));
        assert(removes == old_removes + old_state.removes_of(calls[m]));
        lemma_call_keeps_wf(old_state, calls[m]);
        assert(pairs.has_step(m));
        let i = choose|i: int| #[trigger] pairs.steps_at(i, m);
        assert(pairs.steps_at(i, m));
        assert(pairs.scheduled(calls, i));
        let items = old_state.items;
        // no other peer steps at `m`, and no peer both registers and leaves there
        assert forall|j: int| 0 <= j < pairs.count() && j != i implies pairs.registered_at[j] != m
            && pairs.lost_at[j] != m by {
            assert(pairs.scheduled(calls, j));
            if pairs.registered_at[j] == m || pairs.lost_at[j] == m {
                lemma_peers_differ(pairs, calls, i, j);
            }
        }
        if pairs.registered_at[i] == m {
            let item = pairs.item(i);
            // the item is new to the registry
            if items.contains(item) {
                let x = choose|x: int| 0 <= x < items.len() && items[x] == item;
                assert(pairs.listed(items[x], m));
                let j = choose|j: int| #[trigger] pairs.live(j, m) && pairs.item(j) == items[x];
                lemma_peers_differ(pairs, calls, i, j);
            }
            assert(state.items == items.push(item));
            assert forall|x: int| 0 <= x < state.items.len() implies pairs.listed(
                #[trigger] state.items[x],
                n,
            ) by {
                if x < items.len() {
                    assert(pairs.listed(items[x], m));
                    let j = choose|j: int| #[trigger] pairs.live(j, m) && pairs.item(j) == items[x];
                    assert(pairs.live(j, n));
                } else {
                    assert(pairs.live(i, n));
                }
            }
            assert forall|j: int| #[trigger] pairs.live(j, n) implies state.items.contains(
                pairs.item(j),
            ) by {
                if j == i {
                    assert(state.items[items.len() as int] == item);
                } else {
                    assert(pairs.live(j, m));
                    let x = choose|x: int| 0 <= x < items.len() && items[x] == pairs.item(j);
                    assert(state.items[x] == pairs.item(j));
                }
            }
            assert(removes =~= old_removes);
            assert forall|j: int|
                0 <= j < pairs.count() && #[trigger] pairs.lost_at[j] < n implies removes.contains(
                MessageView::Remove { address: pairs.owners[j] },
            ) by {
                assert(pairs.lost_at[j] < m);
            }
        } else {
            let owner = pairs.owners[i];
            let item = pairs.item(i);
            assert(pairs.live(i, m));
            let q = choose|q: int| 0 <= q < items.len() && items[q] == item;
            lemma_owner_in_item(pairs, i);
            // no other entry of the registry holds the peer's name
            assert forall|x: int| 0 <= x < items.len() && x != q implies !occurs_in(
                items[x],
                owner,
            ) by {
                assert(pairs.listed(items[x], m));
                let j = choose|j: int| #[trigger] pairs.live(j, m) && pairs.item(j) == items[x];
                assert(pairs.apart(i, j));
            }
            lemma_first_holding_is(items, owner, q);
            assert(state.items == items.remove(q));
            assert(old_state.removes_of(calls[m]) == seq![MessageView::Remove { address: owner }]);
            assert forall|x: int| 0 <= x < state.items.len() implies pairs.listed(
                #[trigger] state.items[x],
                n,
            ) by {
                let x0 = if x < q { x } else { x + 1 };
                assert(state.items[x] == items[x0]);
                assert(pairs.listed(items[x0], m));
                let j = choose|j: int| #[trigger] pairs.live(j, m) && pairs.item(j) == items[x0];
                assert(j != i);
                assert(pairs.live(j, n));
            }
            assert forall|j: int| #[trigger] pairs.live(j, n) implies state.items.contains(
                pairs.item(j),
            ) by {
                assert(j != i);
                assert(pairs.live(j, m));
                let x = choose|x: int| 0 <= x < items.len() && items[x] == pairs.item(j);
                if x == q {
                    lemma_peers_differ(pairs, calls, i, j);
                }
                let x1 = if x < q { x } else { x - 1 };
                assert(state.items[x1] == items[x]);
            }
            assert forall|j: int|
                0 <= j < pairs.count() && #[trigger] pairs.lost_at[j] < n implies removes.contains(
                MessageView::Remove { address: pairs.owners[j] },
            ) by {
                if j == i {
                    assert(removes[old_removes.len() as int] == MessageView::Remove {
                        address: owner,
                    });
                } else {
                    assert(pairs.lost_at[j] < m);
                    let r = choose|r: int|
                        0 <= r < old_removes.len() && old_removes[r] == (MessageView::Remove {
                            address: pairs.owners[j],
                        });
                    assert(removes[r] == old_removes[r]);
                }
            }
        }
    }
}

/// Peers that each register an item and later leave the bus, in any
/// interleaving, cost the subscribers one `Remove` each, named after the
/// peer, and leave the registry as empty as it was. This holds when no
/// peer's name is a part of the registration string of another.
pub proof fn lemma_one_remove_per_lost_peer(pairs: Pairs, calls: Seq<WatcherCall>)
    requires
        pairs.interleaved_in(calls),
    ensures
        WatcherView::initial().removes_of_calls(calls).len() == pairs.owners.len(),
        forall|i: int|
            0 <= i < pairs.owners.len() ==> WatcherView::initial().removes_of_calls(
                calls,
            ).contains(MessageView::Remove { address: #[trigger] pairs.owners[i] }),
        WatcherView::initial().after_calls(calls).items.len() == 0,
{
    let n = calls.len() as int;
    lemma_pairs_prefix(pairs, calls, n);
    assert(calls.take(n) =~= calls);
    let state = WatcherView::initial().after_calls(calls);
    if state.items.len() > 0 {
        assert(pairs.listed(state.items[0], n));
        let j = choose|j: int| #[trigger] pairs.live(j, n) && pairs.item(j) == state.items[0];
        assert(pairs.scheduled(calls, j));
    }
    assert forall|i: int| 0 <= i < pairs.owners.len() implies WatcherView::initial(
    ).removes_of_calls(calls).contains(
        MessageView::Remove { address: #[trigger] pairs.owners[i] },
    ) by {
        assert(pairs.scheduled(calls, i));
        assert(pairs.lost_at[i] < n);
    }
}

} // verus!
