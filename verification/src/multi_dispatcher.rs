//! The broadcast dispatcher: one bounded, ordered feed of watch events that
//! any number of subscribers read, each at its own pace and into its own cache.
//!
//! The dispatcher keeps the newest events, up to its capacity. Every event has
//! a position in the feed, counted from the first event ever published. A
//! subscriber starts at the position that comes next when it subscribes, so it
//! never sees what was published before; one that falls behind by more than
//! the capacity misses events and is told how many.

use crate::meta::{opt_types, ObjectMeta, ObjectMetaView, TypeMeta, TypeMetaView};
use crate::text::{copy_opt_text, opt_text};
use vstd::prelude::*;

verus! {

/// An event of a watch.
pub enum WatchEvent<K> {
    /// An object was added or modified.
    Apply(K),
    /// An object was deleted.
    Delete(K),
    /// A relist begins.
    Init,
    /// An object of the relist.
    InitApply(K),
    /// The relist is complete.
    InitDone,
}

/// An object of any kind: its resolved type, its metadata and the rest of it
/// as structured text.
pub struct DynamicObject {
    pub types: Option<TypeMeta>,
    pub metadata: ObjectMeta,
    pub data: String,
}

pub struct DynamicObjectView {
    pub types: Option<TypeMetaView>,
    pub metadata: ObjectMetaView,
    pub data: Seq<char>,
}

impl View for DynamicObject {
    type V = DynamicObjectView;

    open spec fn view(&self) -> DynamicObjectView {
        DynamicObjectView { types: opt_types(self.types), metadata: self.metadata@, data: self.data@ }
    }
}

impl DynamicObject {
    pub fn duplicate(&self) -> (r: Self)
        ensures
            r@ == self@,
    {
        DynamicObject {
            types: match &self.types {
                Some(t) => Some(t.duplicate()),
                None => None,
            },
            metadata: self.metadata.duplicate(),
            data: self.data.clone(),
        }
    }
}

/// The feed as the contracts see it.
pub struct DispatcherView<T> {
    /// The number of events that the feed retains at most.
    pub capacity: nat,
    /// The position of the oldest retained event.
    pub first: nat,
    /// The retained events, oldest first.
    pub retained: Seq<T>,
}

/// What a subscriber gets when it asks for its next event.
pub enum Received<T> {
    /// The event at the subscriber's position.
    Event(T),
    /// The subscriber fell behind: this many events are lost to it.
    Lagged(nat),
    /// Nothing was published since the subscriber last asked.
    Empty,
}

impl<T> DispatcherView<T> {
    /// The position that the next published event gets.
    pub open spec fn end(self) -> nat {
        self.first + self.retained.len()
    }

    /// The feed after one more event: the event is the newest one, and the
    /// oldest one leaves where the capacity would be exceeded.
    pub open spec fn published(self, event: T) -> DispatcherView<T> {
        if self.retained.len() + 1 > self.capacity {
            DispatcherView {
                capacity: self.capacity,
                first: self.first + 1,
                retained: self.retained.push(event).skip(1),
            }
        } else {
            DispatcherView { retained: self.retained.push(event), ..self }
        }
    }

    /// What a subscriber at position `cursor` receives, and its position after.
    pub open spec fn received(self, cursor: nat) -> (Received<T>, nat) {
        if cursor >= self.end() {
            (Received::Empty, cursor)
        } else if cursor < self.first {
            (Received::Lagged((self.first - cursor) as nat), self.first)
        } else {
            (Received::Event(self.retained[cursor - self.first]), cursor + 1)
        }
    }

    /// The feed after a run of events.
    pub open spec fn published_all(self, events: Seq<T>) -> DispatcherView<T>
        decreases events.len(),
    {
        if events.len() == 0 {
            self
        } else {
            self.published_all(events.drop_last()).published(events.last())
        }
    }
}

/// The dispatcher.
pub struct MultiDispatcher<T> {
    capacity: usize,
    first: u64,
    retained: Vec<T>,
}

/// A reader of the feed.
pub struct Subscriber {
    /// The position of the event that the subscriber receives next.
    pub cursor: u64,
}

/// What [`MultiDispatcher::recv`] hands out.
pub enum Recv<'a, T> {
    Event(&'a T),
    Lagged(u64),
    Empty,
}

impl<'a, T> Recv<'a, T> {
    pub open spec fn received(self) -> Received<T> {
        match self {
            Recv::Event(e) => Received::Event(*e),
            Recv::Lagged(n) => Received::Lagged(n as nat),
            Recv::Empty => Received::Empty,
        }
    }
}

impl<T> View for MultiDispatcher<T> {
    type V = DispatcherView<T>;

    closed spec fn view(&self) -> DispatcherView<T> {
        DispatcherView {
            capacity: self.capacity as nat,
            first: self.first as nat,
            retained: self.retained@,
        }
    }
}

impl<T> DispatcherView<T> {
    /// The feed retains at least one event and never more than its
    /// capacity, and its positions fit a 64-bit counter.
    pub open spec fn wf(self) -> bool {
        &&& self.capacity >= 1
        &&& self.retained.len() <= self.capacity
        &&& self.end() <= u64::MAX
    }
}

impl<T> MultiDispatcher<T> {
    #[verifier::type_invariant]
    spec fn well_formed(&self) -> bool {
        &&& self.capacity >= 1
        &&& self.retained@.len() <= self.capacity
        &&& self.first + self.retained@.len() <= u64::MAX
    }

    /// A dispatcher that retains up to `capacity` events, and one event
    /// where the capacity given is zero.
    pub fn new(capacity: usize) -> (d: Self)
        ensures
            d@ == (DispatcherView::<T> {
                capacity: if capacity == 0 {
                    1nat
                } else {
                    capacity as nat
                },
                first: 0,
                retained: Seq::empty(),
            }),
            d@.wf(),
    {
        MultiDispatcher {
            capacity: if capacity == 0 {
                1
            } else {
                capacity
            },
            first: 0,
            retained: Vec::new(),
        }
    }

    /// Publishes an event to the subscribers. The publisher is never held
    /// back: where the feed is full, the oldest event leaves it. Only a feed
    /// that has run out of positions, after 2^64 - 1 events, takes no more
    /// and hands the event back.
    pub fn broadcast_event(&mut self, event: T) -> (r: Result<(), T>)
        ensures
            final(self)@.wf(),
            if old(self)@.end() < u64::MAX {
                r is Ok && final(self)@ == old(self)@.published(event)
            } else {
                r == Err::<(), T>(event) && final(self)@ == old(self)@
            },
    {
        proof {
            use_type_invariant(&*self);
        }
        if self.first >= u64::MAX - (self.retained.len() as u64) {
            return Err(event);
        }
        let mut taken = MultiDispatcher { capacity: self.capacity, first: 0, retained: Vec::new() };
        core::mem::swap(self, &mut taken);
        let MultiDispatcher { capacity, first, retained } = taken;
        let mut retained = retained;
        let mut first = first;
        let ghost before = retained@;
        retained.push(event);
        if retained.len() > capacity {
            retained.remove(0);
            first = first + 1;
            assert(retained@ =~= before.push(event).skip(1));
        }
        *self = MultiDispatcher { capacity, first, retained };
        Ok(())
    }

    /// A new subscriber. It starts behind the newest event: nothing that was
    /// published before is replayed to it.
    pub fn subscribe(&self) -> (s: Subscriber)
        ensures
            self@.wf(),
            s.cursor == self@.end(),
    {
        proof {
            use_type_invariant(self);
        }
        Subscriber { cursor: self.first + (self.retained.len() as u64) }
    }

    /// The next event for the subscriber, if there is one.
    pub fn recv<'a>(&'a self, subscriber: &mut Subscriber) -> (r: Recv<'a, T>)
        ensures
            self@.wf(),
            (r.received(), final(subscriber).cursor as nat) == self@.received(old(subscriber).cursor as nat),
    {
        proof {
            use_type_invariant(self);
        }
        let end = self.first + (self.retained.len() as u64);
        if subscriber.cursor >= end {
            Recv::Empty
        } else if subscriber.cursor < self.first {
            let lost = self.first - subscriber.cursor;
            subscriber.cursor = self.first;
            Recv::Lagged(lost)
        } else {
            let index = (subscriber.cursor - self.first) as usize;
            subscriber.cursor = subscriber.cursor + 1;
            Recv::Event(&self.retained[index])
        }
    }
}

/// The feed stays well formed: it never retains more than its capacity.
pub proof fn lemma_published_bounded<T>(d: DispatcherView<T>, event: T)
    requires
        d.capacity >= 1,
        d.retained.len() <= d.capacity,
    ensures
        d.published(event).retained.len() <= d.capacity,
        d.published(event).capacity == d.capacity,
        d.published(event).end() == d.end() + 1,
        d.published(event).first >= d.first,
        d.published(event).retained.last() == event,
{
}

/// Fan-out without replay. Let a first subscriber stand at the end of the
/// feed when an event is published, and let a second one subscribe after it.
/// The first receives the event. The second does not: it has nothing to
/// receive yet, and whatever is published later, all that a subscriber ever
/// receives lies at or after the position at which it asked, which for the
/// second subscriber is past the event.
pub proof fn lemma_fan_out<T>(d: DispatcherView<T>, event: T, later: Seq<T>, cursor: nat)
    requires
        d.capacity >= 1,
        d.retained.len() <= d.capacity,
        cursor >= d.published(event).end(),
    ensures
        d.published(event).received(d.end()) == (Received::Event(event), d.end() + 1),
        d.published(event).received(d.published(event).end()) == (
            Received::<T>::Empty,
            d.published(event).end(),
        ),
        d.published(event).end() > d.end(),
        d.published(event).published_all(later).received(cursor).1 >= cursor,
        d.published(event).published_all(later).received(cursor).0 matches Received::Event(_)
            ==> d.published(event).published_all(later).received(cursor).1 == cursor + 1,
{
    lemma_published_bounded(d, event);
    let d1 = d.published(event);
    assert(d1.retained[d.end() - d1.first] == event) by {
        assert(d1.retained.last() == event);
    }
}

/// A subscriber that falls behind by more than the capacity misses events: it
/// is told how many and goes on with the oldest retained one. The publisher
/// was not held back for it.
pub proof fn lemma_lagging_subscriber_skips<T>(d: DispatcherView<T>, cursor: nat)
    requires
        cursor < d.first,
    ensures
        d.received(cursor) == (Received::<T>::Lagged((d.first - cursor) as nat), d.first),
{
}

/// Where a watch looks.
pub enum WatchScope {
    /// Everywhere: all namespaces of a namespaced kind, or a cluster-wide kind.
    All,
    /// In one namespace.
    Namespace(String),
}

pub enum WatchScopeView {
    All,
    Namespace(Seq<char>),
}

impl View for WatchScope {
    type V = WatchScopeView;

    open spec fn view(&self) -> WatchScopeView {
        match self {
            WatchScope::All => WatchScopeView::All,
            WatchScope::Namespace(n) => WatchScopeView::Namespace(n@),
        }
    }
}

/// How a watch gets its first list of objects.
#[derive(Clone, Copy, Debug, PartialEq, Eq, Structural)]
pub enum InitialListStrategy {
    /// The API server streams the list through the watch itself.
    StreamingList,
    /// A list call, then a watch from where the list ended; the typed events
    /// are converted to generic ones.
    ListWatch,
}

/// The lowest minor version of the API server that streams lists.
pub const STREAMING_LISTS_SINCE: u32 = 32;

/// The strategy for an API server of the given minor version.
pub open spec fn strategy_for(version: u32) -> InitialListStrategy {
    if version >= STREAMING_LISTS_SINCE {
        InitialListStrategy::StreamingList
    } else {
        InitialListStrategy::ListWatch
    }
}

/// Computes [`strategy_for`].
pub fn initial_list_strategy(version: u32) -> (s: InitialListStrategy)
    ensures
        s == strategy_for(version),
{
    if version >= STREAMING_LISTS_SINCE {
        InitialListStrategy::StreamingList
    } else {
        InitialListStrategy::ListWatch
    }
}

/// One logical watch.
pub struct WatchDescriptor {
    /// The kind of the watched objects.
    pub resource: TypeMeta,
    pub scope: WatchScope,
    /// The label selector in the form that the API server takes, or none to
    /// watch objects with any labels.
    pub label_selector: Option<String>,
    /// The field selector in the form that the API server takes.
    pub field_selector: Option<String>,
    pub strategy: InitialListStrategy,
}

pub struct WatchDescriptorView {
    pub resource: TypeMetaView,
    pub scope: WatchScopeView,
    pub label_selector: Option<Seq<char>>,
    pub field_selector: Option<Seq<char>>,
    pub strategy: InitialListStrategy,
}

impl View for WatchDescriptor {
    type V = WatchDescriptorView;

    open spec fn view(&self) -> WatchDescriptorView {
        WatchDescriptorView {
            resource: self.resource@,
            scope: self.scope@,
            label_selector: opt_text(self.label_selector),
            field_selector: opt_text(self.field_selector),
            strategy: self.strategy,
        }
    }
}

impl WatchDescriptor {
    pub fn duplicate(&self) -> (r: Self)
        ensures
            r@ == self@,
    {
        WatchDescriptor {
            resource: self.resource.duplicate(),
            scope: match &self.scope {
                WatchScope::All => WatchScope::All,
                WatchScope::Namespace(n) => WatchScope::Namespace(n.clone()),
            },
            label_selector: copy_opt_text(&self.label_selector),
            field_selector: copy_opt_text(&self.field_selector),
            strategy: self.strategy,
        }
    }
}

/// The views of a list of descriptors.
pub open spec fn descriptor_views(v: Seq<WatchDescriptor>) -> Seq<WatchDescriptorView> {
    Seq::new(v.len(), |i: int| v[i]@)
}

/// The set of active watches, which the dispatcher merges into its feed. It
/// has one writer, who replaces it as a whole when the configuration changes.
pub struct WatchSet {
    watches: Vec<WatchDescriptor>,
}

impl View for WatchSet {
    type V = Seq<WatchDescriptorView>;

    closed spec fn view(&self) -> Seq<WatchDescriptorView> {
        descriptor_views(self.watches@)
    }
}

impl WatchSet {
    /// The empty set.
    pub fn new() -> (s: Self)
        ensures
            s@ == Seq::<WatchDescriptorView>::empty(),
    {
        let s = WatchSet { watches: Vec::new() };
        assert(s@ =~= Seq::<WatchDescriptorView>::empty());
        s
    }

    /// Drops every watch.
    pub fn clear(&mut self)
        ensures
            final(self)@ == Seq::<WatchDescriptorView>::empty(),
    {
        self.watches.clear();
        assert(self@ =~= Seq::<WatchDescriptorView>::empty());
    }

    /// Adds a watch.
    pub fn push(&mut self, watch: WatchDescriptor)
        ensures
            final(self)@ == old(self)@.push(watch@),
    {
        self.watches.push(watch);
        assert(self@ =~= old(self)@.push(watch@));
    }

    /// The number of watches.
    pub fn len(&self) -> (n: usize)
        ensures
            n == self@.len(),
    {
        self.watches.len()
    }

    /// The watch at position `i`.
    pub fn get(&self, i: usize) -> (w: &WatchDescriptor)
        requires
            i < self@.len(),
        ensures
            w@ == self@[i as int],
    {
        &self.watches[i]
    }
}

/// The identity under which a cache holds an object: namespace and name.
pub open spec fn cache_key(o: DynamicObjectView) -> (Option<Seq<char>>, Seq<char>) {
    (o.metadata.namespace, o.metadata.name_any())
}

/// The position of the first object with the identity, where the list holds one.
pub open spec fn position_in(list: Seq<DynamicObjectView>, key: (Option<Seq<char>>, Seq<char>)) -> Option<int> {
    if exists|i: int| 0 <= i < list.len() && cache_key(list[i]) == key {
        Some(choose|i: int| is_first_position(list, key, i))
    } else {
        None
    }
}

/// The list with an object put in: it replaces the object of its identity, or
/// joins at the end where there is none.
pub open spec fn put(list: Seq<DynamicObjectView>, o: DynamicObjectView) -> Seq<DynamicObjectView> {
    match position_in(list, cache_key(o)) {
        Some(i) => list.update(i, o),
        None => list.push(o),
    }
}

/// The list without the object of an identity.
pub open spec fn dropped(list: Seq<DynamicObjectView>, o: DynamicObjectView) -> Seq<DynamicObjectView> {
    match position_in(list, cache_key(o)) {
        Some(i) => list.remove(i),
        None => list,
    }
}

/// No two objects of the list have the same identity.
pub open spec fn identities_distinct(list: Seq<DynamicObjectView>) -> bool {
    forall|i: int, j: int|
        0 <= i < j < list.len() ==> cache_key(#[trigger] list[i]) != cache_key(#[trigger] list[j])
}

/// The views of a list of objects.
pub open spec fn object_views(v: Seq<DynamicObject>) -> Seq<DynamicObjectView> {
    Seq::new(v.len(), |i: int| v[i]@)
}

/// The cache of a subscriber as the contracts see it.
pub struct StoreView {
    /// The last seen state of each object.
    pub objects: Seq<DynamicObjectView>,
    /// The objects of a relist that is under way.
    pub buffer: Seq<DynamicObjectView>,
}

impl StoreView {
    /// The cache after an event: an applied object is put in, a deleted one
    /// dropped; a relist is gathered aside and replaces the cache as a whole
    /// when it is complete.
    pub open spec fn after(self, event: WatchEvent<DynamicObjectView>) -> StoreView {
        match event {
            WatchEvent::Apply(o) => StoreView { objects: put(self.objects, o), ..self },
            WatchEvent::Delete(o) => StoreView { objects: dropped(self.objects, o), ..self },
            WatchEvent::Init => StoreView { buffer: Seq::empty(), ..self },
            WatchEvent::InitApply(o) => StoreView { buffer: put(self.buffer, o), ..self },
            WatchEvent::InitDone => StoreView { objects: self.buffer, buffer: Seq::empty() },
        }
    }

    /// The last seen state of the object of an identity.
    pub open spec fn get(self, key: (Option<Seq<char>>, Seq<char>)) -> Option<DynamicObjectView> {
        match position_in(self.objects, key) {
            Some(i) => Some(self.objects[i]),
            None => None,
        }
    }
}

/// The view of an event of generic objects.
pub open spec fn watch_event_view(event: WatchEvent<DynamicObject>) -> WatchEvent<DynamicObjectView> {
    match event {
        WatchEvent::Apply(o) => WatchEvent::Apply(o@),
        WatchEvent::Delete(o) => WatchEvent::Delete(o@),
        WatchEvent::Init => WatchEvent::Init,
        WatchEvent::InitApply(o) => WatchEvent::InitApply(o@),
        WatchEvent::InitDone => WatchEvent::InitDone,
    }
}

/// The local cache of a subscriber: the last seen state of each object, fed
/// from the events of the feed and from nothing else.
pub struct Store {
    objects: Vec<DynamicObject>,
    buffer: Vec<DynamicObject>,
}

impl View for Store {
    type V = StoreView;

    closed spec fn view(&self) -> StoreView {
        StoreView { objects: object_views(self.objects@), buffer: object_views(self.buffer@) }
    }
}

/// The position of the first object with the identity of `o`.
fn find(list: &Vec<DynamicObject>, o: &DynamicObject) -> (r: Option<usize>)
    ensures
        match r {
            Some(i) => position_in(object_views(list@), cache_key(o@)) == Some(i as int) && i
                < list@.len(),
            None => position_in(object_views(list@), cache_key(o@)) is None,
        },
{
    let name = o.metadata.name_any();
    let ghost views = object_views(list@);
    let mut i: usize = 0;
    while i < list.len()
        invariant
            i <= list@.len(),
            views == object_views(list@),
            name@ == o@.metadata.name_any(),
            forall|j: int| 0 <= j < i ==> cache_key(views[j]) != cache_key(o@),
        decreases list@.len() - i,
    {
        assert(views[i as int] == list@[i as int]@);
        if crate::text::same_opt_text(&list[i].metadata.namespace, &o.metadata.namespace)
            && list[i].metadata.name_any() == name {
            proof {
                assert(cache_key(views[i as int]) == cache_key(o@));
                assert(exists|j: int| 0 <= j < views.len() && cache_key(views[j]) == cache_key(o@));
                assert(is_first_position(views, cache_key(o@), i as int));
                let k = position_in(views, cache_key(o@))->0;
                if k < i {
                    assert(cache_key(views[k]) != cache_key(o@));
                } else if i < k {
                    assert(cache_key(views[i as int]) != cache_key(o@));
                }
            }
            return Some(i);
        }
        i += 1;
    }
    proof {
        assert forall|j: int| 0 <= j < views.len() implies cache_key(views[j]) != cache_key(o@) by {}
    }
    None
}

/// Computes [`put`].
fn put_in(list: &mut Vec<DynamicObject>, o: &DynamicObject)
    ensures
        object_views(final(list)@) == put(object_views(old(list)@), o@),
{
    let ghost before = object_views(list@);
    match find(list, o) {
        Some(i) => {
            list.set(i, o.duplicate());
            assert(object_views(list@) =~= before.update(i as int, o@));
        },
        None => {
            list.push(o.duplicate());
            assert(object_views(list@) =~= before.push(o@));
        },
    }
}

impl Store {
    /// The empty cache.
    pub fn new() -> (s: Self)
        ensures
            s@ == (StoreView { objects: Seq::empty(), buffer: Seq::empty() }),
    {
        let s = Store { objects: Vec::new(), buffer: Vec::new() };
        assert(s@.objects =~= Seq::empty() && s@.buffer =~= Seq::empty());
        s
    }

    /// Takes an event of the feed into the cache.
    pub fn apply_watcher_event(&mut self, event: &WatchEvent<DynamicObject>)
        ensures
            final(self)@ == old(self)@.after(watch_event_view(*event)),
    {
        match event {
            WatchEvent::Apply(o) => {
                put_in(&mut self.objects, o);
            },
            WatchEvent::Delete(o) => {
                let ghost before = object_views(self.objects@);
                match find(&self.objects, o) {
                    Some(i) => {
                        self.objects.remove(i);
                        assert(object_views(self.objects@) =~= before.remove(i as int));
                    },
                    None => {},
                }
            },
            WatchEvent::Init => {
                self.buffer = Vec::new();
                assert(object_views(self.buffer@) =~= Seq::empty());
            },
            WatchEvent::InitApply(o) => {
                put_in(&mut self.buffer, o);
            },
            WatchEvent::InitDone => {
                let mut fresh: Vec<DynamicObject> = Vec::new();
                core::mem::swap(&mut self.buffer, &mut fresh);
                self.objects = fresh;
                assert(object_views(self.buffer@) =~= Seq::empty());
            },
        }
    }

    /// The number of cached objects.
    pub fn len(&self) -> (n: usize)
        ensures
            n == self@.objects.len(),
    {
        self.objects.len()
    }

    /// The cached object at a position.
    pub fn object(&self, i: usize) -> (o: &DynamicObject)
        requires
            i < self@.objects.len(),
        ensures
            o@ == self@.objects[i as int],
    {
        &self.objects[i]
    }

    /// The last seen state of the object with the identity of `o`.
    pub fn get(&self, o: &DynamicObject) -> (r: Option<&DynamicObject>)
        ensures
            match r {
                Some(x) => self@.get(cache_key(o@)) == Some(x@),
                None => self@.get(cache_key(o@)) is None,
            },
    {
        match find(&self.objects, o) {
            Some(i) => Some(&self.objects[i]),
            None => None,
        }
    }
}

/// Whether `i` is the first position of the list with the identity.
pub open spec fn is_first_position(
    list: Seq<DynamicObjectView>,
    key: (Option<Seq<char>>, Seq<char>),
    i: int,
) -> bool {
    0 <= i < list.len() && cache_key(list[i]) == key && forall|j: int|
        0 <= j < i ==> cache_key(list[j]) != key
}

/// Among the positions with an identity there is a first one.
proof fn lemma_first_position_exists(
    list: Seq<DynamicObjectView>,
    key: (Option<Seq<char>>, Seq<char>),
    n: int,
)
    requires
        0 <= n < list.len(),
        cache_key(list[n]) == key,
    ensures
        exists|i: int| is_first_position(list, key, i),
    decreases n,
{
    if forall|j: int| 0 <= j < n ==> cache_key(list[j]) != key {
        assert(is_first_position(list, key, n));
    } else {
        let j = choose|j: int| 0 <= j < n && cache_key(list[j]) == key;
        lemma_first_position_exists(list, key, j);
    }
}

/// What [`position_in`] gives: the first position with the identity, or
/// nothing where no object of the list has it.
pub proof fn lemma_position_in(list: Seq<DynamicObjectView>, key: (Option<Seq<char>>, Seq<char>))
    ensures
        match position_in(list, key) {
            Some(i) => is_first_position(list, key, i),
            None => forall|j: int| 0 <= j < list.len() ==> cache_key(list[j]) != key,
        },
{
    if exists|i: int| 0 <= i < list.len() && cache_key(list[i]) == key {
        let n = choose|i: int| 0 <= i < list.len() && cache_key(list[i]) == key;
        lemma_first_position_exists(list, key, n);
        let w = choose|i: int| is_first_position(list, key, i);
        assert(is_first_position(list, key, w));
    }
}

/// A cache holds what it saw last: after an object was applied, the cache
/// gives that object for its identity, and what it holds for every other
/// identity is what it held before.
pub proof fn lemma_cache_holds_last_seen(
    s: StoreView,
    o: DynamicObjectView,
    other: (Option<Seq<char>>, Seq<char>),
)
    requires
        other != cache_key(o),
    ensures
        s.after(WatchEvent::Apply(o)).get(cache_key(o)) == Some(o),
        s.after(WatchEvent::Apply(o)).get(other) == s.get(other),
{
    let list = s.objects;
    let next = put(list, o);
    lemma_position_in(list, cache_key(o));
    lemma_position_in(next, cache_key(o));
    lemma_position_in(list, other);
    lemma_position_in(next, other);
    match position_in(list, cache_key(o)) {
        Some(i) => {
            assert(cache_key(next[i]) == cache_key(o));
            assert forall|j: int| 0 <= j < next.len() && j != i implies next[j] == list[j] by {}
            let k = position_in(next, cache_key(o))->0;
            if k < i {
                assert(cache_key(list[k]) != cache_key(o));
            }
            if position_in(list, other) is Some {
                let a = position_in(list, other)->0;
                assert(a != i);
                assert(cache_key(next[a]) == other);
                let b = position_in(next, other)->0;
                assert(b != i);
                if b < a {
                    assert(cache_key(list[b]) != other);
                }
            } else {
                if position_in(next, other) is Some {
                    let b = position_in(next, other)->0;
                    assert(b != i);
                    assert(cache_key(list[b]) == other);
                }
            }
        },
        None => {
            assert(cache_key(next[list.len() as int]) == cache_key(o));
            assert forall|j: int| 0 <= j < list.len() implies next[j] == list[j] by {}
            let k = position_in(next, cache_key(o))->0;
            if k < list.len() {
                assert(cache_key(list[k]) == cache_key(o));
            }
            if position_in(list, other) is Some {
                let a = position_in(list, other)->0;
                assert(cache_key(next[a]) == other);
                let b = position_in(next, other)->0;
                if b < a {
                    assert(cache_key(list[b]) != other);
                }
            } else {
                if position_in(next, other) is Some {
                    let b = position_in(next, other)->0;
                    if b < list.len() {
                        assert(cache_key(list[b]) == other);
                    }
                }
            }
        },
    }
}

/// Whether a subscriber for a kind takes an event: events of a relist
/// without an object go to everyone, an object only to the subscribers of
/// its kind.
pub open spec fn accepted(kind: TypeMetaView, event: WatchEvent<DynamicObjectView>) -> bool {
    match event {
        WatchEvent::Apply(o) => o.types == Some(kind),
        WatchEvent::Delete(o) => o.types == Some(kind),
        WatchEvent::InitApply(o) => o.types == Some(kind),
        WatchEvent::Init => true,
        WatchEvent::InitDone => true,
    }
}

/// Computes [`accepted`].
pub fn accepts(kind: &TypeMeta, event: &WatchEvent<DynamicObject>) -> (b: bool)
    ensures
        b == accepted(kind@, watch_event_view(*event)),
{
    match event {
        WatchEvent::Apply(o) | WatchEvent::Delete(o) | WatchEvent::InitApply(o) => match &o.types {
            Some(t) => t.same(kind),
            None => false,
        },
        _ => true,
    }
}

} // verus!
