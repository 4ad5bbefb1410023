//! Registry of interaction-event handlers keyed by integer handles.
//!
//! The native event system can carry a plain integer through its calling
//! convention, but not a closure. The registry therefore stores each
//! user-supplied handler under a freshly allocated nonzero handle, one
//! independent table per event category (left press, left release, mouse
//! move, key press). Dispatching resolves a handle back to the stored
//! handler; handle `0` is reserved to mean "no handler" and is never
//! allocated, and a handle that was never allocated resolves to nothing.
//!
//! The registry is deliberately an explicit object rather than an ambient
//! singleton, so that callers (and tests) control its lifetime; the layer
//! that faces the native toolkit owns one registry for the process and
//! invokes whatever handler a dispatch lookup returns.

use vstd::prelude::*;

use crate::handle_table::HandleTable;

verus! {

/// The four interaction-event categories the registry distinguishes.
#[derive(Clone, Copy, Debug)]
pub enum EventCategory {
    LeftPress,
    LeftRelease,
    MouseMove,
    KeyPress,
}

/// Handler registry: one handle table per event category, sharing a single
/// monotonically increasing handle counter, so a handle is never reused and
/// never names handlers in two categories.
pub struct CallbackRegistry<T> {
    next_id: i64,
    left_press_callbacks: HandleTable<T>,
    left_release_callbacks: HandleTable<T>,
    mouse_move_callbacks: HandleTable<T>,
    key_press_callbacks: HandleTable<T>,
}

/// Every handle of the map is nonzero and lies strictly below `bound`.
spec fn handles_below<T>(m: Map<i64, T>, bound: i64) -> bool {
    forall|h: i64| #[trigger] m.contains_key(h) ==> 1 <= h < bound
}

/// No handle is a key of both maps.
spec fn handles_disjoint<T>(a: Map<i64, T>, b: Map<i64, T>) -> bool {
    forall|h: i64| !(#[trigger] a.contains_key(h) && #[trigger] b.contains_key(h))
}

impl<T> CallbackRegistry<T> {
    /// The handle the next registration will return.
    pub closed spec fn next_handle(&self) -> i64 {
        self.next_id
    }

    /// The handlers stored for one event category, as a map from handle to
    /// handler.
    pub closed spec fn handlers(&self, category: EventCategory) -> Map<i64, T> {
        match category {
            EventCategory::LeftPress => self.left_press_callbacks@,
            EventCategory::LeftRelease => self.left_release_callbacks@,
            EventCategory::MouseMove => self.mouse_move_callbacks@,
            EventCategory::KeyPress => self.key_press_callbacks@,
        }
    }

    /// Registry invariant: the counter starts at one, every allocated
    /// handle is nonzero and lies strictly below the counter, and no
    /// handle is stored under two categories.
    pub closed spec fn wf(&self) -> bool {
        &&& 1 <= self.next_id
        &&& self.left_press_callbacks.wf()
        &&& self.left_release_callbacks.wf()
        &&& self.mouse_move_callbacks.wf()
        &&& self.key_press_callbacks.wf()
        &&& handles_below(self.left_press_callbacks@, self.next_id)
        &&& handles_below(self.left_release_callbacks@, self.next_id)
        &&& handles_below(self.mouse_move_callbacks@, self.next_id)
        &&& handles_below(self.key_press_callbacks@, self.next_id)
        &&& handles_disjoint(self.left_press_callbacks@, self.left_release_callbacks@)
        &&& handles_disjoint(self.left_press_callbacks@, self.mouse_move_callbacks@)
        &&& handles_disjoint(self.left_press_callbacks@, self.key_press_callbacks@)
        &&& handles_disjoint(self.left_release_callbacks@, self.mouse_move_callbacks@)
        &&& handles_disjoint(self.left_release_callbacks@, self.key_press_callbacks@)
        &&& handles_disjoint(self.mouse_move_callbacks@, self.key_press_callbacks@)
    }

    /// The handle the next registration will return; callers can test it
    /// against the 64-bit limit before registering.
    pub fn next_handle_value(&self) -> (id: i64)
        ensures
            id == self.next_handle(),
    {
        self.next_id
    }

    /// An empty registry; the first registration will return handle `1`.
    pub fn new() -> (registry: Self)
        ensures
            registry.wf(),
            registry.next_handle() == 1,
            registry.handlers(EventCategory::LeftPress) == Map::<i64, T>::empty(),
            registry.handlers(EventCategory::LeftRelease) == Map::<i64, T>::empty(),
            registry.handlers(EventCategory::MouseMove) == Map::<i64, T>::empty(),
            registry.handlers(EventCategory::KeyPress) == Map::<i64, T>::empty(),
    {
        CallbackRegistry {
            next_id: 1,
            left_press_callbacks: HandleTable::new(),
            left_release_callbacks: HandleTable::new(),
            mouse_move_callbacks: HandleTable::new(),
            key_press_callbacks: HandleTable::new(),
        }
    }

    /// Stores `callback` for `category` under a fresh handle and returns
    /// the handle. Registration never fails; the one machine limit is that
    /// the 64-bit handle counter must not be exhausted.
    pub fn register(&mut self, category: EventCategory, callback: T) -> (id: i64)
        requires
            old(self).wf(),
            old(self).next_handle() < i64::MAX,
        ensures
            final(self).wf(),
            register_step(*old(self), *final(self), category, callback, id),
            id != 0,
    {
        let id = self.next_id;
        self.next_id = self.next_id + 1;
        match category {
            EventCategory::LeftPress => self.left_press_callbacks.insert(id, callback),
            EventCategory::LeftRelease => self.left_release_callbacks.insert(id, callback),
            EventCategory::MouseMove => self.mouse_move_callbacks.insert(id, callback),
            EventCategory::KeyPress => self.key_press_callbacks.insert(id, callback),
        }
        id
    }

    /// Stores a left-press handler under a fresh handle; see `register`.
    pub fn register_left_press(&mut self, callback: T) -> (id: i64)
        requires
            old(self).wf(),
            old(self).next_handle() < i64::MAX,
        ensures
            final(self).wf(),
            register_step(*old(self), *final(self), EventCategory::LeftPress, callback, id),
            id != 0,
    {
        self.register(EventCategory::LeftPress, callback)
    }

    /// Stores a left-release handler under a fresh handle; see `register`.
    pub fn register_left_release(&mut self, callback: T) -> (id: i64)
        requires
            old(self).wf(),
            old(self).next_handle() < i64::MAX,
        ensures
            final(self).wf(),
            register_step(*old(self), *final(self), EventCategory::LeftRelease, callback, id),
            id != 0,
    {
        self.register(EventCategory::LeftRelease, callback)
    }

    /// Stores a mouse-move handler under a fresh handle; see `register`.
    pub fn register_mouse_move(&mut self, callback: T) -> (id: i64)
        requires
            old(self).wf(),
            old(self).next_handle() < i64::MAX,
        ensures
            final(self).wf(),
            register_step(*old(self), *final(self), EventCategory::MouseMove, callback, id),
            id != 0,
    {
        self.register(EventCategory::MouseMove, callback)
    }

    /// Stores a key-press handler under a fresh handle; see `register`.
    pub fn register_key_press(&mut self, callback: T) -> (id: i64)
        requires
            old(self).wf(),
            old(self).next_handle() < i64::MAX,
        ensures
            final(self).wf(),
            register_step(*old(self), *final(self), EventCategory::KeyPress, callback, id),
            id != 0,
    {
        self.register(EventCategory::KeyPress, callback)
    }

    /// Resolves a dispatch request: the stored handler exactly when
    /// `callback_id` is nonzero and registered for `category`, nothing
    /// otherwise. A zero handle and an unregistered handle both resolve
    /// to `None`, never to a failure.
    pub fn dispatch(&self, category: EventCategory, callback_id: i64) -> (handler: Option<&T>)
        requires
            self.wf(),
        ensures
            (match handler {
                Some(h) => callback_id != 0 && self.handlers(category).contains_key(callback_id)
                    && *h == self.handlers(category)[callback_id],
                None => callback_id == 0 || !self.handlers(category).contains_key(callback_id),
            }),
    {
        if callback_id == 0 {
            return None;
        }
        match category {
            EventCategory::LeftPress => self.left_press_callbacks.get(callback_id),
            EventCategory::LeftRelease => self.left_release_callbacks.get(callback_id),
            EventCategory::MouseMove => self.mouse_move_callbacks.get(callback_id),
            EventCategory::KeyPress => self.key_press_callbacks.get(callback_id),
        }
    }
}

/// How one registration changes the registry: the returned handle is the
/// old counter value, the counter advances by one, the handler is added to
/// the requested category's table, and the other categories are untouched.
pub open spec fn register_step<T>(
    pre: CallbackRegistry<T>,
    post: CallbackRegistry<T>,
    category: EventCategory,
    callback: T,
    id: i64,
) -> bool {
    &&& id == pre.next_handle()
    &&& post.next_handle() == id + 1
    &&& post.handlers(category) == pre.handlers(category).insert(id, callback)
    &&& (category !is LeftPress ==> post.handlers(EventCategory::LeftPress) == pre.handlers(
        EventCategory::LeftPress,
    ))
    &&& (category !is LeftRelease ==> post.handlers(EventCategory::LeftRelease) == pre.handlers(
        EventCategory::LeftRelease,
    ))
    &&& (category !is MouseMove ==> post.handlers(EventCategory::MouseMove) == pre.handlers(
        EventCategory::MouseMove,
    ))
    &&& (category !is KeyPress ==> post.handlers(EventCategory::KeyPress) == pre.handlers(
        EventCategory::KeyPress,
    ))
}

proof fn lemma_wf_handlers_below<T>(registry: &CallbackRegistry<T>, category: EventCategory, h: i64)
    requires
        registry.wf(),
        registry.handlers(category).contains_key(h),
    ensures
        1 <= h < registry.next_handle(),
{
    match category {
        EventCategory::LeftPress => {},
        EventCategory::LeftRelease => {},
        EventCategory::MouseMove => {},
        EventCategory::KeyPress => {},
    }
}

/// A handle registered under one category is absent from every other
/// category: the shared counter hands each handle to exactly one table.
pub proof fn lemma_wf_categories_disjoint<T>(
    registry: &CallbackRegistry<T>,
    c1: EventCategory,
    c2: EventCategory,
    h: i64,
)
    requires
        registry.wf(),
        c1 != c2,
        registry.handlers(c1).contains_key(h),
    ensures
        !registry.handlers(c2).contains_key(h),
{
    match c1 {
        EventCategory::LeftPress => match c2 {
            EventCategory::LeftPress => {},
            EventCategory::LeftRelease => {},
            EventCategory::MouseMove => {},
            EventCategory::KeyPress => {},
        },
        EventCategory::LeftRelease => match c2 {
            EventCategory::LeftPress => {},
            EventCategory::LeftRelease => {},
            EventCategory::MouseMove => {},
            EventCategory::KeyPress => {},
        },
        EventCategory::MouseMove => match c2 {
            EventCategory::LeftPress => {},
            EventCategory::LeftRelease => {},
            EventCategory::MouseMove => {},
            EventCategory::KeyPress => {},
        },
        EventCategory::KeyPress => match c2 {
            EventCategory::LeftPress => {},
            EventCategory::LeftRelease => {},
            EventCategory::MouseMove => {},
            EventCategory::KeyPress => {},
        },
    }
}

/// A registered handler is found again: the handle a registration returns
/// is nonzero, and under its category the registry stores exactly the
/// handler that was passed in, so a dispatch of that handle resolves to
/// that handler and to nothing else.
pub proof fn lemma_registered_handler_found<T>(
    pre: CallbackRegistry<T>,
    post: CallbackRegistry<T>,
    category: EventCategory,
    callback: T,
    id: i64,
)
    requires
        pre.wf(),
        register_step(pre, post, category, callback, id),
    ensures
        id != 0,
        post.handlers(category).contains_key(id),
        post.handlers(category)[id] == callback,
{
}

/// A run of registrations, in any mix of categories: `states` are the
/// registry values seen before and after each registration, and
/// `handles[i]` is what the `i`-th registration returned.
pub open spec fn allocation_chain<T>(
    states: Seq<CallbackRegistry<T>>,
    categories: Seq<EventCategory>,
    callbacks: Seq<T>,
    handles: Seq<i64>,
) -> bool {
    &&& states.len() == handles.len() + 1
    &&& categories.len() == handles.len()
    &&& callbacks.len() == handles.len()
    &&& forall|i: int|
        0 <= i < handles.len() ==> #[trigger] register_step(
            states[i],
            states[i + 1],
            categories[i],
            callbacks[i],
            handles[i],
        )
}

proof fn lemma_chain_counter<T>(
    states: Seq<CallbackRegistry<T>>,
    categories: Seq<EventCategory>,
    callbacks: Seq<T>,
    handles: Seq<i64>,
    i: int,
)
    requires
        allocation_chain(states, categories, callbacks, handles),
        0 <= i <= handles.len(),
    ensures
        states[i].next_handle() == states[0].next_handle() + i,
    decreases i,
{
    if i > 0 {
        lemma_chain_counter(states, categories, callbacks, handles, i - 1);
        assert(register_step(
            states[i - 1],
            states[i - 1 + 1],
            categories[i - 1],
            callbacks[i - 1],
            handles[i - 1],
        ));
    }
}

/// Registering N handlers sequentially yields N distinct handles, strictly
/// increasing in the order of registration, none of them zero.
pub proof fn lemma_sequential_registrations<T>(
    states: Seq<CallbackRegistry<T>>,
    categories: Seq<EventCategory>,
    callbacks: Seq<T>,
    handles: Seq<i64>,
)
    requires
        allocation_chain(states, categories, callbacks, handles),
        states[0].wf(),
    ensures
        forall|i: int, j: int| 0 <= i < j < handles.len() ==> handles[i] < handles[j],
        forall|i: int| 0 <= i < handles.len() ==> handles[i] != 0,
{
    assert forall|i: int|
        0 <= i < handles.len() implies #[trigger] handles[i] == states[0].next_handle() + i by {
        lemma_chain_counter(states, categories, callbacks, handles, i);
        assert(register_step(states[i], states[i + 1], categories[i], callbacks[i], handles[i]));
    };
}

/// Handlers registered for two different categories on one registry stay
/// isolated: each handle resolves to its own handler under its own
/// category and resolves to nothing under the other category, and the two
/// handles differ.
pub proof fn lemma_categories_isolated<T>(
    pre: CallbackRegistry<T>,
    mid: CallbackRegistry<T>,
    post: CallbackRegistry<T>,
    c1: EventCategory,
    c2: EventCategory,
    cb1: T,
    cb2: T,
    h1: i64,
    h2: i64,
)
    requires
        pre.wf(),
        mid.wf(),
        c1 != c2,
        register_step(pre, mid, c1, cb1, h1),
        register_step(mid, post, c2, cb2, h2),
    ensures
        h1 != h2,
        post.handlers(c1).contains_key(h1),
        post.handlers(c1)[h1] == cb1,
        post.handlers(c2).contains_key(h2),
        post.handlers(c2)[h2] == cb2,
        !post.handlers(c2).contains_key(h1),
        !post.handlers(c1).contains_key(h2),
{
    // The second registration leaves category `c1` untouched.
    match c1 {
        EventCategory::LeftPress => {},
        EventCategory::LeftRelease => {},
        EventCategory::MouseMove => {},
        EventCategory::KeyPress => {},
    }
    assert(post.handlers(c1) == mid.handlers(c1));
    // The first registration leaves category `c2` untouched.
    match c2 {
        EventCategory::LeftPress => {},
        EventCategory::LeftRelease => {},
        EventCategory::MouseMove => {},
        EventCategory::KeyPress => {},
    }
    assert(mid.handlers(c2) == pre.handlers(c2));
    // `h1` was fresh when allocated, so it is no key of `c2`'s old table;
    // `h2` came later, so it is no key of `c1`'s table either.
    if pre.handlers(c2).contains_key(h1) {
        lemma_wf_handlers_below(&pre, c2, h1);
    }
    if pre.handlers(c1).contains_key(h2) {
        lemma_wf_handlers_below(&pre, c1, h2);
    }
}

} // verus!
