use std::collections::HashMap;
use vstd::prelude::*;

verus! {

broadcast use vstd::std_specs::hash::group_hash_axioms;

/// What a timer and its listener share: whether the timer has fired, and
/// the wake capability of whoever waits for it.
#[derive(Debug, PartialEq, Eq)]
pub struct State<W> {
    pub completed: bool,
    pub waker: Option<W>,
}

/// The listeners of pending timers, each under its id.
pub struct Listeners<W> {
    entries: HashMap<u32, State<W>>,
}

impl<W> View for Listeners<W> {
    type V = Map<u32, State<W>>;

    closed spec fn view(&self) -> Map<u32, State<W>> {
        self.entries@
    }
}

/// `key` is what a scan from zero for an unused id finds in `listeners`: the
/// lowest id below `u32::MAX` that is not in use, or 0 if all of them are.
pub open spec fn free_key<W>(listeners: Map<u32, State<W>>, key: u32) -> bool {
    &&& forall|id: u32| id < key ==> #[trigger] listeners.contains_key(id)
    &&& listeners.contains_key(key) ==> {
        &&& key == 0
        &&& forall|id: u32| id < u32::MAX ==> #[trigger] listeners.contains_key(id)
    }
}

/// The listeners after the one under `listener_id` has fired: it is
/// completed and has given its wake capability away.
pub open spec fn fired<W>(listeners: Map<u32, State<W>>, listener_id: u32) -> Map<u32, State<W>> {
    listeners.insert(listener_id, State { completed: true, waker: None })
}

impl<W> Listeners<W> {
    /// No listeners.
    pub fn new() -> (listeners: Listeners<W>)
        ensures
            listeners@ == Map::<u32, State<W>>::empty(),
    {
        Listeners { entries: HashMap::new() }
    }

    /// Whether a listener is registered under `listener_id`.
    pub fn contains(&self, listener_id: u32) -> (found: bool)
        ensures
            found == self@.contains_key(listener_id),
    {
        self.entries.contains_key(&listener_id)
    }
}

/// The lowest id that no listener uses, found by a scan from zero.
pub fn get_free_listener_key<W>(listeners: &Listeners<W>) -> (key: u32)
    ensures
        free_key(listeners@, key),
{
    let mut i: u32 = 0;
    while i < u32::MAX
        invariant
            forall|id: u32| id < i ==> #[trigger] listeners@.contains_key(id),
        decreases u32::MAX - i,
    {
        if !listeners.entries.contains_key(&i) {
            return i;
        }
        i += 1;
    }
    0
}

/// Registers `callback` under `listener_id`, whatever was there before, and
/// hands back what was there before.
pub fn insert_listener<W>(listeners: &mut Listeners<W>, listener_id: u32, callback: State<W>) -> (displaced:
    Option<State<W>>)
    ensures
        final(listeners)@ == old(listeners)@.insert(listener_id, callback),
        displaced == if old(listeners)@.contains_key(listener_id) {
            Some(old(listeners)@[listener_id])
        } else {
            None
        },
{
    listeners.entries.insert(listener_id, callback)
}

/// Fires the listener under `listener_id`: marks it completed and hands out
/// the wake capability that it had captured, to be invoked by the caller.
pub fn trigger_timeout<W>(listeners: &mut Listeners<W>, listener_id: u32) -> (wake: Option<W>)
    requires
        old(listeners)@.contains_key(listener_id),
    ensures
        final(listeners)@ == fired(old(listeners)@, listener_id),
        wake == old(listeners)@[listener_id].waker,
{
    let state = listeners.entries.remove(&listener_id);
    listeners.entries.insert(listener_id, State { completed: true, waker: None });
    assert(listeners@ =~= fired(old(listeners)@, listener_id));
    match state {
        Some(state) => state.waker,
        None => None,
    }
}

/// Whether a computation that waits can go on.
#[derive(Debug, Clone, Copy, PartialEq, Eq)]
pub enum Poll {
    Ready,
    Pending,
}

/// The delayed callback that a new timer asks of the host.
#[derive(Debug, Clone, Copy, PartialEq, Eq)]
pub struct TimeoutRequest {
    pub listener_id: u32,
    pub millis: u32,
}

/// A suspension point that resumes when the host signals its listener.
pub struct TimerFuture {
    listener_id: u32,
}

impl View for TimerFuture {
    type V = u32;

    closed spec fn view(&self) -> u32 {
        self.listener_id
    }
}

impl TimerFuture {
    /// A timer of `millis` milliseconds: registers a listener that has not
    /// fired under an unused id, and says what to ask of the host. The host
    /// takes the duration as 32 bits; higher bits are cut off.
    pub fn new<W>(listeners: &mut Listeners<W>, millis: u128) -> (made: (TimerFuture, TimeoutRequest))
        ensures
            free_key(old(listeners)@, made.0@),
            final(listeners)@ == old(listeners)@.insert(
                made.0@,
                State { completed: false, waker: None },
            ),
            made.1.listener_id == made.0@,
            made.1.millis == millis % 0x1_0000_0000,
    {
        let listener_id = get_free_listener_key(listeners);
        let timer = TimerFuture { listener_id };
        let _ = insert_listener(listeners, listener_id, State { completed: false, waker: None });
        let millis: u32 = (millis % 0x1_0000_0000) as u32;
        (timer, TimeoutRequest { listener_id, millis })
    }

    /// The id of the timer's listener.
    pub fn listener_id(&self) -> (listener_id: u32)
        ensures
            listener_id == self@,
    {
        self.listener_id
    }

    /// Polls the timer with `waker`, a capability of the computation that
    /// waits. A timer that has fired is ready and takes nothing. One that
    /// has not keeps `waker` for its listener to invoke, in place of the one
    /// it had. The second result is the capability that is no longer needed:
    /// `waker` itself or the one it replaced. A timer without a listener
    /// never fires: it is pending and keeps nothing.
    pub fn poll<W>(&self, listeners: &mut Listeners<W>, waker: W) -> (polled: (Poll, Option<W>))
        ensures
            polled == poll_result(old(listeners)@, self@, waker),
            final(listeners)@ == poll_listeners(old(listeners)@, self@, waker),
    {
        match listeners.entries.remove(&self.listener_id) {
            None => {
                assert(listeners@ =~= old(listeners)@);
                (Poll::Pending, Some(waker))
            },
            Some(state) => {
                if state.completed {
                    listeners.entries.insert(self.listener_id, state);
                    assert(listeners@ =~= old(listeners)@);
                    (Poll::Ready, Some(waker))
                } else {
                    listeners.entries.insert(
                        self.listener_id,
                        State { completed: false, waker: Some(waker) },
                    );
                    assert(listeners@ =~= poll_listeners(old(listeners)@, self@, waker));
                    (Poll::Pending, state.waker)
                }
            },
        }
    }
}

/// What a poll of the timer with listener `listener_id` answers.
pub open spec fn poll_result<W>(listeners: Map<u32, State<W>>, listener_id: u32, waker: W) -> (
    Poll,
    Option<W>,
) {
    if !listeners.contains_key(listener_id) {
        (Poll::Pending, Some(waker))
    } else if listeners[listener_id].completed {
        (Poll::Ready, Some(waker))
    } else {
        (Poll::Pending, listeners[listener_id].waker)
    }
}

/// The listeners after a poll of the timer with listener `listener_id`.
pub open spec fn poll_listeners<W>(listeners: Map<u32, State<W>>, listener_id: u32, waker: W) -> Map<
    u32,
    State<W>,
> {
    if listeners.contains_key(listener_id) && !listeners[listener_id].completed {
        listeners.insert(listener_id, State { completed: false, waker: Some(waker) })
    } else {
        listeners
    }
}

/// A scan for an unused id never ends on an id that is in use, as long as
/// one below `u32::MAX` is left; and it ends on the lowest of them.
pub proof fn lemma_free_key_is_unused<W>(listeners: Map<u32, State<W>>, key: u32, unused: u32)
    requires
        free_key(listeners, key),
        unused < u32::MAX,
        !listeners.contains_key(unused),
    ensures
        !listeners.contains_key(key),
        key <= unused,
{
}

/// A listener that is registered and then triggered runs once: the trigger
/// hands out the capability that it was registered with and completes it,
/// and a second trigger finds no capability to hand out and nothing to
/// change.
pub proof fn lemma_registered_listener_fires_once<W>(
    listeners: Map<u32, State<W>>,
    listener_id: u32,
    callback: State<W>,
)
    ensures
        listeners.insert(listener_id, callback)[listener_id].waker == callback.waker,
        fired(listeners.insert(listener_id, callback), listener_id)[listener_id].completed,
        fired(listeners.insert(listener_id, callback), listener_id)[listener_id].waker is None,
        fired(fired(listeners.insert(listener_id, callback), listener_id), listener_id) == fired(
            listeners.insert(listener_id, callback),
            listener_id,
        ),
        forall|other: u32|
            other != listener_id ==> (fired(
                listeners.insert(listener_id, callback),
                listener_id,
            ).contains_key(other) <==> listeners.contains_key(other)),
{
    assert(fired(fired(listeners.insert(listener_id, callback), listener_id), listener_id) =~= fired(
        listeners.insert(listener_id, callback),
        listener_id,
    ));
}

} // verus!
