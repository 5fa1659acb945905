//! Breakpoint events and the store that keeps them in arrival order.

use std::collections::VecDeque;
use vstd::prelude::*;

verus! {

/// One frame of a call stack.
#[derive(Debug, PartialEq, Eq, Hash)]
pub struct Callstack {
    pub filepath: String,
    pub line: String,
}

/// What a `Callstack` frame holds.
pub ghost struct CallstackView {
    pub filepath: Seq<char>,
    pub line: Seq<char>,
}

impl View for Callstack {
    type V = CallstackView;

    open spec fn view(&self) -> CallstackView {
        CallstackView { filepath: self.filepath@, line: self.line@ }
    }
}

impl Clone for Callstack {
    fn clone(&self) -> (copy: Self)
        ensures
            copy@ == self@,
    {
        Callstack { filepath: self.filepath.clone(), line: self.line.clone() }
    }
}

/// The frames of a call stack, each taken by its view.
pub open spec fn frames_view(frames: Seq<Callstack>) -> Seq<CallstackView> {
    frames.map_values(|frame: Callstack| frame@)
}

/// Copies a call stack frame by frame.
pub fn clone_frames(frames: &Vec<Callstack>) -> (copy: Vec<Callstack>)
    ensures
        frames_view(copy@) == frames_view(frames@),
{
    let mut copy: Vec<Callstack> = Vec::new();
    let mut i: usize = 0;
    while i < frames.len()
        invariant
            i <= frames.len(),
            copy.len() == i,
            forall|k: int| 0 <= k < i ==> copy@[k]@ == frames@[k]@,
        decreases frames.len() - i,
    {
        copy.push(frames[i].clone());
        i += 1;
    }
    assert(frames_view(copy@) =~= frames_view(frames@));
    copy
}

/// A reported pause of the debuggee: where it stopped, what it held, when,
/// and how it got there. The line is kept as the text that was received.
#[derive(Debug, PartialEq, Eq, Hash)]
pub struct Breakpoint {
    pub filepath: String,
    pub line: String,
    pub connector_type: String,
    pub payload: String,
    pub timestamp: String,
    pub callstack: Vec<Callstack>,
}

/// What a `Breakpoint` holds.
pub ghost struct BreakpointView {
    pub filepath: Seq<char>,
    pub line: Seq<char>,
    pub connector_type: Seq<char>,
    pub payload: Seq<char>,
    pub timestamp: Seq<char>,
    pub callstack: Seq<CallstackView>,
}

impl View for Breakpoint {
    type V = BreakpointView;

    open spec fn view(&self) -> BreakpointView {
        BreakpointView {
            filepath: self.filepath@,
            line: self.line@,
            connector_type: self.connector_type@,
            payload: self.payload@,
            timestamp: self.timestamp@,
            callstack: frames_view(self.callstack@),
        }
    }
}

impl Clone for Breakpoint {
    fn clone(&self) -> (copy: Self)
        ensures
            copy@ == self@,
    {
        Breakpoint {
            filepath: self.filepath.clone(),
            line: self.line.clone(),
            connector_type: self.connector_type.clone(),
            payload: self.payload.clone(),
            timestamp: self.timestamp.clone(),
            callstack: clone_frames(&self.callstack),
        }
    }
}

/// A list of breakpoints, each taken by its view.
pub open spec fn breakpoints_view(breakpoints: Seq<Breakpoint>) -> Seq<BreakpointView> {
    breakpoints.map_values(|breakpoint: Breakpoint| breakpoint@)
}

/// Copies a list of breakpoints one by one.
pub fn clone_breakpoints(breakpoints: &Vec<Breakpoint>) -> (copy: Vec<Breakpoint>)
    ensures
        breakpoints_view(copy@) == breakpoints_view(breakpoints@),
{
    let mut copy: Vec<Breakpoint> = Vec::new();
    let mut i: usize = 0;
    while i < breakpoints.len()
        invariant
            i <= breakpoints.len(),
            copy.len() == i,
            forall|k: int| 0 <= k < i ==> copy@[k]@ == breakpoints@[k]@,
        decreases breakpoints.len() - i,
    {
        copy.push(breakpoints[i].clone());
        i += 1;
    }
    assert(breakpoints_view(copy@) =~= breakpoints_view(breakpoints@));
    copy
}

/// How many events may wait between the receiving side and the store. When
/// more arrive, the oldest waiting ones are dropped.
pub const CHANNEL_CAPACITY: usize = 100;

/// The received breakpoints in the order of their arrival. Nothing is ever
/// taken out, reordered or merged; the store grows without bound.
#[derive(Debug)]
pub struct EventStore {
    items: Vec<Breakpoint>,
}

impl View for EventStore {
    type V = Seq<BreakpointView>;

    closed spec fn view(&self) -> Seq<BreakpointView> {
        breakpoints_view(self.items@)
    }
}

impl EventStore {
    /// An empty store.
    pub fn new() -> (store: EventStore)
        ensures
            store@ == Seq::<BreakpointView>::empty(),
    {
        let store = EventStore { items: Vec::new() };
        assert(store@ =~= Seq::empty());
        store
    }

    /// Adds a breakpoint behind all the others.
    pub fn append(&mut self, breakpoint: Breakpoint)
        ensures
            final(self)@ == old(self)@.push(breakpoint@),
    {
        self.items.push(breakpoint);
        assert(self@ =~= old(self)@.push(breakpoint@));
    }

    /// How many breakpoints the store holds.
    pub fn len(&self) -> (len: usize)
        ensures
            len == self@.len(),
    {
        self.items.len()
    }

    /// A copy of all the breakpoints, in the order of their arrival.
    pub fn snapshot(&self) -> (copy: Vec<Breakpoint>)
        ensures
            breakpoints_view(copy@) == self@,
    {
        clone_breakpoints(&self.items)
    }
}

/// What became of an event that was handed to the channel.
#[derive(Debug)]
pub enum Sent {
    /// It waits behind the others.
    Queued,
    /// It waits behind the others, and the oldest waiting event, held here,
    /// was dropped to make room for it.
    DroppedOldest(Breakpoint),
    /// The channel is closed; the event is handed back.
    Refused(Breakpoint),
}

/// What one look into the channel gave.
#[derive(Debug)]
pub enum Delivery {
    /// The oldest waiting event.
    Received(Breakpoint),
    /// Nothing waits, and more may come.
    Empty,
    /// Nothing waits, and nothing will come.
    Closed,
}

/// What a `Delivery` holds.
pub ghost enum DeliveryView {
    Received(BreakpointView),
    Empty,
    Closed,
}

impl View for Delivery {
    type V = DeliveryView;

    open spec fn view(&self) -> DeliveryView {
        match self {
            Delivery::Received(breakpoint) => DeliveryView::Received(breakpoint@),
            Delivery::Empty => DeliveryView::Empty,
            Delivery::Closed => DeliveryView::Closed,
        }
    }
}

/// What the consumer does after a delivery.
#[derive(Debug, Clone, Copy, PartialEq, Eq, Structural)]
pub enum ConsumerAction {
    /// Look into the channel again.
    Continue,
    /// Wait until an event is sent.
    Wait,
    /// End the consumer.
    Stop,
}

/// The events that wait in the channel after one more was sent: the new one
/// goes behind the others, and the oldest leaves where the channel was full.
pub open spec fn queued(pending: Seq<BreakpointView>, breakpoint: BreakpointView) -> Seq<
    BreakpointView,
> {
    if pending.len() < CHANNEL_CAPACITY {
        pending.push(breakpoint)
    } else {
        pending.drop_first().push(breakpoint)
    }
}

/// The events that wait between the receiving side and the store, oldest
/// first. Never more than `CHANNEL_CAPACITY` wait.
#[derive(Debug)]
pub struct IngestionQueue {
    pending: VecDeque<Breakpoint>,
    closed: bool,
}

/// What an `IngestionQueue` holds.
pub ghost struct IngestionQueueView {
    pub pending: Seq<BreakpointView>,
    pub closed: bool,
}

impl View for IngestionQueue {
    type V = IngestionQueueView;

    closed spec fn view(&self) -> IngestionQueueView {
        IngestionQueueView { pending: breakpoints_view(self.pending@), closed: self.closed }
    }
}

impl IngestionQueue {
    #[verifier::type_invariant]
    spec fn inv(self) -> bool {
        self.pending@.len() <= CHANNEL_CAPACITY
    }

    /// An open channel in which nothing waits.
    pub fn new() -> (queue: IngestionQueue)
        ensures
            queue@ == (IngestionQueueView { pending: Seq::empty(), closed: false }),
    {
        let queue = IngestionQueue { pending: VecDeque::new(), closed: false };
        assert(queue@.pending =~= Seq::empty());
        queue
    }

    /// How many events wait.
    pub fn len(&self) -> (len: usize)
        ensures
            len == self@.pending.len(),
            len <= CHANNEL_CAPACITY,
    {
        proof {
            use_type_invariant(self);
        }
        self.pending.len()
    }

    /// Whether the channel was closed.
    pub fn is_closed(&self) -> (closed: bool)
        ensures
            closed == self@.closed,
    {
        self.closed
    }

    /// Closes the channel. What waits can still be received.
    pub fn close(&mut self)
        ensures
            final(self)@ == (IngestionQueueView { closed: true, ..old(self)@ }),
    {
        proof {
            use_type_invariant(&*self);
        }
        self.closed = true;
    }

    /// Hands an event to the channel. An open channel always takes it; a
    /// full one drops its oldest event for it. A closed channel refuses it.
    pub fn send(&mut self, breakpoint: Breakpoint) -> (sent: Sent)
        ensures
            old(self)@.closed ==> final(self)@ == old(self)@,
            !old(self)@.closed ==> final(self)@ == (IngestionQueueView {
                pending: queued(old(self)@.pending, breakpoint@),
                ..old(self)@
            }),
            final(self)@.pending.len() <= CHANNEL_CAPACITY,
            match sent {
                Sent::Queued => !old(self)@.closed && old(self)@.pending.len() < CHANNEL_CAPACITY,
                Sent::DroppedOldest(oldest) => {
                    &&& !old(self)@.closed
                    &&& old(self)@.pending.len() == CHANNEL_CAPACITY
                    &&& oldest@ == old(self)@.pending[0]
                },
                Sent::Refused(back) => old(self)@.closed && back@ == breakpoint@,
            },
    {
        proof {
            use_type_invariant(&*self);
        }
        if self.closed {
            return Sent::Refused(breakpoint);
        }
        let mut pending = self.take_pending();
        let oldest = if pending.len() < CHANNEL_CAPACITY {
            None
        } else {
            pending.pop_front()
        };
        pending.push_back(breakpoint);
        assert(breakpoints_view(pending@) =~= queued(old(self)@.pending, breakpoint@));
        *self = IngestionQueue { pending, closed: false };
        match oldest {
            Some(oldest) => Sent::DroppedOldest(oldest),
            None => Sent::Queued,
        }
    }

    /// Takes the waiting events out, leaving none behind. The queue is
    /// changed as a whole, so that it keeps to its capacity at every moment.
    fn take_pending(&mut self) -> (pending: VecDeque<Breakpoint>)
        ensures
            breakpoints_view(pending@) == old(self)@.pending,
            pending@.len() <= CHANNEL_CAPACITY,
            final(self)@ == (IngestionQueueView { pending: Seq::empty(), ..old(self)@ }),
    {
        proof {
            use_type_invariant(&*self);
        }
        let mut taken = IngestionQueue { pending: VecDeque::new(), closed: self.closed };
        assert(taken@.pending =~= Seq::empty());
        std::mem::swap(self, &mut taken);
        taken.pending
    }

    /// Takes the oldest waiting event out of the channel, if one waits.
    pub fn receive(&mut self) -> (delivery: Delivery)
        ensures
            final(self)@.closed == old(self)@.closed,
            match delivery {
                Delivery::Received(breakpoint) => {
                    &&& old(self)@.pending.len() > 0
                    &&& breakpoint@ == old(self)@.pending[0]
                    &&& final(self)@.pending == old(self)@.pending.drop_first()
                },
                Delivery::Empty => {
                    &&& old(self)@.pending.len() == 0
                    &&& !old(self)@.closed
                    &&& final(self)@ == old(self)@
                },
                Delivery::Closed => {
                    &&& old(self)@.pending.len() == 0
                    &&& old(self)@.closed
                    &&& final(self)@ == old(self)@
                },
            },
    {
        proof {
            use_type_invariant(&*self);
        }
        let closed = self.closed;
        let mut pending = self.take_pending();
        let first = pending.pop_front();
        assert(first is Some ==> breakpoints_view(pending@) =~= old(self)@.pending.drop_first());
        assert(first is None ==> breakpoints_view(pending@) =~= old(self)@.pending);
        *self = IngestionQueue { pending, closed };
        match first {
            Some(breakpoint) => Delivery::Received(breakpoint),
            None => {
                if closed {
                    Delivery::Closed
                } else {
                    Delivery::Empty
                }
            },
        }
    }
}

/// The store after a delivery: a received event is appended, anything else
/// leaves the store as it is.
pub open spec fn stored_after(store: Seq<BreakpointView>, delivery: DeliveryView) -> Seq<
    BreakpointView,
> {
    match delivery {
        DeliveryView::Received(breakpoint) => store.push(breakpoint),
        _ => store,
    }
}

/// What the consumer does after a delivery.
pub open spec fn action_after(delivery: DeliveryView) -> ConsumerAction {
    match delivery {
        DeliveryView::Received(_) => ConsumerAction::Continue,
        DeliveryView::Empty => ConsumerAction::Wait,
        DeliveryView::Closed => ConsumerAction::Stop,
    }
}

/// The consumer's step: appends a received event and goes on, waits when
/// nothing waits in the channel, stops when the channel is closed.
pub fn consume(store: &mut EventStore, delivery: Delivery) -> (action: ConsumerAction)
    ensures
        final(store)@ == stored_after(old(store)@, delivery@),
        action == action_after(delivery@),
{
    match delivery {
        Delivery::Received(breakpoint) => {
            store.append(breakpoint);
            ConsumerAction::Continue
        },
        Delivery::Empty => ConsumerAction::Wait,
        Delivery::Closed => ConsumerAction::Stop,
    }
}

/// Moves everything that waits in the channel into the store, oldest first.
/// The result tells whether more may come.
pub fn drain(queue: &mut IngestionQueue, store: &mut EventStore) -> (action: ConsumerAction)
    ensures
        final(store)@ == old(store)@ + old(queue)@.pending,
        final(queue)@ == (IngestionQueueView { pending: Seq::empty(), ..old(queue)@ }),
        action == (if old(queue)@.closed {
            ConsumerAction::Stop
        } else {
            ConsumerAction::Wait
        }),
{
    let mut left: usize = queue.len();
    assert(store@ + queue@.pending =~= old(store)@ + old(queue)@.pending);
    while left > 0
        invariant
            left == queue@.pending.len(),
            queue@.closed == old(queue)@.closed,
            store@ + queue@.pending == old(store)@ + old(queue)@.pending,
        decreases left,
    {
        let ghost store_before = store@;
        let ghost pending_before = queue@.pending;
        let delivery = queue.receive();
        consume(store, delivery);
        assert(store@ + queue@.pending =~= store_before + pending_before);
        left = left - 1;
    }
    assert(queue@.pending =~= Seq::empty());
    assert(store@ =~= store@ + queue@.pending);
    let last = queue.receive();
    consume(store, last)
}

/// The store after the first `n` of a run of deliveries.
pub open spec fn stored_after_all(
    store: Seq<BreakpointView>,
    deliveries: Seq<DeliveryView>,
    n: nat,
) -> Seq<BreakpointView>
    decreases n,
{
    if n == 0 || n > deliveries.len() {
        store
    } else {
        stored_after(stored_after_all(store, deliveries, (n - 1) as nat), deliveries[n - 1])
    }
}

/// The events among the first `n` of a run of deliveries, in their order.
pub open spec fn received_among(deliveries: Seq<DeliveryView>, n: nat) -> Seq<BreakpointView>
    decreases n,
{
    if n == 0 || n > deliveries.len() {
        Seq::empty()
    } else {
        stored_after(received_among(deliveries, (n - 1) as nat), deliveries[n - 1])
    }
}

/// Whatever the deliveries, the store ends as what it held before followed
/// by the received events, each once and in the order of their delivery.
pub proof fn lemma_store_keeps_order(
    store: Seq<BreakpointView>,
    deliveries: Seq<DeliveryView>,
    n: nat,
)
    requires
        n <= deliveries.len(),
    ensures
        stored_after_all(store, deliveries, n) == store + received_among(deliveries, n),
    decreases n,
{
    if n == 0 {
        assert(store =~= store + Seq::<BreakpointView>::empty());
    } else {
        lemma_store_keeps_order(store, deliveries, (n - 1) as nat);
        let before = received_among(deliveries, (n - 1) as nat);
        match deliveries[n - 1] {
            DeliveryView::Received(breakpoint) => {
                assert((store + before).push(breakpoint) =~= store + before.push(breakpoint));
            },
            _ => {},
        }
    }
}

/// A send to a full channel drops the oldest waiting event and nothing
/// else: the others move up by one place, and the new event is the last.
pub proof fn lemma_full_channel_drops_oldest(
    pending: Seq<BreakpointView>,
    breakpoint: BreakpointView,
)
    requires
        pending.len() == CHANNEL_CAPACITY,
    ensures
        queued(pending, breakpoint).len() == CHANNEL_CAPACITY,
        queued(pending, breakpoint).last() == breakpoint,
        forall|i: int|
            0 <= i < CHANNEL_CAPACITY - 1 ==> #[trigger] queued(pending, breakpoint)[i] == pending[i
                + 1],
{
}

/// A send to a channel that is not full drops nothing.
pub proof fn lemma_channel_with_room_keeps_all(
    pending: Seq<BreakpointView>,
    breakpoint: BreakpointView,
)
    requires
        pending.len() < CHANNEL_CAPACITY,
    ensures
        queued(pending, breakpoint) == pending.push(breakpoint),
{
}

/// What waits after a send is the end of what waited followed by the new
/// event: nothing is there twice, nothing has changed places, and never
/// more than the capacity waits.
pub proof fn lemma_channel_keeps_order(pending: Seq<BreakpointView>, breakpoint: BreakpointView)
    requires
        pending.len() <= CHANNEL_CAPACITY,
    ensures
        queued(pending, breakpoint).len() <= CHANNEL_CAPACITY,
        queued(pending, breakpoint) == pending.push(breakpoint).skip(
            pending.len() + 1 - queued(pending, breakpoint).len(),
        ),
{
    assert(queued(pending, breakpoint) =~= pending.push(breakpoint).skip(
        pending.len() + 1 - queued(pending, breakpoint).len(),
    ));
}

} // verus!
