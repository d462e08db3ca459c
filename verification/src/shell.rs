//! Frame-loop scheduler decisions and the state the asynchronous executor
//! shares with the loop.
//!
//! The loop itself lives with the host: it reads the terminal size, builds
//! and lays out the widget tree, paints, polls input and sleeps. What it
//! decides each tick is here, as pure functions: how the tracked cursor
//! position changes under a batch of translated events, and in which order
//! the tick's messages reach the state update — interaction messages first,
//! then the background results drained from the result queue. The result
//! queue itself is the executor's delivery point: workers push a completed
//! task's message, the loop drains the whole queue once per tick by swapping
//! it for an empty one. The subscription pool diffs the description the
//! application hands back each tick against what already runs, so unchanged
//! subscriptions are left running and only newly needed ones start.

use vstd::prelude::*;

use crate::event::Event;
use crate::event::MouseEvent;

verus! {

/// Where the cursor is believed to be: off the surface until the first
/// cursor move arrives, then always the cell of the last cursor move. While
/// off-surface, no widget is hovered or pressed.
#[derive(Clone, Copy, PartialEq, Eq, Debug)]
pub enum CursorPosition {
    OffSurface,
    At { column: u16, row: u16 },
}

/// The cursor position after one batch of events, in order: the batch's
/// last cursor move wins; a batch without one leaves the position as it was.
pub open spec fn spec_track_cursor(current: CursorPosition, events: Seq<Event>) -> CursorPosition
    decreases events.len(),
{
    if events.len() == 0 {
        current
    } else {
        match events.last() {
            Event::Mouse(MouseEvent::CursorMoved { column, row }) => CursorPosition::At {
                column,
                row,
            },
            _ => spec_track_cursor(current, events.drop_last()),
        }
    }
}

/// Applies one tick's translated events to the tracked cursor position.
pub fn track_cursor(current: CursorPosition, events: &Vec<Event>) -> (r: CursorPosition)
    ensures
        r == spec_track_cursor(current, events@),
{
    let mut cur = current;
    let mut i: usize = 0;
    while i < events.len()
        invariant
            i <= events.len(),
            cur == spec_track_cursor(current, events@.take(i as int)),
        decreases events.len() - i,
    {
        match events[i] {
            Event::Mouse(MouseEvent::CursorMoved { column, row }) => {
                cur = CursorPosition::At { column, row };
            },
            _ => {},
        }
        proof {
            assert(events@.take(i + 1).drop_last() =~= events@.take(i as int));
            assert(events@.take(i + 1).last() == events@[i as int]);
        }
        i += 1;
    }
    proof {
        assert(events@.take(events@.len() as int) =~= events@);
    }
    cur
}

/// One tick's messages in the order the state update must see them:
/// interaction messages first, then the background results already queued.
/// Within each source the arrival order is kept.
pub fn collect_messages<M>(interaction: Vec<M>, background: Vec<M>) -> (r: Vec<M>)
    ensures
        r@ == interaction@ + background@,
{
    let mut r = interaction;
    let mut b = background;
    r.append(&mut b);
    r
}

/// The per-tick decision step of the frame loop: where the cursor is after
/// this tick's events, and which messages the state update receives, in
/// order.
pub fn process_tick<M>(
    cursor: CursorPosition,
    events: &Vec<Event>,
    interaction: Vec<M>,
    background: Vec<M>,
) -> (r: (CursorPosition, Vec<M>))
    ensures
        r.0 == spec_track_cursor(cursor, events@),
        r.1@ == interaction@ + background@,
{
    let next_cursor = track_cursor(cursor, events);
    let messages = collect_messages(interaction, background);
    (next_cursor, messages)
}

/// The refresh delay that paces the loop to a target frame rate, in
/// milliseconds.
pub fn refresh_delay_ms(fps: u64) -> (r: u64)
    requires
        fps >= 1,
    ensures
        r == 1000u64 / fps,
{
    1000 / fps
}

/// The executor's FIFO result queue: workers push each completed task's
/// message; the loop drains everything once per tick. The host guards a
/// queue with its lock; the queue itself only says what push and drain do.
pub struct MessageQueue<M> {
    items: Vec<M>,
}

impl<M> View for MessageQueue<M> {
    type V = Seq<M>;

    closed spec fn view(&self) -> Seq<M> {
        self.items@
    }
}

impl<M> MessageQueue<M> {
    pub fn new() -> (r: Self)
        ensures
            r@ == Seq::<M>::empty(),
    {
        MessageQueue { items: Vec::new() }
    }

    /// Delivers one completed task's message at the back of the queue.
    pub fn push(&mut self, message: M)
        ensures
            final(self)@ == old(self)@.push(message),
    {
        self.items.push(message);
    }

    pub fn len(&self) -> (r: usize)
        ensures
            r == self@.len(),
    {
        self.items.len()
    }

    /// Takes every queued message at once, oldest first, leaving the queue
    /// empty: the swap-out that bounds the host's critical section to one
    /// pointer exchange.
    pub fn drain(&mut self) -> (r: Vec<M>)
        ensures
            r@ == old(self)@,
            final(self)@ == Seq::<M>::empty(),
    {
        let mut out: Vec<M> = Vec::new();
        core::mem::swap(&mut out, &mut self.items);
        out
    }
}

/// The long-lived background event sources the executor runs, by identity.
/// Each tick the application describes the sources it currently wants; the
/// pool diffs that description against what already runs.
pub struct SubscriptionPool {
    running: Vec<u64>,
}

impl View for SubscriptionPool {
    type V = Seq<u64>;

    closed spec fn view(&self) -> Seq<u64> {
        self.running@
    }
}

fn contains_id(v: &Vec<u64>, x: u64) -> (r: bool)
    ensures
        r == v@.contains(x),
{
    let mut i: usize = 0;
    while i < v.len()
        invariant
            i <= v.len(),
            forall|j: int| 0 <= j < i ==> v@[j] != x,
        decreases v.len() - i,
    {
        if v[i] == x {
            return true;
        }
        i += 1;
    }
    false
}

impl SubscriptionPool {
    pub fn new() -> (r: Self)
        ensures
            r@ == Seq::<u64>::empty(),
    {
        SubscriptionPool { running: Vec::new() }
    }

    /// Reconciles the pool with the description the application returned
    /// this tick: afterwards exactly the described sources run, and the
    /// result lists the newly needed ones — those described but not yet
    /// running, in description order — so the host starts only those and
    /// leaves unchanged sources running.
    pub fn update(&mut self, desired: &Vec<u64>) -> (to_start: Vec<u64>)
        ensures
            final(self)@ == desired@,
            to_start@ == desired@.filter((|id: u64| !old(self)@.contains(id))),
    {
        let ghost before: Seq<u64> = self@;
        let ghost pred = (|id: u64| !before.contains(id));
        let mut to_start: Vec<u64> = Vec::new();
        let mut next: Vec<u64> = Vec::new();
        proof {
            reveal(Seq::filter);
            assert(desired@.take(0).filter(pred) =~= Seq::empty());
        }
        let mut i: usize = 0;
        while i < desired.len()
            invariant
                i <= desired.len(),
                before == self@,
                pred == (|id: u64| !before.contains(id)),
                next@ == desired@.take(i as int),
                to_start@ == desired@.take(i as int).filter(pred),
            decreases desired.len() - i,
        {
            let id = desired[i];
            next.push(id);
            if !contains_id(&self.running, id) {
                to_start.push(id);
            }
            proof {
                reveal(Seq::filter);
                assert(desired@.take(i + 1).drop_last() =~= desired@.take(i as int));
                assert(desired@.take(i + 1).last() == desired@[i as int]);
                assert(desired@.take(i + 1) =~= next@);
            }
            i += 1;
        }
        proof {
            assert(desired@.take(desired@.len() as int) =~= desired@);
        }
        self.running = next;
        to_start
    }
}

} // verus!
