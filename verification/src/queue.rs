//! The messages that a subscriber has not read yet.
use std::collections::VecDeque;
use vstd::prelude::*;

verus! {

/// A queue of messages with room for a limited number of them.
pub struct MessageQueue<T> {
    items: VecDeque<T>,
    capacity: usize,
}

/// What a [`MessageQueue`] holds, the oldest message first.
#[verifier::ext_equal]
pub struct QueueView<T> {
    pub items: Seq<T>,
    pub capacity: nat,
}

/// What became of a received message.
#[derive(Debug)]
pub enum Received<T> {
    /// It could not be read as the expected type, and is skipped.
    Skipped,
    /// It was queued.
    Queued,
    /// It was queued in place of the oldest message, which was dropped.
    QueuedDropping(T),
    /// It was dropped, because the queue has no room at all.
    Dropped(T),
}

impl<T> QueueView<T> {
    /// Whether another message has room.
    pub open spec fn has_room(self) -> bool {
        self.items.len() < self.capacity
    }

    /// The queue after a message was received, and what became of the message.
    pub open spec fn received(self, converted: Option<T>) -> (QueueView<T>, Received<T>) {
        match converted {
            None => (self, Received::Skipped),
            Some(msg) => if self.has_room() {
                (QueueView { items: self.items.push(msg), ..self }, Received::Queued)
            } else if self.items.len() > 0 {
                (
                    QueueView { items: self.items.drop_first().push(msg), ..self },
                    Received::QueuedDropping(self.items[0]),
                )
            } else {
                (self, Received::Dropped(msg))
            },
        }
    }

    /// The queue after these messages were received one after the other.
    pub open spec fn received_all(self, msgs: Seq<T>) -> QueueView<T>
        decreases msgs.len(),
    {
        if msgs.len() == 0 {
            self
        } else {
            self.received_all(msgs.drop_last()).received(Some(msgs.last())).0
        }
    }
}

impl<T> View for MessageQueue<T> {
    type V = QueueView<T>;

    closed spec fn view(&self) -> QueueView<T> {
        QueueView { items: self.items@, capacity: self.capacity as nat }
    }
}

impl<T> MessageQueue<T> {
    /// No more messages than there is room for.
    pub open spec fn wf(self) -> bool {
        self@.items.len() <= self@.capacity
    }

    /// An empty queue with room for `capacity` messages.
    pub fn new(capacity: usize) -> (queue: MessageQueue<T>)
        ensures
            queue.wf(),
            queue@ == (QueueView { items: Seq::<T>::empty(), capacity: capacity as nat }),
    {
        MessageQueue { items: VecDeque::new(), capacity }
    }

    /// Adds a message at the end, or hands it back if there is no room.
    pub fn try_push(&mut self, msg: T) -> (result: Result<(), T>)
        requires
            old(self).wf(),
        ensures
            final(self).wf(),
            if old(self)@.has_room() {
                &&& result is Ok
                &&& final(self)@ == (QueueView {
                    items: old(self)@.items.push(msg),
                    ..old(self)@
                })
            } else {
                &&& result == Err::<(), T>(msg)
                &&& final(self)@ == old(self)@
            },
    {
        if self.items.len() < self.capacity {
            self.items.push_back(msg);
            Ok(())
        } else {
            Err(msg)
        }
    }

    /// Takes the oldest message.
    pub fn try_pop(&mut self) -> (msg: Option<T>)
        requires
            old(self).wf(),
        ensures
            final(self).wf(),
            if old(self)@.items.len() > 0 {
                &&& msg == Some(old(self)@.items[0])
                &&& final(self)@ == (QueueView {
                    items: old(self)@.items.drop_first(),
                    ..old(self)@
                })
            } else {
                &&& msg is None
                &&& final(self)@ == old(self)@
            },
    {
        let ghost before = self@;
        let msg = self.items.pop_front();
        proof {
            if before.items.len() > 0 {
                assert(self@.items =~= before.items.drop_first());
            }
        }
        msg
    }

    /// Queues a received message, given what reading it as the expected type gave. Where there is
    /// no room the oldest message makes way.
    pub fn receive(&mut self, converted: Option<T>) -> (received: Received<T>)
        requires
            old(self).wf(),
        ensures
            final(self).wf(),
            (final(self)@, received) == old(self)@.received(converted),
    {
        let msg = match converted {
            Some(msg) => msg,
            None => return Received::Skipped,
        };
        match self.try_push(msg) {
            Ok(()) => Received::Queued,
            Err(msg) => {
                let dropped = self.try_pop();
                match self.try_push(msg) {
                    Ok(()) => match dropped {
                        Some(oldest) => Received::QueuedDropping(oldest),
                        None => Received::Queued,
                    },
                    Err(msg) => Received::Dropped(msg),
                }
            },
        }
    }
}

/// The last `count` elements of `s`, or all of them if there are fewer.
pub open spec fn latest<T>(s: Seq<T>, count: nat) -> Seq<T> {
    if s.len() <= count {
        s
    } else {
        s.skip(s.len() - count)
    }
}

/// Whatever messages are received, the queue holds the latest ones that there is room for, in
/// the order in which they came.
pub proof fn queue_holds_the_latest<T>(queue: QueueView<T>, msgs: Seq<T>)
    requires
        queue.items.len() <= queue.capacity,
    ensures
        queue.received_all(msgs) == (QueueView {
            items: latest(queue.items + msgs, queue.capacity),
            ..queue
        }),
    decreases msgs.len(),
{
    if msgs.len() == 0 {
        assert(queue.items + msgs =~= queue.items);
    } else {
        let earlier = msgs.drop_last();
        let before = queue.items + earlier;
        queue_holds_the_latest(queue, earlier);
        assert(queue.items + msgs =~= before.push(msgs.last()));
        assert(queue.received_all(msgs).items =~= latest(before.push(msgs.last()), queue.capacity));
    }
}

/// A message that could not be read changes nothing. One that could is queued last if there is
/// room. If there is none the oldest message makes way and is named, and if there never is any the
/// message itself is handed back. The room stays the same.
pub proof fn received_message_is_queued_last<T>(queue: QueueView<T>, msg: T)
    ensures
        queue.received(None) == (queue, Received::<T>::Skipped),
        ({
            let (after, received) = queue.received(Some(msg));
            let held = queue.items.len();
            &&& after.capacity == queue.capacity
            &&& held < queue.capacity ==> received == Received::<T>::Queued && after.items
                == queue.items + seq![msg]
            &&& held >= queue.capacity && held > 0 ==> received == Received::QueuedDropping(
                queue.items[0],
            ) && seq![queue.items[0]] + after.items == queue.items + seq![msg]
            &&& held >= queue.capacity && held == 0 ==> received == Received::Dropped(msg) && after
                == queue
        }),
{
    let after = queue.received(Some(msg)).0;
    if queue.items.len() < queue.capacity {
        assert(after.items =~= queue.items + seq![msg]);
    } else if queue.items.len() > 0 {
        assert(seq![queue.items[0]] + after.items =~= queue.items + seq![msg]);
    }
}

/// Of all that was held and received, the queue holds as many as it has room for, from the end,
/// in the same order.
pub proof fn queue_drops_from_the_front<T>(queue: QueueView<T>, msgs: Seq<T>)
    requires
        queue.items.len() <= queue.capacity,
    ensures
        ({
            let all = queue.items + msgs;
            let held = queue.received_all(msgs).items;
            let dropped = all.len() - held.len();
            &&& held.len() == if all.len() <= queue.capacity {
                all.len()
            } else {
                queue.capacity
            }
            &&& forall|i: int| 0 <= i < held.len() ==> #[trigger] held[i] == all[dropped + i]
        }),
{
    queue_holds_the_latest(queue, msgs);
}

} // verus!
