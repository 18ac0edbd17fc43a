//! The fan-out of the upstream feed: each message is put once on the
//! bounded queue of every session that keeps up.

use crate::message::Message;
use crate::shared::share;
use std::sync::Arc;
use vstd::prelude::*;

verus! {

/// The outbound queue of one session.
pub struct SessionQueue {
    capacity: usize,
    pending: Vec<Arc<Message>>,
    lagging: bool,
}

/// What a queue holds: its bound, the messages that wait in it, oldest
/// first, and whether the session fell behind.
pub ghost struct QueueModel {
    pub capacity: usize,
    pub pending: Seq<Arc<Message>>,
    pub lagging: bool,
}

impl QueueModel {
    /// The queue after the hub offered it a message: a queue that fell
    /// behind stays as it is; a full one falls behind; any other takes the
    /// message last.
    pub open spec fn offered(self, message: Arc<Message>) -> QueueModel {
        if self.lagging {
            self
        } else if self.pending.len() >= self.capacity {
            QueueModel { lagging: true, ..self }
        } else {
            QueueModel { pending: self.pending.push(message), ..self }
        }
    }
}

impl View for SessionQueue {
    type V = QueueModel;

    closed spec fn view(&self) -> QueueModel {
        QueueModel { capacity: self.capacity, pending: self.pending@, lagging: self.lagging }
    }
}

impl SessionQueue {
    /// An empty queue that holds at most `capacity` messages.
    pub fn new(capacity: usize) -> (res: SessionQueue)
        ensures
            res@ == (QueueModel { capacity, pending: Seq::empty(), lagging: false }),
    {
        SessionQueue { capacity, pending: Vec::new(), lagging: false }
    }

    /// Whether the session fell behind and is to be closed.
    pub fn is_lagging(&self) -> (lagging: bool)
        ensures
            lagging == self@.lagging,
    {
        self.lagging
    }

    /// The number of messages that wait.
    pub fn len(&self) -> (n: usize)
        ensures
            n == self@.pending.len(),
    {
        self.pending.len()
    }

    /// Offers a message to the queue, without ever waiting for room.
    pub fn offer(&mut self, message: &Arc<Message>)
        ensures
            final(self)@ == old(self)@.offered(*message),
    {
        if self.lagging {
            return ;
        }
        if self.pending.len() >= self.capacity {
            self.lagging = true;
            return ;
        }
        self.pending.push(share(message));
    }

    /// Empties the queue when the session closes: at most `limit` of the
    /// messages that wait, the oldest first, are handed out to be sent, and
    /// the others are let go.
    pub fn drain(&mut self, limit: usize) -> (res: Vec<Arc<Message>>)
        ensures
            res@ == if old(self)@.pending.len() <= limit {
                old(self)@.pending
            } else {
                old(self)@.pending.take(limit as int)
            },
            final(self)@ == (QueueModel { pending: Seq::empty(), ..old(self)@ }),
    {
        let ghost before = self.pending@;
        let mut res: Vec<Arc<Message>> = Vec::new();
        let mut i: usize = 0;
        while i < self.pending.len() && i < limit
            invariant
                i <= self.pending.len(),
                i <= limit,
                self.pending@ == before,
                res@ == before.take(i as int),
            decreases self.pending.len() - i,
        {
            res.push(share(&self.pending[i]));
            assert(res@ =~= before.take(i + 1));
            i += 1;
        }
        proof {
            if before.len() <= limit {
                assert(before.take(i as int) =~= before);
            }
        }
        self.pending = Vec::new();
        res
    }

    /// Takes the oldest message that waits, if any.
    pub fn take(&mut self) -> (res: Option<Arc<Message>>)
        ensures
            match res {
                Some(message) => old(self)@.pending.len() > 0 && message == old(self)@.pending[0]
                    && final(self)@ == (QueueModel {
                    pending: old(self)@.pending.drop_first(),
                    ..old(self)@
                }),
                None => old(self)@.pending.len() == 0 && final(self)@ == old(self)@,
            },
    {
        if self.pending.len() == 0 {
            return None;
        }
        let message = self.pending.remove(0);
        assert(self.pending@ =~= old(self)@.pending.drop_first());
        Some(message)
    }
}

/// The hub: the queues of the sessions that it serves.
pub struct Hub {
    queues: Vec<SessionQueue>,
}

/// What a list of queues holds.
pub closed spec fn queues_view(queues: Seq<SessionQueue>) -> Seq<QueueModel> {
    queues.map_values(|queue: SessionQueue| queue@)
}

/// The offer of a message to a queue.
pub open spec fn offer_of(message: Arc<Message>) -> spec_fn(QueueModel) -> QueueModel {
    |queue: QueueModel| queue.offered(message)
}

impl View for Hub {
    type V = Seq<QueueModel>;

    closed spec fn view(&self) -> Seq<QueueModel> {
        queues_view(self.queues@)
    }
}

impl Hub {
    /// A hub without sessions.
    pub fn new() -> (res: Hub)
        ensures
            res@ == Seq::<QueueModel>::empty(),
    {
        let res = Hub { queues: Vec::new() };
        assert(res@ =~= Seq::empty());
        res
    }

    /// Adds a session with an empty queue of the given bound, and says at
    /// which position it stands.
    pub fn attach(&mut self, capacity: usize) -> (index: usize)
        ensures
            index == old(self)@.len(),
            final(self)@ == old(self)@.push(
                QueueModel { capacity, pending: Seq::empty(), lagging: false },
            ),
    {
        let index = self.queues.len();
        let ghost before = self@;
        self.queues.push(SessionQueue::new(capacity));
        assert(self@ =~= before.push(
            QueueModel { capacity, pending: Seq::empty(), lagging: false },
        ));
        index
    }

    /// Offers a message to the queue of every session. No session makes
    /// another one wait: a full queue only marks its own session as fallen
    /// behind.
    pub fn publish(&mut self, message: &Arc<Message>)
        ensures
            final(self)@ == old(self)@.map_values(offer_of(*message)),
    {
        let ghost before = self@;
        let ghost offer = offer_of(*message);
        let mut served: Vec<SessionQueue> = Vec::new();
        assert(queues_view(served@) =~= before.map_values(offer).take(0));
        while self.queues.len() > 0
            invariant
                offer == offer_of(*message),
                served@.len() + self.queues@.len() == before.len(),
                queues_view(self.queues@) == before.take(self.queues@.len() as int),
                forall|j: int|
                    0 <= j < served@.len() ==> (#[trigger] served@[j])@ == before[before.len() - 1
                        - j].offered(*message),
            decreases self.queues.len(),
        {
            let ghost rest = queues_view(self.queues@);
            let ghost n = self.queues@.len();
            let mut queue = self.queues.pop().unwrap();
            assert(queue@ == rest[n - 1]);
            assert(queues_view(self.queues@) =~= before.take(n - 1));
            queue.offer(message);
            served.push(queue);
        }
        let ghost total = served@;
        while served.len() > 0
            invariant
                served@ == total.take(served@.len() as int),
                total.len() == before.len(),
                self.queues@.len() + served@.len() == total.len(),
                forall|j: int|
                    0 <= j < total.len() ==> (#[trigger] total[j])@ == before[before.len() - 1
                        - j].offered(*message),
                forall|j: int|
                    0 <= j < self.queues@.len() ==> (#[trigger] self.queues@[j])@
                        == before[j].offered(*message),
            decreases served.len(),
        {
            let ghost n = served@.len();
            let queue = served.pop().unwrap();
            assert(served@ =~= total.take(n - 1));
            assert(queue@ == total[n - 1]@);
            self.queues.push(queue);
        }
        assert(self@ =~= before.map_values(offer));
    }

    /// Whether the session at `index` fell behind.
    pub fn is_lagging(&self, index: usize) -> (lagging: bool)
        requires
            index < self@.len(),
        ensures
            lagging == self@[index as int].lagging,
    {
        self.queues[index].is_lagging()
    }
}

} // verus!
