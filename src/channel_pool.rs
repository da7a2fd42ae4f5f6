//! A fixed table of addressable FIFO channels. Any number of producers may
//! enqueue on a channel without blocking; one logical consumer drains it,
//! either by a non-blocking poll or by a receive that suspends while the
//! channel is empty and is resumed by the next enqueue.
use vstd::prelude::*;
use std::collections::VecDeque;

verus! {

/// Number of channels in a pool.
pub const THREAD_COUNT: usize = 10;

/// The outcome of a suspending receive.
pub enum RecvPoll<T> {
    /// The next message of the channel.
    Ready(T),
    /// The channel was empty: the receiver is suspended until the next
    /// enqueue on that channel reports that it woke it.
    Pending,
}

pub struct ChannelPool<T> {
    lanes: Vec<VecDeque<T>>,
    waiting: Vec<bool>,
}

/// The pool under the name that the browser build uses.
pub type WasmChannelPool<T> = ChannelPool<T>;

/// The channels after `v` is enqueued on channel `id`.
pub open spec fn queues_after_send<T>(qs: Seq<Seq<T>>, id: int, v: T) -> Seq<Seq<T>> {
    qs.update(id, qs[id].push(v))
}

/// The channels after `n` messages are enqueued on channel `id`, in order.
pub open spec fn queues_after_sends<T>(qs: Seq<Seq<T>>, id: int, msgs: Seq<T>) -> Seq<Seq<T>>
    decreases msgs.len(),
{
    if msgs.len() == 0 {
        qs
    } else {
        queues_after_send(queues_after_sends(qs, id, msgs.drop_last()), id, msgs.last())
    }
}

/// What `n` receives on channel `id` return, in order, and the channels left.
pub open spec fn received<T>(qs: Seq<Seq<T>>, id: int, n: nat) -> (Seq<T>, Seq<Seq<T>>)
    decreases n,
{
    if n == 0 || qs[id].len() == 0 {
        (seq![], qs)
    } else {
        let (rest, left) = received(qs.update(id, qs[id].drop_first()), id, (n - 1) as nat);
        (seq![qs[id][0]] + rest, left)
    }
}

proof fn lemma_sends_extend<T>(qs: Seq<Seq<T>>, id: int, msgs: Seq<T>)
    requires
        0 <= id < qs.len(),
    ensures
        queues_after_sends(qs, id, msgs) == qs.update(id, qs[id] + msgs),
    decreases msgs.len(),
{
    if msgs.len() == 0 {
        assert(qs.update(id, qs[id] + msgs) =~= qs);
    } else {
        lemma_sends_extend(qs, id, msgs.drop_last());
        assert((qs[id] + msgs.drop_last()).push(msgs.last()) =~= qs[id] + msgs);
        assert(qs.update(id, qs[id] + msgs.drop_last()).update(id, (qs[id] + msgs.drop_last()).push(msgs.last()))
            =~= qs.update(id, qs[id] + msgs));
    }
}

proof fn lemma_received_all<T>(qs: Seq<Seq<T>>, id: int)
    requires
        0 <= id < qs.len(),
    ensures
        received(qs, id, qs[id].len()).0 == qs[id],
        received(qs, id, qs[id].len()).1 == qs.update(id, seq![]),
    decreases qs[id].len(),
{
    if qs[id].len() > 0 {
        let next = qs.update(id, qs[id].drop_first());
        lemma_received_all(next, id);
        assert(next.update(id, Seq::<T>::empty()) =~= qs.update(id, Seq::<T>::empty()));
        assert(seq![qs[id][0]] + qs[id].drop_first() =~= qs[id]);
    } else {
        assert(qs[id] =~= Seq::<T>::empty());
        assert(qs.update(id, seq![]) =~= qs);
    }
}

/// Messages enqueued in order on an empty channel are received by a single
/// consumer in that same order, and the channel is empty again afterwards.
pub proof fn channel_fifo<T>(qs: Seq<Seq<T>>, id: int, msgs: Seq<T>)
    requires
        0 <= id < qs.len(),
        qs[id].len() == 0,
    ensures
        received(queues_after_sends(qs, id, msgs), id, msgs.len()).0 == msgs,
        received(queues_after_sends(qs, id, msgs), id, msgs.len()).1 == qs,
{
    lemma_sends_extend(qs, id, msgs);
    let after = queues_after_sends(qs, id, msgs);
    assert(qs[id] + msgs =~= msgs);
    lemma_received_all(after, id);
    assert(qs[id] =~= Seq::<T>::empty());
    assert(after.update(id, seq![]) =~= qs);
}

impl<T> ChannelPool<T> {
    /// The messages queued on each channel, oldest first.
    pub closed spec fn queues(&self) -> Seq<Seq<T>> {
        self.lanes@.map_values(|q: VecDeque<T>| q@)
    }

    /// Whether a receiver is suspended on each channel.
    pub closed spec fn waiting(&self) -> Seq<bool> {
        self.waiting@
    }

    pub open spec fn wf(&self) -> bool {
        &&& self.queues().len() == THREAD_COUNT
        &&& self.waiting().len() == THREAD_COUNT
    }

    pub fn new() -> (r: ChannelPool<T>)
        ensures
            r.wf(),
            forall|i: int| 0 <= i < THREAD_COUNT ==> r.queues()[i].len() == 0 && !r.waiting()[i],
    {
        let mut lanes: Vec<VecDeque<T>> = Vec::new();
        let mut waiting: Vec<bool> = Vec::new();
        let mut i: usize = 0;
        while i < THREAD_COUNT
            invariant
                i <= THREAD_COUNT,
                lanes@.len() == i,
                waiting@.len() == i,
                forall|j: int| 0 <= j < i ==> (#[trigger] lanes@[j])@.len() == 0,
                forall|j: int| 0 <= j < i ==> !(#[trigger] waiting@[j]),
            decreases THREAD_COUNT - i,
        {
            let lane: VecDeque<T> = VecDeque::new();
            assert(lane@.len() == 0);
            lanes.push(lane);
            waiting.push(false);
            assert(lanes@[i as int]@.len() == 0);
            i = i + 1;
        }
        let r = ChannelPool { lanes, waiting };
        assert forall|i: int| 0 <= i < THREAD_COUNT implies r.queues()[i].len() == 0 && !r.waiting()[i] by {
            assert(r.queues()[i] == r.lanes@[i]@);
        }
        r
    }

    /// Enqueues `val` on channel `thread_id`. The result tells whether a
    /// receiver suspended on that channel is to be resumed.
    pub fn send(&mut self, thread_id: usize, val: T) -> (woke: bool)
        requires
            old(self).wf(),
            thread_id < THREAD_COUNT,
        ensures
            final(self).wf(),
            final(self).queues() == queues_after_send(old(self).queues(), thread_id as int, val),
            woke == old(self).waiting()[thread_id as int],
            final(self).waiting() == old(self).waiting().update(thread_id as int, false),
    {
        let ghost before = self.queues();
        self.lanes[thread_id].push_back(val);
        assert(self.queues() =~= queues_after_send(before, thread_id as int, val));
        let woke = self.waiting[thread_id];
        self.waiting.set(thread_id, false);
        woke
    }

    /// Takes the next message of channel `thread_id`; on an empty channel
    /// the receiver is recorded as suspended and `Pending` is returned.
    pub fn recv(&mut self, thread_id: usize) -> (r: RecvPoll<T>)
        requires
            old(self).wf(),
            thread_id < THREAD_COUNT,
        ensures
            final(self).wf(),
            ({
                let q = old(self).queues()[thread_id as int];
                if q.len() > 0 {
                    &&& r == RecvPoll::Ready(q[0])
                    &&& final(self).queues() == received(old(self).queues(), thread_id as int, 1).1
                    &&& final(self).waiting() == old(self).waiting()
                } else {
                    &&& r is Pending
                    &&& final(self).queues() == old(self).queues()
                    &&& final(self).waiting() == old(self).waiting().update(thread_id as int, true)
                }
            }),
    {
        match self.try_recv(thread_id) {
            Some(v) => RecvPoll::Ready(v),
            None => {
                self.waiting.set(thread_id, true);
                RecvPoll::Pending
            },
        }
    }

    /// Takes the next message of channel `thread_id`, or returns `None` at
    /// once when the channel is empty.
    pub fn try_recv(&mut self, thread_id: usize) -> (r: Option<T>)
        requires
            old(self).wf(),
            thread_id < THREAD_COUNT,
        ensures
            final(self).wf(),
            final(self).waiting() == old(self).waiting(),
            ({
                let q = old(self).queues()[thread_id as int];
                if q.len() > 0 {
                    &&& r == Some(q[0])
                    &&& final(self).queues() == received(old(self).queues(), thread_id as int, 1).1
                } else {
                    &&& r is None
                    &&& final(self).queues() == old(self).queues()
                }
            }),
    {
        let ghost before = self.queues();
        let r = self.lanes[thread_id].pop_front();
        proof {
            let id = thread_id as int;
            if before[id].len() > 0 {
                let next = before.update(id, before[id].drop_first());
                assert(received(next, id, 0) == (Seq::<T>::empty(), next));
                assert(self.queues() =~= next);
            } else {
                assert(self.queues() =~= before);
            }
        }
        r
    }
}

/// Enqueues `msg` on channel `thread_id` of the pool; see `ChannelPool::send`.
pub fn send_msg<T>(pool: &mut ChannelPool<T>, thread_id: usize, msg: T) -> (woke: bool)
    requires
        old(pool).wf(),
        thread_id < THREAD_COUNT,
    ensures
        final(pool).wf(),
        final(pool).queues() == queues_after_send(old(pool).queues(), thread_id as int, msg),
        woke == old(pool).waiting()[thread_id as int],
        final(pool).waiting() == old(pool).waiting().update(thread_id as int, false),
{
    pool.send(thread_id, msg)
}

/// Suspending receive on channel `thread_id`; see `ChannelPool::recv`.
pub fn recv_msg<T>(pool: &mut ChannelPool<T>, thread_id: usize) -> (r: RecvPoll<T>)
    requires
        old(pool).wf(),
        thread_id < THREAD_COUNT,
    ensures
        final(pool).wf(),
        ({
            let q = old(pool).queues()[thread_id as int];
            if q.len() > 0 {
                &&& r == RecvPoll::Ready(q[0])
                &&& final(pool).queues() == received(old(pool).queues(), thread_id as int, 1).1
                &&& final(pool).waiting() == old(pool).waiting()
            } else {
                &&& r is Pending
                &&& final(pool).queues() == old(pool).queues()
                &&& final(pool).waiting() == old(pool).waiting().update(thread_id as int, true)
            }
        }),
{
    pool.recv(thread_id)
}

/// Non-blocking poll of channel `thread_id`; see `ChannelPool::try_recv`.
pub fn try_recv_msg<T>(pool: &mut ChannelPool<T>, thread_id: usize) -> (r: Option<T>)
    requires
        old(pool).wf(),
        thread_id < THREAD_COUNT,
    ensures
        final(pool).wf(),
        final(pool).waiting() == old(pool).waiting(),
        ({
            let q = old(pool).queues()[thread_id as int];
            if q.len() > 0 {
                &&& r == Some(q[0])
                &&& final(pool).queues() == received(old(pool).queues(), thread_id as int, 1).1
            } else {
                &&& r is None
                &&& final(pool).queues() == old(pool).queues()
            }
        }),
{
    pool.try_recv(thread_id)
}

} // verus!
