use vstd::prelude::*;

use std::collections::VecDeque;

verus! {

/// Number of bytes the transmit queue holds at most.
pub const TX_QUEUE_CAPACITY: usize = 64;

/// The controller's transmit side: a bounded queue of bytes waiting for the
/// data register, usable once `setup` has run.
pub struct Serial {
    ready: bool,
    capacity: usize,
    queue: VecDeque<u8>,
}

/// The queue after writing each byte of `data` in turn: bytes are taken
/// while there is room and dropped from the first one that does not fit.
pub open spec fn enqueue_all(ready: bool, capacity: nat, q: Seq<u8>, data: Seq<u8>) -> Seq<u8> {
    if !ready || q.len() >= capacity {
        q
    } else if data.len() <= capacity - q.len() {
        q + data
    } else {
        q + data.take(capacity - q.len())
    }
}

impl Serial {
    /// The bytes waiting to be sent, oldest first.
    pub closed spec fn pending(&self) -> Seq<u8> {
        self.queue@
    }

    /// Whether `setup` has run.
    pub closed spec fn is_set_up(&self) -> bool {
        self.ready
    }

    /// The bound on the number of waiting bytes.
    pub closed spec fn max_len(&self) -> nat {
        self.capacity as nat
    }

    /// The queue never holds more than its capacity, and holds nothing before
    /// `setup`.
    pub open spec fn wf(&self) -> bool {
        &&& self.pending().len() <= self.max_len()
        &&& !self.is_set_up() ==> self.pending().len() == 0
    }

    /// A transmit queue of the default capacity, not yet set up.
    pub fn new() -> (r: Serial)
        ensures
            r.wf(),
            !r.is_set_up(),
            r.max_len() == TX_QUEUE_CAPACITY,
            r.pending() == Seq::<u8>::empty(),
    {
        Serial { ready: false, capacity: TX_QUEUE_CAPACITY, queue: VecDeque::new() }
    }

    /// Marks the queue usable and empties it.
    pub fn setup(&mut self)
        ensures
            final(self).wf(),
            final(self).is_set_up(),
            final(self).max_len() == old(self).max_len(),
            final(self).pending() == Seq::<u8>::empty(),
    {
        self.ready = true;
        self.queue = VecDeque::new();
    }

    /// Whether `setup` has run.
    pub fn is_ready(&self) -> (r: bool)
        ensures
            r == self.is_set_up(),
    {
        self.ready
    }

    /// Number of bytes waiting.
    pub fn queued_size(&self) -> (r: usize)
        requires
            self.wf(),
        ensures
            r == self.pending().len(),
    {
        self.queue.len()
    }

    /// Number of bytes that can still be queued.
    pub fn space_available(&self) -> (r: usize)
        requires
            self.wf(),
        ensures
            r == self.max_len() - self.pending().len(),
    {
        self.capacity - self.queue.len()
    }

    /// Appends one byte. Fails, leaving the queue as it was, when the queue is
    /// full or not set up.
    pub fn write(&mut self, data: u8) -> (r: bool)
        requires
            old(self).wf(),
        ensures
            final(self).wf(),
            r == (old(self).is_set_up() && old(self).pending().len() < old(self).max_len()),
            r ==> final(self).pending() == old(self).pending().push(data),
            !r ==> final(self).pending() == old(self).pending(),
            final(self).is_set_up() == old(self).is_set_up(),
            final(self).max_len() == old(self).max_len(),
    {
        if self.ready && self.queue.len() < self.capacity {
            self.queue.push_back(data);
            true
        } else {
            false
        }
    }

    /// Hands the oldest waiting byte to the data register when it is empty.
    pub fn write_to_udr(&mut self, udr_empty: bool) -> (r: Option<u8>)
        requires
            old(self).wf(),
        ensures
            final(self).wf(),
            final(self).is_set_up() == old(self).is_set_up(),
            final(self).max_len() == old(self).max_len(),
            udr_empty && old(self).pending().len() > 0 ==> {
                &&& r == Some(old(self).pending()[0])
                &&& final(self).pending() == old(self).pending().drop_first()
            },
            !(udr_empty && old(self).pending().len() > 0) ==> {
                &&& r is None
                &&& final(self).pending() == old(self).pending()
            },
    {
        if udr_empty {
            self.queue.pop_front()
        } else {
            None
        }
    }

    /// Queues one byte and, if it was taken, starts sending.
    pub fn write_and_queue(&mut self, data: u8, udr_empty: bool) -> (r: Option<u8>)
        requires
            old(self).wf(),
        ensures
            final(self).wf(),
            final(self).is_set_up() == old(self).is_set_up(),
            final(self).max_len() == old(self).max_len(),
            ({
                let taken = old(self).is_set_up() && old(self).pending().len() < old(self).max_len();
                let q = if taken {
                    old(self).pending().push(data)
                } else {
                    old(self).pending()
                };
                if taken && udr_empty {
                    r == Some(q[0]) && final(self).pending() == q.drop_first()
                } else {
                    r is None && final(self).pending() == q
                }
            }),
    {
        if self.write(data) {
            self.write_to_udr(udr_empty)
        } else {
            None
        }
    }

    /// Queues each byte of `data` in turn, as far as there is room, then
    /// starts sending.
    pub fn queue_many(&mut self, data: &[u8], udr_empty: bool) -> (r: Option<u8>)
        requires
            old(self).wf(),
        ensures
            final(self).wf(),
            final(self).is_set_up() == old(self).is_set_up(),
            final(self).max_len() == old(self).max_len(),
            ({
                let q = enqueue_all(
                    old(self).is_set_up(),
                    old(self).max_len(),
                    old(self).pending(),
                    data@,
                );
                if udr_empty && q.len() > 0 {
                    r == Some(q[0]) && final(self).pending() == q.drop_first()
                } else {
                    r is None && final(self).pending() == q
                }
            }),
    {
        let ghost q0 = self.pending();
        let mut i: usize = 0;
        while i < data.len()
            invariant
                self.wf(),
                self.is_set_up() == old(self).is_set_up(),
                self.max_len() == old(self).max_len(),
                q0 == old(self).pending(),
                i <= data@.len(),
                self.pending() == enqueue_all(self.is_set_up(), self.max_len(), q0, data@.take(i as int)),
            decreases data.len() - i,
        {
            let ghost before = self.pending();
            self.write(data[i]);
            proof {
                let cap = self.max_len();
                let d = data@.take(i as int + 1);
                assert(d == data@.take(i as int).push(data@[i as int]));
                if self.is_set_up() && q0.len() < cap {
                    if i as int + 1 <= cap - q0.len() {
                        assert(q0 + d =~= (q0 + data@.take(i as int)).push(data@[i as int]));
                    } else {
                        assert(d.take(cap - q0.len()) =~= data@.take(i as int).take(cap - q0.len()));
                        if i as int <= cap - q0.len() {
                            assert(data@.take(i as int).take(cap - q0.len()) =~= data@.take(i as int));
                        }
                    }
                }
            }
            i = i + 1;
        }
        assert(data@.take(data@.len() as int) =~= data@);
        self.write_to_udr(udr_empty)
    }
}

/// The bytes of `text`, one per character, each character cut to its low
/// eight bits.
pub fn text_to_usart_vec(text: String) -> (r: Vec<u8>)
    ensures
        r@ == text@.map_values(|c: char| c as u8),
{
    let mut r: Vec<u8> = Vec::new();
    let s = text.as_str();
    let n = s.unicode_len();
    let mut i: usize = 0;
    while i < n
        invariant
            n == s@.len(),
            s@ == text@,
            i <= n,
            r@ == s@.take(i as int).map_values(|c: char| c as u8),
        decreases n - i,
    {
        let c = s.get_char(i);
        r.push(c as u8);
        assert(s@.take(i as int + 1) == s@.take(i as int).push(c));
        assert(r@ =~= s@.take(i as int + 1).map_values(|c: char| c as u8));
        i = i + 1;
    }
    assert(s@.take(n as int) =~= s@);
    r
}

} // verus!
