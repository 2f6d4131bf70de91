//! The bounded ring channel of verdict records.
//!
//! The kernel filter is the single producer and the drain loop the single
//! consumer. Records travel in production order; once the channel is full,
//! further production is dropped silently — the consumer is never told and
//! the producer is never blocked. A consumed record leaves the channel, so
//! no record is ever yielded twice.

use vstd::prelude::*;
use std::collections::VecDeque;

verus! {

broadcast use vstd::std_specs::vecdeque::group_vec_dequeue_axioms;

/// A bounded FIFO of raw records, viewed as the sequence of byte strings
/// it currently holds, oldest first.
#[derive(Debug)]
pub struct RingChannel {
    records: VecDeque<Vec<u8>>,
    capacity: usize,
}

impl View for RingChannel {
    type V = Seq<Seq<u8>>;

    closed spec fn view(&self) -> Seq<Seq<u8>> {
        self.records@.map(|i: int, r: Vec<u8>| r@)
    }
}

impl RingChannel {
    /// The bound on how many records the channel holds at once.
    pub closed spec fn spec_capacity(&self) -> usize {
        self.capacity
    }

    /// An empty channel that will hold at most `capacity` records.
    pub fn new(capacity: usize) -> (c: RingChannel)
        ensures
            c@ == Seq::<Seq<u8>>::empty(),
            c.spec_capacity() == capacity,
    {
        let c = RingChannel { records: VecDeque::new(), capacity };
        proof {
            assert(c@ =~= Seq::<Seq<u8>>::empty());
        }
        c
    }

    /// How many records are waiting.
    pub fn len(&self) -> (n: usize)
        ensures
            n == self@.len(),
    {
        self.records.len()
    }

    /// Producer side: append a record in production order. A full channel
    /// drops the record silently and reports so only to its caller — the
    /// consumer cannot observe the loss.
    pub fn push_record(&mut self, rec: Vec<u8>) -> (accepted: bool)
        ensures
            final(self).spec_capacity() == old(self).spec_capacity(),
            accepted == (old(self)@.len() < old(self).spec_capacity()),
            accepted ==> final(self)@ == old(self)@.push(rec@),
            !accepted ==> final(self)@ == old(self)@,
    {
        if self.records.len() < self.capacity {
            self.records.push_back(rec);
            proof {
                assert(self@ =~= old(self)@.push(rec@));
            }
            true
        } else {
            false
        }
    }

    /// Consumer side: take the oldest record out, without blocking. An
    /// empty channel reports `None`, the steady state between drain passes.
    pub fn next_record(&mut self) -> (r: Option<Vec<u8>>)
        ensures
            final(self).spec_capacity() == old(self).spec_capacity(),
            old(self)@.len() == 0 ==> r is None && final(self)@ == old(self)@,
            old(self)@.len() > 0 ==> final(self)@ == old(self)@.drop_first(),
            old(self)@.len() > 0 ==> (r matches Some(rec) && rec@ == old(self)@[0]),
    {
        match self.records.pop_front() {
            Some(rec) => {
                proof {
                    assert(self@ =~= old(self)@.drop_first());
                }
                Some(rec)
            },
            None => {
                proof {
                    assert(self@ =~= old(self)@);
                }
                None
            },
        }
    }
}

} // verus!
