//! The change broadcaster: fire-and-forget sends to named pub/sub channels.
//!
//! Delivery is at-most-once and unacknowledged: subscribers not connected at
//! publish time never receive the event.  The model keeps the list of sends
//! in order; a failed broadcaster appends nothing.

use crate::errors::StoreError;
use crate::events::ChangeEvent;
use crate::events::ChangeEventV;
use vstd::prelude::*;

verus! {

/// Abstract state of the broadcaster: the events sent so far, each with its
/// channel, plus the availability flag.
pub ghost struct BroadcasterV {
    pub log: Seq<(Seq<char>, ChangeEventV)>,
    pub available: bool,
}

impl BroadcasterV {
    /// One more event sent.
    pub open spec fn sent(self, chan: Seq<char>, event: ChangeEventV) -> BroadcasterV {
        BroadcasterV { log: self.log.push((chan, event)), ..self }
    }

    /// Sets the availability flag.
    pub open spec fn with_available(self, a: bool) -> BroadcasterV {
        BroadcasterV { available: a, ..self }
    }
}

/// The pub/sub send side.
pub struct Broadcaster {
    log: Vec<(String, ChangeEvent)>,
    available: bool,
}

impl View for Broadcaster {
    type V = BroadcasterV;

    closed spec fn view(&self) -> BroadcasterV {
        BroadcasterV {
            log: self.log@.map_values(|p: (String, ChangeEvent)| (p.0@, p.1@)),
            available: self.available,
        }
    }
}

impl Broadcaster {
    /// A fresh, reachable broadcaster with nothing sent.
    pub fn new() -> (b: Self)
        ensures
            b@.log == Seq::<(Seq<char>, ChangeEventV)>::empty(),
            b@.available,
    {
        let b = Broadcaster { log: Vec::new(), available: true };
        proof {
            assert(b@.log =~= Seq::<(Seq<char>, ChangeEventV)>::empty());
        }
        b
    }

    /// Sends `event` on channel `chan_name`.  Failure is reported to the
    /// caller but never rolls back any record mutation already performed.
    pub fn publish(&mut self, chan_name: String, event: ChangeEvent) -> (r: Result<
        (),
        StoreError,
    >)
        ensures
            match r {
                Ok(()) => old(self)@.available && final(self)@ == old(self)@.sent(
                    chan_name@,
                    event@,
                ),
                Err(e) => e == StoreError::StoreUnavailable && !old(self)@.available
                    && final(self)@ == old(self)@,
            },
    {
        if !self.available {
            return Err(StoreError::StoreUnavailable);
        }
        let ghost pre = self@;
        let ghost cv = chan_name@;
        let ghost ev = event@;
        self.log.push((chan_name, event));
        proof {
            assert(self@.log =~= pre.log.push((cv, ev)));
            assert(self@ == pre.sent(cv, ev));
        }
        Ok(())
    }


    /// How many events have been sent so far.
    pub fn sent_count(&self) -> (n: usize)
        ensures
            n == self@.log.len(),
    {
        self.log.len()
    }

    /// The `i`-th event sent, with its channel.
    pub fn sent_at(&self, i: usize) -> (r: (String, ChangeEvent))
        requires
            i < self@.log.len(),
        ensures
            r.0@ == self@.log[i as int].0,
            r.1@ == self@.log[i as int].1,
    {
        (self.log[i].0.clone(), self.log[i].1.dup())
    }

    /// Sets whether the channel backend is reachable.
    pub fn set_available(&mut self, a: bool)
        ensures
            final(self)@ == old(self)@.with_available(a),
    {
        let ghost pre = self@;
        self.available = a;
        proof {
            assert(self@ == pre.with_available(a));
        }
    }
}

} // verus!
