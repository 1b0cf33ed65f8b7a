use crate::wire::EncodedMessage;
use vstd::prelude::*;

verus! {

/// The host system's one-way message facility, as the client observes it.
///
/// The simulator registers its message target under a well-known name;
/// anyone holding the registration can post messages to it, without
/// blocking and without acknowledgment. This type models the facility's
/// observable state: whether a target is currently registered (and under
/// which registration id), and every message delivered to it, in order.
/// The verified client operates on this value; a platform layer mirrors
/// each call onto the real facility of the simulator's host system.
pub struct MessageBus {
    /// Registration id of the simulator's message target, while one is
    /// registered.
    pub target: Option<u64>,
    /// The next unused registration id. Ids are handed out in order and
    /// never reused, so a handle to an old registration can never reach a
    /// later one.
    pub next_id: u64,
    /// The messages delivered to the target, oldest first.
    pub log: Vec<EncodedMessage>,
}

/// The parts of the facility a post may not disturb: registration state
/// and the set and order of past deliveries.
pub open spec fn bus_unchanged(b0: MessageBus, b1: MessageBus) -> bool {
    &&& b1.target == b0.target
    &&& b1.next_id == b0.next_id
    &&& b1.log@ == b0.log@
}

impl MessageBus {
    /// Well-formed: a registered target carries an id that has been
    /// handed out.
    pub open spec fn wf(&self) -> bool {
        match self.target {
            Some(id) => id < self.next_id,
            None => true,
        }
    }

    /// A facility with no simulator running: no target registered and
    /// nothing delivered.
    pub fn new() -> (bus: MessageBus)
        ensures
            bus.target is None,
            bus.next_id == 0,
            bus.log@ == Seq::<EncodedMessage>::empty(),
            bus.wf(),
    {
        MessageBus { target: None, next_id: 0, log: Vec::new() }
    }

    /// The simulator starts and registers its message target. Returns the
    /// fresh registration id; earlier deliveries stay on record.
    pub fn open_target(&mut self) -> (id: u64)
        requires
            old(self).next_id < u64::MAX,
        ensures
            id == old(self).next_id,
            final(self).target == Some(id),
            final(self).next_id == old(self).next_id + 1,
            final(self).log@ == old(self).log@,
            final(self).wf(),
    {
        let id = self.next_id;
        self.next_id = self.next_id + 1;
        self.target = Some(id);
        id
    }

    /// The simulator exits: its registration is gone, and every handle to
    /// it is stale from here on.
    pub fn close_target(&mut self)
        ensures
            final(self).target is None,
            final(self).next_id == old(self).next_id,
            final(self).log@ == old(self).log@,
            final(self).wf(),
    {
        self.target = None;
    }

    /// Post one message to the registration `endpoint` resolves to.
    /// Accepted exactly when that registration is still the current one;
    /// then `m` is appended to the deliveries. A post to a stale or
    /// missing target is rejected and delivers nothing.
    pub fn post(&mut self, endpoint: u64, m: &EncodedMessage) -> (ok: bool)
        ensures
            ok == (old(self).target == Some(endpoint)),
            ok ==> final(self).target == old(self).target && final(self).next_id == old(
                self,
            ).next_id && final(self).log@ == old(self).log@.push(*m),
            !ok ==> bus_unchanged(*old(self), *final(self)),
    {
        match self.target {
            Some(id) => {
                if id == endpoint {
                    self.log.push(*m);
                    true
                } else {
                    false
                }
            },
            None => false,
        }
    }

    /// How many messages have been delivered so far.
    pub fn delivered_count(&self) -> (n: usize)
        ensures
            n == self.log@.len(),
    {
        self.log.len()
    }

    /// The `i`-th delivered message, oldest first.
    pub fn delivered(&self, i: usize) -> (m: EncodedMessage)
        requires
            i < self.log@.len(),
        ensures
            m == self.log@[i as int],
    {
        self.log[i]
    }
}

} // verus!
