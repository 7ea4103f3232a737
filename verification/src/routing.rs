use vstd::prelude::*;

use std::collections::HashMap;

use crate::addr::Address;

verus! {

broadcast use vstd::std_specs::hash::group_hash_axioms;

/// The routing decision for a datagram arriving from `sender` while the
/// table holds `m`: the handler to invoke, or `None` to drop the
/// datagram silently. A datagram is dropped both when the sender is
/// unknown (no entry) and when its entry is disabled.
pub open spec fn dispatch_spec<H>(m: Map<u64, (bool, H)>, sender: Address) -> Option<H> {
    if m.contains_key(sender.key_spec()) && m[sender.key_spec()].0 {
        Some(m[sender.key_spec()].1)
    } else {
        None
    }
}

/// The table after `set_enabled(addr, enabled)`: the entry keeps its
/// handler, only its enabled flag changes.
pub open spec fn set_enabled_spec<H>(
    m: Map<u64, (bool, H)>,
    addr: Address,
    enabled: bool,
) -> Map<u64, (bool, H)>
    recommends
        m.contains_key(addr.key_spec()),
{
    m.insert(addr.key_spec(), (enabled, m[addr.key_spec()].1))
}

/// Shared dispatch table of one listener: for each peer address, whether
/// delivery from that peer is enabled and which handler receives its
/// packets. There is at most one entry per address, entries are created
/// only by registration, and no operation removes an entry.
///
/// The handler type `H` is a parameter: the callers that run the receive
/// loop store their callbacks here, while proofs and tests may store any
/// plain value in their place.
pub struct RoutingTable<H> {
    map: HashMap<u64, (bool, H)>,
}

impl<H> View for RoutingTable<H> {
    type V = Map<u64, (bool, H)>;

    closed spec fn view(&self) -> Map<u64, (bool, H)> {
        self.map@
    }
}

impl<H> RoutingTable<H> {
    /// Whether a handler entry is registered for `addr`.
    pub open spec fn registered(self, addr: Address) -> bool {
        self@.contains_key(addr.key_spec())
    }

    /// Whether an entry for `addr` exists and is enabled.
    pub open spec fn enabled(self, addr: Address) -> bool {
        self.registered(addr) && self@[addr.key_spec()].0
    }

    /// The handler registered for `addr`.
    pub open spec fn handler_of(self, addr: Address) -> H
        recommends
            self.registered(addr),
    {
        self@[addr.key_spec()].1
    }

    /// A new table with no entries: every sender is unknown.
    pub fn new() -> (t: Self)
        ensures
            t@ == Map::<u64, (bool, H)>::empty(),
    {
        RoutingTable { map: HashMap::new() }
    }

    /// Registers `handler` for datagrams from `addr`, enabled, creating
    /// the entry or overwriting any previous one for that address.
    pub fn register(&mut self, addr: Address, handler: H)
        ensures
            final(self)@ == old(self)@.insert(addr.key_spec(), (true, handler)),
    {
        self.map.insert(addr.key(), (true, handler));
    }

    /// Whether an entry for `addr` exists.
    pub fn contains(&self, addr: Address) -> (r: bool)
        ensures
            r == self.registered(addr),
    {
        self.map.contains_key(&addr.key())
    }

    /// Sets the enabled flag of the existing entry for `addr`, keeping
    /// its handler. The entry must already exist: the callers that own
    /// an interface created it at registration.
    pub fn set_enabled(&mut self, addr: Address, enabled: bool)
        requires
            old(self).registered(addr),
        ensures
            final(self)@ == set_enabled_spec(old(self)@, addr, enabled),
    {
        let k = addr.key();
        match self.map.remove(&k) {
            Some(entry) => {
                self.map.insert(k, (enabled, entry.1));
                proof {
                    assert(final(self)@ =~= set_enabled_spec(old(self)@, addr, enabled));
                }
            },
            None => {
                proof {
                    assert(false);
                }
            },
        }
    }

    /// The routing decision for a datagram from `sender`: the handler to
    /// invoke if the sender has an enabled entry, `None` (drop) if the
    /// sender is unknown or its entry is disabled.
    pub fn dispatch(&self, sender: Address) -> (r: Option<&H>)
        ensures
            match r {
                Some(h) => self.enabled(sender) && *h == self.handler_of(sender),
                None => !self.enabled(sender),
            },
            match r {
                Some(h) => dispatch_spec(self@, sender) == Some(*h),
                None => dispatch_spec(self@, sender) is None,
            },
    {
        match self.map.get(&sender.key()) {
            Some(entry) => if entry.0 {
                Some(&entry.1)
            } else {
                None
            },
            None => None,
        }
    }
}

/// Copies the first `len` received bytes out of the receive buffer into
/// an owned packet, exactly as many bytes as the datagram carried.
pub fn extract_packet(buf: &[u8], len: usize) -> (p: Vec<u8>)
    requires
        len <= buf.len(),
    ensures
        p@ == buf@.subrange(0, len as int),
{
    let mut p: Vec<u8> = Vec::new();
    let mut i: usize = 0;
    while i < len
        invariant
            i <= len,
            len <= buf.len(),
            p@ == buf@.subrange(0, i as int),
        decreases len - i,
    {
        p.push(buf[i]);
        proof {
            assert(p@ =~= buf@.subrange(0, (i + 1) as int));
        }
        i = i + 1;
    }
    p
}

impl<H> RoutingTable<H> {
    /// One receive step over a datagram of `len` bytes in `buf` from
    /// `sender`: resolves the sender in the table and, when its entry is
    /// enabled, hands back its handler together with the packet, the
    /// first `len` bytes of the buffer byte for byte. Hands back `None`
    /// — drop, no handler invocation — for an unknown or disabled
    /// sender.
    pub fn route<'a>(&'a self, sender: Address, buf: &[u8], len: usize) -> (r: Option<
        (&'a H, Vec<u8>),
    >)
        requires
            len <= buf.len(),
        ensures
            match r {
                Some(d) => self.enabled(sender) && *d.0 == self.handler_of(sender) && d.1@
                    == buf@.subrange(0, len as int),
                None => !self.enabled(sender),
            },
    {
        match self.dispatch(sender) {
            Some(h) => Some((h, extract_packet(buf, len))),
            None => None,
        }
    }
}

} // verus!
