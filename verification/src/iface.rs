use vstd::prelude::*;

use crate::addr::Address;
use crate::routing::RoutingTable;
use crate::routing::set_enabled_spec;

verus! {

/// Error surface of the send path that this crate decides itself.
/// Transport failures are reported by the socket collaborator, outside
/// this crate; the one error the routing engine itself raises is the
/// send against a disabled interface, kept as its own kind so callers
/// can test for it specifically.
#[derive(Clone, Copy, PartialEq, Eq, Debug, Structural)]
pub enum LinkError {
    InterfaceDisabled,
}

/// Per-peer facade of one listener: the remote address this interface is
/// bound to, and a local cache of the enabled flag as this interface
/// last set it. The cache alone gates sends, so a send never touches the
/// shared table; it can go stale when another interface bound to the
/// same address toggles the shared entry.
#[derive(Clone, Copy, PartialEq, Eq, Debug, Structural)]
pub struct Interface {
    pub remote_addr: Address,
    pub cached_status: bool,
}

impl Interface {
    /// Whether this interface currently lets sends through: its own
    /// cached flag, not the shared table's.
    pub open spec fn send_allowed(self) -> bool {
        self.cached_status
    }

    /// This interface with its cached flag set to `status`: the state
    /// after `enable` (`true`) or `disable` (`false`).
    pub open spec fn with_status(self, status: bool) -> Interface {
        Interface { remote_addr: self.remote_addr, cached_status: status }
    }

    /// Binds a new interface to `remote_addr` on the listener owning
    /// `table`: registers `handler` for that address, enabled, and hands
    /// back the facade with its cache set to enabled.
    pub fn new<H>(table: &mut RoutingTable<H>, remote_addr: Address, handler: H) -> (i: Interface)
        ensures
            final(table)@ == old(table)@.insert(remote_addr.key_spec(), (true, handler)),
            i.remote_addr == remote_addr,
            i.cached_status == true,
    {
        table.register(remote_addr, handler);
        Interface { remote_addr, cached_status: true }
    }

    /// The send gate: fails with the disabled-interface error while this
    /// interface is disabled, so that no bytes are handed to the
    /// transport; lets the send proceed otherwise. The caller performs
    /// the datagram write to `remote_addr` only on `Ok`.
    pub fn send_gate(&self) -> (r: Result<(), LinkError>)
        ensures
            r is Ok <==> self.send_allowed(),
            !self.send_allowed() ==> r == Err::<(), LinkError>(LinkError::InterfaceDisabled),
    {
        if self.cached_status {
            Ok(())
        } else {
            Err(LinkError::InterfaceDisabled)
        }
    }

    /// Replaces the handler registered for this interface's address with
    /// `handler`, unconditionally re-enabling the entry. The cached flag
    /// is left as it is.
    pub fn update_recv_handler<H>(&self, table: &mut RoutingTable<H>, handler: H)
        ensures
            final(table)@ == old(table)@.insert(self.remote_addr.key_spec(), (true, handler)),
    {
        table.register(self.remote_addr, handler);
    }

    /// Enables delivery for this interface's address: sets the cached
    /// flag and the shared entry's enabled flag, keeping the entry's
    /// handler. The entry must exist — this interface created it at
    /// registration; a missing entry is a defect of the caller, not a
    /// recoverable error.
    pub fn enable<H>(&mut self, table: &mut RoutingTable<H>)
        requires
            old(table).registered(old(self).remote_addr),
        ensures
            *final(self) == old(self).with_status(true),
            final(table)@ == set_enabled_spec(old(table)@, old(self).remote_addr, true),
    {
        self.cached_status = true;
        table.set_enabled(self.remote_addr, true);
    }

    /// Disables delivery for this interface's address: clears the cached
    /// flag — so sends fail — and clears the shared entry's enabled flag
    /// — so inbound datagrams from the address are dropped. The entry
    /// must exist, as for `enable`.
    pub fn disable<H>(&mut self, table: &mut RoutingTable<H>)
        requires
            old(table).registered(old(self).remote_addr),
        ensures
            *final(self) == old(self).with_status(false),
            final(table)@ == set_enabled_spec(old(table)@, old(self).remote_addr, false),
    {
        self.cached_status = false;
        table.set_enabled(self.remote_addr, false);
    }
}

} // verus!
