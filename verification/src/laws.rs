use vstd::prelude::*;

use crate::addr::Address;
use crate::iface::Interface;
use crate::routing::dispatch_spec;
use crate::routing::set_enabled_spec;

verus! {

/// Routing correctness. Two listeners, each with an interface bound to
/// the other's address: registering handler `ha` for `addr_b` in the
/// first table and `hb` for `addr_a` in the second routes a datagram
/// from `addr_b` to `ha` and one from `addr_a` to `hb`, whatever either
/// table held before.
pub proof fn lemma_routing_correctness<H>(
    ta: Map<u64, (bool, H)>,
    tb: Map<u64, (bool, H)>,
    addr_a: Address,
    addr_b: Address,
    ha: H,
    hb: H,
)
    ensures
        dispatch_spec(ta.insert(addr_b.key_spec(), (true, ha)), addr_b) == Some(ha),
        dispatch_spec(tb.insert(addr_a.key_spec(), (true, hb)), addr_a) == Some(hb),
{
}

/// No cross-talk: registering a handler for one address leaves the
/// routing decision for every other address as it was.
pub proof fn lemma_register_preserves_others<H>(
    m: Map<u64, (bool, H)>,
    addr: Address,
    handler: H,
    other: Address,
)
    requires
        other != addr,
    ensures
        dispatch_spec(m.insert(addr.key_spec(), (true, handler)), other) == dispatch_spec(
            m,
            other,
        ),
{
    Address::lemma_key_injective(addr, other);
}

/// Unknown-sender drop: a datagram from an address with no table entry
/// invokes no handler.
pub proof fn lemma_unknown_sender_drop<H>(m: Map<u64, (bool, H)>, sender: Address)
    requires
        !m.contains_key(sender.key_spec()),
    ensures
        dispatch_spec(m, sender) is None,
{
}

/// Disabled-entry drop: a datagram from an address whose entry is
/// disabled invokes no handler.
pub proof fn lemma_disabled_entry_drop<H>(m: Map<u64, (bool, H)>, sender: Address)
    requires
        m.contains_key(sender.key_spec()),
        !m[sender.key_spec()].0,
    ensures
        dispatch_spec(m, sender) is None,
{
}

/// Toggling takes effect on dispatch: right after disabling an address
/// its datagrams are dropped, and right after enabling it they go to
/// the handler the entry already held.
pub proof fn lemma_toggle_dispatch<H>(m: Map<u64, (bool, H)>, addr: Address)
    requires
        m.contains_key(addr.key_spec()),
    ensures
        dispatch_spec(set_enabled_spec(m, addr, false), addr) is None,
        dispatch_spec(set_enabled_spec(m, addr, true), addr) == Some(m[addr.key_spec()].1),
{
}

/// Toggling one address leaves the routing decision for every other
/// address as it was.
pub proof fn lemma_toggle_preserves_others<H>(
    m: Map<u64, (bool, H)>,
    addr: Address,
    enabled: bool,
    other: Address,
)
    requires
        m.contains_key(addr.key_spec()),
        other != addr,
    ensures
        dispatch_spec(set_enabled_spec(m, addr, enabled), other) == dispatch_spec(m, other),
{
    Address::lemma_key_injective(addr, other);
}

/// Entries persist: no operation removes an entry. Registering any
/// address and toggling any registered address both keep every address
/// that was registered before.
pub proof fn lemma_entries_persist<H>(
    m: Map<u64, (bool, H)>,
    addr: Address,
    handler: H,
    enabled: bool,
    other: Address,
)
    requires
        m.contains_key(other.key_spec()),
    ensures
        m.insert(addr.key_spec(), (true, handler)).contains_key(other.key_spec()),
        m.contains_key(addr.key_spec()) ==> set_enabled_spec(m, addr, enabled).contains_key(
            other.key_spec(),
        ),
{
}

/// Send gating: an interface that was just disabled refuses sends, and
/// enabling it afterwards lets sends through again.
pub proof fn lemma_send_gating(i: Interface)
    ensures
        !i.with_status(false).send_allowed(),
        i.with_status(false).with_status(true).send_allowed(),
{
}

/// Idempotence of enable and disable on the table: one toggle leaves
/// the entry's flag at `enabled` with its handler kept, and a second
/// identical toggle changes nothing.
pub proof fn lemma_set_enabled_idempotent<H>(m: Map<u64, (bool, H)>, addr: Address, enabled: bool)
    requires
        m.contains_key(addr.key_spec()),
    ensures
        set_enabled_spec(m, addr, enabled).contains_key(addr.key_spec()),
        set_enabled_spec(m, addr, enabled)[addr.key_spec()] == (enabled, m[addr.key_spec()].1),
        set_enabled_spec(set_enabled_spec(m, addr, enabled), addr, enabled) == set_enabled_spec(
            m,
            addr,
            enabled,
        ),
{
    assert(set_enabled_spec(set_enabled_spec(m, addr, enabled), addr, enabled)
        =~= set_enabled_spec(m, addr, enabled));
}

/// Idempotence of enable and disable on the interface cache: setting
/// the cached flag twice to the same value is one setting.
pub proof fn lemma_with_status_idempotent(i: Interface, status: bool)
    ensures
        i.with_status(status).with_status(status) == i.with_status(status),
{
}

} // verus!
