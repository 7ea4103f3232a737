use vstd::prelude::*;

verus! {

/// Endpoint identifier of the mock link layer: an IPv4 address together
/// with a UDP port. It is the unique key of the routing table.
#[derive(Clone, Copy, PartialEq, Eq, Hash, Debug, Structural)]
pub struct Address {
    pub ip: u32,
    pub port: u16,
}

impl Address {
    /// The routing key of this address: ip and port packed into one
    /// integer. Packing is injective (see `lemma_key_injective`), so
    /// keying the table by `key_spec` keys it by the address itself.
    pub open spec fn key_spec(self) -> u64 {
        ((self.ip as int) * 0x1_0000 + (self.port as int)) as u64
    }

    /// Packs ip and port into the routing key.
    pub fn key(&self) -> (k: u64)
        ensures
            k == self.key_spec(),
    {
        (self.ip as u64) * 0x1_0000 + (self.port as u64)
    }

    /// Distinct addresses have distinct routing keys: one table entry
    /// can never serve two different peers.
    pub proof fn lemma_key_injective(a: Address, b: Address)
        ensures
            a.key_spec() == b.key_spec() ==> a == b,
    {
        assert(a.key_spec() == (a.ip as int) * 0x1_0000 + (a.port as int));
        assert(b.key_spec() == (b.ip as int) * 0x1_0000 + (b.port as int));
    }
}

} // verus!
