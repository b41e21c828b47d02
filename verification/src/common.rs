//! What the parts of the agent have in common.
use vstd::prelude::*;

verus! {

/// The source of a flow record of another kind: the address of the
/// exporter, as the number that its four octets make in network order, and
/// the index of the interface that the exporter names.
#[derive(Debug, Clone, Copy, PartialEq, Eq, Structural, PartialOrd, Ord)]
pub struct XflowKey {
    pub ip: u32,
    pub tap_idx: u32,
}

impl XflowKey {
    /// The number that stands for the key where keys are hashed: the
    /// address in the high half of the word, the index in the low half.
    pub open spec fn packed(self) -> u64 {
        (self.ip * 0x1_0000_0000 + self.tap_idx) as u64
    }

    /// Keys that differ stand for different numbers, so that hashing the
    /// number tells apart what `==` tells apart.
    pub proof fn lemma_packed_injective(self, other: XflowKey)
        requires
            self.packed() == other.packed(),
        ensures
            self == other,
    {
    }

    /// The key of the exporter at `ip` and its interface `tap_idx`.
    pub fn new(ip: u32, tap_idx: u32) -> (key: XflowKey)
        ensures
            key == (XflowKey { ip, tap_idx }),
    {
        XflowKey { ip, tap_idx }
    }

    /// The one number that is hashed in place of the two fields.
    pub fn hash_key(&self) -> (key: u64)
        ensures
            key == self.packed(),
    {
        let ip = self.ip;
        assert(((ip as u64) << 32) == ip * 0x1_0000_0000) by (bit_vector);
        ((self.ip as u64) << 32) + self.tap_idx as u64
    }
}

} // verus!
