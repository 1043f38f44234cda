use vstd::prelude::*;

verus! {

/// The lower 32 bits of a file identity.
pub open spec fn id_low(fid: u64) -> u32 {
    (fid % 0x1_0000_0000) as u32
}

/// The upper 32 bits of a file identity.
pub open spec fn id_high(fid: u64) -> u32 {
    (fid / 0x1_0000_0000) as u32
}

/// Splits a 64-bit file identity into its lower and upper halves, so that it
/// survives transport through numbers narrower than 64 bits.
pub fn split_identity(fid: u64) -> (r: (u32, u32))
    ensures
        r.0 == id_low(fid),
        r.1 == id_high(fid),
{
    let high: u64 = fid >> 32u64;
    proof {
        assert(high == fid / 0x1_0000_0000 && (high << 32u64) <= fid && fid - (high << 32u64)
            == fid % 0x1_0000_0000) by (bit_vector)
            requires
                high == fid >> 32u64,
        ;
    }
    let low: u64 = fid - (high << 32u64);
    (low as u32, high as u32)
}

/// The identity is rebuilt from its halves as `high << 32 | low`.
pub proof fn identity_round_trip(fid: u64)
    ensures
        ((id_high(fid) as u64) << 32u64) | (id_low(fid) as u64) == fid,
{
    assert((((fid / 0x1_0000_0000) as u32) as u64) << 32u64 | (((fid % 0x1_0000_0000) as u32) as u64) == fid)
        by (bit_vector);
}

} // verus!
