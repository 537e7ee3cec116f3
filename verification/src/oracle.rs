use vstd::prelude::*;

verus! {

/// A 64-bit integer read little-endian from eight bytes.
pub open spec fn le64(b: Seq<u8>) -> u64
    recommends
        b.len() == 8,
{
    (b[0] + b[1] * 0x100 + b[2] * 0x1_0000 + b[3] * 0x100_0000 + b[4] * 0x1_0000_0000 + b[5]
        * 0x100_0000_0000 + b[6] * 0x1_0000_0000_0000 + b[7] * 0x100_0000_0000_0000) as u64
}

/// The 8-byte tag with which the Switchboard program marks a randomness
/// account's data.
pub open spec fn randomness_discriminator() -> Seq<u8> {
    seq![10u8, 66u8, 229u8, 135u8, 220u8, 239u8, 217u8, 114u8]
}

/// What a randomness account's raw bytes hold, by content alone: `None`
/// unless the buffer carries the discriminator and the full 400-byte
/// account record behind it; otherwise the seed slot, the reveal slot and
/// the 32-byte random value, read from their fixed offsets in the record's
/// plain layout (32-byte authority, queue and seed slothash before the seed
/// slot; a 32-byte oracle key between the slots; reserved bytes after the
/// value).
pub open spec fn oracle_randomness(data: Seq<u8>) -> Option<(u64, u64, Seq<u8>)> {
    if data.len() >= 408 && data.subrange(0, 8) == randomness_discriminator() {
        Some(
            (
                le64(data.subrange(104, 112)),
                le64(data.subrange(144, 152)),
                data.subrange(152, 184),
            ),
        )
    } else {
        None
    }
}

/// The lottery's view of one oracle randomness account: the three fields the
/// protocol reads. `seed_slot` is the time marker at which the random value
/// was fixed, `reveal_slot` the one at which the oracle reveals it, and
/// `value` the revealed 32-byte random value.
#[derive(Debug)]
pub struct OracleRandomness {
    pub seed_slot: u64,
    pub reveal_slot: u64,
    pub value: Vec<u8>,
}

fn read_le64(data: &Vec<u8>, off: usize) -> (r: u64)
    requires
        off + 8 <= data@.len(),
    ensures
        r == le64(data@.subrange(off as int, off as int + 8)),
{
    let n: usize = data.len();
    assert(off + 8 <= n);
    let r = (data[off] as u64) + (data[off + 1] as u64) * 0x100 + (data[off + 2] as u64) * 0x1_0000
        + (data[off + 3] as u64) * 0x100_0000 + (data[off + 4] as u64) * 0x1_0000_0000 + (data[off
        + 5] as u64) * 0x100_0000_0000 + (data[off + 6] as u64) * 0x1_0000_0000_0000 + (data[off
        + 7] as u64) * 0x100_0000_0000_0000;
    r
}

/// Decodes a randomness account from its raw bytes, as the account's content
/// determines it: the same check and field layout as the Switchboard
/// program's own deserializer, restated over the bytes alone (the outside
/// implementation reads the record in place and so additionally rejects a
/// buffer its allocator happened to misalign, which no content can express).
pub fn parse_randomness(data: &Vec<u8>) -> (r: Option<OracleRandomness>)
    ensures
        r is Some <==> oracle_randomness(data@) is Some,
        r matches Some(o) ==> oracle_randomness(data@) matches Some(t) && o.seed_slot == t.0
            && o.reveal_slot == t.1 && o.value@ == t.2 && o.value@.len() == 32,
{
    if data.len() < 408 {
        return None;
    }
    if data[0] != 10 || data[1] != 66 || data[2] != 229 || data[3] != 135 || data[4] != 220
        || data[5] != 239 || data[6] != 217 || data[7] != 114 {
        assert(data@.subrange(0, 8) != randomness_discriminator()) by {
            assert(exists|i: int|
                0 <= i < 8 && data@.subrange(0, 8)[i] != randomness_discriminator()[i]);
        }
        return None;
    }
    assert(data@.subrange(0, 8) =~= randomness_discriminator());
    let seed_slot = read_le64(data, 104);
    let reveal_slot = read_le64(data, 144);
    let mut value: Vec<u8> = Vec::new();
    let mut i: usize = 0;
    while i < 32
        invariant
            data@.len() >= 408,
            i <= 32,
            value@.len() == i,
            forall|j: int| 0 <= j < i ==> value@[j] == data@[152 + j],
        decreases 32 - i,
    {
        value.push(data[152 + i]);
        i = i + 1;
    }
    assert(value@ =~= data@.subrange(152, 184));
    Some(OracleRandomness { seed_slot, reveal_slot, value })
}

impl OracleRandomness {
    /// The oracle's random value as resolvable at time `at`: the value is
    /// readable exactly in the reveal slot, and not yet (or no longer)
    /// resolvable at any other time.
    pub fn resolve(self, at: u64) -> (r: Option<Vec<u8>>)
        ensures
            at == self.reveal_slot ==> r == Some(self.value),
            at != self.reveal_slot ==> r is None,
    {
        if at == self.reveal_slot {
            Some(self.value)
        } else {
            None
        }
    }
}

} // verus!
