use vstd::prelude::*;

verus! {

/// An opaque participant identity: the raw bytes of an account address
/// (32 bytes on the ledger this record lives on). The lottery only ever
/// compares such keys for equality; it never interprets their contents.
#[derive(Debug)]
pub struct AccountKey {
    pub bytes: Vec<u8>,
}

impl View for AccountKey {
    type V = Seq<u8>;

    open spec fn view(&self) -> Seq<u8> {
        self.bytes@
    }
}

impl AccountKey {
    pub fn new(bytes: Vec<u8>) -> (r: AccountKey)
        ensures
            r@ == bytes@,
    {
        AccountKey { bytes }
    }
}

/// Whether `now` falls inside the half-open sale window `[start, end)`.
pub open spec fn window_open(start: u64, end: u64, now: u64) -> bool {
    start <= now < end
}

/// Byte-for-byte equality of two account keys: the authority check and the
/// randomness-handle check both come down to this comparison.
pub fn key_eq(a: &AccountKey, b: &AccountKey) -> (r: bool)
    ensures
        r <==> a@ == b@,
{
    if a.bytes.len() != b.bytes.len() {
        assert(a@ != b@);
        return false;
    }
    let n: usize = a.bytes.len();
    let mut i: usize = 0;
    while i < n
        invariant
            0 <= i <= n,
            n == a@.len(),
            n == b@.len(),
            forall|j: int| 0 <= j < i ==> a@[j] == b@[j],
        decreases n - i,
    {
        if a.bytes[i] != b.bytes[i] {
            assert(a@[i as int] != b@[i as int]);
            return false;
        }
        i = i + 1;
    }
    assert(a@ =~= b@);
    true
}

} // verus!
