//! 32-byte account addresses.

use vstd::prelude::*;

verus! {

/// An account address. Its view is the sequence of its 32 bytes.
#[derive(Clone, Copy, Eq, Debug)]
pub struct Pubkey {
    pub bytes: [u8; 32],
}

impl View for Pubkey {
    type V = Seq<u8>;

    open spec fn view(&self) -> Seq<u8> {
        self.bytes@
    }
}

/// The address with the given 32 bytes.
pub open spec fn key_of(bytes: Seq<u8>) -> Pubkey
    recommends
        bytes.len() == 32,
{
    choose|key: Pubkey| key@ == bytes
}

/// Two addresses with the same bytes are the same address.
pub proof fn lemma_key_ext(a: Pubkey, b: Pubkey)
    requires
        a@ == b@,
    ensures
        a == b,
{
    assert(forall|i: int| 0 <= i < 32 ==> a.bytes[i] == a.bytes@[i]);
    assert(a.bytes =~= b.bytes);
}

/// `key_of` undoes the view: an address is the one with its own bytes.
pub broadcast proof fn lemma_key_of(key: Pubkey)
    ensures
        key_of(#[trigger] key@) == key,
{
    lemma_key_ext(key_of(key@), key);
}

/// Any 32 bytes are the bytes of an address.
pub proof fn lemma_key_bytes(bytes: Seq<u8>)
    requires
        bytes.len() == 32,
    ensures
        key_of(bytes)@ == bytes,
{
    let key = Pubkey {
        bytes: [
            bytes[0], bytes[1], bytes[2], bytes[3], bytes[4], bytes[5], bytes[6], bytes[7],
            bytes[8], bytes[9], bytes[10], bytes[11], bytes[12], bytes[13], bytes[14], bytes[15],
            bytes[16], bytes[17], bytes[18], bytes[19], bytes[20], bytes[21], bytes[22], bytes[23],
            bytes[24], bytes[25], bytes[26], bytes[27], bytes[28], bytes[29], bytes[30], bytes[31],
        ],
    };
    assert(key@ =~= bytes);
}

impl PartialEq for Pubkey {
    fn eq(&self, other: &Pubkey) -> (equal: bool) {
        let mut i: usize = 0;
        while i < 32
            invariant
                i <= 32,
                forall|k: int| 0 <= k < i ==> self.bytes@[k] == other.bytes@[k],
            decreases 32 - i,
        {
            if self.bytes[i] != other.bytes[i] {
                return false;
            }
            i = i + 1;
        }
        proof {
            assert(self@ =~= other@);
            lemma_key_ext(*self, *other);
        }
        true
    }
}

impl vstd::std_specs::cmp::PartialEqSpecImpl for Pubkey {
    open spec fn obeys_eq_spec() -> bool {
        true
    }

    open spec fn eq_spec(&self, other: &Pubkey) -> bool {
        *self == *other
    }
}

/// Whether two key lists hold the same keys in the same order.
pub(crate) fn same_keys(a: &Vec<Pubkey>, b: &Vec<Pubkey>) -> (same: bool)
    ensures
        same == (a@ == b@),
{
    if a.len() != b.len() {
        return false;
    }
    let mut i: usize = 0;
    while i < a.len()
        invariant
            i <= a@.len(),
            a@.len() == b@.len(),
            forall|k: int| 0 <= k < i ==> a@[k] == b@[k],
        decreases a@.len() - i,
    {
        if a[i] != b[i] {
            return false;
        }
        i = i + 1;
    }
    assert(a@ =~= b@);
    true
}

/// The view of an address is its 32 bytes, in order.
pub proof fn law_key_view(key: Pubkey)
    ensures
        key@.len() == 32,
        forall|i: int| 0 <= i < 32 ==> #[trigger] key@[i] == key.bytes[i],
{
}

} // verus!
