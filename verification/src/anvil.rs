//! Pairing of the account addresses and private keys read from an Anvil
//! configuration file. Reading and JSON extraction happen outside the
//! library; the pairing of the two lists is specified here.

use vstd::prelude::*;

verus! {

/// One Anvil account: an address and its private key, as hex strings.
#[derive(Clone, Debug)]
pub struct AnvilAddressEntry {
    pub address: String,
    pub private_key: String,
}

/// Pairs each address with the private key at the same position. The lists
/// are consumed in order; a surplus on either side is dropped.
pub fn pair_anvil_entries(addresses: Vec<String>, private_keys: Vec<String>) -> (r: Vec<
    AnvilAddressEntry,
>)
    ensures
        r@.len() == vstd::math::min(addresses@.len() as int, private_keys@.len() as int),
        forall|i: int|
            0 <= i < r@.len() ==> #[trigger] r@[i].address == addresses@[i] && r@[i].private_key
                == private_keys@[i],
{
    let ghost all_addresses = addresses@;
    let ghost all_private_keys = private_keys@;
    let mut addresses = addresses;
    let mut private_keys = private_keys;
    let mut r: Vec<AnvilAddressEntry> = Vec::new();
    while addresses.len() > 0 && private_keys.len() > 0
        invariant
            r@.len() + addresses@.len() <= all_addresses.len(),
            r@.len() + private_keys@.len() <= all_private_keys.len(),
            addresses@.len() == all_addresses.len() - r@.len(),
            private_keys@.len() == all_private_keys.len() - r@.len(),
            addresses@ == all_addresses.skip(r@.len() as int),
            private_keys@ == all_private_keys.skip(r@.len() as int),
            forall|i: int|
                0 <= i < r@.len() ==> #[trigger] r@[i].address == all_addresses[i]
                    && r@[i].private_key == all_private_keys[i],
        decreases addresses@.len(),
    {
        let address = addresses.remove(0);
        let private_key = private_keys.remove(0);
        r.push(AnvilAddressEntry { address, private_key });
        proof {
            assert(addresses@ =~= all_addresses.skip(r@.len() as int));
            assert(private_keys@ =~= all_private_keys.skip(r@.len() as int));
        }
    }
    r
}

} // verus!
