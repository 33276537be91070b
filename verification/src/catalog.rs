//! Device-identity matching against a known product-id table.

use vstd::prelude::*;

verus! {

/// The identity a device reports in its descriptor.
#[derive(Clone, Copy, Debug, PartialEq, Eq, Structural)]
pub struct DeviceIdentity {
    pub vendor_id: u16,
    pub product_id: u16,
}

/// True iff `product_id` is a member of the known-id table `known_ids`.
/// Matching is exact set membership, never a range or prefix test.
pub fn id_matches(product_id: u16, known_ids: &[u16]) -> (r: bool)
    ensures
        r == known_ids@.contains(product_id),
{
    let mut i: usize = 0;
    while i < known_ids.len()
        invariant
            i <= known_ids.len(),
            forall|j: int| 0 <= j < i ==> known_ids@[j] != product_id,
        decreases known_ids.len() - i,
    {
        if known_ids[i] == product_id {
            assert(known_ids@[i as int] == product_id);
            return true;
        }
        i = i + 1;
    }
    assert(!known_ids@.contains(product_id)) by {
        if known_ids@.contains(product_id) {
            let j = choose|j: int| 0 <= j < known_ids@.len() && known_ids@[j] == product_id;
            assert(known_ids@[j] != product_id);
        }
    }
    false
}

} // verus!
