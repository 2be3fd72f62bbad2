use vstd::prelude::*;

verus! {

/// The bits of a 128-bit identifier (read big-endian) that hold its version
/// number and variant.
pub const VERSION_VARIANT_MASK: u128 = 0xF000_C000_0000_0000_0000;

/// Version and variant bits of a random (version 4, RFC 4122 variant) identifier.
pub const RANDOM_VERSION_VARIANT: u128 = 0x4000_8000_0000_0000_0000;

/// The identifier whose bits are all zero, which marks a record that has no
/// identifier yet.
pub open spec fn is_nil(id: u128) -> bool {
    id == 0
}

/// `id` carries the version and variant bits of a random identifier.
pub open spec fn is_random_id(id: u128) -> bool {
    id & VERSION_VARIANT_MASK == RANDOM_VERSION_VARIANT
}

/// Generates an identifier with uuid's `Uuid::new_v4` and takes its 128 bits
/// (`as_u128`, big-endian).
///
/// Claimed: the version nibble is 4 and the variant bits are `10`, which
/// `new_v4` sets on top of random bits. Nothing is claimed of the other bits.
/// `new_v4` panics when the operating system's random source fails.
#[verifier::external_body]
pub(crate) fn random_id() -> (res: u128)
    ensures
        is_random_id(res),
{
    uuid::Uuid::new_v4().as_u128()
}

/// A random identifier is never nil.
pub proof fn lemma_random_id_not_nil(id: u128)
    requires
        is_random_id(id),
    ensures
        !is_nil(id),
{
    assert(id & 0xF000_C000_0000_0000_0000u128 == 0x4000_8000_0000_0000_0000u128 ==> id != 0u128)
        by (bit_vector);
}

/// The identifier a posted measurement is stored under: its own where it has
/// one, else a freshly generated random one.
pub fn ensure_measurement_id(id: u128) -> (res: u128)
    ensures
        !is_nil(id) ==> res == id,
        is_nil(id) ==> is_random_id(res),
        !is_nil(res),
{
    if id == 0 {
        let fresh = random_id();
        proof {
            lemma_random_id_not_nil(fresh);
        }
        fresh
    } else {
        id
    }
}

} // verus!
