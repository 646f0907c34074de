use vstd::prelude::*;

verus! {

/// The seed for a random generator: the operating system's entropy where it
/// could be read, else the fallback hash made odd, so that it is never zero.
pub fn seed_from(os_entropy: Option<u64>, fallback_hash: u64) -> (r: u64)
    ensures
        os_entropy matches Some(v) ==> r == v,
        os_entropy is None ==> r == (fallback_hash << 1u64) | 1u64,
        os_entropy is None ==> r % 2 == 1,
{
    match os_entropy {
        Some(v) => v,
        None => {
            let r = (fallback_hash << 1u64) | 1u64;
            assert(((fallback_hash << 1u64) | 1u64) % 2 == 1) by (bit_vector);
            r
        },
    }
}

} // verus!
