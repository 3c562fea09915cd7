use vstd::prelude::*;

verus! {

/// The error type of the entropy source that the host runtime installs.
#[verifier::external_type_specification]
#[verifier::external_body]
pub struct ExRandomError(getrandom::Error);

/// Entropy source for targets without an operating-system generator: it
/// fills the buffer with the deterministic pattern `0, 1, ..., 255, 0, 1, ...`
/// and never fails. Nothing in the vault's accounting depends on it.
pub fn custom_getrandom(buf: &mut [u8]) -> (r: Result<(), getrandom::Error>)
    ensures
        r is Ok,
        final(buf)@.len() == old(buf)@.len(),
        forall|i: int| 0 <= i < final(buf)@.len() ==> #[trigger] final(buf)@[i] == (i % 256) as u8,
{
    let n = buf.len();
    let mut i: usize = 0;
    while i < n
        invariant
            n == buf@.len(),
            buf@.len() == old(buf)@.len(),
            0 <= i <= n,
            forall|k: int| 0 <= k < i ==> #[trigger] buf@[k] == (k % 256) as u8,
        decreases n - i,
    {
        buf[i] = (i % 256) as u8;
        i = i + 1;
    }
    Ok(())
}

} // verus!
