use rand::RngCore;
use vstd::prelude::*;

verus! {

#[verifier::external_type_specification]
#[verifier::external_body]
pub struct ExRandError(rand::Error);

/// Relies on `rand::rngs::OsRng::try_fill_bytes`: it overwrites the bytes of
/// the buffer from the operating system's secure source, or reports that the
/// source is unavailable. The buffer keeps its length either way.
#[verifier::external_body]
pub(crate) fn fill_secure_random(buf: &mut Vec<u8>) -> (r: Result<(), rand::Error>)
    ensures
        final(buf)@.len() == old(buf)@.len(),
{
    rand::rngs::OsRng.try_fill_bytes(buf.as_mut_slice())
}

} // verus!
