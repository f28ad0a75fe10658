//! Random bytes.
use vstd::prelude::*;

verus! {

/// `getrandom::getrandom`: fills the buffer with bytes drawn from the system, or
/// gives the text of the error. Which bytes come, and whether any do, is up to
/// the system, so nothing is said of them.
#[verifier::external_body]
pub(crate) fn fill_random<const N: usize>(bytes: &mut [u8; N]) -> (drawn: Result<(), String>) {
    getrandom::getrandom(bytes).map_err(|error| error.to_string())
}

} // verus!
