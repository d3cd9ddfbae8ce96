use vstd::prelude::*;

verus! {

/// Calls `rand::random::<u32>()`, which draws from the thread-local generator.
/// Nothing is claimed of the value: it is chance. (The generator panics only
/// if the operating system's random source cannot seed it, which no argument
/// can rule out.)
#[verifier::external_body]
pub(crate) fn random_u32() -> u32 {
    rand::random::<u32>()
}

} // verus!
