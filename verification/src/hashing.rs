use vstd::prelude::*;
use std::hash::BuildHasher;
use std::hash::Hasher;

verus! {

// The identity hash of a bind group is computed by bevy_utils's AHasher.
// The hasher is opaque to the verifier: `hasher_words` names the stream of
// 64-bit words fed to a hasher so far, and `ahash_of` names the digest that
// finishing a hasher with a given stream yields.

#[verifier::external_type_specification]
#[verifier::external_body]
pub struct ExAHasher(bevy_utils::AHasher);

/// The 64-bit words fed to this hasher so far, oldest first.
pub uninterp spec fn hasher_words(h: bevy_utils::AHasher) -> Seq<u64>;

/// The digest that a fixed-key AHasher yields after being fed exactly
/// `words`.
pub uninterp spec fn ahash_of(words: Seq<u64>) -> u64;

/// Relies on bevy_utils::FixedState::build_hasher, which constructs an
/// AHasher from compile-time constant keys: every fresh hasher starts in
/// the same state and has been fed nothing, so identities are reproducible.
#[verifier::external_body]
pub(crate) fn new_hasher() -> (h: bevy_utils::AHasher)
    ensures
        hasher_words(h) == Seq::<u64>::empty(),
{
    bevy_utils::FixedState.build_hasher()
}

/// Relies on Hasher::write_u64 for AHasher: it folds exactly this word into
/// the hasher's state.
#[verifier::external_body]
pub(crate) fn hasher_write_u64(h: &mut bevy_utils::AHasher, word: u64)
    ensures
        hasher_words(*final(h)) == hasher_words(*old(h)).push(word),
{
    h.write_u64(word);
}

/// Relies on Hasher::finish for AHasher: the digest is a function of the
/// keys (fixed, by `new_hasher`) and the words fed so far, and reading it
/// does not disturb the hasher.
#[verifier::external_body]
pub(crate) fn hasher_finish(h: &bevy_utils::AHasher) -> (r: u64)
    ensures
        r == ahash_of(hasher_words(*h)),
{
    h.finish()
}

} // verus!
