use rand::seq::SliceRandom;
use rand::Rng;
use vstd::prelude::*;

verus! {

/// Relies on rand's `SliceRandom::choose` for slices: `None` exactly when the
/// slice is empty, otherwise a reference to one of its elements.
#[verifier::external_body]
pub(crate) fn choose_from<T>(v: &[T]) -> (r: Option<&T>)
    ensures
        r is None <==> v@.len() == 0,
        r matches Some(x) ==> v@.contains(*x),
{
    v.choose(&mut rand::thread_rng())
}

/// Relies on rand's `Rng::gen_range` over an inclusive range: a value within
/// the bounds. It panics on an empty range, which `requires` rules out.
#[verifier::external_body]
pub(crate) fn draw_between(low: u8, high: u8) -> (r: u8)
    requires
        low <= high,
    ensures
        low <= r <= high,
{
    rand::thread_rng().gen_range(low..=high)
}

/// Relies on rand's `Rng::gen` for `bool`: `true` or `false`, each with
/// probability one half. Nothing is promised of the value.
#[verifier::external_body]
pub(crate) fn flip_coin() -> bool {
    rand::thread_rng().gen::<bool>()
}

} // verus!
