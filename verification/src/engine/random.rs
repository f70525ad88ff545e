//! The random source the engine draws from, with a record of every range it
//! was asked to draw from.
use vstd::prelude::*;
use rand::Rng;

verus! {

/// The ranges asked of the random source so far, oldest first. Only a draw
/// adds to it.
pub struct RandomDraws {
    requests: Ghost<Seq<(u64, u64)>>,
}

impl View for RandomDraws {
    type V = Seq<(u64, u64)>;

    closed spec fn view(&self) -> Seq<(u64, u64)> {
        self.requests@
    }
}

impl RandomDraws {
    /// A record with no draws yet.
    pub fn new() -> (draws: Self)
        ensures
            draws@ == Seq::<(u64, u64)>::empty(),
    {
        RandomDraws { requests: Ghost(Seq::empty()) }
    }
}

/// Calls `rand::Rng::gen_range(low..high)` on the thread-local generator
/// from `rand::thread_rng`, and records the range asked for. The claim about
/// the value is only the one the documentation makes: it lies in the
/// half-open range; which value comes is left open. An empty range would
/// panic, so it is excluded.
#[verifier::external_body]
pub(crate) fn random_in_range(low: u64, high: u64, draws: &mut RandomDraws) -> (value: u64)
    requires
        low < high,
    ensures
        low <= value < high,
        final(draws)@ == old(draws)@.push((low, high)),
{
    rand::thread_rng().gen_range(low..high)
}

} // verus!
