//! Entities that hide while the player looks at them, and the bananas that
//! a depleted bananite leaves behind.

use vstd::prelude::*;

verus! {

/// Moves from `init_pos` to `last_pos` while the player is not looking.
#[derive(Clone, Copy, PartialEq, Eq, Debug)]
pub struct Dodgy<P> {
    pub init_pos: P,
    pub last_pos: P,
    /// Go back to `init_pos` whenever the player looks.
    pub go_back: bool,
    /// Move even while the player looks.
    pub ignore_viewing: bool,
}

/// What happens to the movement timer of a dodgy element on a frame.
#[derive(Clone, Copy, PartialEq, Eq, Structural, Debug)]
pub enum DodgeTimer {
    /// The element freezes.
    Pause,
    /// The element freezes and starts over from `init_pos`.
    PauseAndRewind,
    /// The element keeps moving.
    Run,
}

impl<P: Copy> Dodgy<P> {
    /// The same element with start and end swapped.
    pub fn swapped(&self) -> (d: Self)
        ensures
            d == self.swap_spec(),
    {
        Dodgy {
            init_pos: self.last_pos,
            last_pos: self.init_pos,
            go_back: self.go_back,
            ignore_viewing: self.ignore_viewing,
        }
    }
}

impl<P> Dodgy<P> {
    /// The same element with start and end swapped.
    pub open spec fn swap_spec(self) -> Dodgy<P> {
        Dodgy {
            init_pos: self.last_pos,
            last_pos: self.init_pos,
            go_back: self.go_back,
            ignore_viewing: self.ignore_viewing,
        }
    }

    pub open spec fn timer_spec(&self, visible: bool) -> DodgeTimer {
        if visible && !self.ignore_viewing {
            if self.go_back {
                DodgeTimer::PauseAndRewind
            } else {
                DodgeTimer::Pause
            }
        } else {
            DodgeTimer::Run
        }
    }

    /// While the element is in view (and does not ignore being seen) it
    /// freezes, going back to the start if it does so; otherwise it moves.
    pub fn timer_command(&self, visible: bool) -> (c: DodgeTimer)
        ensures
            c == self.timer_spec(visible),
    {
        if visible && !self.ignore_viewing {
            if self.go_back {
                DodgeTimer::PauseAndRewind
            } else {
                DodgeTimer::Pause
            }
        } else {
            DodgeTimer::Run
        }
    }
}

/// Opaque random number generator of `fastrand`, carried through the logic.
#[verifier::external_type_specification]
#[verifier::external_body]
pub struct ExRng(fastrand::Rng);

/// Most bananas that one depleted bananite can leave.
pub const MAX_BANANAS: u8 = 4;

/// Fewest bananas that one depleted bananite leaves.
pub const MIN_BANANAS: u8 = 3;

/// Calls `fastrand::Rng::u8` with the half-open range `low..high`.
/// The crate's source draws a value in `[low, high)` and panics on an empty
/// range, so the range must be non-empty. Which value comes out depends on the
/// generator's state and is not stated.
#[verifier::external_body]
fn random_u8_in(rng: &mut fastrand::Rng, low: u8, high: u8) -> (r: u8)
    requires
        low < high,
    ensures
        low <= r < high,
{
    rng.u8(low..high)
}

/// How many bananas a depleted bananite spawns: a draw in
/// `MIN_BANANAS..MAX_BANANAS`.
pub fn banana_count(rng: &mut fastrand::Rng) -> (n: u8)
    ensures
        MIN_BANANAS <= n < MAX_BANANAS,
{
    random_u8_in(rng, MIN_BANANAS, MAX_BANANAS)
}

/// Swapping start and end twice gives the element back.
pub proof fn lemma_swap_twice<P>(d: Dodgy<P>)
    ensures
        d.swap_spec().swap_spec() == d,
{
}

} // verus!
