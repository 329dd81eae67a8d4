//! The two dice that drive every move, and the random source behind them.

use rand::rngs::ThreadRng;
use rand::Rng;
use vstd::prelude::*;

verus! {

/// The thread-local generator of `rand`. Nothing is known of its state.
#[verifier::external_type_specification]
#[verifier::external_body]
pub struct ExThreadRng(ThreadRng);

/// Calls `rand::thread_rng`, which hands out the generator of the current
/// thread. Nothing is claimed of the generator. The call aborts if the
/// operating system cannot seed it.
#[verifier::external_body]
pub(crate) fn system_rng() -> (rng: ThreadRng) {
    rand::thread_rng()
}

/// Calls `Rng::gen_range` on the generator with the two bounds: a draw from
/// the half-open range that starts at `low` and ends before `high`. The call
/// panics on an empty range, which the precondition rules out. Only the range
/// is claimed; which value comes back is left open, and two calls may differ.
#[verifier::external_body]
pub(crate) fn draw_between(rng: &mut ThreadRng, low: u8, high: u8) -> (r: u8)
    requires
        low < high,
    ensures
        low <= r < high,
{
    rng.gen_range(low, high)
}

/// One face of a six-sided die.
#[derive(Clone, Copy, PartialEq, Eq, Structural, Debug)]
pub enum DieRoll {
    One,
    Two,
    Three,
    Four,
    Five,
    Six,
}

impl DieRoll {
    /// The number of pips on the face.
    pub open spec fn pips(self) -> nat {
        match self {
            DieRoll::One => 1,
            DieRoll::Two => 2,
            DieRoll::Three => 3,
            DieRoll::Four => 4,
            DieRoll::Five => 5,
            DieRoll::Six => 6,
        }
    }

    /// The number of pips on the face, as a machine integer.
    pub fn value(self) -> (v: u8)
        ensures
            v == self.pips(),
            1 <= v <= 6,
    {
        match self {
            DieRoll::One => 1,
            DieRoll::Two => 2,
            DieRoll::Three => 3,
            DieRoll::Four => 4,
            DieRoll::Five => 5,
            DieRoll::Six => 6,
        }
    }

    /// The face with `n` pips, where there is one.
    pub fn from_u8(n: u8) -> (face: Option<DieRoll>)
        ensures
            face is Some <==> 1 <= n <= 6,
            face matches Some(d) ==> d.pips() == n,
    {
        match n {
            1 => Some(DieRoll::One),
            2 => Some(DieRoll::Two),
            3 => Some(DieRoll::Three),
            4 => Some(DieRoll::Four),
            5 => Some(DieRoll::Five),
            6 => Some(DieRoll::Six),
            _ => None,
        }
    }

    /// Throws one die with the given generator. Every face may come up, so
    /// nothing beyond the type is promised of the result.
    pub fn roll(rng: &mut ThreadRng) -> (face: DieRoll)
        ensures
            1 <= face.pips() <= 6,
    {
        let r: u8 = draw_between(rng, 1, 7);
        DieRoll::from_u8(r).unwrap()
    }
}

/// The two dice of one turn.
#[derive(Clone, Copy, PartialEq, Eq, Structural, Debug)]
pub struct RollPair {
    pub r1: DieRoll,
    pub r2: DieRoll,
}

impl RollPair {
    /// The number of spaces the pair moves a token: the pips of both dice.
    pub open spec fn steps(self) -> nat {
        self.r1.pips() + self.r2.pips()
    }

    pub fn new(r1: DieRoll, r2: DieRoll) -> (pair: RollPair)
        ensures
            pair == (RollPair { r1, r2 }),
    {
        RollPair { r1: r1, r2: r2 }
    }

    /// The sum of the two dice.
    pub fn eval(self) -> (step: u8)
        ensures
            step == self.steps(),
            2 <= step <= 12,
    {
        self.r1.value() + self.r2.value()
    }
}

} // verus!
