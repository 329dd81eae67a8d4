//! Rent schedules: what a space charges a visitor.

use crate::decimal::{decimal, push_decimal};
use vstd::prelude::*;

verus! {

/// What a station charges when all four stations are held.
pub const STATION_MAX: u128 = 200;

/// What a utility charges at the higher dice multiplier.
pub const UTILITY_MAX: u128 = 120;

/// What `visits` visits bring in at a rate, in decimal digits.
pub open spec fn takings(rate: nat, visits: nat) -> Seq<char> {
    decimal(rate * visits)
}

/// The rent schedule of a space.
#[derive(Clone, Copy, PartialEq, Eq, Structural, Debug)]
pub enum Rent {
    /// An ordinary property: the bare rate, the rates with one to four
    /// houses, and the rate with a hotel.
    Income { m: u128, h1: u128, h2: u128, h3: u128, h4: u128, ho: u128 },
    /// A station, charged by the number of stations held.
    Station,
    /// A utility, charged by a multiple of the dice.
    Utility,
    /// A space that charges nothing.
    NA,
}

impl Rent {
    /// The highest rate of the schedule.
    pub open spec fn spec_max(self) -> nat {
        match self {
            Rent::Income { ho, .. } => ho as nat,
            Rent::Station => 200,
            Rent::Utility => 120,
            Rent::NA => 0,
        }
    }

    /// The sum of the rates of the schedule.
    pub open spec fn tier_sum(self) -> nat {
        match self {
            Rent::Income { m, h1, h2, h3, h4, ho } => (m + h1 + h2 + h3 + h4 + ho) as nat,
            Rent::Station => 25 + 50 + 100 + 200,
            Rent::Utility => 4 * 8 + 10 * 8,
            Rent::NA => 0,
        }
    }

    /// The number of rates in the schedule.
    pub open spec fn tier_count(self) -> nat {
        match self {
            Rent::Income { .. } => 6,
            Rent::Station => 4,
            Rent::Utility => 2,
            Rent::NA => 0,
        }
    }

    /// The mean of the rates, rounded down; zero where there is no rate.
    pub open spec fn spec_avg(self) -> nat {
        if self.tier_count() == 0 {
            0
        } else {
            self.tier_sum() / self.tier_count()
        }
    }

    /// Whether every rate of the schedule, taken `visits` times, fits the
    /// machine integer it is counted in.
    pub open spec fn fits(self, visits: nat) -> bool {
        match self {
            Rent::Income { m, h1, h2, h3, h4, ho } => {
                &&& m * visits <= u128::MAX
                &&& h1 * visits <= u128::MAX
                &&& h2 * visits <= u128::MAX
                &&& h3 * visits <= u128::MAX
                &&& h4 * visits <= u128::MAX
                &&& ho * visits <= u128::MAX
            },
            Rent::Station => visits * 200 <= u128::MAX,
            Rent::Utility => visits * 120 <= u128::MAX,
            Rent::NA => true,
        }
    }

    /// What `visits` visits bring in at each rate of the schedule, as text:
    /// the amounts in decimal digits, from the lowest rate to the highest,
    /// with a slash between neighbours and a blank at either end. A space
    /// that charges nothing reads "NA".
    pub open spec fn spec_expected(self, visits: nat) -> Seq<char> {
        match self {
            Rent::Income { m, h1, h2, h3, h4, ho } => " "@ + takings(m as nat, visits) + " / "@
                + takings(h1 as nat, visits) + " / "@ + takings(h2 as nat, visits) + " / "@
                + takings(h3 as nat, visits) + " / "@ + takings(h4 as nat, visits) + " / "@
                + takings(ho as nat, visits) + " "@,
            Rent::Station => " "@ + takings(25, visits) + " / "@ + takings(50, visits) + " / "@
                + takings(100, visits) + " / "@ + takings(200, visits) + " "@,
            Rent::Utility => " "@ + takings(8, visits) + " / "@ + takings(120, visits) + " "@,
            Rent::NA => " NA "@,
        }
    }

    /// What `visits` visits bring in at each rate of the schedule, as text.
    pub fn expected(&self, visits: u128) -> (text: String)
        requires
            self.fits(visits as nat),
        ensures
            text@ == self.spec_expected(visits as nat),
    {
        match self {
            Rent::Income { m, h1, h2, h3, h4, ho } => {
                let mut text = String::from_str(" ");
                push_decimal(&mut text, *m * visits);
                text.append(" / ");
                push_decimal(&mut text, *h1 * visits);
                text.append(" / ");
                push_decimal(&mut text, *h2 * visits);
                text.append(" / ");
                push_decimal(&mut text, *h3 * visits);
                text.append(" / ");
                push_decimal(&mut text, *h4 * visits);
                text.append(" / ");
                push_decimal(&mut text, *ho * visits);
                text.append(" ");
                text
            },
            Rent::Station => {
                let mut text = String::from_str(" ");
                push_decimal(&mut text, visits * 25);
                text.append(" / ");
                push_decimal(&mut text, visits * 50);
                text.append(" / ");
                push_decimal(&mut text, visits * 100);
                text.append(" / ");
                push_decimal(&mut text, visits * 200);
                text.append(" ");
                text
            },
            Rent::Utility => {
                let mut text = String::from_str(" ");
                push_decimal(&mut text, visits * 8);
                text.append(" / ");
                push_decimal(&mut text, visits * 120);
                text.append(" ");
                text
            },
            Rent::NA => String::from_str(" NA "),
        }
    }

    /// The rate with every improvement made: the hotel rate of a property,
    /// the four-station rate of a station, the higher rate of a utility.
    pub fn max(&self) -> (top: u128)
        ensures
            top == self.spec_max(),
    {
        match self {
            Rent::Income { m: _, h1: _, h2: _, h3: _, h4: _, ho } => *ho,
            Rent::Station => STATION_MAX,
            Rent::Utility => UTILITY_MAX,
            Rent::NA => 0,
        }
    }

    /// The mean rate of the schedule, rounded down.
    pub fn avg(&self) -> (mean: u128)
        requires
            self.tier_sum() <= u128::MAX,
        ensures
            mean == self.spec_avg(),
    {
        match self {
            Rent::Income { m, h1, h2, h3, h4, ho } => (*m + *h1 + *h2 + *h3 + *h4 + *ho) / 6,
            Rent::Station => (25 + 50 + 100 + 200) / 4,
            Rent::Utility => ((4 * 8) + (10 * 8)) / 2,
            Rent::NA => 0,
        }
    }
}

} // verus!
