//! The fifteen groups into which the spaces fall: the colour sets, the
//! stations, the utilities, and the kinds of space that nobody can own.

use crate::road::Road;
use vstd::prelude::*;

verus! {

/// The number of groups.
pub const GROUP_COUNT: u8 = 15;

/// A group of spaces.
#[derive(Clone, Copy, PartialEq, Eq, Structural, Debug)]
pub enum BoardGroup {
    Brown,
    LightBlue,
    Pink,
    Orange,
    Red,
    Yellow,
    Green,
    DarkBlue,
    Utility,
    Station,
    CommunityChest,
    Chance,
    Tax,
    Jail,
    GoParking,
}

impl BoardGroup {
    /// The position of the group in the list of groups.
    pub open spec fn index(self) -> nat {
        match self {
            BoardGroup::Brown => 0,
            BoardGroup::LightBlue => 1,
            BoardGroup::Pink => 2,
            BoardGroup::Orange => 3,
            BoardGroup::Red => 4,
            BoardGroup::Yellow => 5,
            BoardGroup::Green => 6,
            BoardGroup::DarkBlue => 7,
            BoardGroup::Utility => 8,
            BoardGroup::Station => 9,
            BoardGroup::CommunityChest => 10,
            BoardGroup::Chance => 11,
            BoardGroup::Tax => 12,
            BoardGroup::Jail => 13,
            BoardGroup::GoParking => 14,
        }
    }

    /// The group at position `i`; a number that is no position names the last
    /// group.
    pub open spec fn at(i: int) -> BoardGroup {
        if i == 0 {
            BoardGroup::Brown
        } else if i == 1 {
            BoardGroup::LightBlue
        } else if i == 2 {
            BoardGroup::Pink
        } else if i == 3 {
            BoardGroup::Orange
        } else if i == 4 {
            BoardGroup::Red
        } else if i == 5 {
            BoardGroup::Yellow
        } else if i == 6 {
            BoardGroup::Green
        } else if i == 7 {
            BoardGroup::DarkBlue
        } else if i == 8 {
            BoardGroup::Utility
        } else if i == 9 {
            BoardGroup::Station
        } else if i == 10 {
            BoardGroup::CommunityChest
        } else if i == 11 {
            BoardGroup::Chance
        } else if i == 12 {
            BoardGroup::Tax
        } else if i == 13 {
            BoardGroup::Jail
        } else {
            BoardGroup::GoParking
        }
    }

    /// The group that a space belongs to.
    pub open spec fn of(r: Road) -> BoardGroup {
        match r {
            Road::Go => BoardGroup::GoParking,
            Road::OldKentRoad => BoardGroup::Brown,
            Road::CommunityChest1 => BoardGroup::CommunityChest,
            Road::WhiteChapelRoad => BoardGroup::Brown,
            Road::IncomeTax => BoardGroup::Tax,
            Road::KingsCrossStation => BoardGroup::Station,
            Road::TheAngelIslington => BoardGroup::LightBlue,
            Road::Chance1 => BoardGroup::Chance,
            Road::EustonRoad => BoardGroup::LightBlue,
            Road::PentonvilleRoad => BoardGroup::LightBlue,
            Road::Jail => BoardGroup::Jail,
            Road::PallMall => BoardGroup::Pink,
            Road::ElectricCompany => BoardGroup::Utility,
            Road::Whitehall => BoardGroup::Pink,
            Road::NorthumberlandAvenue => BoardGroup::Pink,
            Road::MaryleboneStation => BoardGroup::Station,
            Road::BowStreet => BoardGroup::Orange,
            Road::CommunityChest2 => BoardGroup::CommunityChest,
            Road::MarlboroughStreet => BoardGroup::Orange,
            Road::VineStreet => BoardGroup::Orange,
            Road::FreeParking => BoardGroup::GoParking,
            Road::Strand => BoardGroup::Red,
            Road::Chance2 => BoardGroup::Chance,
            Road::FleetStreet => BoardGroup::Red,
            Road::TrafalgarSquare => BoardGroup::Red,
            Road::FenchurchStStation => BoardGroup::Station,
            Road::LeicesterSquare => BoardGroup::Yellow,
            Road::CoventryStreet => BoardGroup::Yellow,
            Road::WaterWorks => BoardGroup::Utility,
            Road::Picadilly => BoardGroup::Yellow,
            Road::GotoJail => BoardGroup::Jail,
            Road::RegentStreet => BoardGroup::Green,
            Road::OxfordStreet => BoardGroup::Green,
            Road::CommunityChest3 => BoardGroup::CommunityChest,
            Road::BondStreet => BoardGroup::Green,
            Road::LiverpoolStStation => BoardGroup::Station,
            Road::Chance3 => BoardGroup::Chance,
            Road::ParkLane => BoardGroup::DarkBlue,
            Road::SuperTax => BoardGroup::Tax,
            Road::Mayfair => BoardGroup::DarkBlue,
        }
    }

    /// Whether the space belongs to this group.
    pub open spec fn holds(self, r: Road) -> bool {
        BoardGroup::of(r) == self
    }

    /// The spaces of the group, in board order.
    pub open spec fn members(self) -> Seq<Road> {
        match self {
            BoardGroup::Brown => seq![Road::OldKentRoad, Road::WhiteChapelRoad],
            BoardGroup::LightBlue => seq![Road::TheAngelIslington, Road::EustonRoad, Road::PentonvilleRoad],
            BoardGroup::Pink => seq![Road::PallMall, Road::Whitehall, Road::NorthumberlandAvenue],
            BoardGroup::Orange => seq![Road::BowStreet, Road::MarlboroughStreet, Road::VineStreet],
            BoardGroup::Red => seq![Road::Strand, Road::FleetStreet, Road::TrafalgarSquare],
            BoardGroup::Yellow => seq![Road::LeicesterSquare, Road::CoventryStreet, Road::Picadilly],
            BoardGroup::Green => seq![Road::RegentStreet, Road::OxfordStreet, Road::BondStreet],
            BoardGroup::DarkBlue => seq![Road::ParkLane, Road::Mayfair],
            BoardGroup::Utility => seq![Road::ElectricCompany, Road::WaterWorks],
            BoardGroup::Station => seq![Road::KingsCrossStation, Road::MaryleboneStation, Road::FenchurchStStation, Road::LiverpoolStStation],
            BoardGroup::CommunityChest => seq![Road::CommunityChest1, Road::CommunityChest2, Road::CommunityChest3],
            BoardGroup::Chance => seq![Road::Chance1, Road::Chance2, Road::Chance3],
            BoardGroup::Tax => seq![Road::IncomeTax, Road::SuperTax],
            BoardGroup::Jail => seq![Road::Jail, Road::GotoJail],
            BoardGroup::GoParking => seq![Road::Go, Road::FreeParking],
        }
    }

    /// The costs of the first `n` spaces of the board that belong to the
    /// group, added up.
    pub open spec fn cost_among(self, n: nat) -> nat
        decreases n,
    {
        if n == 0 {
            0
        } else {
            let r = Road::at(n - 1);
            self.cost_among((n - 1) as nat) + if self.holds(r) {
                r.spec_expenses()
            } else {
                0
            }
        }
    }

    /// What it costs to buy and build out every space of the group.
    pub open spec fn spec_expenses(self) -> nat {
        self.cost_among(40)
    }

    /// The name of the group.
    pub open spec fn name(self) -> Seq<char> {
        match self {
            BoardGroup::Brown => "Brown"@,
            BoardGroup::LightBlue => "LightBlue"@,
            BoardGroup::Pink => "Pink"@,
            BoardGroup::Orange => "Orange"@,
            BoardGroup::Red => "Red"@,
            BoardGroup::Yellow => "Yellow"@,
            BoardGroup::Green => "Green"@,
            BoardGroup::DarkBlue => "DarkBlue"@,
            BoardGroup::Utility => "Utility"@,
            BoardGroup::Station => "Station"@,
            BoardGroup::CommunityChest => "CommunityChest"@,
            BoardGroup::Chance => "Chance"@,
            BoardGroup::Tax => "Tax"@,
            BoardGroup::Jail => "Jail"@,
            BoardGroup::GoParking => "GoParking"@,
        }
    }

    /// The position of the group as a machine integer.
    pub fn ordinal(self) -> (n: u8)
        ensures
            n == self.index(),
            n < GROUP_COUNT,
    {
        match self {
            BoardGroup::Brown => 0,
            BoardGroup::LightBlue => 1,
            BoardGroup::Pink => 2,
            BoardGroup::Orange => 3,
            BoardGroup::Red => 4,
            BoardGroup::Yellow => 5,
            BoardGroup::Green => 6,
            BoardGroup::DarkBlue => 7,
            BoardGroup::Utility => 8,
            BoardGroup::Station => 9,
            BoardGroup::CommunityChest => 10,
            BoardGroup::Chance => 11,
            BoardGroup::Tax => 12,
            BoardGroup::Jail => 13,
            BoardGroup::GoParking => 14,
        }
    }

    /// The group at position `n`, where there is one.
    pub fn from_u8(n: u8) -> (group: Option<BoardGroup>)
        ensures
            group is Some <==> n < GROUP_COUNT,
            group matches Some(g) ==> g == BoardGroup::at(n as int) && g.index() == n,
    {
        match n {
            0 => Some(BoardGroup::Brown),
            1 => Some(BoardGroup::LightBlue),
            2 => Some(BoardGroup::Pink),
            3 => Some(BoardGroup::Orange),
            4 => Some(BoardGroup::Red),
            5 => Some(BoardGroup::Yellow),
            6 => Some(BoardGroup::Green),
            7 => Some(BoardGroup::DarkBlue),
            8 => Some(BoardGroup::Utility),
            9 => Some(BoardGroup::Station),
            10 => Some(BoardGroup::CommunityChest),
            11 => Some(BoardGroup::Chance),
            12 => Some(BoardGroup::Tax),
            13 => Some(BoardGroup::Jail),
            14 => Some(BoardGroup::GoParking),
            _ => None,
        }
    }

    /// The group at position `n`, where there is one.
    pub fn from_usize(n: usize) -> (group: Option<BoardGroup>)
        ensures
            group is Some <==> n < GROUP_COUNT,
            group matches Some(g) ==> g == BoardGroup::at(n as int) && g.index() == n,
    {
        if n < 15 {
            BoardGroup::from_u8(n as u8)
        } else {
            None
        }
    }

    /// The group that a space belongs to.
    pub fn classify_road(r: Road) -> (group: BoardGroup)
        ensures
            group == BoardGroup::of(r),
            group.holds(r),
    {
        match r {
            Road::Go => BoardGroup::GoParking,
            Road::OldKentRoad => BoardGroup::Brown,
            Road::CommunityChest1 => BoardGroup::CommunityChest,
            Road::WhiteChapelRoad => BoardGroup::Brown,
            Road::IncomeTax => BoardGroup::Tax,
            Road::KingsCrossStation => BoardGroup::Station,
            Road::TheAngelIslington => BoardGroup::LightBlue,
            Road::Chance1 => BoardGroup::Chance,
            Road::EustonRoad => BoardGroup::LightBlue,
            Road::PentonvilleRoad => BoardGroup::LightBlue,
            Road::Jail => BoardGroup::Jail,
            Road::PallMall => BoardGroup::Pink,
            Road::ElectricCompany => BoardGroup::Utility,
            Road::Whitehall => BoardGroup::Pink,
            Road::NorthumberlandAvenue => BoardGroup::Pink,
            Road::MaryleboneStation => BoardGroup::Station,
            Road::BowStreet => BoardGroup::Orange,
            Road::CommunityChest2 => BoardGroup::CommunityChest,
            Road::MarlboroughStreet => BoardGroup::Orange,
            Road::VineStreet => BoardGroup::Orange,
            Road::FreeParking => BoardGroup::GoParking,
            Road::Strand => BoardGroup::Red,
            Road::Chance2 => BoardGroup::Chance,
            Road::FleetStreet => BoardGroup::Red,
            Road::TrafalgarSquare => BoardGroup::Red,
            Road::FenchurchStStation => BoardGroup::Station,
            Road::LeicesterSquare => BoardGroup::Yellow,
            Road::CoventryStreet => BoardGroup::Yellow,
            Road::WaterWorks => BoardGroup::Utility,
            Road::Picadilly => BoardGroup::Yellow,
            Road::GotoJail => BoardGroup::Jail,
            Road::RegentStreet => BoardGroup::Green,
            Road::OxfordStreet => BoardGroup::Green,
            Road::CommunityChest3 => BoardGroup::CommunityChest,
            Road::BondStreet => BoardGroup::Green,
            Road::LiverpoolStStation => BoardGroup::Station,
            Road::Chance3 => BoardGroup::Chance,
            Road::ParkLane => BoardGroup::DarkBlue,
            Road::SuperTax => BoardGroup::Tax,
            Road::Mayfair => BoardGroup::DarkBlue,
        }
    }

    /// The name of the group.
    pub fn as_str(&self) -> (s: &'static str)
        ensures
            s@ == self.name(),
    {
        match self {
            BoardGroup::Brown => "Brown",
            BoardGroup::LightBlue => "LightBlue",
            BoardGroup::Pink => "Pink",
            BoardGroup::Orange => "Orange",
            BoardGroup::Red => "Red",
            BoardGroup::Yellow => "Yellow",
            BoardGroup::Green => "Green",
            BoardGroup::DarkBlue => "DarkBlue",
            BoardGroup::Utility => "Utility",
            BoardGroup::Station => "Station",
            BoardGroup::CommunityChest => "CommunityChest",
            BoardGroup::Chance => "Chance",
            BoardGroup::Tax => "Tax",
            BoardGroup::Jail => "Jail",
            BoardGroup::GoParking => "GoParking",
        }
    }

    /// What it costs to buy and build out every space of the group. A group
    /// whose spaces nobody can own costs nothing.
    pub fn expenses(&self) -> (cost: u128)
        ensures
            cost == self.spec_expenses(),
    {
        proof {
            lemma_group_costs(*self);
        }
        match self {
            BoardGroup::Brown => Road::OldKentRoad.expenses() + Road::WhiteChapelRoad.expenses(),
            BoardGroup::LightBlue => {
                Road::TheAngelIslington.expenses()
                    + Road::EustonRoad.expenses()
                    + Road::PentonvilleRoad.expenses()
            },
            BoardGroup::Pink => {
                Road::PallMall.expenses()
                    + Road::Whitehall.expenses()
                    + Road::NorthumberlandAvenue.expenses()
            },
            BoardGroup::Orange => {
                Road::BowStreet.expenses()
                    + Road::MarlboroughStreet.expenses()
                    + Road::VineStreet.expenses()
            },
            BoardGroup::Red => {
                Road::Strand.expenses()
                    + Road::FleetStreet.expenses()
                    + Road::TrafalgarSquare.expenses()
            },
            BoardGroup::Yellow => {
                Road::LeicesterSquare.expenses()
                    + Road::CoventryStreet.expenses()
                    + Road::Picadilly.expenses()
            },
            BoardGroup::Green => {
                Road::RegentStreet.expenses()
                    + Road::OxfordStreet.expenses()
                    + Road::BondStreet.expenses()
            },
            BoardGroup::DarkBlue => Road::ParkLane.expenses() + Road::Mayfair.expenses(),
            BoardGroup::Utility => Road::ElectricCompany.expenses() + Road::WaterWorks.expenses(),
            BoardGroup::Station => {
                Road::KingsCrossStation.expenses()
                    + Road::MaryleboneStation.expenses()
                    + Road::FenchurchStStation.expenses()
                    + Road::LiverpoolStStation.expenses()
            },
            BoardGroup::CommunityChest => 0,
            BoardGroup::Chance => 0,
            BoardGroup::Tax => 0,
            BoardGroup::Jail => 0,
            BoardGroup::GoParking => 0,
        }
    }
}

/// The cost of each group, worked out from the costs of its spaces.
pub proof fn lemma_group_costs(g: BoardGroup)
    ensures
        g.spec_expenses() == match g {
            BoardGroup::Brown => 420nat,
            BoardGroup::LightBlue => 1070nat,
            BoardGroup::Pink => 1940nat,
            BoardGroup::Orange => 2060nat,
            BoardGroup::Red => 2930nat,
            BoardGroup::Yellow => 2890nat,
            BoardGroup::Green => 3220nat,
            BoardGroup::DarkBlue => 2750nat,
            BoardGroup::Utility => 300nat,
            BoardGroup::Station => 800nat,
            BoardGroup::CommunityChest => 0nat,
            BoardGroup::Chance => 0nat,
            BoardGroup::Tax => 0nat,
            BoardGroup::Jail => 0nat,
            BoardGroup::GoParking => 0nat,
        },
{
    reveal_with_fuel(BoardGroup::cost_among, 9);
    match g {
        BoardGroup::Brown => {
            assert(g.cost_among(8) == 420);
            assert(g.cost_among(16) == 420);
            assert(g.cost_among(24) == 420);
            assert(g.cost_among(32) == 420);
            assert(g.cost_among(40) == 420);
        },
        BoardGroup::LightBlue => {
            assert(g.cost_among(8) == 350);
            assert(g.cost_among(16) == 1070);
            assert(g.cost_among(24) == 1070);
            assert(g.cost_among(32) == 1070);
            assert(g.cost_among(40) == 1070);
        },
        BoardGroup::Pink => {
            assert(g.cost_among(8) == 0);
            assert(g.cost_among(16) == 1940);
            assert(g.cost_among(24) == 1940);
            assert(g.cost_among(32) == 1940);
            assert(g.cost_among(40) == 1940);
        },
        BoardGroup::Orange => {
            assert(g.cost_among(8) == 0);
            assert(g.cost_among(16) == 0);
            assert(g.cost_among(24) == 2060);
            assert(g.cost_among(32) == 2060);
            assert(g.cost_among(40) == 2060);
        },
        BoardGroup::Red => {
            assert(g.cost_among(8) == 0);
            assert(g.cost_among(16) == 0);
            assert(g.cost_among(24) == 1940);
            assert(g.cost_among(32) == 2930);
            assert(g.cost_among(40) == 2930);
        },
        BoardGroup::Yellow => {
            assert(g.cost_among(8) == 0);
            assert(g.cost_among(16) == 0);
            assert(g.cost_among(24) == 0);
            assert(g.cost_among(32) == 2890);
            assert(g.cost_among(40) == 2890);
        },
        BoardGroup::Green => {
            assert(g.cost_among(8) == 0);
            assert(g.cost_among(16) == 0);
            assert(g.cost_among(24) == 0);
            assert(g.cost_among(32) == 1050);
            assert(g.cost_among(40) == 3220);
        },
        BoardGroup::DarkBlue => {
            assert(g.cost_among(8) == 0);
            assert(g.cost_among(16) == 0);
            assert(g.cost_among(24) == 0);
            assert(g.cost_among(32) == 0);
            assert(g.cost_among(40) == 2750);
        },
        BoardGroup::Utility => {
            assert(g.cost_among(8) == 0);
            assert(g.cost_among(16) == 150);
            assert(g.cost_among(24) == 150);
            assert(g.cost_among(32) == 300);
            assert(g.cost_among(40) == 300);
        },
        BoardGroup::Station => {
            assert(g.cost_among(8) == 200);
            assert(g.cost_among(16) == 400);
            assert(g.cost_among(24) == 400);
            assert(g.cost_among(32) == 600);
            assert(g.cost_among(40) == 800);
        },
        BoardGroup::CommunityChest => {
            assert(g.cost_among(8) == 0);
            assert(g.cost_among(16) == 0);
            assert(g.cost_among(24) == 0);
            assert(g.cost_among(32) == 0);
            assert(g.cost_among(40) == 0);
        },
        BoardGroup::Chance => {
            assert(g.cost_among(8) == 0);
            assert(g.cost_among(16) == 0);
            assert(g.cost_among(24) == 0);
            assert(g.cost_among(32) == 0);
            assert(g.cost_among(40) == 0);
        },
        BoardGroup::Tax => {
            assert(g.cost_among(8) == 0);
            assert(g.cost_among(16) == 0);
            assert(g.cost_among(24) == 0);
            assert(g.cost_among(32) == 0);
            assert(g.cost_among(40) == 0);
        },
        BoardGroup::Jail => {
            assert(g.cost_among(8) == 0);
            assert(g.cost_among(16) == 0);
            assert(g.cost_among(24) == 0);
            assert(g.cost_among(32) == 0);
            assert(g.cost_among(40) == 0);
        },
        BoardGroup::GoParking => {
            assert(g.cost_among(8) == 0);
            assert(g.cost_among(16) == 0);
            assert(g.cost_among(24) == 0);
            assert(g.cost_among(32) == 0);
            assert(g.cost_among(40) == 0);
        },
    }
}

/// The number of spaces in the first `n` groups, added up.
pub open spec fn census(n: nat) -> nat
    decreases n,
{
    if n == 0 {
        0
    } else {
        census((n - 1) as nat) + BoardGroup::at(n - 1).members().len()
    }
}

/// A group lists exactly the spaces that belong to it, each once.
pub proof fn lemma_members_are_the_group(g: BoardGroup)
    ensures
        forall|r: Road| g.members().contains(r) <==> g.holds(r),
        g.members().no_duplicates(),
{
    let m = g.members();
    assert forall|r: Road| g.holds(r) implies m.contains(r) by {
        assert(m[0] == r || (m.len() > 1 && m[1] == r) || (m.len() > 2 && m[2] == r) || (m.len()
            > 3 && m[3] == r));
    }
    assert forall|r: Road| m.contains(r) implies g.holds(r) by {
        let k = choose|k: int| 0 <= k < m.len() && m[k] == r;
        assert(k == 0 || k == 1 || k == 2 || k == 3);
    }
}

/// The groups part the board between them: every space stands in the list of
/// its own group and in no other, no list names a space twice, and the
/// fifteen lists together name forty spaces.
pub proof fn lemma_groups_partition_board()
    ensures
        forall|r: Road| #[trigger] BoardGroup::of(r).members().contains(r),
        forall|r: Road, g: BoardGroup| #[trigger]
            g.members().contains(r) ==> g == BoardGroup::of(r),
        forall|g: BoardGroup| #[trigger] g.members().no_duplicates(),
        forall|g: BoardGroup| #[trigger] g.members().len() > 0,
        census(15) == 40,
{
    assert forall|r: Road| #[trigger] BoardGroup::of(r).members().contains(r) by {
        lemma_members_are_the_group(BoardGroup::of(r));
    }
    assert forall|r: Road, g: BoardGroup| #[trigger]
        g.members().contains(r) implies g == BoardGroup::of(r) by {
        lemma_members_are_the_group(g);
    }
    assert forall|g: BoardGroup| #[trigger] g.members().no_duplicates() by {
        lemma_members_are_the_group(g);
    }
    reveal_with_fuel(census, 16);
}

/// Each group stands at its own position, and the positions are those below
/// 15: position and group determine one another.
pub proof fn lemma_group_positions()
    ensures
        forall|r: BoardGroup| #[trigger] r.index() < 15 && BoardGroup::at(r.index() as int) == r,
        forall|i: int| 0 <= i < 15 ==> (#[trigger] BoardGroup::at(i)).index() == i,
{
}

} // verus!
