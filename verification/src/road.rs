//! The forty spaces of the board, in the order a token passes them.

use crate::dice::RollPair;
use crate::rent::Rent;
use vstd::prelude::*;

verus! {

/// The number of spaces on the board.
pub const BOARD_SIZE: u8 = 40;

/// A space of the board. The variants stand in board order, so that the
/// first is the space a game starts on.
#[derive(Clone, Copy, PartialEq, Eq, Structural, Debug)]
pub enum Road {
    Go,
    OldKentRoad,
    CommunityChest1,
    WhiteChapelRoad,
    IncomeTax,
    KingsCrossStation,
    TheAngelIslington,
    Chance1,
    EustonRoad,
    PentonvilleRoad,
    Jail,
    PallMall,
    ElectricCompany,
    Whitehall,
    NorthumberlandAvenue,
    MaryleboneStation,
    BowStreet,
    CommunityChest2,
    MarlboroughStreet,
    VineStreet,
    FreeParking,
    Strand,
    Chance2,
    FleetStreet,
    TrafalgarSquare,
    FenchurchStStation,
    LeicesterSquare,
    CoventryStreet,
    WaterWorks,
    Picadilly,
    GotoJail,
    RegentStreet,
    OxfordStreet,
    CommunityChest3,
    BondStreet,
    LiverpoolStStation,
    Chance3,
    ParkLane,
    SuperTax,
    Mayfair,
}

impl Road {
    /// The position of the space on the board, counted from the start.
    pub open spec fn index(self) -> nat {
        match self {
            Road::Go => 0,
            Road::OldKentRoad => 1,
            Road::CommunityChest1 => 2,
            Road::WhiteChapelRoad => 3,
            Road::IncomeTax => 4,
            Road::KingsCrossStation => 5,
            Road::TheAngelIslington => 6,
            Road::Chance1 => 7,
            Road::EustonRoad => 8,
            Road::PentonvilleRoad => 9,
            Road::Jail => 10,
            Road::PallMall => 11,
            Road::ElectricCompany => 12,
            Road::Whitehall => 13,
            Road::NorthumberlandAvenue => 14,
            Road::MaryleboneStation => 15,
            Road::BowStreet => 16,
            Road::CommunityChest2 => 17,
            Road::MarlboroughStreet => 18,
            Road::VineStreet => 19,
            Road::FreeParking => 20,
            Road::Strand => 21,
            Road::Chance2 => 22,
            Road::FleetStreet => 23,
            Road::TrafalgarSquare => 24,
            Road::FenchurchStStation => 25,
            Road::LeicesterSquare => 26,
            Road::CoventryStreet => 27,
            Road::WaterWorks => 28,
            Road::Picadilly => 29,
            Road::GotoJail => 30,
            Road::RegentStreet => 31,
            Road::OxfordStreet => 32,
            Road::CommunityChest3 => 33,
            Road::BondStreet => 34,
            Road::LiverpoolStStation => 35,
            Road::Chance3 => 36,
            Road::ParkLane => 37,
            Road::SuperTax => 38,
            Road::Mayfair => 39,
        }
    }

    /// The space at position `i`; a number that is no position names the last
    /// space.
    pub open spec fn at(i: int) -> Road {
        if i == 0 {
            Road::Go
        } else if i == 1 {
            Road::OldKentRoad
        } else if i == 2 {
            Road::CommunityChest1
        } else if i == 3 {
            Road::WhiteChapelRoad
        } else if i == 4 {
            Road::IncomeTax
        } else if i == 5 {
            Road::KingsCrossStation
        } else if i == 6 {
            Road::TheAngelIslington
        } else if i == 7 {
            Road::Chance1
        } else if i == 8 {
            Road::EustonRoad
        } else if i == 9 {
            Road::PentonvilleRoad
        } else if i == 10 {
            Road::Jail
        } else if i == 11 {
            Road::PallMall
        } else if i == 12 {
            Road::ElectricCompany
        } else if i == 13 {
            Road::Whitehall
        } else if i == 14 {
            Road::NorthumberlandAvenue
        } else if i == 15 {
            Road::MaryleboneStation
        } else if i == 16 {
            Road::BowStreet
        } else if i == 17 {
            Road::CommunityChest2
        } else if i == 18 {
            Road::MarlboroughStreet
        } else if i == 19 {
            Road::VineStreet
        } else if i == 20 {
            Road::FreeParking
        } else if i == 21 {
            Road::Strand
        } else if i == 22 {
            Road::Chance2
        } else if i == 23 {
            Road::FleetStreet
        } else if i == 24 {
            Road::TrafalgarSquare
        } else if i == 25 {
            Road::FenchurchStStation
        } else if i == 26 {
            Road::LeicesterSquare
        } else if i == 27 {
            Road::CoventryStreet
        } else if i == 28 {
            Road::WaterWorks
        } else if i == 29 {
            Road::Picadilly
        } else if i == 30 {
            Road::GotoJail
        } else if i == 31 {
            Road::RegentStreet
        } else if i == 32 {
            Road::OxfordStreet
        } else if i == 33 {
            Road::CommunityChest3
        } else if i == 34 {
            Road::BondStreet
        } else if i == 35 {
            Road::LiverpoolStStation
        } else if i == 36 {
            Road::Chance3
        } else if i == 37 {
            Road::ParkLane
        } else if i == 38 {
            Road::SuperTax
        } else {
            Road::Mayfair
        }
    }

    /// The space a token leaves from: the jail for a token that was sent
    /// there, else the space it stands on.
    pub open spec fn departure(self) -> Road {
        if self == Road::GotoJail {
            Road::Jail
        } else {
            self
        }
    }

    /// The space reached by moving `step` spaces onward, round the board.
    pub open spec fn spec_advance(self, step: nat) -> Road {
        Road::at(((self.departure().index() + step) % 40) as int)
    }

    /// The name of the space.
    pub open spec fn name(self) -> Seq<char> {
        match self {
            Road::Go => "Go"@,
            Road::OldKentRoad => "OldKentRoad"@,
            Road::CommunityChest1 => "CommunityChest1"@,
            Road::WhiteChapelRoad => "WhiteChapelRoad"@,
            Road::IncomeTax => "IncomeTax"@,
            Road::KingsCrossStation => "KingsCrossStation"@,
            Road::TheAngelIslington => "TheAngelIslington"@,
            Road::Chance1 => "Chance1"@,
            Road::EustonRoad => "EustonRoad"@,
            Road::PentonvilleRoad => "PentonvilleRoad"@,
            Road::Jail => "Jail"@,
            Road::PallMall => "PallMall"@,
            Road::ElectricCompany => "ElectricCompany"@,
            Road::Whitehall => "Whitehall"@,
            Road::NorthumberlandAvenue => "NorthumberlandAvenue"@,
            Road::MaryleboneStation => "MaryleboneStation"@,
            Road::BowStreet => "BowStreet"@,
            Road::CommunityChest2 => "CommunityChest2"@,
            Road::MarlboroughStreet => "MarlboroughStreet"@,
            Road::VineStreet => "VineStreet"@,
            Road::FreeParking => "FreeParking"@,
            Road::Strand => "Strand"@,
            Road::Chance2 => "Chance2"@,
            Road::FleetStreet => "FleetStreet"@,
            Road::TrafalgarSquare => "TrafalgarSquare"@,
            Road::FenchurchStStation => "FenchurchStStation"@,
            Road::LeicesterSquare => "LeicesterSquare"@,
            Road::CoventryStreet => "CoventryStreet"@,
            Road::WaterWorks => "WaterWorks"@,
            Road::Picadilly => "Picadilly"@,
            Road::GotoJail => "GotoJail"@,
            Road::RegentStreet => "RegentStreet"@,
            Road::OxfordStreet => "OxfordStreet"@,
            Road::CommunityChest3 => "CommunityChest3"@,
            Road::BondStreet => "BondStreet"@,
            Road::LiverpoolStStation => "LiverpoolStStation"@,
            Road::Chance3 => "Chance3"@,
            Road::ParkLane => "ParkLane"@,
            Road::SuperTax => "SuperTax"@,
            Road::Mayfair => "Mayfair"@,
        }
    }

    /// The rent schedule of the space.
    pub open spec fn spec_rent(self) -> Rent {
        match self {
            Road::Go => Rent::NA,
            Road::OldKentRoad => Rent::Income { m: 2, h1: 10, h2: 30, h3: 90, h4: 160, ho: 250 },
            Road::CommunityChest1 => Rent::NA,
            Road::WhiteChapelRoad => Rent::Income { m: 4, h1: 20, h2: 60, h3: 180, h4: 360, ho: 450 },
            Road::IncomeTax => Rent::NA,
            Road::KingsCrossStation => Rent::Station,
            Road::TheAngelIslington => Rent::Income { m: 6, h1: 30, h2: 90, h3: 270, h4: 400, ho: 550 },
            Road::Chance1 => Rent::NA,
            Road::EustonRoad => Rent::Income { m: 6, h1: 30, h2: 90, h3: 270, h4: 400, ho: 550 },
            Road::PentonvilleRoad => Rent::Income { m: 8, h1: 40, h2: 100, h3: 300, h4: 450, ho: 600 },
            Road::Jail => Rent::NA,
            Road::PallMall => Rent::Income { m: 10, h1: 50, h2: 150, h3: 450, h4: 625, ho: 750 },
            Road::ElectricCompany => Rent::Utility,
            Road::Whitehall => Rent::Income { m: 10, h1: 50, h2: 150, h3: 450, h4: 625, ho: 750 },
            Road::NorthumberlandAvenue => Rent::Income { m: 12, h1: 60, h2: 180, h3: 500, h4: 700, ho: 900 },
            Road::MaryleboneStation => Rent::Station,
            Road::BowStreet => Rent::Income { m: 14, h1: 70, h2: 200, h3: 550, h4: 750, ho: 950 },
            Road::CommunityChest2 => Rent::NA,
            Road::MarlboroughStreet => Rent::Income { m: 14, h1: 70, h2: 200, h3: 550, h4: 750, ho: 950 },
            Road::VineStreet => Rent::Income { m: 16, h1: 80, h2: 220, h3: 600, h4: 800, ho: 1000 },
            Road::FreeParking => Rent::NA,
            Road::Strand => Rent::Income { m: 18, h1: 90, h2: 250, h3: 700, h4: 875, ho: 1050 },
            Road::Chance2 => Rent::NA,
            Road::FleetStreet => Rent::Income { m: 18, h1: 90, h2: 250, h3: 700, h4: 875, ho: 1050 },
            Road::TrafalgarSquare => Rent::Income { m: 20, h1: 100, h2: 300, h3: 750, h4: 925, ho: 1100 },
            Road::FenchurchStStation => Rent::Station,
            Road::LeicesterSquare => Rent::Income { m: 22, h1: 110, h2: 330, h3: 800, h4: 975, ho: 1150 },
            Road::CoventryStreet => Rent::Income { m: 22, h1: 110, h2: 330, h3: 800, h4: 975, ho: 1150 },
            Road::WaterWorks => Rent::Utility,
            Road::Picadilly => Rent::Income { m: 22, h1: 120, h2: 360, h3: 850, h4: 1025, ho: 1200 },
            Road::GotoJail => Rent::NA,
            Road::RegentStreet => Rent::Income { m: 26, h1: 130, h2: 390, h3: 900, h4: 1100, ho: 1275 },
            Road::OxfordStreet => Rent::Income { m: 26, h1: 130, h2: 390, h3: 900, h4: 1100, ho: 1275 },
            Road::CommunityChest3 => Rent::NA,
            Road::BondStreet => Rent::Income { m: 28, h1: 150, h2: 450, h3: 1000, h4: 1200, ho: 1400 },
            Road::LiverpoolStStation => Rent::Station,
            Road::Chance3 => Rent::NA,
            Road::ParkLane => Rent::Income { m: 35, h1: 175, h2: 500, h3: 1100, h4: 1300, ho: 1500 },
            Road::SuperTax => Rent::NA,
            Road::Mayfair => Rent::Income { m: 50, h1: 200, h2: 600, h3: 1400, h4: 1700, ho: 2000 },
        }
    }

    /// What it costs to buy the space and build it out: for a property its
    /// price, four houses and a hotel; for a station or a utility its price.
    pub open spec fn spec_expenses(self) -> nat {
        match self {
            Road::Go => 0,
            Road::OldKentRoad => 210,
            Road::CommunityChest1 => 0,
            Road::WhiteChapelRoad => 210,
            Road::IncomeTax => 0,
            Road::KingsCrossStation => 200,
            Road::TheAngelIslington => 350,
            Road::Chance1 => 0,
            Road::EustonRoad => 350,
            Road::PentonvilleRoad => 370,
            Road::Jail => 0,
            Road::PallMall => 640,
            Road::ElectricCompany => 150,
            Road::Whitehall => 640,
            Road::NorthumberlandAvenue => 660,
            Road::MaryleboneStation => 200,
            Road::BowStreet => 680,
            Road::CommunityChest2 => 0,
            Road::MarlboroughStreet => 680,
            Road::VineStreet => 700,
            Road::FreeParking => 0,
            Road::Strand => 970,
            Road::Chance2 => 0,
            Road::FleetStreet => 970,
            Road::TrafalgarSquare => 990,
            Road::FenchurchStStation => 200,
            Road::LeicesterSquare => 1010,
            Road::CoventryStreet => 900,
            Road::WaterWorks => 150,
            Road::Picadilly => 980,
            Road::GotoJail => 0,
            Road::RegentStreet => 1050,
            Road::OxfordStreet => 1050,
            Road::CommunityChest3 => 0,
            Road::BondStreet => 1120,
            Road::LiverpoolStStation => 200,
            Road::Chance3 => 0,
            Road::ParkLane => 1350,
            Road::SuperTax => 0,
            Road::Mayfair => 1400,
        }
    }

    /// The position of the space as a machine integer.
    pub fn ordinal(self) -> (n: u8)
        ensures
            n == self.index(),
            n < BOARD_SIZE,
    {
        match self {
            Road::Go => 0,
            Road::OldKentRoad => 1,
            Road::CommunityChest1 => 2,
            Road::WhiteChapelRoad => 3,
            Road::IncomeTax => 4,
            Road::KingsCrossStation => 5,
            Road::TheAngelIslington => 6,
            Road::Chance1 => 7,
            Road::EustonRoad => 8,
            Road::PentonvilleRoad => 9,
            Road::Jail => 10,
            Road::PallMall => 11,
            Road::ElectricCompany => 12,
            Road::Whitehall => 13,
            Road::NorthumberlandAvenue => 14,
            Road::MaryleboneStation => 15,
            Road::BowStreet => 16,
            Road::CommunityChest2 => 17,
            Road::MarlboroughStreet => 18,
            Road::VineStreet => 19,
            Road::FreeParking => 20,
            Road::Strand => 21,
            Road::Chance2 => 22,
            Road::FleetStreet => 23,
            Road::TrafalgarSquare => 24,
            Road::FenchurchStStation => 25,
            Road::LeicesterSquare => 26,
            Road::CoventryStreet => 27,
            Road::WaterWorks => 28,
            Road::Picadilly => 29,
            Road::GotoJail => 30,
            Road::RegentStreet => 31,
            Road::OxfordStreet => 32,
            Road::CommunityChest3 => 33,
            Road::BondStreet => 34,
            Road::LiverpoolStStation => 35,
            Road::Chance3 => 36,
            Road::ParkLane => 37,
            Road::SuperTax => 38,
            Road::Mayfair => 39,
        }
    }

    /// The space at position `n`, where the board has one.
    pub fn from_u8(n: u8) -> (road: Option<Road>)
        ensures
            road is Some <==> n < BOARD_SIZE,
            road matches Some(r) ==> r == Road::at(n as int) && r.index() == n,
    {
        match n {
            0 => Some(Road::Go),
            1 => Some(Road::OldKentRoad),
            2 => Some(Road::CommunityChest1),
            3 => Some(Road::WhiteChapelRoad),
            4 => Some(Road::IncomeTax),
            5 => Some(Road::KingsCrossStation),
            6 => Some(Road::TheAngelIslington),
            7 => Some(Road::Chance1),
            8 => Some(Road::EustonRoad),
            9 => Some(Road::PentonvilleRoad),
            10 => Some(Road::Jail),
            11 => Some(Road::PallMall),
            12 => Some(Road::ElectricCompany),
            13 => Some(Road::Whitehall),
            14 => Some(Road::NorthumberlandAvenue),
            15 => Some(Road::MaryleboneStation),
            16 => Some(Road::BowStreet),
            17 => Some(Road::CommunityChest2),
            18 => Some(Road::MarlboroughStreet),
            19 => Some(Road::VineStreet),
            20 => Some(Road::FreeParking),
            21 => Some(Road::Strand),
            22 => Some(Road::Chance2),
            23 => Some(Road::FleetStreet),
            24 => Some(Road::TrafalgarSquare),
            25 => Some(Road::FenchurchStStation),
            26 => Some(Road::LeicesterSquare),
            27 => Some(Road::CoventryStreet),
            28 => Some(Road::WaterWorks),
            29 => Some(Road::Picadilly),
            30 => Some(Road::GotoJail),
            31 => Some(Road::RegentStreet),
            32 => Some(Road::OxfordStreet),
            33 => Some(Road::CommunityChest3),
            34 => Some(Road::BondStreet),
            35 => Some(Road::LiverpoolStStation),
            36 => Some(Road::Chance3),
            37 => Some(Road::ParkLane),
            38 => Some(Road::SuperTax),
            39 => Some(Road::Mayfair),
            _ => None,
        }
    }

    /// The space at position `n`, where the board has one.
    pub fn from_usize(n: usize) -> (road: Option<Road>)
        ensures
            road is Some <==> n < BOARD_SIZE,
            road matches Some(r) ==> r == Road::at(n as int) && r.index() == n,
    {
        if n < 40 {
            Road::from_u8(n as u8)
        } else {
            None
        }
    }

    /// Moves a token `step` spaces onward. A token on the space that sends
    /// to jail leaves from the jail instead. The count wraps round the board.
    pub fn advance(self, step: u8) -> (next: Road)
        ensures
            next == self.spec_advance(step as nat),
            next.index() == (self.departure().index() + step) % 40,
    {
        let pos = match self {
            Road::GotoJail => Road::Jail,
            r => r,
        };
        let u: u16 = pos.ordinal() as u16;
        let wrapped: u16 = (u + step as u16) % (BOARD_SIZE as u16);
        Road::from_u8(wrapped as u8).unwrap()
    }

    /// Moves a token by the sum of two dice.
    pub fn transition(self, r: RollPair) -> (next: Road)
        ensures
            next == self.spec_advance(r.steps()),
            next.index() == (self.departure().index() + r.steps()) % 40,
    {
        self.advance(r.eval())
    }

    /// The name of the space.
    pub fn as_str(&self) -> (s: &'static str)
        ensures
            s@ == self.name(),
    {
        match self {
            Road::Go => "Go",
            Road::OldKentRoad => "OldKentRoad",
            Road::CommunityChest1 => "CommunityChest1",
            Road::WhiteChapelRoad => "WhiteChapelRoad",
            Road::IncomeTax => "IncomeTax",
            Road::KingsCrossStation => "KingsCrossStation",
            Road::TheAngelIslington => "TheAngelIslington",
            Road::Chance1 => "Chance1",
            Road::EustonRoad => "EustonRoad",
            Road::PentonvilleRoad => "PentonvilleRoad",
            Road::Jail => "Jail",
            Road::PallMall => "PallMall",
            Road::ElectricCompany => "ElectricCompany",
            Road::Whitehall => "Whitehall",
            Road::NorthumberlandAvenue => "NorthumberlandAvenue",
            Road::MaryleboneStation => "MaryleboneStation",
            Road::BowStreet => "BowStreet",
            Road::CommunityChest2 => "CommunityChest2",
            Road::MarlboroughStreet => "MarlboroughStreet",
            Road::VineStreet => "VineStreet",
            Road::FreeParking => "FreeParking",
            Road::Strand => "Strand",
            Road::Chance2 => "Chance2",
            Road::FleetStreet => "FleetStreet",
            Road::TrafalgarSquare => "TrafalgarSquare",
            Road::FenchurchStStation => "FenchurchStStation",
            Road::LeicesterSquare => "LeicesterSquare",
            Road::CoventryStreet => "CoventryStreet",
            Road::WaterWorks => "WaterWorks",
            Road::Picadilly => "Picadilly",
            Road::GotoJail => "GotoJail",
            Road::RegentStreet => "RegentStreet",
            Road::OxfordStreet => "OxfordStreet",
            Road::CommunityChest3 => "CommunityChest3",
            Road::BondStreet => "BondStreet",
            Road::LiverpoolStStation => "LiverpoolStStation",
            Road::Chance3 => "Chance3",
            Road::ParkLane => "ParkLane",
            Road::SuperTax => "SuperTax",
            Road::Mayfair => "Mayfair",
        }
    }

    /// The rent schedule of the space.
    pub fn rent(&self) -> (schedule: Rent)
        ensures
            schedule == self.spec_rent(),
    {
        match self {
            Road::Go => Rent::NA,
            Road::OldKentRoad => Rent::Income { m: 2, h1: 10, h2: 30, h3: 90, h4: 160, ho: 250 },
            Road::CommunityChest1 => Rent::NA,
            Road::WhiteChapelRoad => Rent::Income { m: 4, h1: 20, h2: 60, h3: 180, h4: 360, ho: 450 },
            Road::IncomeTax => Rent::NA,
            Road::KingsCrossStation => Rent::Station,
            Road::TheAngelIslington => Rent::Income { m: 6, h1: 30, h2: 90, h3: 270, h4: 400, ho: 550 },
            Road::Chance1 => Rent::NA,
            Road::EustonRoad => Rent::Income { m: 6, h1: 30, h2: 90, h3: 270, h4: 400, ho: 550 },
            Road::PentonvilleRoad => Rent::Income { m: 8, h1: 40, h2: 100, h3: 300, h4: 450, ho: 600 },
            Road::Jail => Rent::NA,
            Road::PallMall => Rent::Income { m: 10, h1: 50, h2: 150, h3: 450, h4: 625, ho: 750 },
            Road::ElectricCompany => Rent::Utility,
            Road::Whitehall => Rent::Income { m: 10, h1: 50, h2: 150, h3: 450, h4: 625, ho: 750 },
            Road::NorthumberlandAvenue => Rent::Income { m: 12, h1: 60, h2: 180, h3: 500, h4: 700, ho: 900 },
            Road::MaryleboneStation => Rent::Station,
            Road::BowStreet => Rent::Income { m: 14, h1: 70, h2: 200, h3: 550, h4: 750, ho: 950 },
            Road::CommunityChest2 => Rent::NA,
            Road::MarlboroughStreet => Rent::Income { m: 14, h1: 70, h2: 200, h3: 550, h4: 750, ho: 950 },
            Road::VineStreet => Rent::Income { m: 16, h1: 80, h2: 220, h3: 600, h4: 800, ho: 1000 },
            Road::FreeParking => Rent::NA,
            Road::Strand => Rent::Income { m: 18, h1: 90, h2: 250, h3: 700, h4: 875, ho: 1050 },
            Road::Chance2 => Rent::NA,
            Road::FleetStreet => Rent::Income { m: 18, h1: 90, h2: 250, h3: 700, h4: 875, ho: 1050 },
            Road::TrafalgarSquare => Rent::Income { m: 20, h1: 100, h2: 300, h3: 750, h4: 925, ho: 1100 },
            Road::FenchurchStStation => Rent::Station,
            Road::LeicesterSquare => Rent::Income { m: 22, h1: 110, h2: 330, h3: 800, h4: 975, ho: 1150 },
            Road::CoventryStreet => Rent::Income { m: 22, h1: 110, h2: 330, h3: 800, h4: 975, ho: 1150 },
            Road::WaterWorks => Rent::Utility,
            Road::Picadilly => Rent::Income { m: 22, h1: 120, h2: 360, h3: 850, h4: 1025, ho: 1200 },
            Road::GotoJail => Rent::NA,
            Road::RegentStreet => Rent::Income { m: 26, h1: 130, h2: 390, h3: 900, h4: 1100, ho: 1275 },
            Road::OxfordStreet => Rent::Income { m: 26, h1: 130, h2: 390, h3: 900, h4: 1100, ho: 1275 },
            Road::CommunityChest3 => Rent::NA,
            Road::BondStreet => Rent::Income { m: 28, h1: 150, h2: 450, h3: 1000, h4: 1200, ho: 1400 },
            Road::LiverpoolStStation => Rent::Station,
            Road::Chance3 => Rent::NA,
            Road::ParkLane => Rent::Income { m: 35, h1: 175, h2: 500, h3: 1100, h4: 1300, ho: 1500 },
            Road::SuperTax => Rent::NA,
            Road::Mayfair => Rent::Income { m: 50, h1: 200, h2: 600, h3: 1400, h4: 1700, ho: 2000 },
        }
    }

    /// What it costs to buy the space and build it out.
    pub fn expenses(&self) -> (cost: u128)
        ensures
            cost == self.spec_expenses(),
    {
        match self {
            Road::Go => 0,
            Road::OldKentRoad => 60 + (4 * 30) + 30,
            Road::CommunityChest1 => 0,
            Road::WhiteChapelRoad => 60 + (4 * 30) + 30,
            Road::IncomeTax => 0,
            Road::KingsCrossStation => 200,
            Road::TheAngelIslington => 100 + (4 * 50) + 50,
            Road::Chance1 => 0,
            Road::EustonRoad => 100 + (4 * 50) + 50,
            Road::PentonvilleRoad => 120 + (4 * 50) + 50,
            Road::Jail => 0,
            Road::PallMall => 140 + (4 * 100) + 100,
            Road::ElectricCompany => 150,
            Road::Whitehall => 140 + (4 * 100) + 100,
            Road::NorthumberlandAvenue => 160 + (4 * 100) + 100,
            Road::MaryleboneStation => 200,
            Road::BowStreet => 180 + (4 * 100) + 100,
            Road::CommunityChest2 => 0,
            Road::MarlboroughStreet => 180 + (4 * 100) + 100,
            Road::VineStreet => 200 + (4 * 100) + 100,
            Road::FreeParking => 0,
            Road::Strand => 220 + (4 * 150) + 150,
            Road::Chance2 => 0,
            Road::FleetStreet => 220 + (4 * 150) + 150,
            Road::TrafalgarSquare => 240 + (4 * 150) + 150,
            Road::FenchurchStStation => 200,
            Road::LeicesterSquare => 260 + (4 * 150) + 150,
            Road::CoventryStreet => 150 + (4 * 150) + 150,
            Road::WaterWorks => 150,
            Road::Picadilly => 280 + (4 * 140) + 140,
            Road::GotoJail => 0,
            Road::RegentStreet => 300 + (4 * 150) + 150,
            Road::OxfordStreet => 300 + (4 * 150) + 150,
            Road::CommunityChest3 => 0,
            Road::BondStreet => 320 + (4 * 160) + 160,
            Road::LiverpoolStStation => 200,
            Road::Chance3 => 0,
            Road::ParkLane => 350 + (4 * 200) + 200,
            Road::SuperTax => 0,
            Road::Mayfair => 400 + (4 * 200) + 200,
        }
    }
}

/// No space charges more than 2000.
pub proof fn lemma_rent_bound(r: Road)
    ensures
        r.spec_rent().spec_max() <= 2000,
{
}

/// Each space stands at its own position, and the positions are those below
/// 40: position and space determine one another.
pub proof fn lemma_space_positions()
    ensures
        forall|r: Road| #[trigger] r.index() < 40 && Road::at(r.index() as int) == r,
        forall|i: int| 0 <= i < 40 ==> (#[trigger] Road::at(i)).index() == i,
{
}

} // verus!
