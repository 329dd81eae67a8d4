use monopoly_stats::dice::{DieRoll, RollPair};
use monopoly_stats::group::BoardGroup;
use monopoly_stats::road::Road;

const FACES: [DieRoll; 6] = [
    DieRoll::One,
    DieRoll::Two,
    DieRoll::Three,
    DieRoll::Four,
    DieRoll::Five,
    DieRoll::Six,
];

fn all_roads() -> Vec<Road> {
    (0u8..40).map(|n| Road::from_u8(n).unwrap()).collect()
}

fn all_groups() -> Vec<BoardGroup> {
    (0u8..15).map(|n| BoardGroup::from_u8(n).unwrap()).collect()
}

#[test]
fn die_faces_count_their_pips() {
    for (i, face) in FACES.iter().enumerate() {
        assert_eq!(face.value() as usize, i + 1);
        assert_eq!(DieRoll::from_u8(i as u8 + 1), Some(*face));
    }
    assert_eq!(DieRoll::from_u8(0), None);
    assert_eq!(DieRoll::from_u8(7), None);
    assert_eq!(DieRoll::from_u8(255), None);
}

#[test]
fn roll_pair_sums_both_dice() {
    for a in FACES.iter() {
        for b in FACES.iter() {
            let pair = RollPair::new(*a, *b);
            assert_eq!(pair.r1, *a);
            assert_eq!(pair.r2, *b);
            assert_eq!(pair.eval(), a.value() + b.value());
            assert!(pair.eval() >= 2 && pair.eval() <= 12);
        }
    }
    assert_eq!(RollPair::new(DieRoll::Three, DieRoll::Four).eval(), 7);
    assert_eq!(RollPair::new(DieRoll::One, DieRoll::One).eval(), 2);
    assert_eq!(RollPair::new(DieRoll::Six, DieRoll::Six).eval(), 12);
}

#[test]
fn thrown_die_shows_one_to_six() {
    let mut rng = rand::thread_rng();
    let mut seen = [0u32; 6];
    for _ in 0..6000 {
        let v = DieRoll::roll(&mut rng).value();
        assert!(v >= 1 && v <= 6);
        seen[v as usize - 1] += 1;
    }
    for count in seen.iter() {
        assert!(*count > 0);
    }
}

#[test]
fn ordinals_run_from_0_to_39() {
    let roads = all_roads();
    assert_eq!(roads.len(), 40);
    for (i, r) in roads.iter().enumerate() {
        assert_eq!(r.ordinal() as usize, i);
        assert_eq!(Road::from_usize(i), Some(*r));
    }
    assert_eq!(Road::from_u8(0), Some(Road::Go));
    assert_eq!(Road::from_u8(10), Some(Road::Jail));
    assert_eq!(Road::from_u8(30), Some(Road::GotoJail));
    assert_eq!(Road::from_u8(39), Some(Road::Mayfair));
    assert_eq!(Road::from_u8(40), None);
    assert_eq!(Road::from_u8(255), None);
    assert_eq!(Road::from_usize(40), None);
    assert_eq!(Road::from_usize(296), None);
    assert_eq!(Road::from_usize(usize::MAX), None);
}

#[test]
fn transition_stays_on_the_board() {
    for from in all_roads() {
        let start = if from == Road::GotoJail { 10 } else { from.ordinal() };
        for a in FACES.iter() {
            for b in FACES.iter() {
                let pair = RollPair::new(*a, *b);
                let next = from.transition(pair);
                assert!(next.ordinal() < 40);
                assert_eq!(next.ordinal(), (start + pair.eval()) % 40);
                assert_eq!(next, from.advance(pair.eval()));
            }
        }
    }
}

#[test]
fn transition_wraps_past_the_last_space() {
    assert_eq!(Road::Mayfair.advance(1), Road::Go);
    assert_eq!(Road::Mayfair.advance(0), Road::Mayfair);
    assert_eq!(Road::Mayfair.advance(41), Road::Go);
    assert_eq!(Road::Go.advance(40), Road::Go);
    assert_eq!(Road::Go.advance(255), Road::MaryleboneStation);
    assert_eq!(Road::Mayfair.advance(255), Road::NorthumberlandAvenue);
    assert_eq!(
        Road::Mayfair.transition(RollPair::new(DieRoll::One, DieRoll::One)),
        Road::OldKentRoad
    );
    assert_eq!(
        Road::LiverpoolStStation.transition(RollPair::new(DieRoll::Six, DieRoll::Six)),
        Road::Chance1
    );
}

#[test]
fn go_to_jail_moves_on_from_jail() {
    assert_eq!(Road::GotoJail.advance(5), Road::Jail.advance(5));
    assert_eq!(Road::GotoJail.advance(5), Road::MaryleboneStation);
    for step in 0..=255u8 {
        assert_eq!(Road::GotoJail.advance(step), Road::Jail.advance(step));
    }
    let pair = RollPair::new(DieRoll::Two, DieRoll::Three);
    assert_eq!(Road::GotoJail.transition(pair), Road::MaryleboneStation);
    assert_eq!(Road::Jail.transition(pair), Road::MaryleboneStation);
    assert_eq!(Road::Picadilly.advance(1), Road::GotoJail);
}

#[test]
fn end_to_end_seven_from_go() {
    let next = Road::Go.transition(RollPair::new(DieRoll::Three, DieRoll::Four));
    assert_eq!(next.ordinal(), 7);
    assert_eq!(next, Road::Chance1);
}

#[test]
fn road_names() {
    assert_eq!(Road::Go.as_str(), "Go");
    assert_eq!(Road::OldKentRoad.as_str(), "OldKentRoad");
    assert_eq!(Road::Jail.as_str(), "Jail");
    assert_eq!(Road::GotoJail.as_str(), "GotoJail");
    assert_eq!(Road::FenchurchStStation.as_str(), "FenchurchStStation");
    assert_eq!(Road::Picadilly.as_str(), "Picadilly");
    assert_eq!(Road::Mayfair.as_str(), "Mayfair");
    let roads = all_roads();
    for r in roads.iter() {
        assert_eq!(r.as_str(), format!("{:?}", r));
    }
    for a in roads.iter() {
        for b in roads.iter() {
            assert_eq!(a.as_str() == b.as_str(), a == b);
        }
    }
}

#[test]
fn group_ordinals_run_from_0_to_14() {
    let groups = all_groups();
    assert_eq!(groups.len(), 15);
    for (i, g) in groups.iter().enumerate() {
        assert_eq!(g.ordinal() as usize, i);
        assert_eq!(BoardGroup::from_usize(i), Some(*g));
    }
    assert_eq!(BoardGroup::from_u8(0), Some(BoardGroup::Brown));
    assert_eq!(BoardGroup::from_u8(9), Some(BoardGroup::Station));
    assert_eq!(BoardGroup::from_u8(14), Some(BoardGroup::GoParking));
    assert_eq!(BoardGroup::from_u8(15), None);
    assert_eq!(BoardGroup::from_usize(15), None);
    assert_eq!(BoardGroup::from_usize(271), None);
}

#[test]
fn group_names() {
    assert_eq!(BoardGroup::Brown.as_str(), "Brown");
    assert_eq!(BoardGroup::LightBlue.as_str(), "LightBlue");
    assert_eq!(BoardGroup::CommunityChest.as_str(), "CommunityChest");
    assert_eq!(BoardGroup::GoParking.as_str(), "GoParking");
    for g in all_groups() {
        assert_eq!(g.as_str(), format!("{:?}", g));
    }
}

#[test]
fn every_road_has_one_group() {
    let mut sizes = [0usize; 15];
    for r in all_roads() {
        let g = BoardGroup::classify_road(r);
        assert!(g.ordinal() < 15);
        assert_eq!(BoardGroup::classify_road(r), g);
        sizes[g.ordinal() as usize] += 1;
    }
    assert_eq!(sizes, [2, 3, 3, 3, 3, 3, 3, 2, 2, 4, 3, 3, 2, 2, 2]);
    assert_eq!(sizes.iter().sum::<usize>(), 40);
}

#[test]
fn groups_of_chosen_roads() {
    assert_eq!(BoardGroup::classify_road(Road::Go), BoardGroup::GoParking);
    assert_eq!(BoardGroup::classify_road(Road::FreeParking), BoardGroup::GoParking);
    assert_eq!(BoardGroup::classify_road(Road::OldKentRoad), BoardGroup::Brown);
    assert_eq!(BoardGroup::classify_road(Road::WhiteChapelRoad), BoardGroup::Brown);
    assert_eq!(BoardGroup::classify_road(Road::PentonvilleRoad), BoardGroup::LightBlue);
    assert_eq!(BoardGroup::classify_road(Road::Whitehall), BoardGroup::Pink);
    assert_eq!(BoardGroup::classify_road(Road::VineStreet), BoardGroup::Orange);
    assert_eq!(BoardGroup::classify_road(Road::Strand), BoardGroup::Red);
    assert_eq!(BoardGroup::classify_road(Road::CoventryStreet), BoardGroup::Yellow);
    assert_eq!(BoardGroup::classify_road(Road::BondStreet), BoardGroup::Green);
    assert_eq!(BoardGroup::classify_road(Road::Mayfair), BoardGroup::DarkBlue);
    assert_eq!(BoardGroup::classify_road(Road::WaterWorks), BoardGroup::Utility);
    assert_eq!(BoardGroup::classify_road(Road::ElectricCompany), BoardGroup::Utility);
    assert_eq!(BoardGroup::classify_road(Road::KingsCrossStation), BoardGroup::Station);
    assert_eq!(BoardGroup::classify_road(Road::CommunityChest2), BoardGroup::CommunityChest);
    assert_eq!(BoardGroup::classify_road(Road::Chance3), BoardGroup::Chance);
    assert_eq!(BoardGroup::classify_road(Road::IncomeTax), BoardGroup::Tax);
    assert_eq!(BoardGroup::classify_road(Road::SuperTax), BoardGroup::Tax);
    assert_eq!(BoardGroup::classify_road(Road::Jail), BoardGroup::Jail);
    assert_eq!(BoardGroup::classify_road(Road::GotoJail), BoardGroup::Jail);
}
