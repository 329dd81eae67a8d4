use monopoly_stats::decimal::{digit_str, push_decimal};
use monopoly_stats::group::BoardGroup;
use monopoly_stats::rent::Rent;
use monopoly_stats::road::Road;

fn roads() -> Vec<Road> {
    (0u8..40).map(|n| Road::from_u8(n).unwrap()).collect()
}

fn digits(n: u128) -> String {
    let mut out = String::new();
    push_decimal(&mut out, n);
    out
}

#[test]
fn max_rent_of_each_shape() {
    let tiered = Rent::Income { m: 2, h1: 10, h2: 30, h3: 90, h4: 160, ho: 250 };
    assert_eq!(tiered.max(), 250);
    assert_eq!(Rent::Station.max(), 200);
    assert_eq!(Rent::Utility.max(), 120);
    assert_eq!(Rent::NA.max(), 0);
    let falling = Rent::Income { m: 9, h1: 8, h2: 7, h3: 6, h4: 5, ho: 4 };
    assert_eq!(falling.max(), 4);
}

#[test]
fn avg_rent_of_each_shape() {
    let tiered = Rent::Income { m: 2, h1: 10, h2: 30, h3: 90, h4: 160, ho: 250 };
    assert_eq!(tiered.avg(), 90);
    let uneven = Rent::Income { m: 1, h1: 1, h2: 1, h3: 1, h4: 1, ho: 6 };
    assert_eq!(uneven.avg(), 1);
    assert_eq!(Rent::Station.avg(), 93);
    assert_eq!(Rent::Utility.avg(), 56);
    assert_eq!(Rent::NA.avg(), 0);
    assert_eq!(Road::Mayfair.rent().avg(), 991);
}

#[test]
fn decimal_digits() {
    for d in 0..10u8 {
        assert_eq!(digit_str(d), format!("{}", d));
    }
    assert_eq!(digits(0), "0");
    assert_eq!(digits(7), "7");
    assert_eq!(digits(10), "10");
    assert_eq!(digits(101), "101");
    assert_eq!(digits(12345), "12345");
    assert_eq!(digits(1000000), "1000000");
    assert_eq!(digits(u128::MAX), "340282366920938463463374607431768211455");
    for n in 0..2000u128 {
        assert_eq!(digits(n * 7919), format!("{}", n * 7919));
    }
    let mut out = String::from("x=");
    push_decimal(&mut out, 42);
    assert_eq!(out, "x=42");
}

#[test]
fn expected_rent_text() {
    let tiered = Rent::Income { m: 2, h1: 10, h2: 30, h3: 90, h4: 160, ho: 250 };
    assert_eq!(tiered.expected(3), " 6 / 30 / 90 / 270 / 480 / 750 ");
    assert_eq!(tiered.expected(0), " 0 / 0 / 0 / 0 / 0 / 0 ");
    assert_eq!(tiered.expected(1), " 2 / 10 / 30 / 90 / 160 / 250 ");
    assert_eq!(Rent::Station.expected(3), " 75 / 150 / 300 / 600 ");
    assert_eq!(Rent::Station.expected(0), " 0 / 0 / 0 / 0 ");
    assert_eq!(Rent::Utility.expected(5), " 40 / 600 ");
    assert_eq!(Rent::NA.expected(9), " NA ");
    assert_eq!(Rent::NA.expected(u128::MAX), " NA ");
    assert_eq!(
        Road::Mayfair.rent().expected(1000),
        " 50000 / 200000 / 600000 / 1400000 / 1700000 / 2000000 "
    );
}

#[test]
fn rent_schedules_of_chosen_roads() {
    assert_eq!(Road::Go.rent(), Rent::NA);
    assert_eq!(Road::Jail.rent(), Rent::NA);
    assert_eq!(Road::GotoJail.rent(), Rent::NA);
    assert_eq!(Road::Chance1.rent(), Rent::NA);
    assert_eq!(Road::SuperTax.rent(), Rent::NA);
    assert_eq!(Road::KingsCrossStation.rent(), Rent::Station);
    assert_eq!(Road::LiverpoolStStation.rent(), Rent::Station);
    assert_eq!(Road::ElectricCompany.rent(), Rent::Utility);
    assert_eq!(Road::WaterWorks.rent(), Rent::Utility);
    assert_eq!(
        Road::OldKentRoad.rent(),
        Rent::Income { m: 2, h1: 10, h2: 30, h3: 90, h4: 160, ho: 250 }
    );
    assert_eq!(
        Road::Picadilly.rent(),
        Rent::Income { m: 22, h1: 120, h2: 360, h3: 850, h4: 1025, ho: 1200 }
    );
    assert_eq!(
        Road::Mayfair.rent(),
        Rent::Income { m: 50, h1: 200, h2: 600, h3: 1400, h4: 1700, ho: 2000 }
    );
}

#[test]
fn max_rent_of_every_road() {
    let expected: [u128; 40] = [
        0, 250, 0, 450, 0, 200, 550, 0, 550, 600, 0, 750, 120, 750, 900, 200, 950, 0, 950, 1000,
        0, 1050, 0, 1050, 1100, 200, 1150, 1150, 120, 1200, 0, 1275, 1275, 0, 1400, 200, 0, 1500,
        0, 2000,
    ];
    for (i, r) in roads().iter().enumerate() {
        assert_eq!(r.rent().max(), expected[i]);
        assert!(r.rent().max() <= 2000);
    }
}

#[test]
fn cost_of_every_road() {
    let expected: [u128; 40] = [
        0, 210, 0, 210, 0, 200, 350, 0, 350, 370, 0, 640, 150, 640, 660, 200, 680, 0, 680, 700, 0,
        970, 0, 970, 990, 200, 1010, 900, 150, 980, 0, 1050, 1050, 0, 1120, 200, 0, 1350, 0, 1400,
    ];
    for (i, r) in roads().iter().enumerate() {
        assert_eq!(r.expenses(), expected[i]);
    }
}

#[test]
fn cost_of_every_group() {
    assert_eq!(BoardGroup::Brown.expenses(), 420);
    assert_eq!(BoardGroup::LightBlue.expenses(), 1070);
    assert_eq!(BoardGroup::Pink.expenses(), 1940);
    assert_eq!(BoardGroup::Orange.expenses(), 2060);
    assert_eq!(BoardGroup::Red.expenses(), 2930);
    assert_eq!(BoardGroup::Yellow.expenses(), 2890);
    assert_eq!(BoardGroup::Green.expenses(), 3220);
    assert_eq!(BoardGroup::DarkBlue.expenses(), 2750);
    assert_eq!(BoardGroup::Utility.expenses(), 300);
    assert_eq!(BoardGroup::Station.expenses(), 800);
    assert_eq!(BoardGroup::CommunityChest.expenses(), 0);
    assert_eq!(BoardGroup::Chance.expenses(), 0);
    assert_eq!(BoardGroup::Tax.expenses(), 0);
    assert_eq!(BoardGroup::Jail.expenses(), 0);
    assert_eq!(BoardGroup::GoParking.expenses(), 0);
}

#[test]
fn group_cost_is_the_sum_over_its_roads() {
    for n in 0u8..15 {
        let g = BoardGroup::from_u8(n).unwrap();
        let mut sum: u128 = 0;
        for r in roads() {
            if BoardGroup::classify_road(r) == g {
                sum += r.expenses();
            }
        }
        assert_eq!(g.expenses(), sum);
    }
}
