use monopoly_stats::dice::{DieRoll, RollPair};
use monopoly_stats::group::BoardGroup;
use monopoly_stats::player::Player;
use monopoly_stats::road::Road;

fn face(n: u8) -> DieRoll {
    DieRoll::from_u8(n).unwrap()
}

fn pair(a: u8, b: u8) -> RollPair {
    RollPair::new(face(a), face(b))
}

fn pairs(dice: &[(u8, u8)]) -> Vec<RollPair> {
    dice.iter().map(|d| pair(d.0, d.1)).collect()
}

fn at(r: Road) -> usize {
    r.ordinal() as usize
}

fn group_at(g: BoardGroup) -> usize {
    g.ordinal() as usize
}

fn one_at<const N: usize>(i: usize, v: u128) -> [u128; N] {
    let mut a = [0u128; N];
    a[i] = v;
    a
}

#[test]
fn new_player_stands_on_go_with_empty_counters() {
    let p = Player::new();
    assert_eq!(p.position(), Road::Go);
    assert_eq!(p.turns(), 0);
    assert_eq!(p.visits().0, [0u128; 40]);
    assert_eq!(p.gameincome().0, [0u128; 40]);
    assert_eq!(p.winner().0, [0u128; 40]);
    assert_eq!(*p.groups(), [0u128; 15]);
    assert_eq!(*p.groupincome(), [0u128; 15]);
    assert_eq!(*p.groupwinner(), [0u128; 15]);
    assert_eq!(p.best_road(), None);
    assert_eq!(p.best_group(), None);
}

#[test]
fn one_turn_of_seven_from_go() {
    let mut p = Player::new();
    p.start_game();
    p.move_by(pair(3, 4));
    assert_eq!(p.position().ordinal(), 7);
    assert_eq!(p.position(), Road::Chance1);
    assert_eq!(p.turns(), 1);
    assert_eq!(p.visits().0, one_at::<40>(7, 1));
    assert_eq!(*p.groups(), one_at::<15>(group_at(BoardGroup::Chance), 1));
    assert_eq!(p.gameincome().0, [0u128; 40]);
    assert_eq!(*p.groupincome(), [0u128; 15]);
    assert_eq!(p.best_road(), None);
    assert_eq!(p.best_group(), None);
    p.tally_game();
    assert_eq!(p.winner().0, [0u128; 40]);
    assert_eq!(*p.groupwinner(), [0u128; 15]);
    assert_eq!(p.visits().0[7], 1);
    assert_eq!(p.groups()[11], 1);
    assert_eq!(p.turns(), 1);
    assert_eq!(p.position(), Road::Chance1);
}

#[test]
fn replayed_game_of_one_turn() {
    let mut p = Player::new();
    p.replay_game(&pairs(&[(3, 4)]));
    assert_eq!(p.position().ordinal(), 7);
    assert_eq!(p.visits().0, one_at::<40>(7, 1));
    assert_eq!(*p.groups(), one_at::<15>(11, 1));
    assert_eq!(p.winner().0, [0u128; 40]);
    assert_eq!(*p.groupwinner(), [0u128; 15]);
    assert_eq!(p.turns(), 1);
}

#[test]
fn a_visit_credits_the_highest_rent() {
    let mut p = Player::new();
    p.move_by(pair(1, 2));
    assert_eq!(p.position(), Road::WhiteChapelRoad);
    assert_eq!(p.gameincome().0, one_at::<40>(3, 450));
    assert_eq!(*p.groupincome(), one_at::<15>(group_at(BoardGroup::Brown), 450));
    p.move_by(pair(1, 1));
    assert_eq!(p.position(), Road::KingsCrossStation);
    assert_eq!(p.gameincome().0[5], 200);
    assert_eq!(p.groupincome()[group_at(BoardGroup::Station)], 200);
    p.move_by(pair(3, 4));
    assert_eq!(p.position(), Road::ElectricCompany);
    assert_eq!(p.gameincome().0[12], 120);
    assert_eq!(p.groupincome()[group_at(BoardGroup::Utility)], 120);
    assert_eq!(p.gameincome().0[3], 450);
    assert_eq!(p.turns(), 3);
    assert_eq!(p.visits().0.iter().sum::<u128>(), 3);
    assert_eq!(p.groups().iter().sum::<u128>(), 3);
    assert_eq!(p.best_road(), Some(Road::WhiteChapelRoad));
    assert_eq!(p.best_group(), Some(BoardGroup::Brown));
}

#[test]
fn sole_best_road_wins_the_game() {
    let mut p = Player::new();
    p.start_game();
    p.replay(&pairs(&[(6, 6), (6, 6), (6, 6), (1, 2)]));
    assert_eq!(p.position(), Road::Mayfair);
    assert_eq!(p.gameincome().0[at(Road::ElectricCompany)], 120);
    assert_eq!(p.gameincome().0[at(Road::TrafalgarSquare)], 1100);
    assert_eq!(p.gameincome().0[at(Road::Chance3)], 0);
    assert_eq!(p.gameincome().0[at(Road::Mayfair)], 2000);
    assert_eq!(p.best_road(), Some(Road::Mayfair));
    assert_eq!(p.best_group(), None);
    p.tally_game();
    assert_eq!(p.winner().0, one_at::<40>(39, 1));
    assert_eq!(*p.groupwinner(), [0u128; 15]);
    assert_eq!(p.gameincome().0, [0u128; 40]);
    assert_eq!(*p.groupincome(), [0u128; 15]);
    assert_eq!(p.turns(), 4);
    assert_eq!(p.visits().0[39], 1);
}

#[test]
fn best_group_need_not_hold_the_best_road() {
    let mut p = Player::new();
    p.start_game();
    p.replay(&pairs(&[(2, 3), (4, 6), (4, 6), (4, 6), (4, 6), (6, 6), (1, 2), (6, 6), (5, 2)]));
    assert_eq!(p.position(), Road::Mayfair);
    assert_eq!(p.visits().0[at(Road::KingsCrossStation)], 2);
    assert_eq!(p.gameincome().0[at(Road::KingsCrossStation)], 400);
    assert_eq!(p.groupincome()[group_at(BoardGroup::Station)], 1000);
    assert_eq!(p.gameincome().0[at(Road::Mayfair)], 2000);
    assert_eq!(p.best_road(), Some(Road::Mayfair));
    assert_eq!(p.best_group(), Some(BoardGroup::Station));
    p.tally_game();
    assert_eq!(p.winner().0, one_at::<40>(39, 1));
    assert_eq!(*p.groupwinner(), one_at::<15>(9, 1));
}

#[test]
fn station_group_wins_after_five_station_visits() {
    let mut p = Player::new();
    p.replay_game(&pairs(&[(2, 3), (4, 6), (4, 6), (4, 6), (4, 6)]));
    assert_eq!(p.position(), Road::KingsCrossStation);
    assert_eq!(p.visits().0[5], 2);
    assert_eq!(p.visits().0[15], 1);
    assert_eq!(p.visits().0[25], 1);
    assert_eq!(p.visits().0[35], 1);
    assert_eq!(p.groups()[9], 5);
    assert_eq!(p.winner().0, one_at::<40>(5, 1));
    assert_eq!(*p.groupwinner(), one_at::<15>(9, 1));
}

#[test]
fn earliest_road_wins_a_tie() {
    let mut p = Player::new();
    p.start_game();
    p.replay(&pairs(&[(5, 6), (4, 5), (2, 2)]));
    assert_eq!(p.visits().0[at(Road::PallMall)], 1);
    assert_eq!(p.visits().0[at(Road::FreeParking)], 1);
    assert_eq!(p.visits().0[at(Road::TrafalgarSquare)], 1);
    assert_eq!(p.gameincome().0[11] - Road::PallMall.expenses(), 110);
    assert_eq!(p.gameincome().0[24] - Road::TrafalgarSquare.expenses(), 110);
    assert_eq!(p.best_road(), Some(Road::PallMall));
    p.tally_game();
    assert_eq!(p.winner().0, one_at::<40>(11, 1));
    assert_eq!(*p.groupwinner(), [0u128; 15]);
}

#[test]
fn nothing_wins_a_game_without_profit() {
    let mut p = Player::new();
    p.replay_game(&pairs(&[(1, 1), (1, 1), (1, 2)]));
    assert_eq!(p.position(), Road::Chance1);
    assert_eq!(p.visits().0[2], 1);
    assert_eq!(p.visits().0[4], 1);
    assert_eq!(p.visits().0[7], 1);
    assert_eq!(p.winner().0, [0u128; 40]);
    assert_eq!(*p.groupwinner(), [0u128; 15]);
    p.replay_game(&pairs(&[(6, 6)]));
    assert_eq!(p.position(), Road::ElectricCompany);
    assert_eq!(p.winner().0, [0u128; 40]);
    assert_eq!(*p.groupwinner(), [0u128; 15]);
    p.replay_game(&pairs(&[(2, 3)]));
    assert_eq!(p.position(), Road::KingsCrossStation);
    assert_eq!(p.winner().0, [0u128; 40]);
    assert_eq!(*p.groupwinner(), [0u128; 15]);
    assert_eq!(p.turns(), 5);
}

#[test]
fn a_game_without_turns_changes_nothing_but_the_position() {
    let mut p = Player::new();
    p.move_by(pair(1, 2));
    p.tally_game();
    let visits = p.visits().0;
    let winner = p.winner().0;
    assert_eq!(winner, one_at::<40>(3, 1));
    p.replay_game(&Vec::new());
    assert_eq!(p.position(), Road::Go);
    assert_eq!(p.visits().0, visits);
    assert_eq!(p.winner().0, winner);
    assert_eq!(p.turns(), 1);
    p.play_game(0);
    assert_eq!(p.position(), Road::Go);
    assert_eq!(p.visits().0, visits);
    assert_eq!(p.winner().0, winner);
    assert_eq!(p.turns(), 1);
}

#[test]
fn go_to_jail_counts_no_visit_for_jail() {
    let mut p = Player::new();
    p.replay(&pairs(&[(6, 6), (6, 6), (3, 3)]));
    assert_eq!(p.position(), Road::GotoJail);
    assert_eq!(p.visits().0[30], 1);
    assert_eq!(p.visits().0[10], 0);
    assert_eq!(p.groups()[group_at(BoardGroup::Jail)], 1);
    p.move_by(pair(2, 3));
    assert_eq!(p.position(), Road::MaryleboneStation);
    assert_eq!(p.visits().0[15], 1);
    assert_eq!(p.visits().0[10], 0);
    assert_eq!(p.visits().0[35], 0);
    assert_eq!(p.groups()[group_at(BoardGroup::Jail)], 1);
    assert_eq!(p.gameincome().0[10], 0);
}

#[test]
fn start_game_moves_the_token_only() {
    let mut p = Player::new();
    p.replay(&pairs(&[(6, 6), (1, 2)]));
    let visits = p.visits().0;
    let income = p.gameincome().0;
    assert_eq!(p.position(), Road::MaryleboneStation);
    p.start_game();
    assert_eq!(p.position(), Road::Go);
    assert_eq!(p.visits().0, visits);
    assert_eq!(p.gameincome().0, income);
    assert_eq!(p.turns(), 2);
}

#[test]
fn counts_add_up_over_games() {
    let mut p = Player::new();
    let game = pairs(&[(6, 6), (6, 6), (6, 6), (1, 2)]);
    for n in 1..=5u128 {
        p.replay_game(&game);
        assert_eq!(p.winner().0[39], n);
        assert_eq!(p.visits().0[39], n);
        assert_eq!(p.visits().0[12], n);
        assert_eq!(p.groups()[group_at(BoardGroup::DarkBlue)], n);
        assert_eq!(p.turns() as u128, 4 * n);
    }
    assert_eq!(p.winner().0.iter().sum::<u128>(), 5);
}

#[test]
fn same_dice_give_the_same_counts() {
    let games: Vec<Vec<RollPair>> = vec![
        pairs(&[(6, 6), (6, 6), (6, 6), (1, 2)]),
        pairs(&[(3, 4), (1, 1), (5, 5)]),
        pairs(&[(2, 3), (4, 6), (4, 6), (4, 6), (4, 6)]),
        pairs(&[(5, 6), (4, 5), (2, 2)]),
        Vec::new(),
        pairs(&[(1, 2), (6, 5), (2, 2), (3, 6), (1, 1), (4, 4)]),
    ];
    let mut a = Player::new();
    let mut b = Player::new();
    a.replay_games(&games);
    b.replay_games(&games);
    assert_eq!(a.visits().0, b.visits().0);
    assert_eq!(a.groups(), b.groups());
    assert_eq!(a.winner().0, b.winner().0);
    assert_eq!(a.groupwinner(), b.groupwinner());
    assert_eq!(a.position(), b.position());
    assert_eq!(a.turns(), b.turns());
    assert_eq!(a.turns(), 21);
    let mut c = Player::new();
    for game in games.iter() {
        c.start_game();
        for roll in game.iter() {
            c.move_by(*roll);
        }
        c.tally_game();
    }
    assert_eq!(a.visits().0, c.visits().0);
    assert_eq!(a.groups(), c.groups());
    assert_eq!(a.winner().0, c.winner().0);
    assert_eq!(a.groupwinner(), c.groupwinner());
    assert_eq!(a.winner().0[39], 1);
    assert_eq!(a.winner().0[5], 1);
    assert_eq!(a.winner().0[11], 1);
    assert_eq!(a.groupwinner()[9], 1);
}

#[test]
fn random_turns_keep_the_books() {
    let mut p = Player::new();
    p.take_turn();
    assert_eq!(p.turns(), 1);
    assert!(p.position().ordinal() >= 2 && p.position().ordinal() <= 12);
    p.take_turns(99);
    assert_eq!(p.turns(), 100);
    assert_eq!(p.visits().0.iter().sum::<u128>(), 100);
    assert_eq!(p.groups().iter().sum::<u128>(), 100);
    let mut by_group = [0u128; 15];
    let mut income_by_group = [0u128; 15];
    for n in 0u8..40 {
        let r = Road::from_u8(n).unwrap();
        let g = group_at(BoardGroup::classify_road(r));
        by_group[g] += p.visits().0[n as usize];
        income_by_group[g] += p.gameincome().0[n as usize];
        assert_eq!(p.gameincome().0[n as usize], p.visits().0[n as usize] * r.rent().max());
    }
    assert_eq!(*p.groups(), by_group);
    assert_eq!(*p.groupincome(), income_by_group);
    assert_eq!(p.winner().0, [0u128; 40]);
}

#[test]
fn random_games_keep_the_books() {
    let mut p = Player::new();
    for n in 1..=200u64 {
        p.play_game(50);
        assert_eq!(p.turns(), 50 * n);
        assert_eq!(p.gameincome().0, [0u128; 40]);
        assert_eq!(*p.groupincome(), [0u128; 15]);
        assert!(p.winner().0.iter().sum::<u128>() <= n as u128);
        assert!(p.groupwinner().iter().sum::<u128>() <= n as u128);
        assert!(p.position().ordinal() < 40);
    }
    assert_eq!(p.visits().0.iter().sum::<u128>(), 10000);
    assert_eq!(p.groups().iter().sum::<u128>(), 10000);
    assert!(p.visits().0[at(Road::TrafalgarSquare)] > 0);
}
