//! The token and the statistics it gathers: how often each space and group
//! was visited, and how often each came out of a game as the most profitable.

use crate::dice::{system_rng, DieRoll, RollPair};
use crate::group::{lemma_group_positions, BoardGroup};
use crate::leader::{leads, lemma_leader_is, lemma_no_leader};
use crate::road::{lemma_rent_bound, lemma_space_positions, Road};
use crate::stats::{
    counts, dice_of, lemma_fresh_wf, lemma_moved_wf, lemma_tallied_wf, lemma_turns_in_prefix,
    turns_in, zeros, Stats,
};
use rand::rngs::ThreadRng;
use vstd::prelude::*;

verus! {

/// One counter for each space, in board order.
pub struct Board(pub [u128; 40]);

/// A single token, the statistics of its run, and its dice.
pub struct Player {
    visits: Board,
    groups: [u128; 15],
    gameincome: Board,
    groupincome: [u128; 15],
    winner: Board,
    groupwinner: [u128; 15],
    position: Road,
    turns: u64,
    rng: ThreadRng,
}

impl View for Player {
    type V = Stats;

    closed spec fn view(&self) -> Stats {
        Stats {
            visits: counts(self.visits.0),
            groups: counts(self.groups),
            road_income: counts(self.gameincome.0),
            group_income: counts(self.groupincome),
            road_wins: counts(self.winner.0),
            group_wins: counts(self.groupwinner),
            position: self.position,
            turns: self.turns as nat,
        }
    }
}

impl Player {
    /// A player before the first turn: on the first space, every counter at
    /// zero, with the dice of the current thread.
    pub fn new() -> (p: Player)
        ensures
            p@ == Stats::fresh(),
            p@.wf(),
    {
        let p = Player {
            visits: Board([0; 40]),
            groups: [0; 15],
            gameincome: Board([0; 40]),
            groupincome: [0; 15],
            winner: Board([0; 40]),
            groupwinner: [0; 15],
            position: Road::Go,
            turns: 0,
            rng: system_rng(),
        };
        assert(p@.visits =~= zeros(40));
        assert(p@.groups =~= zeros(15));
        assert(p@.road_income =~= zeros(40));
        assert(p@.group_income =~= zeros(15));
        assert(p@.road_wins =~= zeros(40));
        assert(p@.group_wins =~= zeros(15));
        proof {
            lemma_fresh_wf();
        }
        p
    }

    /// The visits of each space.
    pub fn visits(&self) -> (b: &Board)
        ensures
            counts(b.0) == self@.visits,
    {
        &self.visits
    }

    /// The visits of each group.
    pub fn groups(&self) -> (g: &[u128; 15])
        ensures
            counts(*g) == self@.groups,
    {
        &self.groups
    }

    /// The rent credited to each space in the game under way.
    pub fn gameincome(&self) -> (b: &Board)
        ensures
            counts(b.0) == self@.road_income,
    {
        &self.gameincome
    }

    /// The rent credited to each group in the game under way.
    pub fn groupincome(&self) -> (g: &[u128; 15])
        ensures
            counts(*g) == self@.group_income,
    {
        &self.groupincome
    }

    /// The games won by each space.
    pub fn winner(&self) -> (b: &Board)
        ensures
            counts(b.0) == self@.road_wins,
    {
        &self.winner
    }

    /// The games won by each group.
    pub fn groupwinner(&self) -> (g: &[u128; 15])
        ensures
            counts(*g) == self@.group_wins,
    {
        &self.groupwinner
    }

    /// The space the token stands on.
    pub fn position(&self) -> (r: Road)
        ensures
            r == self@.position,
    {
        self.position
    }

    /// The turns taken so far.
    pub fn turns(&self) -> (n: u64)
        ensures
            n == self@.turns,
    {
        self.turns
    }

    /// Sets the token back on the first space, as at the start of a game.
    /// No counter changes.
    pub fn start_game(&mut self)
        ensures
            final(self)@ == old(self)@.restarted(),
    {
        self.position = Road::Go;
    }

    /// Takes one turn with the given dice: moves the token, counts the visit
    /// for the space reached and for its group, and credits both with the
    /// highest rent of the space.
    pub fn move_by(&mut self, roll: RollPair)
        requires
            old(self)@.wf(),
            old(self)@.turns < u64::MAX,
        ensures
            final(self)@ == old(self)@.moved(roll),
            final(self)@.wf(),
    {
        self.position = self.position.transition(roll);
        let r: usize = self.position.ordinal() as usize;
        let g: usize = BoardGroup::classify_road(self.position).ordinal() as usize;
        let rent: u128 = self.position.rent().max();
        proof {
            lemma_rent_bound(self.position);
            let before = old(self)@;
            assert(before.visits[r as int] <= before.turns);
            assert(before.groups[g as int] <= before.turns);
            assert(before.road_income[r as int] <= 2000 * before.turns);
            assert(before.group_income[g as int] <= 2000 * before.turns);
        }
        self.visits.0[r] = self.visits.0[r] + 1;
        self.groups[g] = self.groups[g] + 1;
        self.gameincome.0[r] = self.gameincome.0[r] + rent;
        self.groupincome[g] = self.groupincome[g] + rent;
        self.turns = self.turns + 1;
        proof {
            let before = old(self)@;
            let after = before.moved(roll);
            assert(self@.visits =~= after.visits);
            assert(self@.groups =~= after.groups);
            assert(self@.road_income =~= after.road_income);
            assert(self@.group_income =~= after.group_income);
            assert(self@.road_wins =~= after.road_wins);
            assert(self@.group_wins =~= after.group_wins);
            lemma_moved_wf(before, roll);
        }
    }

    /// Takes one turn: throws both dice and moves by what they show.
    pub fn take_turn(&mut self)
        requires
            old(self)@.wf(),
            old(self)@.turns < u64::MAX,
        ensures
            exists|roll: RollPair| final(self)@ == old(self)@.moved(roll),
            final(self)@.wf(),
    {
        let r1 = DieRoll::roll(&mut self.rng);
        let r2 = DieRoll::roll(&mut self.rng);
        self.move_by(RollPair::new(r1, r2));
    }

    /// Takes `turns` turns, throwing the dice for each.
    pub fn take_turns(&mut self, turns: u128)
        requires
            old(self)@.wf(),
            old(self)@.turns + turns <= u64::MAX,
        ensures
            exists|rolls: Seq<RollPair>|
                rolls.len() == turns && final(self)@ == old(self)@.played(rolls),
            final(self)@.wf(),
            final(self)@.turns == old(self)@.turns + turns,
    {
        let ghost mut rolls: Seq<RollPair> = Seq::empty();
        let mut taken: u128 = 0;
        while taken < turns
            invariant
                taken <= turns,
                rolls.len() == taken,
                self@ == old(self)@.played(rolls),
                self@.wf(),
                old(self)@.turns + turns <= u64::MAX,
                self@.turns == old(self)@.turns + taken,
            decreases turns - taken,
        {
            let ghost before = self@;
            self.take_turn();
            proof {
                let roll = choose|roll: RollPair| self@ == before.moved(roll);
                assert(rolls.push(roll).drop_last() =~= rolls);
                rolls = rolls.push(roll);
            }
            taken = taken + 1;
        }
    }

    /// Takes one turn for each pair of dice in `rolls`, in order, without
    /// throwing any dice.
    pub fn replay(&mut self, rolls: &Vec<RollPair>)
        requires
            old(self)@.wf(),
            old(self)@.turns + rolls.len() <= u64::MAX,
        ensures
            final(self)@ == old(self)@.played(rolls@),
            final(self)@.wf(),
            final(self)@.turns == old(self)@.turns + rolls.len(),
    {
        let mut i: usize = 0;
        while i < rolls.len()
            invariant
                i <= rolls.len(),
                self@ == old(self)@.played(rolls@.take(i as int)),
                self@.wf(),
                old(self)@.turns + rolls.len() <= u64::MAX,
                self@.turns == old(self)@.turns + i,
            decreases rolls.len() - i,
        {
            proof {
                assert(rolls@.take(i + 1).drop_last() =~= rolls@.take(i as int));
            }
            self.move_by(rolls[i]);
            i = i + 1;
        }
        proof {
            assert(rolls@.take(i as int) =~= rolls@);
        }
    }

    /// The most profitable space of the game under way: the one whose income
    /// exceeds its cost by most, the earliest on the board among equals.
    /// There is none where no space has earned more than it costs.
    pub fn best_road(&self) -> (best: Option<Road>)
        ensures
            best == self@.best_road(),
    {
        let ghost nets = self@.road_nets();
        let mut lead: Option<Road> = None;
        let mut margin: u128 = 0;
        let mut i: usize = 0;
        while i < 40
            invariant
                i <= 40,
                nets == self@.road_nets(),
                forall|j: int| 0 <= j < i ==> #[trigger] nets[j] <= margin,
                lead is None ==> margin == 0,
                lead matches Some(r) ==> {
                    &&& r.index() < i
                    &&& margin > 0
                    &&& nets[r.index() as int] == margin
                    &&& forall|j: int| 0 <= j < r.index() ==> #[trigger] nets[j] < margin
                },
            decreases 40 - i,
        {
            let road = Road::from_usize(i).unwrap();
            let cost = road.expenses();
            let income = self.gameincome.0[i];
            if income > cost && income - cost > margin {
                margin = income - cost;
                lead = Some(road);
            }
            i = i + 1;
        }
        proof {
            lemma_space_positions();
            match lead {
                Some(r) => {
                    assert(leads(nets, r.index() as int));
                    lemma_leader_is(nets, r.index() as int);
                },
                None => {
                    lemma_no_leader(nets);
                },
            }
        }
        lead
    }

    /// The most profitable group of the game under way, chosen as the most
    /// profitable space is, with the cost of the whole group against it.
    pub fn best_group(&self) -> (best: Option<BoardGroup>)
        ensures
            best == self@.best_group(),
    {
        let ghost nets = self@.group_nets();
        let mut lead: Option<BoardGroup> = None;
        let mut margin: u128 = 0;
        let mut i: usize = 0;
        while i < 15
            invariant
                i <= 15,
                nets == self@.group_nets(),
                forall|j: int| 0 <= j < i ==> #[trigger] nets[j] <= margin,
                lead is None ==> margin == 0,
                lead matches Some(g) ==> {
                    &&& g.index() < i
                    &&& margin > 0
                    &&& nets[g.index() as int] == margin
                    &&& forall|j: int| 0 <= j < g.index() ==> #[trigger] nets[j] < margin
                },
            decreases 15 - i,
        {
            let group = BoardGroup::from_usize(i).unwrap();
            let cost = group.expenses();
            let income = self.groupincome[i];
            if income > cost && income - cost > margin {
                margin = income - cost;
                lead = Some(group);
            }
            i = i + 1;
        }
        proof {
            lemma_group_positions();
            match lead {
                Some(g) => {
                    assert(leads(nets, g.index() as int));
                    lemma_leader_is(nets, g.index() as int);
                },
                None => {
                    lemma_no_leader(nets);
                },
            }
        }
        lead
    }

    /// Closes the game under way: the most profitable space and the most
    /// profitable group, where there is one, win a game, and the income of
    /// the game is cleared. Where nothing earned more than it cost, nothing
    /// wins.
    pub fn tally_game(&mut self)
        requires
            old(self)@.wf(),
        ensures
            final(self)@ == old(self)@.tallied(),
            final(self)@.wf(),
    {
        proof {
            lemma_tallied_wf(self@);
        }
        match self.best_road() {
            Some(r) => {
                let k: usize = r.ordinal() as usize;
                assert(self@.tallied().road_wins[k as int] == self@.road_wins[k as int] + 1);
                self.winner.0[k] = self.winner.0[k] + 1;
            },
            None => {},
        }
        match self.best_group() {
            Some(g) => {
                let k: usize = g.ordinal() as usize;
                assert(old(self)@.tallied().group_wins[k as int] == self@.group_wins[k as int]
                    + 1);
                self.groupwinner[k] = self.groupwinner[k] + 1;
            },
            None => {},
        }
        self.gameincome = Board([0; 40]);
        self.groupincome = [0; 15];
        proof {
            let after = old(self)@.tallied();
            assert(self@.visits =~= after.visits);
            assert(self@.groups =~= after.groups);
            assert(self@.road_income =~= after.road_income);
            assert(self@.group_income =~= after.group_income);
            assert(self@.road_wins =~= after.road_wins);
            assert(self@.group_wins =~= after.group_wins);
        }
    }

    /// Plays one whole game of `turns` turns: starts on the first space,
    /// throws the dice for each turn, and closes the game.
    pub fn play_game(&mut self, turns: u128)
        requires
            old(self)@.wf(),
            old(self)@.turns + turns <= u64::MAX,
        ensures
            exists|rolls: Seq<RollPair>|
                rolls.len() == turns && final(self)@ == old(self)@.game(rolls),
            final(self)@.wf(),
            final(self)@.turns == old(self)@.turns + turns,
    {
        self.start_game();
        self.take_turns(turns);
        self.tally_game();
    }

    /// Plays one whole game with the given dice: starts on the first space,
    /// takes one turn for each pair, and closes the game.
    pub fn replay_game(&mut self, rolls: &Vec<RollPair>)
        requires
            old(self)@.wf(),
            old(self)@.turns + rolls.len() <= u64::MAX,
        ensures
            final(self)@ == old(self)@.game(rolls@),
            final(self)@.wf(),
            final(self)@.turns == old(self)@.turns + rolls.len(),
    {
        self.start_game();
        self.replay(rolls);
        self.tally_game();
    }

    /// Plays one whole game for each list of dice in `games`, in order,
    /// without throwing any dice. Two players that start from the same
    /// counters and are given the same dice end with the same counters.
    pub fn replay_games(&mut self, games: &Vec<Vec<RollPair>>)
        requires
            old(self)@.wf(),
            old(self)@.turns + turns_in(dice_of(games@)) <= u64::MAX,
        ensures
            final(self)@ == old(self)@.run(dice_of(games@)),
            final(self)@.wf(),
            final(self)@.turns == old(self)@.turns + turns_in(dice_of(games@)),
    {
        let ghost all = dice_of(games@);
        let mut i: usize = 0;
        while i < games.len()
            invariant
                i <= games.len(),
                all == dice_of(games@),
                self@ == old(self)@.run(all.take(i as int)),
                self@.wf(),
                self@.turns == old(self)@.turns + turns_in(all.take(i as int)),
                old(self)@.turns + turns_in(all) <= u64::MAX,
            decreases games.len() - i,
        {
            proof {
                assert(all.take(i + 1).drop_last() =~= all.take(i as int));
                assert(all.take(i + 1).last() == games@[i as int]@);
                lemma_turns_in_prefix(all, i + 1);
            }
            self.replay_game(&games[i]);
            i = i + 1;
        }
        proof {
            assert(all.take(i as int) =~= all);
        }
    }
}

} // verus!
