//! The statistics of a run as mathematical values, and what a turn and the
//! close of a game do to them.

use crate::dice::RollPair;
use crate::group::{lemma_group_positions, BoardGroup};
use crate::leader::{leader, leads, lemma_leader_is, lemma_no_leader};
use crate::road::{lemma_rent_bound, lemma_space_positions, Road};
use vstd::prelude::*;

verus! {

/// The counters of a player as mathematical values. Sequences over spaces
/// have one entry per space in board order; sequences over groups have one
/// entry per group in group order.
pub struct Stats {
    /// Visits of each space, over all games.
    pub visits: Seq<nat>,
    /// Visits of each group, over all games.
    pub groups: Seq<nat>,
    /// Rent credited to each space in the game under way.
    pub road_income: Seq<nat>,
    /// Rent credited to each group in the game under way.
    pub group_income: Seq<nat>,
    /// Games that each space came out of as the most profitable.
    pub road_wins: Seq<nat>,
    /// Games that each group came out of as the most profitable.
    pub group_wins: Seq<nat>,
    /// Where the token stands.
    pub position: Road,
    /// Turns taken, over all games.
    pub turns: nat,
}

/// The counters of an array as natural numbers.
pub open spec fn counts<const N: usize>(a: [u128; N]) -> Seq<nat> {
    Seq::new(N as nat, |i: int| a[i] as nat)
}

/// `n` counters that stand at zero.
pub open spec fn zeros(n: nat) -> Seq<nat> {
    Seq::new(n, |i: int| 0nat)
}

/// The first `n` entries of `v`, added up.
pub open spec fn total(v: Seq<nat>, n: nat) -> nat
    decreases n,
{
    if n == 0 {
        0
    } else {
        total(v, (n - 1) as nat) + v[n - 1]
    }
}

/// The entries of `v` that belong to the spaces of group `g`, among the
/// first `n` spaces of the board, added up.
pub open spec fn share(g: BoardGroup, v: Seq<nat>, n: nat) -> nat
    decreases n,
{
    if n == 0 {
        0
    } else {
        share(g, v, (n - 1) as nat) + if g.holds(Road::at(n - 1)) {
            v[n - 1]
        } else {
            0
        }
    }
}

impl Stats {
    /// The counters before the first turn, with the token on the first space.
    pub open spec fn fresh() -> Stats {
        Stats {
            visits: zeros(40),
            groups: zeros(15),
            road_income: zeros(40),
            group_income: zeros(15),
            road_wins: zeros(40),
            group_wins: zeros(15),
            position: Road::Go,
            turns: 0,
        }
    }

    /// Every sequence has one entry per space or per group.
    pub open spec fn shaped(self) -> bool {
        &&& self.visits.len() == 40
        &&& self.road_income.len() == 40
        &&& self.road_wins.len() == 40
        &&& self.groups.len() == 15
        &&& self.group_income.len() == 15
        &&& self.group_wins.len() == 15
    }

    /// Whether every counter that spans games stands at least as high as it
    /// does in `earlier`.
    pub open spec fn grown_from(self, earlier: Stats) -> bool {
        &&& self.shaped()
        &&& earlier.shaped()
        &&& earlier.turns <= self.turns
        &&& forall|i: int| 0 <= i < 40 ==> earlier.visits[i] <= #[trigger] self.visits[i]
        &&& forall|i: int| 0 <= i < 40 ==> earlier.road_wins[i] <= #[trigger] self.road_wins[i]
        &&& forall|i: int| 0 <= i < 15 ==> earlier.groups[i] <= #[trigger] self.groups[i]
        &&& forall|i: int| 0 <= i < 15 ==> earlier.group_wins[i] <= #[trigger] self.group_wins[i]
    }

    /// Whether any entry of the list is above zero.
    pub open spec fn any_positive(income: Seq<nat>) -> bool {
        exists|i: int| 0 <= i < income.len() && income[i] > 0
    }

    /// One if the list has an entry above zero, else zero: whether the game
    /// under way has earned anything yet.
    pub open spec fn earning(income: Seq<nat>) -> nat {
        if Stats::any_positive(income) {
            1
        } else {
            0
        }
    }

    /// Whether the books balance: every turn is a visit of one space, and a
    /// group has the visits and the income of its spaces, taken together.
    pub open spec fn balanced(self) -> bool {
        &&& total(self.visits, 40) == self.turns
        &&& forall|g: BoardGroup|
            self.groups[g.index() as int] == #[trigger] share(g, self.visits, 40)
        &&& forall|g: BoardGroup|
            self.group_income[g.index() as int] == #[trigger] share(g, self.road_income, 40)
    }

    /// Counters that a run can reach: the books balance; no space or group
    /// was visited more often than turns were taken; a visit credits at most
    /// the highest rent on the board; and a game is won only after a turn
    /// that earned rent.
    pub open spec fn wf(self) -> bool {
        &&& self.shaped()
        &&& self.balanced()
        &&& self.turns <= u64::MAX
        &&& forall|i: int| 0 <= i < 40 ==> #[trigger] self.visits[i] <= self.turns
        &&& forall|i: int| 0 <= i < 15 ==> #[trigger] self.groups[i] <= self.turns
        &&& forall|i: int| 0 <= i < 40 ==> #[trigger] self.road_income[i] <= 2000 * self.turns
        &&& forall|i: int| 0 <= i < 15 ==> #[trigger] self.group_income[i] <= 2000 * self.turns
        &&& forall|i: int|
            0 <= i < 40 ==> #[trigger] self.road_wins[i] + Stats::earning(self.road_income)
                <= self.turns
        &&& forall|i: int|
            0 <= i < 15 ==> #[trigger] self.group_wins[i] + Stats::earning(self.group_income)
                <= self.turns
    }

    /// The counters after one turn in which the dice show `roll`: the token
    /// moves, the space it reaches and that space's group are visited once
    /// more, and both are credited the highest rent of the space.
    pub open spec fn moved(self, roll: RollPair) -> Stats {
        let next = self.position.spec_advance(roll.steps());
        let group = BoardGroup::of(next);
        let rent = next.spec_rent().spec_max();
        let r = next.index() as int;
        let g = group.index() as int;
        Stats {
            visits: self.visits.update(r, self.visits[r] + 1),
            groups: self.groups.update(g, self.groups[g] + 1),
            road_income: self.road_income.update(r, self.road_income[r] + rent),
            group_income: self.group_income.update(g, self.group_income[g] + rent),
            position: next,
            turns: self.turns + 1,
            ..self
        }
    }

    /// The counters after one turn for each pair of dice in `rolls`, in order.
    pub open spec fn played(self, rolls: Seq<RollPair>) -> Stats
        decreases rolls.len(),
    {
        if rolls.len() == 0 {
            self
        } else {
            self.played(rolls.drop_last()).moved(rolls.last())
        }
    }

    /// What each space has earned in the game under way, less its cost.
    pub open spec fn road_nets(self) -> Seq<int> {
        Seq::new(40, |i: int| self.road_income[i] - Road::at(i).spec_expenses())
    }

    /// What each group has earned in the game under way, less its cost.
    pub open spec fn group_nets(self) -> Seq<int> {
        Seq::new(15, |i: int| self.group_income[i] - BoardGroup::at(i).spec_expenses())
    }

    /// The most profitable space of the game under way: the one with the
    /// greatest net return, the earliest on the board among equals, and none
    /// where no space has earned more than it costs.
    pub open spec fn best_road(self) -> Option<Road> {
        match leader(self.road_nets()) {
            Some(i) => Some(Road::at(i)),
            None => None,
        }
    }

    /// The most profitable group of the game under way, chosen as the most
    /// profitable space is.
    pub open spec fn best_group(self) -> Option<BoardGroup> {
        match leader(self.group_nets()) {
            Some(i) => Some(BoardGroup::at(i)),
            None => None,
        }
    }

    /// The counters after the game under way is closed: the most profitable
    /// space and the most profitable group, where there is one, have won one
    /// game more, and the income of the game is cleared.
    pub open spec fn tallied(self) -> Stats {
        Stats {
            road_wins: match self.best_road() {
                Some(r) => self.road_wins.update(
                    r.index() as int,
                    self.road_wins[r.index() as int] + 1,
                ),
                None => self.road_wins,
            },
            group_wins: match self.best_group() {
                Some(g) => self.group_wins.update(
                    g.index() as int,
                    self.group_wins[g.index() as int] + 1,
                ),
                None => self.group_wins,
            },
            road_income: zeros(40),
            group_income: zeros(15),
            ..self
        }
    }

    /// What a space has earned in the game under way, less its cost.
    pub open spec fn road_net(self, r: Road) -> int {
        self.road_income[r.index() as int] - r.spec_expenses()
    }

    /// What a group has earned in the game under way, less its cost.
    pub open spec fn group_net(self, g: BoardGroup) -> int {
        self.group_income[g.index() as int] - g.spec_expenses()
    }

    /// The games that a space has won.
    pub open spec fn wins_of(self, r: Road) -> nat {
        self.road_wins[r.index() as int]
    }

    /// The games that a group has won.
    pub open spec fn group_wins_of(self, g: BoardGroup) -> nat {
        self.group_wins[g.index() as int]
    }

    /// The counters with the token set back on the first space.
    pub open spec fn restarted(self) -> Stats {
        Stats { position: Road::Go, ..self }
    }

    /// The counters after one whole game: the token starts on the first
    /// space, takes one turn for each pair of dice, and the game is closed.
    pub open spec fn game(self, rolls: Seq<RollPair>) -> Stats {
        self.restarted().played(rolls).tallied()
    }

    /// The counters after one whole game for each list of dice in `games`, in
    /// order. What a run arrives at depends on nothing but where it started
    /// and the dice it saw.
    pub open spec fn run(self, games: Seq<Seq<RollPair>>) -> Stats
        decreases games.len(),
    {
        if games.len() == 0 {
            self
        } else {
            self.run(games.drop_last()).game(games.last())
        }
    }
}

/// The number of turns in a list of games.
pub open spec fn turns_in(games: Seq<Seq<RollPair>>) -> nat
    decreases games.len(),
{
    if games.len() == 0 {
        0
    } else {
        turns_in(games.drop_last()) + games.last().len()
    }
}

/// Raising one entry of a list raises the sum of a prefix by as much, where
/// the entry lies in the prefix.
pub proof fn lemma_total_update(v: Seq<nat>, n: nat, i: int, d: nat)
    requires
        0 <= i < v.len(),
        n <= v.len(),
    ensures
        total(v.update(i, v[i] + d), n) == total(v, n) + if i < n {
            d
        } else {
            0
        },
    decreases n,
{
    if n > 0 {
        lemma_total_update(v, (n - 1) as nat, i, d);
    }
}

/// Raising the entry of one space raises the share of that space's group by
/// as much, and the share of no other group.
pub proof fn lemma_share_update(g: BoardGroup, v: Seq<nat>, n: nat, i: int, d: nat)
    requires
        0 <= i < v.len(),
        n <= v.len(),
    ensures
        share(g, v.update(i, v[i] + d), n) == share(g, v, n) + if i < n && g.holds(Road::at(i)) {
            d
        } else {
            0
        },
    decreases n,
{
    if n > 0 {
        lemma_share_update(g, v, (n - 1) as nat, i, d);
    }
}

/// Counters that stand at zero add up to zero.
pub proof fn lemma_zeros_add_up(g: BoardGroup, n: nat)
    requires
        n <= 40,
    ensures
        total(zeros(40), n) == 0,
        share(g, zeros(40), n) == 0,
    decreases n,
{
    if n > 0 {
        lemma_zeros_add_up(g, (n - 1) as nat);
    }
}

/// The counters before the first turn are reachable.
pub proof fn lemma_fresh_wf()
    ensures
        Stats::fresh().wf(),
{
    let s = Stats::fresh();
    lemma_zeros_add_up(BoardGroup::Brown, 40);
    assert forall|g: BoardGroup| s.groups[g.index() as int] == #[trigger] share(
        g,
        s.visits,
        40,
    ) by {
        lemma_zeros_add_up(g, 40);
    }
    assert forall|g: BoardGroup| s.group_income[g.index() as int] == #[trigger] share(
        g,
        s.road_income,
        40,
    ) by {
        lemma_zeros_add_up(g, 40);
    }
    assert(!Stats::any_positive(s.road_income));
    assert(!Stats::any_positive(s.group_income));
}

/// A turn keeps the books balanced.
pub proof fn lemma_moved_balanced(s: Stats, roll: RollPair)
    requires
        s.shaped(),
        s.balanced(),
    ensures
        s.moved(roll).balanced(),
{
    lemma_space_positions();
    lemma_group_positions();
    let next = s.position.spec_advance(roll.steps());
    let rent = next.spec_rent().spec_max();
    let r = next.index() as int;
    let t = s.moved(roll);
    lemma_total_update(s.visits, 40, r, 1);
    assert forall|g: BoardGroup| t.groups[g.index() as int] == #[trigger] share(
        g,
        t.visits,
        40,
    ) by {
        lemma_share_update(g, s.visits, 40, r, 1);
        assert(s.groups[g.index() as int] == share(g, s.visits, 40));
    }
    assert forall|g: BoardGroup| t.group_income[g.index() as int] == #[trigger] share(
        g,
        t.road_income,
        40,
    ) by {
        lemma_share_update(g, s.road_income, 40, r, rent);
        assert(s.group_income[g.index() as int] == share(g, s.road_income, 40));
    }
}

/// Closing a game keeps the books balanced.
pub proof fn lemma_tallied_balanced(s: Stats)
    requires
        s.shaped(),
        s.balanced(),
    ensures
        s.tallied().balanced(),
{
    let t = s.tallied();
    assert forall|g: BoardGroup| t.groups[g.index() as int] == #[trigger] share(
        g,
        t.visits,
        40,
    ) by {
        assert(s.groups[g.index() as int] == share(g, s.visits, 40));
    }
    assert forall|g: BoardGroup| t.group_income[g.index() as int] == #[trigger] share(
        g,
        t.road_income,
        40,
    ) by {
        lemma_zeros_add_up(g, 40);
    }
}

/// A turn keeps reachable counters reachable, as long as the count of turns
/// fits its machine integer.
pub proof fn lemma_moved_wf(s: Stats, roll: RollPair)
    requires
        s.wf(),
        s.turns < u64::MAX,
    ensures
        s.moved(roll).wf(),
{
    let next = s.position.spec_advance(roll.steps());
    lemma_rent_bound(next);
    lemma_moved_balanced(s, roll);
    let t = s.moved(roll);
    assert(Stats::earning(t.road_income) <= 1);
    assert(Stats::earning(s.road_income) == 1 ==> Stats::earning(t.road_income) == 1) by {
        if Stats::any_positive(s.road_income) {
            let i = choose|i: int| 0 <= i < s.road_income.len() && s.road_income[i] > 0;
            assert(t.road_income[i] > 0);
        }
    }
    assert(Stats::earning(s.group_income) == 1 ==> Stats::earning(t.group_income) == 1) by {
        if Stats::any_positive(s.group_income) {
            let i = choose|i: int| 0 <= i < s.group_income.len() && s.group_income[i] > 0;
            assert(t.group_income[i] > 0);
        }
    }
}

/// Closing a game keeps reachable counters reachable.
pub proof fn lemma_tallied_wf(s: Stats)
    requires
        s.wf(),
    ensures
        s.tallied().wf(),
        s.best_road() matches Some(r) ==> s.road_wins[r.index() as int] < s.turns,
        s.best_group() matches Some(g) ==> s.group_wins[g.index() as int] < s.turns,
{
    lemma_space_positions();
    lemma_group_positions();
    lemma_tallied_balanced(s);
    let t = s.tallied();
    assert(!Stats::any_positive(t.road_income));
    assert(!Stats::any_positive(t.group_income));
    if let Some(i) = leader(s.road_nets()) {
        assert(leads(s.road_nets(), i));
        assert(s.road_income[i] > 0);
        assert(Stats::any_positive(s.road_income));
    }
    if let Some(i) = leader(s.group_nets()) {
        assert(leads(s.group_nets(), i));
        assert(s.group_income[i] > 0);
        assert(Stats::any_positive(s.group_income));
    }
}

/// Turns keep reachable counters reachable and are counted one by one, as
/// long as the count of turns fits its machine integer.
pub proof fn lemma_played_wf(s: Stats, rolls: Seq<RollPair>)
    requires
        s.wf(),
        s.turns + rolls.len() <= u64::MAX,
    ensures
        s.played(rolls).wf(),
        s.played(rolls).turns == s.turns + rolls.len(),
    decreases rolls.len(),
{
    if rolls.len() > 0 {
        lemma_played_wf(s, rolls.drop_last());
        lemma_moved_wf(s.played(rolls.drop_last()), rolls.last());
    }
}

/// The dice of each game of a list, as mathematical sequences.
pub open spec fn dice_of(games: Seq<Vec<RollPair>>) -> Seq<Seq<RollPair>> {
    Seq::new(games.len(), |i: int| games[i]@)
}

/// The games at the start of a list hold no more turns than the whole list.
pub proof fn lemma_turns_in_prefix(games: Seq<Seq<RollPair>>, n: int)
    requires
        0 <= n <= games.len(),
    ensures
        turns_in(games.take(n)) <= turns_in(games),
    decreases games.len(),
{
    if n < games.len() {
        assert(games.drop_last().take(n) =~= games.take(n));
        lemma_turns_in_prefix(games.drop_last(), n);
    } else {
        assert(games.take(n) =~= games);
    }
}

/// A whole game keeps reachable counters reachable and counts its turns.
pub proof fn lemma_game_wf(s: Stats, rolls: Seq<RollPair>)
    requires
        s.wf(),
        s.turns + rolls.len() <= u64::MAX,
    ensures
        s.game(rolls).wf(),
        s.game(rolls).turns == s.turns + rolls.len(),
{
    lemma_played_wf(s.restarted(), rolls);
    lemma_tallied_wf(s.restarted().played(rolls));
}

/// A run of games keeps reachable counters reachable and counts its turns.
pub proof fn lemma_run_wf(s: Stats, games: Seq<Seq<RollPair>>)
    requires
        s.wf(),
        s.turns + turns_in(games) <= u64::MAX,
    ensures
        s.run(games).wf(),
        s.run(games).turns == s.turns + turns_in(games),
    decreases games.len(),
{
    if games.len() > 0 {
        lemma_run_wf(s, games.drop_last());
        lemma_game_wf(s.run(games.drop_last()), games.last());
    }
}

/// Two runs that start from the same counters and see the same dice, game by
/// game and turn by turn, arrive at the same counters.
pub proof fn lemma_same_dice_same_counts(
    a: Stats,
    b: Stats,
    first: Seq<Seq<RollPair>>,
    second: Seq<Seq<RollPair>>,
)
    requires
        a == b,
        first.len() == second.len(),
        forall|i: int| 0 <= i < first.len() ==> #[trigger] first[i].len() == second[i].len(),
        forall|i: int, j: int|
            0 <= i < first.len() && 0 <= j < first[i].len() ==> first[i][j] == second[i][j],
    ensures
        a.run(first) == b.run(second),
{
    assert forall|i: int| 0 <= i < first.len() implies first[i] == second[i] by {
        assert(first[i].len() == second[i].len());
        assert(first[i] =~= second[i]);
    }
    assert(first =~= second);
}

/// A token never leaves the board, and a token that was sent to jail moves
/// on from the jail: the space reached lies as many spaces past the space
/// of departure as the step says, counted round the board.
pub proof fn lemma_advance_on_board(from: Road, step: nat)
    ensures
        from.spec_advance(step).index() < 40,
        from.spec_advance(step).index() == (from.departure().index() + step) % 40,
        Road::GotoJail.spec_advance(step) == Road::Jail.spec_advance(step),
{
    lemma_space_positions();
}

/// The space that is positive in net return, second to none, and ahead of
/// every space before it on the board is the most profitable one: among
/// equals the earliest wins.
pub proof fn lemma_best_road(s: Stats, r: Road)
    requires
        s.shaped(),
        s.road_net(r) > 0,
        forall|q: Road| s.road_net(q) <= s.road_net(r),
        forall|q: Road| q.index() < r.index() ==> s.road_net(q) < s.road_net(r),
    ensures
        s.best_road() == Some(r),
{
    lemma_space_positions();
    let nets = s.road_nets();
    let i = r.index() as int;
    assert forall|j: int| 0 <= j < nets.len() implies nets[j] <= nets[i] by {
        assert(nets[j] == s.road_net(Road::at(j)));
    }
    assert forall|j: int| 0 <= j < i implies nets[j] < nets[i] by {
        assert(nets[j] == s.road_net(Road::at(j)));
    }
    lemma_leader_is(nets, i);
}

/// The group that is positive in net return, second to none, and ahead of
/// every group before it is the most profitable one.
pub proof fn lemma_best_group(s: Stats, g: BoardGroup)
    requires
        s.shaped(),
        s.group_net(g) > 0,
        forall|h: BoardGroup| s.group_net(h) <= s.group_net(g),
        forall|h: BoardGroup| h.index() < g.index() ==> s.group_net(h) < s.group_net(g),
    ensures
        s.best_group() == Some(g),
{
    lemma_group_positions();
    let nets = s.group_nets();
    let i = g.index() as int;
    assert forall|j: int| 0 <= j < nets.len() implies nets[j] <= nets[i] by {
        assert(nets[j] == s.group_net(BoardGroup::at(j)));
    }
    assert forall|j: int| 0 <= j < i implies nets[j] < nets[i] by {
        assert(nets[j] == s.group_net(BoardGroup::at(j)));
    }
    lemma_leader_is(nets, i);
}

/// Where one space has a positive net return that is greater than that of
/// every other space, closing the game adds one win to that space and leaves
/// the wins of every other space as they were.
pub proof fn lemma_sole_best_road_wins(s: Stats, r: Road)
    requires
        s.shaped(),
        s.road_net(r) > 0,
        forall|q: Road| q != r ==> s.road_net(q) < s.road_net(r),
    ensures
        s.tallied().wins_of(r) == s.wins_of(r) + 1,
        forall|q: Road| q != r ==> s.tallied().wins_of(q) == s.wins_of(q),
{
    lemma_space_positions();
    lemma_best_road(s, r);
}

/// Where one group has a positive net return that is greater than that of
/// every other group, closing the game adds one win to that group and leaves
/// the wins of every other group as they were.
pub proof fn lemma_sole_best_group_wins(s: Stats, g: BoardGroup)
    requires
        s.shaped(),
        s.group_net(g) > 0,
        forall|h: BoardGroup| h != g ==> s.group_net(h) < s.group_net(g),
    ensures
        s.tallied().group_wins_of(g) == s.group_wins_of(g) + 1,
        forall|h: BoardGroup| h != g ==> s.tallied().group_wins_of(h) == s.group_wins_of(h),
{
    lemma_group_positions();
    lemma_best_group(s, g);
}

/// Where no space has earned more than it costs, closing the game gives no
/// space a win.
pub proof fn lemma_no_road_wins(s: Stats)
    requires
        s.shaped(),
        forall|q: Road| s.road_net(q) <= 0,
    ensures
        s.best_road() is None,
        s.tallied().road_wins == s.road_wins,
{
    lemma_space_positions();
    let nets = s.road_nets();
    assert forall|j: int| 0 <= j < nets.len() implies nets[j] <= 0 by {
        assert(nets[j] == s.road_net(Road::at(j)));
    }
    lemma_no_leader(nets);
}

/// Where no group has earned more than it costs, closing the game gives no
/// group a win.
pub proof fn lemma_no_group_wins(s: Stats)
    requires
        s.shaped(),
        forall|h: BoardGroup| s.group_net(h) <= 0,
    ensures
        s.best_group() is None,
        s.tallied().group_wins == s.group_wins,
{
    lemma_group_positions();
    let nets = s.group_nets();
    assert forall|j: int| 0 <= j < nets.len() implies nets[j] <= 0 by {
        assert(nets[j] == s.group_net(BoardGroup::at(j)));
    }
    lemma_no_leader(nets);
}

/// A turn lowers no count of visits, of wins or of turns.
pub proof fn lemma_moved_grows(s: Stats, roll: RollPair)
    requires
        s.shaped(),
    ensures
        s.moved(roll).grown_from(s),
{
    lemma_space_positions();
    lemma_group_positions();
}

/// Neither the start nor the close of a game lowers a count of visits, of
/// wins or of turns.
pub proof fn lemma_tallied_grows(s: Stats)
    requires
        s.shaped(),
    ensures
        s.tallied().grown_from(s),
        s.restarted().grown_from(s),
{
    lemma_space_positions();
    lemma_group_positions();
}

/// Growth carries over: counters grown from counters that have grown have
/// grown themselves.
pub proof fn lemma_grown_chain(a: Stats, b: Stats, c: Stats)
    requires
        b.grown_from(a),
        c.grown_from(b),
    ensures
        c.grown_from(a),
{
    assert forall|i: int| 0 <= i < 40 implies a.visits[i] <= #[trigger] c.visits[i] by {
        assert(a.visits[i] <= b.visits[i]);
    }
    assert forall|i: int| 0 <= i < 40 implies a.road_wins[i] <= #[trigger] c.road_wins[i] by {
        assert(a.road_wins[i] <= b.road_wins[i]);
    }
    assert forall|i: int| 0 <= i < 15 implies a.groups[i] <= #[trigger] c.groups[i] by {
        assert(a.groups[i] <= b.groups[i]);
    }
    assert forall|i: int| 0 <= i < 15 implies a.group_wins[i] <= #[trigger] c.group_wins[i] by {
        assert(a.group_wins[i] <= b.group_wins[i]);
    }
}

/// No count of visits, of wins or of turns falls in the course of turns.
pub proof fn lemma_played_grows(s: Stats, rolls: Seq<RollPair>)
    requires
        s.shaped(),
    ensures
        s.played(rolls).grown_from(s),
    decreases rolls.len(),
{
    if rolls.len() > 0 {
        let before = s.played(rolls.drop_last());
        lemma_played_grows(s, rolls.drop_last());
        lemma_moved_grows(before, rolls.last());
        lemma_grown_chain(s, before, before.moved(rolls.last()));
    }
}

/// No count of visits, of wins or of turns falls in the course of a game.
pub proof fn lemma_game_grows(s: Stats, rolls: Seq<RollPair>)
    requires
        s.shaped(),
    ensures
        s.game(rolls).grown_from(s),
{
    let started = s.restarted();
    let played = started.played(rolls);
    lemma_tallied_grows(s);
    lemma_played_grows(started, rolls);
    lemma_tallied_grows(played);
    lemma_grown_chain(s, started, played);
    lemma_grown_chain(s, played, played.tallied());
}

/// No count of visits, of wins or of turns falls in the course of a run.
pub proof fn lemma_run_grows(s: Stats, games: Seq<Seq<RollPair>>)
    requires
        s.shaped(),
    ensures
        s.run(games).grown_from(s),
    decreases games.len(),
{
    if games.len() > 0 {
        let before = s.run(games.drop_last());
        lemma_run_grows(s, games.drop_last());
        lemma_game_grows(before, games.last());
        lemma_grown_chain(s, before, before.game(games.last()));
    }
}

} // verus!
