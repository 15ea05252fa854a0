use vstd::prelude::*;
use rand::rngs::ThreadRng;
use rand::seq::SliceRandom;
use rand::Rng;
use crate::board::{Board, BoardView, Position};
use crate::breeding::SpawnDraw;
use crate::flower::{Flower, FlowerKind};
use crate::genetics::Picks;

verus! {

broadcast use Flower::lemma_sprout_spec;

#[verifier::external_type_specification]
#[verifier::external_body]
pub struct ExThreadRng(rand::rngs::ThreadRng);

/// Relies on rand::thread_rng, which hands out the thread's generator; nothing
/// is promised of it.
pub assume_specification[ rand::thread_rng ]() -> rand::rngs::ThreadRng;

/// Relies on rand::Rng::gen_ratio: true with probability `numerator / denominator`,
/// always true when the two are equal and never when `numerator` is 0 (see
/// Bernoulli::from_ratio and its sample); it panics unless `0 < denominator`
/// and `numerator <= denominator`.
#[verifier::external_body]
fn draw_ratio(rng: &mut ThreadRng, numerator: u32, denominator: u32) -> (r: bool)
    requires
        0 < denominator,
        numerator <= denominator,
    ensures
        numerator == denominator ==> r,
        numerator == 0 ==> !r,
{
    rng.gen_ratio(numerator, denominator)
}

/// Relies on rand::Rng::gen_range over `0..bound`: a value below `bound`; it
/// panics on an empty range.
#[verifier::external_body]
fn draw_below(rng: &mut ThreadRng, bound: usize) -> (r: usize)
    requires
        bound > 0,
    ensures
        r < bound,
{
    rng.gen_range(0..bound)
}

/// Relies on rand::seq::SliceRandom::shuffle: the same items, reordered in place.
#[verifier::external_body]
fn shuffle_positions(v: &mut Vec<Position>, rng: &mut ThreadRng)
    ensures
        final(v)@.to_multiset() == old(v)@.to_multiset(),
{
    v.shuffle(rng)
}

/// The chance that a flower tries to reproduce in a tick, unless set otherwise:
/// one in twenty.
pub const SPAWN_NUMERATOR: u32 = 1;

pub const SPAWN_DENOMINATOR: u32 = 20;

/// A board of flowers and the random source that drives its ticks.
#[derive(Debug)]
pub struct Simulator {
    rng: ThreadRng,
    board: Board,
    spawn_numerator: u32,
    spawn_denominator: u32,
}

impl Simulator {
    pub closed spec fn board_view(&self) -> BoardView {
        self.board@
    }

    /// The chance of reproduction, as numerator and denominator.
    pub closed spec fn spawn_rate(&self) -> (u32, u32) {
        (self.spawn_numerator, self.spawn_denominator)
    }

    pub open spec fn wf(&self) -> bool {
        &&& self.board_view().wf()
        &&& 0 < self.spawn_rate().1
        &&& self.spawn_rate().0 <= self.spawn_rate().1
    }

    /// An empty board of `width` columns and `height` rows, with the default
    /// chance of reproduction.
    pub fn new(width: usize, height: usize) -> (r: Simulator)
        requires
            width * height <= usize::MAX,
        ensures
            r.wf(),
            r.board_view().width == width,
            r.board_view().height == height,
            forall|i: int|
                0 <= i < r.board_view().cells.len() ==> (#[trigger] r.board_view().cells[i]) is None,
            r.spawn_rate() == (SPAWN_NUMERATOR, SPAWN_DENOMINATOR),
    {
        Simulator {
            rng: rand::thread_rng(),
            board: Board::new(width, height),
            spawn_numerator: SPAWN_NUMERATOR,
            spawn_denominator: SPAWN_DENOMINATOR,
        }
    }

    /// The board, for inspection.
    pub fn board(&self) -> (r: &Board)
        ensures
            r@ == self.board_view(),
    {
        &self.board
    }

    /// Sets the chance of reproduction to `numerator / denominator`. Refused,
    /// leaving the chance as it was, unless `0 < denominator` and
    /// `numerator <= denominator`.
    pub fn set_spawn_rate(&mut self, numerator: u32, denominator: u32) -> (r: bool)
        requires
            old(self).wf(),
        ensures
            final(self).wf(),
            final(self).board_view() == old(self).board_view(),
            r == (0 < denominator && numerator <= denominator),
            r ==> final(self).spawn_rate() == (numerator, denominator),
            !r ==> final(self).spawn_rate() == old(self).spawn_rate(),
    {
        if 0 < denominator && numerator <= denominator {
            self.spawn_numerator = numerator;
            self.spawn_denominator = denominator;
            true
        } else {
            false
        }
    }

    /// Puts a new sprout of `kind` at `pos`, whatever the cell held.
    pub fn plant_at(&mut self, pos: Position, kind: FlowerKind)
        requires
            old(self).wf(),
            old(self).board_view().in_bound(pos),
        ensures
            final(self).wf(),
            final(self).spawn_rate() == old(self).spawn_rate(),
            final(self).board_view() == old(self).board_view().with_cell(
                pos,
                Some(Flower::sprout_spec(kind)),
            ),
            final(self).board_view().cell(pos) == Some(Flower::sprout_spec(kind)),
    {
        self.board.set(pos, Some(Flower::sprout(kind)));
        proof {
            crate::board::lemma_index_in_range(
                self.board@.width,
                self.board@.height,
                pos.0 as nat,
                pos.1 as nat,
            );
        }
    }

    fn coin(&mut self) -> (r: bool)
        ensures
            final(self).board == old(self).board,
            final(self).spawn_numerator == old(self).spawn_numerator,
            final(self).spawn_denominator == old(self).spawn_denominator,
    {
        draw_below(&mut self.rng, 2) == 1
    }

    /// Which allele each parent hands on, for `slots` trait slots.
    fn draw_picks(&mut self, slots: usize) -> (r: Picks)
        ensures
            final(self).board == old(self).board,
            final(self).spawn_numerator == old(self).spawn_numerator,
            final(self).spawn_denominator == old(self).spawn_denominator,
    {
        let a0 = self.coin();
        let b0 = self.coin();
        let a1 = self.coin();
        let b1 = self.coin();
        let a2 = self.coin();
        let b2 = self.coin();
        let (a3, b3) = if slots > 3 {
            let a3 = self.coin();
            let b3 = self.coin();
            (a3, b3)
        } else {
            (false, false)
        };
        [(a0, b0), (a1, b1), (a2, b2), (a3, b3)]
    }

    /// Draws what the flower at `pos` does in its reproduction turn: whether it
    /// tries, its partner, the alleles handed on and the cell of the child, in
    /// that order and only as far as they are needed.
    fn draw_for(&mut self, pos: Position) -> (r: SpawnDraw)
        requires
            old(self).wf(),
        ensures
            final(self).board == old(self).board,
            final(self).spawn_numerator == old(self).spawn_numerator,
            final(self).spawn_denominator == old(self).spawn_denominator,
            old(self).spawn_numerator == old(self).spawn_denominator && old(self).board@.in_bound(
                pos,
            ) && old(self).board@.cell(pos) is Some ==> r.spawn,
            old(self).spawn_numerator == 0 ==> !r.spawn,
    {
        let idle = SpawnDraw { spawn: false, partner: 0, picks: [(false, false); 4], place: 0 };
        if !draw_ratio(&mut self.rng, self.spawn_numerator, self.spawn_denominator) {
            return idle;
        }
        let kind = match self.board.get(pos) {
            Some(Some(f)) => *f.kind(),
            _ => return idle,
        };
        let partners = self.board.crossable_neighbors(pos, &kind);
        let mut partner: usize = 0;
        let mut picks: Picks = [(false, false); 4];
        if partners.len() > 0 {
            partner = draw_below(&mut self.rng, partners.len());
            let slots: usize = match kind {
                FlowerKind::Rose(_) => 4,
                _ => 3,
            };
            picks = self.draw_picks(slots);
        }
        let places = self.board.empty_neighbor_positions(pos);
        let mut place: usize = 0;
        if places.len() > 0 {
            place = draw_below(&mut self.rng, places.len());
        }
        SpawnDraw { spawn: true, partner, picks, place }
    }

    /// The growth pass: every flower grows one step.
    fn grow_all(&mut self)
        requires
            old(self).wf(),
        ensures
            final(self).wf(),
            final(self).spawn_rate() == old(self).spawn_rate(),
            final(self).board_view() == old(self).board_view().grown(),
    {
        self.board.grow_all();
        assert(self.board@.cells =~= old(self).board@.grown().cells);
    }

    /// The reproduction pass: the occupied positions, shuffled, each take
    /// their turn with freshly drawn choices.
    fn spawn_all(&mut self)
        requires
            old(self).wf(),
        ensures
            final(self).wf(),
            final(self).spawn_rate() == old(self).spawn_rate(),
            exists|steps: Seq<(Position, SpawnDraw)>|
                {
                    &&& steps.map_values(|s: (Position, SpawnDraw)| s.0).to_multiset()
                        == old(self).board_view().occupied(
                        old(self).board_view().cells.len() as int,
                    ).to_multiset()
                    &&& final(self).board_view() == old(self).board_view().spawn_all(steps)
                    &&& old(self).spawn_rate().0 == old(self).spawn_rate().1 ==> forall|j: int|
                        0 <= j < steps.len() ==> (#[trigger] steps[j]).1.spawn
                    &&& old(self).spawn_rate().0 == 0 ==> forall|j: int|
                        0 <= j < steps.len() ==> !(#[trigger] steps[j]).1.spawn
                },
    {
        let mut order = self.board.flower_positions();
        let ghost listed = order@;
        shuffle_positions(&mut order, &mut self.rng);
        proof {
            crate::board::lemma_occupied_cells(self.board@, self.board@.cells.len() as int);
            assert forall|j: int| 0 <= j < order@.len() implies self.board@.in_bound(
                #[trigger] order@[j],
            ) && self.board@.cell(order@[j]) is Some by {
                vstd::seq_lib::to_multiset_contains(order@, order@[j]);
                vstd::seq_lib::to_multiset_contains(listed, order@[j]);
                assert(order@.contains(order@[j]));
                let k = choose|k: int| 0 <= k < listed.len() && listed[k] == order@[j];
                assert(listed[k] == order@[j]);
            }
        }
        let ghost start = self.board@;
        let ghost mut steps: Seq<(Position, SpawnDraw)> = seq![];
        let mut i: usize = 0;
        while i < order.len()
            invariant
                self.wf(),
                self.spawn_rate() == old(self).spawn_rate(),
                start == old(self).board_view(),
                i <= order@.len(),
                steps.len() == i,
                forall|j: int| 0 <= j < i ==> (#[trigger] steps[j]).0 == order@[j],
                self.board@ == start.spawn_all(steps),
                forall|j: int|
                    i <= j < order@.len() ==> self.board@.in_bound(#[trigger] order@[j])
                        && self.board@.cell(order@[j]) is Some,
                self.spawn_rate().0 == self.spawn_rate().1 ==> forall|j: int|
                    0 <= j < i ==> (#[trigger] steps[j]).1.spawn,
                self.spawn_rate().0 == 0 ==> forall|j: int|
                    0 <= j < i ==> !(#[trigger] steps[j]).1.spawn,
            decreases order.len() - i,
        {
            let pos = order[i];
            let d = self.draw_for(pos);
            let ghost before = self.board@;
            self.board.spawn_step(pos, &d);
            proof {
                crate::breeding::lemma_spawn_step_adds_sprouts(before, pos, d);
                assert forall|j: int| i + 1 <= j < order@.len() implies self.board@.in_bound(
                    #[trigger] order@[j],
                ) && self.board@.cell(order@[j]) is Some by {
                    let q = order@[j];
                    assert(before.in_bound(q) && before.cell(q) is Some);
                    crate::board::lemma_index_in_range(
                        before.width,
                        before.height,
                        q.0 as nat,
                        q.1 as nat,
                    );
                    assert(before.cells[before.index_of(q)] is Some);
                }
                let next = steps.push((pos, d));
                assert(next.drop_last() =~= steps);
                assert(next[i as int] == (pos, d));
                assert forall|j: int| 0 <= j < i implies next[j] == steps[j] by {}
                steps = next;
            }
            i = i + 1;
        }
        assert(steps.map_values(|s: (Position, SpawnDraw)| s.0) =~= order@);
    }

    /// One tick: the growth pass, then the reproduction pass. Whatever the
    /// draws, the result is the tick of the board under some draws for its
    /// occupied positions, each taken once.
    pub fn next_state(&mut self)
        requires
            old(self).wf(),
        ensures
            final(self).wf(),
            final(self).spawn_rate() == old(self).spawn_rate(),
            exists|steps: Seq<(Position, SpawnDraw)>|
                {
                    &&& steps.map_values(|s: (Position, SpawnDraw)| s.0).to_multiset()
                        == old(self).board_view().grown().occupied(
                        old(self).board_view().cells.len() as int,
                    ).to_multiset()
                    &&& final(self).board_view() == old(self).board_view().tick(steps)
                    &&& old(self).spawn_rate().0 == old(self).spawn_rate().1 ==> forall|j: int|
                        0 <= j < steps.len() ==> (#[trigger] steps[j]).1.spawn
                    &&& old(self).spawn_rate().0 == 0 ==> forall|j: int|
                        0 <= j < steps.len() ==> !(#[trigger] steps[j]).1.spawn
                },
            old(self).board_view().grown().only_sprouts_added(final(self).board_view()),
    {
        self.grow_all();
        let ghost grown = self.board@;
        self.spawn_all();
        proof {
            let steps = choose|steps: Seq<(Position, SpawnDraw)>|
                {
                    &&& steps.map_values(|s: (Position, SpawnDraw)| s.0).to_multiset()
                        == grown.occupied(grown.cells.len() as int).to_multiset()
                    &&& self.board@ == grown.spawn_all(steps)
                    &&& self.spawn_rate().0 == self.spawn_rate().1 ==> forall|j: int|
                        0 <= j < steps.len() ==> (#[trigger] steps[j]).1.spawn
                    &&& self.spawn_rate().0 == 0 ==> forall|j: int|
                        0 <= j < steps.len() ==> !(#[trigger] steps[j]).1.spawn
                };
            crate::breeding::lemma_spawn_all_adds_sprouts(grown, steps);
            assert(grown == old(self).board_view().grown());
            assert(self.board@ == old(self).board_view().tick(steps));
        }
    }
}

} // verus!
