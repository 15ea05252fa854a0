use vstd::prelude::*;
use crate::board::{grow_cell, neighbor_position, Board, BoardView, Position};
use crate::flower::{Flower, FlowerKind, FlowerState};
use crate::genetics::Picks;

verus! {

broadcast use {Flower::lemma_sprout_spec, Flower::lemma_grown_spec};

/// The random choices that decide what one flower does in the reproduction
/// pass of a tick.
#[derive(Clone, Copy, Debug, PartialEq, Eq)]
pub struct SpawnDraw {
    /// Whether the flower tries to reproduce at all.
    pub spawn: bool,
    /// Which mating partner, counted modulo the number of candidates.
    pub partner: usize,
    /// Which allele each parent hands on, slot by slot.
    pub picks: Picks,
    /// Which empty neighbour receives the new flower, counted modulo their number.
    pub place: usize,
}

impl BoardView {
    /// The kind of the flower that `f`, standing at `pos`, brings forth: mated
    /// with the chosen partner where there is one, else a copy of itself.
    pub open spec fn offspring(self, f: Flower, pos: Position, d: SpawnDraw) -> FlowerKind {
        let partners = self.crossable(pos, f.kind_spec(), 8);
        if partners.len() > 0 {
            f.kind_spec().mate_spec(partners[d.partner as int % partners.len() as int], d.picks)
        } else {
            f.kind_spec()
        }
    }

    /// The board after the flower at `pos` has had its turn to reproduce.
    pub open spec fn spawn_step(self, pos: Position, d: SpawnDraw) -> BoardView {
        if self.in_bound(pos) && d.spawn {
            match self.cell(pos) {
                Some(f) => {
                    let places = self.empty_neighbors(pos, 8);
                    if places.len() > 0 {
                        self.with_cell(
                            places[d.place as int % places.len() as int],
                            Some(Flower::sprout_spec(self.offspring(f, pos, d))),
                        )
                    } else {
                        self
                    }
                },
                None => self,
            }
        } else {
            self
        }
    }

    /// The board after each position of `steps` in turn has had its turn to
    /// reproduce, with the draw beside it.
    pub open spec fn spawn_all(self, steps: Seq<(Position, SpawnDraw)>) -> BoardView
        decreases steps.len(),
    {
        if steps.len() == 0 {
            self
        } else {
            self.spawn_all(steps.drop_last()).spawn_step(steps.last().0, steps.last().1)
        }
    }

    /// Every flower one step of growth further.
    pub open spec fn grown(self) -> BoardView {
        BoardView { cells: self.cells.map_values(|c: Option<Flower>| grow_cell(c)), ..self }
    }

    /// One tick: the growth pass, then the reproduction pass along `steps`.
    pub open spec fn tick(self, steps: Seq<(Position, SpawnDraw)>) -> BoardView {
        self.grown().spawn_all(steps)
    }

    /// `next` differs from `self` only where `self` had an empty cell, and
    /// such a cell has at most a sprout in `next`.
    pub open spec fn only_sprouts_added(self, next: BoardView) -> bool {
        &&& next.wf()
        &&& next.width == self.width
        &&& next.height == self.height
        &&& forall|i: int|
            0 <= i < self.cells.len() && (#[trigger] self.cells[i]) is Some ==> next.cells[i]
                == self.cells[i]
        &&& forall|i: int|
            0 <= i < self.cells.len() && (#[trigger] self.cells[i]) is None ==> (
            next.cells[i] is None || next.cells[i]->0.state_spec() == FlowerState::Sprout)
    }
}

proof fn lemma_crossable_species(b: BoardView, pos: Position, kind: FlowerKind, n: int)
    ensures
        forall|j: int|
            0 <= j < b.crossable(pos, kind, n).len() ==> (#[trigger] b.crossable(
                pos,
                kind,
                n,
            )[j]).species() == kind.species(),
    decreases n,
{
    if n > 0 {
        lemma_crossable_species(b, pos, kind, n - 1);
        let prev = b.crossable(pos, kind, n - 1);
        assert forall|j: int| 0 <= j < prev.len() implies (#[trigger] prev[j]).species()
            == kind.species() by {
            assert(b.crossable(pos, kind, n - 1)[j] == prev[j]);
        }
    }
}

proof fn lemma_empty_neighbors_empty(b: BoardView, pos: Position, n: int)
    ensures
        forall|j: int|
            0 <= j < b.empty_neighbors(pos, n).len() ==> b.in_bound(
                #[trigger] b.empty_neighbors(pos, n)[j],
            ) && b.cell(b.empty_neighbors(pos, n)[j]) is None,
    decreases n,
{
    if n > 0 {
        lemma_empty_neighbors_empty(b, pos, n - 1);
    }
}

/// One reproduction turn changes only empty cells, and fills them with sprouts.
pub proof fn lemma_spawn_step_adds_sprouts(b: BoardView, pos: Position, d: SpawnDraw)
    requires
        b.wf(),
    ensures
        b.only_sprouts_added(b.spawn_step(pos, d)),
{
    lemma_empty_neighbors_empty(b, pos, 8);
    let places = b.empty_neighbors(pos, 8);
    if b.in_bound(pos) && d.spawn && b.cell(pos) is Some && places.len() > 0 {
        let p = places[d.place as int % places.len() as int];
        assert(b.in_bound(p));
        crate::board::lemma_index_in_range(b.width, b.height, p.0 as nat, p.1 as nat);
    }
}

/// A whole reproduction pass changes only empty cells, and fills them with sprouts.
pub proof fn lemma_spawn_all_adds_sprouts(b: BoardView, steps: Seq<(Position, SpawnDraw)>)
    requires
        b.wf(),
    ensures
        b.only_sprouts_added(b.spawn_all(steps)),
    decreases steps.len(),
{
    if steps.len() > 0 {
        lemma_spawn_all_adds_sprouts(b, steps.drop_last());
        let mid = b.spawn_all(steps.drop_last());
        lemma_spawn_step_adds_sprouts(mid, steps.last().0, steps.last().1);
    }
}

/// A tick is a function of the board and the draws: two runs from equal
/// boards with equal draws end on equal boards.
pub proof fn lemma_tick_deterministic(
    b1: BoardView,
    b2: BoardView,
    steps1: Seq<(Position, SpawnDraw)>,
    steps2: Seq<(Position, SpawnDraw)>,
)
    requires
        b1 == b2,
        steps1 == steps2,
    ensures
        b1.tick(steps1) == b2.tick(steps2),
{
}

impl Board {
    /// The kinds of the matured neighbours of `pos` that are of `kind`'s
    /// species, in neighbour order.
    pub fn crossable_neighbors(&self, pos: Position, kind: &FlowerKind) -> (r: Vec<FlowerKind>)
        requires
            self@.wf(),
        ensures
            r@ == self@.crossable(pos, *kind, 8),
    {
        let nb = self.neighbors(pos);
        let mut r: Vec<FlowerKind> = Vec::new();
        let mut k: usize = 0;
        while k < 8
            invariant
                k <= 8,
                self@.wf(),
                forall|j: int| 0 <= j < 8 ==> crate::board::deref_flower(#[trigger] nb[j]) == self@.neighbor(pos, j),
                r@ == self@.crossable(pos, *kind, k as int),
            decreases 8 - k,
        {
            assert(crate::board::deref_flower(nb[k as int]) == self@.neighbor(pos, k as int));
            match nb[k] {
                Some(f) => {
                    if f.kind().same_kind(kind) && f.matured() {
                        r.push(*f.kind());
                    }
                },
                None => {},
            }
            k = k + 1;
        }
        r
    }

    /// The neighbours of `pos` that lie on the board and are empty, in
    /// neighbour order.
    pub fn empty_neighbor_positions(&self, pos: Position) -> (r: Vec<Position>)
        requires
            self@.wf(),
        ensures
            r@ == self@.empty_neighbors(pos, 8),
            forall|j: int| 0 <= j < r@.len() ==> self@.in_bound(#[trigger] r@[j]) && self@.cell(r@[j]) is None,
    {
        let ps = Board::neigbor_positions(pos);
        let mut r: Vec<Position> = Vec::new();
        let mut k: usize = 0;
        while k < 8
            invariant
                k <= 8,
                self@.wf(),
                forall|j: int| 0 <= j < 8 ==> #[trigger] ps[j] == neighbor_position(pos, j),
                r@ == self@.empty_neighbors(pos, k as int),
            decreases 8 - k,
        {
            assert(ps[k as int] == neighbor_position(pos, k as int));
            match ps[k] {
                (Some(x), Some(y)) => {
                    if self.is_in_bound((x, y)) {
                        match self.get((x, y)) {
                            Some(c) => {
                                if c.is_none() {
                                    r.push((x, y));
                                }
                            },
                            None => {},
                        }
                    }
                },
                _ => {},
            }
            k = k + 1;
        }
        proof {
            lemma_empty_neighbors_empty(self@, pos, 8);
        }
        r
    }

    /// The turn of the flower at `pos` in the reproduction pass, as the draw `d`
    /// decides it. Nothing happens where `pos` is off the board or empty, where
    /// the draw says not to spawn, or where no neighbour is free.
    pub fn spawn_step(&mut self, pos: Position, d: &SpawnDraw)
        requires
            old(self)@.wf(),
        ensures
            final(self)@ == old(self)@.spawn_step(pos, *d),
            final(self)@.wf(),
    {
        if !self.is_in_bound(pos) || !d.spawn {
            return;
        }
        let f = match self.get(pos) {
            Some(Some(f)) => *f,
            _ => return,
        };
        let places = self.empty_neighbor_positions(pos);
        if places.len() == 0 {
            return;
        }
        let partners = self.crossable_neighbors(pos, f.kind());
        proof {
            lemma_crossable_species(self@, pos, f.kind_spec(), 8);
        }
        let kind = if partners.len() > 0 {
            let partner = &partners[d.partner % partners.len()];
            f.kind().mate(partner, d.picks)
        } else {
            *f.kind()
        };
        let place = places[d.place % places.len()];
        self.set(place, Some(Flower::sprout(kind)));
    }

    /// One tick driven by the given draws: every flower grows one step, then
    /// each position of `steps` in turn has its reproduction turn.
    pub fn tick(&mut self, steps: &Vec<(Position, SpawnDraw)>)
        requires
            old(self)@.wf(),
        ensures
            final(self)@ == old(self)@.tick(steps@),
            final(self)@.wf(),
    {
        self.grow_all();
        assert(self@.cells =~= old(self)@.grown().cells);
        let mut i: usize = 0;
        while i < steps.len()
            invariant
                i <= steps@.len(),
                self@.wf(),
                self@ == old(self)@.grown().spawn_all(steps@.take(i as int)),
            decreases steps.len() - i,
        {
            let (pos, d) = steps[i];
            self.spawn_step(pos, &d);
            assert(steps@.take(i + 1).drop_last() == steps@.take(i as int));
            i = i + 1;
        }
        assert(steps@.take(steps@.len() as int) == steps@);
    }
}

} // verus!
