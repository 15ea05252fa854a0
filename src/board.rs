use vstd::prelude::*;
use crate::flower::{Flower, FlowerKind};

verus! {

/// A board position `(x, y)`: `x` grows to the right, `y` downwards.
pub type Position = (usize, usize);

/// Offset `k` (0 to 7) of the eight neighbours, in the order NW, N, NE, W, E, SW, S, SE.
pub open spec fn offset(k: int) -> (int, int) {
    if k == 0 {
        (-1, -1)
    } else if k == 1 {
        (0, -1)
    } else if k == 2 {
        (1, -1)
    } else if k == 3 {
        (-1, 0)
    } else if k == 4 {
        (1, 0)
    } else if k == 5 {
        (-1, 1)
    } else if k == 6 {
        (0, 1)
    } else {
        (1, 1)
    }
}

/// `v + d`, or nothing when it would leave the range of `usize`.
pub open spec fn shifted(v: usize, d: int) -> Option<usize> {
    if 0 <= v + d <= usize::MAX {
        Some((v + d) as usize)
    } else {
        None
    }
}

/// The coordinates of neighbour `k` of `p`, each absent where it would be negative.
pub open spec fn neighbor_position(p: Position, k: int) -> (Option<usize>, Option<usize>) {
    (shifted(p.0, offset(k).0), shifted(p.1, offset(k).1))
}

pub open spec fn deref_flower(o: Option<&Flower>) -> Option<Flower> {
    match o {
        Some(f) => Some(*f),
        None => None,
    }
}

/// What a board holds: its cells in row-major order, and its dimensions.
pub struct BoardView {
    pub cells: Seq<Option<Flower>>,
    pub width: nat,
    pub height: nat,
}

impl BoardView {
    pub open spec fn wf(self) -> bool {
        &&& self.cells.len() == self.width * self.height
        &&& self.width <= usize::MAX
        &&& self.height <= usize::MAX
    }

    pub open spec fn in_bound(self, p: Position) -> bool {
        p.0 < self.width && p.1 < self.height
    }

    pub open spec fn index_of(self, p: Position) -> int {
        p.1 * self.width + p.0
    }

    /// The position of the cell at row-major index `i`.
    pub open spec fn position_of(self, i: int) -> Position {
        ((i % self.width as int) as usize, (i / self.width as int) as usize)
    }

    pub open spec fn cell(self, p: Position) -> Option<Flower> {
        self.cells[self.index_of(p)]
    }

    pub open spec fn with_cell(self, p: Position, c: Option<Flower>) -> BoardView {
        BoardView { cells: self.cells.update(self.index_of(p), c), ..self }
    }

    /// The occupant of neighbour `k` of `p`, if that neighbour lies on the board.
    pub open spec fn neighbor(self, p: Position, k: int) -> Option<Flower> {
        match neighbor_position(p, k) {
            (Some(x), Some(y)) => if self.in_bound((x, y)) {
                self.cell((x, y))
            } else {
                None
            },
            _ => None,
        }
    }

    /// The positions of the occupied cells among the first `n`, in row-major order.
    pub open spec fn occupied(self, n: int) -> Seq<Position>
        decreases n,
    {
        if n <= 0 {
            seq![]
        } else if self.cells[n - 1] is Some {
            self.occupied(n - 1).push(self.position_of(n - 1))
        } else {
            self.occupied(n - 1)
        }
    }

    /// The kinds of the matured flowers of `kind`'s species among the first `n`
    /// neighbours of `p`, in neighbour order.
    pub open spec fn crossable(self, p: Position, kind: FlowerKind, n: int) -> Seq<FlowerKind>
        decreases n,
    {
        if n <= 0 {
            seq![]
        } else {
            let prev = self.crossable(p, kind, n - 1);
            match self.neighbor(p, n - 1) {
                Some(f) => if f.kind_spec().species() == kind.species() && f.is_matured() {
                    prev.push(f.kind_spec())
                } else {
                    prev
                },
                None => prev,
            }
        }
    }

    /// The empty cells of the board among the first `n` neighbours of `p`, in
    /// neighbour order.
    pub open spec fn empty_neighbors(self, p: Position, n: int) -> Seq<Position>
        decreases n,
    {
        if n <= 0 {
            seq![]
        } else {
            let prev = self.empty_neighbors(p, n - 1);
            match neighbor_position(p, n - 1) {
                (Some(x), Some(y)) => if self.in_bound((x, y)) && self.cell((x, y)) is None {
                    prev.push((x, y))
                } else {
                    prev
                },
                _ => prev,
            }
        }
    }
}

pub open spec fn grow_cell(c: Option<Flower>) -> Option<Flower> {
    match c {
        Some(f) => Some(f.grown_spec()),
        None => None,
    }
}

pub proof fn lemma_index_in_range(w: nat, h: nat, x: nat, y: nat)
    requires
        x < w,
        y < h,
    ensures
        0 <= y * w + x < w * h,
{
    assert(y * w + x < w * h) by (nonlinear_arith)
        requires
            x < w,
            y < h,
    ;
}

/// Each position listed by `occupied` lies on the board and holds a flower.
pub proof fn lemma_occupied_cells(b: BoardView, n: int)
    requires
        b.wf(),
        n <= b.cells.len(),
    ensures
        forall|j: int|
            0 <= j < b.occupied(n).len() ==> b.in_bound(#[trigger] b.occupied(n)[j]) && b.cell(
                b.occupied(n)[j],
            ) is Some,
    decreases n,
{
    if n > 0 {
        lemma_occupied_cells(b, n - 1);
        if b.cells[n - 1] is Some {
            let i = n - 1;
            let w = b.width as int;
            let h = b.height as int;
            if w == 0 {
                assert(w * h == 0) by (nonlinear_arith)
                    requires
                        w == 0,
                ;
            }
            vstd::arithmetic::div_mod::lemma_fundamental_div_mod(i, w);
            vstd::arithmetic::div_mod::lemma_mod_pos_bound(i, w);
            let q = i / w;
            let r = i % w;
            assert(q < h) by (nonlinear_arith)
                requires
                    i == w * q + r,
                    0 <= r,
                    0 <= i < w * h,
                    w > 0,
            ;
            assert(0 <= q) by (nonlinear_arith)
                requires
                    i == w * q + r,
                    r < w,
                    0 <= i,
                    w > 0,
            ;
            let p = b.position_of(i);
            assert(b.index_of(p) == i) by (nonlinear_arith)
                requires
                    p.0 == r,
                    p.1 == q,
                    i == w * q + r,
                    b.index_of(p) == p.1 * w + p.0,
            ;
            let occ = b.occupied(n);
            assert forall|j: int| 0 <= j < occ.len() implies b.in_bound(#[trigger] occ[j]) && b.cell(
                occ[j],
            ) is Some by {
                if j < occ.len() - 1 {
                    assert(occ[j] == b.occupied(n - 1)[j]);
                }
            }
        }
    }
}

/// How many of the first `n` neighbour positions of `p` have both coordinates.
pub open spec fn present_neighbors(p: Position, n: int) -> nat
    decreases n,
{
    if n <= 0 {
        0
    } else {
        present_neighbors(p, n - 1) + match neighbor_position(p, n - 1) {
            (Some(_), Some(_)) => 1nat,
            _ => 0nat,
        }
    }
}

/// The corner `(0, 0)` has three neighbour positions, a position away from the
/// edges of `usize` has eight; on an empty board of at least two columns and
/// two rows, the corner has three empty neighbours on the board, and a cell
/// away from the board's edges has eight.
pub proof fn lemma_neighbor_counts(b: BoardView, p: Position)
    requires
        b.wf(),
    ensures
        present_neighbors((0, 0), 8) == 3,
        0 < p.0 < usize::MAX && 0 < p.1 < usize::MAX ==> present_neighbors(p, 8) == 8,
        b.width >= 2 && b.height >= 2 && (forall|i: int| 0 <= i < b.cells.len() ==> #[trigger] b.cells[i] is None)
            ==> b.empty_neighbors((0, 0), 8).len() == 3,
        0 < p.0 && p.0 + 1 < b.width && 0 < p.1 && p.1 + 1 < b.height && (forall|i: int|
            0 <= i < b.cells.len() ==> #[trigger] b.cells[i] is None) ==> b.empty_neighbors(p, 8).len() == 8,
{
    reveal_with_fuel(present_neighbors, 9);
    reveal_with_fuel(BoardView::empty_neighbors, 9);
    if forall|i: int| 0 <= i < b.cells.len() ==> #[trigger] b.cells[i] is None {
        assert forall|q: Position| b.in_bound(q) implies #[trigger] b.cell(q) is None by {
            lemma_index_in_range(b.width, b.height, q.0 as nat, q.1 as nat);
        }
        if b.width >= 2 && b.height >= 2 {
            let c: Position = (0, 0);
            assert(b.empty_neighbors(c, 4).len() == 0);
            assert(b.cell((1, 0)) is None);
            assert(b.empty_neighbors(c, 5).len() == 1);
            assert(b.empty_neighbors(c, 6).len() == 1);
            assert(b.cell((0, 1)) is None);
            assert(b.empty_neighbors(c, 7).len() == 2);
            assert(b.cell((1, 1)) is None);
            assert(b.empty_neighbors(c, 8).len() == 3);
        }
        if 0 < p.0 && p.0 + 1 < b.width && 0 < p.1 && p.1 + 1 < b.height {
            let (x, y) = p;
            assert(b.cell(((x - 1) as usize, (y - 1) as usize)) is None);
            assert(b.empty_neighbors(p, 1).len() == 1);
            assert(b.cell((x, (y - 1) as usize)) is None);
            assert(b.empty_neighbors(p, 2).len() == 2);
            assert(neighbor_position(p, 2) == (Some((x + 1) as usize), Some((y - 1) as usize)));
            assert(b.in_bound(((x + 1) as usize, (y - 1) as usize)));
            assert(b.cell(((x + 1) as usize, (y - 1) as usize)) is None);
            assert(b.empty_neighbors(p, 3).len() == 3);
            assert(b.cell(((x - 1) as usize, y)) is None);
            assert(b.empty_neighbors(p, 4).len() == 4);
            assert(b.cell(((x + 1) as usize, y)) is None);
            assert(b.empty_neighbors(p, 5).len() == 5);
            assert(neighbor_position(p, 5) == (Some((x - 1) as usize), Some((y + 1) as usize)));
            assert(b.in_bound(((x - 1) as usize, (y + 1) as usize)));
            assert(b.cell(((x - 1) as usize, (y + 1) as usize)) is None);
            assert(b.empty_neighbors(p, 6).len() == 6);
            assert(b.cell((x, (y + 1) as usize)) is None);
            assert(b.empty_neighbors(p, 7).len() == 7);
            assert(b.cell(((x + 1) as usize, (y + 1) as usize)) is None);
            assert(b.empty_neighbors(p, 8).len() == 8);
        }
    }
}

/// A fixed grid of cells, each empty or holding one flower.
#[derive(Debug)]
pub struct Board {
    data: Vec<Option<Flower>>,
    width: usize,
    height: usize,
}

impl View for Board {
    type V = BoardView;

    closed spec fn view(&self) -> BoardView {
        BoardView { cells: self.data@, width: self.width as nat, height: self.height as nat }
    }
}

impl Board {
    /// An empty board of `width` columns and `height` rows.
    pub fn new(width: usize, height: usize) -> (r: Board)
        requires
            width * height <= usize::MAX,
        ensures
            r@.wf(),
            r@.width == width,
            r@.height == height,
            forall|i: int| 0 <= i < r@.cells.len() ==> r@.cells[i] is None,
    {
        let n: usize = width * height;
        let mut data: Vec<Option<Flower>> = Vec::new();
        while data.len() < n
            invariant
                data.len() <= n,
                forall|i: int| 0 <= i < data@.len() ==> data@[i] is None,
            decreases n - data.len(),
        {
            data.push(None);
        }
        Board { data, width, height }
    }

    pub fn width(&self) -> (r: usize)
        ensures
            r == self@.width,
    {
        self.width
    }

    pub fn height(&self) -> (r: usize)
        ensures
            r == self@.height,
    {
        self.height
    }

    pub fn is_in_bound(&self, pos: Position) -> (r: bool)
        ensures
            r == self@.in_bound(pos),
    {
        pos.0 < self.width && pos.1 < self.height
    }

    fn index(&self, pos: Position) -> (r: usize)
        requires
            self@.wf(),
            self@.in_bound(pos),
        ensures
            r == self@.index_of(pos),
            r < self@.cells.len(),
    {
        let n = self.data.len();
        proof {
            lemma_index_in_range(self.width as nat, self.height as nat, pos.0 as nat, pos.1 as nat);
            assert(pos.1 * self.width <= pos.1 * self.width + pos.0 < n);
        }
        pos.1 * self.width + pos.0
    }

    /// The cell at `pos`, or nothing when `pos` is off the board.
    pub fn get(&self, pos: Position) -> (r: Option<&Option<Flower>>)
        requires
            self@.wf(),
        ensures
            self@.in_bound(pos) ==> (r matches Some(c) && *c == self@.cell(pos)),
            !self@.in_bound(pos) ==> r is None,
    {
        if self.is_in_bound(pos) {
            let i = self.index(pos);
            Some(&self.data[i])
        } else {
            None
        }
    }

    /// The cell at `pos` for writing, or nothing when `pos` is off the board.
    pub fn get_mut(&mut self, pos: Position) -> (r: Option<&mut Option<Flower>>)
        requires
            old(self)@.wf(),
        ensures
            old(self)@.in_bound(pos) ==> (r matches Some(c) && *c == old(self)@.cell(pos)
                && final(self)@ == old(self)@.with_cell(pos, *final(c))),
            !old(self)@.in_bound(pos) ==> (r is None && final(self)@ == old(self)@),
    {
        if self.is_in_bound(pos) {
            let i = self.index(pos);
            Some(&mut self.data[i])
        } else {
            None
        }
    }

    /// Puts `c` into the cell at `pos`, whatever it held.
    pub fn set(&mut self, pos: Position, c: Option<Flower>)
        requires
            old(self)@.wf(),
            old(self)@.in_bound(pos),
        ensures
            final(self)@ == old(self)@.with_cell(pos, c),
            final(self)@.wf(),
    {
        let i = self.index(pos);
        self.data.set(i, c);
    }

    /// The positions of all occupied cells, in row-major order (`y` outer, `x` inner).
    pub fn flower_positions(&self) -> (r: Vec<Position>)
        requires
            self@.wf(),
        ensures
            r@ == self@.occupied(self@.cells.len() as int),
    {
        let n = self.data.len();
        let mut r: Vec<Position> = Vec::new();
        let mut i: usize = 0;
        let mut x: usize = 0;
        let mut y: usize = 0;
        proof {
            if self.width == 0 {
                assert(self@.width * self@.height == 0) by (nonlinear_arith)
                    requires
                        self@.width == 0,
                ;
            }
        }
        while i < n
            invariant
                self@.wf(),
                n == self@.cells.len(),
                i <= n,
                i < n ==> x < self.width && i == y * self.width + x,
                r@ == self@.occupied(i as int),
            decreases n - i,
        {
            proof {
                vstd::arithmetic::div_mod::lemma_fundamental_div_mod_converse(
                    i as int,
                    self.width as int,
                    y as int,
                    x as int,
                );
            }
            if self.data[i].is_some() {
                r.push((x, y));
            }
            proof {
                assert(y <= y * self.width) by (nonlinear_arith)
                    requires
                        self.width >= 1,
                ;
            }
            let ghost y0 = y;
            i = i + 1;
            if x + 1 == self.width {
                x = 0;
                y = y + 1;
            } else {
                x = x + 1;
            }
            proof {
                if i < n && x == 0 {
                    assert(i == y * self.width + x) by (nonlinear_arith)
                        requires
                            i == y0 * self.width + self.width,
                            y == y0 + 1,
                            x == 0,
                    ;
                }
            }
        }
        r
    }

    /// Takes every flower on the board one step of growth.
    pub fn grow_all(&mut self)
        requires
            old(self)@.wf(),
        ensures
            final(self)@.wf(),
            final(self)@.width == old(self)@.width,
            final(self)@.height == old(self)@.height,
            final(self)@.cells.len() == old(self)@.cells.len(),
            forall|i: int|
                0 <= i < old(self)@.cells.len() ==> final(self)@.cells[i] == grow_cell(
                    #[trigger] old(self)@.cells[i],
                ),
    {
        let n = self.data.len();
        let mut i: usize = 0;
        while i < n
            invariant
                n == self@.cells.len(),
                n == old(self)@.cells.len(),
                i <= n,
                self.width == old(self).width,
                self.height == old(self).height,
                forall|j: int| 0 <= j < i ==> self@.cells[j] == grow_cell(#[trigger] old(self)@.cells[j]),
                forall|j: int| i <= j < n ==> self@.cells[j] == old(self)@.cells[j],
            decreases n - i,
        {
            if let Some(f) = self.data[i] {
                let mut g = f;
                g.growup();
                self.data.set(i, Some(g));
            }
            i = i + 1;
        }
    }

    /// The eight neighbour positions of `pos`, NW, N, NE, W, E, SW, S, SE; a
    /// coordinate that would be negative is absent. They are not checked
    /// against the board's size.
    pub fn neigbor_positions(pos: Position) -> (r: [(Option<usize>, Option<usize>); 8])
        ensures
            forall|k: int| 0 <= k < 8 ==> #[trigger] r[k] == neighbor_position(pos, k),
    {
        let (x, y) = pos;
        let r = [
            (x.checked_sub(1), y.checked_sub(1)),
            (Some(x), y.checked_sub(1)),
            (x.checked_add(1), y.checked_sub(1)),
            (x.checked_sub(1), Some(y)),
            (x.checked_add(1), Some(y)),
            (x.checked_sub(1), y.checked_add(1)),
            (Some(x), y.checked_add(1)),
            (x.checked_add(1), y.checked_add(1)),
        ];
        assert forall|k: int| 0 <= k < 8 implies #[trigger] r[k] == neighbor_position(pos, k) by {
            assert(0 <= k < 8);
        }
        r
    }

    fn at(&self, p: (Option<usize>, Option<usize>)) -> (r: Option<&Flower>)
        requires
            self@.wf(),
        ensures
            deref_flower(r) == match p {
                (Some(x), Some(y)) => if self@.in_bound((x, y)) {
                    self@.cell((x, y))
                } else {
                    None
                },
                _ => None,
            },
    {
        match p {
            (Some(x), Some(y)) => match self.get((x, y)) {
                Some(c) => c.as_ref(),
                None => None,
            },
            _ => None,
        }
    }

    /// The occupants of the eight neighbours of `pos`, in the order of
    /// `neigbor_positions`; absent where the neighbour is off the board or empty.
    pub fn neighbors(&self, pos: Position) -> (r: [Option<&Flower>; 8])
        requires
            self@.wf(),
        ensures
            forall|k: int| 0 <= k < 8 ==> deref_flower(#[trigger] r[k]) == self@.neighbor(pos, k),
    {
        let ps = Self::neigbor_positions(pos);
        let r = [
            self.at(ps[0]),
            self.at(ps[1]),
            self.at(ps[2]),
            self.at(ps[3]),
            self.at(ps[4]),
            self.at(ps[5]),
            self.at(ps[6]),
            self.at(ps[7]),
        ];
        assert forall|k: int| 0 <= k < 8 implies deref_flower(#[trigger] r[k]) == self@.neighbor(
            pos,
            k,
        ) by {
            assert(ps[k] == neighbor_position(pos, k));
        }
        r
    }
}

} // verus!
