use vstd::prelude::*;
use crate::genetics::{Allele, Gene, Genome3, Genome4, Picks};

verus! {

/// A species together with its genome.
#[derive(Clone, Copy, Debug, PartialEq, Eq, Hash)]
pub enum FlowerKind {
    /// red, yellow, white, shade
    Rose(Genome4),
    /// red, yellow, shade
    Cosmos(Genome3),
    /// red, yellow, shade
    Lily(Genome3),
    /// red, yellow, white
    Pansy(Genome3),
    /// red, yellow, shade
    Tulip(Genome3),
    /// red, yellow, white
    Hyacinth(Genome3),
    /// red, yellow, white
    Mum(Genome3),
    /// red, orange, white
    Windflower(Genome3),
}

impl FlowerKind {
    /// The species tag, one number per variant.
    pub open spec fn species(self) -> nat {
        match self {
            FlowerKind::Rose(_) => 0,
            FlowerKind::Cosmos(_) => 1,
            FlowerKind::Lily(_) => 2,
            FlowerKind::Pansy(_) => 3,
            FlowerKind::Tulip(_) => 4,
            FlowerKind::Hyacinth(_) => 5,
            FlowerKind::Mum(_) => 6,
            FlowerKind::Windflower(_) => 7,
        }
    }

    /// The child of two flowers of one species, slot by slot as `picks` says.
    pub open spec fn mate_spec(self, other: FlowerKind, picks: Picks) -> FlowerKind
        recommends
            self.species() == other.species(),
    {
        match (self, other) {
            (FlowerKind::Rose(a), FlowerKind::Rose(b)) => FlowerKind::Rose(a.mate_spec(b, picks)),
            (FlowerKind::Cosmos(a), FlowerKind::Cosmos(b)) => FlowerKind::Cosmos(a.mate_spec(b, picks)),
            (FlowerKind::Lily(a), FlowerKind::Lily(b)) => FlowerKind::Lily(a.mate_spec(b, picks)),
            (FlowerKind::Pansy(a), FlowerKind::Pansy(b)) => FlowerKind::Pansy(a.mate_spec(b, picks)),
            (FlowerKind::Tulip(a), FlowerKind::Tulip(b)) => FlowerKind::Tulip(a.mate_spec(b, picks)),
            (FlowerKind::Hyacinth(a), FlowerKind::Hyacinth(b)) => FlowerKind::Hyacinth(
                a.mate_spec(b, picks),
            ),
            (FlowerKind::Mum(a), FlowerKind::Mum(b)) => FlowerKind::Mum(a.mate_spec(b, picks)),
            (FlowerKind::Windflower(a), FlowerKind::Windflower(b)) => FlowerKind::Windflower(
                a.mate_spec(b, picks),
            ),
            _ => self,
        }
    }

    pub fn rose_red() -> (r: FlowerKind)
        ensures
            r == FlowerKind::Rose(Genome4([Gene([Allele::One, Allele::One]), Gene([Allele::Zero, Allele::Zero]), Gene([Allele::One, Allele::One]), Gene([Allele::Zero, Allele::One])])),
    {
        FlowerKind::Rose(Genome4([Gene::two(), Gene::zero(), Gene::two(), Gene::one()]))
    }

    pub fn rose_yellow() -> (r: FlowerKind)
        ensures
            r == FlowerKind::Rose(Genome4([Gene([Allele::Zero, Allele::Zero]), Gene([Allele::One, Allele::One]), Gene([Allele::One, Allele::One]), Gene([Allele::Zero, Allele::Zero])])),
    {
        FlowerKind::Rose(Genome4([Gene::zero(), Gene::two(), Gene::two(), Gene::zero()]))
    }

    pub fn rose_white() -> (r: FlowerKind)
        ensures
            r == FlowerKind::Rose(Genome4([Gene([Allele::Zero, Allele::Zero]), Gene([Allele::Zero, Allele::Zero]), Gene([Allele::Zero, Allele::One]), Gene([Allele::Zero, Allele::Zero])])),
    {
        FlowerKind::Rose(Genome4([Gene::zero(), Gene::zero(), Gene::one(), Gene::zero()]))
    }

    pub fn cosmos_red() -> (r: FlowerKind)
        ensures
            r == FlowerKind::Cosmos(Genome3([Gene([Allele::One, Allele::One]), Gene([Allele::Zero, Allele::Zero]), Gene([Allele::Zero, Allele::Zero])])),
    {
        FlowerKind::Cosmos(Genome3([Gene::two(), Gene::zero(), Gene::zero()]))
    }

    pub fn cosmos_yellow() -> (r: FlowerKind)
        ensures
            r == FlowerKind::Cosmos(Genome3([Gene([Allele::Zero, Allele::Zero]), Gene([Allele::One, Allele::One]), Gene([Allele::Zero, Allele::One])])),
    {
        FlowerKind::Cosmos(Genome3([Gene::zero(), Gene::two(), Gene::one()]))
    }

    pub fn cosmos_white() -> (r: FlowerKind)
        ensures
            r == FlowerKind::Cosmos(Genome3([Gene([Allele::Zero, Allele::Zero]), Gene([Allele::Zero, Allele::Zero]), Gene([Allele::Zero, Allele::One])])),
    {
        FlowerKind::Cosmos(Genome3([Gene::zero(), Gene::zero(), Gene::one()]))
    }

    pub fn lily_red() -> (r: FlowerKind)
        ensures
            r == FlowerKind::Lily(Genome3([Gene([Allele::One, Allele::One]), Gene([Allele::Zero, Allele::Zero]), Gene([Allele::Zero, Allele::One])])),
    {
        FlowerKind::Lily(Genome3([Gene::two(), Gene::zero(), Gene::one()]))
    }

    pub fn lily_yellow() -> (r: FlowerKind)
        ensures
            r == FlowerKind::Lily(Genome3([Gene([Allele::Zero, Allele::Zero]), Gene([Allele::One, Allele::One]), Gene([Allele::Zero, Allele::Zero])])),
    {
        FlowerKind::Lily(Genome3([Gene::zero(), Gene::two(), Gene::zero()]))
    }

    pub fn lily_white() -> (r: FlowerKind)
        ensures
            r == FlowerKind::Lily(Genome3([Gene([Allele::Zero, Allele::Zero]), Gene([Allele::Zero, Allele::Zero]), Gene([Allele::One, Allele::One])])),
    {
        FlowerKind::Lily(Genome3([Gene::zero(), Gene::zero(), Gene::two()]))
    }

    pub fn pansy_red() -> (r: FlowerKind)
        ensures
            r == FlowerKind::Pansy(Genome3([Gene([Allele::One, Allele::One]), Gene([Allele::Zero, Allele::Zero]), Gene([Allele::One, Allele::One])])),
    {
        FlowerKind::Pansy(Genome3([Gene::two(), Gene::zero(), Gene::two()]))
    }

    pub fn pansy_yellow() -> (r: FlowerKind)
        ensures
            r == FlowerKind::Pansy(Genome3([Gene([Allele::Zero, Allele::Zero]), Gene([Allele::One, Allele::One]), Gene([Allele::One, Allele::One])])),
    {
        FlowerKind::Pansy(Genome3([Gene::zero(), Gene::two(), Gene::two()]))
    }

    pub fn pansy_white() -> (r: FlowerKind)
        ensures
            r == FlowerKind::Pansy(Genome3([Gene([Allele::Zero, Allele::Zero]), Gene([Allele::Zero, Allele::Zero]), Gene([Allele::One, Allele::One])])),
    {
        FlowerKind::Pansy(Genome3([Gene::zero(), Gene::zero(), Gene::two()]))
    }

    pub fn tulip_red() -> (r: FlowerKind)
        ensures
            r == FlowerKind::Tulip(Genome3([Gene([Allele::One, Allele::One]), Gene([Allele::Zero, Allele::Zero]), Gene([Allele::Zero, Allele::One])])),
    {
        FlowerKind::Tulip(Genome3([Gene::two(), Gene::zero(), Gene::one()]))
    }

    pub fn tulip_yellow() -> (r: FlowerKind)
        ensures
            r == FlowerKind::Tulip(Genome3([Gene([Allele::Zero, Allele::Zero]), Gene([Allele::One, Allele::One]), Gene([Allele::Zero, Allele::Zero])])),
    {
        FlowerKind::Tulip(Genome3([Gene::zero(), Gene::two(), Gene::zero()]))
    }

    pub fn tulip_white() -> (r: FlowerKind)
        ensures
            r == FlowerKind::Tulip(Genome3([Gene([Allele::Zero, Allele::Zero]), Gene([Allele::Zero, Allele::Zero]), Gene([Allele::Zero, Allele::One])])),
    {
        FlowerKind::Tulip(Genome3([Gene::zero(), Gene::zero(), Gene::one()]))
    }

    pub fn hyacinth_red() -> (r: FlowerKind)
        ensures
            r == FlowerKind::Hyacinth(Genome3([Gene([Allele::One, Allele::One]), Gene([Allele::Zero, Allele::Zero]), Gene([Allele::Zero, Allele::One])])),
    {
        FlowerKind::Hyacinth(Genome3([Gene::two(), Gene::zero(), Gene::one()]))
    }

    pub fn hyacinth_yellow() -> (r: FlowerKind)
        ensures
            r == FlowerKind::Hyacinth(Genome3([Gene([Allele::Zero, Allele::Zero]), Gene([Allele::One, Allele::One]), Gene([Allele::One, Allele::One])])),
    {
        FlowerKind::Hyacinth(Genome3([Gene::zero(), Gene::two(), Gene::two()]))
    }

    pub fn hyacinth_white() -> (r: FlowerKind)
        ensures
            r == FlowerKind::Hyacinth(Genome3([Gene([Allele::Zero, Allele::Zero]), Gene([Allele::Zero, Allele::Zero]), Gene([Allele::Zero, Allele::One])])),
    {
        FlowerKind::Hyacinth(Genome3([Gene::zero(), Gene::zero(), Gene::one()]))
    }

    pub fn mum_red() -> (r: FlowerKind)
        ensures
            r == FlowerKind::Mum(Genome3([Gene([Allele::One, Allele::One]), Gene([Allele::Zero, Allele::Zero]), Gene([Allele::One, Allele::One])])),
    {
        FlowerKind::Mum(Genome3([Gene::two(), Gene::zero(), Gene::two()]))
    }

    pub fn mum_yellow() -> (r: FlowerKind)
        ensures
            r == FlowerKind::Mum(Genome3([Gene([Allele::Zero, Allele::Zero]), Gene([Allele::One, Allele::One]), Gene([Allele::One, Allele::One])])),
    {
        FlowerKind::Mum(Genome3([Gene::zero(), Gene::two(), Gene::two()]))
    }

    pub fn mum_white() -> (r: FlowerKind)
        ensures
            r == FlowerKind::Mum(Genome3([Gene([Allele::Zero, Allele::Zero]), Gene([Allele::Zero, Allele::Zero]), Gene([Allele::Zero, Allele::One])])),
    {
        FlowerKind::Mum(Genome3([Gene::zero(), Gene::zero(), Gene::one()]))
    }

    pub fn windflower_red() -> (r: FlowerKind)
        ensures
            r == FlowerKind::Windflower(Genome3([Gene([Allele::One, Allele::One]), Gene([Allele::Zero, Allele::Zero]), Gene([Allele::One, Allele::One])])),
    {
        FlowerKind::Windflower(Genome3([Gene::two(), Gene::zero(), Gene::two()]))
    }

    pub fn windflower_yellow() -> (r: FlowerKind)
        ensures
            r == FlowerKind::Windflower(Genome3([Gene([Allele::Zero, Allele::Zero]), Gene([Allele::One, Allele::One]), Gene([Allele::One, Allele::One])])),
    {
        FlowerKind::Windflower(Genome3([Gene::zero(), Gene::two(), Gene::two()]))
    }

    pub fn windflower_white() -> (r: FlowerKind)
        ensures
            r == FlowerKind::Windflower(Genome3([Gene([Allele::Zero, Allele::Zero]), Gene([Allele::Zero, Allele::Zero]), Gene([Allele::Zero, Allele::One])])),
    {
        FlowerKind::Windflower(Genome3([Gene::zero(), Gene::zero(), Gene::one()]))
    }

    /// Whether the two kinds are of one species, whatever their genomes.
    pub fn same_kind(&self, other: &FlowerKind) -> (r: bool)
        ensures
            r == (self.species() == other.species()),
    {
        match (self, other) {
            (FlowerKind::Rose(_), FlowerKind::Rose(_))
            | (FlowerKind::Cosmos(_), FlowerKind::Cosmos(_))
            | (FlowerKind::Lily(_), FlowerKind::Lily(_))
            | (FlowerKind::Pansy(_), FlowerKind::Pansy(_))
            | (FlowerKind::Tulip(_), FlowerKind::Tulip(_))
            | (FlowerKind::Hyacinth(_), FlowerKind::Hyacinth(_))
            | (FlowerKind::Mum(_), FlowerKind::Mum(_))
            | (FlowerKind::Windflower(_), FlowerKind::Windflower(_)) => true,
            _ => false,
        }
    }

    /// Mates two flowers of one species. Mating across species is a contract
    /// violation: it is refused here, and aborts where it is not checked.
    pub fn mate(&self, other: &FlowerKind, picks: Picks) -> (r: FlowerKind)
        requires
            self.species() == other.species(),
        ensures
            r == self.mate_spec(*other, picks),
            r.species() == self.species(),
    {
        match (self, other) {
            (FlowerKind::Rose(a), FlowerKind::Rose(b)) => FlowerKind::Rose(a.mate(b, picks)),
            (FlowerKind::Cosmos(a), FlowerKind::Cosmos(b)) => FlowerKind::Cosmos(a.mate(b, picks)),
            (FlowerKind::Lily(a), FlowerKind::Lily(b)) => FlowerKind::Lily(a.mate(b, picks)),
            (FlowerKind::Pansy(a), FlowerKind::Pansy(b)) => FlowerKind::Pansy(a.mate(b, picks)),
            (FlowerKind::Tulip(a), FlowerKind::Tulip(b)) => FlowerKind::Tulip(a.mate(b, picks)),
            (FlowerKind::Hyacinth(a), FlowerKind::Hyacinth(b)) => FlowerKind::Hyacinth(
                a.mate(b, picks),
            ),
            (FlowerKind::Mum(a), FlowerKind::Mum(b)) => FlowerKind::Mum(a.mate(b, picks)),
            (FlowerKind::Windflower(a), FlowerKind::Windflower(b)) => FlowerKind::Windflower(
                a.mate(b, picks),
            ),
            _ => vstd::pervasive::unreached(),
        }
    }
}

/// Mating two flowers of one species gives a flower of that species.
pub proof fn lemma_mate_keeps_species(a: FlowerKind, b: FlowerKind, picks: Picks)
    requires
        a.species() == b.species(),
    ensures
        a.mate_spec(b, picks).species() == a.species(),
        a.mate_spec(b, picks).species() == b.species(),
{
}

/// Flowers of two species can never be mated: the precondition of
/// `FlowerKind::mate` refuses every such pair, among them a rose and a cosmos.
pub proof fn lemma_cross_species_refused(a: FlowerKind, b: FlowerKind, g4: Genome4, g3: Genome3)
    requires
        a.species() != b.species(),
    ensures
        !(a.species() == b.species()),
        FlowerKind::Rose(g4).species() != FlowerKind::Cosmos(g3).species(),
{
}

/// The stages of a flower's life.
#[derive(Clone, Copy, Debug, PartialEq, Eq, Structural, Hash)]
pub enum FlowerState {
    Sprout,
    Stem,
    Bud,
    Blooming,
    Picked,
}

impl FlowerState {
    /// How far the stage is along the way to blooming; a picked flower counts
    /// as blooming.
    pub open spec fn maturity(self) -> nat {
        match self {
            FlowerState::Sprout => 0,
            FlowerState::Stem => 1,
            FlowerState::Bud => 2,
            FlowerState::Blooming => 3,
            FlowerState::Picked => 3,
        }
    }

    /// The stage after one step of growth.
    pub open spec fn grown(self) -> FlowerState {
        match self {
            FlowerState::Sprout => FlowerState::Stem,
            FlowerState::Stem => FlowerState::Bud,
            FlowerState::Bud => FlowerState::Blooming,
            FlowerState::Blooming => FlowerState::Blooming,
            FlowerState::Picked => FlowerState::Blooming,
        }
    }
}

/// A flower on the board.
#[derive(Clone, Copy, Debug, PartialEq, Eq, Hash)]
pub struct Flower {
    kind: FlowerKind,
    state: FlowerState,
    crossed: bool,
}

impl Flower {
    pub closed spec fn kind_spec(self) -> FlowerKind {
        self.kind
    }

    pub closed spec fn state_spec(self) -> FlowerState {
        self.state
    }

    pub closed spec fn crossed_spec(self) -> bool {
        self.crossed
    }

    /// A new sprout of the given kind, not crossed.
    pub closed spec fn sprout_spec(kind: FlowerKind) -> Flower {
        Flower { kind, state: FlowerState::Sprout, crossed: false }
    }

    /// The flower after one step of growth.
    pub closed spec fn grown_spec(self) -> Flower {
        Flower { state: self.state.grown(), ..self }
    }

    /// The flower with its mark of having mated cleared.
    pub closed spec fn refreshed_spec(self) -> Flower {
        Flower { crossed: false, ..self }
    }

    /// Blooming or picked.
    pub open spec fn is_matured(self) -> bool {
        self.state_spec() == FlowerState::Blooming || self.state_spec() == FlowerState::Picked
    }

    pub broadcast proof fn lemma_sprout_spec(kind: FlowerKind)
        ensures
            (#[trigger] Flower::sprout_spec(kind)).kind_spec() == kind,
            Flower::sprout_spec(kind).state_spec() == FlowerState::Sprout,
            !Flower::sprout_spec(kind).crossed_spec(),
    {
    }

    pub broadcast proof fn lemma_grown_spec(f: Flower)
        ensures
            (#[trigger] f.grown_spec()).kind_spec() == f.kind_spec(),
            f.grown_spec().state_spec() == f.state_spec().grown(),
            f.grown_spec().crossed_spec() == f.crossed_spec(),
    {
    }

    pub fn sprout(kind: FlowerKind) -> (r: Flower)
        ensures
            r == Flower::sprout_spec(kind),
            r.kind_spec() == kind,
            r.state_spec() == FlowerState::Sprout,
            !r.crossed_spec(),
    {
        Flower { kind, state: FlowerState::Sprout, crossed: false }
    }

    pub fn kind(&self) -> (r: &FlowerKind)
        ensures
            *r == self.kind_spec(),
    {
        &self.kind
    }

    pub fn state(&self) -> (r: FlowerState)
        ensures
            r == self.state_spec(),
    {
        self.state
    }

    pub fn crossed(&self) -> (r: bool)
        ensures
            r == self.crossed_spec(),
    {
        self.crossed
    }

    pub fn matured(&self) -> (r: bool)
        ensures
            r == self.is_matured(),
    {
        match self.state {
            FlowerState::Sprout | FlowerState::Stem | FlowerState::Bud => false,
            FlowerState::Blooming | FlowerState::Picked => true,
        }
    }

    /// One step of growth: Sprout, Stem, Bud, Blooming; a picked flower blooms again.
    pub fn growup(&mut self)
        ensures
            *final(self) == old(self).grown_spec(),
            final(self).kind_spec() == old(self).kind_spec(),
            final(self).state_spec() == old(self).state_spec().grown(),
            final(self).crossed_spec() == old(self).crossed_spec(),
    {
        match self.state {
            FlowerState::Sprout => self.state = FlowerState::Stem,
            FlowerState::Stem => self.state = FlowerState::Bud,
            FlowerState::Bud => self.state = FlowerState::Blooming,
            FlowerState::Blooming => {},
            FlowerState::Picked => self.state = FlowerState::Blooming,
        }
    }

    /// Clears the mark of having mated.
    pub fn refresh(&mut self)
        ensures
            *final(self) == old(self).refreshed_spec(),
            final(self).kind_spec() == old(self).kind_spec(),
            final(self).state_spec() == old(self).state_spec(),
            !final(self).crossed_spec(),
    {
        self.crossed = false;
    }
}

/// Growth never lowers a flower's maturity, four steps take a sprout to
/// blooming, and a blooming flower stays blooming.
pub proof fn lemma_growth_monotone(s: FlowerState)
    ensures
        s.grown().maturity() >= s.maturity(),
        FlowerState::Sprout.grown().grown().grown().grown() == FlowerState::Blooming,
        FlowerState::Blooming.grown() == FlowerState::Blooming,
{
}

/// Refreshing leaves the flower uncrossed, and refreshing again leaves it as
/// the first call did.
pub proof fn lemma_refresh_idempotent(f: Flower)
    ensures
        !f.refreshed_spec().crossed_spec(),
        !f.refreshed_spec().refreshed_spec().crossed_spec(),
        f.refreshed_spec().refreshed_spec() == f.refreshed_spec(),
{
}

} // verus!
