use vstd::prelude::*;

verus! {

/// One of the two genetic symbols; `One` is the dominant allele.
#[derive(Clone, Copy, Debug, PartialEq, Eq, Structural, Hash)]
pub enum Allele {
    Zero,
    One,
}

impl Allele {
    /// 1 for the dominant allele, 0 for the recessive one.
    pub open spec fn bit(self) -> nat {
        match self {
            Allele::Zero => 0,
            Allele::One => 1,
        }
    }

    pub fn to_bit(&self) -> (r: u8)
        ensures
            r as nat == self.bit(),
    {
        match self {
            Allele::Zero => 0,
            Allele::One => 1,
        }
    }

    /// Forms the gene made of the two alleles, stored in canonical order.
    pub fn combine(self, other: Allele) -> (r: Gene)
        ensures
            r == combine_spec(self, other),
    {
        match (self, other) {
            (Allele::Zero, Allele::Zero) => Gene([Allele::Zero, Allele::Zero]),
            (Allele::One, Allele::One) => Gene([Allele::One, Allele::One]),
            _ => Gene([Allele::Zero, Allele::One]),
        }
    }
}

/// The gene of two alleles, with the recessive allele first when they differ.
pub open spec fn combine_spec(a: Allele, b: Allele) -> Gene {
    if a == b {
        Gene([a, b])
    } else {
        Gene([Allele::Zero, Allele::One])
    }
}

/// An unordered pair of alleles.
#[derive(Clone, Copy, Debug)]
pub struct Gene(pub [Allele; 2]);

impl Gene {
    /// The allele in the first slot, or in the second one when `second` holds.
    pub open spec fn allele(self, second: bool) -> Allele {
        if second {
            self.0[1]
        } else {
            self.0[0]
        }
    }

    /// How many of the two alleles are dominant: 0, 1 or 2.
    pub open spec fn strength(self) -> nat {
        self.0[0].bit() + self.0[1].bit()
    }

    pub fn to_bits(&self) -> (r: u8)
        ensures
            r as nat == self.strength(),
    {
        self.0[0].to_bit() + self.0[1].to_bit()
    }

    /// The allele that a parent of this gene hands on: the first slot, or the
    /// second one when `second` holds.
    pub fn choose_allele(&self, second: bool) -> (r: Allele)
        ensures
            r == self.allele(second),
    {
        if second {
            self.0[1]
        } else {
            self.0[0]
        }
    }

    pub fn zero() -> (r: Gene)
        ensures
            r == Gene([Allele::Zero, Allele::Zero]),
    {
        Gene([Allele::Zero, Allele::Zero])
    }

    pub fn one() -> (r: Gene)
        ensures
            r == Gene([Allele::Zero, Allele::One]),
    {
        Gene([Allele::Zero, Allele::One])
    }

    pub fn two() -> (r: Gene)
        ensures
            r == Gene([Allele::One, Allele::One]),
    {
        Gene([Allele::One, Allele::One])
    }

    /// Inheritance of one trait: one allele from each parent gene, chosen by
    /// `pick1` and `pick2`, combined into the child's gene.
    pub fn mix(g1: Gene, g2: Gene, pick1: bool, pick2: bool) -> (r: Gene)
        ensures
            r == mix_spec(g1, g2, pick1, pick2),
    {
        g1.choose_allele(pick1).combine(g2.choose_allele(pick2))
    }
}

pub open spec fn mix_spec(g1: Gene, g2: Gene, pick1: bool, pick2: bool) -> Gene {
    combine_spec(g1.allele(pick1), g2.allele(pick2))
}

/// Two genes are equal when they hold the same alleles in either order.
impl PartialEq for Gene {
    fn eq(&self, o: &Gene) -> (r: bool) {
        self.to_bits() == o.to_bits()
    }
}

impl vstd::std_specs::cmp::PartialEqSpecImpl for Gene {
    open spec fn obeys_eq_spec() -> bool {
        true
    }

    open spec fn eq_spec(&self, o: &Gene) -> bool {
        self.strength() == o.strength()
    }
}

impl Eq for Gene {

}

/// Relies on the `Hash` impl of `u8`: feeds the byte to the hasher.
#[verifier::external_body]
fn hash_byte<H: core::hash::Hasher>(v: u8, state: &mut H) {
    core::hash::Hash::hash(&v, state)
}

/// Hashes the strength, so that equal genes hash alike whatever their allele order.
impl core::hash::Hash for Gene {
    fn hash<H: core::hash::Hasher>(&self, state: &mut H) {
        hash_byte(self.to_bits(), state)
    }
}

/// The choice of allele for each trait slot of one mating: in slot `i`, the
/// first parent hands on `picks[i].0`, the second `picks[i].1` (see `Gene::choose_allele`).
/// A three-slot genome reads the first three entries.
pub type Picks = [(bool, bool); 4];

/// Three genes, one per trait slot.
#[derive(Clone, Copy, Debug, PartialEq, Eq, Hash)]
pub struct Genome3(pub [Gene; 3]);

/// Four genes, one per trait slot.
#[derive(Clone, Copy, Debug, PartialEq, Eq, Hash)]
pub struct Genome4(pub [Gene; 4]);

impl Genome3 {
    /// Each gene's strength in a 2-bit field, slot `i` at bits `2i`, the top
    /// field left zero.
    pub open spec fn genotype_spec(self) -> nat {
        self.0[0].strength() + 4 * self.0[1].strength() + 16 * self.0[2].strength()
    }

    pub open spec fn mate_spec(self, other: Genome3, picks: Picks) -> Genome3 {
        Genome3([
            mix_spec(self.0[0], other.0[0], picks[0].0, picks[0].1),
            mix_spec(self.0[1], other.0[1], picks[1].0, picks[1].1),
            mix_spec(self.0[2], other.0[2], picks[2].0, picks[2].1),
        ])
    }

    pub fn genotype(&self) -> (r: u8)
        ensures
            r as nat == self.genotype_spec(),
    {
        let g = self.0;
        g[0].to_bits() + 4 * g[1].to_bits() + 16 * g[2].to_bits()
    }

    /// The child genome: each slot inherits independently by `Gene::mix`.
    pub fn mate(&self, other: &Genome3, picks: Picks) -> (r: Genome3)
        ensures
            r == self.mate_spec(*other, picks),
    {
        let a = self.0;
        let b = other.0;
        Genome3([
            Gene::mix(a[0], b[0], picks[0].0, picks[0].1),
            Gene::mix(a[1], b[1], picks[1].0, picks[1].1),
            Gene::mix(a[2], b[2], picks[2].0, picks[2].1),
        ])
    }
}

impl Genome4 {
    /// Each gene's strength in a 2-bit field, slot `i` at bits `2i`.
    pub open spec fn genotype_spec(self) -> nat {
        self.0[0].strength() + 4 * self.0[1].strength() + 16 * self.0[2].strength() + 64
            * self.0[3].strength()
    }

    pub open spec fn mate_spec(self, other: Genome4, picks: Picks) -> Genome4 {
        Genome4([
            mix_spec(self.0[0], other.0[0], picks[0].0, picks[0].1),
            mix_spec(self.0[1], other.0[1], picks[1].0, picks[1].1),
            mix_spec(self.0[2], other.0[2], picks[2].0, picks[2].1),
            mix_spec(self.0[3], other.0[3], picks[3].0, picks[3].1),
        ])
    }

    pub fn genotype(&self) -> (r: u8)
        ensures
            r as nat == self.genotype_spec(),
    {
        let g = self.0;
        g[0].to_bits() + 4 * g[1].to_bits() + 16 * g[2].to_bits() + 64 * g[3].to_bits()
    }

    /// The child genome: each slot inherits independently by `Gene::mix`.
    pub fn mate(&self, other: &Genome4, picks: Picks) -> (r: Genome4)
        ensures
            r == self.mate_spec(*other, picks),
    {
        let a = self.0;
        let b = other.0;
        Genome4([
            Gene::mix(a[0], b[0], picks[0].0, picks[0].1),
            Gene::mix(a[1], b[1], picks[1].0, picks[1].1),
            Gene::mix(a[2], b[2], picks[2].0, picks[2].1),
            Gene::mix(a[3], b[3], picks[3].0, picks[3].1),
        ])
    }
}

/// The 2-bit field of slot `i` in a genotype byte.
pub open spec fn genotype_field(v: nat, i: nat) -> nat {
    if i == 0 {
        v % 4
    } else if i == 1 {
        (v / 4) % 4
    } else if i == 2 {
        (v / 16) % 4
    } else {
        (v / 64) % 4
    }
}

/// Combining two alleles does not depend on their order.
pub proof fn lemma_combine_symmetric(a: Allele, b: Allele)
    ensures
        combine_spec(a, b) == combine_spec(b, a),
{
}

/// A genome of dominant genes only has 2 in every field of its genotype, one of
/// recessive genes only has 0 in every field.
pub proof fn lemma_genotype_uniform(g3: Genome3, g4: Genome4)
    ensures
        (forall|i: int| 0 <= i < 3 ==> g3.0[i].strength() == 2) ==> (forall|i: nat|
            i < 3 ==> genotype_field(g3.genotype_spec(), i) == 2) && genotype_field(
            g3.genotype_spec(),
            3,
        ) == 0,
        (forall|i: int| 0 <= i < 3 ==> g3.0[i].strength() == 0) ==> (forall|i: nat|
            i < 4 ==> genotype_field(g3.genotype_spec(), i) == 0),
        (forall|i: int| 0 <= i < 4 ==> g4.0[i].strength() == 2) ==> (forall|i: nat|
            i < 4 ==> genotype_field(g4.genotype_spec(), i) == 2),
        (forall|i: int| 0 <= i < 4 ==> g4.0[i].strength() == 0) ==> (forall|i: nat|
            i < 4 ==> genotype_field(g4.genotype_spec(), i) == 0),
{
    if forall|i: int| 0 <= i < 3 ==> g3.0[i].strength() == 2 {
        assert(g3.0[0].strength() == 2 && g3.0[1].strength() == 2 && g3.0[2].strength() == 2);
        assert(g3.genotype_spec() == 42);
    }
    if forall|i: int| 0 <= i < 3 ==> g3.0[i].strength() == 0 {
        assert(g3.0[0].strength() == 0 && g3.0[1].strength() == 0 && g3.0[2].strength() == 0);
        assert(g3.genotype_spec() == 0);
    }
    if forall|i: int| 0 <= i < 4 ==> g4.0[i].strength() == 2 {
        assert(g4.0[0].strength() == 2 && g4.0[1].strength() == 2 && g4.0[2].strength() == 2
            && g4.0[3].strength() == 2);
        assert(g4.genotype_spec() == 170);
    }
    if forall|i: int| 0 <= i < 4 ==> g4.0[i].strength() == 0 {
        assert(g4.0[0].strength() == 0 && g4.0[1].strength() == 0 && g4.0[2].strength() == 0
            && g4.0[3].strength() == 0);
        assert(g4.genotype_spec() == 0);
    }
}

} // verus!
