use flower_simulator::{Allele, FlowerKind, Gene, Genome3, Genome4};
use std::collections::HashSet;

#[test]
fn combine_is_symmetric() {
    let all = [Allele::Zero, Allele::One];
    for a in all {
        for b in all {
            assert_eq!(a.combine(b), b.combine(a));
            assert_eq!(a.combine(b).0, b.combine(a).0);
        }
    }
}

#[test]
fn combine_gives_canonical_genes() {
    assert_eq!(Allele::Zero.combine(Allele::Zero).0, [Allele::Zero, Allele::Zero]);
    assert_eq!(Allele::One.combine(Allele::Zero).0, [Allele::Zero, Allele::One]);
    assert_eq!(Allele::Zero.combine(Allele::One).0, [Allele::Zero, Allele::One]);
    assert_eq!(Allele::One.combine(Allele::One).0, [Allele::One, Allele::One]);
}

#[test]
fn gene_equality_ignores_order() {
    assert_eq!(Gene([Allele::One, Allele::Zero]), Gene([Allele::Zero, Allele::One]));
    assert_ne!(Gene::zero(), Gene::one());
    assert_ne!(Gene::one(), Gene::two());
}

#[test]
fn gene_strength_counts_dominant_alleles() {
    assert_eq!(Gene::zero().to_bits(), 0);
    assert_eq!(Gene::one().to_bits(), 1);
    assert_eq!(Gene([Allele::One, Allele::Zero]).to_bits(), 1);
    assert_eq!(Gene::two().to_bits(), 2);
}

#[test]
fn choose_allele_reads_the_slot() {
    let g = Gene([Allele::One, Allele::Zero]);
    assert_eq!(g.choose_allele(false), Allele::One);
    assert_eq!(g.choose_allele(true), Allele::Zero);
}

#[test]
fn mix_combines_one_allele_of_each_parent() {
    assert_eq!(Gene::mix(Gene::two(), Gene::zero(), false, true).0, [Allele::Zero, Allele::One]);
    assert_eq!(Gene::mix(Gene::one(), Gene::one(), true, true).0, [Allele::One, Allele::One]);
    assert_eq!(Gene::mix(Gene::one(), Gene::one(), false, false).0, [Allele::Zero, Allele::Zero]);
}

#[test]
fn genotype_of_all_dominant_genomes() {
    let g4 = Genome4([Gene::two(), Gene::two(), Gene::two(), Gene::two()]);
    let v = g4.genotype();
    assert_eq!(v, 0b1010_1010);
    for i in 0..4 {
        assert_eq!((v >> (2 * i)) & 0b11, 2);
    }
    let g3 = Genome3([Gene::two(), Gene::two(), Gene::two()]);
    let v = g3.genotype();
    assert_eq!(v, 0b0010_1010);
    for i in 0..3 {
        assert_eq!((v >> (2 * i)) & 0b11, 2);
    }
    assert_eq!(v >> 6, 0);
}

#[test]
fn genotype_of_all_recessive_genomes() {
    assert_eq!(Genome4([Gene::zero(), Gene::zero(), Gene::zero(), Gene::zero()]).genotype(), 0);
    assert_eq!(Genome3([Gene::zero(), Gene::zero(), Gene::zero()]).genotype(), 0);
}

#[test]
fn genotype_puts_the_first_slot_lowest() {
    // strengths 2, 0, 2, 1
    match FlowerKind::rose_red() {
        FlowerKind::Rose(g) => assert_eq!(g.genotype(), 2 + 0 * 4 + 2 * 16 + 1 * 64),
        _ => panic!("rose_red is a rose"),
    }
    // strengths 0, 2, 1
    match FlowerKind::cosmos_yellow() {
        FlowerKind::Cosmos(g) => assert_eq!(g.genotype(), 0 + 2 * 4 + 1 * 16),
        _ => panic!("cosmos_yellow is a cosmos"),
    }
}

#[test]
fn mating_roses_gives_a_rose() {
    let picks = [(false, true), (true, false), (true, true), (false, false)];
    let child = FlowerKind::rose_red().mate(&FlowerKind::rose_white(), picks);
    assert!(child.same_kind(&FlowerKind::rose_yellow()));
    // rose_red: 2 0 2 1, rose_white: 0 0 1 0
    let expected = FlowerKind::Rose(Genome4([Gene::one(), Gene::zero(), Gene::two(), Gene::zero()]));
    assert_eq!(child, expected);
}

#[test]
fn mating_three_slot_genomes_slot_by_slot() {
    let picks = [(true, true), (true, true), (false, true), (true, true)];
    let child = FlowerKind::lily_red().mate(&FlowerKind::lily_white(), picks);
    // lily_red: 2 0 1 ([Zero, One] in the last slot), lily_white: 0 0 2
    let expected = FlowerKind::Lily(Genome3([Gene::one(), Gene::zero(), Gene::one()]));
    assert_eq!(child, expected);
}

#[test]
fn same_kind_compares_species_only() {
    assert!(FlowerKind::rose_red().same_kind(&FlowerKind::rose_white()));
    assert!(FlowerKind::mum_red().same_kind(&FlowerKind::mum_yellow()));
    assert!(!FlowerKind::rose_red().same_kind(&FlowerKind::cosmos_red()));
    assert!(!FlowerKind::pansy_white().same_kind(&FlowerKind::hyacinth_white()));
}

#[test]
fn named_genomes_are_fixed() {
    assert_eq!(
        FlowerKind::tulip_white(),
        FlowerKind::Tulip(Genome3([Gene::zero(), Gene::zero(), Gene::one()]))
    );
    assert_eq!(
        FlowerKind::windflower_red(),
        FlowerKind::Windflower(Genome3([Gene::two(), Gene::zero(), Gene::two()]))
    );
    assert_eq!(
        FlowerKind::rose_yellow(),
        FlowerKind::Rose(Genome4([Gene::zero(), Gene::two(), Gene::two(), Gene::zero()]))
    );
}

#[test]
fn equal_genes_hash_alike() {
    let mut set = HashSet::new();
    set.insert(Gene([Allele::One, Allele::Zero]));
    set.insert(Gene([Allele::Zero, Allele::One]));
    set.insert(Gene::zero());
    set.insert(Gene::two());
    assert_eq!(set.len(), 3);
    let mut kinds = HashSet::new();
    kinds.insert(FlowerKind::Cosmos(Genome3([Gene([Allele::One, Allele::Zero]), Gene::zero(), Gene::one()])));
    kinds.insert(FlowerKind::Cosmos(Genome3([Gene::one(), Gene::zero(), Gene::one()])));
    assert_eq!(kinds.len(), 1);
}
