use genedrop_core::Chromosome;
use genedrop_core::GeneError;
use genedrop_core::GeneticMap;
use genedrop_core::chromosome::PROBABILITY_SCALE;
use genedrop_core::chromosome::recombine_with_draws;
use genedrop_core::recombine;

/// A probability as a fixed-point genetic distance.
fn dist(p: f64) -> u32 {
    (p * PROBABILITY_SCALE as f64).round() as u32
}

#[test]
/// Tests that attempting to recombine chromosomes of unequal size gives an error
fn chromosome_unequal_chromosome_error() {
    let map = GeneticMap::new(vec![dist(0.5), dist(0.1), dist(0.05)]);

    let mut father_chromosome = Chromosome::new(&map);
    let father_err = father_chromosome.set_loci(vec![1, 1, 1]);
    let mut mother_chromosome = Chromosome::new(&map);
    let mother_err = mother_chromosome.set_loci(vec![1, 0, 1, 1]);

    assert!(father_err.is_err());
    assert!(!mother_err.is_err());
}

#[test]
// Tests that an error is returned if chromosomes with different maps are recombined
fn different_maps_recombine() {
    let father_map = GeneticMap::new(vec![dist(0.5), dist(0.1), dist(0.05)]);
    let mother_map = GeneticMap::new(vec![dist(0.5), dist(0.1), dist(0.05)]);

    let mut father_chromosome = Chromosome::new(&father_map);
    let father_err = father_chromosome.set_loci(vec![1, 1, 1, 0]);
    let mut mother_chromosome = Chromosome::new(&mother_map);
    let mother_err = mother_chromosome.set_loci(vec![1, 0, 1, 1]);

    assert!(father_err.is_ok());
    assert!(mother_err.is_ok());

    let result = recombine(&father_chromosome, &mother_chromosome);

    assert!(result.is_err());
}

#[test]
/// Tests that recombination doesn't throw an error
fn can_work_at_all() {
    let map = GeneticMap::new(vec![dist(0.5), dist(0.1), dist(0.05)]);

    let mut father_chromosome = Chromosome::new(&map);
    let father_err = father_chromosome.set_loci(vec![1, 1, 1, 0]);
    let mut mother_chromosome = Chromosome::new(&map);
    let mother_err = mother_chromosome.set_loci(vec![1, 0, 1, 1]);

    assert!(father_err.is_ok());
    assert!(mother_err.is_ok());

    let result = recombine(&father_chromosome, &mother_chromosome);

    assert!(result.is_ok());
}

#[test]
fn new_chromosome_has_map_length_plus_one_zeroed_loci() {
    let map = GeneticMap::new(vec![dist(0.5), dist(0.1), dist(0.05)]);
    let chromosome = Chromosome::new(&map);
    assert_eq!(chromosome.len(), 4);
    assert_eq!(*chromosome.loci(), vec![0, 0, 0, 0]);
    assert!(!chromosome.is_empty());
}

#[test]
fn empty_map_gives_single_locus_chromosome() {
    let map = GeneticMap::new(vec![]);
    assert!(map.is_empty());
    assert_eq!(map.len(), 0);
    let mut chromosome = Chromosome::new(&map);
    assert!(chromosome.is_empty());
    assert_eq!(chromosome.len(), 1);
    assert!(chromosome.set_loci(vec![7]).is_ok());
    assert_eq!(chromosome.locus(0), 7);
}

#[test]
fn set_loci_length_mismatch_reports_lengths_and_keeps_loci() {
    let map = GeneticMap::new(vec![dist(0.5), dist(0.1), dist(0.05)]);
    let mut chromosome = Chromosome::new(&map);
    assert!(chromosome.set_loci(vec![4, 3, 2, 1]).is_ok());

    let err = chromosome.set_loci(vec![1, 1, 1]).unwrap_err();
    assert_eq!(err, GeneError::LengthMismatch { expected: 4, actual: 3 });
    assert_eq!(*chromosome.loci(), vec![4, 3, 2, 1]);

    let err = chromosome.set_loci(vec![]).unwrap_err();
    assert_eq!(err, GeneError::LengthMismatch { expected: 4, actual: 0 });
    assert_eq!(*chromosome.loci(), vec![4, 3, 2, 1]);
}

#[test]
fn set_locus_writes_one_position() {
    let map = GeneticMap::new(vec![dist(0.1)]);
    let mut chromosome = Chromosome::new(&map);
    chromosome.set_locus(1, 9);
    assert_eq!(*chromosome.loci(), vec![0, 9]);
    assert_eq!(chromosome.locus(0), 0);
    assert_eq!(chromosome.locus(1), 9);
}

#[test]
fn different_maps_error_is_incompatible_maps() {
    let father_map = GeneticMap::new(vec![dist(0.5)]);
    let mother_map = GeneticMap::new(vec![dist(0.5)]);
    let father_chromosome = Chromosome::new(&father_map);
    let mother_chromosome = Chromosome::new(&mother_map);
    let err = recombine(&father_chromosome, &mother_chromosome).unwrap_err();
    assert_eq!(err, GeneError::IncompatibleMaps);
}

#[test]
fn clone_is_bound_to_the_same_map() {
    let map = GeneticMap::new(vec![dist(0.5)]);
    let mut chromosome = Chromosome::new(&map);
    assert!(chromosome.set_loci(vec![1, 2]).is_ok());
    let copy = chromosome.clone();
    assert_eq!(*copy.loci(), vec![1, 2]);
    assert!(recombine(&chromosome, &copy).is_ok());
}

#[test]
fn recombinant_has_map_length_plus_one_loci() {
    let map = GeneticMap::new(vec![dist(0.5), dist(0.1), dist(0.05)]);
    let mut father_chromosome = Chromosome::new(&map);
    father_chromosome.set_loci(vec![1, 1, 1, 0]).unwrap();
    let mut mother_chromosome = Chromosome::new(&map);
    mother_chromosome.set_loci(vec![1, 0, 1, 1]).unwrap();

    let child = recombine(&father_chromosome, &mother_chromosome).unwrap();
    assert_eq!(child.len(), 4);
}

#[test]
fn recombinant_draws_every_locus_from_a_parent() {
    let map = GeneticMap::new(vec![dist(0.5), dist(0.1), dist(0.05)]);
    let mut father_chromosome = Chromosome::new(&map);
    father_chromosome.set_loci(vec![10, 11, 12, 13]).unwrap();
    let mut mother_chromosome = Chromosome::new(&map);
    mother_chromosome.set_loci(vec![20, 21, 22, 23]).unwrap();

    let child = recombine(&father_chromosome, &mother_chromosome).unwrap();
    for i in 0..child.len() {
        let v = child.locus(i);
        assert!(v == father_chromosome.locus(i) || v == mother_chromosome.locus(i));
    }
}

#[test]
fn certain_crossovers_alternate_strands() {
    // Every gap has probability one, so the walk flips at every position
    // and only the initial coin flip is left open.
    let map = GeneticMap::new(vec![dist(1.0), dist(1.0), dist(1.0)]);
    let mut father_chromosome = Chromosome::new(&map);
    father_chromosome.set_loci(vec![1, 2, 3, 4]).unwrap();
    let mut mother_chromosome = Chromosome::new(&map);
    mother_chromosome.set_loci(vec![5, 6, 7, 8]).unwrap();

    let child = recombine(&father_chromosome, &mother_chromosome).unwrap();
    let loci = child.loci().clone();
    assert!(loci == vec![1, 6, 3, 8] || loci == vec![5, 2, 7, 4]);
}

#[test]
fn impossible_crossovers_copy_one_parent_whole() {
    let map = GeneticMap::new(vec![dist(0.0), dist(0.0), dist(0.0)]);
    let mut father_chromosome = Chromosome::new(&map);
    father_chromosome.set_loci(vec![1, 2, 3, 4]).unwrap();
    let mut mother_chromosome = Chromosome::new(&map);
    mother_chromosome.set_loci(vec![5, 6, 7, 8]).unwrap();

    let child = recombine(&father_chromosome, &mother_chromosome).unwrap();
    let loci = child.loci().clone();
    assert!(loci == vec![1, 2, 3, 4] || loci == vec![5, 6, 7, 8]);
}

#[test]
fn forced_draws_reproduce_the_exact_walk() {
    let map = GeneticMap::new(vec![dist(0.5), dist(0.1), dist(0.05)]);
    let mut father_chromosome = Chromosome::new(&map);
    father_chromosome.set_loci(vec![1, 1, 1, 0]).unwrap();
    let mut mother_chromosome = Chromosome::new(&map);
    mother_chromosome.set_loci(vec![1, 0, 1, 1]).unwrap();

    // Initial strand forced to the father, no crossover anywhere: the
    // child is the father's sequence.
    let child = recombine_with_draws(
        &father_chromosome,
        &mother_chromosome,
        true,
        &vec![false, false, false],
    )
    .unwrap();
    assert_eq!(*child.loci(), vec![1, 1, 1, 0]);

    // Initial strand forced to the father, a crossover at every gap: the
    // walk alternates father, mother, father, mother.
    let child = recombine_with_draws(
        &father_chromosome,
        &mother_chromosome,
        true,
        &vec![true, true, true],
    )
    .unwrap();
    assert_eq!(*child.loci(), vec![1, 0, 1, 1]);

    // Initial strand forced to the mother, a crossover at every gap: the
    // walk alternates mother, father, mother, father.
    let child = recombine_with_draws(
        &father_chromosome,
        &mother_chromosome,
        false,
        &vec![true, true, true],
    )
    .unwrap();
    assert_eq!(*child.loci(), vec![1, 1, 1, 0]);

    // Initial strand forced to the mother, no crossover anywhere.
    let child = recombine_with_draws(
        &father_chromosome,
        &mother_chromosome,
        false,
        &vec![false, false, false],
    )
    .unwrap();
    assert_eq!(*child.loci(), vec![1, 0, 1, 1]);

    // A single crossover after the first locus: a block of one from the
    // father, then the rest from the mother.
    let child = recombine_with_draws(
        &father_chromosome,
        &mother_chromosome,
        true,
        &vec![true, false, false],
    )
    .unwrap();
    assert_eq!(*child.loci(), vec![1, 0, 1, 1]);
}

#[test]
fn length_mismatch_is_distinct_from_recombination_errors() {
    let map = GeneticMap::new(vec![dist(0.5), dist(0.1), dist(0.05)]);

    let mut father_chromosome = Chromosome::new(&map);
    let father_err = father_chromosome.set_loci(vec![1, 1, 1]).unwrap_err();
    let mut mother_chromosome = Chromosome::new(&map);
    assert!(mother_chromosome.set_loci(vec![1, 0, 1, 1]).is_ok());

    assert!(matches!(father_err, GeneError::LengthMismatch { .. }));
    assert!(!matches!(father_err, GeneError::IncompatibleMaps));
}
