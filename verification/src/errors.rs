//! The failure conditions that the library reports.

use vstd::prelude::*;

verus! {

/// Everything that can go wrong while assigning loci, recombining
/// chromosomes or breeding individuals.  Each variant carries the values
/// that a caller needs for diagnostics; formatting them for display is the
/// caller's concern.
#[derive(Clone, Copy, Debug, PartialEq, Eq, Structural)]
pub enum GeneError {
    /// A loci assignment whose length disagrees with the length that the
    /// chromosome's map implies.
    LengthMismatch { expected: usize, actual: usize },
    /// Recombination was attempted on chromosomes bound to different map
    /// instances.
    IncompatibleMaps,
    /// Ploidy or chromosome count was queried on an individual without
    /// genotype data.
    NoGenotypeData,
    /// Breeding was attempted between individuals of different ploidy.
    PloidyMismatch { father: usize, mother: usize },
    /// Breeding or gamete production was attempted at a ploidy other
    /// than two.
    UnsupportedPloidy { ploidy: usize },
}

} // verus!
