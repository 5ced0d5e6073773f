//! Simulation of Mendelian inheritance.
//!
//! A [`GeneticMap`] lists the recombination probability between each pair of
//! adjacent loci; a [`Chromosome`] is a sequence of allele values laid out
//! over such a map.  [`recombine`] produces an offspring chromosome from two
//! parents sharing a map by a randomized crossover walk, and [`breed`]
//! extends this to diploid individuals made of several chromosome pairs.

pub mod chromosome;
pub mod errors;
pub mod individual;
pub mod providers;

pub use chromosome::Chromosome;
pub use chromosome::GeneticMap;
pub use chromosome::recombine;
pub use errors::GeneError;
pub use individual::Individual;
pub use individual::breed;
