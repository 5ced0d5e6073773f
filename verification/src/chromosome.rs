//! Genetic maps, chromosomes and the recombination engine.

use vstd::prelude::*;
use vstd::pervasive::VecAdditionalExecFns;
use crate::errors::GeneError;
use crate::providers::bernoulli;
use crate::providers::coin_flip;
use crate::providers::fresh_map_id;

verus! {

/// An allele value at one locus.
pub type Locus = i32;

/// Recombination probabilities are held in fixed point: a
/// [`GeneticDistance`] of `d` stands for the probability
/// `d / PROBABILITY_SCALE` that a crossover occurs between two adjacent
/// loci.  `PROBABILITY_SCALE / 2` therefore stands for one half, the
/// largest genetically meaningful distance.
pub const PROBABILITY_SCALE: u32 = 1_000_000_000;

/// The probability of a crossover between two adjacent loci, in parts of
/// [`PROBABILITY_SCALE`].
pub type GeneticDistance = u32;

/// An ordered sequence of inter-locus recombination probabilities.  A map
/// of length `L` lays out a chromosome of `L + 1` loci.
///
/// Every map carries a generated identifier, and chromosomes count as
/// bound to *the same* map exactly when their maps' identifiers agree:
/// identity, not structural equality, decides compatibility, so two
/// separately constructed but structurally identical maps are still
/// incompatible.
#[derive(Debug)]
pub struct GeneticMap {
    id: u128,
    distances: Vec<GeneticDistance>,
}

impl GeneticMap {
    /// The identity handle of this map.
    pub closed spec fn spec_id(&self) -> u128 {
        self.id
    }

    /// The inter-locus distances of this map.
    pub closed spec fn spec_distances(&self) -> Seq<GeneticDistance> {
        self.distances@
    }

    /// The number of inter-locus gaps; a chromosome over this map has one
    /// locus more.
    pub open spec fn spec_len(&self) -> nat {
        self.spec_distances().len()
    }

    /// Builds a map from its distances, under a freshly generated
    /// identity handle.
    pub fn new(distances: Vec<GeneticDistance>) -> (m: GeneticMap)
        ensures
            m.spec_distances() == distances@,
    {
        GeneticMap { id: fresh_map_id(), distances }
    }

    /// The number of inter-locus gaps.
    pub fn len(&self) -> (n: usize)
        ensures
            n == self.spec_len(),
    {
        self.distances.len()
    }

    /// Whether the map has no gaps at all.
    pub fn is_empty(&self) -> (r: bool)
        ensures
            r == (self.spec_len() == 0),
    {
        self.distances.len() == 0
    }
}

impl Clone for GeneticMap {
    /// A clone keeps both the distances and the identity handle, so a
    /// chromosome built over the clone is compatible with one built over
    /// the original.
    fn clone(&self) -> (r: Self)
        ensures
            r.spec_id() == self.spec_id(),
            r.spec_distances() == self.spec_distances(),
    {
        let r = GeneticMap { id: self.id, distances: self.distances.clone() };
        proof {
            assert(r.distances@ =~= self.distances@);
        }
        r
    }
}

/// An ordered sequence of allele values over one [`GeneticMap`].  The
/// loci sequence is always exactly one longer than the map.
#[derive(Debug)]
pub struct Chromosome {
    loci: Vec<Locus>,
    map: GeneticMap,
}

impl Chromosome {
    /// The allele values, one per locus.
    pub closed spec fn spec_loci(&self) -> Seq<Locus> {
        self.loci@
    }

    /// The identity handle of the map this chromosome is bound to.
    pub closed spec fn spec_map_id(&self) -> u128 {
        self.map.spec_id()
    }

    /// The distances of the map this chromosome is bound to.
    pub closed spec fn spec_map_distances(&self) -> Seq<GeneticDistance> {
        self.map.spec_distances()
    }

    /// The length of the map this chromosome is bound to.
    pub open spec fn spec_map_len(&self) -> nat {
        self.spec_map_distances().len()
    }

    /// The structural invariant: the loci sequence is exactly one longer
    /// than the map.
    pub open spec fn wf(&self) -> bool {
        self.spec_loci().len() == self.spec_map_len() + 1
    }

    /// Two chromosomes may recombine only when they are bound to the same
    /// map instance, which the identity handles decide.
    pub open spec fn compatible_with(&self, other: &Chromosome) -> bool {
        self.spec_map_id() == other.spec_map_id()
    }

    /// Identity handles are generated freshly for each constructed map
    /// and never reused, so two chromosomes whose handles agree hold the
    /// same distances.  The constructors of this module only ever build
    /// states with this property; it is spelled out here because the
    /// proofs need it stated.
    pub open spec fn identity_consistent_with(&self, other: &Chromosome) -> bool {
        self.compatible_with(other) ==> self.spec_map_distances() == other.spec_map_distances()
    }

    /// Constructs a new chromosome over `map` with all loci at the
    /// default allele value of zero.
    pub fn new(map: &GeneticMap) -> (c: Chromosome)
        requires
            map.spec_len() < usize::MAX,
        ensures
            c.wf(),
            c.spec_map_id() == map.spec_id(),
            c.spec_map_distances() == map.spec_distances(),
            c.spec_loci().len() == map.spec_len() + 1,
            forall|i: int| 0 <= i < c.spec_loci().len() ==> c.spec_loci()[i] == 0,
    {
        let n = map.len() + 1;
        let mut loci: Vec<Locus> = Vec::new();
        while loci.len() < n
            invariant
                loci@.len() <= n,
                forall|i: int| 0 <= i < loci@.len() ==> loci@[i] == 0,
            decreases n - loci@.len(),
        {
            loci.push(0);
        }
        Chromosome { loci, map: map.clone() }
    }

    /// Replaces the loci values.  Fails with `LengthMismatch`, leaving
    /// the chromosome untouched, exactly when the new sequence does not
    /// have the map-implied length.
    pub fn set_loci(&mut self, loci: Vec<Locus>) -> (r: Result<(), GeneError>)
        requires
            old(self).wf(),
        ensures
            final(self).wf(),
            final(self).spec_map_id() == old(self).spec_map_id(),
            final(self).spec_map_distances() == old(self).spec_map_distances(),
            r.is_ok() <==> loci@.len() == old(self).spec_map_len() + 1,
            r.is_ok() ==> final(self).spec_loci() == loci@,
            r.is_err() ==> final(self).spec_loci() == old(self).spec_loci(),
            r matches Err(e) ==> e == (GeneError::LengthMismatch {
                expected: old(self).spec_loci().len() as usize,
                actual: loci@.len() as usize,
            }),
    {
        let expected = self.loci.len();
        if loci.len() != expected {
            return Err(GeneError::LengthMismatch { expected, actual: loci.len() });
        }
        self.loci = loci;
        Ok(())
    }

    /// The number of loci: one more than the length of the map.
    pub fn len(&self) -> (n: usize)
        requires
            self.wf(),
        ensures
            n == self.spec_map_len() + 1,
            n == self.spec_loci().len(),
    {
        self.loci.len()
    }

    /// Whether the underlying map is empty (a chromosome itself always
    /// has at least one locus).
    pub fn is_empty(&self) -> (r: bool)
        ensures
            r == (self.spec_map_len() == 0),
    {
        self.map.is_empty()
    }

    /// Reads the allele at `index`.  Out-of-range access is a
    /// programming-contract violation, excluded here rather than reported.
    pub fn locus(&self, index: usize) -> (v: Locus)
        requires
            index < self.spec_loci().len(),
        ensures
            v == self.spec_loci()[index as int],
    {
        self.loci[index]
    }

    /// Writes the allele at `index`; the counterpart of [`Self::locus`].
    pub fn set_locus(&mut self, index: usize, value: Locus)
        requires
            index < old(self).spec_loci().len(),
        ensures
            final(self).spec_loci() == old(self).spec_loci().update(index as int, value),
            final(self).spec_map_id() == old(self).spec_map_id(),
            final(self).spec_map_distances() == old(self).spec_map_distances(),
    {
        self.loci.set(index, value);
    }

    /// Read access to the whole loci sequence.
    pub fn loci(&self) -> (l: &Vec<Locus>)
        ensures
            l@ == self.spec_loci(),
    {
        &self.loci
    }
}

impl Clone for Chromosome {
    /// A clone keeps the loci and stays bound to the same map instance.
    fn clone(&self) -> (r: Self)
        ensures
            r.spec_loci() == self.spec_loci(),
            r.spec_map_id() == self.spec_map_id(),
            r.spec_map_distances() == self.spec_map_distances(),
    {
        let r = Chromosome { loci: self.loci.clone(), map: self.map.clone() };
        proof {
            assert(r.loci@ =~= self.loci@);
        }
        r
    }
}

/// Which parent supplies the allele at position `i` of the crossover
/// walk: `true` means the strand the walk started from.  The source flips
/// between positions `j` and `j + 1` exactly when `crossovers[j]` holds.
pub open spec fn source_is_first(start_first: bool, crossovers: Seq<bool>, i: int) -> bool
    decreases i,
{
    if i <= 0 {
        start_first
    } else if crossovers[i - 1] {
        !source_is_first(start_first, crossovers, i - 1)
    } else {
        source_is_first(start_first, crossovers, i - 1)
    }
}

/// The allele that the crossover walk copies into position `i` of the
/// child: the allele of whichever parent is the current source strand.
pub open spec fn recombined_locus(
    a: Seq<Locus>,
    b: Seq<Locus>,
    start_first: bool,
    crossovers: Seq<bool>,
    i: int,
) -> Locus {
    if source_is_first(start_first, crossovers, i) {
        a[i]
    } else {
        b[i]
    }
}

/// What every offspring of `a` and `b` satisfies: it is well formed, it
/// is bound to the parents' map, and every one of its alleles comes from
/// `a` or from `b` at the same position.
pub open spec fn valid_recombinant(child: &Chromosome, a: &Chromosome, b: &Chromosome) -> bool {
    &&& child.wf()
    &&& child.spec_map_id() == a.spec_map_id()
    &&& child.spec_map_distances() == a.spec_map_distances()
    &&& child.spec_loci().len() == a.spec_map_len() + 1
    &&& forall|i: int|
        0 <= i < child.spec_loci().len() ==> child.spec_loci()[i] == a.spec_loci()[i]
            || child.spec_loci()[i] == b.spec_loci()[i]
}

/// Recombines two chromosomes under a given sequence of draws: the
/// initial choice of source strand and, for each inter-locus gap, whether
/// a crossover occurs there.  This is the deterministic core of
/// [`recombine`]; handing it a fixed draw sequence reproduces one
/// crossover walk exactly.
///
/// Fails with `IncompatibleMaps` exactly when the two chromosomes are
/// bound to different map instances.
pub fn recombine_with_draws(
    father_chromosome: &Chromosome,
    mother_chromosome: &Chromosome,
    start_with_father: bool,
    crossovers: &Vec<bool>,
) -> (r: Result<Chromosome, GeneError>)
    requires
        father_chromosome.wf(),
        mother_chromosome.wf(),
        father_chromosome.identity_consistent_with(mother_chromosome),
        crossovers@.len() == father_chromosome.spec_map_len(),
    ensures
        r.is_ok() <==> father_chromosome.compatible_with(mother_chromosome),
        !father_chromosome.compatible_with(mother_chromosome) ==> r == Err::<
            Chromosome,
            GeneError,
        >(GeneError::IncompatibleMaps),
        r matches Ok(child) ==> valid_recombinant(&child, father_chromosome, mother_chromosome),
        r matches Ok(child) ==> forall|i: int|
            0 <= i < child.spec_loci().len() ==> child.spec_loci()[i] == recombined_locus(
                father_chromosome.spec_loci(),
                mother_chromosome.spec_loci(),
                start_with_father,
                crossovers@,
                i,
            ),
{
    if father_chromosome.map.id != mother_chromosome.map.id {
        return Err(GeneError::IncompatibleMaps);
    }
    proof {
        // The loci vector fits in memory, so the map length stays below
        // the address-space bound.
        assert(father_chromosome.loci.len() == father_chromosome.loci@.len());
    }
    let mut child_chromosome = Chromosome::new(&father_chromosome.map);
    let len = child_chromosome.loci.len();
    let mut from_father = start_with_father;
    let mut i: usize = 0;
    while i < len
        invariant
            i <= len,
            len == father_chromosome.spec_map_len() + 1,
            father_chromosome.wf(),
            mother_chromosome.wf(),
            father_chromosome.spec_map_distances() == mother_chromosome.spec_map_distances(),
            crossovers@.len() + 1 == len,
            child_chromosome.spec_loci().len() == len,
            child_chromosome.spec_map_id() == father_chromosome.spec_map_id(),
            child_chromosome.spec_map_distances() == father_chromosome.spec_map_distances(),
            i < len ==> from_father == source_is_first(start_with_father, crossovers@, i as int),
            forall|j: int|
                0 <= j < i ==> child_chromosome.spec_loci()[j] == recombined_locus(
                    father_chromosome.spec_loci(),
                    mother_chromosome.spec_loci(),
                    start_with_father,
                    crossovers@,
                    j,
                ),
        decreases len - i,
    {
        let v = if from_father {
            father_chromosome.loci[i]
        } else {
            mother_chromosome.loci[i]
        };
        child_chromosome.loci.set(i, v);
        if i + 1 < len {
            if crossovers[i] {
                from_father = !from_father;
            }
        }
        i = i + 1;
    }
    Ok(child_chromosome)
}

/// Recombines two chromosomes.
///
/// Draws the initial source strand by a fair coin flip, then walks the
/// loci in order, copying the current source strand's allele and, after
/// each position but the last, switching strands with the probability
/// that the map gives for that gap.
///
/// Fails with `IncompatibleMaps` exactly when the two chromosomes are
/// bound to different map instances; the offspring of a successful call
/// is bound to the shared map and draws each allele from one of the two
/// parents at the same position.
pub fn recombine(father_chromosome: &Chromosome, mother_chromosome: &Chromosome) -> (r: Result<
    Chromosome,
    GeneError,
>)
    requires
        father_chromosome.wf(),
        mother_chromosome.wf(),
        father_chromosome.identity_consistent_with(mother_chromosome),
    ensures
        r.is_ok() <==> father_chromosome.compatible_with(mother_chromosome),
        !father_chromosome.compatible_with(mother_chromosome) ==> r == Err::<
            Chromosome,
            GeneError,
        >(GeneError::IncompatibleMaps),
        r matches Ok(child) ==> valid_recombinant(&child, father_chromosome, mother_chromosome),
{
    if father_chromosome.map.id != mother_chromosome.map.id {
        return Err(GeneError::IncompatibleMaps);
    }
    let start_with_father = coin_flip();
    let map_len = father_chromosome.map.distances.len();
    let mut crossovers: Vec<bool> = Vec::new();
    let mut i: usize = 0;
    while i < map_len
        invariant
            i <= map_len,
            crossovers@.len() == i,
            map_len == father_chromosome.spec_map_len(),
        decreases map_len - i,
    {
        let d = father_chromosome.map.distances[i];
        // A distance at or above the scale stands for a probability of at
        // least one: such a gap always crosses over, as a uniform draw in
        // [0, 1) is below it with certainty.
        let p = if d > PROBABILITY_SCALE {
            PROBABILITY_SCALE
        } else {
            d
        };
        crossovers.push(bernoulli(p, PROBABILITY_SCALE));
        i = i + 1;
    }
    recombine_with_draws(father_chromosome, mother_chromosome, start_with_father, &crossovers)
}

} // verus!
