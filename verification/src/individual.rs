//! Individuals and the breeding orchestrator.

use vstd::prelude::*;
use crate::chromosome::Chromosome;
use crate::chromosome::recombine;
use crate::chromosome::valid_recombinant;
use crate::errors::GeneError;
use crate::providers::fresh_identifier;

verus! {

/// The chromosome copies occupying one position of an individual's
/// genotype; its size is the individual's ploidy.
pub type Homology = Vec<Chromosome>;

/// An organism's genotype: a generated unique identifier plus one
/// homology per chromosome number.  Founder individuals are created
/// empty and populated by pushing homologies directly; derived ones come
/// out of [`breed`].
#[derive(Debug)]
pub struct Individual {
    pub id: String,
    pub homologies: Vec<Homology>,
}

impl Individual {
    /// The chromosomes of homology `i`.
    pub open spec fn spec_homology(&self, i: int) -> Seq<Chromosome> {
        self.homologies@[i]@
    }

    /// How many homologies (chromosome slots) the individual has.
    pub open spec fn spec_chromosome_number(&self) -> nat {
        self.homologies@.len()
    }

    /// Whether ploidy can be determined at all: there is a first
    /// homology and it is not empty.
    pub open spec fn spec_has_genotype(&self) -> bool {
        self.spec_chromosome_number() > 0 && self.spec_homology(0).len() > 0
    }

    /// The ploidy, inferred from the size of the first homology.
    /// Nothing forces the other homologies to have the same size.
    pub open spec fn spec_ploidy(&self) -> nat {
        self.spec_homology(0).len()
    }

    /// The identity-honesty premise of the recombination engine, for the
    /// pair of chromosomes that gamete production at slot `i` would
    /// recombine.
    pub open spec fn spec_pair_consistent(&self, i: int) -> bool {
        self.spec_homology(i).len() >= 2 ==> self.spec_homology(i)[0].identity_consistent_with(
            &self.spec_homology(i)[1],
        )
    }

    /// The structural invariant: every chromosome anywhere in the
    /// genotype is well formed, and each homology's leading pair carries
    /// honest map identities.
    pub open spec fn wf(&self) -> bool {
        &&& forall|i: int, j: int|
            0 <= i < self.spec_chromosome_number() && 0 <= j < self.spec_homology(i).len() ==> (
            #[trigger] self.spec_homology(i)[j]).wf()
        &&& forall|i: int|
            0 <= i < self.spec_chromosome_number() ==> #[trigger] self.spec_pair_consistent(i)
    }

    /// Gamete production indexes the chosen homology directly; as with
    /// direct array indexing, an index outside the genotype, or a
    /// homology shorter than the diploid pair it is asked for, is a
    /// programming-contract violation and is excluded here rather than
    /// reported.  The condition only binds on the diploid path, the one
    /// that reaches the indexing.
    pub open spec fn spec_gamete_index_ok(&self, i: int) -> bool {
        (self.spec_has_genotype() && self.spec_ploidy() == 2) ==> (0 <= i
            < self.spec_chromosome_number() && self.spec_homology(i).len() >= 2)
    }

    /// Creates an empty individual under a freshly generated identifier.
    pub fn new() -> (r: Individual)
        ensures
            r.spec_chromosome_number() == 0,
            r.wf(),
            r.id@.len() == 36,
    {
        Individual { id: fresh_identifier(), homologies: Vec::new() }
    }

    /// The ploidy: the size of the first homology.  Fails with
    /// `NoGenotypeData` exactly when there are no homologies or the
    /// first one is empty.
    pub fn ploidy(&self) -> (r: Result<usize, GeneError>)
        ensures
            r.is_ok() <==> self.spec_has_genotype(),
            r matches Ok(p) ==> p == self.spec_ploidy(),
            !self.spec_has_genotype() ==> r == Err::<usize, GeneError>(GeneError::NoGenotypeData),
    {
        if self.homologies.len() == 0 {
            return Err(GeneError::NoGenotypeData);
        }
        if self.homologies[0].len() == 0 {
            return Err(GeneError::NoGenotypeData);
        }
        Ok(self.homologies[0].len())
    }

    /// The number of chromosome slots.  Fails with `NoGenotypeData`
    /// exactly when there are no homologies.
    pub fn chromosome_number(&self) -> (r: Result<usize, GeneError>)
        ensures
            r.is_ok() <==> self.spec_chromosome_number() > 0,
            r matches Ok(n) ==> n == self.spec_chromosome_number(),
            self.spec_chromosome_number() == 0 ==> r == Err::<usize, GeneError>(
                GeneError::NoGenotypeData,
            ),
    {
        if self.homologies.len() == 0 {
            return Err(GeneError::NoGenotypeData);
        }
        Ok(self.homologies.len())
    }

    /// Produces one gamete from the homology at `homology_index` by
    /// recombining its two chromosomes.  Fails with `NoGenotypeData`
    /// when ploidy cannot be determined, with `UnsupportedPloidy` at any
    /// ploidy other than two, and propagates `IncompatibleMaps` from the
    /// recombination engine.
    pub fn get_gamete(&self, homology_index: usize) -> (r: Result<Chromosome, GeneError>)
        requires
            self.wf(),
            self.spec_gamete_index_ok(homology_index as int),
        ensures
            !self.spec_has_genotype() ==> r == Err::<Chromosome, GeneError>(
                GeneError::NoGenotypeData,
            ),
            self.spec_has_genotype() && self.spec_ploidy() != 2 ==> r == Err::<
                Chromosome,
                GeneError,
            >(GeneError::UnsupportedPloidy { ploidy: self.spec_ploidy() as usize }),
            self.spec_has_genotype() && self.spec_ploidy() == 2 ==> {
                &&& r.is_ok() <==> self.spec_homology(homology_index as int)[0].compatible_with(
                    &self.spec_homology(homology_index as int)[1],
                )
                &&& r.is_err() ==> r == Err::<Chromosome, GeneError>(GeneError::IncompatibleMaps)
                &&& r matches Ok(g) ==> valid_recombinant(
                    &g,
                    &self.spec_homology(homology_index as int)[0],
                    &self.spec_homology(homology_index as int)[1],
                )
            },
    {
        let ploidy = match self.ploidy() {
            Ok(p) => p,
            Err(e) => { return Err(e) },
        };
        if ploidy != 2 {
            return Err(GeneError::UnsupportedPloidy { ploidy });
        }
        proof {
            assert(self.spec_pair_consistent(homology_index as int));
        }
        recombine(&self.homologies[homology_index][0], &self.homologies[homology_index][1])
    }
}

/// Every leading homology pair of the first `n` chromosome slots of
/// `ind` can recombine: the two copies are bound to the same map.
pub open spec fn spec_pairs_compatible(ind: &Individual, n: int) -> bool {
    forall|i: int|
        0 <= i < n ==> (#[trigger] ind.spec_homology(i))[0].compatible_with(
            &ind.spec_homology(i)[1],
        )
}

/// Breeds two individuals: produces one gamete per chromosome slot from
/// each parent and assembles them, father's first, into the homologies
/// of a fresh child.
///
/// Fails with a propagated `NoGenotypeData` when either parent's ploidy
/// cannot be determined, with `PloidyMismatch` when the parents' ploidies
/// differ, with `UnsupportedPloidy` at any shared ploidy other than two,
/// and with a propagated `IncompatibleMaps` when some homology of a
/// parent holds chromosomes over different maps.  The parents' maps are
/// deliberately not compared with each other up front: a mismatch there
/// is not detected by this orchestrator.
pub fn breed(father: &Individual, mother: &Individual) -> (r: Result<Individual, GeneError>)
    requires
        father.wf(),
        mother.wf(),
        forall|i: int|
            0 <= i < father.spec_chromosome_number() ==> #[trigger] father.spec_gamete_index_ok(i)
                && mother.spec_gamete_index_ok(i),
        (father.spec_has_genotype() && mother.spec_has_genotype() && father.spec_ploidy() == 2
            && mother.spec_ploidy() == 2) ==> forall|i: int|
            0 <= i < father.spec_chromosome_number() ==> (#[trigger] father.spec_homology(
                i,
            ))[0].identity_consistent_with(&mother.spec_homology(i)[0]),
    ensures
        r.is_ok() <==> (father.spec_has_genotype() && mother.spec_has_genotype()
            && father.spec_ploidy() == 2 && mother.spec_ploidy() == 2 && spec_pairs_compatible(
            father,
            father.spec_chromosome_number() as int,
        ) && spec_pairs_compatible(mother, father.spec_chromosome_number() as int)),
        !father.spec_has_genotype() ==> r == Err::<Individual, GeneError>(
            GeneError::NoGenotypeData,
        ),
        father.spec_has_genotype() && !mother.spec_has_genotype() ==> r == Err::<
            Individual,
            GeneError,
        >(GeneError::NoGenotypeData),
        father.spec_has_genotype() && mother.spec_has_genotype() && father.spec_ploidy()
            != mother.spec_ploidy() ==> r == Err::<Individual, GeneError>(
            GeneError::PloidyMismatch {
                father: father.spec_ploidy() as usize,
                mother: mother.spec_ploidy() as usize,
            },
        ),
        father.spec_has_genotype() && mother.spec_has_genotype() && father.spec_ploidy()
            == mother.spec_ploidy() && father.spec_ploidy() != 2 ==> r == Err::<
            Individual,
            GeneError,
        >(GeneError::UnsupportedPloidy { ploidy: father.spec_ploidy() as usize }),
        r matches Ok(child) ==> {
            &&& child.wf()
            &&& child.spec_chromosome_number() == father.spec_chromosome_number()
            &&& child.spec_has_genotype()
            &&& child.spec_ploidy() == 2
            &&& child.id@.len() == 36
            &&& forall|i: int|
                0 <= i < child.spec_chromosome_number() ==> {
                    &&& (#[trigger] child.spec_homology(i)).len() == 2
                    &&& valid_recombinant(
                        &child.spec_homology(i)[0],
                        &father.spec_homology(i)[0],
                        &father.spec_homology(i)[1],
                    )
                    &&& valid_recombinant(
                        &child.spec_homology(i)[1],
                        &mother.spec_homology(i)[0],
                        &mother.spec_homology(i)[1],
                    )
                }
        },
{
    let father_ploidy = match father.ploidy() {
        Ok(p) => p,
        Err(e) => { return Err(e) },
    };
    let mother_ploidy = match mother.ploidy() {
        Ok(p) => p,
        Err(e) => { return Err(e) },
    };
    if father_ploidy != mother_ploidy {
        return Err(GeneError::PloidyMismatch { father: father_ploidy, mother: mother_ploidy });
    }
    if father_ploidy > 2 {
        return Err(GeneError::UnsupportedPloidy { ploidy: father_ploidy });
    }
    let mut child = Individual::new();
    let n = match father.chromosome_number() {
        Ok(n) => n,
        Err(e) => { return Err(e) },
    };
    let mut chromosome_index: usize = 0;
    while chromosome_index < n
        invariant
            chromosome_index <= n,
            n == father.spec_chromosome_number(),
            father.wf(),
            mother.wf(),
            father.spec_has_genotype(),
            mother.spec_has_genotype(),
            father.spec_ploidy() == mother.spec_ploidy(),
            father.spec_ploidy() <= 2,
            0 < chromosome_index ==> father.spec_ploidy() == 2,
            forall|i: int|
                0 <= i < father.spec_chromosome_number() ==> #[trigger] father.spec_gamete_index_ok(
                    i,
                ) && mother.spec_gamete_index_ok(i),
            (father.spec_ploidy() == 2 && mother.spec_ploidy() == 2) ==> forall|i: int|
                0 <= i < father.spec_chromosome_number() ==> (#[trigger] father.spec_homology(
                    i,
                ))[0].identity_consistent_with(&mother.spec_homology(i)[0]),
            child.spec_chromosome_number() == chromosome_index,
            child.id@.len() == 36,
            forall|j: int|
                0 <= j < chromosome_index ==> (#[trigger] father.spec_homology(
                    j,
                ))[0].compatible_with(&father.spec_homology(j)[1]) && mother.spec_homology(
                    j,
                )[0].compatible_with(&mother.spec_homology(j)[1]),
            forall|j: int|
                0 <= j < chromosome_index ==> {
                    &&& (#[trigger] child.spec_homology(j)).len() == 2
                    &&& valid_recombinant(
                        &child.spec_homology(j)[0],
                        &father.spec_homology(j)[0],
                        &father.spec_homology(j)[1],
                    )
                    &&& valid_recombinant(
                        &child.spec_homology(j)[1],
                        &mother.spec_homology(j)[0],
                        &mother.spec_homology(j)[1],
                    )
                },
        decreases n - chromosome_index,
    {
        let ghost child_at_entry = child;
        proof {
            assert(father.spec_gamete_index_ok(chromosome_index as int) && mother.spec_gamete_index_ok(
                chromosome_index as int,
            ));
        }
        let father_gamete = match father.get_gamete(chromosome_index) {
            Ok(g) => g,
            Err(e) => {
                proof {
                    if father.spec_ploidy() == 2 {
                        assert(!(father.spec_homology(chromosome_index as int)[0].compatible_with(
                            &father.spec_homology(chromosome_index as int)[1],
                        )));
                    }
                }
                return Err(e);
            },
        };
        let mother_gamete = match mother.get_gamete(chromosome_index) {
            Ok(g) => g,
            Err(e) => {
                proof {
                    if mother.spec_ploidy() == 2 {
                        assert(!(mother.spec_homology(chromosome_index as int)[0].compatible_with(
                            &mother.spec_homology(chromosome_index as int)[1],
                        )));
                    }
                }
                return Err(e);
            },
        };
        let mut new_homology: Homology = Vec::new();
        new_homology.push(father_gamete);
        new_homology.push(mother_gamete);
        let ghost pre_push = child.homologies@;
        child.homologies.push(new_homology);
        proof {
            assert(child.spec_homology(chromosome_index as int).len() == 2);
            assert(child.spec_homology(chromosome_index as int)[0] == father_gamete);
            assert(child.spec_homology(chromosome_index as int)[1] == mother_gamete);
            assert forall|j: int| 0 <= j < chromosome_index + 1 implies (
            #[trigger] father.spec_homology(j))[0].compatible_with(&father.spec_homology(j)[1])
                && mother.spec_homology(j)[0].compatible_with(&mother.spec_homology(j)[1]) by {
                if j == chromosome_index {
                    assert(father.spec_homology(j)[0].compatible_with(&father.spec_homology(j)[1]));
                    assert(mother.spec_homology(j)[0].compatible_with(&mother.spec_homology(j)[1]));
                }
            }
            assert forall|j: int| 0 <= j < chromosome_index + 1 implies {
                &&& (#[trigger] child.spec_homology(j)).len() == 2
                &&& valid_recombinant(
                    &child.spec_homology(j)[0],
                    &father.spec_homology(j)[0],
                    &father.spec_homology(j)[1],
                )
                &&& valid_recombinant(
                    &child.spec_homology(j)[1],
                    &mother.spec_homology(j)[0],
                    &mother.spec_homology(j)[1],
                )
            } by {
                if j == chromosome_index {
                    assert(valid_recombinant(
                        &child.spec_homology(j)[0],
                        &father.spec_homology(j)[0],
                        &father.spec_homology(j)[1],
                    ));
                    assert(valid_recombinant(
                        &child.spec_homology(j)[1],
                        &mother.spec_homology(j)[0],
                        &mother.spec_homology(j)[1],
                    ));
                } else {
                    assert(child.homologies@[j] == pre_push[j]);
                    assert(child.spec_homology(j) == child_at_entry.spec_homology(j));
                    assert(valid_recombinant(
                        &child_at_entry.spec_homology(j)[0],
                        &father.spec_homology(j)[0],
                        &father.spec_homology(j)[1],
                    ));
                    assert(valid_recombinant(
                        &child_at_entry.spec_homology(j)[1],
                        &mother.spec_homology(j)[0],
                        &mother.spec_homology(j)[1],
                    ));
                }
            }
        }
        chromosome_index = chromosome_index + 1;
    }
    proof {
        assert forall|i: int| 0 <= i < father.spec_chromosome_number() implies (
        #[trigger] mother.spec_homology(i))[0].compatible_with(&mother.spec_homology(i)[1]) by {
            assert(father.spec_homology(i)[0].compatible_with(&father.spec_homology(i)[1]));
        }
    }
    Ok(child)
}

} // verus!
