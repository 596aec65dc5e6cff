//! Trimming: the first stages of the trim problem's builder and the initial
//! simplex of the optimizer.

use vstd::prelude::*;

verus! {

/// First step in building a trim problem: an empty builder.
pub struct TrimProblemBuilder;

/// Second step in building a trim problem: the system to trim is known.
pub struct TrimProblemBuilderWithSystem<Sys> {
    system: Sys,
}

impl TrimProblemBuilder {
    /// Returns a new empty builder for creating a trim problem.
    pub fn new() -> (b: Self)
        ensures
            b == TrimProblemBuilder,
    {
        TrimProblemBuilder
    }

    /// Specifies the system to use for the trim problem.
    pub fn for_system<Sys>(self, system: Sys) -> (b: TrimProblemBuilderWithSystem<Sys>)
        ensures
            b.system() == system,
    {
        TrimProblemBuilderWithSystem { system }
    }
}

impl<Sys> TrimProblemBuilderWithSystem<Sys> {
    /// The system that the builder holds.
    pub closed spec fn system(self) -> Sys {
        self.system
    }

    /// Hands the system over to the next stage of the builder.
    pub fn into_system(self) -> (s: Sys)
        ensures
            s == self.system(),
    {
        self.system
    }
}

/// The vertex of the initial simplex that moves coordinate `i` of the seed to
/// its perturbed value.
pub open spec fn perturbed_vertex<T>(seed: Seq<T>, perturbed: Seq<T>, i: int) -> Seq<T> {
    seed.update(i, perturbed[i])
}

fn copy_vec<T: Copy>(v: &Vec<T>) -> (c: Vec<T>)
    ensures
        c@ == v@,
{
    let mut c: Vec<T> = Vec::with_capacity(v.len());
    let mut k: usize = 0;
    while k < v.len()
        invariant
            k <= v.len(),
            c@ == v@.take(k as int),
        decreases v.len() - k,
    {
        c.push(v[k]);
        k = k + 1;
        assert(c@ =~= v@.take(k as int));
    }
    assert(v@.take(v.len() as int) =~= v@);
    c
}

/// Builds the initial simplex of the optimizer from a seed point: the seed
/// itself, then, as vertex `i + 1` for each coordinate `i`, the seed with
/// coordinate `i` moved to `perturbed[i]`: `seed.len() + 1` vertices in all.
pub fn build_simplex<T: Copy>(seed: &Vec<T>, perturbed: &Vec<T>) -> (simplex: Vec<Vec<T>>)
    requires
        perturbed.len() == seed.len(),
        seed.len() < usize::MAX,
    ensures
        simplex.len() == seed.len() + 1,
        simplex@[0]@ == seed@,
        forall|j: int|
            1 <= j <= seed.len() ==> (#[trigger] simplex@[j])@ == perturbed_vertex(
                seed@,
                perturbed@,
                j - 1,
            ),
{
    let mut simplex: Vec<Vec<T>> = Vec::with_capacity(seed.len() + 1);
    simplex.push(copy_vec(seed));
    let mut i: usize = 0;
    while i < seed.len()
        invariant
            i <= seed.len(),
            perturbed.len() == seed.len(),
            simplex.len() == i + 1,
            simplex@[0]@ == seed@,
            forall|j: int|
                1 <= j <= i ==> (#[trigger] simplex@[j])@ == perturbed_vertex(
                    seed@,
                    perturbed@,
                    j - 1,
                ),
        decreases seed.len() - i,
    {
        let mut vertex = copy_vec(seed);
        vertex.set(i, perturbed[i]);
        simplex.push(vertex);
        i = i + 1;
    }
    simplex
}

/// The initial simplex has one vertex more than the seed has coordinates;
/// its first vertex is the seed and every other vertex differs from the seed
/// in exactly the one coordinate it perturbs.
pub proof fn lemma_simplex_vertices_differ_in_one_coordinate<T>(
    seed: Seq<T>,
    perturbed: Seq<T>,
    i: int,
    j: int,
)
    requires
        perturbed.len() == seed.len(),
        0 <= i < seed.len(),
        0 <= j < seed.len(),
    ensures
        perturbed_vertex(seed, perturbed, i).len() == seed.len(),
        perturbed_vertex(seed, perturbed, i)[i] == perturbed[i],
        j != i ==> perturbed_vertex(seed, perturbed, i)[j] == seed[j],
{
}

} // verus!
