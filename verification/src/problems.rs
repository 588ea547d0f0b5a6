//! Registry of math-competition problems, each annotated with proof steps
//! that carry an axiom-aligned insight.

use vstd::prelude::*;
use vstd::string::StringExecFns;

verus! {

/// A proof step annotated with an axiom-aligned insight.
#[derive(Debug, Clone)]
pub struct ProofStep {
    pub statement: String,
    pub axiom_insight: String,
}

impl ProofStep {
    pub fn new(statement: String, axiom_insight: String) -> (r: Self)
        ensures
            r.statement == statement,
            r.axiom_insight == axiom_insight,
    {
        Self { statement, axiom_insight }
    }
}

/// Container for an Erdos problem and its axiom-aligned proof steps.
#[derive(Debug, Clone)]
pub struct ErdosProblem {
    pub identifier: String,
    pub title: String,
    pub statement: String,
    pub status: String,
    pub axiom_insight: String,
    pub proof_steps: Vec<ProofStep>,
}

impl ErdosProblem {
    pub fn new(
        identifier: String,
        title: String,
        statement: String,
        status: String,
        axiom_insight: String,
    ) -> (r: Self)
        ensures
            r.identifier == identifier,
            r.title == title,
            r.statement == statement,
            r.status == status,
            r.axiom_insight == axiom_insight,
            r.proof_steps@ == Seq::<ProofStep>::empty(),
    {
        Self {
            identifier,
            title,
            statement,
            status,
            axiom_insight,
            proof_steps: Vec::new(),
        }
    }

    pub fn add_proof_step(&mut self, statement: String, axiom_insight: String)
        ensures
            final(self).proof_steps@ == old(self).proof_steps@.push(
                (ProofStep { statement, axiom_insight }),
            ),
            final(self).identifier == old(self).identifier,
            final(self).title == old(self).title,
            final(self).statement == old(self).statement,
            final(self).status == old(self).status,
            final(self).axiom_insight == old(self).axiom_insight,
    {
        self.proof_steps.push(ProofStep::new(statement, axiom_insight));
    }

    pub fn add_proof_steps(&mut self, steps: Vec<ProofStep>)
        ensures
            final(self).proof_steps@ == old(self).proof_steps@ + steps@,
            final(self).identifier == old(self).identifier,
            final(self).title == old(self).title,
            final(self).statement == old(self).statement,
            final(self).status == old(self).status,
            final(self).axiom_insight == old(self).axiom_insight,
    {
        let mut incoming = steps;
        self.proof_steps.append(&mut incoming);
    }
}

/// Summary line for one registered problem.
#[derive(Debug, Clone)]
pub struct ProblemSummary {
    pub identifier: String,
    pub title: String,
    pub status: String,
}

/// True when some problem in the sequence carries the given identifier.
pub open spec fn has_identifier(s: Seq<ErdosProblem>, id: Seq<char>) -> bool {
    exists|i: int| 0 <= i < s.len() && s[i].identifier@ == id
}

/// Registry for mathematical problems and axiom-aligned proof steps.
#[derive(Debug, Clone)]
pub struct MathSolutions {
    pub problems: Vec<ErdosProblem>,
}

impl MathSolutions {
    pub fn new() -> (r: Self)
        ensures
            r.problems@ == Seq::<ErdosProblem>::empty(),
    {
        Self { problems: Vec::new() }
    }

    /// Builds the registry pre-loaded with the nine seeded Erdos problems.
    pub fn erdos_seed() -> (r: Self)
        ensures
            is_erdos_seed(r.problems@),
    {
        Self { problems: seed_erdos_problems() }
    }

    /// Registers a problem: replaces the first problem that already carries
    /// its identifier, or appends it when none does.
    pub fn add_problem(&mut self, problem: ErdosProblem)
        ensures
            has_identifier(old(self).problems@, problem.identifier@) ==> exists|i: int|
                0 <= i < old(self).problems@.len()
                    && old(self).problems@[i].identifier@ == problem.identifier@
                    && (forall|k: int|
                        0 <= k < i ==> old(self).problems@[k].identifier@
                            != problem.identifier@)
                    && final(self).problems@ == old(self).problems@.update(i, problem),
            !has_identifier(old(self).problems@, problem.identifier@) ==> final(self).problems@
                == old(self).problems@.push(problem),
    {
        let mut i: usize = 0;
        while i < self.problems.len()
            invariant
                i <= self.problems@.len(),
                self == old(self),
                forall|k: int|
                    0 <= k < i ==> self.problems@[k].identifier@ != problem.identifier@,
            decreases self.problems@.len() - i,
        {
            if self.problems[i].identifier == problem.identifier {
                self.problems[i] = problem;
                return ;
            }
            i = i + 1;
        }
        self.problems.push(problem);
    }

    pub fn get_problem(&self, identifier: &str) -> (r: Option<&ErdosProblem>)
        ensures
            match r {
                Some(p) => exists|i: int|
                    0 <= i < self.problems@.len() && *p == self.problems@[i]
                        && p.identifier@ == identifier@
                        && (forall|k: int|
                            0 <= k < i ==> self.problems@[k].identifier@ != identifier@),
                None => !has_identifier(self.problems@, identifier@),
            },
    {
        let key = identifier.to_owned();
        let mut i: usize = 0;
        while i < self.problems.len()
            invariant
                i <= self.problems@.len(),
                key@ == identifier@,
                forall|k: int| 0 <= k < i ==> self.problems@[k].identifier@ != identifier@,
            decreases self.problems@.len() - i,
        {
            if self.problems[i].identifier == key {
                return Some(&self.problems[i]);
            }
            i = i + 1;
        }
        None
    }

    pub fn get_problem_mut(&mut self, identifier: &str) -> (r: Option<&mut ErdosProblem>)
        ensures
            match r {
                Some(p) => exists|i: int|
                    0 <= i < old(self).problems@.len() && *p == old(self).problems@[i]
                        && p.identifier@ == identifier@
                        && (forall|k: int|
                            0 <= k < i ==> old(self).problems@[k].identifier@ != identifier@)
                        && final(self).problems@ == old(self).problems@.update(i, *final(p)),
                None => *final(self) == *old(self) && !has_identifier(
                    old(self).problems@,
                    identifier@,
                ),
            },
    {
        let key = identifier.to_owned();
        let mut i: usize = 0;
        while i < self.problems.len()
            invariant
                i <= self.problems@.len(),
                key@ == identifier@,
                self == old(self),
                forall|k: int| 0 <= k < i ==> self.problems@[k].identifier@ != identifier@,
            decreases self.problems@.len() - i,
        {
            if self.problems[i].identifier == key {
                return Some(&mut self.problems[i]);
            }
            i = i + 1;
        }
        None
    }

    pub fn list_problems(&self) -> (r: &Vec<ErdosProblem>)
        ensures
            r == &self.problems,
    {
        &self.problems
    }

    pub fn summaries(&self) -> (r: Vec<ProblemSummary>)
        ensures
            r@.len() == self.problems@.len(),
            forall|i: int|
                0 <= i < r@.len() ==> r@[i].identifier == self.problems@[i].identifier
                    && r@[i].title == self.problems@[i].title
                    && r@[i].status == self.problems@[i].status,
    {
        let mut out: Vec<ProblemSummary> = Vec::new();
        let mut i: usize = 0;
        while i < self.problems.len()
            invariant
                i <= self.problems@.len(),
                out@.len() == i,
                forall|k: int|
                    0 <= k < i ==> out@[k].identifier == self.problems@[k].identifier
                        && out@[k].title == self.problems@[k].title
                        && out@[k].status == self.problems@[k].status,
            decreases self.problems@.len() - i,
        {
            let problem = &self.problems[i];
            out.push(
                ProblemSummary {
                    identifier: problem.identifier.clone(),
                    title: problem.title.clone(),
                    status: problem.status.clone(),
                },
            );
            i = i + 1;
        }
        out
    }

    /// Appends a proof step to the problem carrying the identifier; fails
    /// with a message naming the identifier when no problem carries it.
    pub fn add_proof_step(
        &mut self,
        identifier: &str,
        statement: String,
        axiom_insight: String,
    ) -> (r: Result<(), String>)
        ensures
            has_identifier(old(self).problems@, identifier@) ==> r is Ok && exists|i: int|
                0 <= i < old(self).problems@.len()
                    && old(self).problems@[i].identifier@ == identifier@
                    && (forall|k: int|
                        0 <= k < i ==> old(self).problems@[k].identifier@ != identifier@)
                    && final(self).problems@ == old(self).problems@.update(
                    i,
                    (ErdosProblem {
                        proof_steps: final(self).problems@[i].proof_steps,
                        ..old(self).problems@[i]
                    }),
                ) && final(self).problems@[i].proof_steps@ == old(
                    self,
                ).problems@[i].proof_steps@.push((ProofStep { statement, axiom_insight })),
            !has_identifier(old(self).problems@, identifier@) ==> *final(self) == *old(self) && (
            match r {
                Ok(_) => false,
                Err(message) => message@ == "Unknown problem identifier: "@ + identifier@,
            }),
    {
        match self.get_problem_mut(identifier) {
            Some(problem) => {
                problem.add_proof_step(statement, axiom_insight);
                Ok(())
            },
            None => Err(String::from_str("Unknown problem identifier: ").concat(identifier)),
        }
    }
}

pub open spec fn is_seed_straus(p: ErdosProblem) -> bool {
    &&& p.identifier@ == "erdos-straus"@
    &&& p.title@ == "Erdos–Straus Conjecture"@
    &&& p.statement@ == "For every integer n ≥ 2, the rational 4/n can be expressed as the sum of three unit fractions: 4/n = 1/x + 1/y + 1/z for integers x, y, z."@
    &&& p.status@ == "open"@
    &&& p.axiom_insight@ == "The axiom highlights how constraints (C) and growth (E_n, F_n) interact, suggesting structured pathways to decompositions."@
    &&& p.proof_steps@.len() == 5
    &&& p.proof_steps@[0].statement@ == "Clear denominators to obtain 4xyz = n(xy + xz + yz), exposing the shared ABC constraint."@
    &&& p.proof_steps@[0].axiom_insight@ == "A·B·C locks the reciprocal structure while C records divisibility pressure."@
    &&& p.proof_steps@[1].statement@ == "Partition n into congruence classes to target families where n divides xy + xz + yz."@
    &&& p.proof_steps@[1].axiom_insight@ == "F_n periodicity mirrors modular cycles, guiding repeatable constructions."@
    &&& p.proof_steps@[2].statement@ == "Introduce parameterized families for (x, y, z) that satisfy the cleared equation."@
    &&& p.proof_steps@[2].axiom_insight@ == "E_n growth supplies expansion room; X and Y keep selections coherent."@
    &&& p.proof_steps@[3].statement@ == "Balance denominator growth so x, y, z remain positive and ordered, avoiding runaway residues."@
    &&& p.proof_steps@[3].axiom_insight@ == "E_n expands search while F_n regulates magnitude."@
    &&& p.proof_steps@[4].statement@ == "Cover dense residue families and reduce remaining cases to bounded verification windows."@
    &&& p.proof_steps@[4].axiom_insight@ == "Z enforces temporal continuity; remaining gaps collapse to finite checks."@
}

fn seed_straus() -> (p: ErdosProblem)
    ensures
        is_seed_straus(p),
{
    let mut p = ErdosProblem::new(
        "erdos-straus".to_owned(),
        "Erdos–Straus Conjecture".to_owned(),
        "For every integer n ≥ 2, the rational 4/n can be expressed as the sum of three unit fractions: 4/n = 1/x + 1/y + 1/z for integers x, y, z.".to_owned(),
        "open".to_owned(),
        "The axiom highlights how constraints (C) and growth (E_n, F_n) interact, suggesting structured pathways to decompositions.".to_owned(),
    );
    p.add_proof_step(
        "Clear denominators to obtain 4xyz = n(xy + xz + yz), exposing the shared ABC constraint.".to_owned(),
        "A·B·C locks the reciprocal structure while C records divisibility pressure.".to_owned(),
    );
    p.add_proof_step(
        "Partition n into congruence classes to target families where n divides xy + xz + yz.".to_owned(),
        "F_n periodicity mirrors modular cycles, guiding repeatable constructions.".to_owned(),
    );
    p.add_proof_step(
        "Introduce parameterized families for (x, y, z) that satisfy the cleared equation.".to_owned(),
        "E_n growth supplies expansion room; X and Y keep selections coherent.".to_owned(),
    );
    p.add_proof_step(
        "Balance denominator growth so x, y, z remain positive and ordered, avoiding runaway residues.".to_owned(),
        "E_n expands search while F_n regulates magnitude.".to_owned(),
    );
    p.add_proof_step(
        "Cover dense residue families and reduce remaining cases to bounded verification windows.".to_owned(),
        "Z enforces temporal continuity; remaining gaps collapse to finite checks.".to_owned(),
    );
    p
}

pub open spec fn is_seed_distinct_distances(p: ErdosProblem) -> bool {
    &&& p.identifier@ == "erdos-distinct-distances"@
    &&& p.title@ == "Erdos Distinct Distances Problem"@
    &&& p.statement@ == "Determine the minimum number of distinct distances defined by n points in the plane."@
    &&& p.status@ == "solved"@
    &&& p.axiom_insight@ == "Balancing combinatorial growth (E_n) with structural regulation (F_n) mirrors the tension between point density and distance diversity."@
    &&& p.proof_steps@.len() == 5
    &&& p.proof_steps@[0].statement@ == "Normalize the configuration by translation and scaling to fix baseline spacing."@
    &&& p.proof_steps@[0].axiom_insight@ == "X, Y, Z align perspective and time scale before counting."@
    &&& p.proof_steps@[1].statement@ == "Count point pairs to relate total pairs to distance multiplicities."@
    &&& p.proof_steps@[1].axiom_insight@ == "E_n captures pair growth while F_n regulates clustering."@
    &&& p.proof_steps@[2].statement@ == "Apply incidence bounds to limit how often a distance can repeat."@
    &&& p.proof_steps@[2].axiom_insight@ == "C pressure caps over-concentration in any single distance."@
    &&& p.proof_steps@[3].statement@ == "Construct near-lattice configurations to achieve the lower-bound regime."@
    &&& p.proof_steps@[3].axiom_insight@ == "A·B·C balances structure so growth matches regulation."@
    &&& p.proof_steps@[4].statement@ == "Conclude the asymptotic bound by matching upper and lower envelopes."@
    &&& p.proof_steps@[4].axiom_insight@ == "Dynamic layer (E_n, F_n) closes the gap between expansion and constraint."@
}

fn seed_distinct_distances() -> (p: ErdosProblem)
    ensures
        is_seed_distinct_distances(p),
{
    let mut p = ErdosProblem::new(
        "erdos-distinct-distances".to_owned(),
        "Erdos Distinct Distances Problem".to_owned(),
        "Determine the minimum number of distinct distances defined by n points in the plane.".to_owned(),
        "solved".to_owned(),
        "Balancing combinatorial growth (E_n) with structural regulation (F_n) mirrors the tension between point density and distance diversity.".to_owned(),
    );
    p.add_proof_step(
        "Normalize the configuration by translation and scaling to fix baseline spacing.".to_owned(),
        "X, Y, Z align perspective and time scale before counting.".to_owned(),
    );
    p.add_proof_step(
        "Count point pairs to relate total pairs to distance multiplicities.".to_owned(),
        "E_n captures pair growth while F_n regulates clustering.".to_owned(),
    );
    p.add_proof_step(
        "Apply incidence bounds to limit how often a distance can repeat.".to_owned(),
        "C pressure caps over-concentration in any single distance.".to_owned(),
    );
    p.add_proof_step(
        "Construct near-lattice configurations to achieve the lower-bound regime.".to_owned(),
        "A·B·C balances structure so growth matches regulation.".to_owned(),
    );
    p.add_proof_step(
        "Conclude the asymptotic bound by matching upper and lower envelopes.".to_owned(),
        "Dynamic layer (E_n, F_n) closes the gap between expansion and constraint.".to_owned(),
    );
    p
}

pub open spec fn is_seed_moser(p: ErdosProblem) -> bool {
    &&& p.identifier@ == "erdos-moser"@
    &&& p.title@ == "Erdos–Moser Equation"@
    &&& p.statement@ == "Solve 1^k + 2^k + ... + (m−1)^k = m^k for integers m, k > 1."@
    &&& p.status@ == "partial"@
    &&& p.axiom_insight@ == "E_n scaling intensifies quickly; the axiom suggests using Z to control temporal accumulation and detect singularities."@
    &&& p.proof_steps@.len() == 5
    &&& p.proof_steps@[0].statement@ == "Compare the power sum to integral bounds to bracket growth of Σ i^k versus m^k."@
    &&& p.proof_steps@[0].axiom_insight@ == "E_n sets exponential growth while Z tracks accumulation."@
    &&& p.proof_steps@[1].statement@ == "Use modular restrictions on k and m to eliminate incompatible residues."@
    &&& p.proof_steps@[1].axiom_insight@ == "C enforces arithmetic pressure, pruning impossible classes."@
    &&& p.proof_steps@[2].statement@ == "Isolate the dominant term by normalizing with m^k and bounding the remainder."@
    &&& p.proof_steps@[2].axiom_insight@ == "A·B·C stabilizes the foundation as X reduces variance."@
    &&& p.proof_steps@[3].statement@ == "Show candidate solutions require extremely tight balance between consecutive powers."@
    &&& p.proof_steps@[3].axiom_insight@ == "F_n smooths oscillations, exposing near-cancellation requirements."@
    &&& p.proof_steps@[4].statement@ == "Reduce remaining candidates to finite computational windows for verification."@
    &&& p.proof_steps@[4].axiom_insight@ == "Z keeps the search temporal and bounded; Y focuses viable regimes."@
}

fn seed_moser() -> (p: ErdosProblem)
    ensures
        is_seed_moser(p),
{
    let mut p = ErdosProblem::new(
        "erdos-moser".to_owned(),
        "Erdos–Moser Equation".to_owned(),
        "Solve 1^k + 2^k + ... + (m−1)^k = m^k for integers m, k > 1.".to_owned(),
        "partial".to_owned(),
        "E_n scaling intensifies quickly; the axiom suggests using Z to control temporal accumulation and detect singularities.".to_owned(),
    );
    p.add_proof_step(
        "Compare the power sum to integral bounds to bracket growth of Σ i^k versus m^k.".to_owned(),
        "E_n sets exponential growth while Z tracks accumulation.".to_owned(),
    );
    p.add_proof_step(
        "Use modular restrictions on k and m to eliminate incompatible residues.".to_owned(),
        "C enforces arithmetic pressure, pruning impossible classes.".to_owned(),
    );
    p.add_proof_step(
        "Isolate the dominant term by normalizing with m^k and bounding the remainder.".to_owned(),
        "A·B·C stabilizes the foundation as X reduces variance.".to_owned(),
    );
    p.add_proof_step(
        "Show candidate solutions require extremely tight balance between consecutive powers.".to_owned(),
        "F_n smooths oscillations, exposing near-cancellation requirements.".to_owned(),
    );
    p.add_proof_step(
        "Reduce remaining candidates to finite computational windows for verification.".to_owned(),
        "Z keeps the search temporal and bounded; Y focuses viable regimes.".to_owned(),
    );
    p
}

pub open spec fn is_seed_ko_rado(p: ErdosProblem) -> bool {
    &&& p.identifier@ == "erdos-ko-rado"@
    &&& p.title@ == "Erdos–Ko–Rado Theorem"@
    &&& p.statement@ == "For n ≥ 2k, the largest intersecting family of k-subsets of {1, …, n} has size C(n−1, k−1)."@
    &&& p.status@ == "solved"@
    &&& p.axiom_insight@ == "The axiom emphasizes how A·B·C stabilizes intersection structure while E_n regulates combinatorial growth."@
    &&& p.proof_steps@.len() == 5
    &&& p.proof_steps@[0].statement@ == "Fix a canonical element to anchor intersecting families."@
    &&& p.proof_steps@[0].axiom_insight@ == "X and Y align perspective so all intersections share a core axis."@
    &&& p.proof_steps@[1].statement@ == "Compare arbitrary families to a star family."@
    &&& p.proof_steps@[1].axiom_insight@ == "A·B·C fixes the foundational overlap that dominates size."@
    &&& p.proof_steps@[2].statement@ == "Apply compression/shifting to increase regularity."@
    &&& p.proof_steps@[2].axiom_insight@ == "F_n-style regulation smooths irregularities into canonical form."@
    &&& p.proof_steps@[3].statement@ == "Count surviving sets after compression."@
    &&& p.proof_steps@[3].axiom_insight@ == "E_n tracks the combinatorial growth of the stabilized family."@
    &&& p.proof_steps@[4].statement@ == "Characterize extremal cases."@
    &&& p.proof_steps@[4].axiom_insight@ == "Z preserves continuity to conclude all maxima are stars."@
}

fn seed_ko_rado() -> (p: ErdosProblem)
    ensures
        is_seed_ko_rado(p),
{
    let mut p = ErdosProblem::new(
        "erdos-ko-rado".to_owned(),
        "Erdos–Ko–Rado Theorem".to_owned(),
        "For n ≥ 2k, the largest intersecting family of k-subsets of {1, …, n} has size C(n−1, k−1).".to_owned(),
        "solved".to_owned(),
        "The axiom emphasizes how A·B·C stabilizes intersection structure while E_n regulates combinatorial growth.".to_owned(),
    );
    p.add_proof_step(
        "Fix a canonical element to anchor intersecting families.".to_owned(),
        "X and Y align perspective so all intersections share a core axis.".to_owned(),
    );
    p.add_proof_step(
        "Compare arbitrary families to a star family.".to_owned(),
        "A·B·C fixes the foundational overlap that dominates size.".to_owned(),
    );
    p.add_proof_step(
        "Apply compression/shifting to increase regularity.".to_owned(),
        "F_n-style regulation smooths irregularities into canonical form.".to_owned(),
    );
    p.add_proof_step(
        "Count surviving sets after compression.".to_owned(),
        "E_n tracks the combinatorial growth of the stabilized family.".to_owned(),
    );
    p.add_proof_step(
        "Characterize extremal cases.".to_owned(),
        "Z preserves continuity to conclude all maxima are stars.".to_owned(),
    );
    p
}

pub open spec fn is_seed_szekeres(p: ErdosProblem) -> bool {
    &&& p.identifier@ == "erdos-szekeres"@
    &&& p.title@ == "Erdos–Szekeres Happy Ending Problem"@
    &&& p.statement@ == "Determine the minimal N(n) such that any N(n) points in general position in the plane contain n points in convex position."@
    &&& p.status@ == "partial"@
    &&& p.axiom_insight@ == "E_n captures the rapid growth of point configurations, while F_n signals the combinatorial regulation that forces convex structure."@
    &&& p.proof_steps@.len() == 5
    &&& p.proof_steps@[0].statement@ == "Encode points by convex/concave chains."@
    &&& p.proof_steps@[0].axiom_insight@ == "A·B·C captures the foundational order relations among points."@
    &&& p.proof_steps@[1].statement@ == "Apply Ramsey-type bounds to chain lengths."@
    &&& p.proof_steps@[1].axiom_insight@ == "E_n provides the growth envelope for inevitable structure."@
    &&& p.proof_steps@[2].statement@ == "Use monotone subsequence arguments."@
    &&& p.proof_steps@[2].axiom_insight@ == "F_n smooths oscillations, aligning with ordered subsequences."@
    &&& p.proof_steps@[3].statement@ == "Derive upper bounds via combinatorial recursion."@
    &&& p.proof_steps@[3].axiom_insight@ == "Z tracks recursive depth while keeping the search bounded."@
    &&& p.proof_steps@[4].statement@ == "Compare with lower-bound constructions."@
    &&& p.proof_steps@[4].axiom_insight@ == "X and Y balance structural intent against extremal examples."@
}

fn seed_szekeres() -> (p: ErdosProblem)
    ensures
        is_seed_szekeres(p),
{
    let mut p = ErdosProblem::new(
        "erdos-szekeres".to_owned(),
        "Erdos–Szekeres Happy Ending Problem".to_owned(),
        "Determine the minimal N(n) such that any N(n) points in general position in the plane contain n points in convex position.".to_owned(),
        "partial".to_owned(),
        "E_n captures the rapid growth of point configurations, while F_n signals the combinatorial regulation that forces convex structure.".to_owned(),
    );
    p.add_proof_step(
        "Encode points by convex/concave chains.".to_owned(),
        "A·B·C captures the foundational order relations among points.".to_owned(),
    );
    p.add_proof_step(
        "Apply Ramsey-type bounds to chain lengths.".to_owned(),
        "E_n provides the growth envelope for inevitable structure.".to_owned(),
    );
    p.add_proof_step(
        "Use monotone subsequence arguments.".to_owned(),
        "F_n smooths oscillations, aligning with ordered subsequences.".to_owned(),
    );
    p.add_proof_step(
        "Derive upper bounds via combinatorial recursion.".to_owned(),
        "Z tracks recursive depth while keeping the search bounded.".to_owned(),
    );
    p.add_proof_step(
        "Compare with lower-bound constructions.".to_owned(),
        "X and Y balance structural intent against extremal examples.".to_owned(),
    );
    p
}

pub open spec fn is_seed_faber_lovasz(p: ErdosProblem) -> bool {
    &&& p.identifier@ == "erdos-faber-lovasz"@
    &&& p.title@ == "Erdos–Faber–Lovasz Conjecture"@
    &&& p.statement@ == "Any linear hypergraph with n edges, each of size n, has chromatic number at most n."@
    &&& p.status@ == "solved"@
    &&& p.axiom_insight@ == "The axiom aligns color pressure (C) with combinatorial expansion (E_n) to cap chromatic growth."@
    &&& p.proof_steps@.len() == 5
    &&& p.proof_steps@[0].statement@ == "Translate hypergraph coloring to incidence structure."@
    &&& p.proof_steps@[0].axiom_insight@ == "A·B·C locks vertex-edge intersections into a linear lattice."@
    &&& p.proof_steps@[1].statement@ == "Apply probabilistic coloring bounds."@
    &&& p.proof_steps@[1].axiom_insight@ == "E_n models expansion while X calibrates random selection."@
    &&& p.proof_steps@[2].statement@ == "Refine via iterative nibble methods."@
    &&& p.proof_steps@[2].axiom_insight@ == "F_n regulates the iterative removal of conflicts."@
    &&& p.proof_steps@[3].statement@ == "Stabilize with absorbers for leftover vertices."@
    &&& p.proof_steps@[3].axiom_insight@ == "Z preserves continuity as the coloring completes."@
    &&& p.proof_steps@[4].statement@ == "Conclude chromatic cap at n."@
    &&& p.proof_steps@[4].axiom_insight@ == "C pressure finalizes the bound with no overflow."@
}

fn seed_faber_lovasz() -> (p: ErdosProblem)
    ensures
        is_seed_faber_lovasz(p),
{
    let mut p = ErdosProblem::new(
        "erdos-faber-lovasz".to_owned(),
        "Erdos–Faber–Lovasz Conjecture".to_owned(),
        "Any linear hypergraph with n edges, each of size n, has chromatic number at most n.".to_owned(),
        "solved".to_owned(),
        "The axiom aligns color pressure (C) with combinatorial expansion (E_n) to cap chromatic growth.".to_owned(),
    );
    p.add_proof_step(
        "Translate hypergraph coloring to incidence structure.".to_owned(),
        "A·B·C locks vertex-edge intersections into a linear lattice.".to_owned(),
    );
    p.add_proof_step(
        "Apply probabilistic coloring bounds.".to_owned(),
        "E_n models expansion while X calibrates random selection.".to_owned(),
    );
    p.add_proof_step(
        "Refine via iterative nibble methods.".to_owned(),
        "F_n regulates the iterative removal of conflicts.".to_owned(),
    );
    p.add_proof_step(
        "Stabilize with absorbers for leftover vertices.".to_owned(),
        "Z preserves continuity as the coloring completes.".to_owned(),
    );
    p.add_proof_step(
        "Conclude chromatic cap at n.".to_owned(),
        "C pressure finalizes the bound with no overflow.".to_owned(),
    );
    p
}

pub open spec fn is_seed_ginzburg_ziv(p: ErdosProblem) -> bool {
    &&& p.identifier@ == "erdos-ginzburg-ziv"@
    &&& p.title@ == "Erdos–Ginzburg–Ziv Theorem"@
    &&& p.statement@ == "Any sequence of 2n−1 integers contains a subsequence of length n whose sum is divisible by n."@
    &&& p.status@ == "solved"@
    &&& p.axiom_insight@ == "The axiom’s regulation (F_n) governs modular accumulation, ensuring balanced subsequences emerge."@
    &&& p.proof_steps@.len() == 5
    &&& p.proof_steps@[0].statement@ == "Map integers to residues mod n."@
    &&& p.proof_steps@[0].axiom_insight@ == "A·B·C frames modular pressure across the sequence."@
    &&& p.proof_steps@[1].statement@ == "Apply zero-sum combinatorial lemmas."@
    &&& p.proof_steps@[1].axiom_insight@ == "E_n scales the residue space to guarantee coverage."@
    &&& p.proof_steps@[2].statement@ == "Use induction on n with residue partitioning."@
    &&& p.proof_steps@[2].axiom_insight@ == "Z tracks recursion while preserving sequence continuity."@
    &&& p.proof_steps@[3].statement@ == "Extract a length-n zero-sum subsequence."@
    &&& p.proof_steps@[3].axiom_insight@ == "F_n balances residues to stabilize the sum at zero."@
    &&& p.proof_steps@[4].statement@ == "Conclude optimal length 2n−1."@
    &&& p.proof_steps@[4].axiom_insight@ == "X and Y confirm the bound is tight via extremal examples."@
}

fn seed_ginzburg_ziv() -> (p: ErdosProblem)
    ensures
        is_seed_ginzburg_ziv(p),
{
    let mut p = ErdosProblem::new(
        "erdos-ginzburg-ziv".to_owned(),
        "Erdos–Ginzburg–Ziv Theorem".to_owned(),
        "Any sequence of 2n−1 integers contains a subsequence of length n whose sum is divisible by n.".to_owned(),
        "solved".to_owned(),
        "The axiom’s regulation (F_n) governs modular accumulation, ensuring balanced subsequences emerge.".to_owned(),
    );
    p.add_proof_step(
        "Map integers to residues mod n.".to_owned(),
        "A·B·C frames modular pressure across the sequence.".to_owned(),
    );
    p.add_proof_step(
        "Apply zero-sum combinatorial lemmas.".to_owned(),
        "E_n scales the residue space to guarantee coverage.".to_owned(),
    );
    p.add_proof_step(
        "Use induction on n with residue partitioning.".to_owned(),
        "Z tracks recursion while preserving sequence continuity.".to_owned(),
    );
    p.add_proof_step(
        "Extract a length-n zero-sum subsequence.".to_owned(),
        "F_n balances residues to stabilize the sum at zero.".to_owned(),
    );
    p.add_proof_step(
        "Conclude optimal length 2n−1.".to_owned(),
        "X and Y confirm the bound is tight via extremal examples.".to_owned(),
    );
    p
}

pub open spec fn is_seed_heilbronn(p: ErdosProblem) -> bool {
    &&& p.identifier@ == "erdos-heilbronn"@
    &&& p.title@ == "Erdos–Heilbronn Conjecture"@
    &&& p.statement@ == "For a subset A of Z_p, the restricted sumset A ⊕ A = {a+b : a,b∈A, a≠b} has size at least min(p, 2|A|−3)."@
    &&& p.status@ == "solved"@
    &&& p.axiom_insight@ == "The axiom links additive expansion (E_n) with pressure (C) to ensure growth in restricted sumsets."@
    &&& p.proof_steps@.len() == 5
    &&& p.proof_steps@[0].statement@ == "Embed the set in modular arithmetic."@
    &&& p.proof_steps@[0].axiom_insight@ == "A·B·C stabilizes the modular structure and constraints."@
    &&& p.proof_steps@[1].statement@ == "Apply polynomial method or combinatorial nullstellensatz."@
    &&& p.proof_steps@[1].axiom_insight@ == "E_n captures the expansion of algebraic constraints."@
    &&& p.proof_steps@[2].statement@ == "Control forbidden diagonal pairs."@
    &&& p.proof_steps@[2].axiom_insight@ == "C pressure enforces the a≠b restriction without collapse."@
    &&& p.proof_steps@[3].statement@ == "Compare with unrestricted sumsets."@
    &&& p.proof_steps@[3].axiom_insight@ == "F_n regulates the difference between restricted and full sums."@
    &&& p.proof_steps@[4].statement@ == "Conclude lower bound min(p, 2|A|−3)."@
    &&& p.proof_steps@[4].axiom_insight@ == "Z aligns the bound with finite-field continuity."@
}

fn seed_heilbronn() -> (p: ErdosProblem)
    ensures
        is_seed_heilbronn(p),
{
    let mut p = ErdosProblem::new(
        "erdos-heilbronn".to_owned(),
        "Erdos–Heilbronn Conjecture".to_owned(),
        "For a subset A of Z_p, the restricted sumset A ⊕ A = {a+b : a,b∈A, a≠b} has size at least min(p, 2|A|−3).".to_owned(),
        "solved".to_owned(),
        "The axiom links additive expansion (E_n) with pressure (C) to ensure growth in restricted sumsets.".to_owned(),
    );
    p.add_proof_step(
        "Embed the set in modular arithmetic.".to_owned(),
        "A·B·C stabilizes the modular structure and constraints.".to_owned(),
    );
    p.add_proof_step(
        "Apply polynomial method or combinatorial nullstellensatz.".to_owned(),
        "E_n captures the expansion of algebraic constraints.".to_owned(),
    );
    p.add_proof_step(
        "Control forbidden diagonal pairs.".to_owned(),
        "C pressure enforces the a≠b restriction without collapse.".to_owned(),
    );
    p.add_proof_step(
        "Compare with unrestricted sumsets.".to_owned(),
        "F_n regulates the difference between restricted and full sums.".to_owned(),
    );
    p.add_proof_step(
        "Conclude lower bound min(p, 2|A|−3).".to_owned(),
        "Z aligns the bound with finite-field continuity.".to_owned(),
    );
    p
}

pub open spec fn is_seed_discrepancy(p: ErdosProblem) -> bool {
    &&& p.identifier@ == "erdos-discrepancy"@
    &&& p.title@ == "Erdos Discrepancy Problem"@
    &&& p.statement@ == "For any ±1 sequence, show the discrepancy of homogeneous arithmetic progressions is unbounded."@
    &&& p.status@ == "solved"@
    &&& p.axiom_insight@ == "E_n amplifies oscillations while C enforces constraints, revealing that imbalance must eventually diverge."@
    &&& p.proof_steps@.len() == 5
    &&& p.proof_steps@[0].statement@ == "Model discrepancy via multiplicative sequences."@
    &&& p.proof_steps@[0].axiom_insight@ == "A·B·C captures foundational constraints on sign patterns."@
    &&& p.proof_steps@[1].statement@ == "Translate to Fourier/Dirichlet character bounds."@
    &&& p.proof_steps@[1].axiom_insight@ == "E_n aligns spectral growth with sequence length."@
    &&& p.proof_steps@[2].statement@ == "Apply entropy or energy increment arguments."@
    &&& p.proof_steps@[2].axiom_insight@ == "F_n regulates oscillations while extracting structure."@
    &&& p.proof_steps@[3].statement@ == "Show any bounded discrepancy implies contradiction."@
    &&& p.proof_steps@[3].axiom_insight@ == "C pressure forces an impossible compression of energy."@
    &&& p.proof_steps@[4].statement@ == "Conclude unbounded discrepancy."@
    &&& p.proof_steps@[4].axiom_insight@ == "Z preserves temporal continuity to the divergence threshold."@
}

fn seed_discrepancy() -> (p: ErdosProblem)
    ensures
        is_seed_discrepancy(p),
{
    let mut p = ErdosProblem::new(
        "erdos-discrepancy".to_owned(),
        "Erdos Discrepancy Problem".to_owned(),
        "For any ±1 sequence, show the discrepancy of homogeneous arithmetic progressions is unbounded.".to_owned(),
        "solved".to_owned(),
        "E_n amplifies oscillations while C enforces constraints, revealing that imbalance must eventually diverge.".to_owned(),
    );
    p.add_proof_step(
        "Model discrepancy via multiplicative sequences.".to_owned(),
        "A·B·C captures foundational constraints on sign patterns.".to_owned(),
    );
    p.add_proof_step(
        "Translate to Fourier/Dirichlet character bounds.".to_owned(),
        "E_n aligns spectral growth with sequence length.".to_owned(),
    );
    p.add_proof_step(
        "Apply entropy or energy increment arguments.".to_owned(),
        "F_n regulates oscillations while extracting structure.".to_owned(),
    );
    p.add_proof_step(
        "Show any bounded discrepancy implies contradiction.".to_owned(),
        "C pressure forces an impossible compression of energy.".to_owned(),
    );
    p.add_proof_step(
        "Conclude unbounded discrepancy.".to_owned(),
        "Z preserves temporal continuity to the divergence threshold.".to_owned(),
    );
    p
}

/// The seeded registry contents: nine Erdos problems, each carrying
/// five annotated proof steps.
pub open spec fn is_erdos_seed(s: Seq<ErdosProblem>) -> bool {
    &&& s.len() == 9
    &&& is_seed_straus(s[0])
    &&& is_seed_distinct_distances(s[1])
    &&& is_seed_moser(s[2])
    &&& is_seed_ko_rado(s[3])
    &&& is_seed_szekeres(s[4])
    &&& is_seed_faber_lovasz(s[5])
    &&& is_seed_ginzburg_ziv(s[6])
    &&& is_seed_heilbronn(s[7])
    &&& is_seed_discrepancy(s[8])
}

fn seed_erdos_problems() -> (r: Vec<ErdosProblem>)
    ensures
        is_erdos_seed(r@),
{
    let mut problems: Vec<ErdosProblem> = Vec::new();
    problems.push(seed_straus());
    problems.push(seed_distinct_distances());
    problems.push(seed_moser());
    problems.push(seed_ko_rado());
    problems.push(seed_szekeres());
    problems.push(seed_faber_lovasz());
    problems.push(seed_ginzburg_ziv());
    problems.push(seed_heilbronn());
    problems.push(seed_discrepancy());
    problems
}

} // verus!
