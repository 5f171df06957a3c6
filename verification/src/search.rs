use vstd::prelude::*;

use crate::solution::{disambiguated, BVSolution};

verus! {

/// What the driver of a [`SolutionSearch`] must do next.
#[derive(PartialEq, Eq, Structural, Clone, Copy, Debug)]
pub enum SearchStep {
    /// Push one context level of the solver, so that the constraints the
    /// search adds can be removed again, and report it with
    /// [`SolutionSearch::on_pushed`].
    Push,
    /// Ask the solver whether the current constraints are satisfiable and
    /// report the answer with [`SolutionSearch::on_sat_result`].
    CheckSat,
    /// Read the model value of the searched term and report it with
    /// [`SolutionSearch::on_solution`].
    ReadSolution,
    /// Pop the context level pushed at the start, removing every constraint
    /// the search added, and report it with [`SolutionSearch::on_popped`].
    Pop,
    /// Stop; the collected solutions are final.
    Done,
}

/// The decisions of a search for up to `limit` distinct solutions of one
/// bitvector term. The search first pushes a context level; each found
/// solution is then excluded by a new constraint before the next
/// satisfiability check; when the solver answers unsatisfiable, when a
/// solution repeats, or after `limit` rounds, it pops that level again, so
/// the solver's constraints are as they were before the search.
pub struct SolutionSearch {
    limit: usize,
    step: SearchStep,
    found: Vec<BVSolution>,
    pushes: Ghost<nat>,
    pops: Ghost<nat>,
}

/// The bit strings of a sequence of solutions.
pub open spec fn bit_strings(sols: Seq<BVSolution>) -> Seq<Seq<char>> {
    sols.map_values(|s: BVSolution| s@)
}

/// No bit string occurs twice.
pub open spec fn all_distinct(strs: Seq<Seq<char>>) -> bool {
    forall|i: int, j: int| 0 <= i < j < strs.len() ==> strs[i] != strs[j]
}

impl SolutionSearch {
    /// The most solutions the search collects.
    pub closed spec fn limit(&self) -> nat {
        self.limit as nat
    }

    /// The next thing the driver must do.
    pub closed spec fn step(&self) -> SearchStep {
        self.step
    }

    /// The bit strings of the solutions collected so far, in order.
    pub closed spec fn found(&self) -> Seq<Seq<char>> {
        bit_strings(self.found@)
    }

    /// Work left: it falls with every reported event and is `0` once done.
    pub open spec fn work_left(&self) -> nat {
        match self.step() {
            SearchStep::Push => (2 * (self.limit() - self.found().len()) + 2) as nat,
            SearchStep::CheckSat => (2 * (self.limit() - self.found().len()) + 1) as nat,
            SearchStep::ReadSolution => (2 * (self.limit() - self.found().len())) as nat,
            SearchStep::Pop => 1,
            SearchStep::Done => 0,
        }
    }

    /// How many context levels the search has had the driver push.
    pub closed spec fn pushes(&self) -> nat {
        self.pushes@
    }

    /// How many context levels the search has had the driver pop.
    pub closed spec fn pops(&self) -> nat {
        self.pops@
    }

    /// The number of context levels the search has pushed and not yet popped.
    pub open spec fn levels_pushed(&self) -> int {
        self.pushes() - self.pops()
    }

    /// The search is in a round: it checks satisfiability or reads a solution.
    pub open spec fn in_round(&self) -> bool {
        self.step() == SearchStep::CheckSat || self.step() == SearchStep::ReadSolution
    }

    /// The search state is consistent: no solution is collected twice, at
    /// most `limit` are collected, and an unfinished search has room for one more.
    #[verifier::type_invariant]
    spec fn consistent(self) -> bool {
        &&& self.found().len() <= self.limit()
        &&& all_distinct(self.found())
        &&& self.in_round() ==> self.found().len() < self.limit()
        &&& (self.step() == SearchStep::Push ==> self.found().len() == 0)
        &&& (self.step() == SearchStep::Push ==> self.pushes() == 0 && self.pops() == 0)
        &&& (self.in_round() || self.step() == SearchStep::Pop ==> self.pushes() == 1 && self.pops() == 0)
        &&& (self.step() == SearchStep::Done ==> self.pushes() == 1 && self.pops() == 1)
    }

    /// Start a search for at most `limit` distinct solutions.
    pub fn new(limit: usize) -> (s: Self)
        ensures
            s.limit() == limit,
            s.found() == Seq::<Seq<char>>::empty(),
            s.step() == SearchStep::Push,
            s.pushes() == 0,
            s.pops() == 0,
    {
        let s = SolutionSearch {
            limit,
            step: SearchStep::Push,
            found: Vec::new(),
            pushes: Ghost(0),
            pops: Ghost(0),
        };
        assert(s.found() =~= Seq::<Seq<char>>::empty());
        s
    }

    /// What the driver must do next.
    pub fn next_step(&self) -> (r: SearchStep)
        ensures
            r == self.step(),
    {
        self.step
    }

    /// Report that the context level was pushed.
    pub fn on_pushed(&mut self)
        requires
            old(self).step() == SearchStep::Push,
        ensures
            final(self).limit() == old(self).limit(),
            final(self).found() == old(self).found(),
            final(self).step() == (if old(self).limit() > 0 {
                SearchStep::CheckSat
            } else {
                SearchStep::Pop
            }),
            final(self).pushes() == old(self).pushes() + 1,
            final(self).pops() == old(self).pops(),
            final(self).levels_pushed() == 1,
            final(self).work_left() < old(self).work_left(),
    {
        proof {
            use_type_invariant(&*self);
        }
        let step = if self.limit > 0 { SearchStep::CheckSat } else { SearchStep::Pop };
        let mut found: Vec<BVSolution> = Vec::new();
        std::mem::swap(&mut found, &mut self.found);
        *self = SolutionSearch {
            limit: self.limit,
            step,
            found,
            pushes: Ghost((self.pushes@ + 1) as nat),
            pops: Ghost(self.pops@),
        };
    }

    /// Report that the context level was popped.
    pub fn on_popped(&mut self)
        requires
            old(self).step() == SearchStep::Pop,
        ensures
            final(self).limit() == old(self).limit(),
            final(self).found() == old(self).found(),
            final(self).step() == SearchStep::Done,
            final(self).pushes() == old(self).pushes(),
            final(self).pops() == old(self).pops() + 1,
            final(self).levels_pushed() == 0,
            final(self).work_left() < old(self).work_left(),
    {
        proof {
            use_type_invariant(&*self);
        }
        let mut found: Vec<BVSolution> = Vec::new();
        std::mem::swap(&mut found, &mut self.found);
        *self = SolutionSearch {
            limit: self.limit,
            step: SearchStep::Done,
            found,
            pushes: Ghost(self.pushes@),
            pops: Ghost((self.pops@ + 1) as nat),
        };
    }

    /// Report the solver's answer to a satisfiability check.
    pub fn on_sat_result(&mut self, sat: bool)
        requires
            old(self).step() == SearchStep::CheckSat,
        ensures
            final(self).limit() == old(self).limit(),
            final(self).found() == old(self).found(),
            final(self).step() == (if sat { SearchStep::ReadSolution } else { SearchStep::Pop }),
            final(self).pushes() == old(self).pushes(),
            final(self).pops() == old(self).pops(),
            final(self).levels_pushed() == 1,
            final(self).work_left() < old(self).work_left(),
    {
        proof {
            use_type_invariant(&*self);
        }
        if sat {
            self.step = SearchStep::ReadSolution;
        } else {
            self.step = SearchStep::Pop;
        }
    }

    /// Whether a solution with the bit string of `sol` was already collected.
    fn already_found(&self, sol: &BVSolution) -> (r: bool)
        ensures
            r == self.found().contains(sol@),
    {
        let n = self.found.len();
        for i in 0..n
            invariant
                n == self.found@.len(),
                forall|j: int| 0 <= j < i ==> self.found()[j] != sol@,
        {
            if self.found[i].same_bits(sol) {
                assert(self.found()[i as int] == sol@);
                return true;
            }
        }
        false
    }

    /// Report the model value read for the searched term. Returns the fully
    /// determined solution that the driver must exclude (the term must differ
    /// from it) before the next check.
    pub fn on_solution(&mut self, sol: BVSolution) -> (exclude: BVSolution)
        requires
            old(self).step() == SearchStep::ReadSolution,
        ensures
            final(self).limit() == old(self).limit(),
            exclude@ == disambiguated(sol@),
            old(self).found().contains(sol@) ==> {
                &&& final(self).found() == old(self).found()
                &&& final(self).step() == SearchStep::Pop
            },
            !old(self).found().contains(sol@) ==> {
                &&& final(self).found() == old(self).found().push(sol@)
                &&& final(self).step() == (if final(self).found().len() < final(self).limit() {
                    SearchStep::CheckSat
                } else {
                    SearchStep::Pop
                })
            },
            final(self).pushes() == old(self).pushes(),
            final(self).pops() == old(self).pops(),
            final(self).levels_pushed() == 1,
            final(self).work_left() < old(self).work_left(),
    {
        proof {
            use_type_invariant(&*self);
        }
        let exclude = sol.disambiguate();
        if self.already_found(&sol) {
            self.step = SearchStep::Pop;
        } else {
            let ghost before = self.found();
            self.step = SearchStep::Pop;
            let mut found: Vec<BVSolution> = Vec::new();
            std::mem::swap(&mut found, &mut self.found);
            assert(bit_strings(found@) == before);
            found.push(sol);
            assert(bit_strings(found@) =~= before.push(sol@));
            self.found = found;
            assert(self.found() =~= before.push(sol@));
            if self.found.len() < self.limit {
                self.step = SearchStep::CheckSat;
            } else {
                self.step = SearchStep::Pop;
            }
        }
        exclude
    }

    /// The collected solutions, in the order they were found, once the search
    /// is done. A whole search has had the driver push exactly one context
    /// level and pop exactly one, so the solver's constraints are as before.
    pub fn into_solutions(self) -> (r: Vec<BVSolution>)
        requires
            self.step() == SearchStep::Done,
        ensures
            bit_strings(r@) == self.found(),
            all_distinct(bit_strings(r@)),
            r@.len() <= self.limit(),
            self.pushes() == 1,
            self.pops() == 1,
    {
        proof {
            use_type_invariant(&self);
        }
        self.found
    }
}

} // verus!
