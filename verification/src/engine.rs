//! The transition engine: circular neighbor lookup and the evolution of a
//! universe of boolean cells under a decoded rule table.

use vstd::prelude::*;

use crate::rule::{spec_lookup, spec_table_of, ConfigError, RuleTable};

verus! {

/// The circular neighborhood of position `i`: (left, self, right). The
/// universe wraps at both ends; a universe of length 1 is its own left and
/// right neighbor.
pub open spec fn spec_neighbors(univ: Seq<bool>, i: int) -> (bool, bool, bool)
    recommends
        0 <= i < univ.len(),
{
    (
        if i == 0 {
            univ[univ.len() - 1]
        } else {
            univ[i - 1]
        },
        univ[i],
        if i == univ.len() - 1 {
            univ[0]
        } else {
            univ[i + 1]
        },
    )
}

/// The next state of the cell at position `i`: the table's answer for its
/// neighborhood.
pub open spec fn spec_next_cell(t: RuleTable, univ: Seq<bool>, i: int) -> bool {
    spec_lookup(t, spec_neighbors(univ, i))
}

/// One generation: every cell replaced by the table's answer for its
/// neighborhood in the current universe.
pub open spec fn spec_step(t: RuleTable, univ: Seq<bool>) -> Seq<bool> {
    Seq::new(univ.len(), |i: int| spec_next_cell(t, univ, i))
}

/// `n` generations, applied one after the other.
pub open spec fn spec_run(t: RuleTable, univ: Seq<bool>, n: nat) -> Seq<bool>
    decreases n,
{
    if n == 0 {
        univ
    } else {
        spec_step(t, spec_run(t, univ, (n - 1) as nat))
    }
}

/// The circular neighborhood of `pos`: (left, self, right).
pub fn get_neigh(pos: usize, s_univ: usize, univ: &Vec<bool>) -> (r: (bool, bool, bool))
    requires
        univ@.len() == s_univ,
        pos < s_univ,
    ensures
        r == spec_neighbors(univ@, pos as int),
{
    let left = if pos == 0 {
        univ[s_univ - 1]
    } else {
        univ[pos - 1]
    };
    let mid = univ[pos];
    let right = if pos == s_univ - 1 {
        univ[0]
    } else {
        univ[pos + 1]
    };
    (left, mid, right)
}

/// The next state of the cell at `pos` under `rule`.
pub fn next_cell(pos: usize, s_univ: usize, univ: &Vec<bool>, rule: &RuleTable) -> (r: bool)
    requires
        univ@.len() == s_univ,
        pos < s_univ,
    ensures
        r == spec_next_cell(*rule, univ@, pos as int),
{
    rule.lookup(get_neigh(pos, s_univ, univ))
}

/// One sequential generation under the fixed rule 30 table.
pub fn transition(s_univ: usize, univ: &Vec<bool>) -> (r: Vec<bool>)
    requires
        univ@.len() == s_univ,
    ensures
        r@ == spec_step(spec_table_of(30), univ@),
{
    let mut n_univ: Vec<bool> = Vec::new();
    let mut i: usize = 0;
    while i < s_univ
        invariant
            univ@.len() == s_univ,
            i <= s_univ,
            n_univ@.len() == i,
            forall|j: int|
                0 <= j < i ==> n_univ@[j] == spec_next_cell(spec_table_of(30), univ@, j),
        decreases s_univ - i,
    {
        n_univ.push(crate::rule::rule30(get_neigh(i, s_univ, univ)));
        i = i + 1;
    }
    proof {
        assert(n_univ@ =~= spec_step(spec_table_of(30), univ@));
    }
    n_univ
}

/// One sequential generation: positions visited in order, each cell's next
/// state accumulated into a fresh universe of the same length.
pub fn sec_transition(s_univ: usize, univ: &Vec<bool>, rule: &RuleTable) -> (r: Vec<bool>)
    requires
        univ@.len() == s_univ,
    ensures
        r@ == spec_step(*rule, univ@),
{
    let mut n_univ: Vec<bool> = Vec::new();
    let mut i: usize = 0;
    while i < s_univ
        invariant
            univ@.len() == s_univ,
            i <= s_univ,
            n_univ@.len() == i,
            forall|j: int| 0 <= j < i ==> n_univ@[j] == spec_next_cell(*rule, univ@, j),
        decreases s_univ - i,
    {
        n_univ.push(next_cell(i, s_univ, univ, rule));
        i = i + 1;
    }
    proof {
        assert(n_univ@ =~= spec_step(*rule, univ@));
    }
    n_univ
}

/// One generation computed by rayon's data-parallel map: every position's
/// next state is computed independently, and the results are merged back in
/// position order.
pub fn conc_iter_trans(s_univ: usize, univ: Vec<bool>, rule: &RuleTable) -> (r: Vec<bool>)
    requires
        univ@.len() == s_univ,
    ensures
        r@ == spec_step(*rule, univ@),
{
    let r = crate::par::par_map_transition(s_univ, &univ, rule);
    proof {
        assert(r@ =~= spec_step(*rule, univ@));
    }
    r
}

/// One generation computed on a reusable worker pool: the whole batch of
/// positions runs inside the pool, and the caller blocks until the next
/// universe is complete.
pub fn tp_transition(
    pool: &rayon::ThreadPool,
    s_univ: usize,
    univ: &Vec<bool>,
    rule: &RuleTable,
) -> (r: Vec<bool>)
    requires
        univ@.len() == s_univ,
    ensures
        r@ == spec_step(*rule, univ@),
{
    crate::par::install_transition(pool, s_univ, univ, rule)
}

/// How the per-position computation is scheduled; the three strategies
/// produce identical universes and differ only in execution.
#[derive(Clone, Copy, Debug, PartialEq, Eq, Structural)]
pub enum Strategy {
    /// Positions visited in order on the calling thread.
    Sequential,
    /// Each generation's batch runs on a fixed pool of workers, created
    /// once and reused across generations.
    WorkerPool,
    /// Each generation is a data-parallel map over the positions.
    DataParallel,
}

/// How many workers the pool strategy uses.
pub const N_WORKERS: usize = 5;

/// Picks the execution strategy from the three mode flags. Exactly one flag
/// must be set; none, or more than one, is an invalid configuration.
pub fn select_strategy(seq: bool, tp: bool, con_iter: bool) -> (r: Result<Strategy, ConfigError>)
    ensures
        r is Ok <==> ((seq && !tp && !con_iter) || (!seq && tp && !con_iter) || (!seq && !tp
            && con_iter)),
        r matches Ok(s) ==> (s is Sequential <==> seq) && (s is WorkerPool <==> tp) && (s
            is DataParallel <==> con_iter),
        r matches Err(e) ==> e == ConfigError::InvalidStrategy,
{
    if seq && !tp && !con_iter {
        Ok(Strategy::Sequential)
    } else if !seq && tp && !con_iter {
        Ok(Strategy::WorkerPool)
    } else if !seq && !tp && con_iter {
        Ok(Strategy::DataParallel)
    } else {
        Err(ConfigError::InvalidStrategy)
    }
}

/// `n_transitions` sequential generations.
fn run_seq(s_univ: usize, univ: Vec<bool>, n_transitions: usize, rule: &RuleTable) -> (r: Vec<bool>)
    requires
        univ@.len() == s_univ,
    ensures
        r@ == spec_run(*rule, univ@, n_transitions as nat),
{
    let ghost u0 = univ@;
    let mut cur = univ;
    let mut i: usize = 0;
    while i < n_transitions
        invariant
            cur@.len() == s_univ,
            i <= n_transitions,
            cur@ == spec_run(*rule, u0, i as nat),
        decreases n_transitions - i,
    {
        cur = sec_transition(s_univ, &cur, rule);
        i = i + 1;
    }
    cur
}

/// `n_transitions` data-parallel generations.
fn run_con_iter(s_univ: usize, univ: Vec<bool>, n_transitions: usize, rule: &RuleTable) -> (r: Vec<bool>)
    requires
        univ@.len() == s_univ,
    ensures
        r@ == spec_run(*rule, univ@, n_transitions as nat),
{
    let ghost u0 = univ@;
    let mut cur = univ;
    let mut i: usize = 0;
    while i < n_transitions
        invariant
            cur@.len() == s_univ,
            i <= n_transitions,
            cur@ == spec_run(*rule, u0, i as nat),
        decreases n_transitions - i,
    {
        cur = conc_iter_trans(s_univ, cur, rule);
        i = i + 1;
    }
    cur
}

/// `n_transitions` worker-pool generations on one pool, created by the
/// caller and reused across every generation.
fn run_tp(
    pool: &rayon::ThreadPool,
    s_univ: usize,
    univ: Vec<bool>,
    n_transitions: usize,
    rule: &RuleTable,
) -> (r: Vec<bool>)
    requires
        univ@.len() == s_univ,
    ensures
        r@ == spec_run(*rule, univ@, n_transitions as nat),
{
    let ghost u0 = univ@;
    let mut cur = univ;
    let mut i: usize = 0;
    while i < n_transitions
        invariant
            cur@.len() == s_univ,
            i <= n_transitions,
            cur@ == spec_run(*rule, u0, i as nat),
        decreases n_transitions - i,
    {
        cur = tp_transition(pool, s_univ, &cur, rule);
        i = i + 1;
    }
    cur
}

/// Evolves the universe for `n_transitions` generations under the chosen
/// strategy. All strategies compute the same result; the worker-pool
/// strategy alone can fail, and only when its pool cannot be created.
pub fn run(
    s_univ: usize,
    univ: Vec<bool>,
    n_transitions: usize,
    rule: &RuleTable,
    strategy: Strategy,
) -> (r: Result<Vec<bool>, ConfigError>)
    requires
        univ@.len() == s_univ,
    ensures
        r matches Ok(v) ==> v@ == spec_run(*rule, univ@, n_transitions as nat),
        !(strategy is WorkerPool) ==> r is Ok,
        r matches Err(e) ==> strategy is WorkerPool && e == ConfigError::PoolUnavailable,
{
    match strategy {
        Strategy::Sequential => Ok(run_seq(s_univ, univ, n_transitions, rule)),
        Strategy::DataParallel => Ok(run_con_iter(s_univ, univ, n_transitions, rule)),
        Strategy::WorkerPool => {
            match crate::par::build_pool(N_WORKERS) {
                Some(pool) => Ok(run_tp(&pool, s_univ, univ, n_transitions, rule)),
                None => Err(ConfigError::PoolUnavailable),
            }
        },
    }
}

/// A universe together with its size and the snapshot of its next
/// generation.
pub struct Automata {
    pub size: usize,
    pub pre_univ: Vec<bool>,
    pub pos_univ: Vec<bool>,
}

impl Automata {
    /// Both snapshots have the declared size; the size never changes.
    pub open spec fn wf(self) -> bool {
        self.pre_univ@.len() == self.size && self.pos_univ@.len() == self.size
    }

    /// Starts from an initial universe, with the next-generation snapshot
    /// holding the same cells.
    pub fn new(size: usize, init: Vec<bool>) -> (r: Automata)
        requires
            init@.len() == size,
        ensures
            r.wf(),
            r.size == size,
            r.pre_univ@ == init@,
            r.pos_univ@ == init@,
    {
        let copy = copy_univ(&init);
        Automata { size, pre_univ: init, pos_univ: copy }
    }

    /// Computes one sequential generation from the current universe into
    /// the next-generation snapshot; the current universe is untouched.
    pub fn step_seq(&mut self, rule: &RuleTable)
        requires
            old(self).wf(),
        ensures
            final(self).wf(),
            final(self).size == old(self).size,
            final(self).pre_univ@ == old(self).pre_univ@,
            final(self).pos_univ@ == spec_step(*rule, old(self).pre_univ@),
    {
        self.pos_univ = sec_transition(self.size, &self.pre_univ, rule);
    }

    /// Makes the next-generation snapshot the current universe, ready for
    /// another step.
    pub fn commit(&mut self)
        requires
            old(self).wf(),
        ensures
            final(self).wf(),
            final(self).size == old(self).size,
            final(self).pre_univ@ == old(self).pos_univ@,
            final(self).pos_univ@ == old(self).pos_univ@,
    {
        self.pre_univ = copy_univ(&self.pos_univ);
    }
}

/// A cell-for-cell copy of a universe.
pub fn copy_univ(univ: &Vec<bool>) -> (r: Vec<bool>)
    ensures
        r@ == univ@,
{
    let mut r: Vec<bool> = Vec::new();
    let mut i: usize = 0;
    while i < univ.len()
        invariant
            i <= univ@.len(),
            r@.len() == i,
            forall|j: int| 0 <= j < i ==> r@[j] == univ@[j],
        decreases univ@.len() - i,
    {
        r.push(univ[i]);
        i = i + 1;
    }
    proof {
        assert(r@ =~= univ@);
    }
    r
}

/// The universe's length is constant across all generations: it is never
/// resized, however many transitions run.
pub proof fn lemma_run_len(t: RuleTable, univ: Seq<bool>, n: nat)
    ensures
        spec_run(t, univ, n).len() == univ.len(),
    decreases n,
{
    if n > 0 {
        lemma_run_len(t, univ, (n - 1) as nat);
    }
}

/// The strategies agree: any two universes computed from the same table and
/// input universe by one generation — as every strategy's contract states
/// of its result — are identical.
pub proof fn lemma_strategy_equivalence(
    t: RuleTable,
    univ: Seq<bool>,
    r1: Seq<bool>,
    r2: Seq<bool>,
)
    requires
        r1 == spec_step(t, univ),
        r2 == spec_step(t, univ),
    ensures
        r1 == r2,
{
}

/// Running n generations and then one more gives the same universe as
/// running n + 1 generations directly.
pub proof fn lemma_run_one_more(t: RuleTable, univ: Seq<bool>, n: nat)
    ensures
        spec_run(t, univ, n + 1) == spec_step(t, spec_run(t, univ, n)),
{
}

} // verus!
