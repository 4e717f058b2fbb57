use vstd::prelude::*;

verus! {

/// The contribution of one cell to the aggregate: a cell that was
/// never touched counts as zero.
pub open spec fn slot_value(s: Option<u64>) -> int {
    match s {
        Some(v) => v as int,
        None => 0,
    }
}

/// The aggregate over a sequence of cells.
pub open spec fn sum_of(s: Seq<Option<u64>>) -> int
    decreases s.len(),
{
    if s.len() == 0 {
        0
    } else {
        sum_of(s.drop_last()) + slot_value(s.last())
    }
}

/// What one worker's step does to the cells: its own cell is seeded
/// if still untouched and raised by one; every other cell is as it
/// was.
pub open spec fn step_of(s: Seq<Option<u64>>, i: int) -> Seq<Option<u64>> {
    s.update(i, Some((slot_value(s[i]) + 1) as u64))
}

/// A registry of per-worker cells. Slot `i` belongs to worker `i`
/// alone; it stays `None` until that worker first touches it, and no
/// operation on one slot changes any other.
pub struct Registry {
    slots: Vec<Option<u64>>,
}

impl Registry {
    /// The registry as a sequence of cells, one per worker.
    pub closed spec fn view(&self) -> Seq<Option<u64>> {
        self.slots@
    }

    /// A registry for `workers` workers starts with every cell
    /// untouched.
    pub fn new(workers: usize) -> (reg: Self)
        ensures
            reg@.len() == workers,
            forall|j: int| 0 <= j < workers ==> reg@[j] is None,
    {
        let mut slots: Vec<Option<u64>> = Vec::new();
        let mut k: usize = 0;
        while k < workers
            invariant
                k <= workers,
                slots@.len() == k,
                forall|j: int| 0 <= j < k ==> slots@[j] is None,
            decreases workers - k,
        {
            slots.push(None);
            k += 1;
        }
        Registry { slots }
    }

    /// Worker `i`'s first access seeds its cell with zero; later
    /// accesses see the stored value. Every other cell is left alone.
    pub fn get_or_init(&mut self, i: usize) -> (v: u64)
        requires
            i < old(self)@.len(),
        ensures
            final(self)@.len() == old(self)@.len(),
            final(self)@[i as int] == Some(v),
            old(self)@[i as int] is None ==> v == 0,
            old(self)@[i as int] matches Some(x) ==> v == x,
            forall|j: int|
                0 <= j < old(self)@.len() && j != i ==> final(self)@[j] == old(self)@[j],
    {
        match self.slots[i] {
            Some(x) => x,
            None => {
                self.slots[i] = Some(0);
                0
            },
        }
    }

    /// Adds one to worker `i`'s already-seeded cell. Every other cell
    /// is left alone.
    pub fn increment(&mut self, i: usize)
        requires
            i < old(self)@.len(),
            old(self)@[i as int] matches Some(x) && x < u64::MAX,
        ensures
            final(self)@.len() == old(self)@.len(),
            final(self)@[i as int] == Some((slot_value(old(self)@[i as int]) + 1) as u64),
            forall|j: int|
                0 <= j < old(self)@.len() && j != i ==> final(self)@[j] == old(self)@[j],
    {
        let v = self.slots[i].unwrap();
        self.slots[i] = Some(v + 1);
    }

    /// One worker's whole task: seed its own cell if this is the first
    /// access, then add exactly one. No other worker's cell is
    /// observed or modified.
    pub fn worker_step(&mut self, i: usize)
        requires
            i < old(self)@.len(),
            slot_value(old(self)@[i as int]) < u64::MAX,
        ensures
            final(self)@ == step_of(old(self)@, i as int),
            final(self)@.len() == old(self)@.len(),
            final(self)@[i as int] == Some((slot_value(old(self)@[i as int]) + 1) as u64),
            forall|j: int|
                0 <= j < old(self)@.len() && j != i ==> final(self)@[j] == old(self)@[j],
    {
        self.get_or_init(i);
        self.increment(i);
        proof {
            assert(self@ =~= step_of(old(self)@, i as int));
        }
    }

    /// The aggregate over all cells, read once every worker is done.
    pub fn total(&self) -> (t: u64)
        requires
            sum_of(self@) <= u64::MAX,
        ensures
            t == sum_of(self@),
    {
        let mut acc: u64 = 0;
        let mut k: usize = 0;
        while k < self.slots.len()
            invariant
                k <= self@.len(),
                sum_of(self@) <= u64::MAX,
                acc == sum_of(self@.subrange(0, k as int)),
            decreases self@.len() - k,
        {
            proof {
                lemma_sum_of_step(self@, k as int);
                lemma_sum_of_prefix_le(self@, k + 1);
            }
            let v = match self.slots[k] {
                Some(x) => x,
                None => 0,
            };
            acc = acc + v;
            k += 1;
        }
        proof {
            assert(self@.subrange(0, self@.len() as int) =~= self@);
        }
        acc
    }
}

/// Extending a prefix of cells by one more cell adds exactly that
/// cell's contribution to the aggregate.
proof fn lemma_sum_of_step(s: Seq<Option<u64>>, k: int)
    requires
        0 <= k < s.len(),
    ensures
        sum_of(s.subrange(0, k + 1)) == sum_of(s.subrange(0, k)) + slot_value(s[k]),
{
    assert(s.subrange(0, k + 1).drop_last() =~= s.subrange(0, k));
    assert(s.subrange(0, k + 1).last() == s[k]);
}

/// Cells never hold negative values, so the aggregate of a prefix
/// never exceeds the aggregate of the whole registry.
proof fn lemma_sum_of_prefix_le(s: Seq<Option<u64>>, k: int)
    requires
        0 <= k <= s.len(),
    ensures
        sum_of(s.subrange(0, k)) <= sum_of(s),
    decreases s.len() - k,
{
    if k == s.len() {
        assert(s.subrange(0, k) =~= s);
    } else {
        lemma_sum_of_step(s, k);
        lemma_sum_of_prefix_le(s, k + 1);
    }
}

/// The cells are disjoint: the steps of two distinct workers land on
/// distinct cells, so neither observes or modifies the other's cell
/// and their order does not matter.
pub proof fn lemma_steps_commute(s: Seq<Option<u64>>, i: int, j: int)
    requires
        0 <= i < s.len(),
        0 <= j < s.len(),
        i != j,
    ensures
        step_of(step_of(s, i), j) == step_of(step_of(s, j), i),
{
    assert(step_of(step_of(s, i), j) =~= step_of(step_of(s, j), i));
}

/// When every worker has contributed exactly one, the aggregate
/// equals the worker count, whatever that count is.
pub proof fn lemma_sum_all_ones(s: Seq<Option<u64>>)
    requires
        forall|j: int| 0 <= j < s.len() ==> s[j] == Some(1u64),
    ensures
        sum_of(s) == s.len(),
    decreases s.len(),
{
    if s.len() > 0 {
        lemma_sum_all_ones(s.drop_last());
    }
}

/// Fan-out/fan-in in one place: one cell per worker, each worker runs
/// its own step exactly once, and the registry is handed back only
/// when all of them are done, every cell at exactly one.
pub fn run_workers(workers: usize) -> (reg: Registry)
    ensures
        reg@.len() == workers,
        forall|j: int| 0 <= j < workers ==> reg@[j] == Some(1u64),
        sum_of(reg@) == workers,
{
    let mut reg = Registry::new(workers);
    let mut i: usize = 0;
    while i < workers
        invariant
            reg@.len() == workers,
            i <= workers,
            forall|j: int| 0 <= j < i ==> reg@[j] == Some(1u64),
            forall|j: int| i <= j < workers ==> reg@[j] is None,
        decreases workers - i,
    {
        reg.worker_step(i);
        i += 1;
    }
    proof {
        lemma_sum_all_ones(reg@);
    }
    reg
}

} // verus!

