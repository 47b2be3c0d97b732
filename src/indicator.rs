use vstd::prelude::*;

verus! {

/// How many outputs the indicator drives.
pub const INDICATOR_COUNT: usize = 3;

/// Time between two transitions of the indicator, in milliseconds.
pub const INDICATOR_PERIOD_MS: u64 = 500;

/// The index just before `i` in circular order.
pub open spec fn prev_index(i: int) -> int {
    (i + 2) % 3
}

/// The index just after `i` in circular order.
pub open spec fn next_index(i: int) -> int {
    (i + 1) % 3
}

/// Exactly one of the three levels is active: the one at `i`.
pub open spec fn only_active(levels: Seq<bool>, i: int) -> bool {
    &&& levels.len() == 3
    &&& 0 <= i < 3
    &&& forall|j: int| 0 <= j < 3 ==> levels[j] == (j == i)
}

/// None of the three levels is active.
pub open spec fn none_active(levels: Seq<bool>) -> bool {
    &&& levels.len() == 3
    &&& forall|j: int| 0 <= j < 3 ==> !levels[j]
}

/// The index after `n` periods, starting from `start`.
pub open spec fn index_after(start: int, n: nat) -> int
    decreases n,
{
    if n == 0 {
        start
    } else {
        next_index(index_after(start, (n - 1) as nat))
    }
}

/// One transition of the indicator: first the output `deactivate` goes to its
/// inactive level, then the output `activate` goes to its active level.
#[derive(Clone, Copy, Debug, PartialEq, Eq, Structural)]
pub struct Transition {
    pub deactivate: usize,
    pub activate: usize,
}

/// Round-robin sequencer over three outputs, with the levels it has driven.
/// The ghost count is the number of transitions made so far.
pub struct IndicatorSequencer {
    cur: usize,
    levels: [bool; 3],
    steps: Ghost<nat>,
}

impl IndicatorSequencer {
    /// The index that the next transition activates.
    pub closed spec fn current(&self) -> int {
        self.cur as int
    }

    /// The levels driven so far, by output index.
    pub closed spec fn outputs(&self) -> Seq<bool> {
        self.levels@
    }

    /// The number of transitions made so far.
    pub closed spec fn steps_taken(&self) -> nat {
        self.steps@
    }

    /// The index has moved once per transition from 0; nothing has been
    /// driven before the first transition, and after it exactly the output
    /// before the current index is active.
    pub closed spec fn wf(&self) -> bool {
        &&& self.cur < 3
        &&& self.cur == index_after(0, self.steps@)
        &&& self.steps@ == 0 ==> none_active(self.levels@)
        &&& self.steps@ > 0 ==> only_active(self.levels@, prev_index(self.cur as int))
    }

    /// A sequencer at index 0 with every output inactive.
    pub fn new() -> (r: IndicatorSequencer)
        ensures
            r.wf(),
            r.current() == 0,
            r.steps_taken() == 0,
            none_active(r.outputs()),
    {
        let r = IndicatorSequencer { cur: 0, levels: [false, false, false], steps: Ghost(0) };
        assert(r.levels@ =~= seq![false, false, false]);
        r
    }

    /// The index that the next transition activates.
    pub fn current_index(&self) -> (r: usize)
        ensures
            r == self.current(),
    {
        self.cur
    }

    /// The levels driven so far, by output index.
    pub fn levels(&self) -> (r: [bool; 3])
        ensures
            r@ == self.outputs(),
    {
        self.levels
    }

    /// Deactivates the previous output, activates the current one and
    /// advances the index; returns the transition for the outputs to follow.
    pub fn step(&mut self) -> (t: Transition)
        requires
            old(self).wf(),
        ensures
            final(self).wf(),
            t.deactivate == prev_index(old(self).current()),
            t.activate == old(self).current(),
            final(self).current() == next_index(old(self).current()),
            final(self).steps_taken() == old(self).steps_taken() + 1,
            old(self).outputs().len() == 3,
            none_active(old(self).outputs().update(t.deactivate as int, false)),
            final(self).outputs() == old(self).outputs().update(t.deactivate as int, false).update(
                t.activate as int,
                true,
            ),
            only_active(final(self).outputs(), old(self).current()),
    {
        let prev: usize = (self.cur + 2) % 3;
        let t = Transition { deactivate: prev, activate: self.cur };
        self.levels[prev] = false;
        assert(none_active(self.levels@));
        self.levels[self.cur] = true;
        self.cur = (self.cur + 1) % 3;
        self.steps = Ghost(self.steps@ + 1);
        assert(prev_index(self.cur as int) == t.activate);
        t
    }
}

/// Sampled at every period boundary, the index moves one step round the
/// circle: after `n` periods it is `n` places on from where it started, and
/// three consecutive samples are the three distinct outputs.
pub proof fn lemma_index_cycles(start: int, n: nat)
    requires
        0 <= start < 3,
    ensures
        index_after(start, n) == (start + n) % 3,
        index_after(start, n + 1) == next_index(index_after(start, n)),
        index_after(start, n) != index_after(start, n + 1),
        index_after(start, n + 1) != index_after(start, n + 2),
        index_after(start, n) != index_after(start, n + 2),
        index_after(start, n + 3) == index_after(start, n),
    decreases n,
{
    if n > 0 {
        lemma_index_cycles(start, (n - 1) as nat);
    }
    assert(index_after(start, n + 1) == next_index(index_after(start, n)));
    assert(index_after(start, n + 2) == next_index(index_after(start, n + 1)));
    assert(index_after(start, n + 3) == next_index(index_after(start, n + 2)));
}

/// Between transitions exactly one output is active, and within a transition
/// the previous output is off before the new one comes on: starting from any
/// well-formed sequencer, the levels right after the deactivation have no
/// active output, and those after the activation have exactly one.
pub proof fn lemma_one_active(s: IndicatorSequencer)
    requires
        s.wf(),
    ensures
        none_active(s.outputs().update(prev_index(s.current()), false)),
        only_active(
            s.outputs().update(prev_index(s.current()), false).update(s.current(), true),
            s.current(),
        ),
{
    let mid = s.outputs().update(prev_index(s.current()), false);
    assert(none_active(mid));
    let fin = mid.update(s.current(), true);
    assert(only_active(fin, s.current()));
}

/// A fresh sequencer's index after `n` transitions is `n` mod 3, and after
/// the first transition the only active output is the one the last
/// transition activated, `(n - 1)` mod 3.
pub proof fn lemma_sequencer_cycles(s: IndicatorSequencer)
    requires
        s.wf(),
    ensures
        s.current() == s.steps_taken() % 3,
        s.steps_taken() > 0 ==> only_active(s.outputs(), (s.steps_taken() - 1) % 3),
{
    lemma_index_cycles(0, s.steps_taken());
    if s.steps_taken() > 0 {
        let n = (s.steps_taken() - 1) as nat;
        lemma_index_cycles(0, n);
        assert(prev_index(s.current()) == (s.steps_taken() - 1) % 3);
    }
}

} // verus!
