//! Abort signals and controllers. The signals of a realm live in one arena, and name their
//! source and dependent signals by position in it.
use vstd::prelude::*;
use crate::dom_misc::AbortAlgorithm;

verus! {

/// Why a signal aborted: a new "AbortError" exception, or a script value named by a handle.
#[derive(Clone, Copy, Debug, PartialEq, Eq, Structural)]
pub enum AbortReason {
    AbortError,
    Value(u64),
}

pub struct AbortSignal {
    /// The abort reason; none while the signal is not aborted.
    pub reason: Option<AbortReason>,
    pub abort_algorithms: Vec<AbortAlgorithm>,
    pub source_signals: Vec<usize>,
    pub dependent_signals: Vec<usize>,
    pub dependent: bool,
}

impl AbortSignal {
    pub fn new_inherited(dependent: bool) -> (r: AbortSignal)
        ensures
            r.reason is None,
            r.abort_algorithms@.len() == 0,
            r.source_signals@.len() == 0,
            r.dependent_signals@.len() == 0,
            r.dependent == dependent,
    {
        AbortSignal {
            reason: None,
            abort_algorithms: Vec::new(),
            source_signals: Vec::new(),
            dependent_signals: Vec::new(),
            dependent,
        }
    }

    pub fn aborted(&self) -> (r: bool)
        ensures
            r == self.reason is Some,
    {
        self.reason.is_some()
    }

    /// Throws the abort reason where the signal is aborted.
    pub fn throw_if_aborted(&self) -> (r: Result<(), AbortReason>)
        ensures
            match self.reason {
                Some(v) => r == Err::<(), AbortReason>(v),
                None => r is Ok,
            },
    {
        match self.reason {
            Some(v) => Err(v),
            None => Ok(()),
        }
    }
}

/// The number of times `x` occurs in `s`.
pub open spec fn occurrences(s: Seq<usize>, x: usize) -> nat
    decreases s.len(),
{
    if s.len() == 0 {
        0
    } else {
        occurrences(s.drop_last(), x) + if s.last() == x {
            1nat
        } else {
            0nat
        }
    }
}

/// The source signals of a signal made dependent on `signals`, in the arena `arena`: each
/// signal that is not dependent itself, and the sources of each that is.
pub open spec fn sources_for(arena: Seq<AbortSignal>, signals: Seq<usize>) -> Seq<usize>
    decreases signals.len(),
{
    if signals.len() == 0 {
        Seq::empty()
    } else {
        let prev = sources_for(arena, signals.drop_last());
        if !arena[signals.last() as int].dependent {
            prev.push(signals.last())
        } else {
            prev + arena[signals.last() as int].source_signals@
        }
    }
}

/// `after` is `before` with only its dependent signals changed.
pub open spec fn same_but_dependents(before: AbortSignal, after: AbortSignal) -> bool {
    &&& after.reason == before.reason
    &&& after.abort_algorithms == before.abort_algorithms
    &&& after.source_signals == before.source_signals
    &&& after.dependent == before.dependent
}

/// The signals of a realm.
pub struct AbortSignals {
    pub signals: Vec<AbortSignal>,
}

impl AbortSignals {
    /// Every source and dependent signal is in the arena.
    pub open spec fn wf(&self) -> bool {
        forall|i: int|
            0 <= i < self.signals@.len() ==> {
                &&& forall|k: int|
                    0 <= k < (#[trigger] self.signals@[i]).source_signals@.len()
                        ==> self.signals@[i].source_signals@[k] < self.signals@.len()
                &&& forall|k: int|
                    0 <= k < self.signals@[i].dependent_signals@.len()
                        ==> self.signals@[i].dependent_signals@[k] < self.signals@.len()
            }
    }

    pub fn new() -> (r: AbortSignals)
        ensures
            r.wf(),
            r.signals@.len() == 0,
    {
        AbortSignals { signals: Vec::new() }
    }

    /// Adds a new signal that is not aborted, and returns its position.
    pub fn new_signal(&mut self, dependent: bool) -> (r: usize)
        requires
            old(self).wf(),
            old(self).signals@.len() < usize::MAX,
        ensures
            final(self).wf(),
            r == old(self).signals@.len(),
            final(self).signals@.len() == old(self).signals@.len() + 1,
            forall|i: int| 0 <= i < r ==> final(self).signals@[i] == old(self).signals@[i],
            final(self).signals@[r as int].reason is None,
            final(self).signals@[r as int].abort_algorithms@.len() == 0,
            final(self).signals@[r as int].source_signals@.len() == 0,
            final(self).signals@[r as int].dependent_signals@.len() == 0,
            final(self).signals@[r as int].dependent == dependent,
    {
        let r = self.signals.len();
        self.signals.push(AbortSignal::new_inherited(dependent));
        assert(forall|i: int| 0 <= i < r ==> self.signals@[i] == old(self).signals@[i]);
        r
    }

    /// A new signal, aborted with `reason`, or with a new "AbortError" where none is given.
    pub fn abort(&mut self, reason: Option<AbortReason>) -> (r: usize)
        requires
            old(self).wf(),
            old(self).signals@.len() < usize::MAX,
        ensures
            final(self).wf(),
            r == old(self).signals@.len(),
            final(self).signals@.len() == old(self).signals@.len() + 1,
            forall|i: int| 0 <= i < r ==> final(self).signals@[i] == old(self).signals@[i],
            final(self).signals@[r as int].reason == Some(
                match reason {
                    Some(v) => v,
                    None => AbortReason::AbortError,
                },
            ),
            !final(self).signals@[r as int].dependent,
    {
        let r = self.new_signal(false);
        let v = match reason {
            Some(v) => v,
            None => AbortReason::AbortError,
        };
        self.signals[r].reason = Some(v);
        r
    }

    /// Adds `algorithms` to the abort algorithms of signal `i`, unless it is aborted.
    pub fn add_abort_algorithms(&mut self, i: usize, algorithms: Vec<AbortAlgorithm>)
        requires
            old(self).wf(),
            i < old(self).signals@.len(),
        ensures
            final(self).wf(),
            final(self).signals@.len() == old(self).signals@.len(),
            forall|j: int| 0 <= j < old(self).signals@.len() && j != i ==> final(self).signals@[j] == old(self).signals@[j],
            old(self).signals@[i as int].reason is Some ==> final(self).signals@[i as int] == old(self).signals@[i as int],
            old(self).signals@[i as int].reason is None ==> {
                &&& final(self).signals@[i as int].abort_algorithms@ == old(self).signals@[i as int].abort_algorithms@ + algorithms@
                &&& same_but_algorithms(old(self).signals@[i as int], final(self).signals@[i as int])
            },
    {
        if self.signals[i].reason.is_some() {
            return;
        }
        let mut k: usize = 0;
        let ghost start = self.signals@;
        while k < algorithms.len()
            invariant
                k <= algorithms@.len(),
                i < self.signals@.len(),
                self.signals@.len() == start.len(),
                start == old(self).signals@,
                forall|j: int| 0 <= j < start.len() && j != i ==> self.signals@[j] == start[j],
                self.signals@[i as int].abort_algorithms@ == start[i as int].abort_algorithms@ + algorithms@.subrange(0, k as int),
                same_but_algorithms(start[i as int], self.signals@[i as int]),
            decreases algorithms@.len() - k,
        {
            self.signals[i].abort_algorithms.push(algorithms[k]);
            assert(self.signals@[i as int].abort_algorithms@ =~= start[i as int].abort_algorithms@ + algorithms@.subrange(0, k + 1));
            k += 1;
        }
        assert(algorithms@.subrange(0, algorithms@.len() as int) =~= algorithms@);
        assert forall|x: int| 0 <= x < self.signals@.len() implies {
            &&& forall|k: int|
                0 <= k < (#[trigger] self.signals@[x]).source_signals@.len()
                    ==> self.signals@[x].source_signals@[k] < self.signals@.len()
            &&& forall|k: int|
                0 <= k < self.signals@[x].dependent_signals@.len()
                    ==> self.signals@[x].dependent_signals@[k] < self.signals@.len()
        } by {
            assert(start[x] == old(self).signals@[x]);
            if x != i {
                assert(self.signals@[x] == start[x]);
            }
        }
    }
}

/// `after` is `before` with only its abort algorithms changed.
pub open spec fn same_but_algorithms(before: AbortSignal, after: AbortSignal) -> bool {
    &&& after.reason == before.reason
    &&& after.source_signals == before.source_signals
    &&& after.dependent_signals == before.dependent_signals
    &&& after.dependent == before.dependent
}


/// `after` is `before` with only its reason changed.
pub open spec fn same_but_reason(before: AbortSignal, after: AbortSignal) -> bool {
    &&& after.abort_algorithms == before.abort_algorithms
    &&& after.source_signals == before.source_signals
    &&& after.dependent_signals == before.dependent_signals
    &&& after.dependent == before.dependent
}

/// The abort algorithms of the signals `list` of `arena`, one signal after the other.
pub open spec fn algorithms_of(arena: Seq<AbortSignal>, list: Seq<usize>) -> Seq<AbortAlgorithm>
    decreases list.len(),
{
    if list.len() == 0 {
        Seq::empty()
    } else {
        algorithms_of(arena, list.drop_last()) + arena[list.last() as int].abort_algorithms@
    }
}

/// `algorithms_of` reads only the abort algorithms of the signals it lists.
proof fn lemma_algorithms_of_same(a: Seq<AbortSignal>, b: Seq<AbortSignal>, list: Seq<usize>)
    requires
        a.len() == b.len(),
        forall|x: int| 0 <= x < a.len() ==> #[trigger] a[x].abort_algorithms == b[x].abort_algorithms,
        forall|k: int| 0 <= k < list.len() ==> list[k] < a.len(),
    ensures
        algorithms_of(a, list) == algorithms_of(b, list),
    decreases list.len(),
{
    if list.len() > 0 {
        lemma_algorithms_of_same(a, b, list.drop_last());
        assert(a[list.last() as int].abort_algorithms == b[list.last() as int].abort_algorithms);
    }
}

impl AbortSignals {
    /// Signals abort on signal `i` with `reason`, or with a new "AbortError" where none is
    /// given: the signal, and each of its dependent signals not yet aborted, take that reason.
    /// Returns the signals that aborted, `i` first, at whom "abort" events are due, and their
    /// abort algorithms, to run in that order; the signals keep none. Changes nothing where
    /// `i` is aborted already.
    pub fn signal_abort(&mut self, i: usize, reason: Option<AbortReason>) -> (r: (Vec<usize>, Vec<AbortAlgorithm>))
        requires
            old(self).wf(),
            i < old(self).signals@.len(),
        ensures
            final(self).wf(),
            final(self).signals@.len() == old(self).signals@.len(),
            old(self).signals@[i as int].reason is Some ==> r.0@.len() == 0 && r.1@.len() == 0
                && final(self).signals == old(self).signals,
            old(self).signals@[i as int].reason is None ==> {
                let v = match reason {
                    Some(v) => v,
                    None => AbortReason::AbortError,
                };
                &&& r.0@.len() > 0 && r.0@[0] == i
                &&& r.0@.no_duplicates()
                &&& forall|x: usize| #[trigger] r.0@.contains(x) ==> x == i || (old(self).signals@[i as int].dependent_signals@.contains(x)
                    && old(self).signals@[x as int].reason is None)
                &&& forall|x: usize| old(self).signals@[i as int].dependent_signals@.contains(x)
                    && old(self).signals@[x as int].reason is None ==> #[trigger] r.0@.contains(x)
                &&& forall|x: int| 0 <= x < old(self).signals@.len() ==> if r.0@.contains(x as usize) {
                    &&& final(self).signals@[x].reason == Some(v)
                    &&& final(self).signals@[x].abort_algorithms@.len() == 0
                    &&& final(self).signals@[x].source_signals == old(self).signals@[x].source_signals
                    &&& final(self).signals@[x].dependent_signals == old(self).signals@[x].dependent_signals
                    &&& final(self).signals@[x].dependent == old(self).signals@[x].dependent
                } else {
                    #[trigger] final(self).signals@[x] == old(self).signals@[x]
                }
                &&& r.1@ == algorithms_of(old(self).signals@, r.0@)
            },
    {
        if self.signals[i].reason.is_some() {
            return (Vec::new(), Vec::new());
        }
        let v = match reason {
            Some(v) => v,
            None => AbortReason::AbortError,
        };
        let ghost start = self.signals@;
        let n = self.signals.len();
        self.signals[i].reason = Some(v);
        let mut aborted: Vec<usize> = Vec::new();
        aborted.push(i);
        assert forall|x: usize| #[trigger] aborted@.contains(x) <==> x == i by {
            if aborted@.contains(x) {
                let q = choose|q: int| 0 <= q < aborted@.len() && aborted@[q] == x;
                assert(q == 0);
            }
            if x == i {
                assert(aborted@[0] == x);
            }
        }
        let deps_len = self.signals[i].dependent_signals.len();
        let mut k: usize = 0;
        while k < deps_len
            invariant
                n == start.len(),
                n == self.signals@.len(),
                i < n,
                start == old(self).signals@,
                start[i as int].reason is None,
                deps_len == start[i as int].dependent_signals@.len(),
                k <= deps_len,
                old(self).wf(),
                aborted@.len() > 0 && aborted@[0] == i,
                aborted@.no_duplicates(),
                forall|x: int| 0 <= x < n ==> same_but_reason(start[x], #[trigger] self.signals@[x]),
                forall|x: int| 0 <= x < n ==> (#[trigger] self.signals@[x]).reason == if aborted@.contains(x as usize) {
                    Some(v)
                } else {
                    start[x].reason
                },
                forall|x: usize| #[trigger] aborted@.contains(x) ==> x < n && (x == i || (
                    start[i as int].dependent_signals@.contains(x) && start[x as int].reason is None)),
                forall|j: int| 0 <= j < k && start[start[i as int].dependent_signals@[j] as int].reason is None
                    ==> aborted@.contains(#[trigger] start[i as int].dependent_signals@[j]),
            decreases deps_len - k,
        {
            let d = self.signals[i].dependent_signals[k];
            assert(d == start[i as int].dependent_signals@[k as int]);
            assert(d < n);
            if self.signals[d].reason.is_none() {
                assert(self.signals@[d as int].reason == if aborted@.contains(d) { Some(v) } else { start[d as int].reason });
                assert(!aborted@.contains(d));
                assert(start[d as int].reason is None);
                self.signals[d].reason = Some(v);
                let ghost before = aborted@;
                aborted.push(d);
                assert(aborted@ == before.push(d));
                assert forall|x: usize| aborted@.contains(x) <==> (before.contains(x) || x == d) by {
                    if aborted@.contains(x) {
                        let q = choose|q: int| 0 <= q < aborted@.len() && aborted@[q] == x;
                        if q < before.len() {
                            assert(before[q] == x);
                        }
                    }
                    if before.contains(x) {
                        let q = choose|q: int| 0 <= q < before.len() && before[q] == x;
                        assert(aborted@[q] == x);
                    }
                    if x == d {
                        assert(aborted@[before.len() as int] == x);
                    }
                }
                assert(start[i as int].dependent_signals@.contains(d)) by {
                    assert(start[i as int].dependent_signals@[k as int] == d);
                }
                assert forall|x: usize| #[trigger] aborted@.contains(x) implies x < n && (x == i || (
                    start[i as int].dependent_signals@.contains(x) && start[x as int].reason is None)) by {
                    if x != d {
                        assert(before.contains(x));
                    }
                }
            }
            k += 1;
        }
        let ghost mid = self.signals@;
        let mut algorithms: Vec<AbortAlgorithm> = Vec::new();
        let mut m: usize = 0;
        while m < aborted.len()
            invariant
                n == self.signals@.len(),
                n == mid.len(),
                m <= aborted@.len(),
                forall|x: usize| #[trigger] aborted@.contains(x) ==> x < n,
                aborted@.no_duplicates(),
                forall|x: int| 0 <= x < n ==> same_but_algorithms(mid[x], #[trigger] self.signals@[x]),
                forall|x: int| 0 <= x < n ==> if aborted@.subrange(0, m as int).contains(x as usize) {
                    (#[trigger] self.signals@[x]).abort_algorithms@.len() == 0
                } else {
                    self.signals@[x].abort_algorithms == mid[x].abort_algorithms
                },
                algorithms@ == algorithms_of(mid, aborted@.subrange(0, m as int)),
            decreases aborted@.len() - m,
        {
            let x = aborted[m];
            assert(aborted@.contains(x));
            assert(!aborted@.subrange(0, m as int).contains(x)) by {
                if aborted@.subrange(0, m as int).contains(x) {
                    let q = choose|q: int| 0 <= q < m && aborted@.subrange(0, m as int)[q] == x;
                    assert(aborted@[q] == aborted@[m as int]);
                }
            }
            let ghost before = algorithms@;
            let cnt = self.signals[x].abort_algorithms.len();
            let mut a: usize = 0;
            while a < cnt
                invariant
                    a <= cnt,
                    x < n,
                    n == self.signals@.len(),
                    cnt == self.signals@[x as int].abort_algorithms@.len(),
                    self.signals@[x as int].abort_algorithms == mid[x as int].abort_algorithms,
                    algorithms@ == before + mid[x as int].abort_algorithms@.subrange(0, a as int),
                decreases cnt - a,
            {
                algorithms.push(self.signals[x].abort_algorithms[a]);
                assert(algorithms@ =~= before + mid[x as int].abort_algorithms@.subrange(0, a + 1));
                a += 1;
            }
            assert(mid[x as int].abort_algorithms@.subrange(0, cnt as int) =~= mid[x as int].abort_algorithms@);
            self.signals[x].abort_algorithms.clear();
            proof {
                let sub = aborted@.subrange(0, m + 1);
                assert(sub.drop_last() =~= aborted@.subrange(0, m as int));
                assert(sub.last() == x);
                assert forall|y: usize| #[trigger] sub.contains(y) <==> (aborted@.subrange(0, m as int).contains(y) || y == x) by {
                    if sub.contains(y) {
                        let q = choose|q: int| 0 <= q < sub.len() && sub[q] == y;
                        if q < m {
                            assert(aborted@.subrange(0, m as int)[q] == y);
                        }
                    }
                    if aborted@.subrange(0, m as int).contains(y) {
                        let q = choose|q: int| 0 <= q < m && aborted@.subrange(0, m as int)[q] == y;
                        assert(sub[q] == y);
                    }
                    if y == x {
                        assert(sub[m as int] == x);
                    }
                }
            }
            m += 1;
        }
        assert(aborted@.subrange(0, aborted@.len() as int) =~= aborted@);
        proof {
            assert forall|x: int| 0 <= x < n implies {
                &&& forall|k: int|
                    0 <= k < (#[trigger] self.signals@[x]).source_signals@.len()
                        ==> self.signals@[x].source_signals@[k] < self.signals@.len()
                &&& forall|k: int|
                    0 <= k < self.signals@[x].dependent_signals@.len()
                        ==> self.signals@[x].dependent_signals@[k] < self.signals@.len()
            } by {
                assert(same_but_algorithms(mid[x], self.signals@[x]));
                assert(same_but_reason(start[x], mid[x]));
                assert(start[x] == old(self).signals@[x]);
            }
            assert forall|k: int| 0 <= k < aborted@.len() implies aborted@[k] < mid.len() by {
                assert(aborted@.contains(aborted@[k]));
            }
            assert forall|x: int| 0 <= x < mid.len() implies #[trigger] mid[x].abort_algorithms == start[x].abort_algorithms by {
                assert(same_but_reason(start[x], mid[x]));
            }
            assert(algorithms_of(mid, aborted@) == algorithms_of(start, aborted@)) by {
                lemma_algorithms_of_same(mid, start, aborted@);
            }
        }
        (aborted, algorithms)
    }

    /// Makes signal `r` follow signal `s`: `s` joins the sources of `r`, and `r` the
    /// dependents of `s`.
    fn link(&mut self, r: usize, s: usize)
        requires
            old(self).wf(),
            r < old(self).signals@.len(),
            s < old(self).signals@.len(),
            r != s,
        ensures
            final(self).wf(),
            final(self).signals@.len() == old(self).signals@.len(),
            final(self).signals@[r as int].source_signals@ == old(self).signals@[r as int].source_signals@.push(s),
            final(self).signals@[r as int].dependent_signals == old(self).signals@[r as int].dependent_signals,
            final(self).signals@[r as int].reason == old(self).signals@[r as int].reason,
            final(self).signals@[r as int].abort_algorithms == old(self).signals@[r as int].abort_algorithms,
            final(self).signals@[r as int].dependent == old(self).signals@[r as int].dependent,
            final(self).signals@[s as int].dependent_signals@ == old(self).signals@[s as int].dependent_signals@.push(r),
            same_but_dependents(old(self).signals@[s as int], final(self).signals@[s as int]),
            forall|x: int| 0 <= x < old(self).signals@.len() && x != r && x != s ==> #[trigger] final(self).signals@[x] == old(self).signals@[x],
    {
        self.signals[r].source_signals.push(s);
        self.signals[s].dependent_signals.push(r);
        proof {
            let n = self.signals@.len();
            assert forall|x: int| 0 <= x < n implies {
                &&& forall|k: int|
                    0 <= k < (#[trigger] self.signals@[x]).source_signals@.len()
                        ==> self.signals@[x].source_signals@[k] < self.signals@.len()
                &&& forall|k: int|
                    0 <= k < self.signals@[x].dependent_signals@.len()
                        ==> self.signals@[x].dependent_signals@[k] < self.signals@.len()
            } by {
                if x == r as int {
                    assert forall|k: int| 0 <= k < self.signals@[x].source_signals@.len() implies self.signals@[x].source_signals@[k] < n by {
                        if k < old(self).signals@[x].source_signals@.len() {
                            assert(self.signals@[x].source_signals@[k] == old(self).signals@[x].source_signals@[k]);
                        }
                    }
                } else if x == s as int {
                    assert forall|k: int| 0 <= k < self.signals@[x].dependent_signals@.len() implies self.signals@[x].dependent_signals@[k] < n by {
                        if k < old(self).signals@[x].dependent_signals@.len() {
                            assert(self.signals@[x].dependent_signals@[k] == old(self).signals@[x].dependent_signals@[k]);
                        }
                    }
                }
            }
        }
    }

    /// The dependents of each older signal, `x`, after a new signal `r` took `sources` as its
    /// source signals: `r` appended once per time `x` occurs there.
    pub open spec fn dependents_after(&self, old_arena: Seq<AbortSignal>, sources: Seq<usize>, r: usize) -> bool {
        forall|x: int|
            0 <= x < old_arena.len() ==> same_but_dependents(old_arena[x], #[trigger] self.signals@[x])
                && self.signals@[x].dependent_signals@ == old_arena[x].dependent_signals@ + Seq::new(
                occurrences(sources, x as usize),
                |_j: int| r,
            )
    }

    /// Creates a signal that follows `signals`: aborted at once, with the reason of the first
    /// of them that is aborted, if any; otherwise dependent, with the sources that
    /// `sources_for` gives, each of which takes it as a dependent signal.
    pub fn create_dependent_signal(&mut self, signals: &Vec<usize>) -> (r: usize)
        requires
            old(self).wf(),
            old(self).signals@.len() < usize::MAX,
            forall|k: int| 0 <= k < signals@.len() ==> #[trigger] signals@[k] < old(self).signals@.len(),
        ensures
            final(self).wf(),
            r == old(self).signals@.len(),
            final(self).signals@.len() == old(self).signals@.len() + 1,
            final(self).signals@[r as int].abort_algorithms@.len() == 0,
            final(self).signals@[r as int].dependent_signals@.len() == 0,
            (exists|k: int| 0 <= k < signals@.len() && (#[trigger] old(self).signals@[signals@[k] as int]).reason is Some) ==> {
                &&& exists|k: int|
                    0 <= k < signals@.len() && (#[trigger] old(self).signals@[signals@[k] as int]).reason is Some
                        && final(self).signals@[r as int].reason == old(self).signals@[signals@[k] as int].reason
                        && forall|j: int| 0 <= j < k ==> old(self).signals@[signals@[j] as int].reason is None
                &&& !final(self).signals@[r as int].dependent
                &&& final(self).signals@[r as int].source_signals@.len() == 0
                &&& forall|x: int| 0 <= x < old(self).signals@.len() ==> #[trigger] final(self).signals@[x] == old(self).signals@[x]
            },
            !(exists|k: int| 0 <= k < signals@.len() && (#[trigger] old(self).signals@[signals@[k] as int]).reason is Some) ==> {
                &&& final(self).signals@[r as int].reason is None
                &&& final(self).signals@[r as int].dependent
                &&& final(self).signals@[r as int].source_signals@ == sources_for(old(self).signals@, signals@)
                &&& final(self).dependents_after(old(self).signals@, sources_for(old(self).signals@, signals@), r)
            },
    {
        let r = self.new_signal(false);
        let ghost start = old(self).signals@;
        let mut k: usize = 0;
        while k < signals.len()
            invariant
                k <= signals@.len(),
                self.wf(),
                r == start.len(),
                start == old(self).signals@,
                self.signals@.len() == start.len() + 1,
                forall|x: int| 0 <= x < r ==> self.signals@[x] == start[x],
                self.signals@[r as int].reason is None,
                self.signals@[r as int].abort_algorithms@.len() == 0,
                self.signals@[r as int].source_signals@.len() == 0,
                self.signals@[r as int].dependent_signals@.len() == 0,
                !self.signals@[r as int].dependent,
                forall|q: int| 0 <= q < signals@.len() ==> #[trigger] signals@[q] < start.len(),
                forall|j: int| 0 <= j < k ==> (#[trigger] start[signals@[j] as int]).reason is None,
            decreases signals@.len() - k,
        {
            let s = signals[k];
            assert(signals@[k as int] < start.len());
            match self.signals[s].reason {
                Some(reason) => {
                    self.signals[r].reason = Some(reason);
                    proof {
                        assert(start[signals@[k as int] as int].reason is Some);
                        let n = self.signals@.len();
                        assert forall|x: int| 0 <= x < n implies {
                            &&& forall|q: int|
                                0 <= q < (#[trigger] self.signals@[x]).source_signals@.len()
                                    ==> self.signals@[x].source_signals@[q] < self.signals@.len()
                            &&& forall|q: int|
                                0 <= q < self.signals@[x].dependent_signals@.len()
                                    ==> self.signals@[x].dependent_signals@[q] < self.signals@.len()
                        } by {
                            if x < r {
                                assert(self.signals@[x] == start[x]);
                            }
                        }
                    }
                    return r;
                },
                None => {},
            }
            k += 1;
        }
        self.signals[r].dependent = true;
        assert(self.wf()) by {
            let n = self.signals@.len();
            assert forall|x: int| 0 <= x < n implies {
                &&& forall|q: int|
                    0 <= q < (#[trigger] self.signals@[x]).source_signals@.len()
                        ==> self.signals@[x].source_signals@[q] < self.signals@.len()
                &&& forall|q: int|
                    0 <= q < self.signals@[x].dependent_signals@.len()
                        ==> self.signals@[x].dependent_signals@[q] < self.signals@.len()
            } by {
                if x < r {
                    assert(self.signals@[x] == start[x]);
                }
            }
        }
        assert forall|x: int| 0 <= x < start.len() implies self.signals@[x].dependent_signals@ =~= start[x].dependent_signals@ + Seq::new(
            occurrences(self.signals@[r as int].source_signals@, x as usize),
            |_j: int| r,
        ) by {
            assert(self.signals@[x] == start[x]);
        }
        let mut k: usize = 0;
        while k < signals.len()
            invariant
                k <= signals@.len(),
                self.wf(),
                r == start.len(),
                self.signals@.len() == start.len() + 1,
                start == old(self).signals@,
                old(self).wf(),
                self.signals@[r as int].reason is None,
                self.signals@[r as int].abort_algorithms@.len() == 0,
                self.signals@[r as int].dependent_signals@.len() == 0,
                self.signals@[r as int].dependent,
                forall|q: int| 0 <= q < signals@.len() ==> #[trigger] signals@[q] < start.len(),
                self.signals@[r as int].source_signals@ == sources_for(start, signals@.subrange(0, k as int)),
                self.dependents_after(start, self.signals@[r as int].source_signals@, r),
            decreases signals@.len() - k,
        {
            let s = signals[k];
            assert(signals@[k as int] < start.len());
            let ghost prefix = self.signals@[r as int].source_signals@;
            proof {
                let sub = signals@.subrange(0, k + 1);
                assert(sub.drop_last() =~= signals@.subrange(0, k as int));
                assert(sub.last() == s);
                assert(same_but_dependents(start[s as int], self.signals@[s as int]));
            }
            if !self.signals[s].dependent {
                self.link(r, s);
                proof {
                    assert forall|x: int| 0 <= x < start.len() implies same_but_dependents(start[x], #[trigger] self.signals@[x])
                        && self.signals@[x].dependent_signals@ == start[x].dependent_signals@ + Seq::new(
                        occurrences(self.signals@[r as int].source_signals@, x as usize),
                        |_j: int| r,
                    ) by {
                        let np = prefix.push(s);
                        assert(np.drop_last() =~= prefix);
                        if x == s as int {
                            assert(Seq::new(occurrences(np, x as usize), |_j: int| r) =~= Seq::new(occurrences(prefix, x as usize), |_j: int| r).push(r));
                        } else {
                            assert(Seq::new(occurrences(np, x as usize), |_j: int| r) =~= Seq::new(occurrences(prefix, x as usize), |_j: int| r));
                        }
                    }
                }
            } else {
                let count = self.signals[s].source_signals.len();
                let mut j: usize = 0;
                while j < count
                    invariant
                        j <= count,
                        self.wf(),
                        r == start.len(),
                        s < start.len(),
                        self.signals@.len() == start.len() + 1,
                        old(self).wf(),
                        start == old(self).signals@,
                        count == start[s as int].source_signals@.len(),
                        self.signals@[r as int].reason is None,
                        self.signals@[r as int].abort_algorithms@.len() == 0,
                        self.signals@[r as int].dependent_signals@.len() == 0,
                        self.signals@[r as int].dependent,
                        self.signals@[r as int].source_signals@ == prefix + start[s as int].source_signals@.subrange(0, j as int),
                        self.dependents_after(start, self.signals@[r as int].source_signals@, r),
                    decreases count - j,
                {
                    assert(same_but_dependents(start[s as int], self.signals@[s as int]));
                    let q = self.signals[s].source_signals[j];
                    assert(q == start[s as int].source_signals@[j as int]);
                    assert(q < start.len()) by {
                        assert(start[s as int].source_signals@[j as int] < start.len());
                    }
                    let ghost before = self.signals@[r as int].source_signals@;
                    self.link(r, q);
                    proof {
                        assert(self.signals@[r as int].source_signals@ =~= prefix + start[s as int].source_signals@.subrange(0, j + 1));
                        assert forall|x: int| 0 <= x < start.len() implies same_but_dependents(start[x], #[trigger] self.signals@[x])
                            && self.signals@[x].dependent_signals@ == start[x].dependent_signals@ + Seq::new(
                            occurrences(self.signals@[r as int].source_signals@, x as usize),
                            |_i: int| r,
                        ) by {
                            let np = before.push(q);
                            assert(np.drop_last() =~= before);
                            assert(self.signals@[r as int].source_signals@ == np);
                            if x == q as int {
                                assert(Seq::new(occurrences(np, x as usize), |_i: int| r) =~= Seq::new(occurrences(before, x as usize), |_i: int| r).push(r));
                            } else {
                                assert(Seq::new(occurrences(np, x as usize), |_i: int| r) =~= Seq::new(occurrences(before, x as usize), |_i: int| r));
                            }
                        }
                    }
                    j += 1;
                }
                assert(start[s as int].source_signals@.subrange(0, count as int) =~= start[s as int].source_signals@);
            }
            k += 1;
        }
        assert(signals@.subrange(0, signals@.len() as int) =~= signals@);
        r
    }
}


/// Controls one signal of an arena.
pub struct AbortController {
    pub signal: usize,
}

impl AbortController {
    /// A controller with a new signal that is not dependent.
    pub fn new(signals: &mut AbortSignals) -> (r: AbortController)
        requires
            old(signals).wf(),
            old(signals).signals@.len() < usize::MAX,
        ensures
            final(signals).wf(),
            r.signal == old(signals).signals@.len(),
            final(signals).signals@.len() == old(signals).signals@.len() + 1,
            forall|i: int| 0 <= i < r.signal ==> final(signals).signals@[i] == old(signals).signals@[i],
            final(signals).signals@[r.signal as int].reason is None,
            !final(signals).signals@[r.signal as int].dependent,
    {
        let signal = signals.new_signal(false);
        AbortController { signal }
    }

    pub fn signal(&self) -> (r: usize)
        ensures
            r == self.signal,
    {
        self.signal
    }

    /// Signals abort on the controller's signal.
    pub fn abort(&self, signals: &mut AbortSignals, reason: Option<AbortReason>) -> (r: (Vec<usize>, Vec<AbortAlgorithm>))
        requires
            old(signals).wf(),
            self.signal < old(signals).signals@.len(),
        ensures
            final(signals).wf(),
            final(signals).signals@.len() == old(signals).signals@.len(),
            old(signals).signals@[self.signal as int].reason is Some ==> r.0@.len() == 0 && final(signals).signals == old(signals).signals,
            old(signals).signals@[self.signal as int].reason is None ==> r.0@.len() > 0 && r.0@[0] == self.signal
                && final(signals).signals@[self.signal as int].reason == Some(
                match reason {
                    Some(v) => v,
                    None => AbortReason::AbortError,
                },
            ),
    {
        let r = signals.signal_abort(self.signal, reason);
        proof {
            if old(signals).signals@[self.signal as int].reason is None {
                assert(r.0@.contains(self.signal)) by {
                    assert(r.0@[0] == self.signal);
                }
            }
        }
        r
    }
}

} // verus!
