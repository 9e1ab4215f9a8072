//! Per-manager registry of analysis passes and cache of their results.
//!
//! A CGSCC or loop analysis is registered with an analysis manager under
//! the type of the analysis. A request for the result of an analysis on a
//! unit (a function or a loop header) is answered from the cache when a
//! result is stored for that manager, analysis and unit; otherwise the
//! registered analysis is run and its result stored. When a pass manager
//! goes away, everything registered with or cached for its analysis
//! managers is dropped.

use std::any::TypeId;
use vstd::prelude::*;
use vstd::pervasive::VecAdditionalExecFns;

verus! {

#[verifier::external_type_specification]
#[verifier::external_body]
pub struct ExTypeId(TypeId);

/// Calls `<TypeId as PartialEq>::eq`: two type identifiers compare equal
/// exactly when they are the same value, that is, identify the same type.
#[verifier::external_body]
pub(crate) fn same_type_id(a: &TypeId, b: &TypeId) -> (r: bool)
    ensures
        r == (*a == *b),
{
    *a == *b
}

/// How a request for an analysis result is answered.
#[derive(Debug, Clone, Copy, PartialEq, Eq, Structural)]
pub enum ResultPlan {
    /// The request comes from the analysis that it asks for; it is refused.
    SelfRequest,
    /// A result is cached for the manager, analysis and unit.
    Cached,
    /// No result is cached, and the analysis is registered: run it.
    Compute,
    /// No result is cached and the analysis is not registered.
    NotRegistered,
}

/// The key of a registered analysis: the manager and the analysis type.
pub open spec fn pass_key<E>(slot: (usize, TypeId, E)) -> (usize, TypeId) {
    (slot.0, slot.1)
}

/// The key of a cached result: the manager, the analysis type and the unit.
pub open spec fn result_key<R>(slot: (usize, TypeId, usize, R)) -> (usize, TypeId, usize) {
    (slot.0, slot.1, slot.2)
}

/// The registered analyses of all managers but `manager`.
pub open spec fn without_manager_passes<E>(
    passes: Map<(usize, TypeId), E>,
    manager: usize,
) -> Map<(usize, TypeId), E> {
    passes.restrict(Set::new(|k: (usize, TypeId)| k.0 != manager))
}

/// The cached results of all managers but `manager`.
pub open spec fn without_manager_results<R>(
    results: Map<(usize, TypeId, usize), R>,
    manager: usize,
) -> Map<(usize, TypeId, usize), R> {
    results.restrict(Set::new(|k: (usize, TypeId, usize)| k.0 != manager))
}

/// How a request made by `from` (the analysis that asks, if any) for
/// `analysis` on `unit` through `manager` is answered, given the
/// registered analyses and the cached results.
pub open spec fn plan_of<E, R>(
    passes: Map<(usize, TypeId), E>,
    results: Map<(usize, TypeId, usize), R>,
    from: Option<TypeId>,
    manager: usize,
    analysis: TypeId,
    unit: usize,
) -> ResultPlan {
    if from == Some(analysis) {
        ResultPlan::SelfRequest
    } else if results.contains_key((manager, analysis, unit)) {
        ResultPlan::Cached
    } else if passes.contains_key((manager, analysis)) {
        ResultPlan::Compute
    } else {
        ResultPlan::NotRegistered
    }
}

/// The stored slots of a registry, with the maps they stand for.
struct Slots<E, R> {
    passes: Vec<(usize, TypeId, E)>,
    results: Vec<(usize, TypeId, usize, R)>,
    pass_map: Ghost<Map<(usize, TypeId), E>>,
    result_map: Ghost<Map<(usize, TypeId, usize), R>>,
}

impl<E, R> Slots<E, R> {
    /// The registered analyses, by manager and analysis type.
    closed spec fn passes_view(self) -> Map<(usize, TypeId), E> {
        self.pass_map@
    }

    /// The cached results, by manager, analysis type and unit.
    closed spec fn results_view(self) -> Map<(usize, TypeId, usize), R> {
        self.result_map@
    }

    /// The stored slots agree with the views, and no key is stored twice.
    closed spec fn wf(self) -> bool {
        &&& forall|i: int|
            0 <= i < self.passes@.len() ==> {
                &&& self.pass_map@.contains_key(pass_key(#[trigger] self.passes@[i]))
                &&& self.pass_map@[pass_key(self.passes@[i])] == self.passes@[i].2
            }
        &&& forall|k: (usize, TypeId)|
            #[trigger] self.pass_map@.contains_key(k) ==> exists|i: int|
                0 <= i < self.passes@.len() && pass_key(#[trigger] self.passes@[i]) == k
        &&& forall|i: int, j: int|
            0 <= i < self.passes@.len() && 0 <= j < self.passes@.len() && i != j ==> pass_key(
                #[trigger] self.passes@[i],
            ) != pass_key(#[trigger] self.passes@[j])
        &&& forall|i: int|
            0 <= i < self.results@.len() ==> {
                &&& self.result_map@.contains_key(result_key(#[trigger] self.results@[i]))
                &&& self.result_map@[result_key(self.results@[i])] == self.results@[i].3
            }
        &&& forall|k: (usize, TypeId, usize)|
            #[trigger] self.result_map@.contains_key(k) ==> exists|i: int|
                0 <= i < self.results@.len() && result_key(#[trigger] self.results@[i]) == k
        &&& forall|i: int, j: int|
            0 <= i < self.results@.len() && 0 <= j < self.results@.len() && i != j
                ==> result_key(#[trigger] self.results@[i]) != result_key(
                #[trigger] self.results@[j],
            )
    }

    /// An empty registry.
    fn new() -> (r: Self)
        ensures
            r.wf(),
            r.passes_view() == Map::<(usize, TypeId), E>::empty(),
            r.results_view() == Map::<(usize, TypeId, usize), R>::empty(),
    {
        Slots {
            passes: Vec::new(),
            results: Vec::new(),
            pass_map: Ghost(Map::empty()),
            result_map: Ghost(Map::empty()),
        }
    }

    fn find_pass(&self, manager: usize, analysis: &TypeId) -> (r: Option<usize>)
        requires
            self.wf(),
        ensures
            match r {
                Some(i) => i < self.passes@.len() && pass_key(self.passes@[i as int]) == (
                    manager,
                    *analysis,
                ),
                None => !self.passes_view().contains_key((manager, *analysis)),
            },
    {
        let n = self.passes.len();
        let mut i: usize = 0;
        while i < n
            invariant
                self.wf(),
                n == self.passes@.len(),
                i <= n,
                forall|j: int| 0 <= j < i ==> pass_key(#[trigger] self.passes@[j]) != (manager, *analysis),
            decreases n - i,
        {
            let slot = &self.passes[i];
            if slot.0 == manager && same_type_id(&slot.1, analysis) {
                return Some(i);
            }
            i = i + 1;
        }
        None
    }

    fn find_result(&self, manager: usize, analysis: &TypeId, unit: usize) -> (r: Option<usize>)
        requires
            self.wf(),
        ensures
            match r {
                Some(i) => i < self.results@.len() && result_key(self.results@[i as int]) == (
                    manager,
                    *analysis,
                    unit,
                ),
                None => !self.results_view().contains_key((manager, *analysis, unit)),
            },
    {
        let n = self.results.len();
        let mut i: usize = 0;
        while i < n
            invariant
                self.wf(),
                n == self.results@.len(),
                i <= n,
                forall|j: int|
                    0 <= j < i ==> result_key(#[trigger] self.results@[j]) != (
                        manager,
                        *analysis,
                        unit,
                    ),
            decreases n - i,
        {
            let slot = &self.results[i];
            if slot.0 == manager && slot.2 == unit && same_type_id(&slot.1, analysis) {
                return Some(i);
            }
            i = i + 1;
        }
        None
    }

    /// Whether `analysis` is registered with `manager`.
    fn is_registered(&self, manager: usize, analysis: &TypeId) -> (r: bool)
        requires
            self.wf(),
        ensures
            r == self.passes_view().contains_key((manager, *analysis)),
    {
        self.find_pass(manager, analysis).is_some()
    }

    /// The analysis pass registered with `manager` for `analysis`, if any.
    fn registered(&self, manager: usize, analysis: &TypeId) -> (r: Option<&E>)
        requires
            self.wf(),
        ensures
            r is Some <==> self.passes_view().contains_key((manager, *analysis)),
            r matches Some(e) ==> *e == self.passes_view()[(manager, *analysis)],
    {
        match self.find_pass(manager, analysis) {
            Some(i) => Some(&self.passes[i].2),
            None => None,
        }
    }

    /// The result cached for `analysis` on `unit` with `manager`, if any.
    fn cached(&self, manager: usize, analysis: &TypeId, unit: usize) -> (r: Option<&R>)
        requires
            self.wf(),
        ensures
            r is Some <==> self.results_view().contains_key((manager, *analysis, unit)),
            r matches Some(v) ==> *v == self.results_view()[(manager, *analysis, unit)],
    {
        match self.find_result(manager, analysis, unit) {
            Some(i) => Some(&self.results[i].3),
            None => None,
        }
    }

    /// Register `entry` as the pass of `analysis` with `manager`. An
    /// analysis can be registered with a manager once.
    fn register(&mut self, manager: usize, analysis: TypeId, entry: E)
        requires
            old(self).wf(),
            !old(self).passes_view().contains_key((manager, analysis)),
        ensures
            final(self).wf(),
            final(self).passes_view() == old(self).passes_view().insert((manager, analysis), entry),
            final(self).results_view() == old(self).results_view(),
    {
        let ghost old_passes = self.passes@;
        let ghost old_map = self.pass_map@;
        let ghost old_results = self.results@;
        self.passes.push((manager, analysis, entry));
        proof {
            let k = (manager, analysis);
            self.pass_map@ = old_map.insert(k, entry);
            assert forall|i: int| 0 <= i < old_passes.len() implies pass_key(
                #[trigger] self.passes@[i],
            ) != k by {
                assert(self.passes@[i] == old_passes[i]);
                assert(old_map.contains_key(pass_key(old_passes[i])));
            }
            assert forall|kk: (usize, TypeId)|
                #[trigger] self.pass_map@.contains_key(kk) implies exists|i: int|
                    0 <= i < self.passes@.len() && pass_key(#[trigger] self.passes@[i]) == kk by {
                if kk == k {
                    assert(pass_key(self.passes@[old_passes.len() as int]) == kk);
                } else {
                    assert(old_map.contains_key(kk));
                    let i = choose|i: int| 0 <= i < old_passes.len() && pass_key(#[trigger] old_passes[i]) == kk;
                    assert(self.passes@[i] == old_passes[i]);
                }
            }
            assert forall|i: int| 0 <= i < self.passes@.len() implies {
                &&& self.pass_map@.contains_key(pass_key(#[trigger] self.passes@[i]))
                &&& self.pass_map@[pass_key(self.passes@[i])] == self.passes@[i].2
            } by {
                if i < old_passes.len() {
                    assert(self.passes@[i] == old_passes[i]);
                }
            }
            assert forall|i: int, j: int|
                0 <= i < self.passes@.len() && 0 <= j < self.passes@.len() && i != j implies pass_key(
                #[trigger] self.passes@[i],
            ) != pass_key(#[trigger] self.passes@[j]) by {
                if i < old_passes.len() {
                    assert(self.passes@[i] == old_passes[i]);
                }
                if j < old_passes.len() {
                    assert(self.passes@[j] == old_passes[j]);
                }
            }
            assert forall|kk: (usize, TypeId, usize)|
                #[trigger] self.result_map@.contains_key(kk) implies exists|j: int|
                    0 <= j < self.results@.len() && result_key(#[trigger] self.results@[j]) == kk by {
                let j = choose|j: int| 0 <= j < old_results.len() && result_key(#[trigger] old_results[j]) == kk;
                assert(self.results@[j] == old_results[j]);
            }
        }
    }

    /// Store `result` as the result of `analysis` on `unit` with
    /// `manager`, in place of any result stored for them before.
    fn store_result(&mut self, manager: usize, analysis: TypeId, unit: usize, result: R)
        requires
            old(self).wf(),
        ensures
            final(self).wf(),
            final(self).results_view() == old(self).results_view().insert(
                (manager, analysis, unit),
                result,
            ),
            final(self).passes_view() == old(self).passes_view(),
    {
        let ghost old_results = self.results@;
        let ghost old_map = self.result_map@;
        let ghost k = (manager, analysis, unit);
        let ghost old_passes = self.passes@;
        match self.find_result(manager, &analysis, unit) {
            Some(i) => {
                self.results.set(i, (manager, analysis, unit, result));
                proof {
                    self.result_map@ = old_map.insert(k, result);
                    assert forall|kk: (usize, TypeId, usize)|
                        #[trigger] self.result_map@.contains_key(kk) implies exists|j: int|
                            0 <= j < self.results@.len() && result_key(#[trigger] self.results@[j]) == kk by {
                        if kk == k {
                            assert(result_key(self.results@[i as int]) == kk);
                        } else {
                            let j = choose|j: int| 0 <= j < old_results.len() && result_key(#[trigger] old_results[j]) == kk;
                            assert(self.results@[j] == old_results[j]);
                        }
                    }
                    assert forall|j: int| 0 <= j < self.results@.len() implies {
                        &&& self.result_map@.contains_key(result_key(#[trigger] self.results@[j]))
                        &&& self.result_map@[result_key(self.results@[j])] == self.results@[j].3
                    } by {
                        if j != i {
                            assert(self.results@[j] == old_results[j]);
                            assert(result_key(old_results[j]) != result_key(old_results[i as int]));
                        }
                    }
                    assert forall|a: int, b: int|
                        0 <= a < self.results@.len() && 0 <= b < self.results@.len() && a != b
                            implies result_key(#[trigger] self.results@[a]) != result_key(
                        #[trigger] self.results@[b],
                    ) by {
                        assert(result_key(self.results@[a]) == result_key(old_results[a]));
                        assert(result_key(self.results@[b]) == result_key(old_results[b]));
                    }
                }
            },
            None => {
                self.results.push((manager, analysis, unit, result));
                proof {
                    self.result_map@ = old_map.insert(k, result);
                    assert forall|j: int| 0 <= j < old_results.len() implies result_key(
                        #[trigger] self.results@[j],
                    ) != k by {
                        assert(self.results@[j] == old_results[j]);
                        assert(old_map.contains_key(result_key(old_results[j])));
                    }
                    assert forall|kk: (usize, TypeId, usize)|
                        #[trigger] self.result_map@.contains_key(kk) implies exists|j: int|
                            0 <= j < self.results@.len() && result_key(#[trigger] self.results@[j]) == kk by {
                        if kk == k {
                            assert(result_key(self.results@[old_results.len() as int]) == kk);
                        } else {
                            let j = choose|j: int| 0 <= j < old_results.len() && result_key(#[trigger] old_results[j]) == kk;
                            assert(self.results@[j] == old_results[j]);
                        }
                    }
                    assert forall|j: int| 0 <= j < self.results@.len() implies {
                        &&& self.result_map@.contains_key(result_key(#[trigger] self.results@[j]))
                        &&& self.result_map@[result_key(self.results@[j])] == self.results@[j].3
                    } by {
                        if j < old_results.len() {
                            assert(self.results@[j] == old_results[j]);
                        }
                    }
                    assert forall|a: int, b: int|
                        0 <= a < self.results@.len() && 0 <= b < self.results@.len() && a != b
                            implies result_key(#[trigger] self.results@[a]) != result_key(
                        #[trigger] self.results@[b],
                    ) by {
                        if a < old_results.len() {
                            assert(self.results@[a] == old_results[a]);
                        }
                        if b < old_results.len() {
                            assert(self.results@[b] == old_results[b]);
                        }
                    }
                }
            },
        }
        proof {
            assert forall|kk: (usize, TypeId)|
                #[trigger] self.pass_map@.contains_key(kk) implies exists|j: int|
                    0 <= j < self.passes@.len() && pass_key(#[trigger] self.passes@[j]) == kk by {
                let j = choose|j: int| 0 <= j < old_passes.len() && pass_key(#[trigger] old_passes[j]) == kk;
                assert(self.passes@[j] == old_passes[j]);
            }
        }
    }

    /// Drop every analysis registered with `manager` and every result
    /// cached for it; what belongs to other managers stays.
    fn clear_manager(&mut self, manager: usize)
        requires
            old(self).wf(),
        ensures
            final(self).wf(),
            final(self).passes_view() == without_manager_passes(old(self).passes_view(), manager),
            final(self).results_view() == without_manager_results(old(self).results_view(), manager),
    {
        let ghost old_pass_map = self.pass_map@;
        let ghost old_result_map = self.result_map@;
        let mut i: usize = 0;
        while i < self.passes.len()
            invariant
                self.wf(),
                i <= self.passes@.len(),
                self.result_map@ == old_result_map,
                forall|j: int| 0 <= j < i ==> (#[trigger] self.passes@[j]).0 != manager,
                forall|k: (usize, TypeId)|
                    #[trigger] self.pass_map@.contains_key(k) ==> old_pass_map.contains_key(k)
                        && self.pass_map@[k] == old_pass_map[k],
                forall|k: (usize, TypeId)|
                    old_pass_map.contains_key(k) && k.0 != manager
                        ==> #[trigger] self.pass_map@.contains_key(k),
            decreases self.passes@.len() - i,
        {
            if self.passes[i].0 == manager {
                let ghost before = self.passes@;
                let ghost before_map = self.pass_map@;
                let ghost k = pass_key(before[i as int]);
                let ghost n = before.len() as int;
                let _removed = self.passes.swap_remove(i);
                proof {
                    self.pass_map@ = before_map.remove(k);
                    assert forall|j: int| 0 <= j < self.passes@.len() implies {
                        &&& self.pass_map@.contains_key(pass_key(#[trigger] self.passes@[j]))
                        &&& self.pass_map@[pass_key(self.passes@[j])] == self.passes@[j].2
                    } by {
                        let src = if j == i { n - 1 } else { j };
                        assert(self.passes@[j] == before[src]);
                        assert(pass_key(before[src]) != pass_key(before[i as int]));
                    }
                    assert forall|kk: (usize, TypeId)|
                        #[trigger] self.pass_map@.contains_key(kk) implies exists|j: int|
                            0 <= j < self.passes@.len() && pass_key(#[trigger] self.passes@[j]) == kk by {
                        let src = choose|src: int| 0 <= src < n && pass_key(#[trigger] before[src]) == kk;
                        assert(src != i);
                        if src == n - 1 {
                            assert(self.passes@[i as int] == before[src]);
                        } else {
                            assert(self.passes@[src] == before[src]);
                        }
                    }
                    assert forall|a: int, b: int|
                        0 <= a < self.passes@.len() && 0 <= b < self.passes@.len() && a != b
                            implies pass_key(#[trigger] self.passes@[a]) != pass_key(
                        #[trigger] self.passes@[b],
                    ) by {
                        let sa = if a == i { n - 1 } else { a };
                        let sb = if b == i { n - 1 } else { b };
                        assert(self.passes@[a] == before[sa]);
                        assert(self.passes@[b] == before[sb]);
                    }
                    assert forall|j: int| 0 <= j < i implies (#[trigger] self.passes@[j]).0 != manager by {
                        assert(self.passes@[j] == before[j]);
                    }
                    assert forall|kk: (usize, TypeId, usize)|
                        #[trigger] self.result_map@.contains_key(kk) implies exists|j: int|
                            0 <= j < self.results@.len() && result_key(#[trigger] self.results@[j]) == kk by {
                        let j = choose|j: int| 0 <= j < self.results@.len() && result_key(#[trigger] self.results@[j]) == kk;
                    }
                }
            } else {
                i = i + 1;
            }
        }
        proof {
            assert forall|k: (usize, TypeId)| #[trigger] self.pass_map@.contains_key(k) implies k.0 != manager by {
                let j = choose|j: int| 0 <= j < self.passes@.len() && pass_key(#[trigger] self.passes@[j]) == k;
                assert(self.passes@[j].0 != manager);
            }
            assert(self.pass_map@ =~= without_manager_passes(old_pass_map, manager));
        }
        let mut i: usize = 0;
        let ghost final_pass_map = self.pass_map@;
        while i < self.results.len()
            invariant
                self.wf(),
                i <= self.results@.len(),
                self.pass_map@ == final_pass_map,
                forall|j: int| 0 <= j < i ==> (#[trigger] self.results@[j]).0 != manager,
                forall|k: (usize, TypeId, usize)|
                    #[trigger] self.result_map@.contains_key(k) ==> old_result_map.contains_key(k)
                        && self.result_map@[k] == old_result_map[k],
                forall|k: (usize, TypeId, usize)|
                    old_result_map.contains_key(k) && k.0 != manager
                        ==> #[trigger] self.result_map@.contains_key(k),
            decreases self.results@.len() - i,
        {
            if self.results[i].0 == manager {
                let ghost before = self.results@;
                let ghost before_map = self.result_map@;
                let ghost k = result_key(before[i as int]);
                let ghost n = before.len() as int;
                let _removed = self.results.swap_remove(i);
                proof {
                    self.result_map@ = before_map.remove(k);
                    assert forall|j: int| 0 <= j < self.results@.len() implies {
                        &&& self.result_map@.contains_key(result_key(#[trigger] self.results@[j]))
                        &&& self.result_map@[result_key(self.results@[j])] == self.results@[j].3
                    } by {
                        let src = if j == i { n - 1 } else { j };
                        assert(self.results@[j] == before[src]);
                        assert(result_key(before[src]) != result_key(before[i as int]));
                    }
                    assert forall|kk: (usize, TypeId, usize)|
                        #[trigger] self.result_map@.contains_key(kk) implies exists|j: int|
                            0 <= j < self.results@.len() && result_key(#[trigger] self.results@[j]) == kk by {
                        let src = choose|src: int| 0 <= src < n && result_key(#[trigger] before[src]) == kk;
                        assert(src != i);
                        if src == n - 1 {
                            assert(self.results@[i as int] == before[src]);
                        } else {
                            assert(self.results@[src] == before[src]);
                        }
                    }
                    assert forall|a: int, b: int|
                        0 <= a < self.results@.len() && 0 <= b < self.results@.len() && a != b
                            implies result_key(#[trigger] self.results@[a]) != result_key(
                        #[trigger] self.results@[b],
                    ) by {
                        let sa = if a == i { n - 1 } else { a };
                        let sb = if b == i { n - 1 } else { b };
                        assert(self.results@[a] == before[sa]);
                        assert(self.results@[b] == before[sb]);
                    }
                    assert forall|j: int| 0 <= j < i implies (#[trigger] self.results@[j]).0 != manager by {
                        assert(self.results@[j] == before[j]);
                    }
                    assert forall|kk: (usize, TypeId)|
                        #[trigger] self.pass_map@.contains_key(kk) implies exists|j: int|
                            0 <= j < self.passes@.len() && pass_key(#[trigger] self.passes@[j]) == kk by {
                        let j = choose|j: int| 0 <= j < self.passes@.len() && pass_key(#[trigger] self.passes@[j]) == kk;
                    }
                }
            } else {
                i = i + 1;
            }
        }
        proof {
            assert forall|k: (usize, TypeId, usize)| #[trigger] self.result_map@.contains_key(k) implies k.0 != manager by {
                let j = choose|j: int| 0 <= j < self.results@.len() && result_key(#[trigger] self.results@[j]) == k;
                assert(self.results@[j].0 != manager);
            }
            assert(self.result_map@ =~= without_manager_results(old_result_map, manager));
        }
    }

    /// How a request made by `from` for `analysis` on `unit` through
    /// `manager` is answered: a request of an analysis for its own result
    /// is refused; a cached result is served; a registered analysis is run;
    /// an analysis that is not registered cannot be answered.
    fn plan(&self, from: Option<TypeId>, manager: usize, analysis: &TypeId, unit: usize) -> (r: ResultPlan)
        requires
            self.wf(),
        ensures
            r == plan_of(self.passes_view(), self.results_view(), from, manager, *analysis, unit),
    {
        let own = match from {
            Some(f) => same_type_id(&f, analysis),
            None => false,
        };
        if own {
            ResultPlan::SelfRequest
        } else if self.find_result(manager, analysis, unit).is_some() {
            ResultPlan::Cached
        } else if self.find_pass(manager, analysis).is_some() {
            ResultPlan::Compute
        } else {
            ResultPlan::NotRegistered
        }
    }
}


/// Registered analysis passes (`E`) and cached results (`R`) of all
/// analysis managers of one kind.
pub struct AnalysisRegistry<E, R> {
    slots: Slots<E, R>,
}

impl<E, R> AnalysisRegistry<E, R> {
    /// The stored slots agree with the views, and no key is stored twice.
    #[verifier::type_invariant]
    spec fn wf(self) -> bool {
        self.slots.wf()
    }

    /// The registered analyses, by manager and analysis type.
    pub closed spec fn passes_view(self) -> Map<(usize, TypeId), E> {
        self.slots.passes_view()
    }

    /// The cached results, by manager, analysis type and unit.
    pub closed spec fn results_view(self) -> Map<(usize, TypeId, usize), R> {
        self.slots.results_view()
    }

    /// How a request made by `from` (the analysis that asks, if any) for
    /// `analysis` on `unit` through `manager` is answered.
    pub open spec fn spec_plan(
        self,
        from: Option<TypeId>,
        manager: usize,
        analysis: TypeId,
        unit: usize,
    ) -> ResultPlan {
        plan_of(self.passes_view(), self.results_view(), from, manager, analysis, unit)
    }

    /// An empty registry.
    pub fn new() -> (r: Self)
        ensures
            r.passes_view() == Map::<(usize, TypeId), E>::empty(),
            r.results_view() == Map::<(usize, TypeId, usize), R>::empty(),
    {
        AnalysisRegistry { slots: Slots::new() }
    }

    /// Whether `analysis` is registered with `manager`.
    pub fn is_registered(&self, manager: usize, analysis: &TypeId) -> (r: bool)
        ensures
            r == self.passes_view().contains_key((manager, *analysis)),
    {
        proof {
            use_type_invariant(self);
        }
        self.slots.is_registered(manager, analysis)
    }

    /// The analysis pass registered with `manager` for `analysis`, if any.
    pub fn registered(&self, manager: usize, analysis: &TypeId) -> (r: Option<&E>)
        ensures
            r is Some <==> self.passes_view().contains_key((manager, *analysis)),
            r matches Some(e) ==> *e == self.passes_view()[(manager, *analysis)],
    {
        proof {
            use_type_invariant(self);
        }
        self.slots.registered(manager, analysis)
    }

    /// The result cached for `analysis` on `unit` with `manager`, if any.
    pub fn cached(&self, manager: usize, analysis: &TypeId, unit: usize) -> (r: Option<&R>)
        ensures
            r is Some <==> self.results_view().contains_key((manager, *analysis, unit)),
            r matches Some(v) ==> *v == self.results_view()[(manager, *analysis, unit)],
    {
        proof {
            use_type_invariant(self);
        }
        self.slots.cached(manager, analysis, unit)
    }

    /// Register `entry` as the pass of `analysis` with `manager`. An
    /// analysis can be registered with a manager once.
    pub fn register(&mut self, manager: usize, analysis: TypeId, entry: E)
        requires
            !old(self).passes_view().contains_key((manager, analysis)),
        ensures
            final(self).passes_view() == old(self).passes_view().insert((manager, analysis), entry),
            final(self).results_view() == old(self).results_view(),
    {
        proof {
            use_type_invariant(&*self);
        }
        let mut slots = Slots::new();
        std::mem::swap(&mut slots, &mut self.slots);
        slots.register(manager, analysis, entry);
        self.slots = slots;
    }

    /// Store `result` as the result of `analysis` on `unit` with
    /// `manager`, in place of any result stored for them before.
    pub fn store_result(&mut self, manager: usize, analysis: TypeId, unit: usize, result: R)
        ensures
            final(self).results_view() == old(self).results_view().insert(
                (manager, analysis, unit),
                result,
            ),
            final(self).passes_view() == old(self).passes_view(),
    {
        proof {
            use_type_invariant(&*self);
        }
        let mut slots = Slots::new();
        std::mem::swap(&mut slots, &mut self.slots);
        slots.store_result(manager, analysis, unit, result);
        self.slots = slots;
    }

    /// Drop every analysis registered with `manager` and every result
    /// cached for it; what belongs to other managers stays.
    pub fn clear_manager(&mut self, manager: usize)
        ensures
            final(self).passes_view() == without_manager_passes(old(self).passes_view(), manager),
            final(self).results_view() == without_manager_results(old(self).results_view(), manager),
    {
        proof {
            use_type_invariant(&*self);
        }
        let mut slots = Slots::new();
        std::mem::swap(&mut slots, &mut self.slots);
        slots.clear_manager(manager);
        self.slots = slots;
    }

    /// How a request made by `from` for `analysis` on `unit` through
    /// `manager` is answered: a request of an analysis for its own result
    /// is refused; a cached result is served; a registered analysis is run;
    /// an analysis that is not registered cannot be answered.
    pub fn plan(&self, from: Option<TypeId>, manager: usize, analysis: &TypeId, unit: usize) -> (r: ResultPlan)
        ensures
            r == self.spec_plan(from, manager, *analysis, unit),
    {
        proof {
            use_type_invariant(self);
        }
        self.slots.plan(from, manager, analysis, unit)
    }
}

} // verus!

verus! {

/// Once a result is stored for an analysis on a unit with a manager, a
/// request for it that does not come from the analysis itself is answered
/// from the cache, with that result; the answer to every other request is
/// what it was before.
pub proof fn law_stored_result_is_served<E, R>(
    before: AnalysisRegistry<E, R>,
    after: AnalysisRegistry<E, R>,
    manager: usize,
    analysis: TypeId,
    unit: usize,
    result: R,
)
    requires
        after.results_view() == before.results_view().insert((manager, analysis, unit), result),
        after.passes_view() == before.passes_view(),
    ensures
        forall|from: Option<TypeId>|
            from != Some(analysis) ==> after.spec_plan(from, manager, analysis, unit)
                == ResultPlan::Cached,
        after.results_view()[(manager, analysis, unit)] == result,
        forall|from: Option<TypeId>, m: usize, a: TypeId, u: usize|
            (m, a, u) != (manager, analysis, unit) ==> #[trigger] after.spec_plan(from, m, a, u)
                == before.spec_plan(from, m, a, u),
{
}

/// After an analysis is registered with a manager, a request for it on a
/// unit with no cached result runs it (unless the analysis asks for its
/// own result), and requests for every other analysis, however it is
/// identified, are answered as before: requests are told apart by the
/// type of the analysis.
pub proof fn law_registered_analysis_is_computed<E, R>(
    before: AnalysisRegistry<E, R>,
    after: AnalysisRegistry<E, R>,
    manager: usize,
    analysis: TypeId,
    entry: E,
)
    requires
        after.passes_view() == before.passes_view().insert((manager, analysis), entry),
        after.results_view() == before.results_view(),
    ensures
        after.passes_view().contains_key((manager, analysis)),
        forall|from: Option<TypeId>, unit: usize|
            from != Some(analysis) && !before.results_view().contains_key(
                (manager, analysis, unit),
            ) ==> #[trigger] after.spec_plan(from, manager, analysis, unit) == ResultPlan::Compute,
        forall|from: Option<TypeId>, m: usize, a: TypeId, u: usize|
            (m, a) != (manager, analysis) ==> #[trigger] after.spec_plan(from, m, a, u)
                == before.spec_plan(from, m, a, u),
{
}

/// An analysis never receives its own result, whatever is registered or
/// cached.
pub proof fn law_self_request_is_refused<E, R>(
    registry: AnalysisRegistry<E, R>,
    manager: usize,
    analysis: TypeId,
    unit: usize,
)
    ensures
        registry.spec_plan(Some(analysis), manager, analysis, unit) == ResultPlan::SelfRequest,
{
}

/// After a manager is cleared, no request through it finds a registered
/// analysis or a cached result, and requests through other managers are
/// answered as before.
pub proof fn law_cleared_manager_forgets<E, R>(
    before: AnalysisRegistry<E, R>,
    after: AnalysisRegistry<E, R>,
    manager: usize,
)
    requires
        after.passes_view() == without_manager_passes(before.passes_view(), manager),
        after.results_view() == without_manager_results(before.results_view(), manager),
    ensures
        forall|from: Option<TypeId>, a: TypeId, u: usize|
            from != Some(a) ==> #[trigger] after.spec_plan(from, manager, a, u)
                == ResultPlan::NotRegistered,
        forall|from: Option<TypeId>, m: usize, a: TypeId, u: usize|
            m != manager ==> #[trigger] after.spec_plan(from, m, a, u) == before.spec_plan(
                from,
                m,
                a,
                u,
            ),
{
}

} // verus!
