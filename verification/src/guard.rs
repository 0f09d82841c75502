//! The inference guard: recursion detection for inference that
//! descends into a named type's own definition. A guard holds the
//! ids visited on the current branch plus a chain of ancestor
//! frames; a fork opens a fresh branch that still sees every
//! ancestor's visits, so sibling branches cannot poison each other
//! while genuine cycles are still caught.

use vstd::prelude::*;

use crate::types::{InferFailReason, LuaTypeDeclId};

verus! {

/// Whether a frame holds the key `k`.
pub open spec fn frame_has_key(frame: Seq<String>, k: Seq<char>) -> bool {
    exists|i: int| 0 <= i < frame.len() && (#[trigger] frame[i])@ == k
}

/// Guard against unbounded recursion on self-referential or
/// mutually-recursive type graphs. `parents` holds the ancestor
/// frames, oldest first; `current` is this branch's own frame.
/// Ids are recorded by their key, the declared name.
pub struct InferGuard {
    pub parents: Vec<Vec<String>>,
    pub current: Vec<String>,
}

impl InferGuard {
    /// Whether `k` was visited on this branch itself.
    pub open spec fn local_has(&self, k: Seq<char>) -> bool {
        frame_has_key(self.current@, k)
    }

    /// Whether `k` was visited by any ancestor of this branch.
    pub open spec fn ancestors_have(&self, k: Seq<char>) -> bool {
        exists|p: int| 0 <= p < self.parents@.len() && frame_has_key((#[trigger] self.parents@[p])@, k)
    }

    /// Whether `k` counts as already visited for cycle detection.
    pub open spec fn spec_contains(&self, k: Seq<char>) -> bool {
        self.local_has(k) || self.ancestors_have(k)
    }

    /// A fresh root guard: nothing visited. One is created per
    /// top-level inference request.
    pub fn new() -> (r: InferGuard)
        ensures
            r.parents@.len() == 0,
            r.current@.len() == 0,
            forall|k: Seq<char>| !r.spec_contains(k),
    {
        InferGuard { parents: Vec::new(), current: Vec::new() }
    }

    /// If `type_id` was already visited on this branch or by any
    /// ancestor, fail with `RecursiveInfer` and leave the guard
    /// untouched; otherwise record it in this branch's frame.
    pub fn check(&mut self, type_id: &LuaTypeDeclId) -> (r: Result<(), InferFailReason>)
        ensures
            old(self).spec_contains(type_id.key()) ==> {
                &&& r matches Err(e) && e == InferFailReason::RecursiveInfer
                &&& *final(self) == *old(self)
            },
            !old(self).spec_contains(type_id.key()) ==> {
                &&& r is Ok
                &&& final(self).parents@ == old(self).parents@
                &&& final(self).spec_contains(type_id.key())
                &&& forall|k: Seq<char>|
                    #[trigger] final(self).spec_contains(k) <==> (old(self).spec_contains(k) || k
                        == type_id.key())
            },
    {
        if self.contains(type_id) {
            return Err(InferFailReason::RecursiveInfer);
        }
        let name = type_id.name.clone();
        proof {
            assert(name@ == type_id.key());
        }
        self.current.push(name);
        proof {
            let key = type_id.key();
            assert(self.current@ == old(self).current@.push(name));
            assert(self.current@[old(self).current@.len() as int]@ == key);
            assert(self.local_has(key));
            assert forall|k: Seq<char>|
                #[trigger] self.spec_contains(k) <==> (old(self).spec_contains(k) || k
                    == key) by {
                if self.local_has(k) {
                    let i = choose|i: int| 0 <= i < self.current@.len() && (#[trigger] self.current@[i])@ == k;
                    if i < old(self).current@.len() {
                        assert(old(self).current@[i]@ == k);
                        assert(old(self).local_has(k));
                    } else {
                        assert(k == key);
                    }
                }
                if old(self).local_has(k) {
                    let i = choose|i: int| 0 <= i < old(self).current@.len() && (#[trigger] old(self).current@[i])@ == k;
                    assert(self.current@[i]@ == k);
                    assert(self.local_has(k));
                }
            }
        }
        Ok(())
    }

    /// The same lookup as `check`, without recording anything.
    pub fn contains(&self, type_id: &LuaTypeDeclId) -> (r: bool)
        ensures
            r == self.spec_contains(type_id.key()),
    {
        if frame_contains(&self.current, &type_id.name) {
            return true;
        }
        let np = self.parents.len();
        let mut p: usize = 0;
        while p < np
            invariant
                np == self.parents@.len(),
                0 <= p <= np,
                forall|q: int| 0 <= q < p ==> !frame_has_key((#[trigger] self.parents@[q])@, type_id.key()),
            decreases np - p,
        {
            if frame_contains(&self.parents[p], &type_id.name) {
                return true;
            }
            p = p + 1;
        }
        false
    }

    /// A child guard for a sibling inference branch: an empty local
    /// frame whose ancestors are everything this guard has seen, so
    /// it answers `contains` exactly as this guard does.
    pub fn fork(&self) -> (r: InferGuard)
        ensures
            r.current@.len() == 0,
            forall|k: Seq<char>| #[trigger] r.spec_contains(k) <==> self.spec_contains(k),
    {
        let mut parents2 = self.parents.clone();
        let cur2 = self.current.clone();
        proof {
            assert(parents2@.len() == self.parents@.len());
            assert forall|q: int| 0 <= q < parents2@.len() implies (#[trigger] parents2@[q])@
                =~= self.parents@[q]@ by {
                lemma_string_vec_clone(self.parents@[q], parents2@[q]);
            }
            lemma_frames_same_keys(parents2@, self.parents@);
            assert(cur2@ =~= self.current@) by {
                lemma_string_vec_clone(self.current, cur2);
            }
        }
        parents2.push(cur2);
        let r = InferGuard { parents: parents2, current: Vec::new() };
        proof {
            assert forall|k: Seq<char>| #[trigger] r.spec_contains(k) <==> self.spec_contains(
                k,
            ) by {
                let np = self.parents@.len() as int;
                assert(r.parents@.len() == np + 1);
                if r.spec_contains(k) {
                    let p = choose|p: int| 0 <= p < r.parents@.len() && frame_has_key(
                        (#[trigger] r.parents@[p])@,
                        k,
                    );
                    if p < np {
                        assert(r.parents@[p]@ == self.parents@[p]@);
                        assert(frame_has_key(self.parents@[p]@, k));
                        assert(self.ancestors_have(k));
                    } else {
                        assert(r.parents@[np]@ == self.current@);
                        assert(self.local_has(k));
                    }
                }
                if self.spec_contains(k) {
                    if self.local_has(k) {
                        assert(r.parents@[np]@ == self.current@);
                        assert(frame_has_key(r.parents@[np]@, k));
                        assert(r.ancestors_have(k));
                    } else {
                        let p = choose|p: int| 0 <= p < self.parents@.len() && frame_has_key(
                            (#[trigger] self.parents@[p])@,
                            k,
                        );
                        assert(r.parents@[p]@ == self.parents@[p]@);
                        assert(frame_has_key(r.parents@[p]@, k));
                        assert(r.ancestors_have(k));
                    }
                }
            }
        }
        r
    }

    /// A child guard that shares only this guard's ancestors, not its
    /// own frame: for re-running a branch from the same starting
    /// point.
    pub fn fork_owned(&self) -> (r: InferGuard)
        ensures
            r.current@.len() == 0,
            forall|k: Seq<char>| #[trigger] r.spec_contains(k) <==> self.ancestors_have(k),
    {
        let parents2 = self.parents.clone();
        proof {
            assert forall|q: int| 0 <= q < parents2@.len() implies (#[trigger] parents2@[q])@
                =~= self.parents@[q]@ by {
                lemma_string_vec_clone(self.parents@[q], parents2@[q]);
            }
            lemma_frames_same_keys(parents2@, self.parents@);
        }
        let r = InferGuard { parents: parents2, current: Vec::new() };
        proof {
            assert forall|k: Seq<char>| #[trigger] r.spec_contains(k) <==> self.ancestors_have(
                k,
            ) by {
                if r.spec_contains(k) {
                    let p = choose|p: int| 0 <= p < r.parents@.len() && frame_has_key(
                        (#[trigger] r.parents@[p])@,
                        k,
                    );
                    assert(frame_has_key(self.parents@[p]@, k));
                }
                if self.ancestors_have(k) {
                    let p = choose|p: int| 0 <= p < self.parents@.len() && frame_has_key(
                        (#[trigger] self.parents@[p])@,
                        k,
                    );
                    assert(frame_has_key(r.parents@[p]@, k));
                }
            }
        }
        r
    }

    /// Number of ids recorded on this branch itself.
    pub fn current_depth(&self) -> (r: usize)
        ensures
            r == self.current@.len(),
    {
        self.current.len()
    }

    /// Total number of recorded ids over this branch and all
    /// ancestors; a diagnostic aid for runaway recursion, not used
    /// for correctness.
    pub fn total_depth(&self) -> (r: usize)
        requires
            self.current@.len() + spec_frames_total(self.parents@) <= usize::MAX,
        ensures
            r == self.current@.len() + spec_frames_total(self.parents@),
    {
        let mut depth = self.current.len();
        let np = self.parents.len();
        let mut p: usize = 0;
        while p < np
            invariant
                np == self.parents@.len(),
                0 <= p <= np,
                self.current@.len() + spec_frames_total(self.parents@) <= usize::MAX,
                depth == self.current@.len() + spec_frames_total(self.parents@.take(p as int)),
            decreases np - p,
        {
            proof {
                lemma_frames_total_take(self.parents@, p as int);
                lemma_frames_total_prefix_bound(self.parents@, p + 1);
            }
            depth = depth + self.parents[p].len();
            p = p + 1;
        }
        proof {
            assert(self.parents@.take(np as int) =~= self.parents@);
        }
        depth
    }

    /// Number of ancestor frames above this branch.
    pub fn level(&self) -> (r: usize)
        ensures
            r == self.parents@.len(),
    {
        self.parents.len()
    }
}

/// Total number of ids recorded over a sequence of frames.
pub open spec fn spec_frames_total(frames: Seq<Vec<String>>) -> nat
    decreases frames.len(),
{
    if frames.len() == 0 {
        0
    } else {
        spec_frames_total(frames.drop_last()) + frames.last()@.len()
    }
}

proof fn lemma_frames_total_take(frames: Seq<Vec<String>>, p: int)
    requires
        0 <= p < frames.len(),
    ensures
        spec_frames_total(frames.take(p + 1)) == spec_frames_total(frames.take(p))
            + frames[p]@.len(),
{
    assert(frames.take(p + 1).drop_last() =~= frames.take(p));
    assert(frames.take(p + 1).last() == frames[p]);
}

/// A prefix never holds more than the whole.
proof fn lemma_frames_total_prefix_bound(frames: Seq<Vec<String>>, p: int)
    requires
        0 <= p <= frames.len(),
    ensures
        spec_frames_total(frames.take(p)) <= spec_frames_total(frames),
    decreases frames.len() - p,
{
    if p == frames.len() {
        assert(frames.take(p) =~= frames);
    } else {
        lemma_frames_total_take(frames, p);
        lemma_frames_total_prefix_bound(frames, p + 1);
    }
}

/// An element-wise clone of a frame keeps its character contents.
proof fn lemma_string_vec_clone(a: Vec<String>, b: Vec<String>)
    requires
        a@.len() == b@.len(),
        forall|i| #![all_triggers] 0 <= i < a@.len() ==> cloned::<String>(a@[i], b@[i]),
    ensures
        b@ =~= a@,
{
    assert forall|i: int| 0 <= i < a@.len() implies b@[i] == a@[i] by {
        assert(cloned::<String>(a@[i], b@[i]));
    }
}

/// Frames with equal contents hold the same keys.
proof fn lemma_frames_same_keys(a: Seq<Vec<String>>, b: Seq<Vec<String>>)
    requires
        a.len() == b.len(),
        forall|q: int| 0 <= q < a.len() ==> (#[trigger] a[q])@ == b[q]@,
    ensures
        forall|q: int, k: Seq<char>|
            0 <= q < a.len() ==> (#[trigger] frame_has_key(a[q]@, k)) == frame_has_key(b[q]@, k),
{
}

fn frame_contains(frame: &Vec<String>, name: &String) -> (r: bool)
    ensures
        r == frame_has_key(frame@, name@),
{
    let n = frame.len();
    let mut i: usize = 0;
    while i < n
        invariant
            n == frame@.len(),
            0 <= i <= n,
            forall|j: int| 0 <= j < i ==> (#[trigger] frame@[j])@ != name@,
        decreases n - i,
    {
        if frame[i] == *name {
            return true;
        }
        i = i + 1;
    }
    false
}

/// The state change a successful `check` makes, as its contract
/// states it: the id was new, and afterwards exactly it was added.
pub open spec fn check_success_transition(
    before: InferGuard,
    after: InferGuard,
    k: Seq<char>,
) -> bool {
    &&& !before.spec_contains(k)
    &&& forall|k2: Seq<char>|
        #[trigger] after.spec_contains(k2) <==> (before.spec_contains(k2) || k2 == k)
}

/// A visited id stays visited along any run of successful checks.
proof fn lemma_visits_monotone(
    states: Seq<InferGuard>,
    keys: Seq<Seq<char>>,
    i: int,
    j: int,
)
    requires
        states.len() == keys.len() + 1,
        forall|t: int|
            0 <= t < keys.len() ==> check_success_transition(
                states[t],
                states[t + 1],
                #[trigger] keys[t],
            ),
        0 <= i < keys.len(),
        i < j <= keys.len(),
    ensures
        states[j].spec_contains(keys[i]),
    decreases j - i,
{
    if j == i + 1 {
        assert(check_success_transition(states[i], states[i + 1], keys[i]));
    } else {
        lemma_visits_monotone(states, keys, i, j - 1);
        assert(check_success_transition(states[j - 1], states[j], keys[j - 1]));
    }
}

/// Recursion through a guard is bounded by the number of distinct
/// type ids: along any run of successful checks on one guard, the
/// checked ids are pairwise distinct, so no id is ever descended
/// into twice and a walk over a finite type graph ends.
pub proof fn lemma_successful_checks_distinct(states: Seq<InferGuard>, keys: Seq<Seq<char>>)
    requires
        states.len() == keys.len() + 1,
        forall|t: int|
            0 <= t < keys.len() ==> check_success_transition(
                states[t],
                states[t + 1],
                #[trigger] keys[t],
            ),
    ensures
        forall|i: int, j: int| 0 <= i < j < keys.len() ==> keys[i] != keys[j],
{
    assert forall|i: int, j: int| 0 <= i < j < keys.len() implies keys[i] != keys[j] by {
        lemma_visits_monotone(states, keys, i, j);
        assert(check_success_transition(states[j], states[j + 1], keys[j]));
        assert(!states[j].spec_contains(keys[j]));
    }
}

/// Fork isolation: a fork of a guard still sees every id the guard
/// has visited, while an unrelated fresh guard sees none of them.
pub proof fn lemma_fork_isolation(g: InferGuard, f: InferGuard, fresh: InferGuard, k: Seq<char>)
    requires
        forall|k2: Seq<char>| #[trigger] f.spec_contains(k2) <==> g.spec_contains(k2),
        fresh.parents@.len() == 0,
        fresh.current@.len() == 0,
        g.spec_contains(k),
    ensures
        f.spec_contains(k),
        !fresh.spec_contains(k),
{
}

} // verus!
