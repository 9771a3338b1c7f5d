//! The run registry: the process-wide table of live runs.
//!
//! Each entry maps a key — a caller-chosen logical slot or a run's own
//! identity — to the one live runner occupying it. Registering a run under an
//! occupied key issues a kill request against the previous occupant before
//! returning it, so at most one accepted run is live per key at any time.
//! Polling, killing and settling all address a run through its key and leave
//! every other entry untouched.

use vstd::prelude::*;

use crate::output::{PollOutput, BATCH_CAP};
use crate::runner::{RunId, Runner};
use crate::status::{done_of, success_of, InvariantViolation};
use crate::task::{settle_transition, TaskEvent};

verus! {

/// A registry key: a caller-supplied logical slot (for example, a grid cell)
/// or a run's own generated identity.
#[derive(Debug, Clone, Copy, PartialEq, Eq, Structural)]
pub enum RunKey {
    Slot(u64),
    Id(RunId),
}

/// The mapping an entry sequence denotes: later entries win, though the
/// registry keeps its keys distinct so each key has one entry.
pub(crate) open spec fn entries_map(s: Seq<(RunKey, Runner)>) -> Map<RunKey, Runner>
    decreases s.len(),
{
    if s.len() == 0 {
        Map::empty()
    } else {
        entries_map(s.drop_last()).insert(s.last().0, s.last().1)
    }
}

/// No two entries share a key.
pub(crate) open spec fn distinct_keys(s: Seq<(RunKey, Runner)>) -> bool {
    forall|i: int, j: int|
        0 <= i < j < s.len() ==> (#[trigger] s[i]).0 != (#[trigger] s[j]).0
}

/// A key is in the denoted map exactly when some entry carries it.
proof fn lemma_entries_map_key(s: Seq<(RunKey, Runner)>, k: RunKey)
    ensures
        entries_map(s).contains_key(k) <==> exists|i: int|
            0 <= i < s.len() && (#[trigger] s[i]).0 == k,
    decreases s.len(),
{
    if s.len() > 0 {
        lemma_entries_map_key(s.drop_last(), k);
        if s.last().0 == k {
            assert(s[s.len() - 1].0 == k);
        } else {
            if exists|i: int| 0 <= i < s.len() && (#[trigger] s[i]).0 == k {
                let i = choose|i: int| 0 <= i < s.len() && (#[trigger] s[i]).0 == k;
                assert(s.drop_last()[i].0 == k);
            }
        }
    }
}

/// With distinct keys, the entry at `i` is what the denoted map holds for its
/// key.
proof fn lemma_entries_map_index(s: Seq<(RunKey, Runner)>, i: int)
    requires
        distinct_keys(s),
        0 <= i < s.len(),
    ensures
        entries_map(s).contains_key(s[i].0),
        entries_map(s)[s[i].0] == s[i].1,
    decreases s.len(),
{
    if i < s.len() - 1 {
        assert(distinct_keys(s.drop_last()));
        lemma_entries_map_index(s.drop_last(), i);
        assert(s.drop_last()[i] == s[i]);
    }
}

/// With distinct keys, removing the entry at `i` removes exactly its key from
/// the denoted map, and keeps the keys distinct.
proof fn lemma_entries_map_remove(s: Seq<(RunKey, Runner)>, i: int)
    requires
        distinct_keys(s),
        0 <= i < s.len(),
    ensures
        distinct_keys(s.remove(i)),
        entries_map(s.remove(i)) == entries_map(s).remove(s[i].0),
    decreases s.len(),
{
    let k = s[i].0;
    assert forall|a: int, b: int| 0 <= a < b < s.remove(i).len() implies (#[trigger] s.remove(
        i,
    )[a]).0 != (#[trigger] s.remove(i)[b]).0 by {
        let a0 = if a < i {
            a
        } else {
            a + 1
        };
        let b0 = if b < i {
            b
        } else {
            b + 1
        };
        assert(s.remove(i)[a] == s[a0] && s.remove(i)[b] == s[b0]);
    }
    if i == s.len() - 1 {
        assert(s.remove(i) =~= s.drop_last());
        lemma_entries_map_key(s.drop_last(), k);
        assert(forall|j: int|
            0 <= j < s.drop_last().len() ==> (#[trigger] s.drop_last()[j]).0 != k);
        assert(!entries_map(s.drop_last()).contains_key(k));
        assert(entries_map(s).remove(k) =~= entries_map(s.drop_last()));
    } else {
        assert(s.remove(i).drop_last() =~= s.drop_last().remove(i));
        assert(distinct_keys(s.drop_last()));
        lemma_entries_map_remove(s.drop_last(), i);
        let last = s.last();
        assert(s.remove(i).last() == last);
        assert(entries_map(s.remove(i)) == entries_map(s.drop_last()).remove(k).insert(
            last.0,
            last.1,
        ));
        assert(last.0 != k);
        assert(entries_map(s.drop_last()).remove(k).insert(last.0, last.1) =~= entries_map(
            s.drop_last(),
        ).insert(last.0, last.1).remove(k));
    }
}

/// Appending an entry inserts its key into the denoted map.
proof fn lemma_entries_map_push(s: Seq<(RunKey, Runner)>, k: RunKey, v: Runner)
    ensures
        entries_map(s.push((k, v))) == entries_map(s).insert(k, v),
{
    assert(s.push((k, v)).drop_last() =~= s);
    assert(s.push((k, v)).last() == (k, v));
}

/// The process-wide table of live runs. See the module description.
#[derive(Debug)]
pub struct RunRegistry {
    entries: Vec<(RunKey, Runner)>,
}

impl View for RunRegistry {
    type V = Map<RunKey, Runner>;

    closed spec fn view(&self) -> Map<RunKey, Runner> {
        entries_map(self.entries@)
    }
}

impl RunRegistry {
    /// The registry's invariant: one entry per key.
    pub closed spec fn wf(&self) -> bool {
        distinct_keys(self.entries@)
    }

    /// An empty registry.
    pub fn new() -> (r: RunRegistry)
        ensures
            r.wf(),
            r@ == Map::<RunKey, Runner>::empty(),
    {
        RunRegistry { entries: Vec::new() }
    }

    /// The index of the entry holding `key`, if any.
    fn find(&self, key: RunKey) -> (r: Option<usize>)
        ensures
            match r {
                Some(i) => i < self.entries@.len() && self.entries@[i as int].0 == key,
                None => forall|j: int|
                    0 <= j < self.entries@.len() ==> (#[trigger] self.entries@[j]).0 != key,
            },
    {
        let n = self.entries.len();
        let mut i: usize = 0;
        while i < n
            invariant
                i <= n,
                n == self.entries@.len(),
                forall|j: int| 0 <= j < i ==> (#[trigger] self.entries@[j]).0 != key,
            decreases n - i,
        {
            if self.entries[i].0 == key {
                return Some(i);
            }
            i = i + 1;
        }
        None
    }

    /// Whether a run is registered under `key`.
    pub fn contains(&self, key: RunKey) -> (r: bool)
        ensures
            r == self@.contains_key(key),
    {
        proof {
            lemma_entries_map_key(self.entries@, key);
        }
        self.find(key).is_some()
    }

    /// The completion flag of the run under `key`: `None` when no run holds
    /// the key. This is what a forwarding loop consults before stopping on a
    /// zero-length read.
    pub fn run_done(&self, key: RunKey) -> (r: Option<bool>)
        requires
            self.wf(),
        ensures
            r is Some <==> self@.contains_key(key),
            r matches Some(d) ==> d == done_of(self@[key].spec_status()),
    {
        proof {
            lemma_entries_map_key(self.entries@, key);
        }
        match self.find(key) {
            None => None,
            Some(i) => {
                proof {
                    lemma_entries_map_index(self.entries@, i as int);
                }
                Some(self.entries[i].1.is_done())
            },
        }
    }

    /// The identity of the run under `key`: `None` when no run holds the
    /// key. A supervising loop uses this to make sure the run it observed is
    /// still the slot's occupant before settling it.
    pub fn run_id(&self, key: RunKey) -> (r: Option<RunId>)
        requires
            self.wf(),
        ensures
            r is Some <==> self@.contains_key(key),
            r matches Some(id) ==> id == self@[key].spec_id(),
    {
        proof {
            lemma_entries_map_key(self.entries@, key);
        }
        match self.find(key) {
            None => None,
            Some(i) => {
                proof {
                    lemma_entries_map_index(self.entries@, i as int);
                }
                Some(self.entries[i].1.id())
            },
        }
    }

    /// Register a runner under `key`. If a previous runner occupied the key,
    /// a kill request is issued against it before this call returns, and it
    /// is handed back with its recorded status untouched; its termination is
    /// not awaited. This is what enforces at most one live run per slot: a
    /// new run is accepted, and the old occupant has received a kill request,
    /// by the time the new key mapping is visible.
    pub fn register(&mut self, key: RunKey, runner: Runner) -> (prev: Option<Runner>)
        requires
            old(self).wf(),
        ensures
            final(self).wf(),
            final(self)@ == old(self)@.insert(key, runner),
            prev is Some <==> old(self)@.contains_key(key),
            prev matches Some(p) ==> (p.spec_id() == old(self)@[key].spec_id() && p.spec_task()
                == old(self)@[key].spec_task() && p.spec_status() == old(
                self,
            )@[key].spec_status() && p.spec_kill_requested()),
    {
        proof {
            lemma_entries_map_key(self.entries@, key);
        }
        let found = self.find(key);
        let prev = match found {
            Some(i) => {
                proof {
                    lemma_entries_map_index(self.entries@, i as int);
                    lemma_entries_map_remove(self.entries@, i as int);
                }
                let (_, mut p) = self.entries.remove(i);
                p.kill();
                Some(p)
            },
            None => None,
        };
        proof {
            lemma_entries_map_key(self.entries@, key);
            lemma_entries_map_push(self.entries@, key, runner);
            assert(entries_map(self.entries@).remove(key).insert(key, runner) =~= entries_map(
                self.entries@,
            ).insert(key, runner));
        }
        self.entries.push((key, runner));
        prev
    }

    /// Drain one bounded batch of buffered output from the run under `key`,
    /// with its current completion flags; `None` when no run holds the key.
    /// Every other entry, and the addressed run's status, identity and kill
    /// flag, are untouched.
    pub fn poll_run(&mut self, key: RunKey) -> (r: Option<PollOutput>)
        requires
            old(self).wf(),
        ensures
            final(self).wf(),
            r is Some <==> old(self)@.contains_key(key),
            r is None ==> final(self)@ == old(self)@,
            r matches Some(out) ==> {
                &&& final(self)@.dom() == old(self)@.dom()
                &&& forall|k2: RunKey|
                    k2 != key && old(self)@.contains_key(k2) ==> final(self)@[k2] == old(
                        self,
                    )@[k2]
                &&& out.data@.len() <= BATCH_CAP as nat
                &&& out.end == done_of(old(self)@[key].spec_status())
                &&& out.success == success_of(old(self)@[key].spec_status())
                &&& final(self)@[key].spec_id() == old(self)@[key].spec_id()
                &&& final(self)@[key].spec_task() == old(self)@[key].spec_task()
                &&& final(self)@[key].spec_kill_requested() == old(self)@[key].spec_kill_requested()
            },
    {
        proof {
            lemma_entries_map_key(self.entries@, key);
        }
        match self.find(key) {
            None => None,
            Some(i) => {
                proof {
                    lemma_entries_map_index(self.entries@, i as int);
                    lemma_entries_map_remove(self.entries@, i as int);
                }
                let (_, mut runner) = self.entries.remove(i);
                let out = runner.poll();
                proof {
                    lemma_entries_map_key(self.entries@, key);
                    lemma_entries_map_push(self.entries@, key, runner);
                    assert(entries_map(self.entries@).remove(key).insert(key, runner)
                        =~= entries_map(self.entries@).insert(key, runner));
                }
                self.entries.push((key, runner));
                proof {
                    assert(entries_map(self.entries@).dom() =~= old(self)@.dom());
                }
                Some(out)
            },
        }
    }

    /// Issue a kill request against the run under `key`; reports whether such
    /// a run exists. Safe at any time: the run's recorded status is never
    /// altered, so killing an already completed run changes nothing but the
    /// kill flag.
    pub fn kill_run(&mut self, key: RunKey) -> (r: bool)
        requires
            old(self).wf(),
        ensures
            final(self).wf(),
            r == old(self)@.contains_key(key),
            !r ==> final(self)@ == old(self)@,
            r ==> {
                &&& final(self)@.dom() == old(self)@.dom()
                &&& forall|k2: RunKey|
                    k2 != key && old(self)@.contains_key(k2) ==> final(self)@[k2] == old(
                        self,
                    )@[k2]
                &&& final(self)@[key].spec_status() == old(self)@[key].spec_status()
                &&& final(self)@[key].spec_task() == old(self)@[key].spec_task()
                &&& final(self)@[key].spec_id() == old(self)@[key].spec_id()
                &&& final(self)@[key].spec_kill_requested()
            },
    {
        proof {
            lemma_entries_map_key(self.entries@, key);
        }
        match self.find(key) {
            None => false,
            Some(i) => {
                proof {
                    lemma_entries_map_index(self.entries@, i as int);
                    lemma_entries_map_remove(self.entries@, i as int);
                }
                let (_, mut runner) = self.entries.remove(i);
                runner.kill();
                proof {
                    lemma_entries_map_key(self.entries@, key);
                    lemma_entries_map_push(self.entries@, key, runner);
                    assert(entries_map(self.entries@).remove(key).insert(key, runner)
                        =~= entries_map(self.entries@).insert(key, runner));
                }
                self.entries.push((key, runner));
                proof {
                    assert(entries_map(self.entries@).dom() =~= old(self)@.dom());
                }
                true
            },
        }
    }

    /// Apply an outcome event to the run under `key`; `None` when no run
    /// holds the key, otherwise the settling verdict (see
    /// [`crate::task::Task::settle`]). Every other entry is untouched.
    pub fn settle_run(&mut self, key: RunKey, event: TaskEvent) -> (r: Option<
        Result<(), InvariantViolation>,
    >)
        requires
            old(self).wf(),
        ensures
            final(self).wf(),
            r is Some <==> old(self)@.contains_key(key),
            r is None ==> final(self)@ == old(self)@,
            r matches Some(verdict) ==> {
                &&& final(self)@.dom() == old(self)@.dom()
                &&& forall|k2: RunKey|
                    k2 != key && old(self)@.contains_key(k2) ==> final(self)@[k2] == old(
                        self,
                    )@[k2]
                &&& final(self)@[key].spec_id() == old(self)@[key].spec_id()
                &&& final(self)@[key].spec_kill_requested() == old(
                    self,
                )@[key].spec_kill_requested()
                &&& settle_transition(
                    old(self)@[key].spec_task(),
                    event,
                    final(self)@[key].spec_task(),
                    verdict is Ok,
                )
            },
    {
        proof {
            lemma_entries_map_key(self.entries@, key);
        }
        match self.find(key) {
            None => None,
            Some(i) => {
                proof {
                    lemma_entries_map_index(self.entries@, i as int);
                    lemma_entries_map_remove(self.entries@, i as int);
                }
                let (_, mut runner) = self.entries.remove(i);
                let verdict = runner.settle(event);
                proof {
                    lemma_entries_map_key(self.entries@, key);
                    lemma_entries_map_push(self.entries@, key, runner);
                    assert(entries_map(self.entries@).remove(key).insert(key, runner)
                        =~= entries_map(self.entries@).insert(key, runner));
                }
                self.entries.push((key, runner));
                proof {
                    assert(entries_map(self.entries@).dom() =~= old(self)@.dom());
                }
                Some(verdict)
            },
        }
    }
}

} // verus!
