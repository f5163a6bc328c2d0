//! Process-tree discovery over a point-in-time snapshot of all OS
//! processes. The snapshot itself is plain data handed in by the caller;
//! scanning is a pure query.

use vstd::prelude::*;
use vstd::seq_lib::*;
use vstd::set_lib::lemma_len_subset;

verus! {

/// One process as seen in a snapshot: its id, its parent's id when known,
/// and its last-sampled resource figures. CPU usage is recorded in
/// hundredths of a percent of one core.
pub struct ProcessRecord {
    pub pid: u32,
    pub parent_pid: Option<u32>,
    pub cpu_centi_percent: u32,
    pub memory_bytes: u64,
}

/// A point-in-time snapshot of all OS processes, together with the number
/// of logical cores of the machine it was taken on.
pub struct ProcessSnapshot {
    pub processes: Vec<ProcessRecord>,
    pub cpu_count: usize,
}

/// Whether the snapshot holds a process with this id.
pub open spec fn spec_has_pid(procs: Seq<ProcessRecord>, pid: u32) -> bool {
    exists|k: int| 0 <= k < procs.len() && (#[trigger] procs[k]).pid == pid
}

/// A snapshot is well formed when no process id occurs twice.
pub open spec fn spec_snapshot_unique(procs: Seq<ProcessRecord>) -> bool {
    forall|i: int, j: int|
        0 <= i < j < procs.len() ==> (#[trigger] procs[i]).pid != (#[trigger] procs[j]).pid
}

/// A set of process ids is closed under the observed parent relation,
/// rooted at `root_pid`: every process whose parent is the root or a
/// member is itself a member.
pub open spec fn spec_tree_closed(procs: Seq<ProcessRecord>, root_pid: u32, s: Set<u32>) -> bool {
    forall|k: int|
        0 <= k < procs.len() ==> ((#[trigger] procs[k]).parent_pid matches Some(q) ==> ((q
            == root_pid || s.contains(q)) ==> s.contains(procs[k].pid)))
}

/// The least id set that is closed under the parent relation and holds
/// the root when the snapshot does: exactly what a tree scan discovers.
pub open spec fn spec_tree_set(procs: Seq<ProcessRecord>, root_pid: u32) -> Set<u32> {
    Set::new(
        |p: u32|
            forall|s: Set<u32>|
                #[trigger] spec_tree_closed(procs, root_pid, s) && (spec_has_pid(procs, root_pid)
                    ==> s.contains(root_pid)) ==> s.contains(p),
    )
}

impl ProcessSnapshot {
    /// No process id occurs twice in the snapshot.
    pub open spec fn wf(&self) -> bool {
        spec_snapshot_unique(self.processes@)
    }

    /// Returns the index of the process with the given id, if any.
    pub fn find_pid(&self, pid: u32) -> (r: Option<usize>)
        ensures
            (r matches Some(k) ==> k < self.processes@.len() && self.processes@[k as int].pid
                == pid),
            r is None ==> !spec_has_pid(self.processes@, pid),
    {
        let n: usize = self.processes.len();
        let mut k: usize = 0;
        while k < n
            invariant
                n == self.processes@.len(),
                k <= n,
                forall|j: int| 0 <= j < k ==> (#[trigger] self.processes@[j]).pid != pid,
            decreases n - k,
        {
            if self.processes[k].pid == pid {
                return Some(k);
            }
            k = k + 1;
        }
        None
    }
}

fn vec_contains_u32(v: &Vec<u32>, x: u32) -> (r: bool)
    ensures
        r == v@.contains(x),
{
    let n: usize = v.len();
    let mut i: usize = 0;
    while i < n
        invariant
            n == v@.len(),
            i <= n,
            forall|j: int| 0 <= j < i ==> v@[j] != x,
        decreases n - i,
    {
        if v[i] == x {
            return true;
        }
        i = i + 1;
    }
    false
}

proof fn lemma_push_to_set(s: Seq<u32>, x: u32)
    ensures
        s.push(x).to_set() == s.to_set().insert(x),
{
    assert(s.push(x) =~= s + seq![x]);
    Seq::lemma_to_set_insert_commutes(s, x);
}

proof fn lemma_contains_push(s: Seq<u32>, x: u32, y: u32)
    requires
        s.contains(y),
    ensures
        s.push(x).contains(y),
{
    let i = choose|i: int| 0 <= i < s.len() && s[i] == y;
    assert(s.push(x)[i] == y);
}

/// A sequence of distinct ids, all present in the snapshot, cannot be
/// longer than the snapshot.
proof fn lemma_unique_pids_bound(r: Seq<u32>, procs: Seq<ProcessRecord>)
    requires
        r.no_duplicates(),
        forall|i: int| 0 <= i < r.len() ==> spec_has_pid(procs, #[trigger] r[i]),
    ensures
        r.len() <= procs.len(),
{
    let pids = procs.map_values(|p: ProcessRecord| p.pid);
    assert forall|x: u32| r.to_set().contains(x) implies pids.to_set().contains(x) by {
        let i = choose|i: int| 0 <= i < r.len() && r[i] == x;
        assert(spec_has_pid(procs, x));
        let k = choose|k: int| 0 <= k < procs.len() && (#[trigger] procs[k]).pid == x;
        assert(pids[k] == x);
        assert(pids.to_set().contains(pids[k]));
    }
    r.unique_seq_to_set();
    pids.lemma_cardinality_of_set();
    lemma_len_subset(r.to_set(), pids.to_set());
}

/// Enumerates the process tree rooted at `root_pid`: the root itself when
/// the snapshot still holds it, plus every process reachable from it by
/// following parent links. When the root is gone (for example replaced by
/// an exec), its direct children still seed the traversal. The result is
/// exactly the least id set that is closed under the parent relation and
/// holds the root when present.
pub fn collect_process_tree(snapshot: &ProcessSnapshot, root_pid: u32) -> (r: Vec<u32>)
    requires
        snapshot.wf(),
    ensures
        r@.no_duplicates(),
        forall|i: int| 0 <= i < r@.len() ==> spec_has_pid(snapshot.processes@, #[trigger] r@[i]),
        spec_has_pid(snapshot.processes@, root_pid) ==> r@.contains(root_pid),
        spec_tree_closed(snapshot.processes@, root_pid, r@.to_set()),
        forall|s: Set<u32>|
            #[trigger] spec_tree_closed(snapshot.processes@, root_pid, s) && (spec_has_pid(
                snapshot.processes@,
                root_pid,
            ) ==> s.contains(root_pid)) ==> r@.to_set().subset_of(s),
        r@.to_set() == spec_tree_set(snapshot.processes@, root_pid),
{
    broadcast use vstd::seq_lib::lemma_seq_contains_after_push;

    let ghost procs = snapshot.processes@;
    let n: usize = snapshot.processes.len();
    let mut result: Vec<u32> = Vec::new();
    if snapshot.find_pid(root_pid).is_some() {
        result.push(root_pid);
        proof {
            assert(result@[0] == root_pid);
            assert(result@.contains(root_pid));
            lemma_unique_pids_bound(result@, procs);
        }
    }
    let mut changed: bool = true;
    while changed
        invariant
            snapshot.wf(),
            procs == snapshot.processes@,
            n == procs.len(),
            result@.no_duplicates(),
            forall|i: int| 0 <= i < result@.len() ==> spec_has_pid(procs, #[trigger] result@[i]),
            spec_has_pid(procs, root_pid) ==> result@.contains(root_pid),
            forall|s: Set<u32>|
                #[trigger] spec_tree_closed(procs, root_pid, s) && (spec_has_pid(procs, root_pid)
                    ==> s.contains(root_pid)) ==> result@.to_set().subset_of(s),
            !changed ==> spec_tree_closed(procs, root_pid, result@.to_set()),
            result@.len() <= procs.len(),
        decreases procs.len() + 1 - result@.len(), (if changed {
            1int
        } else {
            0int
        }),
    {
        changed = false;
        let ghost result_at_pass_start = result@;
        let mut k: usize = 0;
        while k < n
            invariant
                snapshot.wf(),
                procs == snapshot.processes@,
                n == procs.len(),
                k <= n,
                result@.no_duplicates(),
                forall|i: int|
                    0 <= i < result@.len() ==> spec_has_pid(procs, #[trigger] result@[i]),
                spec_has_pid(procs, root_pid) ==> result@.contains(root_pid),
                forall|s: Set<u32>|
                    #[trigger] spec_tree_closed(procs, root_pid, s) && (spec_has_pid(
                        procs,
                        root_pid,
                    ) ==> s.contains(root_pid)) ==> result@.to_set().subset_of(s),
                result@.len() <= procs.len(),
                changed ==> result@.len() > result_at_pass_start.len(),
                !changed ==> result@ == result_at_pass_start,
                !changed ==> forall|j: int|
                    0 <= j < k ==> ((#[trigger] procs[j]).parent_pid matches Some(q) ==> ((q
                        == root_pid || result@.to_set().contains(q)) ==> result@.to_set().contains(
                        procs[j].pid,
                    ))),
            decreases n - k,
        {
            let entry_parent: Option<u32> = snapshot.processes[k].parent_pid;
            let entry_pid: u32 = snapshot.processes[k].pid;
            if let Some(q) = entry_parent {
                let parent_in: bool = q == root_pid || vec_contains_u32(&result, q);
                if parent_in && !vec_contains_u32(&result, entry_pid) {
                    proof {
                        assert(spec_has_pid(procs, entry_pid));
                        lemma_push_to_set(result@, entry_pid);
                        // Everything we add stays inside every closed superset.
                        assert forall|s: Set<u32>|
                            #[trigger] spec_tree_closed(procs, root_pid, s) && (spec_has_pid(
                                procs,
                                root_pid,
                            ) ==> s.contains(root_pid)) implies result@.push(
                            entry_pid,
                        ).to_set().subset_of(s) by {
                            assert(result@.to_set().subset_of(s));
                            if !(q == root_pid) {
                                assert(result@.contains(q));
                                assert(result@.to_set().contains(q));
                                assert(s.contains(q));
                            }
                            assert(s.contains(entry_pid));
                        }
                        assert(result@.push(entry_pid).no_duplicates()) by {
                            assert(!result@.contains(entry_pid));
                        }
                        if spec_has_pid(procs, root_pid) {
                            lemma_contains_push(result@, entry_pid, root_pid);
                        }
                        assert forall|i: int|
                            0 <= i < result@.push(entry_pid).len() implies spec_has_pid(
                            procs,
                            #[trigger] result@.push(entry_pid)[i],
                        ) by {
                            if i < result@.len() {
                                assert(result@.push(entry_pid)[i] == result@[i]);
                            } else {
                                assert(result@.push(entry_pid)[i] == entry_pid);
                            }
                        }
                    }
                    result.push(entry_pid);
                    changed = true;
                    proof {
                        lemma_unique_pids_bound(result@, procs);
                    }
                }
            }
            k = k + 1;
        }
    }
    proof {
        let rset = result@.to_set();
        let lset = spec_tree_set(procs, root_pid);
        assert forall|p: u32| rset.contains(p) implies lset.contains(p) by {
            assert forall|s: Set<u32>|
                #[trigger] spec_tree_closed(procs, root_pid, s) && (spec_has_pid(procs, root_pid)
                    ==> s.contains(root_pid)) implies s.contains(p) by {
                assert(rset.subset_of(s));
            }
        }
        assert forall|p: u32| lset.contains(p) implies rset.contains(p) by {
            assert(spec_tree_closed(procs, root_pid, rset) && (spec_has_pid(procs, root_pid)
                ==> rset.contains(root_pid)));
        }
        assert(rset =~= lset);
    }
    result
}

} // verus!
