//! Resource accounting: aggregating CPU and memory figures over a process
//! tree and rendering them for the sidebar. CPU percentages are kept as
//! integers in hundredths of a percent so that the arithmetic is exact.

use vstd::prelude::*;
use vstd::string::StringExecFns;
use crate::process_tree::{ProcessRecord, ProcessSnapshot, spec_has_pid};
use crate::text::{spec_digit_char, spec_u64_dec, digit_str, u64_to_string};

verus! {

/// Last-sampled resource figures of one session's whole process tree.
/// CPU is in hundredths of a percent of the whole machine; both fields
/// zero means "not yet sampled".
#[derive(Clone, Copy, Debug)]
pub struct ProcessResourceUsage {
    pub cpu_centi_percent: u64,
    pub memory_bytes: u64,
}

impl Default for ProcessResourceUsage {
    /// The "not yet sampled" figure.
    fn default() -> (r: Self)
        ensures
            r.cpu_centi_percent == 0,
            r.memory_bytes == 0,
    {
        ProcessResourceUsage { cpu_centi_percent: 0, memory_bytes: 0 }
    }
}

/// Sum of the CPU figures of the snapshot processes whose id lies in `tree`.
pub open spec fn spec_cpu_sum(procs: Seq<ProcessRecord>, tree: Set<u32>) -> int
    decreases procs.len(),
{
    if procs.len() == 0 {
        0
    } else {
        spec_cpu_sum(procs.drop_last(), tree) + (if tree.contains(procs.last().pid) {
            procs.last().cpu_centi_percent as int
        } else {
            0
        })
    }
}

/// Sum of the memory figures of the snapshot processes whose id lies in `tree`.
pub open spec fn spec_mem_sum(procs: Seq<ProcessRecord>, tree: Set<u32>) -> int
    decreases procs.len(),
{
    if procs.len() == 0 {
        0
    } else {
        spec_mem_sum(procs.drop_last(), tree) + (if tree.contains(procs.last().pid) {
            procs.last().memory_bytes as int
        } else {
            0
        })
    }
}

/// The totals over the whole snapshot fit the machine word; any subset
/// sum then fits as well.
pub open spec fn spec_totals_fit(procs: Seq<ProcessRecord>) -> bool {
    spec_cpu_sum(procs, Set::full()) <= u64::MAX && spec_mem_sum(procs, Set::full()) <= u64::MAX
}

/// The number of cores used for normalization: at least one.
pub open spec fn spec_cores(s: &ProcessSnapshot) -> int {
    if s.cpu_count == 0 {
        1
    } else {
        s.cpu_count as int
    }
}

proof fn lemma_sums_bounds(procs: Seq<ProcessRecord>, tree: Set<u32>)
    ensures
        0 <= spec_cpu_sum(procs, tree) <= spec_cpu_sum(procs, Set::full()),
        0 <= spec_mem_sum(procs, tree) <= spec_mem_sum(procs, Set::full()),
    decreases procs.len(),
{
    if procs.len() > 0 {
        lemma_sums_bounds(procs.drop_last(), tree);
        assert(Set::<u32>::full().contains(procs.last().pid));
    }
}

proof fn lemma_sums_prefix(procs: Seq<ProcessRecord>, j: int, tree: Set<u32>)
    requires
        0 <= j <= procs.len(),
    ensures
        spec_cpu_sum(procs.subrange(0, j), tree) <= spec_cpu_sum(procs, tree),
        spec_mem_sum(procs.subrange(0, j), tree) <= spec_mem_sum(procs, tree),
    decreases procs.len() - j,
{
    if j == procs.len() {
        assert(procs.subrange(0, j) =~= procs);
    } else {
        lemma_sums_prefix(procs, j + 1, tree);
        assert(procs.subrange(0, j + 1).drop_last() =~= procs.subrange(0, j));
        assert(procs.subrange(0, j + 1).last() == procs[j]);
    }
}

/// Aggregates CPU and memory over the given process tree, as sampled from
/// the snapshot: per-core CPU percentages of every tree member are summed
/// and divided by the core count, memory is summed. With an empty tree the
/// root process alone is sampled directly; when even the root is gone the
/// figures stay zero.
pub fn sample_usage(snapshot: &ProcessSnapshot, tree: &Vec<u32>, root_pid: u32) -> (r:
    ProcessResourceUsage)
    requires
        snapshot.wf(),
        spec_totals_fit(snapshot.processes@),
    ensures
        tree@.len() > 0 ==> {
            &&& r.cpu_centi_percent == spec_cpu_sum(snapshot.processes@, tree@.to_set())
                / spec_cores(snapshot)
            &&& r.memory_bytes == spec_mem_sum(snapshot.processes@, tree@.to_set())
        },
        tree@.len() == 0 && !spec_has_pid(snapshot.processes@, root_pid) ==> r.cpu_centi_percent
            == 0 && r.memory_bytes == 0,
        tree@.len() == 0 && spec_has_pid(snapshot.processes@, root_pid) ==> (exists|k: int|
            0 <= k < snapshot.processes@.len() && (#[trigger] snapshot.processes@[k]).pid
                == root_pid && r.cpu_centi_percent == snapshot.processes@[k].cpu_centi_percent
                as int / spec_cores(snapshot) && r.memory_bytes
                == snapshot.processes@[k].memory_bytes),
{
    let ghost procs = snapshot.processes@;
    let cores: u64 = if snapshot.cpu_count == 0 {
        1
    } else {
        snapshot.cpu_count as u64
    };
    if tree.len() == 0 {
        // The tree failed to enumerate; fall back to the root process alone.
        match snapshot.find_pid(root_pid) {
            Some(k) => {
                let rec_cpu: u32 = snapshot.processes[k].cpu_centi_percent;
                let rec_mem: u64 = snapshot.processes[k].memory_bytes;
                ProcessResourceUsage {
                    cpu_centi_percent: (rec_cpu as u64) / cores,
                    memory_bytes: rec_mem,
                }
            },
            None => ProcessResourceUsage { cpu_centi_percent: 0, memory_bytes: 0 },
        }
    } else {
        let ghost treeset = tree@.to_set();
        let n: usize = snapshot.processes.len();
        let mut cpu: u64 = 0;
        let mut mem: u64 = 0;
        let mut k: usize = 0;
        proof {
            assert(procs.subrange(0, 0) =~= Seq::<ProcessRecord>::empty());
        }
        while k < n
            invariant
                snapshot.wf(),
                spec_totals_fit(procs),
                procs == snapshot.processes@,
                treeset == tree@.to_set(),
                n == procs.len(),
                k <= n,
                cpu == spec_cpu_sum(procs.subrange(0, k as int), treeset),
                mem == spec_mem_sum(procs.subrange(0, k as int), treeset),
            decreases n - k,
        {
            proof {
                lemma_sums_prefix(procs, k + 1, treeset);
                lemma_sums_bounds(procs, treeset);
                assert(procs.subrange(0, k + 1).drop_last() =~= procs.subrange(0, k as int));
                assert(procs.subrange(0, k + 1).last() == procs[k as int]);
            }
            let in_tree: bool = contains_pid(tree, snapshot.processes[k].pid);
            if in_tree {
                cpu = cpu + (snapshot.processes[k].cpu_centi_percent as u64);
                mem = mem + snapshot.processes[k].memory_bytes;
            }
            k = k + 1;
        }
        proof {
            assert(procs.subrange(0, n as int) =~= procs);
        }
        ProcessResourceUsage { cpu_centi_percent: cpu / cores, memory_bytes: mem }
    }
}

fn contains_pid(v: &Vec<u32>, x: u32) -> (r: bool)
    ensures
        r == v@.to_set().contains(x),
{
    let n: usize = v.len();
    let mut i: usize = 0;
    while i < n
        invariant
            n == v@.len(),
            i <= n,
            forall|j: int| 0 <= j < i ==> v@[j] != x,
        decreases n - i,
    {
        if v[i] == x {
            proof {
                assert(v@.contains(x));
            }
            return true;
        }
        i = i + 1;
    }
    proof {
        assert(!v@.contains(x));
    }
    false
}

/// Division rounded to the nearest integer, halves rounding up.
pub open spec fn spec_round_div(a: int, b: int) -> int {
    (a + b / 2) / b
}

/// The sidebar rendering of a CPU figure: "--" before the first sample,
/// a whole percentage from 10% upward, one decimal place below that.
pub open spec fn spec_format_cpu(cpu_centi: int, mem: int) -> Seq<char> {
    if cpu_centi == 0 && mem == 0 {
        seq!['-', '-']
    } else if cpu_centi >= 1000 {
        spec_u64_dec(spec_round_div(cpu_centi, 100)) + seq!['%']
    } else {
        let t = spec_round_div(cpu_centi, 10);
        spec_u64_dec(t / 10) + seq!['.'] + seq![spec_digit_char(t % 10)] + seq!['%']
    }
}

/// The sidebar rendering of a memory figure: "--" before the first
/// sample, then a byte count scaled to B, K, M or G.
pub open spec fn spec_format_memory(bytes: int) -> Seq<char> {
    if bytes == 0 {
        seq!['-', '-']
    } else if bytes < 1024 {
        spec_u64_dec(bytes) + seq!['B']
    } else if bytes < 1048576 {
        let t = spec_round_div(bytes * 10, 1024);
        spec_u64_dec(t / 10) + seq!['.'] + seq![spec_digit_char(t % 10)] + seq!['K']
    } else if bytes < 1073741824 {
        let t = spec_round_div(bytes * 10, 1048576);
        spec_u64_dec(t / 10) + seq!['.'] + seq![spec_digit_char(t % 10)] + seq!['M']
    } else {
        let h = spec_round_div(bytes * 100, 1073741824);
        spec_u64_dec(h / 100) + seq!['.'] + seq![spec_digit_char((h / 10) % 10)] + seq![
            spec_digit_char(h % 10),
        ] + seq!['G']
    }
}

impl ProcessResourceUsage {
    /// Renders the CPU figure for display.
    pub fn format_cpu(&self) -> (r: String)
        ensures
            r@ == spec_format_cpu(self.cpu_centi_percent as int, self.memory_bytes as int),
    {
        proof {
            reveal_strlit("--");
            reveal_strlit("%");
            reveal_strlit(".");
        }
        if self.cpu_centi_percent == 0 && self.memory_bytes == 0 {
            let r = String::from_str("--");
            proof {
                assert(r@ =~= seq!['-', '-']);
            }
            r
        } else if self.cpu_centi_percent >= 1000 {
            let whole: u64 = (((self.cpu_centi_percent as u128) + 50) / 100) as u64;
            proof {
                assert(whole == spec_round_div(self.cpu_centi_percent as int, 100));
            }
            let mut r = u64_to_string(whole);
            r.append("%");
            proof {
                assert(r@ =~= spec_format_cpu(
                    self.cpu_centi_percent as int,
                    self.memory_bytes as int,
                ));
            }
            r
        } else {
            let t: u64 = (self.cpu_centi_percent + 5) / 10;
            let mut r = u64_to_string(t / 10);
            r.append(".");
            r.append(digit_str(t % 10));
            r.append("%");
            proof {
                assert(r@ =~= spec_format_cpu(
                    self.cpu_centi_percent as int,
                    self.memory_bytes as int,
                ));
            }
            r
        }
    }

    /// Renders the memory figure for display.
    pub fn format_memory(&self) -> (r: String)
        ensures
            r@ == spec_format_memory(self.memory_bytes as int),
    {
        proof {
            reveal_strlit("--");
            reveal_strlit("B");
            reveal_strlit("K");
            reveal_strlit("M");
            reveal_strlit("G");
            reveal_strlit(".");
        }
        let b: u64 = self.memory_bytes;
        if b == 0 {
            let r = String::from_str("--");
            proof {
                assert(r@ =~= seq!['-', '-']);
            }
            r
        } else if b < 1024 {
            let mut r = u64_to_string(b);
            r.append("B");
            proof {
                assert(r@ =~= spec_format_memory(b as int));
            }
            r
        } else if b < 1048576 {
            let t: u64 = (b * 10 + 512) / 1024;
            let mut r = u64_to_string(t / 10);
            r.append(".");
            r.append(digit_str(t % 10));
            r.append("K");
            proof {
                assert(r@ =~= spec_format_memory(b as int));
            }
            r
        } else if b < 1073741824 {
            let t: u64 = (b * 10 + 524288) / 1048576;
            let mut r = u64_to_string(t / 10);
            r.append(".");
            r.append(digit_str(t % 10));
            r.append("M");
            proof {
                assert(r@ =~= spec_format_memory(b as int));
            }
            r
        } else {
            let h: u64 = (((b as u128) * 100 + 536870912) / 1073741824) as u64;
            proof {
                assert(h == spec_round_div(b as int * 100, 1073741824));
            }
            let mut r = u64_to_string(h / 100);
            r.append(".");
            r.append(digit_str((h / 10) % 10));
            r.append(digit_str(h % 10));
            r.append("G");
            proof {
                assert(r@ =~= spec_format_memory(b as int));
            }
            r
        }
    }
}

} // verus!
