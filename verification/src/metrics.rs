use vstd::prelude::*;

use crate::config::WorkloadKind;

verus! {

/// Format of the report printed after a run.
#[derive(Debug, Clone, Copy, PartialEq, Eq, Structural)]
pub enum ReportFormat {
    Json,
    Text,
}

/// The label of a workload in plans and reports.
pub open spec fn label_of(kind: WorkloadKind) -> Seq<char> {
    match kind {
        WorkloadKind::Cpu => "cpu"@,
        WorkloadKind::Memory => "memory"@,
        WorkloadKind::Io => "io"@,
        WorkloadKind::Compile => "compile"@,
        WorkloadKind::Gpu => "gpu"@,
        WorkloadKind::Net => "net"@,
        WorkloadKind::Sched => "sched"@,
        WorkloadKind::All => "all"@,
    }
}

/// The label of a workload in plans and reports.
pub fn workload_label(kind: WorkloadKind) -> (r: &'static str)
    ensures
        r@ == label_of(kind),
{
    match kind {
        WorkloadKind::Cpu => "cpu",
        WorkloadKind::Memory => "memory",
        WorkloadKind::Io => "io",
        WorkloadKind::Compile => "compile",
        WorkloadKind::Gpu => "gpu",
        WorkloadKind::Net => "net",
        WorkloadKind::Sched => "sched",
        WorkloadKind::All => "all",
    }
}

/// The largest value of a sequence of samples, 0 for none.
pub open spec fn peak(s: Seq<u64>) -> u64
    decreases s.len(),
{
    if s.len() == 0 {
        0
    } else {
        let rest = peak(s.drop_last());
        if s.last() > rest {
            s.last()
        } else {
            rest
        }
    }
}

/// The peak used memory of a run (MiB) from its samples, 0 when there are none.
pub fn peak_used_memory(samples_mib: &Vec<u64>) -> (r: u64)
    ensures
        r == peak(samples_mib@),
        forall|i: int| 0 <= i < samples_mib@.len() ==> samples_mib@[i] <= r,
        samples_mib@.len() > 0 ==> samples_mib@.contains(r),
{
    let mut best: u64 = 0;
    let mut i: usize = 0;
    while i < samples_mib.len()
        invariant
            i <= samples_mib@.len(),
            best == peak(samples_mib@.take(i as int)),
            forall|j: int| 0 <= j < i ==> samples_mib@[j] <= best,
            i > 0 ==> samples_mib@.take(i as int).contains(best),
        decreases samples_mib.len() - i,
    {
        let ghost prev = samples_mib@.take(i as int);
        assert(samples_mib@.take(i + 1).drop_last() =~= prev);
        if samples_mib[i] > best {
            best = samples_mib[i];
            assert(samples_mib@.take(i + 1)[i as int] == best);
        } else if i > 0 {
            proof {
                let k = choose|k: int| 0 <= k < prev.len() && prev[k] == best;
                assert(samples_mib@.take(i + 1)[k] == best);
            }
        }
        i = i + 1;
    }
    assert(samples_mib@.take(samples_mib@.len() as int) =~= samples_mib@);
    best
}

} // verus!
