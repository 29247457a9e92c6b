use libstress::config::WorkloadKind;
use libstress::metrics::{peak_used_memory, workload_label};

#[test]
fn labels() {
    assert_eq!(workload_label(WorkloadKind::Cpu), "cpu");
    assert_eq!(workload_label(WorkloadKind::Memory), "memory");
    assert_eq!(workload_label(WorkloadKind::Io), "io");
    assert_eq!(workload_label(WorkloadKind::Compile), "compile");
    assert_eq!(workload_label(WorkloadKind::Gpu), "gpu");
    assert_eq!(workload_label(WorkloadKind::Net), "net");
    assert_eq!(workload_label(WorkloadKind::Sched), "sched");
    assert_eq!(workload_label(WorkloadKind::All), "all");
}

#[test]
fn peak_memory() {
    assert_eq!(peak_used_memory(&vec![]), 0);
    assert_eq!(peak_used_memory(&vec![3, 9, 4]), 9);
}
