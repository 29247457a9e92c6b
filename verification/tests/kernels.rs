use libstress::config::Intensity;
use libstress::cpu::{chaotic_branches, hash_iterations, plan_round, plan_workload_round, CpuJob, CpuWorkload};
use sha2::{Digest, Sha256};

fn branches_direct(steps: usize, seed: u64) -> u64 {
    let mut x = seed.wrapping_add(0x9E37_79B9_7F4A_7C15);
    let mut acc = 0u64;
    for _ in 0..steps {
        x ^= x.rotate_left(13);
        x = x.wrapping_mul(0x2545_F491_4F6C_DD1D);
        acc = acc.wrapping_add(match x & 7 {
            0 => x.wrapping_mul(3),
            1 => x.rotate_right(5),
            2 => x ^ acc,
            3 => acc.wrapping_sub(x),
            4 => x.count_ones() as u64,
            5 => x.leading_zeros() as u64,
            6 => x.wrapping_add(acc >> 3),
            _ => !x,
        });
    }
    acc
}

fn hashing_direct(iterations: usize) -> u64 {
    let mut state = [0u8; 32];
    let mut acc: u64 = 0;
    for i in 0..iterations {
        state[0] = (i & 0xFF) as u8;
        state[1] = ((i >> 8) & 0xFF) as u8;
        let digest = Sha256::digest(state);
        acc = acc.wrapping_add(u64::from_le_bytes(digest[0..8].try_into().unwrap()));
        state.copy_from_slice(&digest);
    }
    acc
}

#[test]
fn branches_zero_steps() {
    assert_eq!(chaotic_branches(0, 123), 0);
}

#[test]
fn branches_match_bitwise_definition() {
    for seed in [0u64, 1, 7, 42, u64::MAX] {
        for steps in [1usize, 2, 5, 100, 1000] {
            assert_eq!(chaotic_branches(steps, seed), branches_direct(steps, seed));
        }
    }
}

#[test]
fn hashing_zero_iterations() {
    assert_eq!(hash_iterations(0), 0);
}

#[test]
fn hashing_chains_sha256() {
    for n in [1usize, 2, 3, 300] {
        assert_eq!(hash_iterations(n), hashing_direct(n));
    }
    let first = Sha256::digest([0u8; 32]);
    assert_eq!(hash_iterations(1), u64::from_le_bytes(first[0..8].try_into().unwrap()));
}

#[test]
fn rounds_rotate_through_algorithms() {
    let i = Intensity(5);
    assert_eq!(
        plan_round(0, i, 3, false),
        vec![
            CpuJob::Hash { iterations: 50_000 },
            CpuJob::Hash { iterations: 60_000 },
            CpuJob::Hash { iterations: 70_000 }
        ]
    );
    assert_eq!(plan_round(1, i, 3, false), vec![CpuJob::Matrix { size: 64 }]);
    assert_eq!(
        plan_round(6, i, 2, false),
        vec![CpuJob::Branches { steps: 50_000, seed: 1 }, CpuJob::Branches { steps: 50_000, seed: 2 }]
    );
    assert_eq!(
        plan_round(3, i, 8, false),
        vec![
            CpuJob::Hash { iterations: 25_000 },
            CpuJob::Matrix { size: 32 },
            CpuJob::Branches { steps: 25_000, seed: 42 }
        ]
    );
    assert!(plan_round(7, i, 8, true).is_empty());
    assert_eq!(plan_round(1, Intensity(10), 1, false), vec![CpuJob::Matrix { size: 128 }]);
    assert_eq!(plan_round(1, Intensity(1), 1, false), vec![CpuJob::Matrix { size: 32 }]);
}

#[test]
fn dedicated_workers() {
    let i = Intensity(10);
    assert_eq!(plan_workload_round(CpuWorkload::Hashing, i, 0, 1), vec![CpuJob::Hash { iterations: 160_000 }]);
    assert_eq!(plan_workload_round(CpuWorkload::Matrix, i, 0, 1), vec![CpuJob::Matrix { size: 192 }]);
    assert_eq!(
        plan_workload_round(CpuWorkload::BranchChaos, i, 0, 1),
        vec![CpuJob::Branches { steps: 160_000, seed: 7 }]
    );
    assert_eq!(plan_workload_round(CpuWorkload::Mixed, i, 1, 1), vec![CpuJob::Matrix { size: 128 }]);
}
