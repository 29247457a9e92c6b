use libstress::config::Intensity;
use libstress::mem::{prepare_run, saturate, simulate, touch, MemoryState};
use libstress::safety::SafetyError;
use libstress::system::SystemSnapshot;
use libstress::workload::StopSignal;

fn touch_direct(blocks: &mut [Vec<u8>], intensity: Intensity) {
    let passes = intensity.scale_usize(64).max(8);
    let mut seed: u64 = 0xDEAD_BEEF_CAFE_BABE;
    for _ in 0..passes {
        for block in blocks.iter_mut() {
            if block.is_empty() {
                continue;
            }
            seed = seed.wrapping_mul(6364136223846793005).wrapping_add(1);
            let idx = (seed as usize) % block.len();
            block[idx] = block[idx].wrapping_add(1);
            seed = seed.wrapping_add(block[idx] as u64);
        }
    }
}

fn sample_blocks() -> Vec<Vec<u8>> {
    vec![vec![1u8; 10], vec![], vec![7u8; 5000], (0..300).map(|i| i as u8).collect()]
}

#[test]
fn fragmentation_splits_large_blocks() {
    let mut blocks = vec![vec![1u8; 10], vec![2u8; 5000]];
    simulate(&mut blocks, Intensity(5));
    assert_eq!(blocks, vec![vec![1u8; 10], vec![2u8; 2500], vec![2u8; 2500]]);
}

#[test]
fn fragmentation_merges_first_two_when_more_than_four() {
    let mut blocks = vec![vec![1u8; 1], vec![2u8; 2], vec![3u8; 3], vec![4u8; 4], vec![5u8; 5]];
    simulate(&mut blocks, Intensity(5));
    assert_eq!(blocks, vec![vec![3u8; 3], vec![4u8; 4], vec![5u8; 5], vec![1u8, 2, 2]]);
    let mut empty: Vec<Vec<u8>> = vec![];
    simulate(&mut empty, Intensity(5));
    assert!(empty.is_empty());
}

#[test]
fn fragmentation_keeps_total_bytes() {
    let mut blocks = sample_blocks();
    blocks.push(vec![9u8; 9000]);
    blocks.push(vec![8u8; 4097]);
    let before: usize = blocks.iter().map(|b| b.len()).sum();
    simulate(&mut blocks, Intensity(3));
    let after: usize = blocks.iter().map(|b| b.len()).sum();
    assert_eq!(before, after);
}

#[test]
fn random_touch_matches_generator() {
    for level in [1u8, 5, 10] {
        let mut a = sample_blocks();
        let mut b = sample_blocks();
        touch(&mut a, Intensity(level));
        touch_direct(&mut b, Intensity(level));
        assert_eq!(a, b);
        assert_eq!(a.iter().map(|x| x.len()).collect::<Vec<_>>(), vec![10, 0, 5000, 300]);
    }
}

#[test]
fn bandwidth_bumps_bytes_by_index() {
    let mut blocks = vec![vec![0u8; 600], vec![250u8; 3]];
    saturate(&mut blocks, 0, Intensity(5));
    // Intensity 5: four passes, each adding the index modulo 256.
    for (i, b) in blocks[0].iter().enumerate() {
        assert_eq!(*b, ((4 * (i % 256)) % 256) as u8);
    }
    assert_eq!(blocks[1], vec![250u8, 254, 2]);
    let mut none: Vec<Vec<u8>> = vec![];
    saturate(&mut none, 10, Intensity(5));
    assert!(none.is_empty());
}

#[test]
fn memory_cycle_phases() {
    let mut state = MemoryState::new(3 * 1024 * 1024, Intensity(1));
    assert_eq!(state.phase(), 0);
    state.step();
    assert_eq!(state.phase(), 1);
    // Intensity 1: 1 MiB blocks until 3 MiB are held.
    assert_eq!(state.blocks().len(), 3);
    assert!(state.blocks().iter().all(|b| b.len() == 1024 * 1024));
    assert_eq!(state.blocks()[0][257], 1);
    state.step();
    // Six halves, then the first two are merged back into one block.
    assert_eq!(state.blocks().len(), 5);
    state.step();
    state.step();
    assert_eq!(state.phase(), 4);
    let total: usize = state.blocks().iter().map(|b| b.len()).sum();
    assert_eq!(total, 3 * 1024 * 1024);
    let stop = StopSignal::new();
    stop.stop();
    state.cycle(&stop);
    assert_eq!(state.phase(), 4);
    let go = StopSignal::new();
    state.cycle(&go);
    assert_eq!(state.phase(), 5);
}

#[test]
fn allocation_releases_half_over_eight_blocks() {
    let mut state = MemoryState::new(10 * 1024 * 1024, Intensity(1));
    state.step();
    assert_eq!(state.blocks().len(), 5);
}

#[test]
fn prepare_checks_cap_and_headroom() {
    let gib = 1024 * 1024 * 1024u64;
    let snap = SystemSnapshot { total_memory: 16 * gib, available_memory: 12 * gib, cpu_count: 4 };
    let s = prepare_run(Intensity(5), Some(2 * gib), false, &snap).unwrap();
    assert_eq!(s.target_bytes(), 2 * gib);
    assert!(matches!(
        prepare_run(Intensity(5), Some(15 * gib), false, &snap),
        Err(SafetyError::ExceedsCap { .. })
    ));
    assert!(matches!(
        prepare_run(Intensity(5), Some(15 * gib), true, &snap),
        Err(SafetyError::InsufficientHeadroom { .. })
    ));
    let s = prepare_run(Intensity(5), None, false, &snap).unwrap();
    assert_eq!(s.target_bytes(), 16 * gib * 7 / 10 / 2);
}

#[test]
fn held_bytes_stay_within_target_plus_chunk() {
    // Level 1: chunks of 1 MiB; a 2.5 MiB target may be overshot by less than a chunk.
    let target = 5 * 512 * 1024u64;
    let mut state = MemoryState::new(target, Intensity(1));
    for _ in 0..12 {
        state.step();
        let held: usize = state.blocks().iter().map(|b| b.len()).sum();
        assert!(held as u64 <= target + 1024 * 1024);
    }
    // The allocation phase at step 8 found nine blocks (3 MiB) and released the older four (1 MiB).
    let held: usize = state.blocks().iter().map(|b| b.len()).sum();
    assert_eq!(held, 2 * 1024 * 1024);
}

#[test]
fn cycle_with_follows_the_flag() {
    let mut state = MemoryState::new(2 * 1024 * 1024, Intensity(1));
    state.cycle_with(true);
    assert_eq!(state.phase(), 0);
    assert!(state.blocks().is_empty());
    state.cycle_with(false);
    assert_eq!(state.phase(), 1);
    assert_eq!(state.blocks().len(), 2);
}
