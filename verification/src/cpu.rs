use vstd::prelude::*;

use crate::config::{scaled, Intensity};
use crate::digest::{le_u64, read_le_u64, sha256, sha256_digest};
use vstd::std_specs::bits::u64_leading_zeros;

verus! {

/// The CPU algorithms a dedicated CPU worker can run.
#[derive(Debug, Clone, Copy, PartialEq, Eq, Structural)]
pub enum CpuWorkload {
    Hashing,
    Matrix,
    BranchChaos,
    Mixed,
}

/// One unit of CPU work.
#[derive(Debug, Clone, Copy, PartialEq, Eq, Structural)]
pub enum CpuJob {
    /// `hash_iterations(iterations)`.
    Hash { iterations: usize },
    /// A dense `size` x `size` matrix multiply.
    Matrix { size: usize },
    /// `chaotic_branches(steps, seed)`.
    Branches { steps: usize, seed: u64 },
}

/// `x` rotated left by 13 bits.
pub open spec fn rotl13(x: u64) -> u64 {
    (x << 13u64) | (x >> 51u64)
}

/// `x` rotated right by 5 bits.
pub open spec fn rotr5(x: u64) -> u64 {
    (x >> 5u64) | (x << 59u64)
}

/// The number of one bits of `x`.
pub open spec fn popcount(x: u64) -> nat
    decreases x,
{
    if x == 0 {
        0
    } else {
        (x % 2) as nat + popcount(x / 2)
    }
}

/// The mixing step of the chaotic generator.
pub open spec fn chaos_mix(x: u64) -> u64 {
    (x ^ rotl13(x)).wrapping_mul(0x2545_F491_4F6C_DD1D)
}

/// The amount added to the accumulator for a mixed state `x`.
pub open spec fn chaos_term(x: u64, acc: u64) -> u64 {
    let m = x & 7;
    if m == 0 {
        x.wrapping_mul(3)
    } else if m == 1 {
        rotr5(x)
    } else if m == 2 {
        x ^ acc
    } else if m == 3 {
        acc.wrapping_sub(x)
    } else if m == 4 {
        popcount(x) as u64
    } else if m == 5 {
        u64_leading_zeros(x) as u64
    } else if m == 6 {
        x.wrapping_add(acc >> 3u64)
    } else {
        !x
    }
}

/// The generator state `(x, acc)` after `n` steps from `seed`.
pub open spec fn chaos_state(seed: u64, n: nat) -> (u64, u64)
    decreases n,
{
    if n == 0 {
        (seed.wrapping_add(0x9E37_79B9_7F4A_7C15), 0)
    } else {
        let prev = chaos_state(seed, (n - 1) as nat);
        let x = chaos_mix(prev.0);
        (x, prev.1.wrapping_add(chaos_term(x, prev.1)))
    }
}

fn rotate_left_13(x: u64) -> (r: u64)
    ensures
        r == rotl13(x),
{
    (x << 13u64) | (x >> 51u64)
}

fn rotate_right_5(x: u64) -> (r: u64)
    ensures
        r == rotr5(x),
{
    (x >> 5u64) | (x << 59u64)
}

proof fn lemma_popcount_bounded(x: u64)
    ensures
        popcount(x) <= x,
    decreases x,
{
    if x != 0 {
        lemma_popcount_bounded((x / 2) as u64);
    }
}

fn count_ones(x: u64) -> (r: u64)
    ensures
        r as nat == popcount(x),
{
    let mut y: u64 = x;
    let mut n: u64 = 0;
    proof {
        lemma_popcount_bounded(x);
    }
    while y != 0
        invariant
            n + popcount(y) == popcount(x),
            popcount(x) <= x,
        decreases y,
    {
        assert(y & 1 == y % 2) by (bit_vector);
        assert(y >> 1u64 == y / 2) by (bit_vector);
        n = n + (y & 1);
        y = y >> 1u64;
    }
    n
}

/// Branch-heavy chaotic iteration resisting prediction: `steps` steps of the
/// generator seeded with `seed`, returning the accumulator.
pub fn chaotic_branches(steps: usize, seed: u64) -> (r: u64)
    ensures
        r == chaos_state(seed, steps as nat).1,
{
    let mut x: u64 = seed.wrapping_add(0x9E37_79B9_7F4A_7C15);
    let mut acc: u64 = 0;
    let mut i: usize = 0;
    while i < steps
        invariant
            i <= steps,
            (x, acc) == chaos_state(seed, i as nat),
        decreases steps - i,
    {
        x = x ^ rotate_left_13(x);
        x = x.wrapping_mul(0x2545_F491_4F6C_DD1D);
        let m = x & 7;
        let term: u64 = if m == 0 {
            x.wrapping_mul(3)
        } else if m == 1 {
            rotate_right_5(x)
        } else if m == 2 {
            x ^ acc
        } else if m == 3 {
            acc.wrapping_sub(x)
        } else if m == 4 {
            count_ones(x)
        } else if m == 5 {
            x.leading_zeros() as u64
        } else if m == 6 {
            x.wrapping_add(acc >> 3u64)
        } else {
            !x
        };
        acc = acc.wrapping_add(term);
        i = i + 1;
    }
    acc
}

/// The hash input of round `i`: `state` with its first two bytes replaced by the low
/// two bytes of the round counter.
pub open spec fn counter_block(state: Seq<u8>, i: usize) -> Seq<u8> {
    state.update(0, (i & 0xFF) as u8).update(1, ((i >> 8usize) & 0xFF) as u8)
}

/// The chained-hash state `(state, acc)` after `n` rounds from a zero block.
pub open spec fn hash_state(n: nat) -> (Seq<u8>, u64)
    decreases n,
{
    if n == 0 {
        (Seq::new(32, |k: int| 0u8), 0)
    } else {
        let prev = hash_state((n - 1) as nat);
        let d = sha256(counter_block(prev.0, (n - 1) as usize));
        (d, prev.1.wrapping_add(le_u64(d)))
    }
}

/// High-iteration hashing loop: each round hashes the previous digest (with the round
/// counter in its first two bytes) and adds the digest's first eight bytes, read
/// little-endian, to the accumulator.
pub fn hash_iterations(iterations: usize) -> (r: u64)
    ensures
        r == hash_state(iterations as nat).1,
{
    let mut state: Vec<u8> = vec![0u8; 32];
    assert(state@ =~= Seq::new(32, |k: int| 0u8));
    let mut acc: u64 = 0;
    let mut i: usize = 0;
    while i < iterations
        invariant
            i <= iterations,
            (state@, acc) == hash_state(i as nat),
            state@.len() == 32,
        decreases iterations - i,
    {
        state.set(0, (i & 0xFF) as u8);
        state.set(1, ((i >> 8usize) & 0xFF) as u8);
        let d = sha256_digest(state.as_slice());
        acc = acc.wrapping_add(read_le_u64(&d));
        state = d;
        i = i + 1;
    }
    acc
}

/// `v` clamped into `[lo, hi]`.
pub open spec fn clamped(v: nat, lo: nat, hi: nat) -> nat {
    if v < lo {
        lo
    } else if v > hi {
        hi
    } else {
        v
    }
}

fn clamp_usize(v: usize, lo: usize, hi: usize) -> (r: usize)
    requires
        lo <= hi,
    ensures
        r as nat == clamped(v as nat, lo as nat, hi as nat),
{
    if v < lo {
        lo
    } else if v > hi {
        hi
    } else {
        v
    }
}

/// The jobs of one round-robin round of the mixed CPU stress (`round` counts the
/// rounds dispatched so far): per-thread hashing with growing iteration counts, one
/// matrix multiply, per-thread branch chaos, or (unless stopped) one small job of each.
pub open spec fn round_jobs(round: usize, level: nat, threads: nat, stopped: bool) -> Seq<CpuJob> {
    let base = scaled(50_000, level);
    let size = clamped(scaled(64, level), 32, 256);
    if round % 4 == 0 {
        Seq::new(threads, |t: int| CpuJob::Hash { iterations: (base + t * 10_000) as usize })
    } else if round % 4 == 1 {
        seq![CpuJob::Matrix { size: size as usize }]
    } else if round % 4 == 2 {
        Seq::new(threads, |t: int| CpuJob::Branches { steps: base as usize, seed: (t + 1) as u64 })
    } else if stopped {
        Seq::empty()
    } else {
        seq![
            CpuJob::Hash { iterations: (base / 2) as usize },
            CpuJob::Matrix { size: (size / 2) as usize },
            CpuJob::Branches { steps: (base / 2) as usize, seed: 42 },
        ]
    }
}

/// The jobs of one round of the mixed CPU stress on `threads` worker threads
/// (see `round_jobs`).
pub fn plan_round(round: usize, intensity: Intensity, threads: usize, stopped: bool) -> (r: Vec<CpuJob>)
    requires
        scaled(50_000, intensity.0 as nat) + threads * 10_000 <= usize::MAX,
    ensures
        r@ == round_jobs(round, intensity.0 as nat, threads as nat, stopped),
{
    let base = intensity.scale_usize(50_000);
    let size = clamp_usize(intensity.scale_usize(64), 32, 256);
    let mut jobs: Vec<CpuJob> = Vec::new();
    let phase = round % 4;
    if phase == 0 || phase == 2 {
        let mut t: usize = 0;
        while t < threads
            invariant
                t <= threads,
                base as nat == scaled(50_000, intensity.0 as nat),
                base + threads * 10_000 <= usize::MAX,
                phase == round % 4,
                phase == 0 || phase == 2,
                jobs@ == round_jobs(round, intensity.0 as nat, threads as nat, stopped).take(t as int),
            decreases threads - t,
        {
            let ghost all = round_jobs(round, intensity.0 as nat, threads as nat, stopped);
            assert(t * 10_000 <= threads * 10_000) by (nonlinear_arith)
                requires
                    t < threads,
            ;
            if phase == 0 {
                jobs.push(CpuJob::Hash { iterations: base + t * 10_000 });
            } else {
                jobs.push(CpuJob::Branches { steps: base, seed: (t + 1) as u64 });
            }
            assert(jobs@ =~= all.take(t + 1));
            t = t + 1;
        }
        assert(jobs@ =~= round_jobs(round, intensity.0 as nat, threads as nat, stopped));
    } else if phase == 1 {
        jobs.push(CpuJob::Matrix { size });
        assert(jobs@ =~= round_jobs(round, intensity.0 as nat, threads as nat, stopped));
    } else if !stopped {
        jobs.push(CpuJob::Hash { iterations: base / 2 });
        jobs.push(CpuJob::Matrix { size: size / 2 });
        jobs.push(CpuJob::Branches { steps: base / 2, seed: 42 });
        assert(jobs@ =~= round_jobs(round, intensity.0 as nat, threads as nat, stopped));
    } else {
        assert(jobs@ =~= round_jobs(round, intensity.0 as nat, threads as nat, stopped));
    }
    jobs
}

/// Whether round `round` of the mixed CPU stress spreads its jobs over the worker
/// threads (the per-thread hashing and branch rounds); the other rounds run on the
/// dispatching thread.
pub fn parallel_round(round: usize) -> (r: bool)
    ensures
        r == (round % 4 == 0 || round % 4 == 2),
{
    round % 4 == 0 || round % 4 == 2
}

/// The jobs of one round of a dedicated CPU worker: one job of its algorithm, or a
/// mixed round (not stopped) for `Mixed`.
pub open spec fn workload_jobs(kind: CpuWorkload, level: nat, round: usize, threads: nat) -> Seq<CpuJob> {
    let base = scaled(80_000, level);
    let size = clamped(scaled(96, level), 32, 320);
    match kind {
        CpuWorkload::Hashing => seq![CpuJob::Hash { iterations: base as usize }],
        CpuWorkload::Matrix => seq![CpuJob::Matrix { size: size as usize }],
        CpuWorkload::BranchChaos => seq![CpuJob::Branches { steps: base as usize, seed: 7 }],
        CpuWorkload::Mixed => round_jobs(round, level, threads, false),
    }
}

/// The jobs of one round of a dedicated CPU worker (see `workload_jobs`).
pub fn plan_workload_round(kind: CpuWorkload, intensity: Intensity, round: usize, threads: usize) -> (r: Vec<
    CpuJob,
>)
    requires
        kind == CpuWorkload::Mixed ==> scaled(50_000, intensity.0 as nat) + threads * 10_000 <= usize::MAX,
    ensures
        r@ == workload_jobs(kind, intensity.0 as nat, round, threads as nat),
{
    let base = intensity.scale_usize(80_000);
    let size = clamp_usize(intensity.scale_usize(96), 32, 320);
    let mut jobs: Vec<CpuJob> = Vec::new();
    match kind {
        CpuWorkload::Hashing => jobs.push(CpuJob::Hash { iterations: base }),
        CpuWorkload::Matrix => jobs.push(CpuJob::Matrix { size }),
        CpuWorkload::BranchChaos => jobs.push(CpuJob::Branches { steps: base, seed: 7 }),
        CpuWorkload::Mixed => {
            return plan_round(round, intensity, threads, false);
        },
    }
    assert(jobs@ =~= workload_jobs(kind, intensity.0 as nat, round, threads as nat));
    jobs
}

} // verus!
