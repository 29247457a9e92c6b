use vstd::prelude::*;

use crate::config::{scaled, Intensity};
use crate::safety::{target_outcome, headroom_ok, MemorySafetyCap, SafetyError, DEFAULT_RAM_PERCENT};
use crate::system::SystemSnapshot;
use crate::workload::StopSignal;
use vstd::slice::{slice_subrange, slice_to_vec};

verus! {

/// The byte contents of each block.
pub open spec fn views(s: Seq<Vec<u8>>) -> Seq<Seq<u8>> {
    s.map_values(|v: Vec<u8>| v@)
}

/// `v`, raised to at least `m`.
pub open spec fn at_least(v: nat, m: nat) -> nat {
    if v < m {
        m
    } else {
        v
    }
}

fn max_usize(v: usize, m: usize) -> (r: usize)
    ensures
        r as nat == at_least(v as nat, m as nat),
{
    if v < m {
        m
    } else {
        v
    }
}

/// Every block larger than 4 KiB replaced by its two halves (the first half holding
/// `len / 2` bytes), order kept.
pub open spec fn split_all(s: Seq<Seq<u8>>) -> Seq<Seq<u8>>
    decreases s.len(),
{
    if s.len() == 0 {
        Seq::empty()
    } else {
        let rest = split_all(s.drop_last());
        let b = s.last();
        if b.len() > 4096 {
            rest.push(b.take((b.len() / 2) as int)).push(b.skip((b.len() / 2) as int))
        } else {
            rest.push(b)
        }
    }
}

/// The blocks after one fragmentation round: split, then (when more than four remain)
/// the first two are merged into one block moved to the end.
pub open spec fn fragmented(s: Seq<Seq<u8>>) -> Seq<Seq<u8>> {
    if s.len() == 0 {
        s
    } else {
        let t = split_all(s);
        if t.len() > 4 {
            t.skip(2).push(t[0] + t[1])
        } else {
            t
        }
    }
}

/// Simulate allocator fragmentation by splitting and merging blocks.
pub fn simulate(blocks: &mut Vec<Vec<u8>>, intensity: Intensity)
    ensures
        views(final(blocks)@) == fragmented(views(old(blocks)@)),
{
    if blocks.len() == 0 {
        return;
    }
    let splits = max_usize(intensity.scale_usize(8), 2);
    let mut src: Vec<Vec<u8>> = Vec::new();
    std::mem::swap(&mut src, blocks);
    let ghost start = views(src@);
    let mut out: Vec<Vec<u8>> = Vec::new();
    let mut i: usize = 0;
    while i < src.len()
        invariant
            i <= src@.len(),
            start == views(src@),
            splits >= 2,
            views(out@) == split_all(start.take(i as int)),
        decreases src.len() - i,
    {
        let b = &src[i];
        let ghost before = views(out@);
        assert(start.take(i + 1).drop_last() =~= start.take(i as int));
        assert(start.take(i + 1).last() == b@);
        if b.len() > 4096 && splits > 0 {
            let mid = b.len() / 2;
            let left = slice_to_vec(slice_subrange(b.as_slice(), 0, mid));
            let right = slice_to_vec(slice_subrange(b.as_slice(), mid, b.len()));
            out.push(left);
            out.push(right);
            assert(views(out@) =~= before.push(b@.take(mid as int)).push(b@.skip(mid as int)));
        } else {
            let whole = slice_to_vec(b.as_slice());
            out.push(whole);
            assert(views(out@) =~= before.push(b@));
        }
        i = i + 1;
    }
    assert(start.take(src@.len() as int) =~= start);
    if out.len() > 4 {
        let ghost t = views(out@);
        let mut a = out.remove(0);
        let mut b = out.remove(0);
        a.append(&mut b);
        out.push(a);
        assert(views(out@) =~= t.skip(2).push(t[0] + t[1]));
    }
    *blocks = out;
}

/// One step of the access pattern's linear congruential generator.
pub open spec fn lcg(seed: u64) -> u64 {
    seed.wrapping_mul(6364136223846793005).wrapping_add(1)
}

/// One random touch of a block: advance the generator, bump the byte it selects,
/// and fold that byte back into the seed; empty blocks are skipped.
#[verifier::opaque]
pub closed spec fn touch_block(b: Seq<u8>, seed: u64) -> (Seq<u8>, u64) {
    if b.len() == 0 {
        (b, seed)
    } else {
        let s1 = lcg(seed);
        let idx = (s1 as usize) as int % (b.len() as int);
        let v = b[idx].wrapping_add(1);
        (b.update(idx, v), s1.wrapping_add(v as u64))
    }
}

/// The first `k` blocks touched in order.
pub open spec fn touch_prefix(bs: Seq<Seq<u8>>, seed: u64, k: nat) -> (Seq<Seq<u8>>, u64)
    decreases k,
{
    if k == 0 {
        (bs, seed)
    } else {
        let prev = touch_prefix(bs, seed, (k - 1) as nat);
        let t = touch_block(prev.0[k - 1], prev.1);
        (prev.0.update(k - 1, t.0), t.1)
    }
}

/// `p` passes over all blocks.
pub open spec fn touch_passes(bs: Seq<Seq<u8>>, seed: u64, p: nat) -> (Seq<Seq<u8>>, u64)
    decreases p,
{
    if p == 0 {
        (bs, seed)
    } else {
        let prev = touch_passes(bs, seed, (p - 1) as nat);
        touch_prefix(prev.0, prev.1, prev.0.len())
    }
}

/// Seed of the random access pattern.
pub const TOUCH_SEED: u64 = 0xDEAD_BEEF_CAFE_BABE;

/// The blocks after the random access workload at `level`: `max(scale(64), 8)` passes.
pub open spec fn touched(bs: Seq<Seq<u8>>, level: nat) -> Seq<Seq<u8>> {
    touch_passes(bs, TOUCH_SEED, at_least(scaled(64, level), 8)).0
}

proof fn lemma_touch_prefix_len(bs: Seq<Seq<u8>>, seed: u64, k: nat)
    requires
        k <= bs.len(),
    ensures
        touch_prefix(bs, seed, k).0.len() == bs.len(),
    decreases k,
{
    if k > 0 {
        lemma_touch_prefix_len(bs, seed, (k - 1) as nat);
    }
}

proof fn lemma_touch_passes_len(bs: Seq<Seq<u8>>, seed: u64, p: nat)
    ensures
        touch_passes(bs, seed, p).0.len() == bs.len(),
    decreases p,
{
    if p > 0 {
        lemma_touch_passes_len(bs, seed, (p - 1) as nat);
        let prev = touch_passes(bs, seed, (p - 1) as nat);
        lemma_touch_prefix_len(prev.0, prev.1, prev.0.len());
    }
}

fn touch_one(block: &mut Vec<u8>, seed: u64) -> (r: u64)
    ensures
        (final(block)@, r) == touch_block(old(block)@, seed),
{
    reveal(touch_block);
    if block.len() == 0 {
        return seed;
    }
    let s1 = seed.wrapping_mul(6364136223846793005).wrapping_add(1);
    let idx = (s1 as usize) % block.len();
    let v = block[idx].wrapping_add(1);
    block.set(idx, v);
    s1.wrapping_add(v as u64)
}

fn touch_pass(blocks: &mut Vec<Vec<u8>>, seed: u64) -> (r: u64)
    ensures
        (views(final(blocks)@), r) == touch_prefix(views(old(blocks)@), seed, old(blocks)@.len() as nat),
        final(blocks)@.len() == old(blocks)@.len(),
{
    let ghost cur = views(blocks@);
    let n = blocks.len();
    let mut s = seed;
    let mut j: usize = 0;
    while j < n
        invariant
            j <= n,
            n == blocks@.len(),
            cur.len() == n,
            views(blocks@) == touch_prefix(cur, seed, j as nat).0,
            s == touch_prefix(cur, seed, j as nat).1,
        decreases n - j,
    {
        proof {
            lemma_touch_prefix_len(cur, seed, j as nat);
        }
        let ghost before = views(blocks@);
        let mut block: Vec<u8> = Vec::new();
        blocks.set_and_swap(j, &mut block);
        assert(block@ == before[j as int]);
        s = touch_one(&mut block, s);
        let ghost nb = block@;
        blocks.set_and_swap(j, &mut block);
        assert(views(blocks@) =~= before.update(j as int, nb));
        j = j + 1;
    }
    s
}

/// Random stride access to defeat prefetch and exercise TLB pressure.
pub fn touch(blocks: &mut Vec<Vec<u8>>, intensity: Intensity)
    ensures
        views(final(blocks)@) == touched(views(old(blocks)@), intensity.0 as nat),
{
    let passes = max_usize(intensity.scale_usize(64), 8);
    let mut seed: u64 = TOUCH_SEED;
    let ghost start = views(blocks@);
    let n = blocks.len();
    let mut p: usize = 0;
    while p < passes
        invariant
            p <= passes,
            n == blocks@.len(),
            start.len() == n,
            views(blocks@) == touch_passes(start, TOUCH_SEED, p as nat).0,
            seed == touch_passes(start, TOUCH_SEED, p as nat).1,
        decreases passes - p,
    {
        proof {
            lemma_touch_passes_len(start, TOUCH_SEED, p as nat);
        }
        seed = touch_pass(blocks, seed);
        p = p + 1;
    }
}

/// A block with its first `lim` bytes each raised by their index modulo 256 (wrapping).
pub open spec fn bump(b: Seq<u8>, lim: nat) -> Seq<u8> {
    Seq::new(b.len(), |i: int| if i < lim { b[i].wrapping_add((i % 256) as u8) } else { b[i] })
}

/// Every block bumped once.
pub open spec fn bump_all(bs: Seq<Seq<u8>>, lim: nat) -> Seq<Seq<u8>> {
    bs.map_values(|b: Seq<u8>| bump(b, lim))
}

/// `p` bumping passes over all blocks.
pub open spec fn bump_passes(bs: Seq<Seq<u8>>, lim: nat, p: nat) -> Seq<Seq<u8>>
    decreases p,
{
    if p == 0 {
        bs
    } else {
        bump_all(bump_passes(bs, lim, (p - 1) as nat), lim)
    }
}

/// Size of the bandwidth workload's copy buffer at `level`.
pub open spec fn scratch_len(level: nat) -> nat {
    at_least(scaled(1048576, level), 262144)
}

/// The blocks after the bandwidth workload at `level`: `max(scale(4), 1)` passes, each
/// copying a block's first `scratch_len` bytes out and writing them back raised by
/// their index modulo 256.
pub open spec fn saturated(bs: Seq<Seq<u8>>, level: nat) -> Seq<Seq<u8>> {
    if bs.len() == 0 {
        bs
    } else {
        bump_passes(bs, scratch_len(level), at_least(scaled(4, level), 1))
    }
}

proof fn lemma_bump_passes_len(bs: Seq<Seq<u8>>, lim: nat, p: nat)
    ensures
        bump_passes(bs, lim, p).len() == bs.len(),
    decreases p,
{
    if p > 0 {
        lemma_bump_passes_len(bs, lim, (p - 1) as nat);
    }
}

fn bump_block(block: &mut Vec<u8>, scratch: &mut Vec<u8>)
    ensures
        final(block)@ == bump(old(block)@, old(scratch)@.len() as nat),
        final(scratch)@.len() == old(scratch)@.len(),
{
    let ghost orig = block@;
    let ghost slen = scratch@.len();
    let len = if block.len() < scratch.len() {
        block.len()
    } else {
        scratch.len()
    };
    let mut i: usize = 0;
    while i < len
        invariant
            i <= len,
            len <= block@.len(),
            len <= scratch@.len(),
            scratch@.len() == slen,
            block@ == orig,
            forall|k: int| 0 <= k < i ==> scratch@[k] == orig[k],
        decreases len - i,
    {
        scratch.set(i, block[i]);
        i = i + 1;
    }
    let mut i: usize = 0;
    while i < len
        invariant
            i <= len,
            len <= orig.len(),
            len <= scratch@.len(),
            len == orig.len() || len == slen,
            scratch@.len() == slen,
            block@.len() == orig.len(),
            forall|k: int| 0 <= k < len ==> scratch@[k] == orig[k],
            forall|k: int|
                0 <= k < orig.len() ==> #[trigger] block@[k] == if k < i {
                    orig[k].wrapping_add((k % 256) as u8)
                } else {
                    orig[k]
                },
        decreases len - i,
    {
        assert((i & 0xFF) == i % 256) by (bit_vector);
        let v = scratch[i].wrapping_add((i & 0xFF) as u8);
        block.set(i, v);
        i = i + 1;
    }
    assert(block@ =~= bump(orig, slen as nat));
}

/// Sequential read/write/copy loop to saturate memory bandwidth.
/// `target_bytes` is not used to size the passes.
pub fn saturate(blocks: &mut Vec<Vec<u8>>, target_bytes: u64, intensity: Intensity)
    ensures
        views(final(blocks)@) == saturated(views(old(blocks)@), intensity.0 as nat),
{
    if blocks.len() == 0 {
        return;
    }
    let passes = max_usize(intensity.scale_usize(4), 1);
    let slen = max_usize(intensity.scale_usize(1048576), 262144);
    let mut scratch: Vec<u8> = vec![0u8; slen];
    let ghost start = views(blocks@);
    let n = blocks.len();
    let mut p: usize = 0;
    while p < passes
        invariant
            p <= passes,
            n == blocks@.len(),
            start.len() == n,
            n > 0,
            scratch@.len() == slen,
            slen as nat == scratch_len(intensity.0 as nat),
            views(blocks@) == bump_passes(start, slen as nat, p as nat),
        decreases passes - p,
    {
        let ghost cur = views(blocks@);
        proof {
            lemma_bump_passes_len(start, slen as nat, p as nat);
        }
        let mut j: usize = 0;
        while j < n
            invariant
                j <= n,
                n == blocks@.len(),
                cur.len() == n,
                scratch@.len() == slen,
                views(blocks@) =~= Seq::new(
                    n as nat,
                    |m: int| if m < j { bump(cur[m], slen as nat) } else { cur[m] },
                ),
            decreases n - j,
        {
            let ghost before = views(blocks@);
            let mut block: Vec<u8> = Vec::new();
            blocks.set_and_swap(j, &mut block);
            assert(block@ == before[j as int]);
            let ghost orig = block@;
            assert(orig == cur[j as int]);
            bump_block(&mut block, &mut scratch);
            assert(block@ =~= bump(orig, slen as nat));
            blocks.set_and_swap(j, &mut block);
            assert(views(blocks@) =~= before.update(j as int, bump(orig, slen as nat)));
            j = j + 1;
        }
        assert(views(blocks@) =~= bump_all(cur, slen as nat));
        p = p + 1;
    }
}

/// The size of each block the allocation phase adds at `level`: the scaled 4 MiB,
/// at least 1 MiB.
pub open spec fn chunk_size(level: nat) -> nat {
    at_least(scaled(4194304, level), 1048576)
}

/// A block of `n` bytes holding the repeating pattern 0, 1, ..., 255.
pub open spec fn pattern(n: nat) -> Seq<u8> {
    Seq::new(n, |i: int| (i % 256) as u8)
}

/// The total number of bytes held in the blocks.
pub open spec fn total_len(s: Seq<Seq<u8>>) -> nat
    decreases s.len(),
{
    if s.len() == 0 {
        0
    } else {
        total_len(s.drop_last()) + s.last().len()
    }
}

/// How many blocks of `chunk` bytes must be added to `held` bytes to reach `target`.
pub open spec fn blocks_needed(held: int, target: int, chunk: int) -> nat
    decreases (if held < target { target - held } else { 0 }),
{
    if held >= target || chunk <= 0 {
        0
    } else {
        1 + blocks_needed(held + chunk, target, chunk)
    }
}

/// The blocks after the allocation phase: pattern blocks are added until the held
/// total reaches the target; then, when more than eight blocks are held, the older
/// half (`len / 2` blocks) is released.
pub open spec fn allocated(bs: Seq<Seq<u8>>, target: u64, level: nat) -> Seq<Seq<u8>> {
    let c = chunk_size(level);
    let grown = bs + Seq::new(blocks_needed(total_len(bs) as int, target as int, c as int), |i: int| pattern(c));
    if grown.len() > 8 {
        grown.skip((grown.len() / 2) as int)
    } else {
        grown
    }
}

fn pattern_block(n: usize) -> (r: Vec<u8>)
    ensures
        r@ == pattern(n as nat),
{
    let mut b: Vec<u8> = vec![0u8; n];
    let mut i: usize = 0;
    while i < n
        invariant
            i <= n,
            b@.len() == n,
            forall|k: int| 0 <= k < i ==> #[trigger] b@[k] == (k % 256) as u8,
        decreases n - i,
    {
        assert((i & 0xFF) == i % 256) by (bit_vector);
        b.set(i, (i & 0xFF) as u8);
        i = i + 1;
    }
    assert(b@ =~= pattern(n as nat));
    b
}

fn held_bytes(blocks: &Vec<Vec<u8>>) -> (r: u128)
    ensures
        r as nat == total_len(views(blocks@)),
{
    let ghost all = views(blocks@);
    let mut held: u128 = 0;
    let mut i: usize = 0;
    while i < blocks.len()
        invariant
            i <= blocks@.len(),
            all == views(blocks@),
            held as nat == total_len(all.take(i as int)),
            held <= i * 0xffff_ffff_ffff_ffffu128,
        decreases blocks.len() - i,
    {
        assert(all.take(i + 1).drop_last() =~= all.take(i as int));
        let len: usize = blocks[i].len();
        assert(held + len <= (i + 1) * 0xffff_ffff_ffff_ffffu128) by (nonlinear_arith)
            requires
                held <= i * 0xffff_ffff_ffff_ffffu128,
                len <= 0xffff_ffff_ffff_ffffu128,
        ;
        held = held + len as u128;
        i = i + 1;
    }
    assert(all.take(blocks@.len() as int) =~= all);
    held
}

/// The state of the memory workload: the target, the phase counter and the held blocks.
pub struct MemoryState {
    target_bytes: u64,
    intensity: Intensity,
    phase: usize,
    large_blocks: Vec<Vec<u8>>,
}

/// What a `MemoryState` holds.
pub struct MemoryView {
    pub target_bytes: u64,
    pub level: u8,
    pub phase: usize,
    pub blocks: Seq<Seq<u8>>,
}

/// The state after one cycle: phase `0, 1, 2, 3` (mod 4) allocates, fragments,
/// touches at random, or streams through the blocks; then the phase advances.
pub open spec fn phase_step(s: MemoryView) -> MemoryView {
    let blocks = if s.phase % 4 == 0 {
        allocated(s.blocks, s.target_bytes, s.level as nat)
    } else if s.phase % 4 == 1 {
        fragmented(s.blocks)
    } else if s.phase % 4 == 2 {
        touched(s.blocks, s.level as nat)
    } else {
        saturated(s.blocks, s.level as nat)
    };
    MemoryView { phase: (s.phase + 1) as usize, blocks, ..s }
}

impl View for MemoryState {
    type V = MemoryView;

    closed spec fn view(&self) -> MemoryView {
        MemoryView {
            target_bytes: self.target_bytes,
            level: self.intensity.0,
            phase: self.phase,
            blocks: views(self.large_blocks@),
        }
    }
}

impl MemoryState {
    /// A state that holds nothing yet, at phase 0.
    pub fn new(target_bytes: u64, intensity: Intensity) -> (r: Self)
        ensures
            r@ == (MemoryView { target_bytes, level: intensity.0, phase: 0, blocks: Seq::empty() }),
    {
        let r = MemoryState { target_bytes, intensity, phase: 0, large_blocks: Vec::new() };
        assert(views(r.large_blocks@) =~= Seq::<Seq<u8>>::empty());
        r
    }

    /// The number of bytes the allocation phase aims to hold.
    pub fn target_bytes(&self) -> (r: u64)
        ensures
            r == self@.target_bytes,
    {
        self.target_bytes
    }

    /// The number of cycles run so far.
    pub fn phase(&self) -> (r: usize)
        ensures
            r == self@.phase,
    {
        self.phase
    }

    /// The blocks currently held.
    pub fn blocks(&self) -> (r: &Vec<Vec<u8>>)
        ensures
            views(r@) == self@.blocks,
    {
        &self.large_blocks
    }

    fn allocate_large_vectors(&mut self)
        ensures
            final(self)@ == (MemoryView {
                blocks: allocated(old(self)@.blocks, old(self)@.target_bytes, old(self)@.level as nat),
                ..old(self)@
            }),
    {
        let chunk = max_usize(self.intensity.scale_usize(4194304), 1048576);
        let ghost c = chunk as int;
        let ghost start = views(self.large_blocks@);
        let mut held: u128 = held_bytes(&self.large_blocks);
        let ghost need = blocks_needed(held as int, self.target_bytes as int, c);
        let ghost mut added: nat = 0;
        while held < self.target_bytes as u128
            invariant
                c == chunk as int,
                chunk >= 1,
                chunk as nat == chunk_size(self.intensity.0 as nat),
                self.target_bytes == old(self).target_bytes,
                self.intensity == old(self).intensity,
                self.phase == old(self).phase,
                start == views(old(self).large_blocks@),
                views(self.large_blocks@) == start + Seq::new(added as nat, |i: int| pattern(chunk as nat)),
                added + blocks_needed(held as int, self.target_bytes as int, c) == need,
                need == blocks_needed(total_len(start) as int, self.target_bytes as int, c),
            decreases self.target_bytes as int + chunk as int - held as int,
        {
            let block = pattern_block(chunk);
            let ghost before = views(self.large_blocks@);
            self.large_blocks.push(block);
            assert(views(self.large_blocks@) =~= before.push(pattern(chunk as nat)));
            held = held + chunk as u128;
            proof {
                added = added + 1;
            }
            assert(views(self.large_blocks@) =~= start + Seq::new(added as nat, |i: int| pattern(chunk as nat)));
        }
        assert(blocks_needed(held as int, self.target_bytes as int, c) == 0);
        assert(added == need);
        assert(chunk as nat == chunk_size(self.intensity.0 as nat));
        assert(views(self.large_blocks@) == start + Seq::new(
            blocks_needed(total_len(start) as int, self.target_bytes as int, chunk_size(self.intensity.0 as nat) as int),
            |i: int| pattern(chunk_size(self.intensity.0 as nat)),
        ));
        if self.large_blocks.len() > 8 {
            let drain = self.large_blocks.len() / 2;
            let ghost grown = views(self.large_blocks@);
            let tail = self.large_blocks.split_off(drain);
            self.large_blocks = tail;
            assert(views(self.large_blocks@) =~= grown.skip(drain as int));
        }
    }

    /// Runs the current phase's workload once and advances the phase (see `phase_step`).
    pub fn step(&mut self)
        requires
            old(self)@.phase < usize::MAX,
        ensures
            final(self)@ == phase_step(old(self)@),
    {
        let intensity = self.intensity;
        let phase = self.phase % 4;
        if phase == 0 {
            self.allocate_large_vectors();
        } else if phase == 1 {
            simulate(&mut self.large_blocks, intensity);
        } else if phase == 2 {
            touch(&mut self.large_blocks, intensity);
        } else {
            saturate(&mut self.large_blocks, self.target_bytes, intensity);
        }
        self.phase = self.phase + 1;
    }

    /// One cycle of the memory workload, unless the stop signal has fired: either
    /// nothing changes (stopped) or one `step` runs. Which of the two happens rests on
    /// the signal's atomic flag, which other threads may set at any time, so only the
    /// pair of outcomes is stated; `cycle_with` states each case exactly.
    pub fn cycle(&mut self, stop: &StopSignal)
        requires
            old(self)@.phase < usize::MAX,
        ensures
            final(self)@ == old(self)@ || final(self)@ == phase_step(old(self)@),
    {
        let stopped = stop.should_stop();
        self.cycle_with(stopped);
    }

    /// One cycle of the memory workload, given whether the stop signal has fired:
    /// nothing when it has, else one `step`.
    pub fn cycle_with(&mut self, stopped: bool)
        requires
            old(self)@.phase < usize::MAX,
        ensures
            final(self)@ == if stopped {
                old(self)@
            } else {
                phase_step(old(self)@)
            },
    {
        if stopped {
            return;
        }
        self.step();
    }
}

/// Sets up the memory workload on a machine described by `snapshot`: resolves the
/// target under the default 70% cap (or the override), checks the headroom, and
/// returns a fresh state for that target.
pub fn prepare_run(
    intensity: Intensity,
    memory_target: Option<u64>,
    cap_override: bool,
    snapshot: &SystemSnapshot,
) -> (r: Result<MemoryState, SafetyError>)
    ensures
        match target_outcome(DEFAULT_RAM_PERCENT, cap_override, memory_target, snapshot.total_memory) {
            Ok(t) => if headroom_ok(snapshot.available_memory, t) {
                r matches Ok(s) && s@ == (MemoryView {
                    target_bytes: t,
                    level: intensity.0,
                    phase: 0,
                    blocks: Seq::empty(),
                })
            } else {
                r == Err::<MemoryState, SafetyError>(
                    SafetyError::InsufficientHeadroom { available: snapshot.available_memory },
                )
            },
            Err(e) => r == Err::<MemoryState, SafetyError>(e),
        },
{
    let cap = MemorySafetyCap { max_percent: DEFAULT_RAM_PERCENT, override_cap: cap_override };
    let target = match cap.resolve_target_bytes(memory_target, snapshot.total_memory) {
        Ok(t) => t,
        Err(e) => return Err(e),
    };
    match MemorySafetyCap::check_available_headroom(snapshot.available_memory, target) {
        Ok(()) => Ok(MemoryState::new(target, intensity)),
        Err(e) => Err(e),
    }
}

proof fn lemma_total_push(s: Seq<Seq<u8>>, b: Seq<u8>)
    ensures
        total_len(s.push(b)) == total_len(s) + b.len(),
{
    assert(s.push(b).drop_last() =~= s);
}

proof fn lemma_total_first(s: Seq<Seq<u8>>)
    requires
        s.len() > 0,
    ensures
        total_len(s) == s[0].len() + total_len(s.drop_first()),
    decreases s.len(),
{
    let t = s.drop_last();
    let u = s.drop_first();
    assert(total_len(s) == total_len(t) + s.last().len());
    if s.len() > 1 {
        lemma_total_first(t);
        assert(t.drop_first() =~= u.drop_last());
        assert(u.last() == s.last());
        assert(t[0] == s[0]);
        assert(total_len(u) == total_len(u.drop_last()) + u.last().len());
    } else {
        assert(u.len() == 0);
        assert(t.len() == 0);
        assert(total_len(u) == 0);
        assert(total_len(t) == 0);
        assert(s.last() == s[0]);
    }
}

proof fn lemma_total_split_all(s: Seq<Seq<u8>>)
    ensures
        total_len(split_all(s)) == total_len(s),
    decreases s.len(),
{
    if s.len() > 0 {
        lemma_total_split_all(s.drop_last());
        let rest = split_all(s.drop_last());
        let b = s.last();
        if b.len() > 4096 {
            let l = b.take((b.len() / 2) as int);
            let r = b.skip((b.len() / 2) as int);
            lemma_total_push(rest, l);
            lemma_total_push(rest.push(l), r);
        } else {
            lemma_total_push(rest, b);
        }
    }
}

/// Law: fragmentation moves bytes between blocks but never gains or loses any.
pub proof fn law_fragmentation_keeps_bytes(s: Seq<Seq<u8>>)
    ensures
        total_len(fragmented(s)) == total_len(s),
{
    if s.len() > 0 {
        lemma_total_split_all(s);
        let t = split_all(s);
        if t.len() > 4 {
            lemma_total_first(t);
            lemma_total_first(t.drop_first());
            assert(t.drop_first().drop_first() =~= t.skip(2));
            lemma_total_push(t.skip(2), t[0] + t[1]);
        }
    }
}

proof fn lemma_touch_prefix_shape(bs: Seq<Seq<u8>>, seed: u64, k: nat)
    requires
        k <= bs.len(),
    ensures
        touch_prefix(bs, seed, k).0.len() == bs.len(),
        forall|i: int| 0 <= i < bs.len() ==> #[trigger] touch_prefix(bs, seed, k).0[i].len() == bs[i].len(),
    decreases k,
{
    if k > 0 {
        lemma_touch_prefix_shape(bs, seed, (k - 1) as nat);
        let prev = touch_prefix(bs, seed, (k - 1) as nat);
        lemma_touch_block_len(prev.0[k - 1], prev.1);
        let cur = touch_prefix(bs, seed, k);
        assert(cur.0 == prev.0.update(k - 1, touch_block(prev.0[k - 1], prev.1).0));
        assert forall|i: int| 0 <= i < bs.len() implies #[trigger] cur.0[i].len() == bs[i].len() by {
            if i != k - 1 {
                assert(cur.0[i] == prev.0[i]);
            }
        }
    }
}

proof fn lemma_touch_block_len(b: Seq<u8>, seed: u64)
    ensures
        touch_block(b, seed).0.len() == b.len(),
{
    reveal(touch_block);
}

/// Law: the random access workload changes bytes in place; the number of blocks and
/// each block's length stay as they were.
pub proof fn law_touch_keeps_shape(bs: Seq<Seq<u8>>, seed: u64, p: nat)
    ensures
        touch_passes(bs, seed, p).0.len() == bs.len(),
        forall|i: int| 0 <= i < bs.len() ==> #[trigger] touch_passes(bs, seed, p).0[i].len() == bs[i].len(),
    decreases p,
{
    if p > 0 {
        law_touch_keeps_shape(bs, seed, (p - 1) as nat);
        let prev = touch_passes(bs, seed, (p - 1) as nat);
        lemma_touch_prefix_shape(prev.0, prev.1, prev.0.len());
    }
}

/// Law: the bandwidth workload changes bytes in place; the number of blocks and each
/// block's length stay as they were.
pub proof fn law_saturate_keeps_shape(bs: Seq<Seq<u8>>, lim: nat, p: nat)
    ensures
        bump_passes(bs, lim, p).len() == bs.len(),
        forall|i: int| 0 <= i < bs.len() ==> #[trigger] bump_passes(bs, lim, p)[i].len() == bs[i].len(),
    decreases p,
{
    if p > 0 {
        law_saturate_keeps_shape(bs, lim, (p - 1) as nat);
    }
}

proof fn lemma_total_concat(a: Seq<Seq<u8>>, b: Seq<Seq<u8>>)
    ensures
        total_len(a + b) == total_len(a) + total_len(b),
    decreases b.len(),
{
    if b.len() == 0 {
        assert(a + b =~= a);
    } else {
        lemma_total_concat(a, b.drop_last());
        assert((a + b).drop_last() =~= a + b.drop_last());
        assert((a + b).last() == b.last());
    }
}

proof fn lemma_total_skip(s: Seq<Seq<u8>>, k: int)
    requires
        0 <= k <= s.len(),
    ensures
        total_len(s.skip(k)) <= total_len(s),
{
    lemma_total_concat(s.take(k), s.skip(k));
    assert(s.take(k) + s.skip(k) =~= s);
}

proof fn lemma_total_same_shape(a: Seq<Seq<u8>>, b: Seq<Seq<u8>>)
    requires
        a.len() == b.len(),
        forall|i: int| 0 <= i < a.len() ==> #[trigger] a[i].len() == b[i].len(),
    ensures
        total_len(a) == total_len(b),
    decreases a.len(),
{
    if a.len() > 0 {
        lemma_total_same_shape(a.drop_last(), b.drop_last());
        assert(a.last().len() == b.last().len());
    }
}

proof fn lemma_total_uniform(n: nat, c: nat)
    ensures
        total_len(Seq::new(n, |i: int| pattern(c))) == n * c,
    decreases n,
{
    if n > 0 {
        let s = Seq::new(n, |i: int| pattern(c));
        assert(s.drop_last() =~= Seq::new((n - 1) as nat, |i: int| pattern(c)));
        lemma_total_uniform((n - 1) as nat, c);
        assert(s.last() == pattern(c));
        assert(pattern(c).len() == c);
        assert(total_len(s) == total_len(s.drop_last()) + s.last().len());
        assert((n - 1) * c + c == n * c) by (nonlinear_arith);
    } else {
        assert(total_len(Seq::new(n, |i: int| pattern(c))) == 0);
        assert(n * c == 0) by (nonlinear_arith)
            requires
                n == 0,
        ;
    }
}

proof fn lemma_blocks_needed_overshoot(held: int, target: int, c: int)
    requires
        c > 0,
    ensures
        blocks_needed(held, target, c) == 0 || held + blocks_needed(held, target, c) * c < target + c,
        blocks_needed(held, target, c) == 0 <==> held >= target,
    decreases (if held < target { target - held } else { 0 }),
{
    if held < target {
        let rest = blocks_needed(held + c, target, c);
        lemma_blocks_needed_overshoot(held + c, target, c);
        assert(blocks_needed(held, target, c) == 1 + rest);
        assert((1 + rest) * c == c + rest * c) by (nonlinear_arith);
        if rest == 0 {
            assert(rest * c == 0) by (nonlinear_arith)
                requires
                    rest == 0,
            ;
        } else {
            assert(held + c + rest * c < target + c);
        }
    }
}

/// Whether a memory state holds at most its target plus one allocation chunk.
pub open spec fn held_within_bound(s: MemoryView) -> bool {
    total_len(s.blocks) <= s.target_bytes + chunk_size(s.level as nat)
}

/// Law: the memory workload never grows without bound. A fresh state holds nothing,
/// and from any state that holds at most its target plus one allocation chunk, every
/// phase (allocation, fragmentation, random access, bandwidth) keeps it so.
pub proof fn law_held_bytes_bounded(s: MemoryView)
    ensures
        s.blocks.len() == 0 ==> held_within_bound(s),
        held_within_bound(s) ==> held_within_bound(phase_step(s)),
{
    let c = chunk_size(s.level as nat);
    let next = phase_step(s);
    assert(next.target_bytes == s.target_bytes && next.level == s.level);
    if held_within_bound(s) {
        if s.phase % 4 == 0 {
            let held = total_len(s.blocks);
            let n = blocks_needed(held as int, s.target_bytes as int, c as int);
            let added = Seq::new(n, |i: int| pattern(c));
            let grown = s.blocks + added;
            lemma_total_concat(s.blocks, added);
            lemma_total_uniform(n, c);
            lemma_blocks_needed_overshoot(held as int, s.target_bytes as int, c as int);
            assert(total_len(grown) <= s.target_bytes + c);
            if grown.len() > 8 {
                lemma_total_skip(grown, (grown.len() / 2) as int);
            }
        } else if s.phase % 4 == 1 {
            law_fragmentation_keeps_bytes(s.blocks);
        } else if s.phase % 4 == 2 {
            let p = at_least(scaled(64, s.level as nat), 8);
            law_touch_keeps_shape(s.blocks, TOUCH_SEED, p);
            lemma_total_same_shape(touched(s.blocks, s.level as nat), s.blocks);
        } else if s.blocks.len() > 0 {
            let p = at_least(scaled(4, s.level as nat), 1);
            law_saturate_keeps_shape(s.blocks, scratch_len(s.level as nat), p);
            lemma_total_same_shape(saturated(s.blocks, s.level as nat), s.blocks);
        }
    }
}

} // verus!
