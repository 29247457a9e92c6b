use vstd::prelude::*;

use crate::config::{scaled, Intensity};
use crate::digest::{blake3_digest, blake3_hash, le_u64, read_le_u64, sha256, sha256_digest};
use crate::mem::at_least;
use crate::text::{decimal, decimal_string, ends_with, join2, join_path, path_join};
use vstd::string::StringExecFns;

verus! {

/// Sizes of one round of the disk I/O stress.
#[derive(Debug, Clone, Copy, PartialEq, Eq, Structural)]
pub struct IoPlan {
    /// Files each writer thread writes per round.
    pub file_count: usize,
    /// Bytes written to each of those files.
    pub buffer_bytes: usize,
    /// Small artifacts (64 bytes each) per round.
    pub small_count: usize,
    /// Large artifacts per round.
    pub large_count: usize,
    /// Bytes of each large artifact.
    pub large_size: usize,
    /// Whether file hashing uses BLAKE3 (else SHA-256).
    pub use_blake3: bool,
}

/// The round sizes at `level`.
pub open spec fn io_plan_of(level: nat) -> IoPlan {
    IoPlan {
        file_count: at_least(scaled(8, level), 2) as usize,
        buffer_bytes: (at_least(scaled(256, level), 64) * 1024) as usize,
        small_count: at_least(scaled(200, level), 20) as usize,
        large_count: at_least(scaled(4, level), 1) as usize,
        large_size: at_least(scaled(524288, level), 65536) as usize,
        use_blake3: level >= 5,
    }
}

fn max_usize(v: usize, m: usize) -> (r: usize)
    ensures
        r as nat == at_least(v as nat, m as nat),
{
    if v < m {
        m
    } else {
        v
    }
}

/// The sizes of one I/O round at this intensity.
pub fn io_plan(intensity: Intensity) -> (r: IoPlan)
    ensures
        r == io_plan_of(intensity.0 as nat),
{
    let kb = max_usize(intensity.scale_usize(256), 64);
    assert(kb <= 13056) by {
        assert(2 * (256 * (intensity.0 as nat)) + 5 <= 130565);
    }
    IoPlan {
        file_count: max_usize(intensity.scale_usize(8), 2),
        buffer_bytes: kb * 1024,
        small_count: max_usize(intensity.scale_usize(200), 20),
        large_count: max_usize(intensity.scale_usize(4), 1),
        large_size: max_usize(intensity.scale_usize(524288), 65536),
        use_blake3: intensity.0 >= 5,
    }
}

/// The name of the `i`-th file of writer `tid`: `stress-<tid>-<i>.bin`.
pub fn stress_file_name(tid: usize, i: usize) -> (r: String)
    ensures
        r@ == "stress-"@ + decimal(tid as nat) + "-"@ + decimal(i as nat) + ".bin"@,
{
    let t = decimal_string(tid as u64);
    let n = decimal_string(i as u64);
    let r = join2("stress-", t.as_str()).concat("-").concat(n.as_str()).concat(".bin");
    assert(r@ =~= "stress-"@ + decimal(tid as nat) + "-"@ + decimal(i as nat) + ".bin"@);
    r
}

/// The name of the `i`-th small artifact: `obj-<i>.o`.
pub fn object_name(i: usize) -> (r: String)
    ensures
        r@ == "obj-"@ + decimal(i as nat) + ".o"@,
{
    let n = decimal_string(i as u64);
    join2("obj-", n.as_str()).concat(".o")
}

/// The name of the `i`-th large artifact: `lib-<i>.rlib`.
pub fn library_name(i: usize) -> (r: String)
    ensures
        r@ == "lib-"@ + decimal(i as nat) + ".rlib"@,
{
    let n = decimal_string(i as u64);
    join2("lib-", n.as_str()).concat(".rlib")
}

/// The name of the `i`-th tiny file: `tiny-<i>.tmp`.
pub fn tiny_name(i: usize) -> (r: String)
    ensures
        r@ == "tiny-"@ + decimal(i as nat) + ".tmp"@,
{
    let n = decimal_string(i as u64);
    join2("tiny-", n.as_str()).concat(".tmp")
}

/// Whether the artifact listed at position `idx` is deleted at the end of a round
/// (every third one, starting with the first).
pub fn deleted_in_round(idx: usize) -> (r: bool)
    ensures
        r == (idx % 3 == 0),
{
    idx % 3 == 0
}

/// The directory that holds the artifacts under `base`: `base` joined with `artifacts`.
pub fn default_artifact_path(base: &str) -> (r: String)
    ensures
        r@ == path_join(base@, "artifacts"@),
        ends_with(r@, "artifacts"@),
{
    proof {
        reveal_strlit("artifacts");
        reveal_strlit(".");
        reveal_strlit("..");
    }
    join_path(base, "artifacts")
}

/// The 64-bit fingerprint of a file's contents: the first eight bytes, read
/// little-endian, of its BLAKE3 hash (or of its SHA-256 digest).
pub fn file_digest(data: &[u8], use_blake3: bool) -> (r: u64)
    ensures
        r == if use_blake3 {
            le_u64(blake3_hash(data@))
        } else {
            le_u64(sha256(data@))
        },
{
    if use_blake3 {
        let h = blake3_digest(data);
        read_le_u64(&h)
    } else {
        let h = sha256_digest(data);
        read_le_u64(&h)
    }
}

} // verus!
