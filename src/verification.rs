use crate::random::fill_secure_random;
use crate::types::DriveError;
use vstd::prelude::*;

verus! {

/// Addressable unit of a block device, in bytes.
pub const SECTOR_SIZE: u64 = 512;

/// Largest number of sector windows sampled in one audit.
pub const MAX_TEST_SECTORS: u64 = 1000;

/// Bytes read at each sampled sector offset.
pub const WINDOW_SIZE: usize = 4096;

/// Largest prefix of the device read for the entropy estimate (100 MiB).
pub const ENTROPY_SAMPLE_MAX: u64 = 104857600;

/// Number of occurrences of byte value `b` in `s`.
pub open spec fn count_byte(s: Seq<u8>, b: u8) -> nat
    decreases s.len(),
{
    if s.len() == 0 {
        0
    } else {
        count_byte(s.drop_last(), b) + if s.last() == b {
            1nat
        } else {
            0nat
        }
    }
}

/// More than 80% of the bytes of `s` equal `b`.
pub open spec fn dominated_by(s: Seq<u8>, b: u8) -> bool {
    10 * count_byte(s, b) > 8 * s.len()
}

/// A window whose bytes are mostly 0x00 or mostly 0xFF; no other dominant
/// value counts.
pub open spec fn is_suspicious(s: Seq<u8>) -> bool {
    dominated_by(s, 0x00) || dominated_by(s, 0xFF)
}

/// Number of sectors at which a whole window fits inside a device of
/// `size` bytes.
pub open spec fn window_sectors(size: u64) -> nat {
    if size < WINDOW_SIZE {
        0
    } else {
        ((size - WINDOW_SIZE) / (SECTOR_SIZE as int) + 1) as nat
    }
}

/// How many sector windows an audit samples on a device of `size` bytes.
pub open spec fn test_sector_count(size: u64) -> nat {
    if window_sectors(size) < MAX_TEST_SECTORS {
        window_sectors(size)
    } else {
        MAX_TEST_SECTORS as nat
    }
}

proof fn lemma_count_byte_bounded(s: Seq<u8>, b: u8)
    ensures
        count_byte(s, b) <= s.len(),
    decreases s.len(),
{
    if s.len() > 0 {
        lemma_count_byte_bounded(s.drop_last(), b);
    }
}

proof fn lemma_count_byte_prefix(s: Seq<u8>, i: int, b: u8)
    requires
        0 <= i < s.len(),
    ensures
        count_byte(s.subrange(0, i + 1), b) == count_byte(s.subrange(0, i), b) + if s[i] == b {
            1nat
        } else {
            0nat
        },
{
    assert(s.subrange(0, i + 1).drop_last() =~= s.subrange(0, i));
}

proof fn lemma_count_byte_is_multiplicity(s: Seq<u8>, b: u8)
    ensures
        count_byte(s, b) == s.to_multiset().count(b),
    decreases s.len(),
{
    broadcast use vstd::seq_lib::group_to_multiset_ensures;

    if s.len() == 0 {
        assert(s.to_multiset().len() == 0);
    } else {
        lemma_count_byte_is_multiplicity(s.drop_last(), b);
        assert(s =~= s.drop_last().push(s.last()));
    }
}

/// The byte histogram, and so any entropy estimate computed from it, depends
/// only on how often each byte value occurs: two samples that hold the same
/// bytes, in any order, have the same histogram.
pub proof fn lemma_histogram_order_independent(a: Seq<u8>, b: Seq<u8>)
    requires
        a.to_multiset() == b.to_multiset(),
    ensures
        forall|v: u8| count_byte(a, v) == #[trigger] count_byte(b, v),
{
    assert forall|v: u8| count_byte(a, v) == #[trigger] count_byte(b, v) by {
        lemma_count_byte_is_multiplicity(a, v);
        lemma_count_byte_is_multiplicity(b, v);
    }
}

proof fn lemma_window_fits(offset: u64, sectors: u64, size: u64)
    requires
        sectors as nat == window_sectors(size),
        sectors > 0,
        offset % SECTOR_SIZE == 0,
        offset + SECTOR_SIZE <= sectors * SECTOR_SIZE,
    ensures
        offset + WINDOW_SIZE <= size,
{
    let k = offset / SECTOR_SIZE;
    let m = (size - WINDOW_SIZE) / (SECTOR_SIZE as int);
    assert(offset == k * 512) by (nonlinear_arith)
        requires offset % 512 == 0, k == offset / 512;
    assert(k <= m) by (nonlinear_arith)
        requires offset == k * 512, offset + 512 <= (m + 1) * 512, k >= 0;
    assert(m * 512 <= size - 4096) by (nonlinear_arith)
        requires m == (size - 4096) / 512, size >= 4096;
    assert(k * 512 <= m * 512) by (nonlinear_arith)
        requires k <= m, k >= 0;
}

/// Post-wipe audit: sector sampling and byte statistics of what the device
/// holds, independent of what the wipe reported.
pub struct RecoveryTest;

impl RecoveryTest {
    /// The sector-aligned offset that the draw `draw` selects among
    /// `total_sectors` sectors.
    pub fn sector_offset(draw: u64, total_sectors: u64) -> (r: u64)
        requires
            0 < total_sectors <= u64::MAX / SECTOR_SIZE,
        ensures
            r == (draw % total_sectors) * SECTOR_SIZE,
            r % SECTOR_SIZE == 0,
            r + SECTOR_SIZE <= total_sectors * SECTOR_SIZE,
    {
        let sector = draw % total_sectors;
        proof {
            assert(sector + 1 <= total_sectors);
            assert((sector + 1) * SECTOR_SIZE <= total_sectors * SECTOR_SIZE) by (nonlinear_arith)
                requires
                    sector + 1 <= total_sectors,
            ;
        }
        sector * SECTOR_SIZE
    }

    /// A fresh 64-bit draw from the secure random source, or an I/O error when
    /// the source is unavailable.
    fn draw() -> (r: Result<u64, DriveError>)
        ensures
            r matches Err(e) ==> e is IoError,
    {
        let mut bytes: Vec<u8> = Vec::new();
        let mut k: usize = 0;
        while k < 8
            invariant
                k <= 8,
                bytes@.len() == k,
            decreases 8 - k,
        {
            bytes.push(0);
            k = k + 1;
        }
        if fill_secure_random(&mut bytes).is_err() {
            return Err(DriveError::IoError("secure random source unavailable".to_owned()));
        }
        let mut value: u64 = 0;
        let mut i: usize = 0;
        while i < 8
            invariant
                i <= 8,
                bytes@.len() == 8,
            decreases 8 - i,
        {
            value = (value << 8u64) | (bytes[i] as u64);
            i = i + 1;
        }
        Ok(value)
    }

    /// Up to a thousand sector-aligned offsets drawn uniformly, with
    /// replacement, among the sectors at which a whole window lies inside a
    /// device of `size` bytes. Fails with an I/O error only when the secure
    /// random source is unavailable.
    pub fn generate_test_sectors(size: u64) -> (r: Result<Vec<u64>, DriveError>)
        ensures
            r matches Ok(v) ==> {
                &&& v@.len() == test_sector_count(size)
                &&& forall|i: int|
                    0 <= i < v@.len() ==> #[trigger] v@[i] % SECTOR_SIZE == 0 && v@[i]
                        + WINDOW_SIZE <= size
            },
            r matches Err(e) ==> e is IoError,
            size < WINDOW_SIZE ==> (r matches Ok(v) && v@.len() == 0),
    {
        let sectors = if size < WINDOW_SIZE as u64 {
            0
        } else {
            (size - WINDOW_SIZE as u64) / SECTOR_SIZE + 1
        };
        let tests = if sectors < MAX_TEST_SECTORS {
            sectors
        } else {
            MAX_TEST_SECTORS
        };
        let mut test_sectors: Vec<u64> = Vec::new();
        let mut n: u64 = 0;
        while n < tests
            invariant
                n <= tests,
                tests as nat == test_sector_count(size),
                tests <= sectors,
                sectors as nat == window_sectors(size),
                test_sectors@.len() == n,
                forall|i: int|
                    0 <= i < test_sectors@.len() ==> #[trigger] test_sectors@[i] % SECTOR_SIZE
                        == 0 && test_sectors@[i] + WINDOW_SIZE <= size,
            decreases tests - n,
        {
            let draw = Self::draw()?;
            let offset = Self::sector_offset(draw, sectors);
            proof {
                lemma_window_fits(offset, sectors, size);
            }
            test_sectors.push(offset);
            n = n + 1;
        }
        Ok(test_sectors)
    }

    fn count_byte_in(window: &[u8], b: u8) -> (r: usize)
        ensures
            r == count_byte(window@, b),
    {
        let mut count: usize = 0;
        let mut i: usize = 0;
        while i < window.len()
            invariant
                i <= window@.len(),
                count == count_byte(window@.subrange(0, i as int), b),
            decreases window@.len() - i,
        {
            proof {
                lemma_count_byte_prefix(window@, i as int, b);
                lemma_count_byte_bounded(window@.subrange(0, i as int), b);
            }
            if window[i] == b {
                count = count + 1;
            }
            i = i + 1;
        }
        assert(window@.subrange(0, i as int) =~= window@);
        count
    }

    /// Whether a window read from a sampled sector looks wiped: true unless
    /// more than 80% of its bytes are 0x00, or more than 80% are 0xFF.
    pub fn verify_sector_wiped(window: &[u8]) -> (r: bool)
        ensures
            r == !is_suspicious(window@),
    {
        let len = window.len() as u128;
        let zeros = Self::count_byte_in(window, 0x00) as u128;
        let ones = Self::count_byte_in(window, 0xFF) as u128;
        !(10 * zeros > 8 * len || 10 * ones > 8 * len)
    }

    /// Byte-value histogram of a sample: entry `b` counts the bytes equal to `b`.
    pub fn byte_histogram(sample: &[u8]) -> (r: Vec<u64>)
        ensures
            r@.len() == 256,
            forall|b: u8| #[trigger] r@[b as int] == count_byte(sample@, b),
    {
        let mut counts: Vec<u64> = Vec::new();
        let mut k: usize = 0;
        while k < 256
            invariant
                k <= 256,
                counts@.len() == k,
                forall|j: int| 0 <= j < k ==> counts@[j] == 0,
            decreases 256 - k,
        {
            counts.push(0);
            k = k + 1;
        }
        let mut i: usize = 0;
        while i < sample.len()
            invariant
                i <= sample@.len(),
                counts@.len() == 256,
                forall|b: u8| #[trigger] counts@[b as int] == count_byte(sample@.subrange(0, i as int), b),
            decreases sample@.len() - i,
        {
            let byte = sample[i];
            proof {
                assert forall|b: u8| #[trigger] count_byte(sample@.subrange(0, i as int + 1), b)
                    == count_byte(sample@.subrange(0, i as int), b) + if sample@[i as int] == b {
                    1nat
                } else {
                    0nat
                } by {
                    lemma_count_byte_prefix(sample@, i as int, b);
                }
                lemma_count_byte_bounded(sample@.subrange(0, i as int), byte);
            }
            let idx = byte as usize;
            let bumped = counts[idx] + 1;
            counts.set(idx, bumped);
            i = i + 1;
        }
        assert(sample@.subrange(0, i as int) =~= sample@);
        counts
    }

    /// Length of the prefix of a `size`-byte device sampled for the entropy
    /// estimate: 100 MiB, or the whole device if it is smaller.
    pub fn entropy_sample_len(size: u64) -> (r: u64)
        ensures
            r == if size < ENTROPY_SAMPLE_MAX {
                size
            } else {
                ENTROPY_SAMPLE_MAX
            },
    {
        if size < ENTROPY_SAMPLE_MAX {
            size
        } else {
            ENTROPY_SAMPLE_MAX
        }
    }
}

} // verus!
