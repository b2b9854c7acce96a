//! Statistical verification of a wiped device: where to sample, how each
//! sample is classified, and the verdict over all samples.

use rand::Rng;
use vstd::prelude::*;
use vstd::string::StringExecFns;

use crate::algorithms::{SecurityLevel, WipeAlgorithm};
use crate::text::{decimal, push_decimal};

verus! {

/// Bytes read per sample.
pub const SAMPLE_SIZE: usize = 4096;

/// Bytes in a gibibyte.
pub const GIB: u64 = 1073741824;

/// Bytes in a mebibyte.
pub const MIB: u64 = 1048576;

/// How thoroughly a device is sampled.
#[derive(Debug, Clone, Copy, PartialEq, Eq, Structural)]
pub enum VerificationType {
    /// Few random samples.
    Quick,
    /// More random samples.
    Standard,
    /// Many samples, most of them evenly spaced.
    Comprehensive,
    /// A fixed number of evenly spaced samples.
    Custom,
}

/// The verdict over all samples.
#[derive(Debug, Clone, Copy, PartialEq, Eq, Structural)]
pub enum VerificationStatus {
    Passed,
    Failed,
    Warning,
    Inconclusive,
}

impl VerificationStatus {
    pub open spec fn spec_label(self) -> Seq<char> {
        match self {
            VerificationStatus::Passed => "Passed"@,
            VerificationStatus::Failed => "Failed"@,
            VerificationStatus::Warning => "Warning"@,
            VerificationStatus::Inconclusive => "Inconclusive"@,
        }
    }

    /// The verdict's name.
    pub fn label(&self) -> (r: String)
        ensures
            r@ == self.spec_label(),
    {
        match self {
            VerificationStatus::Passed => String::from_str("Passed"),
            VerificationStatus::Failed => String::from_str("Failed"),
            VerificationStatus::Warning => String::from_str("Warning"),
            VerificationStatus::Inconclusive => String::from_str("Inconclusive"),
        }
    }
}

/// The class of data found in a sample.
#[derive(Debug, Clone, Copy, PartialEq, Eq, Structural)]
pub enum PatternType {
    AllZeros,
    AllOnes,
    Repeating,
    Random,
    Structured,
    Suspicious,
}

impl PatternType {
    pub open spec fn spec_label(self) -> Seq<char> {
        match self {
            PatternType::AllZeros => "All Zeros"@,
            PatternType::AllOnes => "All Ones"@,
            PatternType::Repeating => "Repeating"@,
            PatternType::Random => "Random"@,
            PatternType::Structured => "Structured"@,
            PatternType::Suspicious => "Suspicious"@,
        }
    }

    /// The class's name.
    pub fn label(&self) -> (r: String)
        ensures
            r@ == self.spec_label(),
    {
        match self {
            PatternType::AllZeros => String::from_str("All Zeros"),
            PatternType::AllOnes => String::from_str("All Ones"),
            PatternType::Repeating => String::from_str("Repeating"),
            PatternType::Random => String::from_str("Random"),
            PatternType::Structured => String::from_str("Structured"),
            PatternType::Suspicious => String::from_str("Suspicious"),
        }
    }
}

/// The sampling depth for a device: comprehensive below 100 GiB, then
/// standard for algorithms of level High or above, quick otherwise.
pub open spec fn spec_verification_type(device_size: u64, level: SecurityLevel) -> VerificationType {
    if device_size < 100 * GIB {
        VerificationType::Comprehensive
    } else if level.rank() >= 2 {
        VerificationType::Standard
    } else {
        VerificationType::Quick
    }
}

/// `x` held within `[lo, hi]`.
pub open spec fn clamp(x: int, lo: int, hi: int) -> int {
    if x < lo { lo } else if x > hi { hi } else { x }
}

/// How many samples a verification of the given depth takes of a device.
pub open spec fn spec_sample_count(t: VerificationType, device_size: u64) -> int {
    match t {
        VerificationType::Quick => clamp(device_size as int / GIB as int, 10, 100),
        VerificationType::Standard => clamp(device_size as int / (100 * MIB) as int, 100, 1000),
        VerificationType::Comprehensive => clamp(device_size as int / (10 * MIB) as int, 1000, 10000),
        VerificationType::Custom => 500,
    }
}

fn clamp_u64(x: u64, lo: u64, hi: u64) -> (r: usize)
    requires
        lo <= hi <= 10000,
    ensures
        r == clamp(x as int, lo as int, hi as int),
{
    if x < lo {
        lo as usize
    } else if x > hi {
        hi as usize
    } else {
        x as usize
    }
}

/// The verdict for a sample count: any suspicious sample fails it; otherwise
/// a success rate of at least 95% passes, 85% warns, 70% is inconclusive, and
/// less fails. No samples at all count as a rate of zero.
pub open spec fn spec_overall_result(passed: nat, tested: nat, suspicious: bool) -> VerificationStatus {
    if suspicious {
        VerificationStatus::Failed
    } else if tested > 0 && 100 * passed >= 95 * tested {
        VerificationStatus::Passed
    } else if tested > 0 && 100 * passed >= 85 * tested {
        VerificationStatus::Warning
    } else if tested > 0 && 100 * passed >= 70 * tested {
        VerificationStatus::Inconclusive
    } else {
        VerificationStatus::Failed
    }
}

/// Whether a sample meets what the algorithm should have left: zeros after a
/// zero fill, ones after a one fill, random data after a random pass, and
/// anything but suspicious data after a multi-pass or drive-level wipe.
pub open spec fn spec_acceptable(
    algorithm: WipeAlgorithm,
    pattern_type: PatternType,
    high_entropy: bool,
) -> bool {
    match algorithm {
        WipeAlgorithm::ZeroFill => pattern_type == PatternType::AllZeros,
        WipeAlgorithm::OneFill => pattern_type == PatternType::AllOnes,
        WipeAlgorithm::Random | WipeAlgorithm::NIST80088 => pattern_type == PatternType::Random
            && high_entropy,
        _ => pattern_type != PatternType::Suspicious,
    }
}

/// Relies on rand::thread_rng and Rng::gen_range over `0..=max`: a value
/// between 0 and `max`, both included.
#[verifier::external_body]
fn random_offset(max: u64) -> (r: u64)
    ensures
        r <= max,
{
    rand::thread_rng().gen_range(0..=max)
}

/// The i-th of `n` evenly spaced offsets in `[0, max]`.
pub open spec fn even_offset(i: int, n: int, max: int) -> int {
    i * max / n
}

/// Whether a sequence is in ascending order.
pub open spec fn ascending(s: Seq<u64>) -> bool {
    forall|i: int, j: int| 0 <= i <= j < s.len() ==> s[i] <= s[j]
}

fn even_offset_exec(i: usize, n: usize, max: u64) -> (r: u64)
    requires
        i < n <= 10000,
    ensures
        r == even_offset(i as int, n as int, max as int),
        r <= max,
{
    proof {
        assert((i as int) * (max as int) <= 10000 * (max as int)) by (nonlinear_arith)
            requires i < 10000, max >= 0;
        assert((i as int) * (max as int) <= (n as int) * (max as int)) by (nonlinear_arith)
            requires i < n;
        assert((i as int) * (max as int) / (n as int) <= max) by (nonlinear_arith)
            requires i < n, max >= 0;
    }
    let w = (i as u128) * (max as u128);
    (w / (n as u128)) as u64
}

/// Inserts `x` into an ascending vector, keeping it ascending.
fn insert_sorted(v: &mut Vec<u64>, x: u64)
    requires
        ascending(old(v)@),
        old(v)@.len() < usize::MAX,
    ensures
        ascending(final(v)@),
        final(v)@.len() == old(v)@.len() + 1,
        final(v)@.contains(x),
        forall|k: int| 0 <= k < old(v)@.len() ==> final(v)@.contains(#[trigger] old(v)@[k]),
        forall|k: int| 0 <= k < final(v)@.len() ==> (#[trigger] final(v)@[k] == x || old(v)@.contains(final(v)@[k])),
{
    let mut p: usize = 0;
    while p < v.len() && v[p] <= x
        invariant
            p <= v.len(),
            forall|k: int| 0 <= k < p ==> v@[k] <= x,
        decreases v.len() - p,
    {
        p += 1;
    }
    let ghost before = v@;
    v.insert(p, x);
    proof {
        assert(v@[p as int] == x);
        assert forall|k: int| 0 <= k < before.len() implies v@.contains(#[trigger] before[k]) by {
            if k < p {
                assert(v@[k] == before[k]);
            } else {
                assert(v@[k + 1] == before[k]);
            }
        }
        assert forall|k: int| 0 <= k < v@.len() implies (#[trigger] v@[k] == x || before.contains(v@[k])) by {
            if k < p {
                assert(v@[k] == before[k]);
            } else if k > p {
                assert(v@[k] == before[k - 1]);
            }
        }
    }
}

impl VerificationType {
    /// The sampling depth for a device of `device_size` bytes wiped with an
    /// algorithm of security level `level`.
    pub fn determine(device_size: u64, level: SecurityLevel) -> (r: VerificationType)
        ensures
            r == spec_verification_type(device_size, level),
    {
        if device_size < 100 * GIB {
            VerificationType::Comprehensive
        } else if level.is_high_or_above() {
            VerificationType::Standard
        } else {
            VerificationType::Quick
        }
    }

    /// The number of samples and the bytes per sample.
    pub fn sampling_parameters(&self, device_size: u64) -> (r: (usize, usize))
        ensures
            r.0 == spec_sample_count(*self, device_size),
            r.1 == SAMPLE_SIZE,
            10 <= r.0 <= 10000,
    {
        let count = match self {
            VerificationType::Quick => clamp_u64(device_size / GIB, 10, 100),
            VerificationType::Standard => clamp_u64(device_size / (100 * MIB), 100, 1000),
            VerificationType::Comprehensive => clamp_u64(device_size / (10 * MIB), 1000, 10000),
            VerificationType::Custom => 500,
        };
        (count, SAMPLE_SIZE)
    }

    /// How many of `sample_count` samples are evenly spaced: all of them for
    /// custom verification, three quarters for comprehensive verification,
    /// none for quick and standard verification, which sample at random.
    pub open spec fn systematic_count(self, sample_count: int) -> int {
        match self {
            VerificationType::Custom => sample_count,
            VerificationType::Comprehensive => sample_count * 3 / 4,
            _ => 0,
        }
    }

    /// Where to read samples, ascending: the evenly spaced offsets of this
    /// depth together with the offsets `drawn` at random, one for each
    /// sample that is not evenly spaced. Custom verification lists its
    /// evenly spaced offsets in order.
    pub fn arrange_locations(
        &self,
        device_size: u64,
        sample_count: usize,
        sample_size: usize,
        drawn: &[u64],
    ) -> (r: Vec<u64>)
        requires
            sample_count <= 10000,
            drawn@.len() == sample_count - self.systematic_count(sample_count as int),
        ensures
            r@.len() == sample_count,
            ascending(r@),
            forall|i: int| 0 <= i < self.systematic_count(sample_count as int) ==> r@.contains(
                #[trigger] even_offset(i, self.systematic_count(sample_count as int), spec_max_offset(device_size, sample_size) as int) as u64),
            forall|j: int| 0 <= j < drawn@.len() ==> r@.contains(#[trigger] drawn@[j]),
            forall|k: int| 0 <= k < r@.len() ==> drawn@.contains(#[trigger] r@[k]) || exists|m: int|
                0 <= m < self.systematic_count(sample_count as int) && r@[k] == #[trigger] even_offset(
                    m,
                    self.systematic_count(sample_count as int),
                    spec_max_offset(device_size, sample_size) as int,
                ) as u64,
            *self == VerificationType::Custom ==> forall|i: int| 0 <= i < sample_count ==> #[trigger] r@[i]
                == even_offset(i, sample_count as int, spec_max_offset(device_size, sample_size) as int),
    {
        let max_offset: u64 = if device_size > sample_size as u64 {
            device_size - sample_size as u64
        } else {
            0
        };
        let ghost sys = self.systematic_count(sample_count as int);
        let mut locations: Vec<u64> = Vec::new();
        match self {
            VerificationType::Custom => {
                let mut i: usize = 0;
                while i < sample_count
                    invariant
                        i <= sample_count <= 10000,
                        locations@.len() == i,
                        forall|k: int| 0 <= k < i ==> #[trigger] locations@[k] == even_offset(k, sample_count as int, max_offset as int),
                    decreases sample_count - i,
                {
                    let o = even_offset_exec(i, sample_count, max_offset);
                    locations.push(o);
                    i += 1;
                }
                assert forall|a: int, b: int| 0 <= a <= b < locations@.len() implies locations@[a] <= locations@[b] by {
                    assert(a * (max_offset as int) <= b * (max_offset as int)) by (nonlinear_arith)
                        requires a <= b, max_offset >= 0;
                    vstd::arithmetic::div_mod::lemma_div_is_ordered(a * (max_offset as int), b * (max_offset as int), sample_count as int);
                }
                assert forall|k: int| 0 <= k < sample_count implies locations@.contains(
                    #[trigger] even_offset(k, sample_count as int, max_offset as int) as u64) by {
                    assert(locations@[k] == even_offset(k, sample_count as int, max_offset as int));
                }
                assert forall|k: int| 0 <= k < locations@.len() implies drawn@.contains(#[trigger] locations@[k]) || exists|m: int|
                    0 <= m < self.systematic_count(sample_count as int) && locations@[k] == #[trigger] even_offset(
                        m,
                        self.systematic_count(sample_count as int),
                        spec_max_offset(device_size, sample_size) as int,
                    ) as u64 by {
                    assert(locations@[k] as int == even_offset(k, sample_count as int, max_offset as int));
                    assert(locations@[k] == even_offset(
                        k,
                        self.systematic_count(sample_count as int),
                        spec_max_offset(device_size, sample_size) as int,
                    ) as u64);
                }
                assert(max_offset == spec_max_offset(device_size, sample_size));
                locations
            },
            _ => {
                let systematic: usize = if *self == VerificationType::Comprehensive {
                    sample_count * 3 / 4
                } else {
                    0
                };
                let mut i: usize = 0;
                while i < sample_count
                    invariant
                        i <= sample_count <= 10000,
                        systematic as int == sys,
                        systematic <= sample_count,
                        drawn@.len() == sample_count - systematic,
                        locations@.len() == i,
                        ascending(locations@),
                        forall|k: int| 0 <= k < i && k < systematic ==> locations@.contains(
                            #[trigger] even_offset(k, systematic as int, max_offset as int) as u64),
                        forall|j: int| 0 <= j < i - systematic ==> locations@.contains(#[trigger] drawn@[j]),
                        forall|k: int| 0 <= k < locations@.len() ==> drawn@.contains(#[trigger] locations@[k]) || exists|m: int|
                            0 <= m < sys && locations@[k] == #[trigger] even_offset(m, sys, max_offset as int) as u64,
                    decreases sample_count - i,
                {
                    let o = if i < systematic {
                        even_offset_exec(i, systematic, max_offset)
                    } else {
                        drawn[i - systematic]
                    };
                    let ghost before = locations@;
                    insert_sorted(&mut locations, o);
                    proof {
                        assert forall|k: int| 0 <= k < i + 1 && k < systematic implies locations@.contains(
                            #[trigger] even_offset(k, systematic as int, max_offset as int) as u64) by {
                            if k < i {
                                let w = choose|j: int| 0 <= j < before.len() && before[j] == even_offset(k, systematic as int, max_offset as int) as u64;
                                assert(locations@.contains(before[w]));
                            }
                        }
                        assert forall|j: int| 0 <= j < i + 1 - systematic implies locations@.contains(#[trigger] drawn@[j]) by {
                            if j < i - systematic {
                                let w = choose|q: int| 0 <= q < before.len() && before[q] == drawn@[j];
                                assert(locations@.contains(before[w]));
                            }
                        }
                        assert forall|k: int| 0 <= k < locations@.len() implies drawn@.contains(#[trigger] locations@[k]) || exists|m: int|
                            0 <= m < sys && locations@[k] == #[trigger] even_offset(m, sys, max_offset as int) as u64 by {
                            if locations@[k] != o {
                                let w = choose|q: int| 0 <= q < before.len() && before[q] == locations@[k];
                                assert(drawn@.contains(before[w]) || exists|m: int|
                                    0 <= m < sys && before[w] == #[trigger] even_offset(m, sys, max_offset as int) as u64);
                            } else if i < systematic {
                                assert(locations@[k] == even_offset(i as int, sys, max_offset as int) as u64);
                            } else {
                                assert(drawn@[i - systematic] == o);
                            }
                        }
                    }
                    i += 1;
                }
                assert(max_offset == spec_max_offset(device_size, sample_size));
                assert(sys == self.systematic_count(sample_count as int));
                assert(forall|k: int| 0 <= k < locations@.len() ==> drawn@.contains(#[trigger] locations@[k]) || exists|m: int|
                    0 <= m < self.systematic_count(sample_count as int) && locations@[k] == #[trigger] even_offset(
                        m,
                        self.systematic_count(sample_count as int),
                        spec_max_offset(device_size, sample_size) as int,
                    ) as u64);
                locations
            },
        }
    }

    /// Where to read samples, ascending. Quick and standard verification
    /// sample at random; comprehensive verification takes three quarters of
    /// its samples evenly spaced and the rest at random; custom verification
    /// takes them all evenly spaced. Every offset leaves room for a whole
    /// sample where the device has room for one.
    pub fn sample_locations(&self, device_size: u64, sample_count: usize, sample_size: usize) -> (r: Vec<u64>)
        requires
            sample_count <= 10000,
        ensures
            r@.len() == sample_count,
            ascending(r@),
            forall|k: int| 0 <= k < r@.len() ==> #[trigger] r@[k] <= spec_max_offset(device_size, sample_size),
            forall|i: int| 0 <= i < self.systematic_count(sample_count as int) ==> r@.contains(
                #[trigger] even_offset(i, self.systematic_count(sample_count as int), spec_max_offset(device_size, sample_size) as int) as u64),
            *self == VerificationType::Custom ==> forall|i: int| 0 <= i < sample_count ==> #[trigger] r@[i]
                == even_offset(i, sample_count as int, spec_max_offset(device_size, sample_size) as int),
    {
        let max_offset: u64 = if device_size > sample_size as u64 {
            device_size - sample_size as u64
        } else {
            0
        };
        let systematic: usize = match self {
            VerificationType::Custom => sample_count,
            VerificationType::Comprehensive => sample_count * 3 / 4,
            _ => 0,
        };
        let mut drawn: Vec<u64> = Vec::new();
        while drawn.len() < sample_count - systematic
            invariant
                systematic <= sample_count,
                systematic as int == self.systematic_count(sample_count as int),
                drawn@.len() <= sample_count - systematic,
                forall|j: int| 0 <= j < drawn@.len() ==> #[trigger] drawn@[j] <= max_offset,
            decreases sample_count - systematic - drawn.len(),
        {
            drawn.push(random_offset(max_offset));
        }
        let r = self.arrange_locations(device_size, sample_count, sample_size, drawn.as_slice());
        proof {
            let sys = self.systematic_count(sample_count as int);
            assert forall|k: int| 0 <= k < r@.len() implies #[trigger] r@[k] <= max_offset by {
                if drawn@.contains(r@[k]) {
                    let j = choose|j: int| 0 <= j < drawn@.len() && drawn@[j] == r@[k];
                    assert(drawn@[j] <= max_offset);
                } else {
                    let m = choose|m: int| 0 <= m < sys && r@[k] == #[trigger] even_offset(m, sys, max_offset as int) as u64;
                    assert(m * (max_offset as int) <= sys * (max_offset as int)) by (nonlinear_arith)
                        requires m < sys, max_offset >= 0;
                    vstd::arithmetic::div_mod::lemma_div_is_ordered(m * (max_offset as int), sys * (max_offset as int), sys);
                    vstd::arithmetic::div_mod::lemma_div_multiples_vanish(max_offset as int, sys);
                    assert(m * (max_offset as int) >= 0) by (nonlinear_arith)
                        requires m >= 0, max_offset >= 0;
                }
            }
        }
        r
    }
}

/// The last offset at which a whole sample fits, or 0 on a device smaller
/// than one sample.
pub open spec fn spec_max_offset(device_size: u64, sample_size: usize) -> u64 {
    if device_size > sample_size { (device_size - sample_size) as u64 } else { 0 }
}


/// Whether every byte of `d` is `b`.
pub open spec fn all_bytes(d: Seq<u8>, b: u8) -> bool {
    forall|i: int| 0 <= i < d.len() ==> d[i] == b
}

/// Whether the `k`-th chunk of length `l` equals the first one.
pub open spec fn chunk_matches(d: Seq<u8>, l: int, k: int) -> bool {
    d.subrange(k * l, k * l + l) == d.subrange(0, l)
}

/// How many of the first `n` chunks of length `l` equal the first one.
pub open spec fn count_matches(d: Seq<u8>, l: int, n: int) -> nat
    decreases n,
{
    if n <= 0 {
        0
    } else {
        count_matches(d, l, n - 1) + if chunk_matches(d, l, n - 1) { 1nat } else { 0nat }
    }
}

/// Whether more than half of the whole chunks of length `l` equal the first.
pub open spec fn repeats_with(d: Seq<u8>, l: int) -> bool {
    count_matches(d, l, d.len() as int / l) > d.len() as int / l / 2
}

/// The longest chunk length that repetition is looked for with.
pub open spec fn max_chunk(len: int) -> int {
    if len / 4 < 64 { len / 4 } else { 64 }
}

/// Whether the data repeat a chunk of 1 to min(len/4, 64) bytes through
/// more than half of their whole chunks of that length.
pub open spec fn spec_repeating(d: Seq<u8>) -> bool {
    exists|l: int| 1 <= l <= max_chunk(d.len() as int) && #[trigger] repeats_with(d, l)
}

/// The file-system and boot signatures whose presence marks data as
/// surviving: "NTFS", "FAT32", "ext2", "ext3", "ext4", "HFS+", "APFS", and
/// the boot-sector marker 0x55 0xAA.
pub open spec fn signatures() -> Seq<Seq<u8>> {
    seq![
        seq![78u8, 84, 70, 83],
        seq![70u8, 65, 84, 51, 50],
        seq![101u8, 120, 116, 50],
        seq![101u8, 120, 116, 51],
        seq![101u8, 120, 116, 52],
        seq![72u8, 70, 83, 43],
        seq![65u8, 80, 70, 83],
        seq![0x55u8, 0xAA]
    ]
}

/// Whether `sig` occurs in `d` starting at `i`.
pub open spec fn occurs_at(d: Seq<u8>, sig: Seq<u8>, i: int) -> bool {
    0 <= i && i + sig.len() <= d.len() && d.subrange(i, i + sig.len() as int) == sig
}

/// Whether `d` holds any of the signatures.
pub open spec fn spec_structured(d: Seq<u8>) -> bool {
    exists|k: int, i: int| 0 <= k < signatures().len() && #[trigger] occurs_at(d, signatures()[k], i)
}

/// The class of a sample, tested in order: all zeros, all ones, repeating,
/// random (`high_entropy`: its entropy exceeds the threshold), suspicious
/// (holds a signature), structured.
pub open spec fn spec_pattern_type(d: Seq<u8>, high_entropy: bool) -> PatternType {
    if all_bytes(d, 0) {
        PatternType::AllZeros
    } else if all_bytes(d, 0xFF) {
        PatternType::AllOnes
    } else if spec_repeating(d) {
        PatternType::Repeating
    } else if high_entropy {
        PatternType::Random
    } else if spec_structured(d) {
        PatternType::Suspicious
    } else {
        PatternType::Structured
    }
}

/// Whether the 16 bytes from `i` on are all zero.
pub open spec fn zero_window(d: Seq<u8>, i: int) -> bool {
    all_bytes(d.subrange(i, i + 16), 0)
}

/// How many of the windows of 16 bytes starting before `n` are all zero.
pub open spec fn count_zero_windows(d: Seq<u8>, n: int) -> nat
    decreases n,
{
    if n <= 0 {
        0
    } else {
        count_zero_windows(d, n - 1) + if zero_window(d, n - 1) { 1nat } else { 0nat }
    }
}

/// How many windows of 16 bytes `d` has.
pub open spec fn window_count(d: Seq<u8>) -> int {
    if d.len() >= 16 { d.len() - 15 } else { 0 }
}

/// The anomalies of a sample, in order: suspicious data; random data of low
/// entropy; more zero windows of 16 bytes than a 32nd of the length outside
/// an all-zero sample.
pub open spec fn spec_anomalies(d: Seq<u8>, t: PatternType, low_entropy: bool) -> Seq<Seq<char>> {
    let first: Seq<Seq<char>> = if t == PatternType::Suspicious {
        seq!["Suspicious structured data detected"@]
    } else if t == PatternType::Random && low_entropy {
        seq!["Low entropy in supposedly random data"@]
    } else {
        Seq::empty()
    };
    if count_zero_windows(d, window_count(d)) > d.len() / 32 && t != PatternType::AllZeros {
        first.push("Unexpected null byte sequences"@)
    } else {
        first
    }
}

fn all_equal_to(data: &[u8], b: u8) -> (r: bool)
    ensures
        r == all_bytes(data@, b),
{
    let mut i: usize = 0;
    while i < data.len()
        invariant
            i <= data.len(),
            forall|k: int| 0 <= k < i ==> data@[k] == b,
        decreases data.len() - i,
    {
        if data[i] != b {
            return false;
        }
        i += 1;
    }
    true
}

/// Whether the `k`-th chunk of length `l` equals the first one.
fn chunk_equal(data: &[u8], l: usize, k: usize) -> (r: bool)
    requires
        l >= 1,
        k * l + l <= data.len(),
    ensures
        r == chunk_matches(data@, l as int, k as int),
{
    let start = k * l;
    let mut j: usize = 0;
    while j < l
        invariant
            j <= l,
            start == k * l,
            start + l <= data.len(),
            forall|m: int| 0 <= m < j ==> data@[start + m] == #[trigger] data@[m],
        decreases l - j,
    {
        if data[start + j] != data[j] {
            assert(data@.subrange(start as int, start + l)[j as int] != data@.subrange(0, l as int)[j as int]);
            return false;
        }
        j += 1;
    }
    assert(data@.subrange(start as int, start + l) =~= data@.subrange(0, l as int));
    true
}

proof fn lemma_chunk_fits(len: int, l: int, k: int)
    requires
        l >= 1,
        0 <= k < len / l,
        len >= 0,
    ensures
        k * l + l <= len,
{
    assert(k * l + l <= (len / l) * l) by (nonlinear_arith)
        requires k < len / l, l >= 1;
    vstd::arithmetic::div_mod::lemma_fundamental_div_mod(len, l);
    assert((len / l) * l <= len) by (nonlinear_arith)
        requires l >= 1, len >= 0, len == l * (len / l) + len % l, len % l >= 0;
}

/// Whether more than half of the whole chunks of length `l` equal the first.
fn repeats_with_exec(data: &[u8], l: usize) -> (r: bool)
    requires
        l >= 1,
    ensures
        r == repeats_with(data@, l as int),
{
    let n = data.len() / l;
    let mut matches: usize = 0;
    let mut k: usize = 0;
    while k < n
        invariant
            l >= 1,
            n == data@.len() as int / (l as int),
            k <= n,
            matches == count_matches(data@, l as int, k as int),
            matches <= k,
        decreases n - k,
    {
        proof {
            lemma_chunk_fits(data@.len() as int, l as int, k as int);
        }
        if chunk_equal(data, l, k) {
            matches += 1;
        }
        k += 1;
    }
    matches > n / 2
}

/// Whether `sig` occurs in `data` at `i`.
fn occurs_at_exec(data: &[u8], sig: &[u8], i: usize) -> (r: bool)
    requires
        i + sig.len() <= data.len(),
    ensures
        r == occurs_at(data@, sig@, i as int),
{
    let mut j: usize = 0;
    while j < sig.len()
        invariant
            j <= sig.len(),
            i + sig.len() <= data.len(),
            forall|m: int| 0 <= m < j ==> data@[i + m] == #[trigger] sig@[m],
        decreases sig.len() - j,
    {
        if data[i + j] != sig[j] {
            assert(data@.subrange(i as int, i + sig.len())[j as int] != sig@[j as int]);
            return false;
        }
        j += 1;
    }
    assert(data@.subrange(i as int, i + sig.len()) =~= sig@);
    true
}

fn signature(k: usize) -> (r: Vec<u8>)
    requires
        k < 8,
    ensures
        r@ == signatures()[k as int],
{
    match k {
        0 => vec![78u8, 84, 70, 83],
        1 => vec![70u8, 65, 84, 51, 50],
        2 => vec![101u8, 120, 116, 50],
        3 => vec![101u8, 120, 116, 51],
        4 => vec![101u8, 120, 116, 52],
        5 => vec![72u8, 70, 83, 43],
        6 => vec![65u8, 80, 70, 83],
        _ => vec![0x55u8, 0xAA],
    }
}

/// Whether `data` holds one of the file-system or boot signatures.
pub fn has_structured_data(data: &[u8]) -> (r: bool)
    ensures
        r == spec_structured(data@),
{
    let mut k: usize = 0;
    while k < 8
        invariant
            k <= 8,
            forall|kk: int, i: int| 0 <= kk < k ==> !#[trigger] occurs_at(data@, signatures()[kk], i),
        decreases 8 - k,
    {
        let sig = signature(k);
        let mut i: usize = 0;
        if sig.len() <= data.len() {
            while i <= data.len() - sig.len()
                invariant
                    k < 8,
                    sig@ == signatures()[k as int],
                    sig.len() <= data.len(),
                    i <= data.len() - sig.len() + 1,
                    forall|ii: int| 0 <= ii < i ==> !#[trigger] occurs_at(data@, sig@, ii),
                decreases data.len() - i,
            {
                if occurs_at_exec(data, sig.as_slice(), i) {
                    assert(occurs_at(data@, signatures()[k as int], i as int));
                    return true;
                }
                i += 1;
            }
        }
        assert forall|ii: int| !#[trigger] occurs_at(data@, signatures()[k as int], ii) by {
            if 0 <= ii < i {
            }
        }
        k += 1;
    }
    false
}

/// Bytes of zero in a row that count as a gap in the wipe.
fn zero_windows(data: &[u8]) -> (r: usize)
    ensures
        r == count_zero_windows(data@, window_count(data@)),
{
    if data.len() < 16 {
        return 0;
    }
    let n = data.len() - 15;
    let mut count: usize = 0;
    let mut i: usize = 0;
    while i < n
        invariant
            n == data.len() - 15,
            data.len() >= 16,
            i <= n,
            count == count_zero_windows(data@, i as int),
            count <= i,
        decreases n - i,
    {
        let mut all_zero = true;
        let mut j: usize = 0;
        while j < 16
            invariant
                j <= 16,
                i + 16 <= data.len(),
                all_zero == forall|m: int| 0 <= m < j ==> #[trigger] data@[i + m] == 0,
            decreases 16 - j,
        {
            if data[i + j] != 0 {
                all_zero = false;
            }
            j += 1;
        }
        proof {
            let w = data@.subrange(i as int, i + 16);
            assert(all_zero == all_bytes(w, 0)) by {
                if all_zero {
                    assert forall|m: int| 0 <= m < w.len() implies w[m] == 0 by {
                        assert(w[m] == data@[i + m]);
                    }
                } else {
                    let m = choose|m: int| 0 <= m < 16 && #[trigger] data@[i + m] != 0;
                    assert(w[m] == data@[i + m]);
                }
            }
        }
        if all_zero {
            count += 1;
        }
        i += 1;
    }
    count
}

/// The sample classifier.
#[derive(Debug, Clone, Copy, PartialEq, Eq, Structural)]
pub struct VerificationEngine;

impl VerificationEngine {
    /// The classifier.
    pub fn new() -> VerificationEngine {
        VerificationEngine
    }

    /// Whether the data repeat a short chunk through most of their length.
    pub fn has_repeating_pattern(&self, data: &[u8]) -> (r: bool)
        ensures
            r == spec_repeating(data@),
    {
        let limit: usize = if data.len() / 4 < 64 {
            data.len() / 4
        } else {
            64
        };
        let mut l: usize = 1;
        while l <= limit
            invariant
                limit == max_chunk(data@.len() as int),
                limit <= 64,
                1 <= l <= limit + 1,
                forall|ll: int| 1 <= ll < l ==> !#[trigger] repeats_with(data@, ll),
            decreases limit + 1 - l,
        {
            if repeats_with_exec(data, l) {
                assert(1 <= l <= max_chunk(data@.len() as int) && repeats_with(data@, l as int));
                return true;
            }
            l += 1;
        }
        false
    }

    /// The class of a sample; `high_entropy` tells whether its Shannon
    /// entropy exceeds the threshold for random data.
    pub fn detect_pattern_type(&self, data: &[u8], high_entropy: bool) -> (r: PatternType)
        ensures
            r == spec_pattern_type(data@, high_entropy),
    {
        if all_equal_to(data, 0) {
            PatternType::AllZeros
        } else if all_equal_to(data, 0xFF) {
            PatternType::AllOnes
        } else if self.has_repeating_pattern(data) {
            PatternType::Repeating
        } else if high_entropy {
            PatternType::Random
        } else if has_structured_data(data) {
            PatternType::Suspicious
        } else {
            PatternType::Structured
        }
    }

    /// What is wrong with a sample of class `pattern_type`; `low_entropy`
    /// tells whether its entropy is below the threshold for random data.
    pub fn detect_anomalies(&self, data: &[u8], pattern_type: PatternType, low_entropy: bool) -> (r: Vec<String>)
        ensures
            r@.map_values(|s: String| s@) == spec_anomalies(data@, pattern_type, low_entropy),
    {
        let mut r: Vec<String> = Vec::new();
        if pattern_type == PatternType::Suspicious {
            r.push(String::from_str("Suspicious structured data detected"));
        } else if pattern_type == PatternType::Random && low_entropy {
            r.push(String::from_str("Low entropy in supposedly random data"));
        }
        let ghost first = r@.map_values(|s: String| s@);
        if zero_windows(data) > data.len() / 32 && pattern_type != PatternType::AllZeros {
            r.push(String::from_str("Unexpected null byte sequences"));
        }
        assert(r@.map_values(|s: String| s@) =~= spec_anomalies(data@, pattern_type, low_entropy));
        r
    }
}


/// Where a sample's Shannon entropy lies against the threshold for random
/// data (7.5 bits per byte).
#[derive(Debug, Clone, Copy, PartialEq, Eq, Structural)]
pub enum EntropyBand {
    Below,
    AtThreshold,
    Above,
}

/// One sample read from the device.
#[derive(Debug, Clone)]
pub struct SampleData {
    /// Byte offset of the sample on the device.
    pub offset: u64,
    /// The bytes read.
    pub data: Vec<u8>,
    /// Where the bytes' entropy lies against the threshold.
    pub entropy: EntropyBand,
}

/// What the samples of one verification show.
#[derive(Debug, Clone)]
pub struct VerificationSummary {
    pub samples_tested: usize,
    pub samples_passed: usize,
    /// The success rate in hundredths of a percent, rounded down; 0 when no
    /// sample was taken.
    pub success_rate_basis_points: u64,
    pub overall_result: VerificationStatus,
    /// The class of each sample, in the order taken.
    pub pattern_types: Vec<PatternType>,
    pub zero_sectors: usize,
    pub one_sectors: usize,
    pub random_sectors: usize,
    pub repeating_sectors: usize,
    pub structured_sectors: usize,
    pub suspicious_sectors: Vec<u64>,
    pub low_entropy_sectors: Vec<u64>,
    pub recommendations: Vec<String>,
}

/// The class of a sample.
pub open spec fn sample_type(s: SampleData) -> PatternType {
    spec_pattern_type(s.data@, s.entropy == EntropyBand::Above)
}

/// Whether a sample is accepted for the algorithm.
pub open spec fn sample_passes(alg: WipeAlgorithm, s: SampleData) -> bool {
    spec_acceptable(alg, sample_type(s), s.entropy == EntropyBand::Above)
}

/// How many samples are accepted.
pub open spec fn count_passed(alg: WipeAlgorithm, ss: Seq<SampleData>) -> nat
    decreases ss.len(),
{
    if ss.len() == 0 {
        0
    } else {
        count_passed(alg, ss.drop_last()) + if sample_passes(alg, ss.last()) {
            1nat
        } else {
            0nat
        }
    }
}

/// How many samples are of class `t`.
pub open spec fn count_type(ss: Seq<SampleData>, t: PatternType) -> nat
    decreases ss.len(),
{
    if ss.len() == 0 {
        0
    } else {
        count_type(ss.drop_last(), t) + if sample_type(ss.last()) == t {
            1nat
        } else {
            0nat
        }
    }
}

/// The offsets of the samples of class `t`, in order.
pub open spec fn offsets_of_type(ss: Seq<SampleData>, t: PatternType) -> Seq<u64>
    decreases ss.len(),
{
    if ss.len() == 0 {
        Seq::empty()
    } else {
        let rest = offsets_of_type(ss.drop_last(), t);
        if sample_type(ss.last()) == t {
            rest.push(ss.last().offset)
        } else {
            rest
        }
    }
}

/// The offsets of the samples whose entropy is below the threshold, in order.
pub open spec fn low_entropy_offsets(ss: Seq<SampleData>) -> Seq<u64>
    decreases ss.len(),
{
    if ss.len() == 0 {
        Seq::empty()
    } else {
        let rest = low_entropy_offsets(ss.drop_last());
        if ss.last().entropy == EntropyBand::Below {
            rest.push(ss.last().offset)
        } else {
            rest
        }
    }
}

/// What to do after a verification, by verdict, average entropy and the
/// number of low-entropy samples.
pub open spec fn spec_recommendations(
    status: VerificationStatus,
    suspicious: bool,
    average_low: bool,
    low_count: nat,
) -> Seq<Seq<char>> {
    let verdict: Seq<Seq<char>> = match status {
        VerificationStatus::Failed => if suspicious {
            seq![
                "Wipe verification failed. Consider re-wiping the device."@,
                "Suspicious data patterns detected. Use a more aggressive wiping algorithm."@
            ]
        } else {
            seq!["Wipe verification failed. Consider re-wiping the device."@]
        },
        VerificationStatus::Warning => seq!["Wipe verification passed with warnings. Monitor for potential issues."@],
        VerificationStatus::Inconclusive => seq!["Verification results are inconclusive. Consider additional verification."@],
        VerificationStatus::Passed => seq!["Wipe verification passed successfully."@],
    };
    let with_average = if average_low {
        verdict.push("Low average entropy detected. Consider using random-based wiping algorithms."@)
    } else {
        verdict
    };
    if low_count > 0 {
        with_average.push(
            "Found "@ + decimal(low_count) + " sectors with low entropy. These may require additional attention."@,
        )
    } else {
        with_average
    }
}

/// The values of a sequence of strings.
pub open spec fn texts(v: Seq<String>) -> Seq<Seq<char>> {
    v.map_values(|s: String| s@)
}

/// Advice for the verdict.
pub fn generate_recommendations(
    status: VerificationStatus,
    suspicious: bool,
    average_low: bool,
    low_count: usize,
) -> (r: Vec<String>)
    ensures
        texts(r@) == spec_recommendations(status, suspicious, average_low, low_count as nat),
{
    let mut r: Vec<String> = Vec::new();
    match status {
        VerificationStatus::Failed => {
            r.push(String::from_str("Wipe verification failed. Consider re-wiping the device."));
            if suspicious {
                r.push(String::from_str(
                    "Suspicious data patterns detected. Use a more aggressive wiping algorithm.",
                ));
            }
        },
        VerificationStatus::Warning => {
            r.push(String::from_str("Wipe verification passed with warnings. Monitor for potential issues."));
        },
        VerificationStatus::Inconclusive => {
            r.push(String::from_str(
                "Verification results are inconclusive. Consider additional verification.",
            ));
        },
        VerificationStatus::Passed => {
            r.push(String::from_str("Wipe verification passed successfully."));
        },
    }
    let ghost verdict = texts(r@);
    if average_low {
        r.push(String::from_str(
            "Low average entropy detected. Consider using random-based wiping algorithms.",
        ));
    }
    let ghost with_average = texts(r@);
    if low_count > 0 {
        let mut line = String::from_str("Found ");
        push_decimal(&mut line, low_count as u64);
        line.append(" sectors with low entropy. These may require additional attention.");
        r.push(line);
    }
    assert(texts(r@) =~= spec_recommendations(status, suspicious, average_low, low_count as nat));
    r
}

impl VerificationEngine {
    /// Classifies each sample, counts those the algorithm accepts, and gives
    /// the verdict and advice. `average_low` tells whether the samples'
    /// average entropy is below the threshold.
    #[verifier::rlimit(40)]
    pub fn evaluate_samples(
        &self,
        algorithm: &WipeAlgorithm,
        samples: &[SampleData],
        average_low: bool,
    ) -> (r: VerificationSummary)
        ensures
            r.samples_tested == samples@.len(),
            r.samples_passed == count_passed(*algorithm, samples@),
            r.samples_passed <= r.samples_tested,
            r.success_rate_basis_points == if samples@.len() > 0 {
                (r.samples_passed as int) * 10000 / (r.samples_tested as int)
            } else {
                0
            },
            r.overall_result == spec_overall_result(
                r.samples_passed as nat,
                r.samples_tested as nat,
                count_type(samples@, PatternType::Suspicious) > 0,
            ),
            r.pattern_types@ == samples@.map_values(|s: SampleData| sample_type(s)),
            r.zero_sectors == count_type(samples@, PatternType::AllZeros),
            r.one_sectors == count_type(samples@, PatternType::AllOnes),
            r.random_sectors == count_type(samples@, PatternType::Random),
            r.repeating_sectors == count_type(samples@, PatternType::Repeating),
            r.structured_sectors == count_type(samples@, PatternType::Structured),
            r.suspicious_sectors@ == offsets_of_type(samples@, PatternType::Suspicious),
            r.low_entropy_sectors@ == low_entropy_offsets(samples@),
            texts(r.recommendations@) == spec_recommendations(
                r.overall_result,
                r.suspicious_sectors@.len() > 0,
                average_low,
                r.low_entropy_sectors@.len(),
            ),
    {
        let mut passed: usize = 0;
        let mut zeros: usize = 0;
        let mut ones: usize = 0;
        let mut random: usize = 0;
        let mut repeating: usize = 0;
        let mut structured: usize = 0;
        let mut suspicious: Vec<u64> = Vec::new();
        let mut low: Vec<u64> = Vec::new();
        let mut types: Vec<PatternType> = Vec::new();
        let mut i: usize = 0;
        while i < samples.len()
            invariant
                i <= samples.len(),
                passed == count_passed(*algorithm, samples@.subrange(0, i as int)),
                zeros == count_type(samples@.subrange(0, i as int), PatternType::AllZeros),
                ones == count_type(samples@.subrange(0, i as int), PatternType::AllOnes),
                random == count_type(samples@.subrange(0, i as int), PatternType::Random),
                repeating == count_type(samples@.subrange(0, i as int), PatternType::Repeating),
                structured == count_type(samples@.subrange(0, i as int), PatternType::Structured),
                suspicious@ == offsets_of_type(samples@.subrange(0, i as int), PatternType::Suspicious),
                low@ == low_entropy_offsets(samples@.subrange(0, i as int)),
                types@ == samples@.subrange(0, i as int).map_values(|s: SampleData| sample_type(s)),
                passed <= i,
                zeros <= i,
                ones <= i,
                random <= i,
                repeating <= i,
                structured <= i,
            decreases samples.len() - i,
        {
            let s = &samples[i];
            let t = self.detect_pattern_type(s.data.as_slice(), s.entropy == EntropyBand::Above);
            let ok = is_sample_acceptable(algorithm, t, s.entropy == EntropyBand::Above);
            proof {
                let next = samples@.subrange(0, i as int + 1);
                assert(next.drop_last() =~= samples@.subrange(0, i as int));
                assert(next.last() == *s);
            }
            if ok {
                passed += 1;
            }
            if t == PatternType::AllZeros {
                zeros += 1;
            } else if t == PatternType::AllOnes {
                ones += 1;
            } else if t == PatternType::Random {
                random += 1;
            } else if t == PatternType::Repeating {
                repeating += 1;
            } else if t == PatternType::Structured {
                structured += 1;
            } else {
                suspicious.push(s.offset);
            }
            if s.entropy == EntropyBand::Below {
                low.push(s.offset);
            }
            types.push(t);
            proof {
                assert(types@ =~= samples@.subrange(0, i as int + 1).map_values(|s: SampleData| sample_type(s)));
            }
            i += 1;
        }
        proof {
            assert(samples@.subrange(0, samples@.len() as int) =~= samples@);
            lemma_offsets_len(samples@, PatternType::Suspicious);
        }
        let tested = samples.len();
        let rate: u64 = if tested > 0 {
            proof {
                assert((passed as int) * 10000 <= (tested as int) * 10000) by (nonlinear_arith)
                    requires passed <= tested;
                vstd::arithmetic::div_mod::lemma_div_is_ordered((passed as int) * 10000, (tested as int) * 10000, tested as int);
                vstd::arithmetic::div_mod::lemma_div_multiples_vanish(10000, tested as int);
            }
            ((passed as u128) * 10000 / (tested as u128)) as u64
        } else {
            0
        };
        let overall = determine_overall_result(passed, tested, suspicious.len() > 0);
        let recommendations = generate_recommendations(overall, suspicious.len() > 0, average_low, low.len());
        VerificationSummary {
            samples_tested: tested,
            samples_passed: passed,
            success_rate_basis_points: rate,
            overall_result: overall,
            pattern_types: types,
            zero_sectors: zeros,
            one_sectors: ones,
            random_sectors: random,
            repeating_sectors: repeating,
            structured_sectors: structured,
            suspicious_sectors: suspicious,
            low_entropy_sectors: low,
            recommendations,
        }
    }
}

proof fn lemma_offsets_len(ss: Seq<SampleData>, t: PatternType)
    ensures
        offsets_of_type(ss, t).len() == count_type(ss, t),
    decreases ss.len(),
{
    if ss.len() > 0 {
        lemma_offsets_len(ss.drop_last(), t);
    }
}

/// The success rate kept with a summary is within one hundredth of the
/// exact rate: |passed/tested - rate| <= 0.01, stated over integers, and
/// no more samples pass than were tested.
pub proof fn lemma_success_rate_consistent(r: VerificationSummary)
    requires
        r.samples_passed <= r.samples_tested,
        r.samples_tested > 0,
        r.success_rate_basis_points == (r.samples_passed as int) * 10000 / (r.samples_tested as int),
    ensures
        r.samples_passed <= r.samples_tested,
        (r.success_rate_basis_points as int) * (r.samples_tested as int) <= (r.samples_passed as int) * 10000,
        (r.samples_passed as int) * 10000 <= (r.success_rate_basis_points as int) * (r.samples_tested as int)
            + 100 * (r.samples_tested as int),
{
    let p = r.samples_passed as int;
    let t = r.samples_tested as int;
    let q = r.success_rate_basis_points as int;
    vstd::arithmetic::div_mod::lemma_fundamental_div_mod(p * 10000, t);
    assert(q * t <= p * 10000) by (nonlinear_arith)
        requires p * 10000 == t * q + (p * 10000) % t, (p * 10000) % t >= 0;
    assert(p * 10000 <= q * t + 100 * t) by (nonlinear_arith)
        requires p * 10000 == t * q + (p * 10000) % t, (p * 10000) % t < t, t > 0;
}

/// The verdict over all samples.
pub fn determine_overall_result(samples_passed: usize, samples_tested: usize, any_suspicious: bool) -> (r: VerificationStatus)
    ensures
        r == spec_overall_result(samples_passed as nat, samples_tested as nat, any_suspicious),
{
    let p = samples_passed as u128;
    let t = samples_tested as u128;
    if any_suspicious {
        VerificationStatus::Failed
    } else if t > 0 && 100 * p >= 95 * t {
        VerificationStatus::Passed
    } else if t > 0 && 100 * p >= 85 * t {
        VerificationStatus::Warning
    } else if t > 0 && 100 * p >= 70 * t {
        VerificationStatus::Inconclusive
    } else {
        VerificationStatus::Failed
    }
}

/// Whether a sample meets what the algorithm should have left.
pub fn is_sample_acceptable(
    algorithm: &WipeAlgorithm,
    pattern_type: PatternType,
    high_entropy: bool,
) -> (r: bool)
    ensures
        r == spec_acceptable(*algorithm, pattern_type, high_entropy),
{
    match algorithm {
        WipeAlgorithm::ZeroFill => pattern_type == PatternType::AllZeros,
        WipeAlgorithm::OneFill => pattern_type == PatternType::AllOnes,
        WipeAlgorithm::Random | WipeAlgorithm::NIST80088 => pattern_type == PatternType::Random
            && high_entropy,
        _ => pattern_type != PatternType::Suspicious,
    }
}

} // verus!
