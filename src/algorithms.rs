//! The catalog of wipe algorithms and the data each pass writes.

use rand::{RngCore, SeedableRng};
use vstd::prelude::*;
use vstd::string::StringExecFns;

use crate::digest::{hex_lower, sha256_hex, sha256_of};
use crate::text::{decimal, hex_upper_byte, hex_upper_joined, push_decimal, push_hex_upper_byte, push_hex_upper_joined};

verus! {

/// Security level of a wipe algorithm, from weakest to strongest.
#[derive(Debug, Clone, Copy, PartialEq, Eq, Structural)]
pub enum SecurityLevel {
    Basic,
    Standard,
    High,
    Maximum,
}

impl SecurityLevel {
    /// Position of the level in the order Basic < Standard < High < Maximum.
    pub open spec fn rank(self) -> nat {
        match self {
            SecurityLevel::Basic => 0,
            SecurityLevel::Standard => 1,
            SecurityLevel::High => 2,
            SecurityLevel::Maximum => 3,
        }
    }

    /// Whether the level is High or Maximum.
    pub fn is_high_or_above(&self) -> (r: bool)
        ensures
            r == (self.rank() >= 2),
    {
        match self {
            SecurityLevel::High | SecurityLevel::Maximum => true,
            _ => false,
        }
    }

    /// The level's name.
    pub fn label(&self) -> (r: String)
        ensures
            r@ == self.spec_label(),
    {
        match self {
            SecurityLevel::Basic => String::from_str("Basic"),
            SecurityLevel::Standard => String::from_str("Standard"),
            SecurityLevel::High => String::from_str("High"),
            SecurityLevel::Maximum => String::from_str("Maximum"),
        }
    }

    pub open spec fn spec_label(self) -> Seq<char> {
        match self {
            SecurityLevel::Basic => "Basic"@,
            SecurityLevel::Standard => "Standard"@,
            SecurityLevel::High => "High"@,
            SecurityLevel::Maximum => "Maximum"@,
        }
    }
}

/// What one pass writes.
#[derive(Debug, Clone, PartialEq, Eq)]
pub enum WipePattern {
    /// Every byte 0x00.
    Zeros,
    /// Every byte 0xFF.
    Ones,
    /// Every byte the given value.
    Fixed(u8),
    /// Bytes from a generator seeded from the operating system's entropy.
    Random,
    /// Bytes from a ChaCha20 generator with the given seed.
    PseudoRandom(u64),
    /// The bitwise complement of what the previous pass wrote.
    Complement,
    /// The given bytes, repeated to fill.
    Pattern(Vec<u8>),
}

/// The mathematical value of a pattern.
pub ghost enum PatternSpec {
    Zeros,
    Ones,
    Fixed(u8),
    Random,
    PseudoRandom(u64),
    Complement,
    Pattern(Seq<u8>),
}

impl View for WipePattern {
    type V = PatternSpec;

    open spec fn view(&self) -> PatternSpec {
        match self {
            WipePattern::Zeros => PatternSpec::Zeros,
            WipePattern::Ones => PatternSpec::Ones,
            WipePattern::Fixed(b) => PatternSpec::Fixed(*b),
            WipePattern::Random => PatternSpec::Random,
            WipePattern::PseudoRandom(s) => PatternSpec::PseudoRandom(*s),
            WipePattern::Complement => PatternSpec::Complement,
            WipePattern::Pattern(v) => PatternSpec::Pattern(v@),
        }
    }
}

/// The values of a sequence of patterns.
pub open spec fn pattern_specs(ps: Seq<WipePattern>) -> Seq<PatternSpec> {
    ps.map_values(|p: WipePattern| p@)
}

/// A named wipe algorithm.
#[derive(Debug, Clone, PartialEq, Eq)]
pub enum WipeAlgorithm {
    /// NIST SP 800-88: one pass of random data.
    NIST80088,
    /// DoD 5220.22-M: zeros, ones, random.
    DoD522022M,
    /// Gutmann's 35 passes.
    Gutmann,
    /// One pass of random data.
    Random,
    /// One pass of zeros.
    ZeroFill,
    /// One pass of ones.
    OneFill,
    /// The drive's ATA Secure Erase command.
    ATASecureErase,
    /// The drive's NVMe Format command.
    NVMeFormat,
    /// The given passes.
    Custom(Vec<WipePattern>),
}

/// Metadata of an algorithm.
#[derive(Debug, Clone)]
pub struct AlgorithmInfo {
    pub name: String,
    pub description: String,
    pub passes: usize,
    pub security_level: SecurityLevel,
    pub compliance_standards: Vec<String>,
    /// Expected running time relative to one overwrite pass, in tenths.
    pub estimated_time_factor_tenths: u64,
}

/// A pattern that repeats the three given bytes.
pub open spec fn triple(a: u8, b: u8, c: u8) -> PatternSpec {
    PatternSpec::Pattern(seq![a, b, c])
}

/// Gutmann's sequence: four random passes, the encodings aimed at MFM and
/// RLL drives, and four random passes again.
pub open spec fn gutmann_spec() -> Seq<PatternSpec> {
    seq![
        PatternSpec::Random, PatternSpec::Random, PatternSpec::Random, PatternSpec::Random,
        triple(0x55, 0x55, 0x55), triple(0xAA, 0xAA, 0xAA),
        triple(0x92, 0x49, 0x24), triple(0x49, 0x24, 0x92), triple(0x24, 0x92, 0x49),
        PatternSpec::Zeros,
        triple(0x11, 0x11, 0x11), triple(0x22, 0x22, 0x22), triple(0x33, 0x33, 0x33),
        triple(0x44, 0x44, 0x44), triple(0x55, 0x55, 0x55), triple(0x66, 0x66, 0x66),
        triple(0x77, 0x77, 0x77), triple(0x88, 0x88, 0x88), triple(0x99, 0x99, 0x99),
        triple(0xAA, 0xAA, 0xAA), triple(0xBB, 0xBB, 0xBB), triple(0xCC, 0xCC, 0xCC),
        triple(0xDD, 0xDD, 0xDD), triple(0xEE, 0xEE, 0xEE),
        PatternSpec::Ones,
        triple(0x92, 0x49, 0x24), triple(0x49, 0x24, 0x92), triple(0x24, 0x92, 0x49),
        triple(0x6D, 0xB6, 0xDB), triple(0xB6, 0xDB, 0x6D), triple(0xDB, 0x6D, 0xB6),
        PatternSpec::Random, PatternSpec::Random, PatternSpec::Random, PatternSpec::Random
    ]
}

fn triple_pattern(a: u8, b: u8, c: u8) -> (r: WipePattern)
    ensures
        r@ == triple(a, b, c),
{
    let v: Vec<u8> = vec![a, b, c];
    WipePattern::Pattern(v)
}

impl WipePattern {
    /// A copy of the pattern.
    pub fn copy(&self) -> (r: WipePattern)
        ensures
            r@ == self@,
    {
        match self {
            WipePattern::Zeros => WipePattern::Zeros,
            WipePattern::Ones => WipePattern::Ones,
            WipePattern::Fixed(b) => WipePattern::Fixed(*b),
            WipePattern::Random => WipePattern::Random,
            WipePattern::PseudoRandom(s) => WipePattern::PseudoRandom(*s),
            WipePattern::Complement => WipePattern::Complement,
            WipePattern::Pattern(v) => {
                let mut w: Vec<u8> = Vec::new();
                let mut i: usize = 0;
                while i < v.len()
                    invariant
                        i <= v.len(),
                        w@ == v@.subrange(0, i as int),
                    decreases v.len() - i,
                {
                    w.push(v[i]);
                    i += 1;
                }
                assert(w@ =~= v@);
                WipePattern::Pattern(w)
            },
        }
    }
}


/// The first `len` bytes that a ChaCha20 generator seeded with `seed` produces.
pub uninterp spec fn chacha20_bytes(seed: u64, len: nat) -> Seq<u8>;

/// Relies on rand_chacha::ChaCha20Rng::from_entropy and RngCore::fill_bytes:
/// `size` bytes, every one of them written by the generator.
#[verifier::external_body]
fn random_bytes(size: usize) -> (r: Vec<u8>)
    ensures
        r@.len() == size,
{
    let mut out = vec![0u8; size];
    rand_chacha::ChaCha20Rng::from_entropy().fill_bytes(&mut out);
    out
}

/// Relies on rand_chacha::ChaCha20Rng::seed_from_u64 and RngCore::fill_bytes:
/// the generator's first `size` bytes for `seed`, the same on every run.
#[verifier::external_body]
fn seeded_bytes(seed: u64, size: usize) -> (r: Vec<u8>)
    ensures
        r@ == chacha20_bytes(seed, size as nat),
        r@.len() == size,
{
    let mut out = vec![0u8; size];
    rand_chacha::ChaCha20Rng::seed_from_u64(seed).fill_bytes(&mut out);
    out
}

/// The value of an optional byte slice.
pub open spec fn opt_bytes(d: Option<&[u8]>) -> Option<Seq<u8>> {
    match d {
        Some(b) => Some(b@),
        None => None,
    }
}

/// Every byte inverted.
pub open spec fn complement(d: Seq<u8>) -> Seq<u8> {
    d.map_values(|b: u8| !b)
}

/// What a pass of pattern `p` writes over `size` bytes, given what the
/// previous pass wrote there. Random data has no value here: the contract of
/// `generate_data` gives only its length.
pub open spec fn spec_generate(p: PatternSpec, size: nat, prev: Option<Seq<u8>>) -> Seq<u8> {
    match p {
        PatternSpec::Zeros => Seq::new(size, |_i: int| 0u8),
        PatternSpec::Ones => Seq::new(size, |_i: int| 0xFFu8),
        PatternSpec::Fixed(b) => Seq::new(size, |_i: int| b),
        PatternSpec::Random => Seq::empty(),
        PatternSpec::PseudoRandom(seed) => chacha20_bytes(seed, size),
        PatternSpec::Complement => match prev {
            Some(d) => complement(d),
            None => Seq::new(size, |_i: int| 0xFFu8),
        },
        PatternSpec::Pattern(q) => Seq::new(size, |i: int| q[i % q.len() as int]),
    }
}

/// The length of what a pass writes.
pub open spec fn generated_len(p: PatternSpec, size: nat, prev: Option<Seq<u8>>) -> nat {
    match (p, prev) {
        (PatternSpec::Complement, Some(d)) => d.len(),
        _ => size,
    }
}

/// A complement pass over the data of a complement pass gives back the data
/// that the first pass inverted.
pub proof fn lemma_complement_twice(d: Seq<u8>, size: nat)
    ensures
        spec_generate(
            PatternSpec::Complement,
            size,
            Some(spec_generate(PatternSpec::Complement, size, Some(d))),
        ) == d,
{
    let once = complement(d);
    let twice = complement(once);
    assert forall|i: int| 0 <= i < d.len() implies twice[i] == d[i] by {
        let b: u8 = d[i];
        assert(!(!b) == b) by (bit_vector);
    }
    assert(twice =~= d);
}

fn filled(byte: u8, size: usize) -> (r: Vec<u8>)
    ensures
        r@ == Seq::new(size as nat, |_i: int| byte),
{
    let mut r: Vec<u8> = Vec::new();
    let mut i: usize = 0;
    while i < size
        invariant
            i <= size,
            r@ == Seq::new(i as nat, |_i: int| byte),
        decreases size - i,
    {
        r.push(byte);
        i += 1;
        assert(r@ =~= Seq::new(i as nat, |_i: int| byte));
    }
    r
}

fn append_bytes(v: &mut Vec<u8>, b: &[u8])
    ensures
        final(v)@ == old(v)@ + b@,
{
    let ghost start = v@;
    let mut i: usize = 0;
    while i < b.len()
        invariant
            i <= b.len(),
            v@ == start + b@.subrange(0, i as int),
        decreases b.len() - i,
    {
        v.push(b[i]);
        i += 1;
        assert(v@ =~= start + b@.subrange(0, i as int));
    }
    assert(b@.subrange(0, b.len() as int) =~= b@);
}

/// The eight bytes of `x`, least significant first.
pub open spec fn le_bytes(x: u64) -> Seq<u8> {
    seq![
        (x & 0xff) as u8,
        ((x >> 8u64) & 0xff) as u8,
        ((x >> 16u64) & 0xff) as u8,
        ((x >> 24u64) & 0xff) as u8,
        ((x >> 32u64) & 0xff) as u8,
        ((x >> 40u64) & 0xff) as u8,
        ((x >> 48u64) & 0xff) as u8,
        ((x >> 56u64) & 0xff) as u8
    ]
}

/// The bytes whose SHA-256 digest identifies a pattern: an ASCII tag naming
/// its kind, then its parameter.
pub open spec fn hash_input(p: PatternSpec) -> Seq<u8> {
    match p {
        // "zeros"
        PatternSpec::Zeros => seq![122u8, 101, 114, 111, 115],
        // "ones"
        PatternSpec::Ones => seq![111u8, 110, 101, 115],
        // "fixed"
        PatternSpec::Fixed(b) => seq![102u8, 105, 120, 101, 100, b],
        // "random"
        PatternSpec::Random => seq![114u8, 97, 110, 100, 111, 109],
        // "pseudorandom"
        PatternSpec::PseudoRandom(seed) => seq![112u8, 115, 101, 117, 100, 111, 114, 97, 110, 100, 111, 109]
            + le_bytes(seed),
        // "complement"
        PatternSpec::Complement => seq![99u8, 111, 109, 112, 108, 101, 109, 101, 110, 116],
        // "pattern"
        PatternSpec::Pattern(q) => seq![112u8, 97, 116, 116, 101, 114, 110] + q,
    }
}

/// How a pattern reads in a progress line.
pub open spec fn spec_pattern_description(p: PatternSpec) -> Seq<char> {
    match p {
        PatternSpec::Zeros => "Fill with zeros (0x00)"@,
        PatternSpec::Ones => "Fill with ones (0xFF)"@,
        PatternSpec::Fixed(b) => "Fill with fixed byte (0x"@ + hex_upper_byte(b) + ")"@,
        PatternSpec::Random => "Fill with cryptographically secure random data"@,
        PatternSpec::PseudoRandom(seed) => "Fill with pseudorandom data (seed: "@ + decimal(seed as nat)
            + ")"@,
        PatternSpec::Complement => "Fill with complement of previous pass"@,
        PatternSpec::Pattern(q) => "Fill with repeating pattern: "@ + hex_upper_joined(q, " "@),
    }
}

impl WipePattern {
    /// The bytes a pass writes over a block of `size` bytes. A complement pass
    /// inverts `previous_data` where it is given, and writes 0xFF otherwise.
    pub fn generate_data(&self, size: usize, previous_data: Option<&[u8]>) -> (r: Vec<u8>)
        requires
            self@ is Pattern && size > 0 ==> self@->Pattern_0.len() > 0,
        ensures
            r@.len() == generated_len(self@, size as nat, opt_bytes(previous_data)),
            !(self@ is Random) ==> r@ == spec_generate(
                self@,
                size as nat,
                opt_bytes(previous_data),
            ),
    {
        match self {
            WipePattern::Zeros => filled(0, size),
            WipePattern::Ones => filled(0xFF, size),
            WipePattern::Fixed(b) => filled(*b, size),
            WipePattern::Random => random_bytes(size),
            WipePattern::PseudoRandom(seed) => seeded_bytes(*seed, size),
            WipePattern::Complement => match previous_data {
                Some(prev) => {
                    let mut r: Vec<u8> = Vec::new();
                    let mut i: usize = 0;
                    while i < prev.len()
                        invariant
                            i <= prev.len(),
                            r@ == complement(prev@).subrange(0, i as int),
                        decreases prev.len() - i,
                    {
                        r.push(!prev[i]);
                        i += 1;
                        assert(r@ =~= complement(prev@).subrange(0, i as int));
                    }
                    assert(r@ =~= complement(prev@));
                    r
                },
                None => filled(0xFF, size),
            },
            WipePattern::Pattern(q) => {
                let mut r: Vec<u8> = Vec::new();
                let mut i: usize = 0;
                while i < size
                    invariant
                        i <= size,
                        size > 0 ==> q@.len() > 0,
                        r@ == Seq::new(i as nat, |j: int| q@[j % q@.len() as int]),
                    decreases size - i,
                {
                    r.push(q[i % q.len()]);
                    i += 1;
                    assert(r@ =~= Seq::new(i as nat, |j: int| q@[j % q@.len() as int]));
                }
                r
            },
        }
    }

    /// Whether a pass of this pattern is made from what the previous pass
    /// wrote in the same region, which must then be read back first.
    pub fn needs_previous_pass(&self) -> (r: bool)
        ensures
            r == (self@ is Complement),
    {
        matches!(self, WipePattern::Complement)
    }

    /// How the pattern reads in a progress line.
    pub fn description(&self) -> (r: String)
        ensures
            r@ == spec_pattern_description(self@),
    {
        match self {
            WipePattern::Zeros => String::from_str("Fill with zeros (0x00)"),
            WipePattern::Ones => String::from_str("Fill with ones (0xFF)"),
            WipePattern::Fixed(b) => {
                let mut s = String::from_str("Fill with fixed byte (0x");
                push_hex_upper_byte(&mut s, *b);
                s.append(")");
                s
            },
            WipePattern::Random => String::from_str("Fill with cryptographically secure random data"),
            WipePattern::PseudoRandom(seed) => {
                let mut s = String::from_str("Fill with pseudorandom data (seed: ");
                push_decimal(&mut s, *seed);
                s.append(")");
                s
            },
            WipePattern::Complement => String::from_str("Fill with complement of previous pass"),
            WipePattern::Pattern(q) => {
                let mut s = String::from_str("Fill with repeating pattern: ");
                push_hex_upper_joined(&mut s, q.as_slice(), " ");
                s
            },
        }
    }

    /// The bytes whose digest identifies the pattern.
    fn hash_input(&self) -> (r: Vec<u8>)
        ensures
            r@ == hash_input(self@),
    {
        match self {
            WipePattern::Zeros => vec![122u8, 101, 114, 111, 115],
            WipePattern::Ones => vec![111u8, 110, 101, 115],
            WipePattern::Fixed(b) => vec![102u8, 105, 120, 101, 100, *b],
            WipePattern::Random => vec![114u8, 97, 110, 100, 111, 109],
            WipePattern::PseudoRandom(seed) => {
                let x = *seed;
                let mut r: Vec<u8> = vec![112u8, 115, 101, 117, 100, 111, 114, 97, 110, 100, 111, 109];
                let le: Vec<u8> = vec![
                    (x & 0xff) as u8,
                    ((x >> 8u64) & 0xff) as u8,
                    ((x >> 16u64) & 0xff) as u8,
                    ((x >> 24u64) & 0xff) as u8,
                    ((x >> 32u64) & 0xff) as u8,
                    ((x >> 40u64) & 0xff) as u8,
                    ((x >> 48u64) & 0xff) as u8,
                    ((x >> 56u64) & 0xff) as u8,
                ];
                append_bytes(&mut r, le.as_slice());
                r
            },
            WipePattern::Complement => vec![99u8, 111, 109, 112, 108, 101, 109, 101, 110, 116],
            WipePattern::Pattern(q) => {
                let mut r: Vec<u8> = vec![112u8, 97, 116, 116, 101, 114, 110];
                append_bytes(&mut r, q.as_slice());
                r
            },
        }
    }

    /// The pattern's identity for attestation: the lowercase hexadecimal
    /// SHA-256 digest of a tag naming its kind followed by its parameter.
    pub fn pattern_hash(&self) -> (r: String)
        ensures
            r@ == hex_lower(sha256_of(hash_input(self@))),
    {
        let input = self.hash_input();
        sha256_hex(input.as_slice())
    }
}

impl WipeAlgorithm {
    /// The passes the algorithm writes, in order.
    pub open spec fn spec_patterns(&self) -> Seq<PatternSpec> {
        match self {
            WipeAlgorithm::NIST80088 => seq![PatternSpec::Random],
            WipeAlgorithm::DoD522022M => seq![PatternSpec::Zeros, PatternSpec::Ones, PatternSpec::Random],
            WipeAlgorithm::Gutmann => gutmann_spec(),
            WipeAlgorithm::Random => seq![PatternSpec::Random],
            WipeAlgorithm::ZeroFill => seq![PatternSpec::Zeros],
            WipeAlgorithm::OneFill => seq![PatternSpec::Ones],
            WipeAlgorithm::ATASecureErase => Seq::empty(),
            WipeAlgorithm::NVMeFormat => Seq::empty(),
            WipeAlgorithm::Custom(ps) => pattern_specs(ps@),
        }
    }

    /// Whether the algorithm is a command that the drive carries out itself.
    pub open spec fn spec_hardware(&self) -> bool {
        self is ATASecureErase || self is NVMeFormat
    }

    pub open spec fn spec_name(&self) -> Seq<char> {
        match self {
            WipeAlgorithm::NIST80088 => "NIST 800-88"@,
            WipeAlgorithm::DoD522022M => "DoD 5220.22-M"@,
            WipeAlgorithm::Gutmann => "Gutmann"@,
            WipeAlgorithm::Random => "Random"@,
            WipeAlgorithm::ZeroFill => "Zero Fill"@,
            WipeAlgorithm::OneFill => "One Fill"@,
            WipeAlgorithm::ATASecureErase => "ATA Secure Erase"@,
            WipeAlgorithm::NVMeFormat => "NVMe Format"@,
            WipeAlgorithm::Custom(_) => "Custom"@,
        }
    }

    pub open spec fn spec_description(&self) -> Seq<char> {
        match self {
            WipeAlgorithm::NIST80088 => "NIST Special Publication 800-88 - Single pass with verification"@,
            WipeAlgorithm::DoD522022M => "US Department of Defense - Three-pass overwrite"@,
            WipeAlgorithm::Gutmann => "Peter Gutmann's 35-pass algorithm for maximum security"@,
            WipeAlgorithm::Random => "Single pass with cryptographically secure random data"@,
            WipeAlgorithm::ZeroFill => "Single pass overwrite with zeros"@,
            WipeAlgorithm::OneFill => "Single pass overwrite with ones (0xFF)"@,
            WipeAlgorithm::ATASecureErase => "Hardware-level secure erase using ATA commands"@,
            WipeAlgorithm::NVMeFormat => "NVMe secure format with cryptographic erase"@,
            WipeAlgorithm::Custom(_) => "User-defined wipe pattern"@,
        }
    }

    /// The one compliance tag of the algorithm.
    pub open spec fn spec_standard(&self) -> Seq<char> {
        match self {
            WipeAlgorithm::NIST80088 => "NIST 800-88"@,
            WipeAlgorithm::DoD522022M => "DoD 5220.22-M"@,
            WipeAlgorithm::Gutmann => "Academic Research"@,
            WipeAlgorithm::Random => "General Purpose"@,
            WipeAlgorithm::ZeroFill => "Basic Sanitization"@,
            WipeAlgorithm::OneFill => "Basic Sanitization"@,
            WipeAlgorithm::ATASecureErase => "ATA Standard"@,
            WipeAlgorithm::NVMeFormat => "NVMe Standard"@,
            WipeAlgorithm::Custom(_) => "Custom"@,
        }
    }

    pub open spec fn spec_passes(&self) -> nat {
        match self {
            WipeAlgorithm::DoD522022M => 3,
            WipeAlgorithm::Gutmann => 35,
            WipeAlgorithm::Custom(ps) => ps@.len(),
            _ => 1,
        }
    }

    pub open spec fn spec_security_level(&self) -> SecurityLevel {
        match self {
            WipeAlgorithm::NIST80088 => SecurityLevel::Standard,
            WipeAlgorithm::DoD522022M => SecurityLevel::High,
            WipeAlgorithm::Gutmann => SecurityLevel::Maximum,
            WipeAlgorithm::Random => SecurityLevel::Standard,
            WipeAlgorithm::ZeroFill => SecurityLevel::Basic,
            WipeAlgorithm::OneFill => SecurityLevel::Basic,
            WipeAlgorithm::ATASecureErase => SecurityLevel::High,
            WipeAlgorithm::NVMeFormat => SecurityLevel::High,
            WipeAlgorithm::Custom(_) => SecurityLevel::Standard,
        }
    }

    pub open spec fn spec_time_factor_tenths(&self) -> nat {
        match self {
            WipeAlgorithm::DoD522022M => 30,
            WipeAlgorithm::Gutmann => 350,
            WipeAlgorithm::ZeroFill => 8,
            WipeAlgorithm::OneFill => 8,
            WipeAlgorithm::ATASecureErase => 5,
            WipeAlgorithm::NVMeFormat => 3,
            WipeAlgorithm::Custom(ps) => if ps@.len() * 10 <= u64::MAX {
                ps@.len() * 10
            } else {
                u64::MAX as nat
            },
            _ => 10,
        }
    }

    /// The algorithm's metadata.
    pub fn info(&self) -> (r: AlgorithmInfo)
        ensures
            r.name@ == self.spec_name(),
            r.description@ == self.spec_description(),
            r.passes == self.spec_passes(),
            r.security_level == self.spec_security_level(),
            r.compliance_standards@.len() == 1,
            r.compliance_standards@[0]@ == self.spec_standard(),
            r.estimated_time_factor_tenths == self.spec_time_factor_tenths(),
    {
        let name = match self {
            WipeAlgorithm::NIST80088 => String::from_str("NIST 800-88"),
            WipeAlgorithm::DoD522022M => String::from_str("DoD 5220.22-M"),
            WipeAlgorithm::Gutmann => String::from_str("Gutmann"),
            WipeAlgorithm::Random => String::from_str("Random"),
            WipeAlgorithm::ZeroFill => String::from_str("Zero Fill"),
            WipeAlgorithm::OneFill => String::from_str("One Fill"),
            WipeAlgorithm::ATASecureErase => String::from_str("ATA Secure Erase"),
            WipeAlgorithm::NVMeFormat => String::from_str("NVMe Format"),
            WipeAlgorithm::Custom(_) => String::from_str("Custom"),
        };
        let description = match self {
            WipeAlgorithm::NIST80088 => String::from_str(
                "NIST Special Publication 800-88 - Single pass with verification",
            ),
            WipeAlgorithm::DoD522022M => String::from_str(
                "US Department of Defense - Three-pass overwrite",
            ),
            WipeAlgorithm::Gutmann => String::from_str(
                "Peter Gutmann's 35-pass algorithm for maximum security",
            ),
            WipeAlgorithm::Random => String::from_str(
                "Single pass with cryptographically secure random data",
            ),
            WipeAlgorithm::ZeroFill => String::from_str("Single pass overwrite with zeros"),
            WipeAlgorithm::OneFill => String::from_str("Single pass overwrite with ones (0xFF)"),
            WipeAlgorithm::ATASecureErase => String::from_str(
                "Hardware-level secure erase using ATA commands",
            ),
            WipeAlgorithm::NVMeFormat => String::from_str(
                "NVMe secure format with cryptographic erase",
            ),
            WipeAlgorithm::Custom(_) => String::from_str("User-defined wipe pattern"),
        };
        let standard = match self {
            WipeAlgorithm::NIST80088 => String::from_str("NIST 800-88"),
            WipeAlgorithm::DoD522022M => String::from_str("DoD 5220.22-M"),
            WipeAlgorithm::Gutmann => String::from_str("Academic Research"),
            WipeAlgorithm::Random => String::from_str("General Purpose"),
            WipeAlgorithm::ZeroFill => String::from_str("Basic Sanitization"),
            WipeAlgorithm::OneFill => String::from_str("Basic Sanitization"),
            WipeAlgorithm::ATASecureErase => String::from_str("ATA Standard"),
            WipeAlgorithm::NVMeFormat => String::from_str("NVMe Standard"),
            WipeAlgorithm::Custom(_) => String::from_str("Custom"),
        };
        let (passes, security_level, tenths): (usize, SecurityLevel, u64) = match self {
            WipeAlgorithm::NIST80088 => (1, SecurityLevel::Standard, 10),
            WipeAlgorithm::DoD522022M => (3, SecurityLevel::High, 30),
            WipeAlgorithm::Gutmann => (35, SecurityLevel::Maximum, 350),
            WipeAlgorithm::Random => (1, SecurityLevel::Standard, 10),
            WipeAlgorithm::ZeroFill => (1, SecurityLevel::Basic, 8),
            WipeAlgorithm::OneFill => (1, SecurityLevel::Basic, 8),
            WipeAlgorithm::ATASecureErase => (1, SecurityLevel::High, 5),
            WipeAlgorithm::NVMeFormat => (1, SecurityLevel::High, 3),
            WipeAlgorithm::Custom(ps) => {
                let n = ps.len();
                let t: u64 = if (n as u64) <= u64::MAX / 10 {
                    n as u64 * 10
                } else {
                    u64::MAX
                };
                (n, SecurityLevel::Standard, t)
            },
        };
        let mut compliance_standards: Vec<String> = Vec::new();
        compliance_standards.push(standard);
        AlgorithmInfo {
            name,
            description,
            passes,
            security_level,
            compliance_standards,
            estimated_time_factor_tenths: tenths,
        }
    }

    /// The algorithm's display name.
    pub fn label(&self) -> (r: String)
        ensures
            r@ == self.spec_name(),
    {
        self.info().name
    }

    /// The passes the algorithm writes, in order; none for a drive command.
    pub fn patterns(&self) -> (r: Vec<WipePattern>)
        ensures
            pattern_specs(r@) == self.spec_patterns(),
    {
        match self {
            WipeAlgorithm::NIST80088 => {
                let r = vec![WipePattern::Random];
                assert(pattern_specs(r@) =~= self.spec_patterns());
                r
            },
            WipeAlgorithm::DoD522022M => {
                let r = vec![WipePattern::Zeros, WipePattern::Ones, WipePattern::Random];
                assert(pattern_specs(r@) =~= self.spec_patterns());
                r
            },
            WipeAlgorithm::Gutmann => Self::gutmann_patterns(),
            WipeAlgorithm::Random => {
                let r = vec![WipePattern::Random];
                assert(pattern_specs(r@) =~= self.spec_patterns());
                r
            },
            WipeAlgorithm::ZeroFill => {
                let r = vec![WipePattern::Zeros];
                assert(pattern_specs(r@) =~= self.spec_patterns());
                r
            },
            WipeAlgorithm::OneFill => {
                let r = vec![WipePattern::Ones];
                assert(pattern_specs(r@) =~= self.spec_patterns());
                r
            },
            WipeAlgorithm::ATASecureErase | WipeAlgorithm::NVMeFormat => {
                let r: Vec<WipePattern> = Vec::new();
                assert(pattern_specs(r@) =~= self.spec_patterns());
                r
            },
            WipeAlgorithm::Custom(ps) => {
                let mut r: Vec<WipePattern> = Vec::new();
                let mut i: usize = 0;
                while i < ps.len()
                    invariant
                        i <= ps.len(),
                        r@.len() == i,
                        forall|j: int| 0 <= j < i ==> (#[trigger] r@[j])@ == ps@[j]@,
                    decreases ps.len() - i,
                {
                    r.push(ps[i].copy());
                    i += 1;
                }
                assert(pattern_specs(r@) =~= pattern_specs(ps@));
                r
            },
        }
    }

    /// Whether the algorithm is a command that the drive carries out itself.
    pub fn is_hardware_based(&self) -> (r: bool)
        ensures
            r == self.spec_hardware(),
    {
        matches!(self, WipeAlgorithm::ATASecureErase | WipeAlgorithm::NVMeFormat)
    }

    /// Algorithms suited to a SATA solid-state drive, best first.
    pub fn recommended_for_ssd() -> (r: Vec<WipeAlgorithm>)
        ensures
            r@.len() == 3,
            r@[0] is ATASecureErase,
            r@[1] is NIST80088,
            r@[2] is Random,
    {
        vec![WipeAlgorithm::ATASecureErase, WipeAlgorithm::NIST80088, WipeAlgorithm::Random]
    }

    /// Algorithms suited to a magnetic disk, best first.
    pub fn recommended_for_hdd() -> (r: Vec<WipeAlgorithm>)
        ensures
            r@.len() == 3,
            r@[0] is DoD522022M,
            r@[1] is NIST80088,
            r@[2] is Gutmann,
    {
        vec![WipeAlgorithm::DoD522022M, WipeAlgorithm::NIST80088, WipeAlgorithm::Gutmann]
    }

    /// Algorithms suited to an NVMe drive, best first.
    pub fn recommended_for_nvme() -> (r: Vec<WipeAlgorithm>)
        ensures
            r@.len() == 3,
            r@[0] is NVMeFormat,
            r@[1] is NIST80088,
            r@[2] is Random,
    {
        vec![WipeAlgorithm::NVMeFormat, WipeAlgorithm::NIST80088, WipeAlgorithm::Random]
    }

    /// Gutmann's 35 passes.
    fn gutmann_patterns() -> (r: Vec<WipePattern>)
        ensures
            pattern_specs(r@) == gutmann_spec(),
    {
        let r = vec![
            WipePattern::Random,
            WipePattern::Random,
            WipePattern::Random,
            WipePattern::Random,
            triple_pattern(0x55, 0x55, 0x55),
            triple_pattern(0xAA, 0xAA, 0xAA),
            triple_pattern(0x92, 0x49, 0x24),
            triple_pattern(0x49, 0x24, 0x92),
            triple_pattern(0x24, 0x92, 0x49),
            WipePattern::Zeros,
            triple_pattern(0x11, 0x11, 0x11),
            triple_pattern(0x22, 0x22, 0x22),
            triple_pattern(0x33, 0x33, 0x33),
            triple_pattern(0x44, 0x44, 0x44),
            triple_pattern(0x55, 0x55, 0x55),
            triple_pattern(0x66, 0x66, 0x66),
            triple_pattern(0x77, 0x77, 0x77),
            triple_pattern(0x88, 0x88, 0x88),
            triple_pattern(0x99, 0x99, 0x99),
            triple_pattern(0xAA, 0xAA, 0xAA),
            triple_pattern(0xBB, 0xBB, 0xBB),
            triple_pattern(0xCC, 0xCC, 0xCC),
            triple_pattern(0xDD, 0xDD, 0xDD),
            triple_pattern(0xEE, 0xEE, 0xEE),
            WipePattern::Ones,
            triple_pattern(0x92, 0x49, 0x24),
            triple_pattern(0x49, 0x24, 0x92),
            triple_pattern(0x24, 0x92, 0x49),
            triple_pattern(0x6D, 0xB6, 0xDB),
            triple_pattern(0xB6, 0xDB, 0x6D),
            triple_pattern(0xDB, 0x6D, 0xB6),
            WipePattern::Random,
            WipePattern::Random,
            WipePattern::Random,
            WipePattern::Random,
        ];
        assert(pattern_specs(r@) =~= gutmann_spec());
        r
    }
}

} // verus!
