//! What the library decides from the text that device tools print: SMART
//! attribute tables and device names.

use vstd::prelude::*;
use vstd::string::StrSliceExecFns;

use crate::device::{DeviceType, HealthStatus, StorageInterface};
use crate::error::SafeEraseError;

verus! {

/// SMART data of a device.
#[derive(Debug, Clone, Copy, PartialEq, Eq, Structural)]
pub struct SmartInfo {
    pub temperature: Option<i32>,
    pub health_status: HealthStatus,
    pub power_on_hours: Option<u64>,
    pub power_cycle_count: Option<u64>,
    pub reallocated_sectors: Option<u64>,
    pub pending_sectors: Option<u64>,
}

impl Default for SmartInfo {
    /// Nothing known, health unknown.
    fn default() -> (r: SmartInfo)
        ensures
            r.temperature is None,
            r.health_status == HealthStatus::Unknown,
            r.power_on_hours is None,
            r.power_cycle_count is None,
            r.reallocated_sectors is None,
            r.pending_sectors is None,
    {
        SmartInfo {
            temperature: None,
            health_status: HealthStatus::Unknown,
            power_on_hours: None,
            power_cycle_count: None,
            reallocated_sectors: None,
            pending_sectors: None,
        }
    }
}

/// The lines of a text, as `str::lines` splits it.
pub uninterp spec fn text_lines(s: Seq<char>) -> Seq<Seq<char>>;

/// The fields of a line, as `str::split_whitespace` splits it.
pub uninterp spec fn whitespace_fields(s: Seq<char>) -> Seq<Seq<char>>;

/// Relies on str::lines: the lines of the text, without their line endings.
#[verifier::external_body]
fn lines_of(s: &str) -> (r: Vec<String>)
    ensures
        r@.map_values(|l: String| l@) == text_lines(s@),
{
    s.lines().map(|l| l.to_string()).collect()
}

/// Relies on str::split_whitespace and Iterator::nth: the field at `n`, if
/// the line has that many.
#[verifier::external_body]
fn nth_field(s: &str, n: usize) -> (r: Option<String>)
    ensures
        match r {
            Some(f) => n < whitespace_fields(s@).len() && f@ == whitespace_fields(s@)[n as int],
            None => n >= whitespace_fields(s@).len(),
        },
{
    s.split_whitespace().nth(n).map(|f| f.to_string())
}

/// Whether every character is a decimal digit.
pub open spec fn all_digits(d: Seq<char>) -> bool {
    forall|i: int| 0 <= i < d.len() ==> 48 <= (#[trigger] d[i] as u32) <= 57
}

/// The value of a string of decimal digits.
pub open spec fn digits_value(d: Seq<char>) -> int
    decreases d.len(),
{
    if d.len() == 0 {
        0
    } else {
        digits_value(d.drop_last()) * 10 + (d.last() as u32 - 48)
    }
}

/// What `str::parse::<i32>` gives: an optional sign followed by at least one
/// decimal digit, within the range of `i32`; nothing else.
pub open spec fn spec_parse_i32(s: Seq<char>) -> Option<i32> {
    let neg = s.len() > 0 && s[0] == '-';
    let signed = s.len() > 0 && (s[0] == '-' || s[0] == '+');
    let d = if signed { s.drop_first() } else { s };
    let v = if neg { -digits_value(d) } else { digits_value(d) };
    if d.len() == 0 || !all_digits(d) || v < i32::MIN || v > i32::MAX {
        None
    } else {
        Some(v as i32)
    }
}

proof fn lemma_digits_prefix(d: Seq<char>, k: int)
    requires
        all_digits(d),
        0 <= k <= d.len(),
    ensures
        digits_value(d.subrange(0, k)) <= digits_value(d),
        digits_value(d.subrange(0, k)) >= 0,
    decreases d.len(),
{
    if k == d.len() {
        assert(d.subrange(0, k) =~= d);
        lemma_digits_nonneg(d);
    } else {
        let p = d.drop_last();
        assert(all_digits(p)) by {
            assert forall|i: int| 0 <= i < p.len() implies 48 <= (#[trigger] p[i] as u32) <= 57 by {
                assert(p[i] == d[i]);
            }
        }
        lemma_digits_prefix(p, k);
        assert(p.subrange(0, k) =~= d.subrange(0, k));
        lemma_digits_nonneg(p);
        assert(48 <= (d.last() as u32) <= 57) by {
            assert(d.last() == d[d.len() - 1]);
        }
    }
}

proof fn lemma_digits_nonneg(d: Seq<char>)
    requires
        all_digits(d),
    ensures
        digits_value(d) >= 0,
    decreases d.len(),
{
    if d.len() > 0 {
        let p = d.drop_last();
        assert(all_digits(p)) by {
            assert forall|i: int| 0 <= i < p.len() implies 48 <= (#[trigger] p[i] as u32) <= 57 by {
                assert(p[i] == d[i]);
            }
        }
        lemma_digits_nonneg(p);
        assert(48 <= (d.last() as u32) <= 57) by {
            assert(d.last() == d[d.len() - 1]);
        }
    }
}

/// The integer a text writes in decimal, with an optional sign, as
/// `str::parse::<i32>` reads it; none where it is not one or does not fit.
pub fn parse_i32(s: &str) -> (r: Option<i32>)
    ensures
        r == spec_parse_i32(s@),
{
    let n = s.unicode_len();
    let neg = n > 0 && s.get_char(0) == '-';
    let signed = n > 0 && (s.get_char(0) == '-' || s.get_char(0) == '+');
    let start: usize = if signed { 1 } else { 0 };
    let ghost d = if signed { s@.drop_first() } else { s@ };
    assert(signed == (s@.len() > 0 && (s@[0] == '-' || s@[0] == '+')));
    assert(neg == (s@.len() > 0 && s@[0] == '-'));
    if start == n {
        return None;
    }
    let mut v: i64 = 0;
    let mut i: usize = start;
    while i < n
        invariant
            n == s@.len(),
            start <= i <= n,
            start == (if signed { 1usize } else { 0usize }),
            d == s@.subrange(start as int, n as int),
            d == (if signed { s@.drop_first() } else { s@ }),
            signed == (s@.len() > 0 && (s@[0] == '-' || s@[0] == '+')),
            neg == (s@.len() > 0 && s@[0] == '-'),
            all_digits(d.subrange(0, i - start)),
            v as int == digits_value(d.subrange(0, i - start)),
            0 <= v <= 2147483648,
        decreases n - i,
    {
        let c = s.get_char(i);
        let code = c as u32;
        if code < 48 || code > 57 {
            proof {
                assert(d[i - start] == c);
                assert(!(48 <= (d[i - start] as u32) <= 57));
                assert(!all_digits(d));
            }
            return None;
        }
        let next = v * 10 + (code - 48) as i64;
        proof {
            let pre = d.subrange(0, i - start);
            let cur = d.subrange(0, i - start + 1);
            assert(cur.drop_last() =~= pre);
            assert(cur.last() == c);
            assert(all_digits(cur)) by {
                assert forall|t: int| 0 <= t < cur.len() implies 48 <= (#[trigger] cur[t] as u32) <= 57 by {
                    if t < pre.len() {
                        assert(cur[t] == pre[t]);
                    }
                }
            }
        }
        if next > 2147483648 {
            proof {
                let cur = d.subrange(0, i - start + 1);
                assert(digits_value(cur) == digits_value(cur.drop_last()) * 10 + (cur.last() as u32 - 48));
                assert(digits_value(cur) == next as int);
                if all_digits(d) {
                    lemma_digits_prefix(d, i - start + 1);
                    assert(digits_value(d) > 2147483648);
                }
            }
            return None;
        }
        v = next;
        i += 1;
    }
    proof {
        assert(d.subrange(0, n - start) =~= d);
    }
    if neg {
        Some((-v) as i32)
    } else if v > 2147483647 {
        None
    } else {
        Some(v as i32)
    }
}

/// Whether `pat` occurs in `s`.
pub open spec fn occurs(s: Seq<char>, pat: Seq<char>) -> bool {
    exists|i: int| 0 <= i && i + pat.len() <= s.len() && #[trigger] s.subrange(i, i + pat.len()) == pat
}

/// Whether `pat` occurs in `s`.
pub fn contains_text(s: &str, pat: &str) -> (r: bool)
    ensures
        r == occurs(s@, pat@),
{
    let n = s.unicode_len();
    let m = pat.unicode_len();
    if m > n {
        assert forall|i: int| !(0 <= i && i + pat@.len() <= s@.len() && #[trigger] s@.subrange(i, i + pat@.len()) == pat@) by {}
        return false;
    }
    let mut i: usize = 0;
    while i <= n - m
        invariant
            n == s@.len(),
            m == pat@.len(),
            m <= n,
            i <= n - m + 1,
            forall|k: int| 0 <= k < i ==> #[trigger] s@.subrange(k, k + m) != pat@,
        decreases n - m + 1 - i,
    {
        let mut j: usize = 0;
        let mut same = true;
        while j < m
            invariant
                j <= m,
                i + m <= n,
                n == s@.len(),
                m == pat@.len(),
                same == forall|t: int| 0 <= t < j ==> #[trigger] s@[i + t] == pat@[t],
            decreases m - j,
        {
            if s.get_char(i + j) != pat.get_char(j) {
                same = false;
            }
            j += 1;
        }
        if same {
            assert forall|t: int| 0 <= t < m implies s@.subrange(i as int, i + m)[t] == pat@[t] by {
                assert(s@[i + t] == pat@[t]);
            }
            assert(s@.subrange(i as int, i + m) =~= pat@);
            return true;
        }
        proof {
            let t = choose|t: int| 0 <= t < m && #[trigger] s@[i + t] != pat@[t];
            assert(s@.subrange(i as int, i + m)[t] != pat@[t]);
        }
        i += 1;
    }
    false
}

/// The temperature a line of a SMART table gives: its tenth field, read as
/// an integer.
pub open spec fn line_temperature(line: Seq<char>) -> Option<i32> {
    if 9 < whitespace_fields(line).len() {
        spec_parse_i32(whitespace_fields(line)[9])
    } else {
        None
    }
}

/// The temperature a SMART table gives: that of its last line naming
/// Temperature_Celsius, if any.
pub open spec fn table_temperature(lines: Seq<Seq<char>>) -> Option<i32>
    decreases lines.len(),
{
    if lines.len() == 0 {
        None
    } else if occurs(lines.last(), "Temperature_Celsius"@) {
        line_temperature(lines.last())
    } else {
        table_temperature(lines.drop_last())
    }
}

/// Reads the output of `smartctl -A`: the temperature from the
/// Temperature_Celsius attribute; the health is taken as good.
pub fn parse_smart_output(output: &str) -> (r: Result<SmartInfo, SafeEraseError>)
    ensures
        r matches Ok(info) && info.temperature == table_temperature(text_lines(output@))
            && info.health_status == HealthStatus::Good,
{
    let lines = lines_of(output);
    let ghost all = lines@.map_values(|l: String| l@);
    let mut smart_info = SmartInfo::default();
    let mut i: usize = 0;
    while i < lines.len()
        invariant
            i <= lines@.len(),
            all == lines@.map_values(|l: String| l@),
            smart_info.temperature == table_temperature(all.subrange(0, i as int)),
        decreases lines.len() - i,
    {
        let line = lines[i].as_str();
        proof {
            let next = all.subrange(0, i as int + 1);
            assert(next.drop_last() =~= all.subrange(0, i as int));
            assert(next.last() == lines@[i as int]@);
        }
        if contains_text(line, "Temperature_Celsius") {
            smart_info.temperature = match nth_field(line, 9) {
                Some(t) => parse_i32(t.as_str()),
                None => None,
            };
        }
        i += 1;
    }
    assert(all.subrange(0, lines@.len() as int) =~= all);
    smart_info.health_status = HealthStatus::Good;
    Ok(smart_info)
}

/// Whether `name` begins with `prefix`.
pub open spec fn starts(name: Seq<char>, prefix: Seq<char>) -> bool {
    prefix.len() <= name.len() && name.subrange(0, prefix.len() as int) == prefix
}

fn starts_with_text(name: &str, prefix: &str) -> (r: bool)
    ensures
        r == starts(name@, prefix@),
{
    let n = name.unicode_len();
    let m = prefix.unicode_len();
    if m > n {
        return false;
    }
    let mut j: usize = 0;
    while j < m
        invariant
            j <= m <= n,
            n == name@.len(),
            m == prefix@.len(),
            forall|t: int| 0 <= t < j ==> #[trigger] name@[t] == prefix@[t],
        decreases m - j,
    {
        if name.get_char(j) != prefix.get_char(j) {
            assert(name@.subrange(0, m as int)[j as int] != prefix@[j as int]);
            return false;
        }
        j += 1;
    }
    assert(name@.subrange(0, m as int) =~= prefix@);
    true
}

/// The bus of a device by its kind and kernel name: NVMe for NVMe drives,
/// SATA for `sd*`, IDE for `hd*`, unknown otherwise.
pub open spec fn spec_interface(name: Seq<char>, device_type: DeviceType) -> StorageInterface {
    if device_type == DeviceType::NVMe {
        StorageInterface::NVMe
    } else if starts(name, "sd"@) {
        StorageInterface::SATA
    } else if starts(name, "hd"@) {
        StorageInterface::IDE
    } else {
        StorageInterface::Unknown
    }
}

/// The bus of a device by its kind and kernel name.
pub fn determine_interface(device_name: &str, device_type: DeviceType) -> (r: StorageInterface)
    ensures
        r == spec_interface(device_name@, device_type),
{
    if device_type == DeviceType::NVMe {
        StorageInterface::NVMe
    } else if starts_with_text(device_name, "sd") {
        StorageInterface::SATA
    } else if starts_with_text(device_name, "hd") {
        StorageInterface::IDE
    } else {
        StorageInterface::Unknown
    }
}

/// Whether a kernel block-device name names a whole disk: its last character
/// is not a decimal digit (partitions end in their number). An empty name
/// does not.
pub open spec fn spec_whole_disk(name: Seq<char>) -> bool {
    name.len() > 0 && !(48 <= (name.last() as u32) <= 57)
}

/// Whether a kernel block-device name names a whole disk.
pub fn is_whole_disk(name: &str) -> (r: bool)
    ensures
        r == spec_whole_disk(name@),
{
    let n = name.unicode_len();
    if n == 0 {
        return false;
    }
    let c = name.get_char(n - 1);
    let code = c as u32;
    !(48 <= code && code <= 57)
}

/// The lowercase form of a text.
pub uninterp spec fn lower_of(s: Seq<char>) -> Seq<char>;

/// Relies on str::to_lowercase: the text in lowercase; the result depends on
/// the characters alone.
#[verifier::external_body]
fn to_lower(s: &str) -> (r: String)
    ensures
        r@ == lower_of(s@),
{
    s.to_lowercase()
}

/// The kind of a device: NVMe by its name; otherwise solid-state or magnetic
/// by the kernel's rotational flag where it is given ("0" meaning not
/// rotational); otherwise solid-state where the model names "ssd" or
/// "solid" in any case; otherwise unknown.
pub open spec fn spec_device_type(name: Seq<char>, rotational: Option<Seq<char>>, model: Option<Seq<char>>) -> DeviceType {
    if starts(name, "nvme"@) {
        DeviceType::NVMe
    } else if rotational is Some {
        if rotational->Some_0 == "0"@ { DeviceType::SSD } else { DeviceType::HDD }
    } else if model matches Some(m) && (occurs(lower_of(m), "ssd"@) || occurs(lower_of(m), "solid"@)) {
        DeviceType::SSD
    } else {
        DeviceType::Unknown
    }
}

/// The value of an optional text.
pub open spec fn opt_chars(s: Option<&str>) -> Option<Seq<char>> {
    match s {
        Some(t) => Some(t@),
        None => None,
    }
}

/// The kind of a device from its kernel name, its trimmed rotational flag
/// and its model, where known.
pub fn determine_device_type(device_name: &str, rotational: Option<&str>, model: Option<&str>) -> (r: DeviceType)
    ensures
        r == spec_device_type(device_name@, opt_chars(rotational), opt_chars(model)),
{
    if starts_with_text(device_name, "nvme") {
        return DeviceType::NVMe;
    }
    if let Some(flag) = rotational {
        let zero = flag.unicode_len() == 1 && flag.get_char(0) == '0';
        proof {
            reveal_strlit("0");
            if zero {
                assert(flag@ =~= "0"@);
            }
        }
        return if zero { DeviceType::SSD } else { DeviceType::HDD };
    }
    if let Some(m) = model {
        let lower = to_lower(m);
        if contains_text(lower.as_str(), "ssd") || contains_text(lower.as_str(), "solid") {
            return DeviceType::SSD;
        }
    }
    DeviceType::Unknown
}

/// Which wipe features a kind of device is taken to have: a secure-erase
/// command on solid-state and NVMe drives, hidden areas on magnetic and
/// SATA solid-state drives.
pub fn type_features(device_type: DeviceType) -> (r: (bool, bool))
    ensures
        r.0 == (device_type == DeviceType::SSD || device_type == DeviceType::NVMe),
        r.1 == (device_type == DeviceType::HDD || device_type == DeviceType::SSD),
{
    (
        device_type == DeviceType::SSD || device_type == DeviceType::NVMe,
        device_type == DeviceType::HDD || device_type == DeviceType::SSD,
    )
}

} // verus!
