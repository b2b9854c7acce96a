//! The canonical serialization of a certificate: the bytes that are hashed
//! and signed. It is JSON with object keys in ascending order, no white
//! space, integers in decimal, times in RFC 3339 with microseconds, UUIDs in
//! hyphenated form and durations as `{"nanos":..,"secs":..}`. The same
//! certificate always gives the same text.

use vstd::prelude::*;
use vstd::string::{StrSliceExecFns, StringExecFns};

use crate::algorithms::{WipeAlgorithm, WipePattern};
use crate::certgen::{format_uuid, uuid_text};
use crate::certificate::{
    CertificateData, ComplianceInfo, ComplianceLevel, ComplianceStandard, DeviceInfo, OrganizationInfo,
    SecurityLevel, VerificationInfo, WipeCertificate, WipeInfo,
};
use crate::digest::{hex_lower, to_hex};
use crate::text::{decimal, push_decimal};
use crate::verification::{VerificationStatus, VerificationType};

verus! {

/// Relies on String::push: the string with `c` appended.
#[verifier::external_body]
fn push_char(s: &mut String, c: char)
    ensures
        final(s)@ == old(s)@.push(c),
{
    s.push(c)
}

/// How a character stands in a JSON string: quotation mark, reverse solidus
/// and control characters escaped as serde_json escapes them.
pub open spec fn escape_char(c: char) -> Seq<char> {
    if c == '"' {
        "\\\""@
    } else if c == '\\' {
        "\\\\"@
    } else if c == '\n' {
        "\\n"@
    } else if c == '\r' {
        "\\r"@
    } else if c == '\t' {
        "\\t"@
    } else if c == '\x08' {
        "\\b"@
    } else if c == '\x0c' {
        "\\f"@
    } else if (c as u32) < 0x20 {
        "\\u00"@ + hex_lower(seq![c as u8])
    } else {
        seq![c]
    }
}

/// The characters of a JSON string's body.
pub open spec fn escaped(s: Seq<char>) -> Seq<char>
    decreases s.len(),
{
    if s.len() == 0 {
        Seq::empty()
    } else {
        escaped(s.drop_last()) + escape_char(s.last())
    }
}

/// A JSON string.
pub open spec fn json_str(s: Seq<char>) -> Seq<char> {
    "\""@ + escaped(s) + "\""@
}

fn push_escaped_char(out: &mut String, c: char)
    ensures
        final(out)@ == old(out)@ + escape_char(c),
{
    if c == '"' {
        out.append("\\\"");
    } else if c == '\\' {
        out.append("\\\\");
    } else if c == '\n' {
        out.append("\\n");
    } else if c == '\r' {
        out.append("\\r");
    } else if c == '\t' {
        out.append("\\t");
    } else if c == '\x08' {
        out.append("\\b");
    } else if c == '\x0c' {
        out.append("\\f");
    } else if (c as u32) < 0x20 {
        out.append("\\u00");
        let b: Vec<u8> = vec![c as u8];
        assert(b@ =~= seq![c as u8]);
        let h = to_hex(b.as_slice());
        out.append(h.as_str());
    } else {
        push_char(out, c);
        assert(final(out)@ =~= old(out)@ + seq![c]);
        return;
    }
}

/// Appends `s` as a JSON string.
pub fn push_json_str(out: &mut String, s: &str)
    ensures
        final(out)@ == old(out)@ + json_str(s@),
{
    let ghost start = out@;
    out.append("\"");
    let n = s.unicode_len();
    let mut i: usize = 0;
    while i < n
        invariant
            n == s@.len(),
            i <= n,
            out@ == start + "\""@ + escaped(s@.subrange(0, i as int)),
        decreases n - i,
    {
        let c = s.get_char(i);
        push_escaped_char(out, c);
        proof {
            let next = s@.subrange(0, i as int + 1);
            assert(next.drop_last() =~= s@.subrange(0, i as int));
            assert(next.last() == c);
        }
        i += 1;
    }
    assert(s@.subrange(0, n as int) =~= s@);
    out.append("\"");
    assert(final(out)@ =~= start + json_str(s@));
}

/// Whether `a` comes no later than `b` in the order of character codes.
pub open spec fn key_le(a: Seq<char>, b: Seq<char>) -> bool
    decreases a.len(),
{
    if a.len() == 0 {
        true
    } else if b.len() == 0 {
        false
    } else if a[0] != b[0] {
        (a[0] as u32) < (b[0] as u32)
    } else {
        key_le(a.drop_first(), b.drop_first())
    }
}

proof fn lemma_key_le_suffix(a: Seq<char>, b: Seq<char>, i: int)
    requires
        0 <= i <= a.len(),
        i <= b.len(),
        a.subrange(0, i) == b.subrange(0, i),
    ensures
        key_le(a, b) == key_le(a.subrange(i, a.len() as int), b.subrange(i, b.len() as int)),
    decreases i,
{
    if i > 0 {
        assert(a[0] == a.subrange(0, i)[0]);
        assert(b[0] == b.subrange(0, i)[0]);
        let a1 = a.drop_first();
        let b1 = b.drop_first();
        assert(a1.subrange(0, i - 1) =~= a.subrange(1, i));
        assert(b1.subrange(0, i - 1) =~= b.subrange(1, i));
        assert(a.subrange(1, i) =~= a.subrange(0, i).drop_first());
        assert(b.subrange(1, i) =~= b.subrange(0, i).drop_first());
        lemma_key_le_suffix(a1, b1, i - 1);
        assert(a1.subrange(i - 1, a1.len() as int) =~= a.subrange(i, a.len() as int));
        assert(b1.subrange(i - 1, b1.len() as int) =~= b.subrange(i, b.len() as int));
    } else {
        assert(a.subrange(0, a.len() as int) =~= a);
        assert(b.subrange(0, b.len() as int) =~= b);
    }
}

/// Whether `a` comes no later than `b`.
fn key_le_exec(a: &str, b: &str) -> (r: bool)
    ensures
        r == key_le(a@, b@),
{
    let la = a.unicode_len();
    let lb = b.unicode_len();
    let mut i: usize = 0;
    while i < la && i < lb && a.get_char(i) == b.get_char(i)
        invariant
            la == a@.len(),
            lb == b@.len(),
            i <= la,
            i <= lb,
            a@.subrange(0, i as int) == b@.subrange(0, i as int),
        decreases la - i,
    {
        proof {
            assert(a@.subrange(0, i as int + 1) =~= a@.subrange(0, i as int).push(a@[i as int]));
            assert(b@.subrange(0, i as int + 1) =~= b@.subrange(0, i as int).push(b@[i as int]));
        }
        i += 1;
    }
    proof {
        lemma_key_le_suffix(a@, b@, i as int);
    }
    if i == la {
        assert(a@.subrange(i as int, la as int).len() == 0);
        true
    } else if i == lb {
        false
    } else {
        let ca = a.get_char(i);
        let cb = b.get_char(i);
        proof {
            assert(a@.subrange(i as int, la as int)[0] == ca);
            assert(b@.subrange(i as int, lb as int)[0] == cb);
        }
        (ca as u32) < (cb as u32)
    }
}

/// `pairs` with `x` inserted before the first pair whose key it does not
/// come after.
pub open spec fn insert_pair(x: (String, String), pairs: Seq<(String, String)>) -> Seq<(String, String)>
    decreases pairs.len(),
{
    if pairs.len() == 0 {
        seq![x]
    } else if key_le(x.0@, pairs[0].0@) {
        seq![x] + pairs
    } else {
        seq![pairs[0]] + insert_pair(x, pairs.drop_first())
    }
}

/// The pairs ordered by key; pairs of equal keys keep their relative order
/// reversed as given.
pub open spec fn sort_pairs(pairs: Seq<(String, String)>) -> Seq<(String, String)>
    decreases pairs.len(),
{
    if pairs.len() == 0 {
        Seq::empty()
    } else {
        insert_pair(pairs.last(), sort_pairs(pairs.drop_last()))
    }
}

proof fn lemma_insert_at(x: (String, String), pairs: Seq<(String, String)>, p: int)
    requires
        0 <= p <= pairs.len(),
        forall|k: int| 0 <= k < p ==> !key_le(x.0@, #[trigger] pairs[k].0@),
        p < pairs.len() ==> key_le(x.0@, pairs[p].0@),
    ensures
        insert_pair(x, pairs) == pairs.insert(p, x),
    decreases pairs.len(),
{
    if pairs.len() == 0 {
        assert(pairs.insert(p, x) =~= seq![x]);
    } else if p == 0 {
        assert(pairs.insert(0, x) =~= seq![x] + pairs);
    } else {
        let rest = pairs.drop_first();
        assert forall|k: int| 0 <= k < p - 1 implies !key_le(x.0@, #[trigger] rest[k].0@) by {
            assert(rest[k] == pairs[k + 1]);
        }
        lemma_insert_at(x, rest, p - 1);
        assert(pairs.insert(p, x) =~= seq![pairs[0]] + rest.insert(p - 1, x));
    }
}

fn copy_pair(p: &(String, String)) -> (r: (String, String))
    ensures
        r.0@ == p.0@,
        r.1@ == p.1@,
{
    (p.0.clone(), p.1.clone())
}

/// Whether two lists of pairs hold the same texts, pair by pair.
pub open spec fn same_pairs(a: Seq<(String, String)>, b: Seq<(String, String)>) -> bool {
    a.len() == b.len() && forall|i: int| 0 <= i < a.len() ==> (#[trigger] a[i]).0@ == b[i].0@ && a[i].1@ == b[i].1@
}

proof fn lemma_insert_same(x: (String, String), y: (String, String), a: Seq<(String, String)>, b: Seq<(String, String)>)
    requires
        same_pairs(a, b),
        x.0@ == y.0@,
        x.1@ == y.1@,
    ensures
        same_pairs(insert_pair(x, a), insert_pair(y, b)),
    decreases a.len(),
{
    if a.len() > 0 {
        assert(a[0].0@ == b[0].0@);
        let ra = a.drop_first();
        let rb = b.drop_first();
        assert forall|i: int| 0 <= i < ra.len() implies (#[trigger] ra[i]).0@ == rb[i].0@ && ra[i].1@ == rb[i].1@ by {
            assert(ra[i] == a[i + 1]);
            assert(rb[i] == b[i + 1]);
        }
        lemma_insert_same(x, y, ra, rb);
        let ia = insert_pair(x, a);
        let ib = insert_pair(y, b);
        if !key_le(x.0@, a[0].0@) {
            assert forall|i: int| 0 <= i < ia.len() implies (#[trigger] ia[i]).0@ == ib[i].0@ && ia[i].1@ == ib[i].1@ by {
                if i > 0 {
                    assert(ia[i] == insert_pair(x, ra)[i - 1]);
                    assert(ib[i] == insert_pair(y, rb)[i - 1]);
                }
            }
        } else {
            assert forall|i: int| 0 <= i < ia.len() implies (#[trigger] ia[i]).0@ == ib[i].0@ && ia[i].1@ == ib[i].1@ by {
                if i > 0 {
                    assert(ia[i] == a[i - 1]);
                    assert(ib[i] == b[i - 1]);
                }
            }
        }
    }
}

/// The pairs ordered by key.
pub fn sorted_pairs(pairs: &Vec<(String, String)>) -> (r: Vec<(String, String)>)
    ensures
        same_pairs(r@, sort_pairs(pairs@)),
{
    let mut r: Vec<(String, String)> = Vec::new();
    let mut i: usize = 0;
    while i < pairs.len()
        invariant
            i <= pairs@.len(),
            same_pairs(r@, sort_pairs(pairs@.subrange(0, i as int))),
        decreases pairs.len() - i,
    {
        let x = copy_pair(&pairs[i]);
        let mut p: usize = 0;
        while p < r.len() && !key_le_exec(x.0.as_str(), r[p].0.as_str())
            invariant
                p <= r@.len(),
                forall|k: int| 0 <= k < p ==> !key_le(x.0@, #[trigger] r@[k].0@),
            decreases r.len() - p,
        {
            p += 1;
        }
        let ghost before = r@;
        proof {
            if p < r@.len() {
                assert(key_le(x.0@, r@[p as int].0@));
            }
            lemma_insert_at(x, before, p as int);
        }
        r.insert(p, x);
        proof {
            let next = pairs@.subrange(0, i as int + 1);
            assert(next.drop_last() =~= pairs@.subrange(0, i as int));
            assert(next.last() == pairs@[i as int]);
            lemma_insert_same(x, pairs@[i as int], before, sort_pairs(pairs@.subrange(0, i as int)));
            assert(r@ == before.insert(p as int, x));
        }
        i += 1;
    }
    assert(pairs@.subrange(0, pairs@.len() as int) =~= pairs@);
    r
}

/// JSON strings, separated by commas.
pub open spec fn str_items(v: Seq<String>) -> Seq<char>
    decreases v.len(),
{
    if v.len() == 0 {
        Seq::empty()
    } else if v.len() == 1 {
        json_str(v[0]@)
    } else {
        str_items(v.drop_last()) + ","@ + json_str(v.last()@)
    }
}

fn push_str_items(out: &mut String, v: &[String])
    ensures
        final(out)@ == old(out)@ + str_items(v@),
{
    let ghost start = out@;
    let mut i: usize = 0;
    while i < v.len()
        invariant
            i <= v@.len(),
            out@ == start + str_items(v@.subrange(0, i as int)),
        decreases v.len() - i,
    {
        proof {
            let next = v@.subrange(0, i as int + 1);
            assert(next.drop_last() =~= v@.subrange(0, i as int));
            assert(next.last() == v@[i as int]);
            if i == 0 {
                assert(next.len() == 1 && next[0] == v@[0]);
            }
        }
        if i > 0 {
            out.append(",");
        }
        let ghost mid = out@;
        push_json_str(out, v[i].as_str());
        proof {
            let next = v@.subrange(0, i as int + 1);
            if i == 0 {
                assert(str_items(v@.subrange(0, 0)) =~= Seq::<char>::empty());
            }
            assert(out@ =~= start + str_items(next));
        }
        i += 1;
    }
    assert(v@.subrange(0, v@.len() as int) =~= v@);
}

/// Decimal bytes, separated by commas.
pub open spec fn byte_items(v: Seq<u8>) -> Seq<char>
    decreases v.len(),
{
    if v.len() == 0 {
        Seq::empty()
    } else if v.len() == 1 {
        decimal(v[0] as nat)
    } else {
        byte_items(v.drop_last()) + ","@ + decimal(v.last() as nat)
    }
}

fn push_byte_items(out: &mut String, v: &[u8])
    ensures
        final(out)@ == old(out)@ + byte_items(v@),
{
    let ghost start = out@;
    let mut i: usize = 0;
    while i < v.len()
        invariant
            i <= v@.len(),
            out@ == start + byte_items(v@.subrange(0, i as int)),
        decreases v.len() - i,
    {
        proof {
            let next = v@.subrange(0, i as int + 1);
            assert(next.drop_last() =~= v@.subrange(0, i as int));
            assert(next.last() == v@[i as int]);
            if i == 0 {
                assert(next.len() == 1 && next[0] == v@[0]);
            }
        }
        if i > 0 {
            out.append(",");
        }
        let ghost mid = out@;
        push_decimal(out, v[i] as u64);
        proof {
            let next = v@.subrange(0, i as int + 1);
            if i == 0 {
                assert(byte_items(v@.subrange(0, 0)) =~= Seq::<char>::empty());
            }
            assert(out@ =~= start + byte_items(next));
        }
        i += 1;
    }
    assert(v@.subrange(0, v@.len() as int) =~= v@);
}

/// Patterns, separated by commas.
pub open spec fn pattern_items(v: Seq<WipePattern>) -> Seq<char>
    decreases v.len(),
{
    if v.len() == 0 {
        Seq::empty()
    } else if v.len() == 1 {
        pattern_json(v[0])
    } else {
        pattern_items(v.drop_last()) + ","@ + pattern_json(v.last())
    }
}

fn push_pattern_items(out: &mut String, v: &[WipePattern])
    ensures
        final(out)@ == old(out)@ + pattern_items(v@),
{
    let ghost start = out@;
    let mut i: usize = 0;
    while i < v.len()
        invariant
            i <= v@.len(),
            out@ == start + pattern_items(v@.subrange(0, i as int)),
        decreases v.len() - i,
    {
        proof {
            let next = v@.subrange(0, i as int + 1);
            assert(next.drop_last() =~= v@.subrange(0, i as int));
            assert(next.last() == v@[i as int]);
            if i == 0 {
                assert(next.len() == 1 && next[0] == v@[0]);
            }
        }
        if i > 0 {
            out.append(",");
        }
        let ghost mid = out@;
        push_pattern(out, &v[i]);
        proof {
            let next = v@.subrange(0, i as int + 1);
            if i == 0 {
                assert(pattern_items(v@.subrange(0, 0)) =~= Seq::<char>::empty());
            }
            assert(out@ =~= start + pattern_items(next));
        }
        i += 1;
    }
    assert(v@.subrange(0, v@.len() as int) =~= v@);
}

/// Standards, separated by commas.
pub open spec fn standard_items(v: Seq<ComplianceStandard>) -> Seq<char>
    decreases v.len(),
{
    if v.len() == 0 {
        Seq::empty()
    } else if v.len() == 1 {
        standard_json(v[0])
    } else {
        standard_items(v.drop_last()) + ","@ + standard_json(v.last())
    }
}

fn push_standard_items(out: &mut String, v: &[ComplianceStandard])
    ensures
        final(out)@ == old(out)@ + standard_items(v@),
{
    let ghost start = out@;
    let mut i: usize = 0;
    while i < v.len()
        invariant
            i <= v@.len(),
            out@ == start + standard_items(v@.subrange(0, i as int)),
        decreases v.len() - i,
    {
        proof {
            let next = v@.subrange(0, i as int + 1);
            assert(next.drop_last() =~= v@.subrange(0, i as int));
            assert(next.last() == v@[i as int]);
            if i == 0 {
                assert(next.len() == 1 && next[0] == v@[0]);
            }
        }
        if i > 0 {
            out.append(",");
        }
        let ghost mid = out@;
        push_standard(out, &v[i]);
        proof {
            let next = v@.subrange(0, i as int + 1);
            if i == 0 {
                assert(standard_items(v@.subrange(0, 0)) =~= Seq::<char>::empty());
            }
            assert(out@ =~= start + standard_items(next));
        }
        i += 1;
    }
    assert(v@.subrange(0, v@.len() as int) =~= v@);
}

/// Key-string pairs, separated by commas.
pub open spec fn pair_items(v: Seq<(String, String)>) -> Seq<char>
    decreases v.len(),
{
    if v.len() == 0 {
        Seq::empty()
    } else if v.len() == 1 {
        json_str(v[0].0@) + ":"@ + json_str(v[0].1@)
    } else {
        pair_items(v.drop_last()) + ","@ + json_str(v.last().0@) + ":"@ + json_str(v.last().1@)
    }
}

fn push_pair_items(out: &mut String, v: &[(String, String)])
    ensures
        final(out)@ == old(out)@ + pair_items(v@),
{
    let ghost start = out@;
    let mut i: usize = 0;
    while i < v.len()
        invariant
            i <= v@.len(),
            out@ == start + pair_items(v@.subrange(0, i as int)),
        decreases v.len() - i,
    {
        proof {
            let next = v@.subrange(0, i as int + 1);
            assert(next.drop_last() =~= v@.subrange(0, i as int));
            assert(next.last() == v@[i as int]);
            if i == 0 {
                assert(next.len() == 1 && next[0] == v@[0]);
            }
        }
        if i > 0 {
            out.append(",");
        }
        let ghost mid = out@;
        push_json_str(out, v[i].0.as_str());
        out.append(":");
        push_json_str(out, v[i].1.as_str());
        proof {
            let next = v@.subrange(0, i as int + 1);
            if i == 0 {
                assert(pair_items(v@.subrange(0, 0)) =~= Seq::<char>::empty());
            }
            assert(out@ =~= start + pair_items(next));
        }
        i += 1;
    }
    assert(v@.subrange(0, v@.len() as int) =~= v@);
}

/// Key-value pairs whose values are JSON texts, separated by commas.
pub open spec fn raw_pair_items(v: Seq<(String, String)>) -> Seq<char>
    decreases v.len(),
{
    if v.len() == 0 {
        Seq::empty()
    } else if v.len() == 1 {
        json_str(v[0].0@) + ":"@ + v[0].1@
    } else {
        raw_pair_items(v.drop_last()) + ","@ + json_str(v.last().0@) + ":"@ + v.last().1@
    }
}

fn push_raw_pair_items(out: &mut String, v: &[(String, String)])
    ensures
        final(out)@ == old(out)@ + raw_pair_items(v@),
{
    let ghost start = out@;
    let mut i: usize = 0;
    while i < v.len()
        invariant
            i <= v@.len(),
            out@ == start + raw_pair_items(v@.subrange(0, i as int)),
        decreases v.len() - i,
    {
        proof {
            let next = v@.subrange(0, i as int + 1);
            assert(next.drop_last() =~= v@.subrange(0, i as int));
            assert(next.last() == v@[i as int]);
            if i == 0 {
                assert(next.len() == 1 && next[0] == v@[0]);
            }
        }
        if i > 0 {
            out.append(",");
        }
        let ghost mid = out@;
        push_json_str(out, v[i].0.as_str());
        out.append(":");
        out.append(v[i].1.as_str());
        proof {
            let next = v@.subrange(0, i as int + 1);
            if i == 0 {
                assert(raw_pair_items(v@.subrange(0, 0)) =~= Seq::<char>::empty());
            }
            assert(out@ =~= start + raw_pair_items(next));
        }
        i += 1;
    }
    assert(v@.subrange(0, v@.len() as int) =~= v@);
}

/// A JSON value or null.
pub open spec fn or_null(o: Option<Seq<char>>) -> Seq<char> {
    match o {
        Some(t) => t,
        None => "null"@,
    }
}

pub open spec fn opt_str_json(o: Option<String>) -> Seq<char> {
    match o {
        Some(t) => json_str(t@),
        None => "null"@,
    }
}

fn push_opt_str(out: &mut String, o: &Option<String>)
    ensures
        final(out)@ == old(out)@ + opt_str_json(*o),
{
    match o {
        Some(t) => push_json_str(out, t.as_str()),
        None => out.append("null"),
    }
}

pub open spec fn bool_json(b: bool) -> Seq<char> {
    if b { "true"@ } else { "false"@ }
}

fn push_bool(out: &mut String, b: bool)
    ensures
        final(out)@ == old(out)@ + bool_json(b),
{
    if b {
        out.append("true");
    } else {
        out.append("false");
    }
}

/// The RFC 3339 text, with microseconds and a `Z`, of the instant `us`
/// microseconds after the Unix epoch; none outside the range of dates that
/// can be written.
pub uninterp spec fn rfc3339_text(us: i64) -> Option<Seq<char>>;

/// Relies on chrono::DateTime::from_timestamp_micros and
/// DateTime::to_rfc3339_opts with microseconds and `Z`: the RFC 3339 text of
/// the instant, or none where chrono cannot represent it.
#[verifier::external_body]
pub(crate) fn time_text(us: i64) -> (r: Option<String>)
    ensures
        match r {
            Some(t) => rfc3339_text(us) == Some(t@),
            None => rfc3339_text(us) is None,
        },
{
    chrono::DateTime::<chrono::Utc>::from_timestamp_micros(us)
        .map(|t| t.to_rfc3339_opts(chrono::SecondsFormat::Micros, true))
}

pub open spec fn time_json(us: i64) -> Seq<char> {
    json_str(rfc3339_text(us)->Some_0)
}

fn push_time(out: &mut String, us: i64) -> (ok: bool)
    ensures
        ok == rfc3339_text(us) is Some,
        ok ==> final(out)@ == old(out)@ + time_json(us),
{
    match time_text(us) {
        Some(t) => {
            push_json_str(out, t.as_str());
            true
        },
        None => false,
    }
}

pub open spec fn duration_json(us: u64) -> Seq<char> {
    "{\"nanos\":"@ + decimal(((us % 1000000) * 1000) as nat) + ",\"secs\":"@ + decimal((us / 1000000) as nat) + "}"@
}

fn push_duration(out: &mut String, us: u64)
    ensures
        final(out)@ == old(out)@ + duration_json(us),
{
    let ghost start = out@;
    out.append("{\"nanos\":");
    push_decimal(out, (us % 1000000) * 1000);
    out.append(",\"secs\":");
    push_decimal(out, us / 1000000);
    out.append("}");
    assert(out@ =~= start + duration_json(us));
}

pub open spec fn pattern_json(p: WipePattern) -> Seq<char> {
    match p {
        WipePattern::Zeros => "\"Zeros\""@,
        WipePattern::Ones => "\"Ones\""@,
        WipePattern::Fixed(b) => "{\"Fixed\":"@ + decimal(b as nat) + "}"@,
        WipePattern::Random => "\"Random\""@,
        WipePattern::PseudoRandom(seed) => "{\"PseudoRandom\":"@ + decimal(seed as nat) + "}"@,
        WipePattern::Complement => "\"Complement\""@,
        WipePattern::Pattern(q) => "{\"Pattern\":["@ + byte_items(q@) + "]}"@,
    }
}

fn push_pattern(out: &mut String, p: &WipePattern)
    ensures
        final(out)@ == old(out)@ + pattern_json(*p),
{
    let ghost start = out@;
    match p {
        WipePattern::Zeros => out.append("\"Zeros\""),
        WipePattern::Ones => out.append("\"Ones\""),
        WipePattern::Fixed(b) => {
            out.append("{\"Fixed\":");
            push_decimal(out, *b as u64);
            out.append("}");
        },
        WipePattern::Random => out.append("\"Random\""),
        WipePattern::PseudoRandom(seed) => {
            out.append("{\"PseudoRandom\":");
            push_decimal(out, *seed);
            out.append("}");
        },
        WipePattern::Complement => out.append("\"Complement\""),
        WipePattern::Pattern(q) => {
            out.append("{\"Pattern\":[");
            push_byte_items(out, q.as_slice());
            out.append("]}");
        },
    }
    assert(out@ =~= start + pattern_json(*p));
}

pub open spec fn algorithm_json(a: WipeAlgorithm) -> Seq<char> {
    match a {
        WipeAlgorithm::NIST80088 => "\"NIST80088\""@,
        WipeAlgorithm::DoD522022M => "\"DoD522022M\""@,
        WipeAlgorithm::Gutmann => "\"Gutmann\""@,
        WipeAlgorithm::Random => "\"Random\""@,
        WipeAlgorithm::ZeroFill => "\"ZeroFill\""@,
        WipeAlgorithm::OneFill => "\"OneFill\""@,
        WipeAlgorithm::ATASecureErase => "\"ATASecureErase\""@,
        WipeAlgorithm::NVMeFormat => "\"NVMeFormat\""@,
        WipeAlgorithm::Custom(ps) => "{\"Custom\":["@ + pattern_items(ps@) + "]}"@,
    }
}

fn push_algorithm(out: &mut String, a: &WipeAlgorithm)
    ensures
        final(out)@ == old(out)@ + algorithm_json(*a),
{
    let ghost start = out@;
    match a {
        WipeAlgorithm::NIST80088 => out.append("\"NIST80088\""),
        WipeAlgorithm::DoD522022M => out.append("\"DoD522022M\""),
        WipeAlgorithm::Gutmann => out.append("\"Gutmann\""),
        WipeAlgorithm::Random => out.append("\"Random\""),
        WipeAlgorithm::ZeroFill => out.append("\"ZeroFill\""),
        WipeAlgorithm::OneFill => out.append("\"OneFill\""),
        WipeAlgorithm::ATASecureErase => out.append("\"ATASecureErase\""),
        WipeAlgorithm::NVMeFormat => out.append("\"NVMeFormat\""),
        WipeAlgorithm::Custom(ps) => {
            out.append("{\"Custom\":[");
            push_pattern_items(out, ps.as_slice());
            out.append("]}");
        },
    }
    assert(out@ =~= start + algorithm_json(*a));
}

pub open spec fn compliance_level_name(l: ComplianceLevel) -> Seq<char> {
    match l {
        ComplianceLevel::FullyCompliant => "\"FullyCompliant\""@,
        ComplianceLevel::PartiallyCompliant => "\"PartiallyCompliant\""@,
        ComplianceLevel::NotCompliant => "\"NotCompliant\""@,
        ComplianceLevel::NotApplicable => "\"NotApplicable\""@,
    }
}

fn compliance_level_text(l: ComplianceLevel) -> (r: &'static str)
    ensures
        r@ == compliance_level_name(l),
{
    match l {
        ComplianceLevel::FullyCompliant => "\"FullyCompliant\"",
        ComplianceLevel::PartiallyCompliant => "\"PartiallyCompliant\"",
        ComplianceLevel::NotCompliant => "\"NotCompliant\"",
        ComplianceLevel::NotApplicable => "\"NotApplicable\"",
    }
}

pub open spec fn security_level_name(l: SecurityLevel) -> Seq<char> {
    match l {
        SecurityLevel::Basic => "\"Basic\""@,
        SecurityLevel::Standard => "\"Standard\""@,
        SecurityLevel::High => "\"High\""@,
        SecurityLevel::Maximum => "\"Maximum\""@,
        SecurityLevel::Custom => "\"Custom\""@,
    }
}

fn security_level_text(l: SecurityLevel) -> (r: &'static str)
    ensures
        r@ == security_level_name(l),
{
    match l {
        SecurityLevel::Basic => "\"Basic\"",
        SecurityLevel::Standard => "\"Standard\"",
        SecurityLevel::High => "\"High\"",
        SecurityLevel::Maximum => "\"Maximum\"",
        SecurityLevel::Custom => "\"Custom\"",
    }
}

pub open spec fn status_name(s: VerificationStatus) -> Seq<char> {
    match s {
        VerificationStatus::Passed => "\"Passed\""@,
        VerificationStatus::Failed => "\"Failed\""@,
        VerificationStatus::Warning => "\"Warning\""@,
        VerificationStatus::Inconclusive => "\"Inconclusive\""@,
    }
}

fn status_text(s: VerificationStatus) -> (r: &'static str)
    ensures
        r@ == status_name(s),
{
    match s {
        VerificationStatus::Passed => "\"Passed\"",
        VerificationStatus::Failed => "\"Failed\"",
        VerificationStatus::Warning => "\"Warning\"",
        VerificationStatus::Inconclusive => "\"Inconclusive\"",
    }
}

pub open spec fn vtype_name(t: VerificationType) -> Seq<char> {
    match t {
        VerificationType::Quick => "\"Quick\""@,
        VerificationType::Standard => "\"Standard\""@,
        VerificationType::Comprehensive => "\"Comprehensive\""@,
        VerificationType::Custom => "\"Custom\""@,
    }
}

fn vtype_text(t: VerificationType) -> (r: &'static str)
    ensures
        r@ == vtype_name(t),
{
    match t {
        VerificationType::Quick => "\"Quick\"",
        VerificationType::Standard => "\"Standard\"",
        VerificationType::Comprehensive => "\"Comprehensive\"",
        VerificationType::Custom => "\"Custom\"",
    }
}

pub open spec fn standard_json(s: ComplianceStandard) -> Seq<char> {
    "{\"compliance_level\":"@ + compliance_level_name(s.compliance_level) + ",\"description\":"@
        + json_str(s.description@) + ",\"name\":"@ + json_str(s.name@) + ",\"requirements_met\":["@
        + str_items(s.requirements_met@) + "],\"version\":"@ + opt_str_json(s.version) + "}"@
}

#[verifier::rlimit(40)]
fn push_standard(out: &mut String, s: &ComplianceStandard)
    ensures
        final(out)@ == old(out)@ + standard_json(*s),
{
    let ghost start = out@;
    out.append("{\"compliance_level\":");
    out.append(compliance_level_text(s.compliance_level));
    out.append(",\"description\":");
    push_json_str(out, s.description.as_str());
    out.append(",\"name\":");
    push_json_str(out, s.name.as_str());
    out.append(",\"requirements_met\":[");
    push_str_items(out, s.requirements_met.as_slice());
    out.append("],\"version\":");
    push_opt_str(out, &s.version);
    out.append("}");
    assert(out@ =~= start + standard_json(*s));
}

pub open spec fn compliance_json(c: ComplianceInfo) -> Seq<char> {
    "{\"certification_body\":"@ + opt_str_json(c.certification_body) + ",\"compliance_notes\":["@
        + str_items(c.compliance_notes@) + "],\"security_level\":"@ + security_level_name(c.security_level)
        + ",\"standards_met\":["@ + standard_items(c.standards_met@) + "]}"@
}

#[verifier::rlimit(40)]
fn push_compliance(out: &mut String, c: &ComplianceInfo)
    ensures
        final(out)@ == old(out)@ + compliance_json(*c),
{
    let ghost start = out@;
    out.append("{\"certification_body\":");
    push_opt_str(out, &c.certification_body);
    out.append(",\"compliance_notes\":[");
    push_str_items(out, c.compliance_notes.as_slice());
    out.append("],\"security_level\":");
    out.append(security_level_text(c.security_level));
    out.append(",\"standards_met\":[");
    push_standard_items(out, c.standards_met.as_slice());
    out.append("]}");
    assert(out@ =~= start + compliance_json(*c));
}

pub open spec fn device_json(d: DeviceInfo) -> Seq<char> {
    "{\"model\":"@ + json_str(d.model@) + ",\"path\":"@ + json_str(d.path@) + ",\"serial\":"@
        + json_str(d.serial@) + ",\"size\":"@ + decimal(d.size as nat) + "}"@
}

#[verifier::rlimit(40)]
fn push_device(out: &mut String, d: &DeviceInfo)
    ensures
        final(out)@ == old(out)@ + device_json(*d),
{
    let ghost start = out@;
    out.append("{\"model\":");
    push_json_str(out, d.model.as_str());
    out.append(",\"path\":");
    push_json_str(out, d.path.as_str());
    out.append(",\"serial\":");
    push_json_str(out, d.serial.as_str());
    out.append(",\"size\":");
    push_decimal(out, d.size);
    out.append("}");
    assert(out@ =~= start + device_json(*d));
}

pub open spec fn verification_json(v: VerificationInfo) -> Seq<char> {
    "{\"overall_result\":"@ + status_name(v.overall_result) + ",\"samples_passed\":"@
        + decimal(v.samples_passed as nat) + ",\"samples_tested\":"@ + decimal(v.samples_tested as nat)
        + ",\"success_rate_basis_points\":"@ + decimal(v.success_rate_basis_points as nat)
        + ",\"verification_id\":"@ + json_str(uuid_text(v.verification_id)) + ",\"verification_type\":"@
        + vtype_name(v.verification_type) + "}"@
}

#[verifier::rlimit(40)]
fn push_verification(out: &mut String, v: &VerificationInfo)
    ensures
        final(out)@ == old(out)@ + verification_json(*v),
{
    let ghost start = out@;
    out.append("{\"overall_result\":");
    out.append(status_text(v.overall_result));
    out.append(",\"samples_passed\":");
    push_decimal(out, v.samples_passed as u64);
    out.append(",\"samples_tested\":");
    push_decimal(out, v.samples_tested as u64);
    out.append(",\"success_rate_basis_points\":");
    push_decimal(out, v.success_rate_basis_points);
    out.append(",\"verification_id\":");
    let id = format_uuid(v.verification_id);
    push_json_str(out, id.as_str());
    out.append(",\"verification_type\":");
    out.append(vtype_text(v.verification_type));
    out.append("}");
    assert(out@ =~= start + verification_json(*v));
}

pub open spec fn organization_head_json(o: OrganizationInfo) -> Seq<char> {
    "{\"address\":"@ + json_str(o.address@) + ",\"certification_authority\":"@
        + opt_str_json(o.certification_authority) + ",\"contact_email\":"@ + json_str(o.contact_email@)
}

pub open spec fn organization_tail_json(o: OrganizationInfo) -> Seq<char> {
    ",\"contact_phone\":"@ + opt_str_json(o.contact_phone) + ",\"logo_path\":"@ + opt_str_json(o.logo_path)
        + ",\"name\":"@ + json_str(o.name@) + ",\"website\":"@ + opt_str_json(o.website) + "}"@
}

pub open spec fn organization_json(o: OrganizationInfo) -> Seq<char> {
    organization_head_json(o) + organization_tail_json(o)
}

#[verifier::rlimit(40)]
fn push_organization_head(out: &mut String, o: &OrganizationInfo)
    ensures
        final(out)@ == old(out)@ + organization_head_json(*o),
{
    let ghost start = out@;
    out.append("{\"address\":");
    push_json_str(out, o.address.as_str());
    out.append(",\"certification_authority\":");
    push_opt_str(out, &o.certification_authority);
    out.append(",\"contact_email\":");
    push_json_str(out, o.contact_email.as_str());
    assert(out@ =~= start + organization_head_json(*o));
}

#[verifier::rlimit(40)]
fn push_organization_tail(out: &mut String, o: &OrganizationInfo)
    ensures
        final(out)@ == old(out)@ + organization_tail_json(*o),
{
    let ghost start = out@;
    out.append(",\"contact_phone\":");
    push_opt_str(out, &o.contact_phone);
    out.append(",\"logo_path\":");
    push_opt_str(out, &o.logo_path);
    out.append(",\"name\":");
    push_json_str(out, o.name.as_str());
    out.append(",\"website\":");
    push_opt_str(out, &o.website);
    out.append("}");
    assert(out@ =~= start + organization_tail_json(*o));
}

fn push_organization(out: &mut String, o: &OrganizationInfo)
    ensures
        final(out)@ == old(out)@ + organization_json(*o),
{
    let ghost start = out@;
    push_organization_head(out, o);
    push_organization_tail(out, o);
    assert(out@ =~= start + organization_json(*o));
}

/// Whether every time of the wipe can be written.
pub open spec fn wipe_times_ok(w: WipeInfo) -> bool {
    &&& rfc3339_text(w.started_at) is Some
    &&& w.completed_at matches Some(c) ==> rfc3339_text(c) is Some
}

pub open spec fn opt_time_json(o: Option<i64>) -> Seq<char> {
    match o {
        Some(c) => time_json(c),
        None => "null"@,
    }
}

pub open spec fn opt_duration_json(o: Option<u64>) -> Seq<char> {
    match o {
        Some(d) => duration_json(d),
        None => "null"@,
    }
}

pub open spec fn opt_bool_json(o: Option<bool>) -> Seq<char> {
    match o {
        Some(b) => bool_json(b),
        None => "null"@,
    }
}

fn push_opt_time(out: &mut String, o: Option<i64>) -> (ok: bool)
    ensures
        ok == (o matches Some(c) ==> rfc3339_text(c) is Some),
        ok ==> final(out)@ == old(out)@ + opt_time_json(o),
{
    match o {
        Some(c) => push_time(out, c),
        None => {
            out.append("null");
            true
        },
    }
}

fn push_opt_duration(out: &mut String, o: Option<u64>)
    ensures
        final(out)@ == old(out)@ + opt_duration_json(o),
{
    match o {
        Some(d) => push_duration(out, d),
        None => out.append("null"),
    }
}

fn push_opt_bool(out: &mut String, o: Option<bool>)
    ensures
        final(out)@ == old(out)@ + opt_bool_json(o),
{
    match o {
        Some(b) => push_bool(out, b),
        None => out.append("null"),
    }
}

pub open spec fn wipe_head_json(w: WipeInfo) -> Seq<char> {
    "{\"algorithm\":"@ + algorithm_json(w.algorithm) + ",\"completed_at\":"@ + opt_time_json(w.completed_at)
        + ",\"duration\":"@ + opt_duration_json(w.duration_us)
}

pub open spec fn wipe_tail_json(w: WipeInfo) -> Seq<char> {
    ",\"passes_completed\":"@ + decimal(w.passes_completed as nat) + ",\"started_at\":"@
        + time_json(w.started_at) + ",\"verification_passed\":"@ + opt_bool_json(w.verification_passed) + "}"@
}

pub open spec fn wipe_json(w: WipeInfo) -> Seq<char> {
    wipe_head_json(w) + wipe_tail_json(w)
}

#[verifier::rlimit(40)]
fn push_wipe_head(out: &mut String, w: &WipeInfo) -> (ok: bool)
    ensures
        ok == (w.completed_at matches Some(c) ==> rfc3339_text(c) is Some),
        ok ==> final(out)@ == old(out)@ + wipe_head_json(*w),
{
    let ghost start = out@;
    out.append("{\"algorithm\":");
    push_algorithm(out, &w.algorithm);
    out.append(",\"completed_at\":");
    if !push_opt_time(out, w.completed_at) {
        return false;
    }
    out.append(",\"duration\":");
    push_opt_duration(out, w.duration_us);
    assert(out@ =~= start + wipe_head_json(*w));
    true
}

#[verifier::rlimit(40)]
fn push_wipe_tail(out: &mut String, w: &WipeInfo) -> (ok: bool)
    ensures
        ok == rfc3339_text(w.started_at) is Some,
        ok ==> final(out)@ == old(out)@ + wipe_tail_json(*w),
{
    let ghost start = out@;
    out.append(",\"passes_completed\":");
    push_decimal(out, w.passes_completed as u64);
    out.append(",\"started_at\":");
    if !push_time(out, w.started_at) {
        return false;
    }
    out.append(",\"verification_passed\":");
    push_opt_bool(out, w.verification_passed);
    out.append("}");
    assert(out@ =~= start + wipe_tail_json(*w));
    true
}

fn push_wipe(out: &mut String, w: &WipeInfo) -> (ok: bool)
    ensures
        ok == wipe_times_ok(*w),
        ok ==> final(out)@ == old(out)@ + wipe_json(*w),
{
    let ghost start = out@;
    if !push_wipe_head(out, w) {
        return false;
    }
    if !push_wipe_tail(out, w) {
        return false;
    }
    assert(out@ =~= start + wipe_json(*w));
    true
}

/// A certificate without defects can always be written: checking it
/// covers every time the canonical text holds.
pub proof fn lemma_valid_certificates_serialize(c: WipeCertificate)
    requires
        crate::certificate::first_defect(c.data) is None,
    ensures
        times_ok(c),
{
}

/// Whether every time of the certificate can be written.
pub open spec fn times_ok(c: WipeCertificate) -> bool {
    rfc3339_text(c.data.generated_at) is Some && wipe_times_ok(c.data.wipe_info)
}

pub open spec fn opt_compliance_json(o: Option<ComplianceInfo>) -> Seq<char> {
    match o {
        Some(c) => compliance_json(c),
        None => "null"@,
    }
}

pub open spec fn opt_organization_json(o: Option<OrganizationInfo>) -> Seq<char> {
    match o {
        Some(c) => organization_json(c),
        None => "null"@,
    }
}

pub open spec fn opt_details_json(o: Option<Vec<(String, String)>>) -> Seq<char> {
    match o {
        Some(t) => "{"@ + raw_pair_items(sort_pairs(t@)) + "}"@,
        None => "null"@,
    }
}

pub open spec fn opt_verification_json(o: Option<VerificationInfo>) -> Seq<char> {
    match o {
        Some(v) => verification_json(v),
        None => "null"@,
    }
}

pub open spec fn data_head_json(d: CertificateData) -> Seq<char> {
    "{\"certificate_id\":"@ + json_str(uuid_text(d.certificate_id)) + ",\"compliance_info\":"@
        + opt_compliance_json(d.compliance_info) + ",\"device_info\":"@ + device_json(d.device_info)
        + ",\"generated_at\":"@ + time_json(d.generated_at)
}

pub open spec fn data_middle_json(d: CertificateData) -> Seq<char> {
    ",\"metadata\":{"@ + pair_items(sort_pairs(d.metadata@)) + "},\"organization\":"@
        + opt_organization_json(d.organization) + ",\"technical_details\":"@
        + opt_details_json(d.technical_details)
}

pub open spec fn data_tail_json(d: CertificateData) -> Seq<char> {
    ",\"verification_info\":"@ + opt_verification_json(d.verification_info) + ",\"wipe_info\":"@
        + wipe_json(d.wipe_info) + "}"@
}

pub open spec fn data_json(d: CertificateData) -> Seq<char> {
    data_head_json(d) + data_middle_json(d) + data_tail_json(d)
}

#[verifier::rlimit(40)]
fn push_data_head(out: &mut String, d: &CertificateData) -> (ok: bool)
    ensures
        ok == rfc3339_text(d.generated_at) is Some,
        ok ==> final(out)@ == old(out)@ + data_head_json(*d),
{
    let ghost start = out@;
    out.append("{\"certificate_id\":");
    let id = format_uuid(d.certificate_id);
    push_json_str(out, id.as_str());
    out.append(",\"compliance_info\":");
    match &d.compliance_info {
        Some(c) => push_compliance(out, c),
        None => out.append("null"),
    }
    out.append(",\"device_info\":");
    push_device(out, &d.device_info);
    out.append(",\"generated_at\":");
    if !push_time(out, d.generated_at) {
        return false;
    }
    assert(out@ =~= start + data_head_json(*d));
    true
}

fn push_details(out: &mut String, o: &Option<Vec<(String, String)>>)
    ensures
        final(out)@ == old(out)@ + opt_details_json(*o),
{
    let ghost start = out@;
    match o {
        Some(t) => {
            let sorted = sorted_pairs(t);
            proof {
                lemma_same_pair_items(sorted@, sort_pairs(t@));
            }
            out.append("{");
            push_raw_pair_items(out, sorted.as_slice());
            out.append("}");
        },
        None => out.append("null"),
    }
    assert(out@ =~= start + opt_details_json(*o));
}

#[verifier::rlimit(40)]
fn push_data_middle(out: &mut String, d: &CertificateData)
    ensures
        final(out)@ == old(out)@ + data_middle_json(*d),
{
    let ghost start = out@;
    out.append(",\"metadata\":{");
    let meta = sorted_pairs(&d.metadata);
    proof {
        lemma_same_pair_items(meta@, sort_pairs(d.metadata@));
    }
    push_pair_items(out, meta.as_slice());
    out.append("},\"organization\":");
    match &d.organization {
        Some(o) => push_organization(out, o),
        None => out.append("null"),
    }
    out.append(",\"technical_details\":");
    push_details(out, &d.technical_details);
    assert(out@ =~= start + data_middle_json(*d));
}

#[verifier::rlimit(40)]
fn push_data_tail(out: &mut String, d: &CertificateData) -> (ok: bool)
    ensures
        ok == wipe_times_ok(d.wipe_info),
        ok ==> final(out)@ == old(out)@ + data_tail_json(*d),
{
    let ghost start = out@;
    out.append(",\"verification_info\":");
    match &d.verification_info {
        Some(v) => push_verification(out, v),
        None => out.append("null"),
    }
    out.append(",\"wipe_info\":");
    let ghost mid = out@;
    if !push_wipe(out, &d.wipe_info) {
        return false;
    }
    let ghost w = out@;
    out.append("}");
    assert(out@ =~= start + data_tail_json(*d));
    true
}

fn push_data(out: &mut String, d: &CertificateData) -> (ok: bool)
    ensures
        ok == (rfc3339_text(d.generated_at) is Some && wipe_times_ok(d.wipe_info)),
        ok ==> final(out)@ == old(out)@ + data_json(*d),
{
    let ghost start = out@;
    if !push_data_head(out, d) {
        return false;
    }
    push_data_middle(out, d);
    if !push_data_tail(out, d) {
        return false;
    }
    assert(out@ =~= start + data_json(*d));
    true
}

/// The canonical text of a certificate.
pub open spec fn certificate_json(c: WipeCertificate) -> Seq<char> {
    "{\"data\":"@ + data_json(c.data) + ",\"format_version\":"@ + decimal(c.format_version as nat)
        + ",\"version\":"@ + json_str(c.version@) + "}"@
}

proof fn lemma_same_pair_items(a: Seq<(String, String)>, b: Seq<(String, String)>)
    requires
        same_pairs(a, b),
    ensures
        pair_items(a) == pair_items(b),
        raw_pair_items(a) == raw_pair_items(b),
    decreases a.len(),
{
    if a.len() > 1 {
        assert(same_pairs(a.drop_last(), b.drop_last())) by {
            assert forall|i: int| 0 <= i < a.len() - 1 implies (#[trigger] a.drop_last()[i]).0@ == b.drop_last()[i].0@
                && a.drop_last()[i].1@ == b.drop_last()[i].1@ by {
                assert(a.drop_last()[i] == a[i]);
                assert(b.drop_last()[i] == b[i]);
            }
        }
        lemma_same_pair_items(a.drop_last(), b.drop_last());
        assert(a.last() == a[a.len() - 1]);
        assert(b.last() == b[b.len() - 1]);
    } else if a.len() == 1 {
        assert(a[0].0@ == b[0].0@);
    }
}

/// The canonical text of a certificate: the signing subject. It fails with
/// JsonSerializationFailed where a time lies outside the dates that can be
/// written.
#[verifier::rlimit(40)]
pub fn canonical_json(certificate: &WipeCertificate) -> (r: Result<String, crate::cert_error::CertificateError>)
    ensures
        r is Ok <==> times_ok(*certificate),
        r matches Ok(t) ==> t@ == certificate_json(*certificate),
        r matches Err(e) ==> e is JsonSerializationFailed,
{
    let mut out = String::new();
    out.append("{\"data\":");
    if !push_data(&mut out, &certificate.data) {
        return Err(crate::cert_error::CertificateError::JsonSerializationFailed(
            String::from_str("time out of range"),
        ));
    }
    out.append(",\"format_version\":");
    push_decimal(&mut out, certificate.format_version as u64);
    out.append(",\"version\":");
    push_json_str(&mut out, certificate.version.as_str());
    out.append("}");
    assert(out@ =~= certificate_json(*certificate));
    Ok(out)
}

} // verus!
