//! Manifest protocol-version gate: a pair of persisted minimum versions that
//! decides which readers and writers may touch the log.

use crate::text::{
    char_digit, dec_str, digits_val, is_dec_digit, lemma_dec_str_digits, lemma_dec_str_len,
    lemma_dec_str_val, lemma_digits_val_bound, lemma_first_non_digit, push_dec_u64,
};
use vstd::prelude::*;
use vstd::string::{StrSliceExecFns, StringExecFns};

verus! {

/// A protocol version number as persisted in the manifest.
pub type ProtocolVersion = u16;

/// The reader version this build understands.
pub const READER_VERSION: ProtocolVersion = 0;

/// The writer version this build understands.
pub const WRITER_VERSION: ProtocolVersion = 0;

/// The maximum protocol versions (reader, writer) currently supported.
pub fn supported_protocol_version() -> (r: (ProtocolVersion, ProtocolVersion))
    ensures
        r == (READER_VERSION, WRITER_VERSION),
{
    (READER_VERSION, WRITER_VERSION)
}

/// Protocol action used to block older clients from reading or writing the
/// log when backwards incompatible changes are made to the protocol.
#[derive(Debug, Clone, PartialEq, Eq, Structural)]
pub struct ProtocolAction {
    pub min_reader_version: ProtocolVersion,
    pub min_writer_version: ProtocolVersion,
}

impl Default for ProtocolAction {
    /// Starts from the versions this build supports.
    fn default() -> (r: Self)
        ensures
            r.min_reader_version == READER_VERSION,
            r.min_writer_version == WRITER_VERSION,
    {
        let (min_reader_version, min_writer_version) = supported_protocol_version();
        Self { min_reader_version, min_writer_version }
    }
}

impl ProtocolAction {
    /// A gate carrying the currently supported minimum versions.
    pub fn new() -> (r: Self)
        ensures
            r.min_reader_version == READER_VERSION,
            r.min_writer_version == WRITER_VERSION,
    {
        Self::default()
    }

    /// A reader is admitted exactly when it is at least the minimum version.
    pub fn is_readable(&self, reader_version: ProtocolVersion) -> (r: bool)
        ensures
            r == (reader_version >= self.min_reader_version),
    {
        reader_version >= self.min_reader_version
    }

    /// A writer is admitted exactly when it is at least the minimum version.
    pub fn is_writable(&self, writer_version: ProtocolVersion) -> (r: bool)
        ensures
            r == (writer_version >= self.min_writer_version),
    {
        writer_version >= self.min_writer_version
    }

    /// Serializes this gate as exactly its canonical JSON object.
    pub fn to_json(&self) -> (s: String)
        ensures
            s@ == protocol_json(*self),
    {
        let mut s = String::from_str("{\"min_reader_version\":");
        push_dec_u64(&mut s, self.min_reader_version as u64);
        s.append(",\"min_writer_version\":");
        push_dec_u64(&mut s, self.min_writer_version as u64);
        s.append("}");
        proof {
            assert(s@ =~= protocol_json(*self));
        }
        s
    }

    /// Parses the canonical JSON object: accepts a string exactly when some
    /// gate renders to it under `to_json`, and returns that gate.
    pub fn from_json(s: &str) -> (r: Option<ProtocolAction>)
        ensures
            match r {
                Option::Some(p) => s@ == protocol_json(p),
                Option::None => forall|p: ProtocolAction| s@ != protocol_json(p),
            },
    {
        match extract_versions(s) {
            Option::None => {
                proof {
                    assert forall|p: ProtocolAction| s@ != protocol_json(p) by {}
                }
                None
            }
            Option::Some((a, b)) => {
                let candidate = ProtocolAction { min_reader_version: a, min_writer_version: b };
                let rendered = candidate.to_json();
                if rendered == s.to_owned() {
                    Some(candidate)
                } else {
                    proof {
                        assert forall|p: ProtocolAction| s@ != protocol_json(p) by {
                            if s@ == protocol_json(p) {
                                assert(a == p.min_reader_version && b == p.min_writer_version);
                                assert(rendered@ == s@);
                            }
                        }
                    }
                    None
                }
            }
        }
    }
}

/// The opening of the canonical JSON object, up to the reader version.
pub open spec fn json_head() -> Seq<char> {
    "{\"min_reader_version\":"@
}

/// The middle of the canonical JSON object, up to the writer version.
pub open spec fn json_mid() -> Seq<char> {
    ",\"min_writer_version\":"@
}

/// The canonical JSON object encoding a protocol gate: the two minimum
/// versions in decimal, in this order, with no spacing.
pub open spec fn protocol_json(p: ProtocolAction) -> Seq<char> {
    json_head() + dec_str(p.min_reader_version as nat) + json_mid() + dec_str(
        p.min_writer_version as nat,
    ) + "}"@
}

/// Where the canonical object keeps its pieces: lengths, digit runs and the
/// non-digit characters that end them.
proof fn lemma_protocol_json_structure(p: ProtocolAction)
    ensures
        ({
            let j = protocol_json(p);
            let ka = dec_str(p.min_reader_version as nat).len() as int;
            let kb = dec_str(p.min_writer_version as nat).len() as int;
            let sa = json_head().len() as int;
            let sb = sa + ka + json_mid().len();
            &&& 1 <= ka <= 5
            &&& 1 <= kb <= 5
            &&& j.len() == sb + kb + 1
            &&& j.subrange(sa, sa + ka) == dec_str(p.min_reader_version as nat)
            &&& j.subrange(sb, sb + kb) == dec_str(p.min_writer_version as nat)
            &&& (forall|i: int| sa <= i < sa + ka ==> is_dec_digit(#[trigger] j[i]))
            &&& (forall|i: int| sb <= i < sb + kb ==> is_dec_digit(#[trigger] j[i]))
            &&& !is_dec_digit(j[sa + ka])
            &&& !is_dec_digit(j[j.len() - 1])
            &&& digits_val(j.subrange(sa, sa + ka)) == p.min_reader_version
            &&& digits_val(j.subrange(sb, sb + kb)) == p.min_writer_version
        }),
{
    let j = protocol_json(p);
    let da = dec_str(p.min_reader_version as nat);
    let db = dec_str(p.min_writer_version as nat);
    let sa = json_head().len() as int;
    let sb = sa + da.len() + json_mid().len();
    lemma_dec_str_len(p.min_reader_version as nat);
    lemma_dec_str_len(p.min_writer_version as nat);
    lemma_dec_str_digits(p.min_reader_version as nat);
    lemma_dec_str_digits(p.min_writer_version as nat);
    lemma_dec_str_val(p.min_reader_version as nat);
    lemma_dec_str_val(p.min_writer_version as nat);
    reveal_strlit(",\"min_writer_version\":");
    reveal_strlit("}");
    assert(json_mid()[0] == ',');
    assert("}"@[0] == '}');
    assert(j.subrange(sa, sa + da.len()) =~= da);
    assert(j.subrange(sb, sb + db.len()) =~= db);
    assert(j[sa + da.len()] == ',');
    assert(j[j.len() - 1] == '}');
}

/// Law: serialization is injective — no two distinct gates render to the
/// same canonical JSON object, so parsing what a gate serializes to gives
/// back that gate and nothing else.
pub proof fn lemma_protocol_json_injective(p: ProtocolAction, q: ProtocolAction)
    requires
        protocol_json(p) == protocol_json(q),
    ensures
        p == q,
{
    lemma_protocol_json_structure(p);
    lemma_protocol_json_structure(q);
    let j = protocol_json(p);
    let sa = json_head().len() as int;
    let ka = dec_str(p.min_reader_version as nat).len() as int;
    let kq = dec_str(q.min_reader_version as nat).len() as int;
    lemma_first_non_digit(j, sa, sa + ka, kq);
    lemma_dec_str_val(p.min_reader_version as nat);
    lemma_dec_str_val(q.min_reader_version as nat);
    lemma_dec_str_val(p.min_writer_version as nat);
    lemma_dec_str_val(q.min_writer_version as nat);
}

/// Recovers the two version numbers from a canonical object: on every string
/// the serializer can produce, it finds exactly the encoded pair; elsewhere
/// its answer is unconstrained and the caller re-serializes to decide.
fn extract_versions(s: &str) -> (r: Option<(u16, u16)>)
    ensures
        forall|p: ProtocolAction|
            s@ == protocol_json(p) ==> r == Option::Some(
                (p.min_reader_version, p.min_writer_version),
            ),
{
    let n = s.unicode_len();
    let head = "{\"min_reader_version\":";
    let mid = ",\"min_writer_version\":";
    let sa = head.unicode_len();
    proof {
        assert forall|p: ProtocolAction| s@ == protocol_json(p) implies s@.len() > sa as int by {
            lemma_protocol_json_structure(p);
        }
    }
    if n <= sa {
        return None;
    }
    let j1 = scan_digits(s, sa, n);
    let ka = j1 - sa;
    proof {
        assert forall|p: ProtocolAction| s@ == protocol_json(p) implies 1 <= ka as int <= 5
            && j1 as int + json_mid().len() + 2 <= n as int by {
            lemma_protocol_json_structure(p);
            lemma_first_non_digit(
                s@,
                sa as int,
                j1 as int,
                dec_str(p.min_reader_version as nat).len() as int,
            );
        }
    }
    if ka == 0 || ka > 5 {
        return None;
    }
    let a = parse_digits(s, sa, ka, n);
    proof {
        assert forall|p: ProtocolAction| s@ == protocol_json(p) implies a as nat
            == p.min_reader_version as nat by {
            lemma_protocol_json_structure(p);
            lemma_first_non_digit(
                s@,
                sa as int,
                j1 as int,
                dec_str(p.min_reader_version as nat).len() as int,
            );
        }
    }
    if a > 65535 {
        return None;
    }
    let midlen = mid.unicode_len();
    proof {
        reveal_strlit(",\"min_writer_version\":");
    }
    if n - j1 < midlen + 2 {
        return None;
    }
    let sb = j1 + midlen;
    let j2 = scan_digits(s, sb, n);
    let kb = j2 - sb;
    proof {
        assert forall|p: ProtocolAction| s@ == protocol_json(p) implies 1 <= kb as int <= 5
            && j2 as int == n as int - 1 by {
            lemma_protocol_json_structure(p);
            lemma_first_non_digit(
                s@,
                sa as int,
                j1 as int,
                dec_str(p.min_reader_version as nat).len() as int,
            );
            lemma_first_non_digit(
                s@,
                sb as int,
                j2 as int,
                dec_str(p.min_writer_version as nat).len() as int,
            );
        }
    }
    if kb == 0 || kb > 5 {
        return None;
    }
    let b = parse_digits(s, sb, kb, n);
    proof {
        assert forall|p: ProtocolAction| s@ == protocol_json(p) implies b as nat
            == p.min_writer_version as nat by {
            lemma_protocol_json_structure(p);
            lemma_first_non_digit(
                s@,
                sa as int,
                j1 as int,
                dec_str(p.min_reader_version as nat).len() as int,
            );
            lemma_first_non_digit(
                s@,
                sb as int,
                j2 as int,
                dec_str(p.min_writer_version as nat).len() as int,
            );
        }
    }
    if b > 65535 {
        return None;
    }
    if j2 != n - 1 {
        return None;
    }
    Some((a as u16, b as u16))
}

/// The index of the first non-digit at or after `start`; `n` is the string's
/// character count.
fn scan_digits(s: &str, start: usize, n: usize) -> (j: usize)
    requires
        start <= n,
        n == s@.len(),
    ensures
        start <= j <= n,
        forall|t: int| start <= t < j ==> is_dec_digit(#[trigger] s@[t]),
        j == n || !is_dec_digit(s@[j as int]),
{
    let mut i = start;
    while i < n
        invariant
            start <= i <= n,
            n == s@.len(),
            forall|t: int| start <= t < i ==> is_dec_digit(#[trigger] s@[t]),
        decreases n - i,
    {
        let c = s.get_char(i);
        if char_digit(c).is_none() {
            return i;
        }
        i = i + 1;
    }
    i
}

/// The value of the digit run of length `k` starting at `start`.
fn parse_digits(s: &str, start: usize, k: usize, n: usize) -> (v: u32)
    requires
        start + k <= n,
        n == s@.len(),
        1 <= k <= 5,
        forall|t: int| start <= t < start + k ==> is_dec_digit(#[trigger] s@[t]),
    ensures
        v == digits_val(s@.subrange(start as int, start as int + k as int)),
{
    let mut acc: u32 = 0;
    let mut i = start;
    proof {
        assert(s@.subrange(start as int, start as int) =~= Seq::<char>::empty());
    }
    while i < start + k
        invariant
            start <= i <= start + k,
            start + k <= n,
            n == s@.len(),
            1 <= k <= 5,
            forall|t: int| start <= t < start + k ==> is_dec_digit(#[trigger] s@[t]),
            acc == digits_val(s@.subrange(start as int, i as int)),
        decreases start + k - i,
    {
        let c = s.get_char(i);
        let d = match char_digit(c) {
            Option::Some(d) => d,
            Option::None => 0,
        };
        proof {
            lemma_digits_val_bound(s@.subrange(start as int, i as int));
        }
        acc = acc * 10 + (d as u32);
        i = i + 1;
        proof {
            assert(s@.subrange(start as int, i as int).drop_last() =~= s@.subrange(
                start as int,
                i as int - 1,
            ));
            assert(s@.subrange(start as int, i as int).last() == s@[i as int - 1]);
        }
    }
    acc
}

} // verus!
