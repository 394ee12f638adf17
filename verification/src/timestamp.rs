//! TAI64N timestamps as plain values, with the `tai64` crate doing the clock
//! reads, the arithmetic and the byte encoding.
use vstd::prelude::*;

verus! {

/// Number of nanoseconds in one second.
pub const NANOS_PER_SECOND: u32 = 1_000_000_000;

/// A TAI64N timestamp: the TAI64 second label and the nanoseconds within it.
#[derive(Debug, Clone, Copy, PartialEq, Eq)]
pub struct Timestamp {
    pub secs: u64,
    pub nanos: u32,
}

impl Timestamp {
    /// The nanosecond part is below one second, as for every `tai64::Tai64N`.
    pub open spec fn wf(self) -> bool {
        self.nanos < NANOS_PER_SECOND
    }
}

/// `a` comes strictly before `b` in the order of `tai64::Tai64N` (seconds first,
/// then nanoseconds).
pub open spec fn spec_before(a: Timestamp, b: Timestamp) -> bool {
    a.secs < b.secs || (a.secs == b.secs && a.nanos < b.nanos)
}

/// `t` moved `secs` whole seconds later.
pub open spec fn later_by(t: Timestamp, secs: u64) -> Timestamp {
    Timestamp { secs: (t.secs + secs) as u64, nanos: t.nanos }
}

/// `t` moved `secs` whole seconds earlier.
pub open spec fn earlier_by(t: Timestamp, secs: u64) -> Timestamp {
    Timestamp { secs: (t.secs - secs) as u64, nanos: t.nanos }
}

/// Big-endian value of a byte sequence.
pub open spec fn be_value(bytes: Seq<u8>) -> nat
    decreases bytes.len(),
{
    if bytes.len() == 0 {
        0
    } else {
        be_value(bytes.drop_last()) * 256 + bytes.last() as nat
    }
}

/// Big-endian bytes of `x` on `n` bytes.
pub open spec fn be_bytes(x: nat, n: nat) -> Seq<u8>
    decreases n,
{
    if n == 0 {
        Seq::empty()
    } else {
        be_bytes(x / 256, (n - 1) as nat).push((x % 256) as u8)
    }
}

/// The 12-byte TAI64N encoding: the second label then the nanoseconds, both
/// big-endian.
pub open spec fn timestamp_bytes(t: Timestamp) -> Seq<u8> {
    be_bytes(t.secs as nat, 8) + be_bytes(t.nanos as nat, 4)
}

/// The timestamp that 12 bytes encode, whatever its nanosecond part.
pub open spec fn timestamp_of_bytes(bytes: Seq<u8>) -> Timestamp {
    Timestamp {
        secs: be_value(bytes.subrange(0, 8)) as u64,
        nanos: be_value(bytes.subrange(8, 12)) as u32,
    }
}

/// The timestamp that `bytes` encodes, or `None` when there are not exactly 12
/// bytes or the nanosecond part is not below one second.
pub open spec fn decode_timestamp(bytes: Seq<u8>) -> Option<Timestamp> {
    if bytes.len() == 12 && be_value(bytes.subrange(8, 12)) < NANOS_PER_SECOND {
        Some(timestamp_of_bytes(bytes))
    } else {
        None
    }
}

/// Whether `a` comes strictly before `b`.
pub fn before(a: Timestamp, b: Timestamp) -> (r: bool)
    ensures
        r == spec_before(a, b),
{
    a.secs < b.secs || (a.secs == b.secs && a.nanos < b.nanos)
}

/// `tai64::Tai64N::now`: the current time, whatever the clock says; its
/// nanosecond part is below one second.
#[verifier::external_body]
pub(crate) fn tai64n_now() -> (t: Timestamp)
    ensures
        t.wf(),
{
    let now = tai64::Tai64N::now();
    Timestamp { secs: now.0.0, nanos: now.1 }
}

/// `Tai64N + Duration` of whole seconds: the second label grows by `secs`, the
/// nanoseconds stay.
#[verifier::external_body]
pub(crate) fn tai64n_add_secs(t: Timestamp, secs: u64) -> (r: Timestamp)
    requires
        t.wf(),
        t.secs + secs <= u64::MAX,
    ensures
        r == later_by(t, secs),
{
    let sum = tai64::Tai64N(tai64::Tai64(t.secs), t.nanos) + std::time::Duration::from_secs(secs);
    Timestamp { secs: sum.0.0, nanos: sum.1 }
}

/// `Tai64N - Duration` of whole seconds: the second label shrinks by `secs`, the
/// nanoseconds stay.
#[verifier::external_body]
pub(crate) fn tai64n_sub_secs(t: Timestamp, secs: u64) -> (r: Timestamp)
    requires
        t.wf(),
        t.secs >= secs,
    ensures
        r == earlier_by(t, secs),
{
    let difference = tai64::Tai64N(tai64::Tai64(t.secs), t.nanos) - std::time::Duration::from_secs(secs);
    Timestamp { secs: difference.0.0, nanos: difference.1 }
}

/// `Tai64N::to_bytes`: the big-endian second label followed by the big-endian
/// nanoseconds.
#[verifier::external_body]
pub(crate) fn tai64n_to_bytes(t: Timestamp) -> (bytes: [u8; 12])
    ensures
        bytes@ == timestamp_bytes(t),
{
    tai64::Tai64N(tai64::Tai64(t.secs), t.nanos).to_bytes()
}

/// `Tai64N::from_slice`: 12 bytes decode to the big-endian second label and
/// nanoseconds; any other length, or nanoseconds of one second or more, fail.
#[verifier::external_body]
pub(crate) fn tai64n_from_slice(bytes: &[u8]) -> (t: Option<Timestamp>)
    ensures
        t == decode_timestamp(bytes@),
{
    match tai64::Tai64N::from_slice(bytes) {
        Ok(t) => Some(Timestamp { secs: t.0.0, nanos: t.1 }),
        Err(_) => None,
    }
}

/// `256` to the power `n`.
pub open spec fn pow256(n: nat) -> nat
    decreases n,
{
    if n == 0 {
        1
    } else {
        256 * pow256((n - 1) as nat)
    }
}

/// Big-endian bytes of a value that fits read back as that value.
pub proof fn lemma_be_roundtrip(x: nat, n: nat)
    requires
        x < pow256(n),
    ensures
        be_bytes(x, n).len() == n,
        be_value(be_bytes(x, n)) == x,
    decreases n,
{
    if n == 0 {
    } else {
        let p = pow256((n - 1) as nat);
        assert(x / 256 < p) by (nonlinear_arith)
            requires
                x < 256 * p,
        ;
        lemma_be_roundtrip(x / 256, (n - 1) as nat);
        let s = be_bytes(x / 256, (n - 1) as nat);
        let t = be_bytes(x, n);
        assert(t == s.push((x % 256) as u8));
        assert(t.drop_last() =~= s);
        assert(x == (x / 256) * 256 + x % 256) by (nonlinear_arith);
    }
}

/// The stored bytes of a timestamp decode back to it: what `Tai64N::to_bytes`
/// writes, `Tai64N::from_slice` reads.
pub proof fn lemma_timestamp_bytes_roundtrip(t: Timestamp)
    requires
        t.wf(),
    ensures
        decode_timestamp(timestamp_bytes(t)) == Some(t),
{
    reveal_with_fuel(pow256, 9);
    assert(pow256(4) == 0x1_0000_0000);
    assert(pow256(8) == 0x1_0000_0000_0000_0000);
    lemma_be_roundtrip(t.secs as nat, 8);
    lemma_be_roundtrip(t.nanos as nat, 4);
    let b = timestamp_bytes(t);
    assert(b.subrange(0, 8) =~= be_bytes(t.secs as nat, 8));
    assert(b.subrange(8, 12) =~= be_bytes(t.nanos as nat, 4));
}

/// The order in which stored byte strings compare (as SQLite compares BLOBs):
/// the first byte decides, and on equal first bytes the rest; the empty string
/// comes before every other.
pub open spec fn bytes_less(a: Seq<u8>, b: Seq<u8>) -> bool
    decreases a.len(),
{
    if a.len() == 0 {
        b.len() > 0
    } else if b.len() == 0 {
        false
    } else if a[0] == b[0] {
        bytes_less(a.drop_first(), b.drop_first())
    } else {
        a[0] < b[0]
    }
}

/// The big-endian value read from the first byte on.
proof fn lemma_be_value_first(s: Seq<u8>)
    requires
        s.len() >= 1,
    ensures
        be_value(s) == s[0] * pow256((s.len() - 1) as nat) + be_value(s.drop_first()),
    decreases s.len(),
{
    if s.len() == 1 {
        assert(be_value(s.drop_last()) == 0);
        assert(be_value(s.drop_first()) == 0);
        assert(s.last() == s[0]);
        let q = pow256(0);
        let a = s[0] as int;
        assert(a * q == a) by (nonlinear_arith)
            requires
                q == 1,
        ;
    } else {
        let d = s.drop_last();
        lemma_be_value_first(d);
        assert(d.drop_first() =~= s.drop_first().drop_last());
        let p = pow256((d.len() - 1) as nat);
        let v = be_value(d.drop_first());
        let a = s[0] as int;
        assert(d[0] == s[0]);
        assert(s.drop_first().last() == s.last());
        assert(be_value(s) == be_value(d) * 256 + s.last() as nat);
        assert(be_value(s.drop_first()) == v * 256 + s.last() as nat);
        let q = pow256((s.len() - 1) as nat);
        assert(q == 256 * p);
        assert((a * p + v) * 256 == a * q + v * 256) by (nonlinear_arith)
            requires
                q == 256 * p,
        ;
    }
}

/// A big-endian value is below `256` to the power of the length.
proof fn lemma_be_value_bound(s: Seq<u8>)
    ensures
        be_value(s) < pow256(s.len()),
    decreases s.len(),
{
    if s.len() > 0 {
        let d = s.drop_last();
        lemma_be_value_bound(d);
        let v = be_value(d);
        let p = pow256(d.len());
        assert(v * 256 + 255 < 256 * p) by (nonlinear_arith)
            requires
                v < p,
        ;
    }
}

/// The big-endian value of two byte strings one after the other.
proof fn lemma_be_value_append(s1: Seq<u8>, s2: Seq<u8>)
    ensures
        be_value(s1 + s2) == be_value(s1) * pow256(s2.len()) + be_value(s2),
    decreases s2.len(),
{
    if s2.len() == 0 {
        assert(s1 + s2 =~= s1);
        assert(be_value(s2) == 0);
        let q = pow256(0);
        let v1 = be_value(s1);
        assert(v1 * q == v1) by (nonlinear_arith)
            requires
                q == 1,
        ;
    } else {
        let d = s2.drop_last();
        lemma_be_value_append(s1, d);
        assert((s1 + s2).drop_last() =~= s1 + d);
        assert((s1 + s2).last() == s2.last());
        let v1 = be_value(s1);
        let p = pow256(d.len());
        let vd = be_value(d);
        assert(be_value(s1 + s2) == be_value(s1 + d) * 256 + s2.last() as nat);
        assert(be_value(s2) == vd * 256 + s2.last() as nat);
        let q = pow256(s2.len());
        assert(q == 256 * p);
        assert((v1 * p + vd) * 256 == v1 * q + vd * 256) by (nonlinear_arith)
            requires
                q == 256 * p,
        ;
    }
}

/// On byte strings of one length, the byte order is the order of the
/// big-endian values.
proof fn lemma_bytes_less_value(a: Seq<u8>, b: Seq<u8>)
    requires
        a.len() == b.len(),
    ensures
        bytes_less(a, b) <==> be_value(a) < be_value(b),
    decreases a.len(),
{
    if a.len() > 0 {
        lemma_be_value_first(a);
        lemma_be_value_first(b);
        lemma_be_value_bound(a.drop_first());
        lemma_be_value_bound(b.drop_first());
        let p = pow256((a.len() - 1) as nat);
        let ra = be_value(a.drop_first());
        let rb = be_value(b.drop_first());
        let x = a[0] as int;
        let y = b[0] as int;
        if a[0] == b[0] {
            lemma_bytes_less_value(a.drop_first(), b.drop_first());
        } else if a[0] < b[0] {
            assert(x * p + ra < y * p + rb) by (nonlinear_arith)
                requires
                    x < y,
                    0 <= ra < p,
                    0 <= rb,
            ;
        } else {
            assert(y * p + rb < x * p + ra) by (nonlinear_arith)
                requires
                    y < x,
                    0 <= rb < p,
                    0 <= ra,
            ;
        }
    }
}

/// Stored timestamps compare byte by byte as the timestamps do.
pub proof fn lemma_timestamp_bytes_order(t1: Timestamp, t2: Timestamp)
    ensures
        bytes_less(timestamp_bytes(t1), timestamp_bytes(t2)) <==> spec_before(t1, t2),
{
    reveal_with_fuel(pow256, 9);
    assert(pow256(4) == 0x1_0000_0000);
    assert(pow256(8) == 0x1_0000_0000_0000_0000);
    lemma_be_roundtrip(t1.secs as nat, 8);
    lemma_be_roundtrip(t1.nanos as nat, 4);
    lemma_be_roundtrip(t2.secs as nat, 8);
    lemma_be_roundtrip(t2.nanos as nat, 4);
    lemma_be_value_append(be_bytes(t1.secs as nat, 8), be_bytes(t1.nanos as nat, 4));
    lemma_be_value_append(be_bytes(t2.secs as nat, 8), be_bytes(t2.nanos as nat, 4));
    lemma_bytes_less_value(timestamp_bytes(t1), timestamp_bytes(t2));
    let s1 = t1.secs as int;
    let s2 = t2.secs as int;
    let n1 = t1.nanos as int;
    let n2 = t2.nanos as int;
    assert(s1 * 0x1_0000_0000 + n1 < s2 * 0x1_0000_0000 + n2 <==> (s1 < s2 || (s1 == s2 && n1 < n2)))
        by (nonlinear_arith)
        requires
            0 <= n1 < 0x1_0000_0000,
            0 <= n2 < 0x1_0000_0000,
    ;
}

/// Bytes read as a big-endian value and written back on as many bytes are the
/// same bytes.
proof fn lemma_be_bytes_of_value(s: Seq<u8>)
    ensures
        be_bytes(be_value(s), s.len()) == s,
    decreases s.len(),
{
    if s.len() > 0 {
        let d = s.drop_last();
        lemma_be_bytes_of_value(d);
        let v = be_value(d);
        let l = s.last() as nat;
        assert((v * 256 + l) / 256 == v && (v * 256 + l) % 256 == l) by (nonlinear_arith)
            requires
                l < 256,
        ;
        assert(be_bytes(be_value(s), s.len()) =~= s);
    }
}

/// Bytes that decode to a timestamp are that timestamp's stored bytes.
pub proof fn lemma_decoded_timestamp_bytes(bytes: Seq<u8>)
    requires
        decode_timestamp(bytes) is Some,
    ensures
        timestamp_bytes(decode_timestamp(bytes)->0) == bytes,
{
    reveal_with_fuel(pow256, 9);
    assert(pow256(8) == 0x1_0000_0000_0000_0000);
    let hi = bytes.subrange(0, 8);
    let lo = bytes.subrange(8, 12);
    lemma_be_value_bound(hi);
    lemma_be_bytes_of_value(hi);
    lemma_be_bytes_of_value(lo);
    assert(bytes =~= hi + lo);
}

} // verus!
