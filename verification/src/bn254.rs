//! The BN254 groups, as mathematics: which byte strings encode points the
//! Soroban host reads, and which encoded G2 points lie in the group of
//! order `r`.  Nothing here runs; the definitions say which inputs the
//! verifier may hand to the host.
//!
//! A base-field element is a 32-byte big-endian number below `q`.  A G1
//! point is `X || Y`; a G2 point is `X.c1 || X.c0 || Y.c1 || Y.c0`, where
//! `c0 + c1·u` is an element of `Fq2 = Fq[u] / (u² + 1)`.  All-zero bytes
//! encode the point at infinity.
use vstd::prelude::*;
use vstd::arithmetic::power::pow;

verus! {

/// The base-field order `q`.
pub open spec fn fq() -> int {
    21888242871839275222246405745257275088696311157297823662689037894645226208583int
}

/// The group order `r` (the scalar-field order).
pub open spec fn fr() -> int {
    21888242871839275222246405745257275088548364400416034343698204186575808495617int
}

/// `q` as 32 big-endian bytes.
pub open spec fn fq_bytes() -> Seq<u8> {
    seq![
        0x30u8, 0x64, 0x4e, 0x72, 0xe1, 0x31, 0xa0, 0x29, 0xb8, 0x50, 0x45, 0xb6, 0x81, 0x81, 0x58, 0x5d,
        0x97, 0x81, 0x6a, 0x91, 0x68, 0x71, 0xca, 0x8d, 0x3c, 0x20, 0x8c, 0x16, 0xd8, 0x7c, 0xfd, 0x47,
    ]
}

/// The value of a big-endian byte string.
pub open spec fn be_value(s: Seq<u8>) -> nat
    decreases s.len(),
{
    if s.len() == 0 {
        0
    } else {
        be_value(s.drop_last()) * 256 + s.last() as nat
    }
}

/// `a` is lexicographically smaller than `b` (both of the same length).
pub open spec fn lex_less(a: Seq<u8>, b: Seq<u8>) -> bool {
    exists|i: int|
        0 <= i < a.len() && a[i] < b[i] && forall|j: int| 0 <= j < i ==> #[trigger] a[j] == b[j]
}

/// The 32-byte field element at byte `k · 32` of `s`.
pub open spec fn chunk(s: Seq<u8>, k: int) -> Seq<u8> {
    s.subrange(k * 32, k * 32 + 32)
}

/// Every 32-byte coordinate of `s` is a canonical field element (below
/// `q`; this also leaves the two top "flag" bits clear).
pub open spec fn coordinates_canonical(s: Seq<u8>, chunks: int) -> bool {
    &&& s.len() == chunks * 32
    &&& forall|k: int| 0 <= k < chunks ==> lex_less(#[trigger] chunk(s, k), fq_bytes())
}

/// A G1 encoding the host can read.
pub open spec fn g1_readable(p: Seq<u8>) -> bool {
    coordinates_canonical(p, 2)
}

/// An element `(c0, c1)` of Fq2, both components reduced.
pub type Fq2 = (int, int);

pub open spec fn f2_add(a: Fq2, b: Fq2) -> Fq2 {
    ((a.0 + b.0) % fq(), (a.1 + b.1) % fq())
}

pub open spec fn f2_sub(a: Fq2, b: Fq2) -> Fq2 {
    ((a.0 - b.0) % fq(), (a.1 - b.1) % fq())
}

pub open spec fn f2_mul(a: Fq2, b: Fq2) -> Fq2 {
    ((a.0 * b.0 - a.1 * b.1) % fq(), (a.0 * b.1 + a.1 * b.0) % fq())
}

/// The inverse of a non-zero element: its conjugate over its norm, the
/// norm inverted by Fermat's little theorem.
pub open spec fn f2_inv(a: Fq2) -> Fq2 {
    let norm_inv = pow((a.0 * a.0 + a.1 * a.1) % fq(), (fq() - 2) as nat) % fq();
    ((a.0 * norm_inv) % fq(), (-a.1 * norm_inv) % fq())
}

/// The coefficient `b' = 3 / (u + 9)` of the twist `y² = x³ + b'`.
pub open spec fn twist_b() -> Fq2 {
    (
        19485874751759354771024239261021720505790618469301721065564631296452457478373int,
        266929791119991161246907387137283842545076965332900288569378510910307636690int,
    )
}

/// A point of the twist in affine coordinates; `None` is the point at
/// infinity.
pub type G2Point = Option<(Fq2, Fq2)>;

pub open spec fn on_twist(x: Fq2, y: Fq2) -> bool {
    f2_mul(y, y) == f2_add(f2_mul(f2_mul(x, x), x), twist_b())
}

/// The chord-and-tangent sum of two points of the twist.
pub open spec fn g2_sum(p: G2Point, q: G2Point) -> G2Point {
    match (p, q) {
        (None, _) => q,
        (_, None) => p,
        (Some((x1, y1)), Some((x2, y2))) => {
            if x1 == x2 {
                if y1 == y2 && y1 != (0int, 0int) {
                    let l = f2_mul(f2_mul((3, 0), f2_mul(x1, x1)), f2_inv(f2_add(y1, y1)));
                    let x3 = f2_sub(f2_mul(l, l), f2_add(x1, x1));
                    Some((x3, f2_sub(f2_mul(l, f2_sub(x1, x3)), y1)))
                } else {
                    None
                }
            } else {
                let l = f2_mul(f2_sub(y2, y1), f2_inv(f2_sub(x2, x1)));
                let x3 = f2_sub(f2_sub(f2_mul(l, l), x1), x2);
                Some((x3, f2_sub(f2_mul(l, f2_sub(x1, x3)), y1)))
            }
        },
    }
}

/// `n · p` on the twist.
pub open spec fn g2_times(n: nat, p: G2Point) -> G2Point
    decreases n,
{
    if n == 0 {
        None
    } else {
        g2_sum(g2_times((n - 1) as nat, p), p)
    }
}

/// A G2 encoding the host accepts in a pairing: readable, and either the
/// point at infinity or a point of the twist whose order divides `r`.
pub open spec fn g2_valid(b: Seq<u8>) -> bool {
    &&& coordinates_canonical(b, 4)
    &&& (forall|i: int| 0 <= i < 128 ==> b[i] == 0) || {
        let x: Fq2 = (be_value(chunk(b, 1)) as int, be_value(chunk(b, 0)) as int);
        let y: Fq2 = (be_value(chunk(b, 3)) as int, be_value(chunk(b, 2)) as int);
        on_twist(x, y) && g2_times(fr() as nat, Some((x, y))) is None
    }
}

} // verus!
