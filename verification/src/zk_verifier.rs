//! A stateless Groth16 verifier for the BN254 curve.  The curve arithmetic
//! (on-curve tests, addition, multi-scalar multiplication, negation and the
//! pairing) is done by the Soroban host through the trusted calls below;
//! this module decides which error the verifier reports and which pairing
//! equation it asks the host to check.
//!
//! G1 points are `X || Y` with 32-byte big-endian coordinates, G2 points
//! `X.c1 || X.c0 || Y.c1 || Y.c0`; public inputs are big-endian scalars.
//! A G1 encoding the host could not read (a coordinate not below the field
//! order, which includes any with a flag bit set) is reported as an invalid
//! point here, before the host is asked about it.
use vstd::prelude::*;
use soroban_sdk::crypto::bn254::{Bn254Fr, Bn254G1Affine, Bn254G2Affine};
use crate::bn254::{chunk, fq_bytes, g1_readable, g2_valid, lex_less};

verus! {

/// A ceiling that bounds decoding, MSM and pairing costs.
pub const MAX_PUBLIC_INPUTS: usize = 64;

/// The BN254 scalar field order, big-endian.
pub open spec fn fr_modulus() -> Seq<u8> {
    seq![
        0x30u8, 0x64, 0x4e, 0x72, 0xe1, 0x31, 0xa0, 0x29, 0xb8, 0x50, 0x45, 0xb6, 0x81, 0x81, 0x58, 0x5d,
        0x28, 0x33, 0xe8, 0x48, 0x79, 0xb9, 0x70, 0x91, 0x43, 0xe1, 0xf5, 0x93, 0xf0, 0x00, 0x00, 0x01,
    ]
}

#[derive(Clone, Copy, Debug, PartialEq, Eq, Structural)]
pub enum Error {
    InvalidInputCount,
    TooManyPublicInputs,
    NonCanonicalPublicInput,
    InvalidG1Point,
}

/// The 32 bytes of `v` from `start` are lexicographically below `m`.
fn below_at(v: &[u8], start: usize, m: &[u8; 32]) -> (r: bool)
    requires
        start + 32 <= v@.len(),
    ensures
        r == lex_less(v@.subrange(start as int, start + 32), m@),
{
    let ghost w = v@.subrange(start as int, start + 32);
    let mut i: usize = 0;
    while i < 32
        invariant
            0 <= i <= 32,
            start + 32 <= v.len(),
            w == v@.subrange(start as int, start + 32),
            forall|j: int| 0 <= j < i ==> w[j] == m@[j],
        decreases 32 - i,
    {
        assert(w[i as int] == v@[start + i]);
        if v[start + i] < m[i] {
            assert(0 <= i < w.len() && w[i as int] < m@[i as int] && forall|j: int| 0 <= j < i ==> #[trigger] w[j] == m@[j]);
            return true;
        }
        if v[start + i] > m[i] {
            proof {
                assert forall|k: int| 0 <= k < w.len() && w[k] < m@[k] implies !(forall|j: int|
                    0 <= j < k ==> #[trigger] w[j] == m@[j]) by {
                    if k > i {
                        assert(w[i as int] != m@[i as int]);
                    }
                }
            }
            return false;
        }
        i = i + 1;
    }
    proof {
        assert forall|k: int| 0 <= k < w.len() && w[k] < m@[k] implies !(forall|j: int|
            0 <= j < k ==> #[trigger] w[j] == m@[j]) by {
            assert(w[k] == m@[k]);
        }
    }
    false
}

fn scalar_modulus() -> (r: [u8; 32])
    ensures
        r@ == fr_modulus(),
{
    let m: [u8; 32] = [
        0x30, 0x64, 0x4e, 0x72, 0xe1, 0x31, 0xa0, 0x29, 0xb8, 0x50, 0x45, 0xb6, 0x81, 0x81, 0x58, 0x5d,
        0x28, 0x33, 0xe8, 0x48, 0x79, 0xb9, 0x70, 0x91, 0x43, 0xe1, 0xf5, 0x93, 0xf0, 0x00, 0x00, 0x01,
    ];
    assert(m@ =~= fr_modulus());
    m
}

fn field_modulus() -> (r: [u8; 32])
    ensures
        r@ == fq_bytes(),
{
    let m: [u8; 32] = [
        0x30, 0x64, 0x4e, 0x72, 0xe1, 0x31, 0xa0, 0x29, 0xb8, 0x50, 0x45, 0xb6, 0x81, 0x81, 0x58, 0x5d,
        0x97, 0x81, 0x6a, 0x91, 0x68, 0x71, 0xca, 0x8d, 0x3c, 0x20, 0x8c, 0x16, 0xd8, 0x7c, 0xfd, 0x47,
    ];
    assert(m@ =~= fq_bytes());
    m
}

/// A 32-byte big-endian scalar is canonical when it is below the field
/// order.
pub fn is_canonical_scalar(value: &[u8; 32]) -> (r: bool)
    ensures
        r == lex_less(value@, fr_modulus()),
{
    let m = scalar_modulus();
    let r = below_at(value, 0, &m);
    assert(value@.subrange(0, 32) =~= value@);
    r
}

/// Whether the host can read `point`: both coordinates below the base-field
/// order.
pub fn is_readable_g1(point: &[u8; 64]) -> (r: bool)
    ensures
        r == g1_readable(point@),
{
    let m = field_modulus();
    let x_ok = below_at(point, 0, &m);
    let y_ok = below_at(point, 32, &m);
    proof {
        assert(chunk(point@, 0) == point@.subrange(0, 32));
        assert(chunk(point@, 1) == point@.subrange(32, 64));
        if x_ok && y_ok {
            assert forall|k: int| 0 <= k < 2 implies lex_less(#[trigger] chunk(point@, k), fq_bytes()) by {
                if k == 0 {
                } else {
                }
            }
        }
    }
    x_ok && y_ok
}

/// The input count fits the key, the inputs are canonical and every G1
/// encoding is readable: the verifier gets past these checks unless a
/// point is off the curve.
pub open spec fn well_formed_g1_side(
    ic: Seq<[u8; 64]>,
    inputs: Seq<[u8; 32]>,
    alpha: Seq<u8>,
    a: Seq<u8>,
    c: Seq<u8>,
) -> bool {
    &&& inputs.len() <= MAX_PUBLIC_INPUTS
    &&& ic.len() == inputs.len() + 1
    &&& g1_readable(alpha) && g1_readable(a) && g1_readable(c)
    &&& forall|i: int| 0 <= i < inputs.len() ==> lex_less(#[trigger] inputs[i]@, fr_modulus())
    &&& forall|i: int| 0 <= i < ic.len() ==> g1_readable(#[trigger] ic[i]@)
}

/// The host reads `point` and finds it on the curve.
pub open spec fn g1_accepted(point: Seq<u8>) -> bool {
    g1_readable(point) && g1_on_curve(point)
}

/// The first error of the verifier, in the order it checks: the input
/// count, then `alpha`, the proof's `A` and `C`, then each public input
/// with its coefficient, and `ic[0]` last.
pub open spec fn input_error(
    ic: Seq<[u8; 64]>,
    inputs: Seq<[u8; 32]>,
    alpha: Seq<u8>,
    a: Seq<u8>,
    c: Seq<u8>,
) -> Option<Error> {
    if inputs.len() > MAX_PUBLIC_INPUTS {
        Some(Error::TooManyPublicInputs)
    } else if ic.len() != inputs.len() + 1 {
        Some(Error::InvalidInputCount)
    } else if !g1_accepted(alpha) || !g1_accepted(a) || !g1_accepted(c) {
        Some(Error::InvalidG1Point)
    } else {
        input_loop_error(ic, inputs, 0)
    }
}

/// The first error met while walking the inputs from `i`: a non-canonical
/// input, or a coefficient the host does not accept (`ic[i + 1]`, and
/// finally `ic[0]`).
pub open spec fn input_loop_error(ic: Seq<[u8; 64]>, inputs: Seq<[u8; 32]>, i: int) -> Option<Error>
    decreases inputs.len() - i,
{
    if i >= inputs.len() {
        if g1_accepted(ic[0]@) {
            None
        } else {
            Some(Error::InvalidG1Point)
        }
    } else if !lex_less(inputs[i]@, fr_modulus()) {
        Some(Error::NonCanonicalPublicInput)
    } else if !g1_accepted(ic[i + 1]@) {
        Some(Error::InvalidG1Point)
    } else {
        input_loop_error(ic, inputs, i + 1)
    }
}

pub struct ZkVerifier;

// ── Host curve arithmetic ────────────────────────────────────────────────────

#[verifier::external_type_specification]
#[verifier::external_body]
pub struct ExEnv(soroban_sdk::Env);

/// Whether the host takes an encoded G1 point to lie on the curve.
pub uninterp spec fn g1_on_curve(point: Seq<u8>) -> bool;

/// The host's encoding of the sum of two G1 points.
pub uninterp spec fn g1_add(p: Seq<u8>, q: Seq<u8>) -> Seq<u8>;

/// The host's encoding of `Σ scalars[i] · points[i]` in G1.
pub uninterp spec fn g1_msm(points: Seq<Seq<u8>>, scalars: Seq<Seq<u8>>) -> Seq<u8>;

/// The encoding of the negated G1 point `(X, -Y)`.
pub uninterp spec fn g1_neg(point: Seq<u8>) -> Seq<u8>;

/// Whether the product of the pairings `e(g1[i], g2[i])` is 1.
pub uninterp spec fn pairing_holds(g1: Seq<Seq<u8>>, g2: Seq<Seq<u8>>) -> bool;

/// `Bn254::g1_is_on_curve` of soroban-sdk: the host's curve test, on an
/// encoding it can read (it traps on one it cannot, so `requires` leaves
/// those out).
#[verifier::external_body]
fn host_g1_on_curve(env: &soroban_sdk::Env, point: &[u8; 64]) -> (r: bool)
    requires
        g1_readable(point@),
    ensures
        r == g1_on_curve(point@),
{
    env.crypto().bn254().g1_is_on_curve(&Bn254G1Affine::from_array(env, point))
}

/// `Bn254::g1_add` of soroban-sdk on two points the host reads and finds on
/// the curve (it traps on any other).  The result is a group element in
/// the host's canonical encoding, which it reads and finds on the curve.
#[verifier::external_body]
fn host_g1_add(env: &soroban_sdk::Env, p: &[u8; 64], q: &[u8; 64]) -> (r: [u8; 64])
    requires
        g1_readable(p@) && g1_on_curve(p@),
        g1_readable(q@) && g1_on_curve(q@),
    ensures
        r@ == g1_add(p@, q@),
        g1_readable(r@),
        g1_on_curve(r@),
{
    env.crypto().bn254().g1_add(&Bn254G1Affine::from_array(env, p), &Bn254G1Affine::from_array(env, q)).to_array()
}

/// `Bn254::g1_msm` of soroban-sdk on a non-empty list of points the host
/// reads and finds on the curve, with one canonical scalar per point (it
/// traps otherwise).  The result is a group element in the host's
/// canonical encoding.
#[verifier::external_body]
fn host_g1_msm(env: &soroban_sdk::Env, points: &Vec<[u8; 64]>, scalars: &Vec<[u8; 32]>) -> (r: [u8; 64])
    requires
        points@.len() > 0,
        points@.len() == scalars@.len(),
        forall|i: int| 0 <= i < points@.len() ==> g1_readable(#[trigger] points@[i]@) && g1_on_curve(points@[i]@),
        forall|i: int| 0 <= i < scalars@.len() ==> lex_less(#[trigger] scalars@[i]@, fr_modulus()),
    ensures
        r@ == g1_msm(points@.map_values(|p: [u8; 64]| p@), scalars@.map_values(|s: [u8; 32]| s@)),
        g1_readable(r@),
        g1_on_curve(r@),
{
    let vp = soroban_sdk::Vec::from_iter(env, points.iter().map(|p| Bn254G1Affine::from_array(env, p)));
    let vs = soroban_sdk::Vec::from_iter(env, scalars.iter().map(|s| Bn254Fr::from_bytes(soroban_sdk::BytesN::from_array(env, s))));
    env.crypto().bn254().g1_msm(vp, vs).to_array()
}

/// `-Bn254G1Affine` (the `Neg` impl) of soroban-sdk: `(X, q - Y)`, or the
/// point itself when `Y` is zero.  It panics on a `Y` not below `q`, which
/// `requires` leaves out; `X` is kept and the new `Y` is below `q`, and a
/// point on the curve stays on it.
#[verifier::external_body]
fn host_g1_neg(env: &soroban_sdk::Env, point: &[u8; 64]) -> (r: [u8; 64])
    requires
        g1_readable(point@),
    ensures
        r@ == g1_neg(point@),
        g1_readable(r@),
        g1_on_curve(point@) ==> g1_on_curve(r@),
{
    (-Bn254G1Affine::from_array(env, point)).to_array()
}

/// `Bn254::pairing_check` of soroban-sdk on four pairs.  The host reads
/// and checks every point and traps on a G1 point off the curve or a G2
/// point outside the group of order `r`; `requires` leaves those out.
#[verifier::external_body]
fn host_pairing_check(env: &soroban_sdk::Env, g1: &[[u8; 64]; 4], g2: &[[u8; 128]; 4]) -> (r: bool)
    requires
        forall|i: int| 0 <= i < 4 ==> g1_readable(#[trigger] g1@[i]@) && g1_on_curve(g1@[i]@),
        forall|i: int| 0 <= i < 4 ==> g2_valid(#[trigger] g2@[i]@),
    ensures
        r == pairing_holds(g1@.map_values(|p: [u8; 64]| p@), g2@.map_values(|q: [u8; 128]| q@)),
{
    let vp1 = soroban_sdk::Vec::from_iter(env, g1.iter().map(|p| Bn254G1Affine::from_array(env, p)));
    let vp2 = soroban_sdk::Vec::from_iter(env, g2.iter().map(|q| Bn254G2Affine::from_array(env, q)));
    env.crypto().bn254().pairing_check(vp1, vp2)
}

// ── The verifier ─────────────────────────────────────────────────────────────

/// A Groth16 proof: `A` and `C` in G1, `B` in G2.
#[derive(Clone, Copy, Debug)]
pub struct Proof {
    pub a: [u8; 64],
    pub b: [u8; 128],
    pub c: [u8; 64],
}

/// A prepared Groth16 verification key; `ic` holds one more point than there
/// are public inputs.
#[derive(Clone, Debug)]
pub struct VerificationKey {
    pub alpha_g1: [u8; 64],
    pub beta_g2: [u8; 128],
    pub gamma_g2: [u8; 128],
    pub delta_g2: [u8; 128],
    pub ic: Vec<[u8; 64]>,
}

/// `vk_x = ic[0] + Σ inputs[i] · ic[i + 1]`: `ic[0]` alone when there are no
/// inputs.
pub open spec fn spec_vk_x(ic: Seq<[u8; 64]>, inputs: Seq<[u8; 32]>) -> Seq<u8> {
    if inputs.len() == 0 {
        ic[0]@
    } else {
        g1_add(
            ic[0]@,
            g1_msm(ic.subrange(1, ic.len() as int).map_values(|p: [u8; 64]| p@), inputs.map_values(|s: [u8; 32]| s@)),
        )
    }
}

/// Without a loop error from `i` on, `ic[0]` is accepted, and every input
/// from `i` on is canonical with its coefficient accepted.
proof fn lemma_loop_ok(ic: Seq<[u8; 64]>, inputs: Seq<[u8; 32]>, i: int)
    requires
        0 <= i <= inputs.len(),
        ic.len() == inputs.len() + 1,
        input_loop_error(ic, inputs, i) is None,
    ensures
        g1_accepted(ic[0]@),
        forall|j: int| i <= j < inputs.len() ==> lex_less(#[trigger] inputs[j]@, fr_modulus()) && g1_accepted(ic[j + 1]@),
    decreases inputs.len() - i,
{
    if i < inputs.len() {
        lemma_loop_ok(ic, inputs, i + 1);
    }
}

impl ZkVerifier {
    /// Whether the host reads `point` and finds it on the curve; an
    /// unreadable encoding is refused without asking the host.
    fn checked_g1(env: &soroban_sdk::Env, point: &[u8; 64]) -> (r: bool)
        ensures
            r == g1_accepted(point@),
    {
        is_readable_g1(point) && host_g1_on_curve(env, point)
    }

    /// Verify a Groth16 proof against `vk` and the ordered public inputs:
    /// the first error of `input_error`, else whether
    /// `e(A,B) · e(-vk_x,γ) · e(-C,δ) · e(-α,β) = 1`.  The host checks the
    /// G2 points during the pairing and traps on one outside the group, so
    /// `requires` asks for valid ones wherever the G1 side is well formed.
    pub fn verify(env: &soroban_sdk::Env, vk: &VerificationKey, proof: &Proof, public_inputs: &Vec<[u8; 32]>) -> (r: Result<
        bool,
        Error,
    >)
        requires
            well_formed_g1_side(vk.ic@, public_inputs@, vk.alpha_g1@, proof.a@, proof.c@) ==> {
                &&& g2_valid(proof.b@)
                &&& g2_valid(vk.gamma_g2@)
                &&& g2_valid(vk.delta_g2@)
                &&& g2_valid(vk.beta_g2@)
            },
        ensures
            match input_error(vk.ic@, public_inputs@, vk.alpha_g1@, proof.a@, proof.c@) {
                Some(e) => r == Err::<bool, Error>(e),
                None => r == Ok::<bool, Error>(
                    pairing_holds(
                        seq![
                            proof.a@,
                            g1_neg(spec_vk_x(vk.ic@, public_inputs@)),
                            g1_neg(proof.c@),
                            g1_neg(vk.alpha_g1@),
                        ],
                        seq![proof.b@, vk.gamma_g2@, vk.delta_g2@, vk.beta_g2@],
                    ),
                ),
            },
    {
        let n = public_inputs.len();
        if n > MAX_PUBLIC_INPUTS {
            return Err(Error::TooManyPublicInputs);
        }
        if vk.ic.len() != n + 1 {
            return Err(Error::InvalidInputCount);
        }
        if !Self::checked_g1(env, &vk.alpha_g1) {
            return Err(Error::InvalidG1Point);
        }
        if !Self::checked_g1(env, &proof.a) {
            return Err(Error::InvalidG1Point);
        }
        if !Self::checked_g1(env, &proof.c) {
            return Err(Error::InvalidG1Point);
        }
        let mut rest: Vec<[u8; 64]> = Vec::new();
        let mut i: usize = 0;
        while i < n
            invariant
                0 <= i <= n,
                n == public_inputs@.len(),
                n <= MAX_PUBLIC_INPUTS,
                vk.ic@.len() == n + 1,
                g1_accepted(vk.alpha_g1@) && g1_accepted(proof.a@) && g1_accepted(proof.c@),
                input_loop_error(vk.ic@, public_inputs@, 0) == input_loop_error(vk.ic@, public_inputs@, i as int),
                rest@ == vk.ic@.subrange(1, i + 1),
                forall|j: int| 0 <= j < i ==> lex_less(#[trigger] public_inputs@[j]@, fr_modulus()) && g1_accepted(vk.ic@[j + 1]@),
            decreases n - i,
        {
            if !is_canonical_scalar(&public_inputs[i]) {
                return Err(Error::NonCanonicalPublicInput);
            }
            if !Self::checked_g1(env, &vk.ic[i + 1]) {
                return Err(Error::InvalidG1Point);
            }
            let ghost k = i as int;
            assert(lex_less(public_inputs@[k]@, fr_modulus()) && g1_accepted(vk.ic@[k + 1]@));
            rest.push(vk.ic[i + 1]);
            i = i + 1;
            proof {
                assert(rest@ =~= vk.ic@.subrange(1, i + 1));
                assert forall|j: int| 0 <= j < i implies lex_less(#[trigger] public_inputs@[j]@, fr_modulus())
                    && g1_accepted(vk.ic@[j + 1]@) by {
                    if j < k {
                    } else {
                        assert(j == k);
                    }
                }
            }
        }
        if !Self::checked_g1(env, &vk.ic[0]) {
            return Err(Error::InvalidG1Point);
        }
        let vk_x: [u8; 64] = if n == 0 {
            vk.ic[0]
        } else {
            proof {
                assert forall|k: int| 0 <= k < rest@.len() implies g1_readable(#[trigger] rest@[k]@) && g1_on_curve(rest@[k]@) by {
                    assert(rest@[k] == vk.ic@[k + 1]);
                    assert(lex_less(public_inputs@[k]@, fr_modulus()));
                }
                assert(rest@.map_values(|p: [u8; 64]| p@) =~= vk.ic@.subrange(1, vk.ic@.len() as int).map_values(
                    |p: [u8; 64]| p@,
                ));
            }
            let m = host_g1_msm(env, &rest, public_inputs);
            host_g1_add(env, &vk.ic[0], &m)
        };
        let neg_vk_x = host_g1_neg(env, &vk_x);
        let neg_c = host_g1_neg(env, &proof.c);
        let neg_alpha = host_g1_neg(env, &vk.alpha_g1);
        let g1: [[u8; 64]; 4] = [proof.a, neg_vk_x, neg_c, neg_alpha];
        let g2: [[u8; 128]; 4] = [proof.b, vk.gamma_g2, vk.delta_g2, vk.beta_g2];
        proof {
            assert(g1@.map_values(|p: [u8; 64]| p@) =~= seq![
                proof.a@,
                g1_neg(spec_vk_x(vk.ic@, public_inputs@)),
                g1_neg(proof.c@),
                g1_neg(vk.alpha_g1@),
            ]);
            assert(g2@.map_values(|q: [u8; 128]| q@) =~= seq![proof.b@, vk.gamma_g2@, vk.delta_g2@, vk.beta_g2@]);
            assert forall|k: int| 0 <= k < 4 implies g1_readable(#[trigger] g1@[k]@) && g1_on_curve(g1@[k]@) by {
                if k == 1 {
                    assert(g1@[1] == neg_vk_x);
                }
            }
            assert forall|k: int| 0 <= k < vk.ic@.len() implies g1_readable(#[trigger] vk.ic@[k]@) by {
                if k > 0 {
                    assert(lex_less(public_inputs@[k - 1]@, fr_modulus()));
                    assert(g1_accepted(vk.ic@[(k - 1) + 1]@));
                }
            }
            assert(well_formed_g1_side(vk.ic@, public_inputs@, vk.alpha_g1@, proof.a@, proof.c@));
            assert forall|k: int| 0 <= k < 4 implies g2_valid(#[trigger] g2@[k]@) by {
            }
        }
        Ok(host_pairing_check(env, &g1, &g2))
    }
}

} // verus!
