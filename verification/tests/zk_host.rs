use soroban_playground::zk_verifier::{Error, Proof, VerificationKey, ZkVerifier, MAX_PUBLIC_INPUTS};
use soroban_sdk::crypto::bn254::{Bn254Fr, Bn254G1Affine};
use soroban_sdk::{BytesN, Env, U256};

const G2: [u8; 128] = [
    25, 142, 147, 147, 146, 13, 72, 58, 114, 96, 191, 183, 49, 251, 93, 37, 241, 170, 73, 51, 53, 169, 231, 18, 151,
    228, 133, 183, 174, 243, 18, 194, 24, 0, 222, 239, 18, 31, 30, 118, 66, 106, 0, 102, 94, 92, 68, 121, 103, 67, 34,
    212, 247, 94, 218, 221, 70, 222, 189, 92, 217, 146, 246, 237, 9, 6, 137, 208, 88, 95, 240, 117, 236, 158, 153, 173,
    105, 12, 51, 149, 188, 75, 49, 51, 112, 179, 142, 243, 85, 172, 218, 220, 209, 34, 151, 91, 18, 200, 94, 165, 219,
    140, 109, 235, 74, 171, 113, 128, 141, 203, 64, 143, 227, 209, 231, 105, 12, 67, 211, 123, 76, 230, 204, 1, 102,
    250, 125, 170,
];

/// The G1 generator (1, 2).
fn g1() -> [u8; 64] {
    let mut p = [0u8; 64];
    p[31] = 1;
    p[63] = 2;
    p
}

/// `k · G1` computed by the host.
fn g1_times(env: &Env, k: u32) -> [u8; 64] {
    let g = Bn254G1Affine::from_array(env, &g1());
    env.crypto().bn254().g1_mul(&g, &Bn254Fr::from_u256(U256::from_u32(env, k))).to_array()
}

fn scalar(k: u8) -> [u8; 32] {
    let mut s = [0u8; 32];
    s[31] = k;
    s
}

/// alpha = C = G and beta = gamma = delta = H, so the equation holds
/// exactly when A = vk_x + 2G.
fn key(ic: Vec<[u8; 64]>) -> VerificationKey {
    VerificationKey { alpha_g1: g1(), beta_g2: G2, gamma_g2: G2, delta_g2: G2, ic }
}

#[test]
fn accepts_valid_pairing_equation() {
    let env = Env::default();
    let proof = Proof { a: g1_times(&env, 3), b: G2, c: g1() };
    assert_eq!(ZkVerifier::verify(&env, &key(vec![g1()]), &proof, &vec![]), Ok(true));
}

#[test]
fn rejects_invalid_proof_without_trapping() {
    let env = Env::default();
    let proof = Proof { a: g1_times(&env, 2), b: G2, c: g1() };
    assert_eq!(ZkVerifier::verify(&env, &key(vec![g1()]), &proof, &vec![]), Ok(false));
}

#[test]
fn verifies_a_public_input_msm() {
    let env = Env::default();
    // vk_x = IC0 + 2 * IC1 = 3G, so A = 5G.
    let proof = Proof { a: g1_times(&env, 5), b: G2, c: g1() };
    assert_eq!(ZkVerifier::verify(&env, &key(vec![g1(), g1()]), &proof, &vec![scalar(2)]), Ok(true));
    let wrong = Proof { a: g1_times(&env, 4), b: G2, c: g1() };
    assert_eq!(ZkVerifier::verify(&env, &key(vec![g1(), g1()]), &wrong, &vec![scalar(2)]), Ok(false));
}

#[test]
fn verify_reports_input_errors_before_pairing() {
    let env = Env::default();
    let proof = Proof { a: g1_times(&env, 3), b: G2, c: g1() };
    assert_eq!(ZkVerifier::verify(&env, &key(vec![g1()]), &proof, &vec![scalar(1)]), Err(Error::InvalidInputCount));
    let mut off_curve = g1();
    off_curve[63] = 3;
    let bad = Proof { a: off_curve, ..proof };
    assert_eq!(ZkVerifier::verify(&env, &key(vec![g1()]), &bad, &vec![]), Err(Error::InvalidG1Point));
    let _ = BytesN::from_array(&env, &[0u8; 32]);
}

const FR_MODULUS: [u8; 32] = [
    0x30, 0x64, 0x4e, 0x72, 0xe1, 0x31, 0xa0, 0x29, 0xb8, 0x50, 0x45, 0xb6, 0x81, 0x81, 0x58, 0x5d, 0x28, 0x33, 0xe8,
    0x48, 0x79, 0xb9, 0x70, 0x91, 0x43, 0xe1, 0xf5, 0x93, 0xf0, 0x00, 0x00, 0x01,
];

fn fixture(env: &Env) -> (VerificationKey, Proof) {
    (key(vec![g1()]), Proof { a: g1_times(env, 3), b: G2, c: g1() })
}

#[test]
fn enforces_exact_public_input_count() {
    let env = Env::default();
    let (vk, proof) = fixture(&env);
    assert_eq!(ZkVerifier::verify(&env, &vk, &proof, &vec![[0u8; 32]]), Err(Error::InvalidInputCount));
}

#[test]
fn rejects_non_canonical_public_input() {
    let env = Env::default();
    let (mut vk, proof) = fixture(&env);
    vk.ic.push(g1());
    assert_eq!(ZkVerifier::verify(&env, &vk, &proof, &vec![FR_MODULUS]), Err(Error::NonCanonicalPublicInput));
}

#[test]
fn rejects_invalid_g1_point() {
    let env = Env::default();
    let (vk, mut proof) = fixture(&env);
    proof.a = [0xff; 64];
    assert_eq!(ZkVerifier::verify(&env, &vk, &proof, &vec![]), Err(Error::InvalidG1Point));
}

#[test]
fn too_many_public_inputs_are_refused_first() {
    let env = Env::default();
    let (vk, mut proof) = fixture(&env);
    proof.a = [0xff; 64];
    let inputs = vec![[0u8; 32]; MAX_PUBLIC_INPUTS + 1];
    assert_eq!(ZkVerifier::verify(&env, &vk, &proof, &inputs), Err(Error::TooManyPublicInputs));
}

#[test]
fn an_unreadable_ic_point_is_reported() {
    let env = Env::default();
    let (mut vk, proof) = fixture(&env);
    vk.ic.push([0xc0; 64]);
    assert_eq!(ZkVerifier::verify(&env, &vk, &proof, &vec![scalar(1)]), Err(Error::InvalidG1Point));
    // A non-canonical input is met before the coefficient that goes with it.
    assert_eq!(ZkVerifier::verify(&env, &vk, &proof, &vec![FR_MODULUS]), Err(Error::NonCanonicalPublicInput));
}
