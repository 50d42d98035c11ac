//! The key generation operations of the protocol library, with what this crate
//! relies on of each.
//!
//! What a peer sends is put to the protocol library's checks only after the
//! numbers in it were found fit for them: the checks divide, invert and raise to
//! powers, and panic on a number that does not allow it.

use crate::curve::{
    are_coprime, coprime, generator_mul, integer_is_negative, is_negative_integer, point_total,
    CurvePoint, CurveScalar,
};
use crate::material::{
    check_modulus, commitment_lists, keys_party_index, modulus_fit, DLogProof, Keys, VerifiableSS,
};
use crate::party::distinct;
use curv::cryptographic_primitives::secret_sharing::feldman_vss::VerifiableSS as OutsideVss;
use curv::cryptographic_primitives::proofs::ProofError;
use curv::BigInt;
use curv::ErrorSS;
use multi_party_ecdsa::protocols::multi_party_ecdsa::gg_2020::party_i;
use multi_party_ecdsa::protocols::multi_party_ecdsa::gg_2020::party_i::{
    KeyGenBroadcastMessage1, KeyGenDecommitMessage1, Parameters,
};
use multi_party_ecdsa::protocols::multi_party_ecdsa::gg_2020::ErrorType;
use vstd::prelude::*;

verus! {

/// `curv`'s error of a share that does not fit its commitments.
#[verifier::external_type_specification]
#[verifier::external_body]
pub struct ExErrorSS(ErrorSS);

/// The number of responses of a proof of a correct Paillier key.
pub const KEY_PROOF_RESPONSES: usize = 11;

/// The numbers that a party chose for itself and broadcast: its Paillier modulus;
/// `N~`, `h1` and `h2`; the number of responses of its proof of a correct Paillier
/// key; and the responses of its two proofs for `h1` and `h2`.
pub struct BroadcastNumbers {
    pub paillier_modulus: BigInt,
    pub n_tilde: BigInt,
    pub h1: BigInt,
    pub h2: BigInt,
    pub key_proof_responses: usize,
    pub h1_response: BigInt,
    pub h2_response: BigInt,
}

/// The numbers of a broadcast message.
pub uninterp spec fn broadcast_numbers(message: KeyGenBroadcastMessage1) -> BroadcastNumbers;

/// The numbers of a broadcast message can be put to the proofs' checks: both
/// moduli are positive and of an accepted size, `h1` and `h2` are units modulo
/// `N~`, the key proof has all its responses, and the responses for `h1` and `h2`
/// are not negative. The protocol library's checks divide by the moduli, raise to
/// the responses, and insist on the units.
pub open spec fn broadcast_passable(b: BroadcastNumbers) -> bool {
    &&& modulus_fit(b.paillier_modulus)
    &&& modulus_fit(b.n_tilde)
    &&& coprime(b.h1, b.n_tilde)
    &&& coprime(b.h2, b.n_tilde)
    &&& b.key_proof_responses == KEY_PROOF_RESPONSES
    &&& !integer_is_negative(b.h1_response)
    &&& !integer_is_negative(b.h2_response)
}

/// The public contribution `u_i * G` of key generation material.
pub uninterp spec fn keys_public_point(keys: Keys) -> CurvePoint;

/// The secret contribution `u_i` of key generation material.
pub uninterp spec fn keys_secret(keys: Keys) -> CurveScalar;

/// The point that a proof of knowledge of a discrete logarithm is for.
pub uninterp spec fn dlog_public_point(proof: DLogProof) -> CurvePoint;

/// Whether the Paillier key of key generation material was made of safe primes.
pub uninterp spec fn keys_from_safe_primes(keys: Keys) -> bool;

/// `commitment` and `opening` are what the key material `keys` makes to commit
/// to its public contribution, for some choice of its randomness: the
/// commitment with the material's Paillier key, its statement and the proofs
/// for both.
pub uninterp spec fn keygen_commitment_made(
    commitment: KeyGenBroadcastMessage1,
    opening: KeyGenDecommitMessage1,
    keys: Keys,
) -> bool;

/// The point that an opening of a key generation commitment holds.
pub uninterp spec fn opening_point(opening: KeyGenDecommitMessage1) -> CurvePoint;

/// Whether every party's opening fits its commitment, and its proofs of a
/// correct Paillier key and of correct `h1`, `h2`, `N~` verify.
pub uninterp spec fn keygen_openings_accepted(
    openings: Seq<KeyGenDecommitMessage1>,
    commitments: Seq<KeyGenBroadcastMessage1>,
) -> bool;

/// The sum of `shares`, where each share `shares[i]` is the value at `index` of
/// the polynomial committed to in `commitments[i]`, whose constant term is
/// committed to as `ys[i]`.
pub uninterp spec fn verified_share(
    ys: Seq<CurvePoint>,
    shares: Seq<CurveScalar>,
    commitments: Seq<Seq<CurvePoint>>,
    index: int,
) -> Option<CurveScalar>;

/// Whether `share` is the value at `index` of the polynomial that `commitments`
/// commit to.
pub uninterp spec fn share_accepted(
    commitments: Seq<CurvePoint>,
    share: CurveScalar,
    index: u16,
) -> bool;

/// Whether a proof of knowledge of a discrete logarithm verifies.
pub uninterp spec fn dlog_proof_accepted(proof: DLogProof) -> bool;

/// Whether each proof verifies and is for the public share that the sum of all
/// committed polynomials gives its party.
pub uninterp spec fn dlog_proofs_accepted(
    proofs: Seq<DLogProof>,
    ys: Seq<CurvePoint>,
    commitments: Seq<Seq<CurvePoint>>,
) -> bool;

/// The value at 0 of the polynomial of least degree that takes the value
/// `shares[k]` at `indices[k] + 1`.
pub uninterp spec fn reconstructed_secret(
    indices: Seq<u16>,
    shares: Seq<CurveScalar>,
) -> CurveScalar;

/// Every scheme of `schemes` has `t + 1` commitments.
pub open spec fn schemes_fit(schemes: Seq<VerifiableSS>, t: int) -> bool {
    forall|i: int| 0 <= i < schemes.len() ==> (#[trigger] schemes[i]).commitments@.len() == t + 1
}

/// The fields `e.n`, `dlog_statement`, `correct_key_proof.sigma_vec` and the two
/// `composite_dlog_proof`s' `y` of the protocol library's
/// `KeyGenBroadcastMessage1`.
#[verifier::external_body]
pub(crate) fn read_broadcast(message: &KeyGenBroadcastMessage1) -> (r: BroadcastNumbers)
    ensures
        r == broadcast_numbers(*message),
{
    BroadcastNumbers {
        paillier_modulus: message.e.n.clone(),
        n_tilde: message.dlog_statement.N.clone(),
        h1: message.dlog_statement.g.clone(),
        h2: message.dlog_statement.ni.clone(),
        key_proof_responses: message.correct_key_proof.sigma_vec.len(),
        h1_response: message.composite_dlog_proof_base_h1.y.clone(),
        h2_response: message.composite_dlog_proof_base_h2.y.clone(),
    }
}

/// Whether the numbers of a broadcast message can be put to the proofs' checks.
pub fn check_broadcast(b: &BroadcastNumbers) -> (r: bool)
    ensures
        r == broadcast_passable(*b),
{
    check_modulus(&b.paillier_modulus) && check_modulus(&b.n_tilde) && are_coprime(
        &b.h1,
        &b.n_tilde,
    ) && are_coprime(&b.h2, &b.n_tilde) && b.key_proof_responses == KEY_PROOF_RESPONSES
        && !is_negative_integer(&b.h1_response) && !is_negative_integer(&b.h2_response)
}

/// `Keys::create` and, of the material it made,
/// `Keys::phase1_broadcast_phase3_proof_of_correct_key_proof_of_correct_h1h2`:
/// fresh key material for the party `index`, with a Paillier key from ordinary
/// primes; a commitment to its public contribution with the proofs for its
/// keys; and the opening, which holds that contribution.
#[verifier::external_body]
pub(crate) fn create_and_commit(index: usize) -> (r: (
    Keys,
    KeyGenBroadcastMessage1,
    KeyGenDecommitMessage1,
))
    ensures
        keys_party_index(r.0) == index,
        opening_point(r.2) == keys_public_point(r.0),
        keygen_commitment_made(r.1, r.2, r.0),
{
    let keys = party_i::Keys::create(index);
    let (bc1, decom1) = keys.phase1_broadcast_phase3_proof_of_correct_key_proof_of_correct_h1h2();
    (Keys { inner: keys }, bc1, decom1)
}

/// `Keys::create_safe_prime` and, of the material it made,
/// `Keys::phase1_broadcast_phase3_proof_of_correct_key_proof_of_correct_h1h2`: as
/// `create_and_commit`, with a Paillier key from safe primes.
#[verifier::external_body]
pub(crate) fn create_and_commit_safe_prime(index: usize) -> (r: (
    Keys,
    KeyGenBroadcastMessage1,
    KeyGenDecommitMessage1,
))
    ensures
        keys_party_index(r.0) == index,
        keys_from_safe_primes(r.0),
        opening_point(r.2) == keys_public_point(r.0),
        keygen_commitment_made(r.1, r.2, r.0),
{
    let keys = party_i::Keys::create_safe_prime(index);
    let (bc1, decom1) = keys.phase1_broadcast_phase3_proof_of_correct_key_proof_of_correct_h1h2();
    (Keys { inner: keys }, bc1, decom1)
}

/// `Keys::phase1_verify_com_phase3_verify_correct_key_verify_dlog_phase2_distribute`:
/// fails where an opening or a proof is not accepted; else shares the party's
/// secret with a fresh polynomial of degree `threshold` and returns the `threshold
/// + 1` commitments, the first of them to the secret itself, one share for each
/// party, the polynomial's value at the party's index, and the party's index.
/// The call
/// panics where a list is not of length `share_count`, the threshold is not
/// below it, or the numbers of a broadcast message cannot be put to the proofs'
/// checks.
#[verifier::external_body]
pub(crate) fn verify_and_distribute(
    keys: &Keys,
    threshold: u16,
    share_count: u16,
    openings: &Vec<KeyGenDecommitMessage1>,
    commitments: &Vec<KeyGenBroadcastMessage1>,
) -> (r: Result<(VerifiableSS, Vec<CurveScalar>, usize), ErrorType>)
    requires
        threshold < share_count,
        openings@.len() == share_count,
        commitments@.len() == share_count,
        forall|i: int|
            0 <= i < commitments@.len() ==> broadcast_passable(
                broadcast_numbers(#[trigger] commitments@[i]),
            ),
    ensures
        r is Ok <==> keygen_openings_accepted(openings@, commitments@),
        r matches Ok(v) ==> {
            &&& v.0.parameters.threshold == threshold
            &&& v.0.parameters.share_count == share_count
            &&& v.0.commitments@.len() == threshold + 1
            &&& v.1@.len() == share_count
            &&& v.2 == keys_party_index(*keys)
            &&& v.0.commitments@[0] == generator_mul(keys_secret(*keys))
            &&& forall|k: int|
                0 <= k < v.1@.len() ==> share_accepted(
                    v.0.commitments@,
                    #[trigger] v.1@[k],
                    (k + 1) as u16,
                )
        },
{
    let params = Parameters { threshold, share_count };
    let (vss, shares, index) = keys.inner
        .phase1_verify_com_phase3_verify_correct_key_verify_dlog_phase2_distribute(
            &params, openings, commitments)?;
    let commitments = vss.commitments.into_iter().map(|p| CurvePoint { inner: p }).collect();
    let shares = shares.into_iter().map(|x| CurveScalar { inner: x }).collect();
    Ok((VerifiableSS { parameters: vss.parameters, commitments }, shares, index))
}

/// `Keys::phase2_verify_vss_construct_keypair_phase3_pok_dlog`: fails where a
/// share is not accepted; else returns the sum of `ys` as the joint public key,
/// the sum of `shares` as the party's share, and a fresh proof of knowledge of
/// that share, which is for the share's multiple of the generator. The call
/// panics where a list is not of length `share_count`, a
/// scheme has no commitment, or `index` does not fit 16 bits.
#[verifier::external_body]
pub(crate) fn verify_shares_and_prove(
    keys: &Keys,
    threshold: u16,
    share_count: u16,
    ys: &Vec<CurvePoint>,
    shares: &Vec<CurveScalar>,
    schemes: &Vec<VerifiableSS>,
    index: usize,
) -> (r: Result<(CurvePoint, CurveScalar, DLogProof), ErrorType>)
    requires
        share_count >= 1,
        ys@.len() == share_count,
        shares@.len() == share_count,
        schemes@.len() == share_count,
        index <= u16::MAX,
        forall|i: int| 0 <= i < schemes@.len() ==> (#[trigger] schemes@[i]).commitments@.len() >= 1,
    ensures
        r matches Ok(v) ==> v.0 == point_total(ys@) && verified_share(
            ys@,
            shares@,
            commitment_lists(schemes@),
            index as int,
        ) == Some(v.1),
        r matches Ok(v) ==> dlog_public_point(v.2) == generator_mul(v.1),
        r is Err ==> verified_share(ys@, shares@, commitment_lists(schemes@), index as int)
            is None,
{
    let pt = |p: &CurvePoint| p.inner.clone();
    let ys: Vec<_> = ys.iter().map(pt).collect();
    let shares: Vec<_> = shares.iter().map(|x| x.inner.clone()).collect();
    let schemes: Vec<_> = schemes.iter().map(|v| OutsideVss {
        parameters: v.parameters.clone(),
        commitments: v.commitments.iter().map(pt).collect(),
    }).collect();
    let (k, proof) = keys.inner.phase2_verify_vss_construct_keypair_phase3_pok_dlog(
        &Parameters { threshold, share_count }, &ys, &shares, &schemes, index)?;
    Ok((CurvePoint { inner: k.y }, CurveScalar { inner: k.x_i }, DLogProof { inner: proof }))
}

/// `VerifiableSS::validate_share` of `curv`: fails where `share` is not the value
/// at `index` of the committed polynomial. The call panics where the scheme has no
/// commitment.
#[verifier::external_body]
pub(crate) fn validate_share(vss: &VerifiableSS, share: &CurveScalar, index: u16) -> (r: Result<
    (),
    ErrorSS,
>)
    requires
        vss.commitments@.len() >= 1,
    ensures
        r is Ok <==> share_accepted(vss.commitments@, *share, index),
{
    let scheme = OutsideVss {
        parameters: vss.parameters.clone(),
        commitments: vss.commitments.iter().map(|p| p.inner.clone()).collect(),
    };
    scheme.validate_share(&share.inner, index)
}

/// `DLogProof::verify` of `curv`.
#[verifier::external_body]
pub(crate) fn verify_dlog_proof(proof: &DLogProof) -> (r: Result<(), ProofError>)
    ensures
        r is Ok <==> dlog_proof_accepted(*proof),
{
    curv::cryptographic_primitives::proofs::sigma_dlog::DLogProof::verify(&proof.inner)
}

/// `Keys::verify_dlog_proofs_check_against_vss`: fails where a proof is not
/// accepted. The call panics where the proofs or `ys` are not of length
/// `share_count`, where there are fewer schemes than that, or where a scheme
/// has more commitments than the first one, or the first one none.
#[verifier::external_body]
pub(crate) fn verify_dlog_proofs(
    threshold: u16,
    share_count: u16,
    proofs: &Vec<DLogProof>,
    ys: &Vec<CurvePoint>,
    schemes: &Vec<VerifiableSS>,
) -> (r: Result<(), ErrorType>)
    requires
        share_count >= 1,
        proofs@.len() == share_count,
        ys@.len() == share_count,
        schemes@.len() == share_count,
        schemes_fit(schemes@, threshold as int),
    ensures
        r is Ok <==> dlog_proofs_accepted(proofs@, ys@, commitment_lists(schemes@)),
{
    let params = Parameters { threshold, share_count };
    let proofs: Vec<_> = proofs.iter().map(|p| p.inner.clone()).collect();
    let ys: Vec<_> = ys.iter().map(|p| p.inner.clone()).collect();
    let schemes: Vec<_> = schemes.iter().map(|v| OutsideVss {
        parameters: v.parameters.clone(),
        commitments: v.commitments.iter().map(|p| p.inner.clone()).collect(),
    }).collect();
    party_i::Keys::verify_dlog_proofs_check_against_vss(&params, &proofs, &ys, &schemes)
}

/// `VerifiableSS::reconstruct` of `curv`: Lagrange interpolation at 0 through the
/// points `(indices[k] + 1, shares[k])`. The call panics where the two lists
/// differ in length, hold fewer than `threshold + 1` entries, or an index occurs
/// twice.
#[verifier::external_body]
pub(crate) fn reconstruct_secret(
    vss: &VerifiableSS,
    indices: &Vec<u16>,
    shares: &Vec<CurveScalar>,
) -> (r: CurveScalar)
    requires
        vss.parameters.threshold < u16::MAX,
        shares@.len() == indices@.len(),
        shares@.len() >= vss.parameters.threshold + 1,
        distinct(indices@),
        forall|k: int| 0 <= k < indices@.len() ==> indices@[k] < u16::MAX,
    ensures
        r == reconstructed_secret(indices@, shares@),
{
    let scheme = OutsideVss {
        parameters: vss.parameters.clone(),
        commitments: vss.commitments.iter().map(|p| p.inner.clone()).collect(),
    };
    let shares: Vec<_> = shares.iter().map(|x| x.inner.clone()).collect();
    CurveScalar { inner: scheme.reconstruct(indices, &shares) }
}

} // verus!
