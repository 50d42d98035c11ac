//! The signing operations of the protocol library, with what this crate relies
//! on of each.
//!
//! A check that depends on nothing but the values checked has a name here, and
//! the round functions say of every accepted input that the named check held.
//!
//! The operations sample below the moduli of the Paillier keys and statements
//! that they are given, reduce by them and invert modulo them. Each states what
//! it needs of them, and a round calls it only for a key that is well formed.

use crate::curve::{
    coprime, generator, generator_mul, point_is_identity, point_mul, point_sum, point_total,
    point_x, scalar_fold, scalar_is_zero, scalar_of_integer, scalar_product, scalar_sum,
    scalar_total, CurvePoint, CurveScalar,
};
use crate::material::{
    decryption_key_sound, encryption_key_sound, encryption_numbers, mta_ciphertext,
    mta_public_point, pedersen_commitment, statement_numbers, statement_sound, statements_sound,
    HomoELGamalProof, LocalSignature, PedersenProof, SignKeys, SignatureRecid, VerifiableSS,
};
use crate::party::{distinct, peer_position};
use curv::cryptographic_primitives::proofs::ProofError;
use curv::cryptographic_primitives::secret_sharing::feldman_vss;
use curv::BigInt;
use kzen_paillier::{DecryptionKey, EncryptionKey};
use multi_party_ecdsa::protocols::multi_party_ecdsa::gg_2020::party_i;
use multi_party_ecdsa::protocols::multi_party_ecdsa::gg_2020::party_i::{
    SignBroadcastPhase1, SignDecommitPhase1,
};
use multi_party_ecdsa::protocols::multi_party_ecdsa::gg_2020::ErrorType;
use multi_party_ecdsa::utilities::mta::{MessageA, MessageB};
use multi_party_ecdsa::utilities::zk_pdl_with_slack::PDLwSlackProof;
use multi_party_ecdsa::Error;
use vstd::prelude::*;
use zk_paillier::zkproofs::DLogStatement;

verus! {

/// The protocol library's error of a round: a text and the positions it blames,
/// neither of which it lets out.
#[verifier::external_type_specification]
#[verifier::external_body]
pub struct ExErrorType(ErrorType);

/// The protocol library's plain error.
#[verifier::external_type_specification]
#[verifier::external_body]
pub struct ExError(Error);

/// `curv`'s error of a proof that does not verify.
#[verifier::external_type_specification]
#[verifier::external_body]
pub struct ExProofError(ProofError);

/// The share `x_i` of the party at `position`, turned into its additive share
/// among the signers at the positions `s`.
pub uninterp spec fn restricted_share(position: u16, s: Seq<u16>, x_i: CurveScalar) -> CurveScalar;

/// Whether the range proofs of a share conversion request verify under the
/// requester's key `ek` and the parties' statements.
pub uninterp spec fn mta_request_accepted(
    request: MessageA,
    ek: EncryptionKey,
    statements: Seq<DLogStatement>,
) -> bool;

/// The requester's additive share of a share conversion, where the response
/// verifies.
pub uninterp spec fn mta_alpha(response: MessageB, dk: DecryptionKey, a: CurveScalar) -> Option<
    CurveScalar,
>;

/// The public points `w_j * G` of the signers at the positions `s`, from the
/// public shares `pk_vec` of all parties.
pub uninterp spec fn public_w_points(pk_vec: Seq<CurvePoint>, s: Seq<u16>) -> Seq<CurvePoint>;

/// The sums `a[0] + b[0]`, `a[1] + b[1]`, ..
pub open spec fn pairwise_sums(a: Seq<CurveScalar>, b: Seq<CurveScalar>) -> Seq<CurveScalar> {
    Seq::new(a.len(), |i: int| scalar_sum(a[i], b[i]))
}

/// `k_i * gamma_i + (alphas[0] + betas[0]) + ..`, added from the left.
pub open spec fn delta_share(
    k_i: CurveScalar,
    gamma_i: CurveScalar,
    alphas: Seq<CurveScalar>,
    betas: Seq<CurveScalar>,
) -> CurveScalar {
    scalar_fold(scalar_product(k_i, gamma_i), pairwise_sums(alphas, betas))
}

/// `k_i * w_i + (mus[0] + nus[0]) + ..`, added from the left.
pub open spec fn sigma_share(
    k_i: CurveScalar,
    w_i: CurveScalar,
    mus: Seq<CurveScalar>,
    nus: Seq<CurveScalar>,
) -> CurveScalar {
    scalar_fold(scalar_product(k_i, w_i), pairwise_sums(mus, nus))
}

/// The Paillier encryption of the scalar `a` under `ek` with the randomness
/// `randomness`.
pub uninterp spec fn paillier_encryption(
    ek: EncryptionKey,
    a: CurveScalar,
    randomness: BigInt,
) -> BigInt;

/// `request` is what the requester makes of its scalar `a` under its key `ek`,
/// for some choice of its randomness: an encryption of `a` with one range proof
/// for each of `statements`, in their order.
pub uninterp spec fn mta_request_made(
    request: MessageA,
    a: CurveScalar,
    ek: EncryptionKey,
    statements: Seq<DLogStatement>,
) -> bool;

/// `commitment` and `opening` are what a signer makes to commit to the point
/// `g_gamma_i`, for some choice of its randomness.
pub uninterp spec fn gamma_commitment_made(
    commitment: SignBroadcastPhase1,
    opening: SignDecommitPhase1,
    g_gamma_i: CurvePoint,
) -> bool;

/// The point that an opening of a commitment to `gamma_i * G` holds.
pub uninterp spec fn gamma_opening_point(opening: SignDecommitPhase1) -> CurvePoint;

/// The Pedersen commitment `m * G + blinding * H` to `m`.
pub uninterp spec fn pedersen_point(m: CurveScalar, blinding: CurveScalar) -> CurvePoint;

/// `response` and `share` are what the responder makes of the request for its
/// scalar `b` under the requester's key `ek`, for some choice of its
/// randomness: the response with the ciphertext of `b` times the request's
/// plaintext plus a blinding, and the negative of the blinding as the share.
pub uninterp spec fn mta_response_made(
    response: MessageB,
    share: CurveScalar,
    b: CurveScalar,
    ek: EncryptionKey,
    request: MessageA,
) -> bool;

/// `proof` is what the prover makes for the peer with `statement`, for some
/// choice of its randomness, of the claim that the ciphertext `c` under `ek`, made
/// with `randomness`, holds `k_i` with `r_dash = k_i * r`.
pub uninterp spec fn pdl_proof_made(
    proof: PDLwSlackProof,
    r_dash: CurvePoint,
    r: CurvePoint,
    c: BigInt,
    ek: EncryptionKey,
    k_i: CurveScalar,
    randomness: BigInt,
    statement: DLogStatement,
) -> bool;

/// `proof` is what the prover makes, for some choice of its randomness, of the
/// claim that `sigma * r` fits `r`, the commitment `t` and its blinding `l`.
pub uninterp spec fn elgamal_proof_made(
    proof: HomoELGamalProof,
    r: CurvePoint,
    t: CurvePoint,
    sigma: CurveScalar,
    l: CurveScalar,
) -> bool;

/// Whether a Pedersen proof verifies.
pub uninterp spec fn pedersen_proof_accepted(proof: PedersenProof) -> bool;

/// The inverse of the sum of `deltas`.
pub uninterp spec fn delta_inverse(deltas: Seq<CurveScalar>) -> CurveScalar;

/// The point `R`, the sum of the opened `gamma_j * G` times `delta_inv`, where
/// each peer's opening fits its commitment and the point of its share
/// conversion response, for the signer at `own`.
pub uninterp spec fn nonce_point(
    delta_inv: CurveScalar,
    responses: Seq<MessageB>,
    openings: Seq<SignDecommitPhase1>,
    commitments: Seq<SignBroadcastPhase1>,
    own: int,
) -> Option<CurvePoint>;

/// Whether the proofs that the signer at `i` sent to its peers verify: that the
/// ciphertext `c` under `ek` holds the discrete logarithm of `r_dash` to the base
/// `r`.
pub uninterp spec fn pdl_proofs_accepted(
    proofs: Seq<PDLwSlackProof>,
    r_dash: CurvePoint,
    r: CurvePoint,
    c: BigInt,
    ek: EncryptionKey,
    statements: Seq<DLogStatement>,
    s: Seq<u16>,
    i: int,
) -> bool;

/// The commitment `z` of a proof, where its serialisation shows one.
pub uninterp spec fn pdl_commitment(proof: PDLwSlackProof) -> Option<BigInt>;

/// The proof's commitment has an inverse modulo the `N~` of `statement`.
pub open spec fn pdl_proof_passable(proof: PDLwSlackProof, statement: DLogStatement) -> bool {
    pdl_commitment(proof) matches Some(z) && coprime(z, statement_numbers(statement).n_tilde)
}

/// The proofs of the signer at `i` can be put to the check: they are one for
/// each peer, the ciphertext has an inverse modulo the square of the signer's
/// Paillier modulus, and each proof's commitment has one modulo the `N~` of the
/// peer it is for. The check inverts both and panics where it cannot.
pub open spec fn pdl_proofs_passable(
    proofs: Seq<PDLwSlackProof>,
    c: BigInt,
    ek: EncryptionKey,
    statements: Seq<DLogStatement>,
    s: Seq<u16>,
    i: int,
) -> bool {
    &&& proofs.len() == s.len() - 1
    &&& coprime(c, encryption_numbers(ek).nn)
    &&& forall|j: int|
        0 <= j < proofs.len() ==> pdl_proof_passable(
            #[trigger] proofs[j],
            statements[s[peer_position(j, i)] as int],
        )
}

/// Whether the points `r_dashes`, at least one, add up to the generator.
pub open spec fn r_dash_sum_accepted(r_dashes: Seq<CurvePoint>) -> bool {
    point_total(r_dashes) == generator()
}

/// Whether each proof `proofs[i]` verifies for `ss[i]`, `rs[i]` and `ts[i]`.
pub uninterp spec fn elgamal_proofs_accepted(
    ss: Seq<CurvePoint>,
    proofs: Seq<HomoELGamalProof>,
    rs: Seq<CurvePoint>,
    ts: Seq<CurvePoint>,
) -> bool;

/// Whether the points `ss`, at least one, add up to `y`.
pub open spec fn s_sum_accepted(y: CurvePoint, ss: Seq<CurvePoint>) -> bool {
    point_total(ss) == y
}

/// A signer's part in the signature of `m`: the share `s_i = m * k_i + r *
/// sigma_i`, with `r` the x-coordinate of `r_point` modulo the group order, kept
/// together with `r`, `r_point`, `m` and the public key `y`.
pub uninterp spec fn local_signature_of(
    k_i: CurveScalar,
    m: BigInt,
    r_point: CurvePoint,
    sigma_i: CurveScalar,
    y: CurvePoint,
) -> LocalSignature;

/// The signature that the share `s_i` and the shares `others` add up to: `s` or
/// its negative, whichever is smaller, and the recovery identifier for it.
pub uninterp spec fn combined_signature(
    r_point: CurvePoint,
    s_i: CurveScalar,
    others: Seq<CurveScalar>,
) -> SignatureRecid;

/// Whether `(r, s)` is an ECDSA signature of `m` under the public key `y`.
pub uninterp spec fn ecdsa_accepted(
    r: CurveScalar,
    s: CurveScalar,
    y: CurvePoint,
    m: BigInt,
) -> bool;

/// The point `m * G + r * y`. The verification of a signature `(r, s)` divides it
/// by `s` and reads its x-coordinate.
pub open spec fn verification_point(r: CurveScalar, y: CurvePoint, m: BigInt) -> CurvePoint {
    point_sum(generator_mul(scalar_of_integer(m)), point_mul(y, r))
}

/// The verification of `(r, s)` for `m` under `y` is defined: `s` has an inverse
/// and the point of the verification has coordinates.
pub open spec fn verification_defined(
    r: CurveScalar,
    s: CurveScalar,
    y: CurvePoint,
    m: BigInt,
) -> bool {
    !scalar_is_zero(s) && !point_is_identity(verification_point(r, y, m))
}

/// `SignKeys::create`: `w_i` is the party's share times its Lagrange coefficient
/// among the signers, `gamma_i` and `k_i` are random, and the two points are the
/// generator's multiples by `w_i` and `gamma_i`. The call panics where `s` lacks
/// `position` or holds a position twice.
#[verifier::external_body]
pub(crate) fn create_sign_keys(
    x_i: &CurveScalar,
    vss: &VerifiableSS,
    position: u16,
    s: &Vec<u16>,
) -> (r: SignKeys)
    requires
        distinct(s@),
        s@.contains(position),
        forall|k: int| 0 <= k < s@.len() ==> s@[k] < u16::MAX,
    ensures
        r.w_i == restricted_share(position, s@, *x_i),
        r.g_w_i == generator_mul(r.w_i),
        r.g_gamma_i == generator_mul(r.gamma_i),
{
    let commitments = vss.commitments.iter().map(|p| p.inner.clone()).collect();
    let scheme = feldman_vss::VerifiableSS { parameters: vss.parameters.clone(), commitments };
    let s: Vec<usize> = s.iter().map(|&i| usize::from(i)).collect();
    let k = party_i::SignKeys::create(&x_i.inner, &scheme, usize::from(position), &s);
    SignKeys {
        w_i: CurveScalar { inner: k.w_i },
        g_w_i: CurvePoint { inner: k.g_w_i },
        k_i: CurveScalar { inner: k.k_i },
        gamma_i: CurveScalar { inner: k.gamma_i },
        g_gamma_i: CurvePoint { inner: k.g_gamma_i },
    }
}

/// `SignKeys::phase1_broadcast`: a commitment to `gamma_i * G` under a fresh
/// blinding factor, and its opening, which holds the session's `g_gamma_i`.
#[verifier::external_body]
pub(crate) fn commit_to_gamma(keys: &SignKeys) -> (r: (SignBroadcastPhase1, SignDecommitPhase1))
    ensures
        gamma_opening_point(r.1) == keys.g_gamma_i,
        gamma_commitment_made(r.0, r.1, keys.g_gamma_i),
{
    let k = party_i::SignKeys {
        w_i: keys.w_i.inner.clone(),
        g_w_i: keys.g_w_i.inner.clone(),
        k_i: keys.k_i.inner.clone(),
        gamma_i: keys.gamma_i.inner.clone(),
        g_gamma_i: keys.g_gamma_i.inner.clone(),
    };
    k.phase1_broadcast()
}

/// `MessageA::a`: an encryption of `a` under `ek` with fresh randomness, one
/// range proof for each statement, and the randomness. The call samples below
/// the key's modulus and below multiples of each `N~`, and reduces by them.
#[verifier::external_body]
pub(crate) fn mta_request(
    a: &CurveScalar,
    ek: &EncryptionKey,
    statements: &Vec<DLogStatement>,
) -> (r: (MessageA, BigInt))
    requires
        encryption_key_sound(*ek),
        statements_sound(statements@),
    ensures
        mta_ciphertext(r.0) == paillier_encryption(*ek, *a, r.1),
        mta_request_made(r.0, *a, *ek, statements@),
{
    MessageA::a(&a.inner, ek, statements)
}

/// `MessageB::b`: fails where a range proof of the request does not verify or
/// their number differs from that of the statements; else answers with a fresh
/// additive share and a response whose first proof is for the point `b * G`. The
/// call samples below the key's modulus and reduces by it, its square and each
/// `N~`. It raises to numbers of the range proofs; the protocol library keeps
/// them private, and neither makes nor reads one that is negative.
#[verifier::external_body]
pub(crate) fn mta_respond(
    b: &CurveScalar,
    ek: &EncryptionKey,
    request: MessageA,
    statements: &Vec<DLogStatement>,
) -> (r: Result<(MessageB, CurveScalar), Error>)
    requires
        encryption_key_sound(*ek),
        statements_sound(statements@),
    ensures
        r is Ok <==> mta_request_accepted(request, *ek, statements@),
        r matches Ok(p) ==> mta_public_point(p.0) == generator_mul(*b),
        r matches Ok(p) ==> mta_response_made(p.0, p.1, *b, *ek, request),
{
    let (m_b, beta, _, _) = MessageB::b(&b.inner, ek, request, statements)?;
    Ok((m_b, CurveScalar { inner: beta }))
}

/// `MessageB::verify_proofs_get_alpha`: decrypts the response and checks its two
/// proofs against the plaintext; the share where they hold. The decryption
/// divides by the factors of the modulus and inverts one modulo the other.
#[verifier::external_body]
pub(crate) fn mta_finish(response: &MessageB, dk: &DecryptionKey, a: &CurveScalar) -> (r: Result<
    CurveScalar,
    Error,
>)
    requires
        decryption_key_sound(*dk),
    ensures
        r matches Ok(alpha) ==> mta_alpha(*response, *dk, *a) == Some(alpha),
        r is Err ==> mta_alpha(*response, *dk, *a) is None,
{
    let (alpha, _) = response.verify_proofs_get_alpha(dk, &a.inner)?;
    Ok(CurveScalar { inner: alpha })
}

/// `SignKeys::g_w_vec`: for each signer its public share times its Lagrange
/// coefficient among the signers. The call indexes `pk_vec` by the positions
/// and panics where one occurs twice.
#[verifier::external_body]
pub(crate) fn expected_w_points(pk_vec: &Vec<CurvePoint>, s: &Vec<u16>, vss: &VerifiableSS) -> (r:
    Vec<CurvePoint>)
    requires
        distinct(s@),
        forall|k: int| 0 <= k < s@.len() ==> s@[k] < pk_vec@.len() && s@[k] < u16::MAX,
    ensures
        r@ == public_w_points(pk_vec@, s@),
        r@.len() == s@.len(),
{
    let commitments = vss.commitments.iter().map(|p| p.inner.clone()).collect();
    let scheme = feldman_vss::VerifiableSS { parameters: vss.parameters.clone(), commitments };
    let pks: Vec<_> = pk_vec.iter().map(|p| p.inner.clone()).collect();
    let s: Vec<usize> = s.iter().map(|&i| usize::from(i)).collect();
    let points = party_i::SignKeys::g_w_vec(&pks, &s, &scheme);
    points.into_iter().map(|p| CurvePoint { inner: p }).collect()
}

/// `SignKeys::phase2_delta_i`: to `k_i * gamma_i` the sums `alphas[j] + betas[j]`
/// are added one after the other.
/// The call panics where the two lists differ in length.
#[verifier::external_body]
pub(crate) fn compute_delta_share(
    keys: &SignKeys,
    alphas: &Vec<CurveScalar>,
    betas: &Vec<CurveScalar>,
) -> (r: CurveScalar)
    requires
        alphas@.len() == betas@.len(),
    ensures
        r == scalar_fold(
            scalar_product(keys.k_i, keys.gamma_i),
            pairwise_sums(alphas@, betas@),
        ),
{
    let k = party_i::SignKeys {
        w_i: keys.w_i.inner.clone(),
        g_w_i: keys.g_w_i.inner.clone(),
        k_i: keys.k_i.inner.clone(),
        gamma_i: keys.gamma_i.inner.clone(),
        g_gamma_i: keys.g_gamma_i.inner.clone(),
    };
    let alphas: Vec<_> = alphas.iter().map(|x| x.inner.clone()).collect();
    let betas: Vec<_> = betas.iter().map(|x| x.inner.clone()).collect();
    CurveScalar { inner: k.phase2_delta_i(&alphas, &betas) }
}

/// `SignKeys::phase2_sigma_i`: to `k_i * w_i` the sums `mus[j] + nus[j]` are added
/// one after the other. The call
/// panics where the two lists differ in length.
#[verifier::external_body]
pub(crate) fn compute_sigma_share(
    keys: &SignKeys,
    mus: &Vec<CurveScalar>,
    nus: &Vec<CurveScalar>,
) -> (r: CurveScalar)
    requires
        mus@.len() == nus@.len(),
    ensures
        r == scalar_fold(scalar_product(keys.k_i, keys.w_i), pairwise_sums(mus@, nus@)),
{
    let k = party_i::SignKeys {
        w_i: keys.w_i.inner.clone(),
        g_w_i: keys.g_w_i.inner.clone(),
        k_i: keys.k_i.inner.clone(),
        gamma_i: keys.gamma_i.inner.clone(),
        g_gamma_i: keys.g_gamma_i.inner.clone(),
    };
    let mus: Vec<_> = mus.iter().map(|x| x.inner.clone()).collect();
    let nus: Vec<_> = nus.iter().map(|x| x.inner.clone()).collect();
    CurveScalar { inner: k.phase2_sigma_i(&mus, &nus) }
}

/// `SignKeys::phase3_compute_t_i`: a Pedersen commitment to `sigma_i` under a
/// fresh blinding scalar, the scalar, and a proof for the commitment: the proof
/// is made for `sigma_i` and the scalar, and speaks of the same point.
#[verifier::external_body]
pub(crate) fn commit_to_sigma(sigma_i: &CurveScalar) -> (r: (
    CurvePoint,
    CurveScalar,
    PedersenProof,
))
    ensures
        r.0 == pedersen_point(*sigma_i, r.1),
        r.0 == pedersen_commitment(r.2),
{
    let (t, l, proof) = party_i::SignKeys::phase3_compute_t_i(&sigma_i.inner);
    (CurvePoint { inner: t }, CurveScalar { inner: l }, PedersenProof { inner: proof })
}

/// `PedersenProof::verify` of `curv`.
#[verifier::external_body]
pub(crate) fn verify_pedersen_proof(proof: &PedersenProof) -> (r: Result<(), ProofError>)
    ensures
        r is Ok <==> pedersen_proof_accepted(*proof),
{
    curv::cryptographic_primitives::proofs::sigma_valid_pedersen::PedersenProof::verify(
        &proof.inner,
    )
}

/// `SignKeys::phase3_reconstruct_delta`: the inverse of the sum of `deltas`. The
/// call panics where the sum is zero.
#[verifier::external_body]
pub(crate) fn invert_delta(deltas: &Vec<CurveScalar>) -> (r: CurveScalar)
    requires
        deltas@.len() >= 1,
        !scalar_is_zero(scalar_total(deltas@)),
    ensures
        r == delta_inverse(deltas@),
{
    let deltas: Vec<_> = deltas.iter().map(|x| x.inner.clone()).collect();
    CurveScalar { inner: party_i::SignKeys::phase3_reconstruct_delta(&deltas) }
}

/// `SignKeys::phase4`: fails where a peer's opening does not fit its commitment
/// or the point of its response; else the sum of all opened points times
/// `delta_inv`. The call indexes the openings and commitments at each peer's
/// position and panics where the openings are empty.
#[verifier::external_body]
pub(crate) fn compute_nonce_point(
    delta_inv: &CurveScalar,
    responses: &Vec<MessageB>,
    openings: Vec<SignDecommitPhase1>,
    commitments: &Vec<SignBroadcastPhase1>,
    own: usize,
) -> (r: Result<CurvePoint, ErrorType>)
    requires
        openings@.len() >= 1,
        forall|j: int|
            0 <= j < responses@.len() ==> peer_position(j, own as int) < openings@.len()
                && peer_position(j, own as int) < commitments@.len(),
    ensures
        r matches Ok(p) ==> nonce_point(*delta_inv, responses@, openings@, commitments@, own as int)
            == Some(p),
        r is Err ==> nonce_point(*delta_inv, responses@, openings@, commitments@, own as int)
            is None,
{
    let proofs: Vec<_> = responses.iter().map(|m| &m.b_proof).collect();
    let r = party_i::SignKeys::phase4(&delta_inv.inner, &proofs, openings, commitments, own)?;
    Ok(CurvePoint { inner: r })
}

/// `LocalSignature::phase5_proof_pdl`: a proof for the peer with `statement` that
/// the ciphertext `c` under `ek`, made with `randomness`, holds `k_i`, the
/// discrete logarithm of `r_dash` to the base `r`. The call samples between 1 and
/// the key's modulus and below multiples of `N~`, and reduces by them.
#[verifier::external_body]
pub(crate) fn prove_pdl(
    r_dash: &CurvePoint,
    r: &CurvePoint,
    c: &BigInt,
    ek: &EncryptionKey,
    k_i: &CurveScalar,
    randomness: &BigInt,
    statement: &DLogStatement,
) -> (proof: PDLwSlackProof)
    requires
        encryption_key_sound(*ek),
        statement_sound(*statement),
    ensures
        pdl_proof_made(proof, *r_dash, *r, *c, *ek, *k_i, *randomness, *statement),
{
    party_i::LocalSignature::phase5_proof_pdl(
        &r_dash.inner,
        &r.inner,
        c,
        ek,
        &k_i.inner,
        randomness,
        statement,
    )
}

/// The field `z` of the protocol library's `PDLwSlackProof`, which is private:
/// read from the proof's serialisation by `serde_json`.
#[verifier::external_body]
pub(crate) fn read_pdl_commitment(proof: &PDLwSlackProof) -> (r: Option<BigInt>)
    ensures
        r == pdl_commitment(*proof),
{
    let fields = serde_json::to_value(proof).ok()?;
    serde_json::from_value(fields.get("z")?.clone()).ok()
}

/// `LocalSignature::phase5_verify_pdl`: fails where one of the proofs does not
/// verify under the statement of the peer it is for. The call indexes
/// `statements` by the positions `s`, reduces by the square of the key's modulus
/// and by each `N~`, and inverts the ciphertext and each proof's commitment. It
/// raises to other numbers of the proofs; the protocol
/// library keeps them private, and neither makes nor reads one that is negative.
#[verifier::external_body]
pub(crate) fn verify_pdl(
    proofs: &Vec<PDLwSlackProof>,
    r_dash: &CurvePoint,
    r: &CurvePoint,
    c: &BigInt,
    ek: &EncryptionKey,
    statements: &Vec<DLogStatement>,
    s: &Vec<u16>,
    i: usize,
) -> (res: Result<(), ErrorType>)
    requires
        s@.len() >= 1,
        i < s@.len(),
        forall|k: int| 0 <= k < s@.len() ==> s@[k] < statements@.len(),
        encryption_key_sound(*ek),
        statements_sound(statements@),
        pdl_proofs_passable(proofs@, *c, *ek, statements@, s@, i as int),
    ensures
        res is Ok <==> pdl_proofs_accepted(
            proofs@,
            *r_dash,
            *r,
            *c,
            *ek,
            statements@,
            s@,
            i as int,
        ),
{
    let s: Vec<usize> = s.iter().map(|&i| usize::from(i)).collect();
    party_i::LocalSignature::phase5_verify_pdl(
        proofs,
        &r_dash.inner,
        &r.inner,
        c,
        ek,
        statements,
        &s,
        i,
    )
}

/// `LocalSignature::phase5_check_R_dash_sum`: whether the points add up to the
/// generator. The call adds them to the generator and takes it off again.
#[verifier::external_body]
pub(crate) fn check_r_dash_sum(r_dashes: &Vec<CurvePoint>) -> (res: Result<(), Error>)
    requires
        r_dashes@.len() >= 1,
    ensures
        res is Ok <==> r_dash_sum_accepted(r_dashes@),
{
    let points: Vec<_> = r_dashes.iter().map(|p| p.inner.clone()).collect();
    party_i::LocalSignature::phase5_check_R_dash_sum(&points)
}

/// `LocalSignature::phase6_compute_S_i_and_proof_of_consistency`: the point
/// `sigma_i * R` and a proof that it fits `R`, `T_i` and the blinding scalar.
#[verifier::external_body]
pub(crate) fn compute_s_point(
    r: &CurvePoint,
    t_i: &CurvePoint,
    sigma_i: &CurveScalar,
    l_i: &CurveScalar,
) -> (res: (CurvePoint, HomoELGamalProof))
    ensures
        res.0 == point_mul(*r, *sigma_i),
        elgamal_proof_made(res.1, *r, *t_i, *sigma_i, *l_i),
{
    let (s, proof) = party_i::LocalSignature::phase6_compute_S_i_and_proof_of_consistency(
        &r.inner,
        &t_i.inner,
        &sigma_i.inner,
        &l_i.inner,
    );
    (CurvePoint { inner: s }, HomoELGamalProof { inner: proof })
}

/// `LocalSignature::phase6_verify_proof`: fails where one of the proofs does not
/// verify. The call indexes the three lists of points by the proofs.
#[verifier::external_body]
pub(crate) fn verify_s_points(
    ss: &Vec<CurvePoint>,
    proofs: &Vec<HomoELGamalProof>,
    rs: &Vec<CurvePoint>,
    ts: &Vec<CurvePoint>,
) -> (res: Result<(), ErrorType>)
    requires
        proofs@.len() <= ss@.len(),
        proofs@.len() <= rs@.len(),
        proofs@.len() <= ts@.len(),
    ensures
        res is Ok <==> elgamal_proofs_accepted(ss@, proofs@, rs@, ts@),
{
    let ss: Vec<_> = ss.iter().map(|p| p.inner.clone()).collect();
    let proofs: Vec<_> = proofs.iter().map(|p| p.inner.clone()).collect();
    let rs: Vec<_> = rs.iter().map(|p| p.inner.clone()).collect();
    let ts: Vec<_> = ts.iter().map(|p| p.inner.clone()).collect();
    party_i::LocalSignature::phase6_verify_proof(&ss, &proofs, &rs, &ts)
}

/// `LocalSignature::phase6_check_S_i_sum`: whether the points add up to `y`. The
/// call adds them to the generator and takes it off again.
#[verifier::external_body]
pub(crate) fn check_s_sum(y: &CurvePoint, ss: &Vec<CurvePoint>) -> (res: Result<(), Error>)
    requires
        ss@.len() >= 1,
    ensures
        res is Ok <==> s_sum_accepted(*y, ss@),
{
    let ss: Vec<_> = ss.iter().map(|p| p.inner.clone()).collect();
    party_i::LocalSignature::phase6_check_S_i_sum(&y.inner, &ss)
}

/// `LocalSignature::phase7_local_sig`: the signer's share of `s` for the message
/// `m`, with `r`, `R`, `m` and the public key. The call panics where `R` has no
/// x-coordinate.
#[verifier::external_body]
pub(crate) fn compute_local_signature(
    k_i: &CurveScalar,
    m: &BigInt,
    r_point: &CurvePoint,
    sigma_i: &CurveScalar,
    y: &CurvePoint,
) -> (sig: LocalSignature)
    requires
        point_x(*r_point) is Some,
    ensures
        sig == local_signature_of(*k_i, *m, *r_point, *sigma_i, *y),
        sig.r_point == *r_point,
        sig.m == *m,
        sig.y == *y,
{
    let sig = party_i::LocalSignature::phase7_local_sig(
        &k_i.inner,
        m,
        &r_point.inner,
        &sigma_i.inner,
        &y.inner,
    );
    LocalSignature {
        r: CurveScalar { inner: sig.r },
        r_point: CurvePoint { inner: sig.R },
        s_i: CurveScalar { inner: sig.s_i },
        m: sig.m,
        y: CurvePoint { inner: sig.y },
    }
}

/// `verify` of the protocol library: whether the signature verifies for `m`
/// under `y`. The call panics where `s` is zero or the point of the verification
/// has no coordinates.
#[verifier::external_body]
pub(crate) fn verify_ecdsa(sig: &SignatureRecid, y: &CurvePoint, m: &BigInt) -> (res: Result<
    (),
    Error,
>)
    requires
        verification_defined(sig.r, sig.s, *y, *m),
    ensures
        res is Ok <==> ecdsa_accepted(sig.r, sig.s, *y, *m),
{
    let sig = party_i::SignatureRecid {
        r: sig.r.inner.clone(),
        s: sig.s.inner.clone(),
        recid: sig.recid,
    };
    party_i::verify(&sig, &y.inner, m)
}

/// `LocalSignature::output_signature`: adds the shares `others` to the signer's
/// own, takes the smaller of `s` and its negative, reads `r` from `R`, and
/// returns the signature where `verify` accepts it for the message under the
/// public key: `r` is the x-coordinate of `R` modulo the group order, `s` is not
/// zero, and the recovery identifier is 0 or 1. The call panics where `R` has no
/// coordinates, the shares add up to zero, or the point of the verification has
/// no coordinates.
#[verifier::external_body]
pub(crate) fn combine_signature(local: &LocalSignature, others: &Vec<CurveScalar>) -> (res: Result<
    SignatureRecid,
    Error,
>)
    requires
        point_x(local.r_point) matches Some(x) && !point_is_identity(
            verification_point(scalar_of_integer(x), local.y, local.m),
        ),
        !scalar_is_zero(scalar_fold(local.s_i, others@)),
    ensures
        res matches Ok(sig) ==> sig == combined_signature(local.r_point, local.s_i, others@)
            && ecdsa_accepted(sig.r, sig.s, local.y, local.m),
        res is Err ==> !ecdsa_accepted(
            combined_signature(local.r_point, local.s_i, others@).r,
            combined_signature(local.r_point, local.s_i, others@).s,
            local.y,
            local.m,
        ),
        res matches Ok(sig) ==> sig.recid <= 1 && !scalar_is_zero(sig.s),
        res matches Ok(sig) ==> sig.r == scalar_of_integer(point_x(local.r_point).unwrap()),
{
    let sig = party_i::LocalSignature {
        r: local.r.inner.clone(),
        R: local.r_point.inner.clone(),
        s_i: local.s_i.inner.clone(),
        m: local.m.clone(),
        y: local.y.inner.clone(),
    };
    let others: Vec<_> = others.iter().map(|x| x.inner.clone()).collect();
    let out = sig.output_signature(&others)?;
    Ok(SignatureRecid {
        r: CurveScalar { inner: out.r },
        s: CurveScalar { inner: out.s },
        recid: out.recid,
    })
}

} // verus!
