//! The message-independent rounds of signing.
//!
//! Each round takes the signer's own state and what its peers sent in the round
//! before, checks it, and returns the next state and what is to be sent on. Lists
//! ordered by signer follow `parties`; `index` is the signer's place in `parties`,
//! counted from 1, and lists of a signer's peers leave the signer itself out.

use crate::curve::{
    are_coprime, generator_mul, is_zero_scalar, mul_point, point_mul, same_point, scalar_is_zero,
    scalar_total, total_scalars, CurvePoint, CurveScalar,
};
use crate::errors::{ErrorKind, Stage, StageError};
use crate::material::{
    mta_ciphertext, mta_public_point, pedersen_commitment, read_encryption_key, read_statement,
    request_ciphertext, response_public_point, single, CompletedOfflineStage, HomoELGamalProof,
    LocalKey, PedersenProof, SignKeys,
};
use crate::party::{
    check_signers_named, check_signing_subset, distinct, everyone, everyone_of,
    lemma_distinct_count, lemma_peer_excludes_self, lemma_positions, peer, peer_position, peers,
    peers_of, positions, positions_of, signers_named, signing_subset,
};
use crate::sign_calls::{
    check_r_dash_sum, check_s_sum, commit_to_gamma, commit_to_sigma, compute_delta_share,
    compute_nonce_point, compute_s_point, compute_sigma_share, create_sign_keys, delta_inverse,
    delta_share, elgamal_proof_made, elgamal_proofs_accepted, expected_w_points,
    gamma_commitment_made, gamma_opening_point, invert_delta, mta_alpha, mta_finish, mta_request,
    mta_request_accepted, mta_request_made, mta_respond, mta_response_made, nonce_point,
    paillier_encryption, pdl_proof_made, pdl_proof_passable, pdl_proofs_accepted,
    pdl_proofs_passable, pedersen_point, pedersen_proof_accepted, prove_pdl, public_w_points,
    r_dash_sum_accepted, read_pdl_commitment, restricted_share, s_sum_accepted, sigma_share,
    verify_pdl, verify_pedersen_proof, verify_s_points,
};
use crate::verdict::{
    first_failure, lemma_first_failure, lemma_first_failure_push, verdict, verdict_of,
};
use curv::BigInt;
use kzen_paillier::EncryptionKey;
use multi_party_ecdsa::protocols::multi_party_ecdsa::gg_2020::party_i::{
    SignBroadcastPhase1, SignDecommitPhase1,
};
use multi_party_ecdsa::utilities::mta::{MessageA, MessageB};
use multi_party_ecdsa::utilities::zk_pdl_with_slack::PDLwSlackProof;
use vstd::prelude::*;
use zk_paillier::zkproofs::DLogStatement;

verus! {

/// What is wrong with a signer's place among the signers `parties` of `key`, if
/// anything: a key that is not well formed is malformed input; signers that are
/// no signing subset for the key, or an `index` that is no place in `parties`,
/// break the protocol's shape.
pub open spec fn signers_fault(
    stage: Stage,
    index: u16,
    parties: Seq<u16>,
    key: LocalKey,
) -> Option<StageError> {
    if !key.wf() {
        Some(StageError::malformed(stage))
    } else if !signing_subset(parties, key.t as int, key.n as int) || index < 1 || index
        > parties.len() {
        Some(StageError::shape(stage))
    } else {
        None
    }
}

/// Finds what is wrong with a signer's place among the signers, if anything.
pub fn check_signers(stage: Stage, index: u16, parties: &Vec<u16>, key: &LocalKey) -> (r: Option<
    StageError,
>)
    ensures
        r == signers_fault(stage, index, parties@, *key),
{
    if !key.is_well_formed() {
        Some(StageError::malformed(stage))
    } else if !check_signing_subset(parties, key.t, key.n as usize) || index < 1 || index as usize
        > parties.len() {
        Some(StageError::shape(stage))
    } else {
        None
    }
}

/// The positions of the signers among all parties, for signers that fit the key.
fn signer_positions(parties: &Vec<u16>, key: &LocalKey) -> (s: Vec<u16>)
    requires
        key.wf(),
        signing_subset(parties@, key.t as int, key.n as int),
    ensures
        s@ == positions_of(parties@),
        s@.len() == parties@.len(),
        distinct(s@),
        forall|k: int| 0 <= k < s@.len() ==> #[trigger] s@[k] < key.n,
        forall|k: int| 0 <= k < s@.len() ==> #[trigger] s@[k] == parties@[k] - 1,
{
    proof {
        lemma_positions(parties@, key.n as int);
    }
    match positions(parties) {
        Some(s) => s,
        None => Vec::new(),
    }
}

/// What the first round of signing takes: the signer's place in `parties`, the
/// signers, and the signer's key.
#[derive(Clone, Debug)]
pub struct Secp256k1SignStage1Input {
    pub index: u16,
    pub parties: Vec<u16>,
    pub local_key: LocalKey,
}

/// What the first round of signing returns: the request of the share conversions
/// with the randomness of its encryption, the session's values, and the
/// commitment to `gamma_i * G` with its opening.
#[derive(Debug)]
pub struct Secp256k1SignStage1Output {
    pub m_a: (MessageA, BigInt),
    pub sign_key: SignKeys,
    pub bc1: SignBroadcastPhase1,
    pub decom1: SignDecommitPhase1,
}

impl Clone for Secp256k1SignStage1Output {
    fn clone(&self) -> (r: Self) {
        Secp256k1SignStage1Output {
            m_a: (self.m_a.0.clone(), self.m_a.1.clone()),
            sign_key: self.sign_key.clone(),
            bc1: self.bc1.clone(),
            decom1: self.decom1.clone(),
        }
    }
}

impl Secp256k1SignStage1Input {
    /// The failure that the round answers the input with, if any: a signer that
    /// does not fit the key.
    pub open spec fn fault(&self) -> Option<StageError> {
        signers_fault(Stage::Sign1, self.index, self.parties@, self.local_key)
    }

    /// The signer's position among all parties.
    pub open spec fn own_position(&self) -> u16 {
        positions_of(self.parties@)[self.index - 1]
    }
}

/// Opens a signing session: makes the session's values and the first messages.
///
/// Returns the session's `SignKeys`, whose `w_i` is the signer's share `x_i`
/// turned into an additive share among the signers, with fresh `k_i` and
/// `gamma_i`; a commitment to `gamma_i * G` with its opening, which holds that
/// point; and the request of the share conversions, whose ciphertext is the
/// encryption of `k_i` under the signer's own Paillier key with the randomness
/// that is returned with it. Fails as
/// [`Secp256k1SignStage1Input::fault`] says.
pub fn secp256k1_sign_stage1(input: Secp256k1SignStage1Input) -> (res: Result<
    Secp256k1SignStage1Output,
    StageError,
>)
    ensures
        res is Ok <==> input.fault() is None,
        res matches Err(e) ==> input.fault() == Some(e),
        res matches Ok(out) ==> {
            &&& out.sign_key.w_i == restricted_share(
                input.own_position(),
                positions_of(input.parties@),
                input.local_key.keys_linear.x_i,
            )
            &&& out.sign_key.g_w_i == generator_mul(out.sign_key.w_i)
            &&& out.sign_key.g_gamma_i == generator_mul(out.sign_key.gamma_i)
            &&& gamma_opening_point(out.decom1) == out.sign_key.g_gamma_i
            &&& gamma_commitment_made(out.bc1, out.decom1, out.sign_key.g_gamma_i)
            &&& mta_request_made(
                out.m_a.0,
                out.sign_key.k_i,
                input.local_key.own_key(),
                input.local_key.h1_h2_n_tilde_vec@,
            )
            &&& mta_ciphertext(out.m_a.0) == paillier_encryption(
                input.local_key.own_key(),
                out.sign_key.k_i,
                out.m_a.1,
            )
        },
{
    match check_signers(Stage::Sign1, input.index, &input.parties, &input.local_key) {
        Some(e) => {
            return Err(e);
        },
        None => {},
    }
    let s = signer_positions(&input.parties, &input.local_key);
    let own: usize = (input.index - 1) as usize;
    proof {
        assert(s@[own as int] < input.local_key.n);
        assert forall|k: int| 0 <= k < s@.len() implies s@[k] < u16::MAX by {
            assert(s@[k] < input.local_key.n);
        }
    }
    let sign_key = create_sign_keys(
        &input.local_key.keys_linear.x_i,
        &input.local_key.vss_scheme,
        s[own],
        &s,
    );
    let (bc1, decom1) = commit_to_gamma(&sign_key);
    let ek = &input.local_key.paillier_key_vec[(input.local_key.i - 1) as usize];
    let m_a = mta_request(&sign_key.k_i, ek, &input.local_key.h1_h2_n_tilde_vec);
    Ok(Secp256k1SignStage1Output { m_a, sign_key, bc1, decom1 })
}

/// What the second round of signing takes: the requests `m_as` of all signers,
/// in the order of `parties`, and the session's values.
#[derive(Clone, Debug)]
pub struct Secp256k1SignStage2Input {
    pub index: u16,
    pub parties: Vec<u16>,
    pub local_key: LocalKey,
    pub m_as: Vec<MessageA>,
    pub sign_key: SignKeys,
}

/// What the second round of signing returns, one entry for each peer in order:
/// the shares `betas` and `nis` to keep, and the responses to send back.
#[derive(Clone, Debug)]
pub struct Secp256k1SignStage2Output {
    pub betas: Vec<CurveScalar>,
    pub nis: Vec<CurveScalar>,
    pub m_b_gammas: Vec<MessageB>,
    pub m_b_ws: Vec<MessageB>,
}

impl Secp256k1SignStage2Input {
    /// The position among the signers of the `j`-th peer.
    pub open spec fn peer_at(&self, j: int) -> int {
        peer_position(j, self.index - 1)
    }

    /// The Paillier key of the `j`-th peer.
    pub open spec fn peer_key(&self, j: int) -> EncryptionKey {
        self.local_key.paillier_key_vec@[positions_of(self.parties@)[self.peer_at(j)] as int]
    }

    /// Whether the request of the `j`-th peer verifies under that peer's Paillier
    /// key.
    pub open spec fn peer_accepted(&self, j: int) -> bool {
        mta_request_accepted(
            self.m_as@[self.peer_at(j)],
            self.peer_key(j),
            self.local_key.h1_h2_n_tilde_vec@,
        )
    }

    /// `out` holds, for each peer in order, what the signer makes of that peer's
    /// request: for `gamma_i` the response in `m_b_gammas` with the share in
    /// `betas`, and for `w_i` the response in `m_b_ws` with the share in `nis`.
    pub open spec fn answered_by(&self, out: Secp256k1SignStage2Output) -> bool {
        &&& out.betas@.len() == self.parties@.len() - 1
        &&& out.nis@.len() == self.parties@.len() - 1
        &&& out.m_b_gammas@.len() == self.parties@.len() - 1
        &&& out.m_b_ws@.len() == self.parties@.len() - 1
        &&& forall|j: int|
            0 <= j < self.parties@.len() - 1 ==> mta_response_made(
                #[trigger] out.m_b_gammas@[j],
                out.betas@[j],
                self.sign_key.gamma_i,
                self.peer_key(j),
                self.m_as@[self.peer_at(j)],
            ) && mta_public_point(out.m_b_gammas@[j]) == generator_mul(self.sign_key.gamma_i)
        &&& forall|j: int|
            0 <= j < self.parties@.len() - 1 ==> mta_response_made(
                #[trigger] out.m_b_ws@[j],
                out.nis@[j],
                self.sign_key.w_i,
                self.peer_key(j),
                self.m_as@[self.peer_at(j)],
            ) && mta_public_point(out.m_b_ws@[j]) == generator_mul(self.sign_key.w_i)
    }

    /// For each peer, whether its request verifies.
    pub open spec fn peers_accepted(&self) -> Seq<bool> {
        Seq::new((self.parties@.len() - 1) as nat, |j: int| self.peer_accepted(j))
    }

    /// The failure that the round answers the input with, if any: a signer that
    /// does not fit the key, requests that are not one for each signer, or the
    /// first peer whose request does not verify.
    pub open spec fn fault(&self) -> Option<StageError> {
        let placed = signers_fault(Stage::Sign2, self.index, self.parties@, self.local_key);
        if placed is Some {
            placed
        } else if self.m_as@.len() != self.parties@.len() {
            Some(StageError::malformed(Stage::Sign2))
        } else {
            verdict_of(
                Stage::Sign2,
                ErrorKind::Verification,
                self.parties@,
                peers_of(self.parties@.len() as int, self.index - 1),
                self.peers_accepted(),
            )
        }
    }
}

/// Answers each peer's share conversion request twice: once for `gamma_i` and
/// once for `w_i`.
///
/// Returns, for each peer in order, the two responses to send back and the two
/// additive shares to keep, as [`Secp256k1SignStage2Input::answered_by`] says.
/// Each response proves knowledge of the scalar it was made for. Fails as
/// [`Secp256k1SignStage2Input::fault`] says.
pub fn secp256k1_sign_stage2(input: Secp256k1SignStage2Input) -> (res: Result<
    Secp256k1SignStage2Output,
    StageError,
>)
    ensures
        res is Ok <==> input.fault() is None,
        res matches Err(e) ==> input.fault() == Some(e),
        res matches Ok(out) ==> input.answered_by(out),
{
    match check_signers(Stage::Sign2, input.index, &input.parties, &input.local_key) {
        Some(e) => {
            return Err(e);
        },
        None => {},
    }
    let m: usize = input.parties.len();
    if input.m_as.len() != m {
        return Err(StageError::malformed(Stage::Sign2));
    }
    let s = signer_positions(&input.parties, &input.local_key);
    let own: usize = (input.index - 1) as usize;
    let others = peers(m, own);
    let mut accepted: Vec<bool> = Vec::new();
    let mut betas: Vec<CurveScalar> = Vec::new();
    let mut nis: Vec<CurveScalar> = Vec::new();
    let mut m_b_gammas: Vec<MessageB> = Vec::new();
    let mut m_b_ws: Vec<MessageB> = Vec::new();
    let mut j: usize = 0;
    while j < m - 1
        invariant
            input.local_key.wf(),
            m == input.parties@.len(),
            input.m_as@.len() == m,
            own == input.index - 1,
            own < m,
            others@ == peers_of(m as int, own as int),
            others@.len() == m - 1,
            s@ == positions_of(input.parties@),
            s@.len() == m,
            forall|k: int| 0 <= k < s@.len() ==> #[trigger] s@[k] < input.local_key.n,
            0 <= j <= m - 1,
            accepted@.len() == j,
            forall|k: int| 0 <= k < j ==> accepted@[k] == input.peer_accepted(k),
            betas@.len() == m_b_gammas@.len(),
            nis@.len() == m_b_gammas@.len(),
            m_b_ws@.len() == m_b_gammas@.len(),
            first_failure(accepted@) == j ==> {
                &&& m_b_gammas@.len() == j
                &&& forall|k: int|
                    0 <= k < j ==> mta_response_made(
                        #[trigger] m_b_gammas@[k],
                        betas@[k],
                        input.sign_key.gamma_i,
                        input.peer_key(k),
                        input.m_as@[input.peer_at(k)],
                    ) && mta_public_point(m_b_gammas@[k]) == generator_mul(input.sign_key.gamma_i)
                &&& forall|k: int|
                    0 <= k < j ==> mta_response_made(
                        #[trigger] m_b_ws@[k],
                        nis@[k],
                        input.sign_key.w_i,
                        input.peer_key(k),
                        input.m_as@[input.peer_at(k)],
                    ) && mta_public_point(m_b_ws@[k]) == generator_mul(input.sign_key.w_i)
            },
        decreases m - 1 - j,
    {
        let ind: usize = others[j];
        proof {
            lemma_peer_excludes_self(j as int, own as int, m as int);
            assert(s@[ind as int] < input.local_key.n);
            lemma_first_failure_push(accepted@, input.peer_accepted(j as int));
        }
        let ek = &input.local_key.paillier_key_vec[s[ind] as usize];
        let for_gamma = mta_respond(
            &input.sign_key.gamma_i,
            ek,
            input.m_as[ind].clone(),
            &input.local_key.h1_h2_n_tilde_vec,
        );
        let for_w = mta_respond(
            &input.sign_key.w_i,
            ek,
            input.m_as[ind].clone(),
            &input.local_key.h1_h2_n_tilde_vec,
        );
        match (for_gamma, for_w) {
            (Ok((m_b_gamma, beta)), Ok((m_b_w, ni))) => {
                m_b_gammas.push(m_b_gamma);
                betas.push(beta);
                m_b_ws.push(m_b_w);
                nis.push(ni);
                accepted.push(true);
            },
            _ => {
                accepted.push(false);
            },
        }
        j += 1;
    }
    proof {
        assert(accepted@ =~= input.peers_accepted());
        lemma_first_failure(accepted@);
        assert forall|k: int| 0 <= k < others@.len() implies others@[k] < m by {
            lemma_peer_excludes_self(k, own as int, m as int);
        }
    }
    match verdict(Stage::Sign2, ErrorKind::Verification, &input.parties, &others, &accepted) {
        Some(e) => Err(e),
        None => Ok(Secp256k1SignStage2Output { betas, nis, m_b_gammas, m_b_ws }),
    }
}

/// What the third round of signing takes: the shares that the signer kept in the
/// round before, and the responses that each peer in order made for the signer.
#[derive(Clone, Debug)]
pub struct Secp256k1SignStage3Input {
    pub index: u16,
    pub parties: Vec<u16>,
    pub local_key: LocalKey,
    pub sign_key: SignKeys,
    pub nis: Vec<CurveScalar>,
    pub betas: Vec<CurveScalar>,
    pub m_b_gammas: Vec<MessageB>,
    pub m_b_ws: Vec<MessageB>,
}

/// What the third round of signing returns: the signer's shares `delta_i` and
/// `sigma_i`, and the commitment `t_i` to `sigma_i` with its blinding scalar
/// `l_i` and its proof.
#[derive(Clone, Debug)]
pub struct Secp256k1SignStage3Output {
    pub delta_i: CurveScalar,
    pub t_i: CurvePoint,
    pub l_i: CurveScalar,
    pub sigma_i: CurveScalar,
    pub t_i_proof: PedersenProof,
}

impl Secp256k1SignStage3Input {
    /// The position among the signers of the `j`-th peer.
    pub open spec fn peer_at(&self, j: int) -> int {
        peer_position(j, self.index - 1)
    }

    /// The signer's additive share of `k_i * gamma_j` with the `j`-th peer, where
    /// that peer's response verifies.
    pub open spec fn alpha(&self, j: int) -> Option<CurveScalar> {
        mta_alpha(self.m_b_gammas@[j], self.local_key.paillier_dk, self.sign_key.k_i)
    }

    /// The signer's additive share of `k_i * w_j` with the `j`-th peer, where that
    /// peer's response verifies.
    pub open spec fn mu(&self, j: int) -> Option<CurveScalar> {
        mta_alpha(self.m_b_ws@[j], self.local_key.paillier_dk, self.sign_key.k_i)
    }

    /// The point `w_j * G` that the key's public shares give for the `j`-th peer.
    pub open spec fn expected_point(&self, j: int) -> CurvePoint {
        public_w_points(self.local_key.pk_vec@, positions_of(self.parties@))[self.peer_at(j)]
    }

    /// Whether both responses of the `j`-th peer verify and the second one is
    /// for the point that the key's public shares give for that peer.
    pub open spec fn peer_accepted(&self, j: int) -> bool {
        &&& self.alpha(j) is Some
        &&& self.mu(j) is Some
        &&& mta_public_point(self.m_b_ws@[j]) == self.expected_point(j)
    }

    /// For each peer, whether its responses are accepted.
    pub open spec fn peers_accepted(&self) -> Seq<bool> {
        Seq::new((self.parties@.len() - 1) as nat, |j: int| self.peer_accepted(j))
    }

    /// Whether each of the four lists holds one entry for each peer.
    pub open spec fn lists_fit(&self) -> bool {
        &&& self.nis@.len() == self.parties@.len() - 1
        &&& self.betas@.len() == self.parties@.len() - 1
        &&& self.m_b_gammas@.len() == self.parties@.len() - 1
        &&& self.m_b_ws@.len() == self.parties@.len() - 1
    }

    /// The failure that the round answers the input with, if any: a signer that
    /// does not fit the key, lists that are not one entry for each peer, or the
    /// first peer whose responses are not accepted.
    pub open spec fn fault(&self) -> Option<StageError> {
        let placed = signers_fault(Stage::Sign3, self.index, self.parties@, self.local_key);
        if placed is Some {
            placed
        } else if !self.lists_fit() {
            Some(StageError::malformed(Stage::Sign3))
        } else {
            verdict_of(
                Stage::Sign3,
                ErrorKind::Verification,
                self.parties@,
                peers_of(self.parties@.len() as int, self.index - 1),
                self.peers_accepted(),
            )
        }
    }

    /// The signer's shares of `k_i * gamma_j`, one for each peer.
    pub open spec fn alphas(&self) -> Seq<CurveScalar> {
        Seq::new((self.parties@.len() - 1) as nat, |j: int| self.alpha(j).unwrap())
    }

    /// The signer's shares of `k_i * w_j`, one for each peer.
    pub open spec fn mus(&self) -> Seq<CurveScalar> {
        Seq::new((self.parties@.len() - 1) as nat, |j: int| self.mu(j).unwrap())
    }
}

/// Finishes the share conversions and commits to `sigma_i`.
///
/// Checks both responses of every peer and that each peer answered for its own
/// `w_j`. Returns `delta_i = k_i * gamma_i + ..` and `sigma_i = k_i * w_i + ..`,
/// each with the shares of all conversions added, and a Pedersen commitment to
/// `sigma_i` with its blinding scalar and a proof that speaks of that commitment.
/// Fails as [`Secp256k1SignStage3Input::fault`] says, before it computes either
/// sum.
pub fn secp256k1_sign_stage3(input: Secp256k1SignStage3Input) -> (res: Result<
    Secp256k1SignStage3Output,
    StageError,
>)
    ensures
        res is Ok <==> input.fault() is None,
        res matches Err(e) ==> input.fault() == Some(e),
        res matches Ok(out) ==> {
            &&& out.delta_i == delta_share(
                input.sign_key.k_i,
                input.sign_key.gamma_i,
                input.alphas(),
                input.betas@,
            )
            &&& out.sigma_i == sigma_share(
                input.sign_key.k_i,
                input.sign_key.w_i,
                input.mus(),
                input.nis@,
            )
            &&& out.t_i == pedersen_point(out.sigma_i, out.l_i)
            &&& out.t_i == pedersen_commitment(out.t_i_proof)
        },
{
    match check_signers(Stage::Sign3, input.index, &input.parties, &input.local_key) {
        Some(e) => {
            return Err(e);
        },
        None => {},
    }
    let m: usize = input.parties.len();
    if input.nis.len() != m - 1 || input.betas.len() != m - 1 || input.m_b_gammas.len() != m - 1
        || input.m_b_ws.len() != m - 1 {
        return Err(StageError::malformed(Stage::Sign3));
    }
    let s = signer_positions(&input.parties, &input.local_key);
    let own: usize = (input.index - 1) as usize;
    let others = peers(m, own);
    let expected = expected_w_points(
        &input.local_key.pk_vec,
        &s,
        &input.local_key.vss_scheme,
    );
    let mut accepted: Vec<bool> = Vec::new();
    let mut alpha_vec: Vec<CurveScalar> = Vec::new();
    let mut miu_vec: Vec<CurveScalar> = Vec::new();
    let mut j: usize = 0;
    while j < m - 1
        invariant
            input.local_key.wf(),
            input.lists_fit(),
            m == input.parties@.len(),
            own == input.index - 1,
            own < m,
            others@ == peers_of(m as int, own as int),
            others@.len() == m - 1,
            expected@ == public_w_points(
                input.local_key.pk_vec@,
                positions_of(input.parties@),
            ),
            expected@.len() == m,
            0 <= j <= m - 1,
            accepted@.len() == j,
            forall|k: int| 0 <= k < j ==> accepted@[k] == input.peer_accepted(k),
            alpha_vec@.len() == miu_vec@.len(),
            first_failure(accepted@) == j ==> {
                &&& alpha_vec@.len() == j
                &&& forall|k: int| 0 <= k < j ==> input.alpha(k) == Some(#[trigger] alpha_vec@[k])
                &&& forall|k: int| 0 <= k < j ==> input.mu(k) == Some(#[trigger] miu_vec@[k])
            },
        decreases m - 1 - j,
    {
        let ind: usize = others[j];
        proof {
            lemma_peer_excludes_self(j as int, own as int, m as int);
            lemma_first_failure_push(accepted@, input.peer_accepted(j as int));
        }
        let from_gamma = mta_finish(
            &input.m_b_gammas[j],
            &input.local_key.paillier_dk,
            &input.sign_key.k_i,
        );
        let from_w = mta_finish(
            &input.m_b_ws[j],
            &input.local_key.paillier_dk,
            &input.sign_key.k_i,
        );
        let bound = same_point(&response_public_point(&input.m_b_ws[j]), &expected[ind]);
        match (from_gamma, from_w, bound) {
            (Ok(alpha), Ok(mu), true) => {
                alpha_vec.push(alpha);
                miu_vec.push(mu);
                accepted.push(true);
            },
            _ => {
                accepted.push(false);
            },
        }
        j += 1;
    }
    proof {
        assert(accepted@ =~= input.peers_accepted());
        lemma_first_failure(accepted@);
        assert forall|k: int| 0 <= k < others@.len() implies others@[k] < m by {
            lemma_peer_excludes_self(k, own as int, m as int);
        }
    }
    match verdict(Stage::Sign3, ErrorKind::Verification, &input.parties, &others, &accepted) {
        Some(e) => {
            return Err(e);
        },
        None => {},
    }
    proof {
        assert(alpha_vec@ =~= input.alphas());
        assert(miu_vec@ =~= input.mus());
    }
    let delta_i = compute_delta_share(&input.sign_key, &alpha_vec, &input.betas);
    let sigma_i = compute_sigma_share(&input.sign_key, &miu_vec, &input.nis);
    let (t_i, l_i, t_i_proof) = commit_to_sigma(&sigma_i);
    Ok(Secp256k1SignStage3Output { delta_i, t_i, l_i, sigma_i, t_i_proof })
}

/// What the fourth round of signing takes, one entry for each signer in the
/// order of `parties`: the shares `delta_i`, the commitments `T_i` and their
/// proofs.
#[derive(Clone, Debug)]
pub struct Secp256k1SignStage4Input {
    pub parties: Vec<u16>,
    pub deltas: Vec<CurveScalar>,
    pub ts: Vec<CurvePoint>,
    pub t_proofs: Vec<PedersenProof>,
}

/// What the fourth round of signing returns: the inverse of `delta`.
#[derive(Clone, Debug)]
pub struct Secp256k1SignStage4Output {
    pub delta_inv: CurveScalar,
}

impl Secp256k1SignStage4Input {
    /// Whether the commitment of the signer at `i` is the one that its proof
    /// speaks of, and the proof verifies.
    pub open spec fn signer_accepted(&self, i: int) -> bool {
        &&& self.ts@[i] == pedersen_commitment(self.t_proofs@[i])
        &&& pedersen_proof_accepted(self.t_proofs@[i])
    }

    /// For each signer, whether its commitment and proof are accepted.
    pub open spec fn signers_accepted(&self) -> Seq<bool> {
        Seq::new(self.parties@.len(), |i: int| self.signer_accepted(i))
    }

    /// Whether each of the three lists holds one entry for each signer.
    pub open spec fn lists_fit(&self) -> bool {
        &&& self.deltas@.len() == self.parties@.len()
        &&& self.ts@.len() == self.parties@.len()
        &&& self.t_proofs@.len() == self.parties@.len()
    }

    /// The failure that the round answers the input with, if any: signers that
    /// are not named, lists that are not one entry for each signer, the first
    /// signer whose commitment or proof is not accepted, or shares `delta_i`
    /// that add up to zero, which has no inverse.
    pub open spec fn fault(&self) -> Option<StageError> {
        let failed = verdict_of(
            Stage::Sign4,
            ErrorKind::Verification,
            self.parties@,
            everyone_of(self.parties@.len() as int),
            self.signers_accepted(),
        );
        if !signers_named(self.parties@) {
            Some(StageError::shape(Stage::Sign4))
        } else if !self.lists_fit() {
            Some(StageError::malformed(Stage::Sign4))
        } else if failed is Some {
            failed
        } else if scalar_is_zero(scalar_total(self.deltas@)) {
            Some(StageError::rejected(Stage::Sign4))
        } else {
            None
        }
    }
}

/// Checks every signer's commitment `T_i` and inverts `delta`.
///
/// Returns the inverse of the sum of all `delta_i`, which takes the blinding by
/// `k` out of the signature without showing any `k_i`. Fails as
/// [`Secp256k1SignStage4Input::fault`] says.
pub fn secp256k1_sign_stage4(input: Secp256k1SignStage4Input) -> (res: Result<
    Secp256k1SignStage4Output,
    StageError,
>)
    ensures
        res is Ok <==> input.fault() is None,
        res matches Err(e) ==> input.fault() == Some(e),
        res matches Ok(out) ==> out.delta_inv == delta_inverse(input.deltas@),
{
    if !check_signers_named(&input.parties) {
        return Err(StageError::shape(Stage::Sign4));
    }
    let m: usize = input.parties.len();
    if input.deltas.len() != m || input.ts.len() != m || input.t_proofs.len() != m {
        return Err(StageError::malformed(Stage::Sign4));
    }
    let signers = everyone(m);
    let mut accepted: Vec<bool> = Vec::new();
    let mut i: usize = 0;
    while i < m
        invariant
            m == input.parties@.len(),
            input.lists_fit(),
            0 <= i <= m,
            accepted@.len() == i,
            forall|k: int| 0 <= k < i ==> accepted@[k] == input.signer_accepted(k),
        decreases m - i,
    {
        let matches = same_point(&input.ts[i], &input.t_proofs[i].commitment());
        let verified = verify_pedersen_proof(&input.t_proofs[i]);
        accepted.push(matches && verified.is_ok());
        i += 1;
    }
    proof {
        assert(accepted@ =~= input.signers_accepted());
    }
    match verdict(Stage::Sign4, ErrorKind::Verification, &input.parties, &signers, &accepted) {
        Some(e) => {
            return Err(e);
        },
        None => {},
    }
    let total = total_scalars(&input.deltas);
    if is_zero_scalar(&total) {
        return Err(StageError::rejected(Stage::Sign4));
    }
    let delta_inv = invert_delta(&input.deltas);
    Ok(Secp256k1SignStage4Output { delta_inv })
}

/// What the fifth round of signing takes: the signer's own request, the
/// responses for `gamma` that each peer in order made for the signer, and the
/// commitments to `gamma_j * G` of all signers with their openings.
#[derive(Debug)]
pub struct Secp256k1SignStage5Input {
    pub index: u16,
    pub parties: Vec<u16>,
    pub local_key: LocalKey,
    pub sign_key: SignKeys,
    pub m_a: (MessageA, BigInt),
    pub m_b_gammas: Vec<MessageB>,
    pub bc1s: Vec<SignBroadcastPhase1>,
    pub delta_inv: CurveScalar,
    pub decom1s: Vec<SignDecommitPhase1>,
}

impl Clone for Secp256k1SignStage5Input {
    fn clone(&self) -> (r: Self) {
        Secp256k1SignStage5Input {
            index: self.index,
            parties: self.parties.clone(),
            local_key: self.local_key.clone(),
            sign_key: self.sign_key.clone(),
            m_a: (self.m_a.0.clone(), self.m_a.1.clone()),
            m_b_gammas: self.m_b_gammas.clone(),
            bc1s: self.bc1s.clone(),
            delta_inv: self.delta_inv.clone(),
            decom1s: self.decom1s.clone(),
        }
    }
}

/// What the fifth round of signing returns: `R`, `R' = k_i * R`, and one proof
/// for each peer in order.
#[derive(Clone, Debug)]
pub struct Secp256k1SignStage5Output {
    pub r: CurvePoint,
    pub r_dash: CurvePoint,
    pub phase5_proofs: Vec<PDLwSlackProof>,
}

impl Secp256k1SignStage5Input {
    /// Whether the responses are one for each peer, and the commitments and
    /// openings one for each signer.
    pub open spec fn lists_fit(&self) -> bool {
        &&& self.m_b_gammas@.len() == self.parties@.len() - 1
        &&& self.bc1s@.len() == self.parties@.len()
        &&& self.decom1s@.len() == self.parties@.len()
    }

    /// The position among the signers of the `j`-th peer.
    pub open spec fn peer_at(&self, j: int) -> int {
        peer_position(j, self.index - 1)
    }

    /// The Paillier key of the signer: the one of the party at its place among
    /// the signers.
    pub open spec fn signer_key(&self) -> EncryptionKey {
        self.local_key.paillier_key_vec@[positions_of(self.parties@)[self.index - 1] as int]
    }

    /// The statement of the `j`-th peer.
    pub open spec fn peer_statement(&self, j: int) -> DLogStatement {
        self.local_key.h1_h2_n_tilde_vec@[positions_of(self.parties@)[self.peer_at(j)] as int]
    }

    /// Whether the opening of the `j`-th peer fits its commitment and the point of
    /// its response, where the check is asked about the signer and that peer
    /// alone.
    pub open spec fn peer_accepted(&self, j: int) -> bool {
        nonce_point(
            self.delta_inv,
            seq![self.m_b_gammas@[j]],
            seq![self.decom1s@[self.peer_at(j)]],
            seq![self.bc1s@[self.peer_at(j)]],
            1,
        ) is Some
    }

    /// For each peer, whether its opening is accepted.
    pub open spec fn peers_accepted(&self) -> Seq<bool> {
        Seq::new((self.parties@.len() - 1) as nat, |j: int| self.peer_accepted(j))
    }

    /// The failure of the first peer whose opening is not accepted.
    pub open spec fn failed(&self) -> Option<StageError> {
        verdict_of(
            Stage::Sign5,
            ErrorKind::Verification,
            self.parties@,
            peers_of(self.parties@.len() as int, self.index - 1),
            self.peers_accepted(),
        )
    }

    /// The point `R`, where every peer's opening of `gamma_j * G` is accepted.
    pub open spec fn nonce(&self) -> Option<CurvePoint> {
        nonce_point(
            self.delta_inv,
            self.m_b_gammas@,
            self.decom1s@,
            self.bc1s@,
            self.index - 1,
        )
    }

    /// The failure that the round answers the input with, if any: a signer that
    /// does not fit the key, lists of the wrong length, the first peer whose
    /// opening is not accepted, or openings that are not accepted together.
    pub open spec fn fault(&self) -> Option<StageError> {
        let placed = signers_fault(Stage::Sign5, self.index, self.parties@, self.local_key);
        if placed is Some {
            placed
        } else if !self.lists_fit() {
            Some(StageError::malformed(Stage::Sign5))
        } else if self.failed() is Some {
            self.failed()
        } else if self.nonce() is None {
            Some(StageError::rejected(Stage::Sign5))
        } else {
            None
        }
    }
}

/// Computes the signature's point `R` and proves the signer's part in it.
///
/// Checks every peer's opening of `gamma_j * G`, each alone first, so that a
/// failure names the peer. Returns `R`, the sum of the opened points times
/// `delta_inv`; `R' = k_i * R`; and for each peer in order a
/// proof, made under that peer's statement, that the ciphertext of the signer's
/// request holds the `k_i` of `R'`. Fails as [`Secp256k1SignStage5Input::fault`]
/// says.
pub fn secp256k1_sign_stage5(input: Secp256k1SignStage5Input) -> (res: Result<
    Secp256k1SignStage5Output,
    StageError,
>)
    ensures
        res is Ok <==> input.fault() is None,
        res matches Err(e) ==> input.fault() == Some(e),
        res matches Ok(out) ==> {
            &&& input.nonce() == Some(out.r)
            &&& out.r_dash == point_mul(out.r, input.sign_key.k_i)
            &&& out.phase5_proofs@.len() == input.parties@.len() - 1
            &&& forall|j: int|
                0 <= j < input.parties@.len() - 1 ==> pdl_proof_made(
                    #[trigger] out.phase5_proofs@[j],
                    out.r_dash,
                    out.r,
                    mta_ciphertext(input.m_a.0),
                    input.signer_key(),
                    input.sign_key.k_i,
                    input.m_a.1,
                    input.peer_statement(j),
                )
        },
{
    match check_signers(Stage::Sign5, input.index, &input.parties, &input.local_key) {
        Some(e) => {
            return Err(e);
        },
        None => {},
    }
    let m: usize = input.parties.len();
    if input.m_b_gammas.len() != m - 1 || input.bc1s.len() != m || input.decom1s.len() != m {
        return Err(StageError::malformed(Stage::Sign5));
    }
    let s = signer_positions(&input.parties, &input.local_key);
    let own: usize = (input.index - 1) as usize;
    let others = peers(m, own);
    proof {
        assert forall|j: int| 0 <= j < input.m_b_gammas@.len() implies peer_position(
            j,
            own as int,
        ) < m by {
            lemma_peer_excludes_self(j, own as int, m as int);
        }
    }
    let mut accepted: Vec<bool> = Vec::new();
    let mut j: usize = 0;
    while j < m - 1
        invariant
            input.lists_fit(),
            m == input.parties@.len(),
            own == input.index - 1,
            own < m,
            others@ == peers_of(m as int, own as int),
            others@.len() == m - 1,
            0 <= j <= m - 1,
            accepted@.len() == j,
            forall|k: int| 0 <= k < j ==> accepted@[k] == input.peer_accepted(k),
        decreases m - 1 - j,
    {
        let ind: usize = others[j];
        proof {
            lemma_peer_excludes_self(j as int, own as int, m as int);
        }
        let response = single(input.m_b_gammas[j].clone());
        let opening = single(input.decom1s[ind].clone());
        let commitment = single(input.bc1s[ind].clone());
        let alone = compute_nonce_point(&input.delta_inv, &response, opening, &commitment, 1);
        accepted.push(alone.is_ok());
        j += 1;
    }
    proof {
        assert(accepted@ =~= input.peers_accepted());
    }
    match verdict(Stage::Sign5, ErrorKind::Verification, &input.parties, &others, &accepted) {
        Some(e) => {
            return Err(e);
        },
        None => {},
    }
    let r = match compute_nonce_point(
        &input.delta_inv,
        &input.m_b_gammas,
        input.decom1s,
        &input.bc1s,
        own,
    ) {
        Ok(r) => r,
        Err(_) => {
            return Err(StageError::rejected(Stage::Sign5));
        },
    };
    let r_dash = mul_point(&r, &input.sign_key.k_i);
    let c = request_ciphertext(&input.m_a.0);
    proof {
        assert(s@[own as int] < input.local_key.n);
    }
    let ek = &input.local_key.paillier_key_vec[s[own] as usize];
    let mut phase5_proofs: Vec<PDLwSlackProof> = Vec::new();
    let mut j: usize = 0;
    while j < m - 1
        invariant
            input.local_key.wf(),
            m == s@.len(),
            own < m,
            own == input.index - 1,
            s@ == positions_of(input.parties@),
            *ek == input.signer_key(),
            c == mta_ciphertext(input.m_a.0),
            others@.len() == m - 1,
            forall|k: int| 0 <= k < m - 1 ==> others@[k] == peer_position(k, own as int),
            forall|k: int| 0 <= k < s@.len() ==> #[trigger] s@[k] < input.local_key.n,
            0 <= j <= m - 1,
            phase5_proofs@.len() == j,
            forall|k: int|
                0 <= k < j ==> pdl_proof_made(
                    #[trigger] phase5_proofs@[k],
                    r_dash,
                    r,
                    c,
                    *ek,
                    input.sign_key.k_i,
                    input.m_a.1,
                    input.peer_statement(k),
                ),
        decreases m - 1 - j,
    {
        let ind: usize = others[j];
        proof {
            lemma_peer_excludes_self(j as int, own as int, m as int);
            assert(s@[ind as int] < input.local_key.n);
        }
        let proof_for_peer = prove_pdl(
            &r_dash,
            &r,
            &c,
            ek,
            &input.sign_key.k_i,
            &input.m_a.1,
            &input.local_key.h1_h2_n_tilde_vec[s[ind] as usize],
        );
        phase5_proofs.push(proof_for_peer);
        j += 1;
    }
    Ok(Secp256k1SignStage5Output { r, r_dash, phase5_proofs })
}

/// What the sixth round of signing takes: the requests, the points `R'` and the
/// proofs of all signers, in the order of `parties`, and the signer's own
/// commitment with its blinding scalar and `sigma_i`.
#[derive(Clone, Debug)]
pub struct Secp256k1SignStage6Input {
    pub index: u16,
    pub parties: Vec<u16>,
    pub local_key: LocalKey,
    pub m_as: Vec<MessageA>,
    pub t_i: CurvePoint,
    pub l_i: CurveScalar,
    pub sigma_i: CurveScalar,
    pub r: CurvePoint,
    pub r_dashes: Vec<CurvePoint>,
    pub phase5_proofss: Vec<Vec<PDLwSlackProof>>,
}

/// What the sixth round of signing returns: `S_i` and its proof.
#[derive(Clone, Debug)]
pub struct Secp256k1SignStage6Output {
    pub s_i: CurvePoint,
    pub homo_elgamal_proof: HomoELGamalProof,
}

impl Secp256k1SignStage6Input {
    /// Whether the proofs of the signer at `i` can be put to the check.
    pub open spec fn signer_passable(&self, i: int) -> bool {
        pdl_proofs_passable(
            self.phase5_proofss@[i]@,
            mta_ciphertext(self.m_as@[i]),
            self.local_key.paillier_key_vec@[positions_of(self.parties@)[i] as int],
            self.local_key.h1_h2_n_tilde_vec@,
            positions_of(self.parties@),
            i,
        )
    }

    /// Whether the proofs of the signer at `i` can be put to the check and
    /// verify for its `R'` and the ciphertext of its request.
    pub open spec fn signer_accepted(&self, i: int) -> bool {
        self.signer_passable(i) && pdl_proofs_accepted(
            self.phase5_proofss@[i]@,
            self.r_dashes@[i],
            self.r,
            mta_ciphertext(self.m_as@[i]),
            self.local_key.paillier_key_vec@[positions_of(self.parties@)[i] as int],
            self.local_key.h1_h2_n_tilde_vec@,
            positions_of(self.parties@),
            i,
        )
    }

    /// For each signer, whether its proofs are accepted.
    pub open spec fn signers_accepted(&self) -> Seq<bool> {
        Seq::new(self.parties@.len(), |i: int| self.signer_accepted(i))
    }

    /// Whether each of the three lists holds one entry for each signer.
    pub open spec fn lists_fit(&self) -> bool {
        &&& self.m_as@.len() == self.parties@.len()
        &&& self.r_dashes@.len() == self.parties@.len()
        &&& self.phase5_proofss@.len() == self.parties@.len()
    }

    /// The failure that the round answers the input with, if any: a signer that
    /// does not fit the key, lists that are not one entry for each signer, the
    /// first signer whose proofs are not accepted, or points `R'` that do not
    /// add up to the generator.
    pub open spec fn fault(&self) -> Option<StageError> {
        let placed = signers_fault(Stage::Sign6, self.index, self.parties@, self.local_key);
        let failed = verdict_of(
            Stage::Sign6,
            ErrorKind::Verification,
            self.parties@,
            everyone_of(self.parties@.len() as int),
            self.signers_accepted(),
        );
        if placed is Some {
            placed
        } else if !self.lists_fit() {
            Some(StageError::malformed(Stage::Sign6))
        } else if failed is Some {
            failed
        } else if !r_dash_sum_accepted(self.r_dashes@) {
            Some(StageError::rejected(Stage::Sign6))
        } else {
            None
        }
    }
}

/// Whether the proofs of the signer at `i` can be put to the check.
fn check_pdl_passable(
    proofs: &Vec<PDLwSlackProof>,
    c: &BigInt,
    ek: &EncryptionKey,
    statements: &Vec<DLogStatement>,
    s: &Vec<u16>,
    i: usize,
) -> (b: bool)
    requires
        s@.len() >= 1,
        i < s@.len(),
        forall|k: int| 0 <= k < s@.len() ==> s@[k] < statements@.len(),
    ensures
        b == pdl_proofs_passable(proofs@, *c, *ek, statements@, s@, i as int),
{
    if proofs.len() != s.len() - 1 || !are_coprime(c, &read_encryption_key(ek).nn) {
        return false;
    }
    let mut j: usize = 0;
    while j < proofs.len()
        invariant
            proofs@.len() == s@.len() - 1,
            i < s@.len(),
            forall|k: int| 0 <= k < s@.len() ==> s@[k] < statements@.len(),
            0 <= j <= proofs@.len(),
            forall|k: int|
                0 <= k < j ==> pdl_proof_passable(
                    #[trigger] proofs@[k],
                    statements@[s@[peer_position(k, i as int)] as int],
                ),
        decreases proofs@.len() - j,
    {
        let ind: usize = peer(j, i);
        proof {
            lemma_peer_excludes_self(j as int, i as int, s@.len() as int);
        }
        let modulus = read_statement(&statements[s[ind] as usize]).n_tilde;
        let passable = match read_pdl_commitment(&proofs[j]) {
            Some(z) => are_coprime(&z, &modulus),
            None => false,
        };
        if !passable {
            return false;
        }
        j += 1;
    }
    true
}

/// Checks every signer's part in `R` and computes `S_i`.
///
/// Checks the proofs of every signer and that all `R'` add up to the generator.
/// Returns `S_i = sigma_i * R` and a proof, made for `R`, `T_i`, `sigma_i` and
/// `l_i`, that it fits them.
/// Fails as [`Secp256k1SignStage6Input::fault`] says.
pub fn secp256k1_sign_stage6(input: Secp256k1SignStage6Input) -> (res: Result<
    Secp256k1SignStage6Output,
    StageError,
>)
    ensures
        res is Ok <==> input.fault() is None,
        res matches Err(e) ==> input.fault() == Some(e),
        res matches Ok(out) ==> {
            &&& out.s_i == point_mul(input.r, input.sigma_i)
            &&& elgamal_proof_made(
                out.homo_elgamal_proof,
                input.r,
                input.t_i,
                input.sigma_i,
                input.l_i,
            )
        },
{
    match check_signers(Stage::Sign6, input.index, &input.parties, &input.local_key) {
        Some(e) => {
            return Err(e);
        },
        None => {},
    }
    let m: usize = input.parties.len();
    if input.m_as.len() != m || input.r_dashes.len() != m || input.phase5_proofss.len() != m {
        return Err(StageError::malformed(Stage::Sign6));
    }
    let s = signer_positions(&input.parties, &input.local_key);
    let signers = everyone(m);
    let mut accepted: Vec<bool> = Vec::new();
    let mut i: usize = 0;
    while i < m
        invariant
            input.local_key.wf(),
            input.lists_fit(),
            m == input.parties@.len(),
            m >= 1,
            s@ == positions_of(input.parties@),
            s@.len() == m,
            forall|k: int| 0 <= k < s@.len() ==> #[trigger] s@[k] < input.local_key.n,
            0 <= i <= m,
            accepted@.len() == i,
            forall|k: int| 0 <= k < i ==> accepted@[k] == input.signer_accepted(k),
        decreases m - i,
    {
        proof {
            assert(s@[i as int] < input.local_key.n);
        }
        let c = request_ciphertext(&input.m_as[i]);
        let ek = &input.local_key.paillier_key_vec[s[i] as usize];
        let verified = check_pdl_passable(
            &input.phase5_proofss[i],
            &c,
            ek,
            &input.local_key.h1_h2_n_tilde_vec,
            &s,
            i,
        ) && verify_pdl(
            &input.phase5_proofss[i],
            &input.r_dashes[i],
            &input.r,
            &c,
            ek,
            &input.local_key.h1_h2_n_tilde_vec,
            &s,
            i,
        ).is_ok();
        accepted.push(verified);
        i += 1;
    }
    proof {
        assert(accepted@ =~= input.signers_accepted());
    }
    match verdict(Stage::Sign6, ErrorKind::Verification, &input.parties, &signers, &accepted) {
        Some(e) => {
            return Err(e);
        },
        None => {},
    }
    if check_r_dash_sum(&input.r_dashes).is_err() {
        return Err(StageError::rejected(Stage::Sign6));
    }
    let (s_i, homo_elgamal_proof) = compute_s_point(
        &input.r,
        &input.t_i,
        &input.sigma_i,
        &input.l_i,
    );
    Ok(Secp256k1SignStage6Output { s_i, homo_elgamal_proof })
}

/// What the seventh round of signing takes: the points `S_i` of all signers with
/// their proofs, in the order of `parties`, and what the signer has gathered.
#[derive(Clone, Debug)]
pub struct Secp256k1SignStage7Input {
    pub ss: Vec<CurvePoint>,
    pub homo_elgamal_proofs: Vec<HomoELGamalProof>,
    pub parties: Vec<u16>,
    pub completed_offline_stage: CompletedOfflineStage,
}

/// What the seventh round of signing returns: nothing but its success.
#[derive(Clone, Debug)]
pub struct Secp256k1SignStage7Output {}

impl Secp256k1SignStage7Input {
    /// Whether each of the three lists holds one entry for each signer.
    pub open spec fn lists_fit(&self) -> bool {
        &&& self.ss@.len() == self.parties@.len()
        &&& self.homo_elgamal_proofs@.len() == self.parties@.len()
        &&& self.completed_offline_stage.ts@.len() == self.parties@.len()
    }

    /// Whether the proof of the signer at `i` verifies for its `S_i`, `R` and its
    /// `T_i`.
    pub open spec fn signer_accepted(&self, i: int) -> bool {
        elgamal_proofs_accepted(
            seq![self.ss@[i]],
            seq![self.homo_elgamal_proofs@[i]],
            seq![self.completed_offline_stage.r],
            seq![self.completed_offline_stage.ts@[i]],
        )
    }

    /// For each signer, whether its proof is accepted.
    pub open spec fn signers_accepted(&self) -> Seq<bool> {
        Seq::new(self.parties@.len(), |i: int| self.signer_accepted(i))
    }

    /// Whether all `S_i` add up to the joint public key.
    pub open spec fn sum_accepted(&self) -> bool {
        s_sum_accepted(self.completed_offline_stage.local_key.y_sum_s, self.ss@)
    }

    /// The failure that the round answers the input with, if any: a signer that
    /// does not fit the key, lists that are not one entry for each signer, the
    /// first signer whose proof does not verify, or points `S_i` that do not add
    /// up to the joint public key.
    pub open spec fn fault(&self) -> Option<StageError> {
        let placed = signers_fault(
            Stage::Sign7,
            self.completed_offline_stage.index,
            self.parties@,
            self.completed_offline_stage.local_key,
        );
        let failed = verdict_of(
            Stage::Sign7,
            ErrorKind::Verification,
            self.parties@,
            everyone_of(self.parties@.len() as int),
            self.signers_accepted(),
        );
        if placed is Some {
            placed
        } else if !self.lists_fit() {
            Some(StageError::malformed(Stage::Sign7))
        } else if failed is Some {
            failed
        } else if !self.sum_accepted() {
            Some(StageError::rejected(Stage::Sign7))
        } else {
            None
        }
    }
}

/// Checks every signer's `S_i`: the last check before a message is signed.
///
/// Succeeds where every signer's proof verifies and all `S_i` add up to the
/// joint public key. Fails as [`Secp256k1SignStage7Input::fault`] says.
pub fn secp256k1_sign_stage7(input: Secp256k1SignStage7Input) -> (res: Result<
    Secp256k1SignStage7Output,
    StageError,
>)
    ensures
        res is Ok <==> input.fault() is None,
        res matches Err(e) ==> input.fault() == Some(e),
{
    match check_signers(
        Stage::Sign7,
        input.completed_offline_stage.index,
        &input.parties,
        &input.completed_offline_stage.local_key,
    ) {
        Some(e) => {
            return Err(e);
        },
        None => {},
    }
    let m: usize = input.parties.len();
    if input.ss.len() != m || input.homo_elgamal_proofs.len() != m
        || input.completed_offline_stage.ts.len() != m {
        return Err(StageError::malformed(Stage::Sign7));
    }
    let signers = everyone(m);
    let mut accepted: Vec<bool> = Vec::new();
    let mut i: usize = 0;
    while i < m
        invariant
            input.lists_fit(),
            m == input.parties@.len(),
            0 <= i <= m,
            accepted@.len() == i,
            forall|k: int| 0 <= k < i ==> accepted@[k] == input.signer_accepted(k),
        decreases m - i,
    {
        let verified = verify_s_points(
            &single(input.ss[i].clone()),
            &single(input.homo_elgamal_proofs[i].clone()),
            &single(input.completed_offline_stage.r.clone()),
            &single(input.completed_offline_stage.ts[i].clone()),
        );
        accepted.push(verified.is_ok());
        i += 1;
    }
    proof {
        assert(accepted@ =~= input.signers_accepted());
    }
    match verdict(Stage::Sign7, ErrorKind::Verification, &input.parties, &signers, &accepted) {
        Some(e) => {
            return Err(e);
        },
        None => {},
    }
    if check_s_sum(&input.completed_offline_stage.local_key.y_sum_s, &input.ss).is_err() {
        return Err(StageError::rejected(Stage::Sign7));
    }
    Ok(Secp256k1SignStage7Output {  })
}

/// The second round accepts no input in which one peer's request fails to
/// verify.
pub proof fn lemma_stage2_accepts_only_verified(input: Secp256k1SignStage2Input)
    requires
        input.fault() is None,
    ensures
        forall|j: int| 0 <= j < input.parties@.len() - 1 ==> input.peer_accepted(j),
{
    lemma_first_failure(input.peers_accepted());
    assert forall|j: int| 0 <= j < input.parties@.len() - 1 implies input.peer_accepted(j) by {
        assert(input.peers_accepted()[j]);
    }
}

/// The third round accepts no input in which one response of one peer fails to
/// verify, or is for another point than the key gives for that peer.
pub proof fn lemma_stage3_accepts_only_verified(input: Secp256k1SignStage3Input)
    requires
        input.fault() is None,
    ensures
        forall|j: int| 0 <= j < input.parties@.len() - 1 ==> input.peer_accepted(j),
{
    lemma_first_failure(input.peers_accepted());
    assert forall|j: int| 0 <= j < input.parties@.len() - 1 implies input.peer_accepted(j) by {
        assert(input.peers_accepted()[j]);
    }
}

/// The fourth round accepts no input in which one signer's commitment differs
/// from the one of its proof, or one proof fails to verify.
pub proof fn lemma_stage4_accepts_only_verified(input: Secp256k1SignStage4Input)
    requires
        input.fault() is None,
    ensures
        forall|i: int| 0 <= i < input.parties@.len() ==> input.signer_accepted(i),
{
    lemma_first_failure(input.signers_accepted());
    assert forall|i: int| 0 <= i < input.parties@.len() implies input.signer_accepted(i) by {
        assert(input.signers_accepted()[i]);
    }
}

/// The fifth round accepts no input in which one peer's opening fails to fit, or
/// the openings fail together.
pub proof fn lemma_stage5_accepts_only_verified(input: Secp256k1SignStage5Input)
    requires
        input.fault() is None,
    ensures
        forall|j: int| 0 <= j < input.parties@.len() - 1 ==> input.peer_accepted(j),
        input.nonce() is Some,
{
    lemma_first_failure(input.peers_accepted());
    assert forall|j: int| 0 <= j < input.parties@.len() - 1 implies input.peer_accepted(j) by {
        assert(input.peers_accepted()[j]);
    }
}

/// The sixth round accepts no input in which one signer's proofs fail to verify
/// or the points `R'` do not add up to the generator.
pub proof fn lemma_stage6_accepts_only_verified(input: Secp256k1SignStage6Input)
    requires
        input.fault() is None,
    ensures
        forall|i: int| 0 <= i < input.parties@.len() ==> input.signer_accepted(i),
        r_dash_sum_accepted(input.r_dashes@),
{
    lemma_first_failure(input.signers_accepted());
    assert forall|i: int| 0 <= i < input.parties@.len() implies input.signer_accepted(i) by {
        assert(input.signers_accepted()[i]);
    }
}

/// The seventh round accepts no input in which one signer's proof fails to
/// verify or the points `S_i` do not add up to the joint public key.
pub proof fn lemma_stage7_accepts_only_verified(input: Secp256k1SignStage7Input)
    requires
        input.fault() is None,
    ensures
        forall|i: int| 0 <= i < input.parties@.len() ==> input.signer_accepted(i),
        input.sum_accepted(),
{
    lemma_first_failure(input.signers_accepted());
    assert forall|i: int| 0 <= i < input.parties@.len() implies input.signer_accepted(i) by {
        assert(input.signers_accepted()[i]);
    }
}

/// A failure of the third round that names a party names one of the signers,
/// and never the signer that ran the round.
pub proof fn lemma_stage3_blames_a_peer(input: Secp256k1SignStage3Input, party: u16)
    requires
        input.fault() == Some(StageError::blamed(Stage::Sign3, party)),
    ensures
        exists|p: int|
            0 <= p < input.parties@.len() && p != input.index - 1 && input.parties@[p] == party,
{
    lemma_first_failure(input.peers_accepted());
    let bad = first_failure(input.peers_accepted());
    lemma_peer_excludes_self(bad, input.index - 1, input.parties@.len() as int);
    lemma_positions(input.parties@, input.local_key.n as int);
    lemma_distinct_count(input.parties@);
    assert(peers_of(input.parties@.len() as int, input.index - 1)[bad] == input.peer_at(bad));
    assert(input.parties@[input.peer_at(bad)] == party);
}

} // verus!
