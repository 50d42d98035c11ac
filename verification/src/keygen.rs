//! The rounds of distributed key generation, and the reconstruction of the joint
//! secret from shares.

use crate::curve::{generator_mul, point_total, same_point, CurvePoint, CurveScalar};
use crate::dkg_calls::{
    broadcast_numbers, broadcast_passable, check_broadcast, create_and_commit,
    create_and_commit_safe_prime, dlog_proof_accepted, dlog_proofs_accepted, dlog_public_point,
    keygen_commitment_made, keygen_openings_accepted, keys_from_safe_primes, keys_public_point,
    keys_secret, opening_point, read_broadcast, reconstruct_secret, reconstructed_secret,
    schemes_fit, share_accepted, validate_share, verified_share, verify_and_distribute,
    verify_dlog_proof, verify_dlog_proofs, verify_shares_and_prove,
};
use crate::errors::{ErrorKind, Stage, StageError};
use crate::material::{
    commitment_lists, keys_party_index, single, DLogProof, Keys, SharedKeys, VerifiableSS,
};
use crate::party::{
    all_parties, all_parties_of, check_signing_subset, everyone, everyone_of,
    lemma_named_positions, lemma_positions, positions, positions_of, signing_subset,
};
use crate::verdict::{lemma_first_failure, verdict, verdict_of};
use multi_party_ecdsa::protocols::multi_party_ecdsa::gg_2020::party_i::{
    KeyGenBroadcastMessage1, KeyGenDecommitMessage1,
};
use vstd::prelude::*;

verus! {

/// Whether every scheme of `schemes` has `t + 1` commitments.
pub fn check_schemes(schemes: &Vec<VerifiableSS>, t: u16) -> (b: bool)
    ensures
        b == schemes_fit(schemes@, t as int),
{
    let mut i: usize = 0;
    while i < schemes.len()
        invariant
            i <= schemes.len(),
            forall|k: int| 0 <= k < i ==> (#[trigger] schemes@[k]).commitments@.len() == t + 1,
        decreases schemes.len() - i,
    {
        if schemes[i].commitments.len() != t as usize + 1 {
            return false;
        }
        i += 1;
    }
    true
}

/// What the first round of key generation takes: the party's index, and whether
/// its Paillier key is to be made of safe primes.
#[derive(Clone, Debug)]
pub struct Secp256k1KeyGenStage1Input {
    pub index: u16,
    pub use_safe_prime: bool,
}

/// What the first round of key generation returns: the party's key material,
/// the commitment to broadcast, and its opening.
#[derive(Clone, Debug)]
pub struct Secp256k1KeyGenStage1Output {
    pub key: Keys,
    pub bc1: KeyGenBroadcastMessage1,
    pub decom1: KeyGenDecommitMessage1,
}

impl Secp256k1KeyGenStage1Input {
    /// The failure that the round answers the input with, if any: an `index`
    /// that names no party.
    pub open spec fn fault(&self) -> Option<StageError> {
        if self.index < 1 {
            Some(StageError::shape(Stage::KeyGen1))
        } else {
            None
        }
    }
}

/// Makes a party's key material and commits to it.
///
/// Returns fresh material for the party `index`, with a Paillier key from safe
/// primes where `use_safe_prime` asks for it, the commitment to broadcast and the
/// opening to reveal in the next round, which holds the material's public
/// contribution. Fails as
/// [`Secp256k1KeyGenStage1Input::fault`] says.
pub fn secp256k1_keygen_stage1(input: Secp256k1KeyGenStage1Input) -> (res: Result<
    Secp256k1KeyGenStage1Output,
    StageError,
>)
    ensures
        res is Ok <==> input.fault() is None,
        res matches Err(e) ==> input.fault() == Some(e),
        res matches Ok(out) ==> {
            &&& keys_party_index(out.key) == input.index
            &&& input.use_safe_prime ==> keys_from_safe_primes(out.key)
            &&& opening_point(out.decom1) == keys_public_point(out.key)
            &&& keygen_commitment_made(out.bc1, out.decom1, out.key)
        },
{
    if input.index < 1 {
        return Err(StageError::shape(Stage::KeyGen1));
    }
    let (key, bc1, decom1) = if input.use_safe_prime {
        create_and_commit_safe_prime(input.index as usize)
    } else {
        create_and_commit(input.index as usize)
    };
    Ok(Secp256k1KeyGenStage1Output { key, bc1, decom1 })
}

/// What is wrong with the parameters of a key generation for the party with
/// `party_index`, if anything: the threshold must be below the number of
/// parties, and the party one of them.
pub open spec fn parameters_fault(
    stage: Stage,
    threshold: u16,
    share_count: u16,
    party_index: usize,
) -> Option<StageError> {
    if threshold >= share_count || party_index < 1 || party_index > share_count {
        Some(StageError::shape(stage))
    } else {
        None
    }
}

/// What the second round of key generation takes: the party's key material, and
/// the commitments and openings of all parties, in the order of their indices.
#[derive(Clone, Debug)]
pub struct Secp256k1KeyGenStage2Input {
    pub key: Keys,
    pub bc1s: Vec<KeyGenBroadcastMessage1>,
    pub decom1s: Vec<KeyGenDecommitMessage1>,
    pub threshold: u16,
    pub share_count: u16,
}

/// What the second round of key generation returns: the commitments of the
/// party's sharing, one share for each party, and the party's index.
#[derive(Debug)]
pub struct Secp256k1KeyGenStage2Output {
    pub vss: (VerifiableSS, Vec<CurveScalar>, usize),
}

impl Clone for Secp256k1KeyGenStage2Output {
    fn clone(&self) -> (r: Self) {
        Secp256k1KeyGenStage2Output { vss: (self.vss.0.clone(), self.vss.1.clone(), self.vss.2) }
    }
}

impl Secp256k1KeyGenStage2Input {
    /// For each party, whether the numbers it broadcast can be put to the proofs'
    /// checks.
    pub open spec fn broadcasts_passable(&self) -> Seq<bool> {
        Seq::new(self.bc1s@.len(), |i: int| broadcast_passable(broadcast_numbers(self.bc1s@[i])))
    }

    /// Whether the opening and the proofs of the party at `i` are accepted, where
    /// the check is asked about that party alone.
    pub open spec fn party_accepted(&self, i: int) -> bool {
        keygen_openings_accepted(seq![self.decom1s@[i]], seq![self.bc1s@[i]])
    }

    /// For each party, whether its opening and proofs are accepted.
    pub open spec fn parties_accepted(&self) -> Seq<bool> {
        Seq::new(self.bc1s@.len(), |i: int| self.party_accepted(i))
    }

    /// The failure of the first party whose opening or proofs are not accepted.
    pub open spec fn failed(&self) -> Option<StageError> {
        verdict_of(
            Stage::KeyGen2,
            ErrorKind::Verification,
            all_parties_of(self.share_count as int),
            everyone_of(self.share_count as int),
            self.parties_accepted(),
        )
    }

    /// The failure that the round answers the input with, if any: parameters
    /// that do not fit, commitments or openings that are not one for each party,
    /// the first party whose numbers cannot be put to the proofs' checks, the
    /// first party whose opening or proofs are not accepted, or openings and
    /// proofs that are not accepted together.
    pub open spec fn fault(&self) -> Option<StageError> {
        let shape = parameters_fault(
            Stage::KeyGen2,
            self.threshold,
            self.share_count,
            keys_party_index(self.key),
        );
        let unfit = verdict_of(
            Stage::KeyGen2,
            ErrorKind::MalformedInput,
            all_parties_of(self.share_count as int),
            everyone_of(self.share_count as int),
            self.broadcasts_passable(),
        );
        if shape is Some {
            shape
        } else if self.bc1s@.len() != self.share_count || self.decom1s@.len() != self.share_count {
            Some(StageError::malformed(Stage::KeyGen2))
        } else if unfit is Some {
            unfit
        } else if self.failed() is Some {
            self.failed()
        } else if !keygen_openings_accepted(self.decom1s@, self.bc1s@) {
            Some(StageError::rejected(Stage::KeyGen2))
        } else {
            None
        }
    }
}

/// Opens all commitments, checks all key proofs, and shares the party's secret.
///
/// The checks are made of each party alone first, so that a failure names the
/// party, and then of all together.
///
/// Returns the commitments of a fresh sharing of the party's secret with the
/// given threshold, the first of them to the secret itself; one share for each
/// party in order, each of which fits the commitments at that party's index; and
/// the party's index.
/// Fails as [`Secp256k1KeyGenStage2Input::fault`] says.
pub fn secp256k1_keygen_stage2(input: Secp256k1KeyGenStage2Input) -> (res: Result<
    Secp256k1KeyGenStage2Output,
    StageError,
>)
    ensures
        res is Ok <==> input.fault() is None,
        res matches Err(e) ==> input.fault() == Some(e),
        res matches Ok(out) ==> {
            &&& out.vss.0.parameters.threshold == input.threshold
            &&& out.vss.0.parameters.share_count == input.share_count
            &&& out.vss.0.commitments@.len() == input.threshold + 1
            &&& out.vss.1@.len() == input.share_count
            &&& out.vss.2 == keys_party_index(input.key)
            &&& out.vss.0.commitments@[0] == generator_mul(keys_secret(input.key))
            &&& forall|k: int|
                0 <= k < input.share_count ==> share_accepted(
                    out.vss.0.commitments@,
                    #[trigger] out.vss.1@[k],
                    (k + 1) as u16,
                )
        },
{
    let party_index: usize = input.key.party_index();
    if input.threshold >= input.share_count || party_index < 1 || party_index
        > input.share_count as usize {
        return Err(StageError::shape(Stage::KeyGen2));
    }
    if input.bc1s.len() != input.share_count as usize || input.decom1s.len()
        != input.share_count as usize {
        return Err(StageError::malformed(Stage::KeyGen2));
    }
    let parties = all_parties(input.share_count);
    let everyone = everyone(input.share_count as usize);
    let mut passable: Vec<bool> = Vec::new();
    let mut i: usize = 0;
    while i < input.bc1s.len()
        invariant
            0 <= i <= input.bc1s@.len(),
            passable@.len() == i,
            forall|k: int|
                0 <= k < i ==> passable@[k] == broadcast_passable(
                    broadcast_numbers(input.bc1s@[k]),
                ),
        decreases input.bc1s@.len() - i,
    {
        let numbers = read_broadcast(&input.bc1s[i]);
        passable.push(check_broadcast(&numbers));
        i += 1;
    }
    proof {
        assert(passable@ =~= input.broadcasts_passable());
    }
    match verdict(Stage::KeyGen2, ErrorKind::MalformedInput, &parties, &everyone, &passable) {
        Some(e) => {
            return Err(e);
        },
        None => {},
    }
    proof {
        lemma_first_failure(passable@);
        assert forall|k: int| 0 <= k < input.bc1s@.len() implies broadcast_passable(
            broadcast_numbers(#[trigger] input.bc1s@[k]),
        ) by {
            assert(passable@[k]);
        }
    }
    let mut accepted: Vec<bool> = Vec::new();
    let mut i: usize = 0;
    while i < input.bc1s.len()
        invariant
            input.bc1s@.len() == input.share_count,
            input.decom1s@.len() == input.share_count,
            forall|k: int|
                0 <= k < input.bc1s@.len() ==> broadcast_passable(
                    broadcast_numbers(#[trigger] input.bc1s@[k]),
                ),
            0 <= i <= input.bc1s@.len(),
            accepted@.len() == i,
            forall|k: int| 0 <= k < i ==> accepted@[k] == input.party_accepted(k),
        decreases input.bc1s@.len() - i,
    {
        let opening = single(input.decom1s[i].clone());
        let commitment = single(input.bc1s[i].clone());
        let alone = verify_and_distribute(&input.key, 0, 1, &opening, &commitment);
        accepted.push(alone.is_ok());
        i += 1;
    }
    proof {
        assert(accepted@ =~= input.parties_accepted());
    }
    match verdict(Stage::KeyGen2, ErrorKind::Verification, &parties, &everyone, &accepted) {
        Some(e) => {
            return Err(e);
        },
        None => {},
    }
    match verify_and_distribute(
        &input.key,
        input.threshold,
        input.share_count,
        &input.decom1s,
        &input.bc1s,
    ) {
        Ok(vss) => Ok(Secp256k1KeyGenStage2Output { vss }),
        Err(_) => Err(StageError::rejected(Stage::KeyGen2)),
    }
}

/// What the third round of key generation takes: the public contributions `ys`
/// and the sharings of all parties, and the shares that each party made for
/// this one, all in the order of the parties' indices.
#[derive(Clone, Debug)]
pub struct Secp256k1KeyGenStage3Input {
    pub key: Keys,
    pub ys: Vec<CurvePoint>,
    pub vss_schemes: Vec<VerifiableSS>,
    pub party_shares: Vec<CurveScalar>,
    pub threshold: u16,
    pub share_count: u16,
}

/// What the third round of key generation returns: the party's share of the
/// joint key with the joint public key, and a proof of knowledge of the share.
#[derive(Clone, Debug)]
pub struct Secp256k1KeyGenStage3Output {
    pub shared_key: SharedKeys,
    pub dlog_proof: DLogProof,
}

impl Secp256k1KeyGenStage3Input {
    /// Whether each of the three lists holds one entry for each party, and each
    /// scheme as many commitments as the threshold asks for.
    pub open spec fn lists_fit(&self) -> bool {
        &&& self.ys@.len() == self.share_count
        &&& self.vss_schemes@.len() == self.share_count
        &&& self.party_shares@.len() == self.share_count
        &&& schemes_fit(self.vss_schemes@, self.threshold as int)
    }

    /// Whether the share that the party at `i` made for this party fits that
    /// party's commitments, and those commit to its public contribution.
    pub open spec fn party_accepted(&self, i: int) -> bool {
        &&& share_accepted(
            self.vss_schemes@[i].commitments@,
            self.party_shares@[i],
            keys_party_index(self.key) as u16,
        )
        &&& self.vss_schemes@[i].commitments@[0] == self.ys@[i]
    }

    /// For each party, whether its share is accepted.
    pub open spec fn parties_accepted(&self) -> Seq<bool> {
        Seq::new(self.share_count as nat, |i: int| self.party_accepted(i))
    }

    /// The failure of the first party whose share is not accepted.
    pub open spec fn failed(&self) -> Option<StageError> {
        verdict_of(
            Stage::KeyGen3,
            ErrorKind::Verification,
            all_parties_of(self.share_count as int),
            everyone_of(self.share_count as int),
            self.parties_accepted(),
        )
    }

    /// The party's share of the joint key, the sum of the shares it received,
    /// where every one of them is accepted.
    pub open spec fn share(&self) -> Option<CurveScalar> {
        verified_share(
            self.ys@,
            self.party_shares@,
            commitment_lists(self.vss_schemes@),
            keys_party_index(self.key) as int,
        )
    }

    /// The failure that the round answers the input with, if any: parameters
    /// that do not fit, lists of the wrong length, the first party whose share
    /// is not accepted, or shares that are not accepted together.
    pub open spec fn fault(&self) -> Option<StageError> {
        let shape = parameters_fault(
            Stage::KeyGen3,
            self.threshold,
            self.share_count,
            keys_party_index(self.key),
        );
        if shape is Some {
            shape
        } else if !self.lists_fit() {
            Some(StageError::malformed(Stage::KeyGen3))
        } else if self.failed() is Some {
            self.failed()
        } else if self.share() is None {
            Some(StageError::rejected(Stage::KeyGen3))
        } else {
            None
        }
    }
}

/// Checks the shares that the party received and forms its share of the key.
///
/// Each share is checked alone first, so that a failure names the party that
/// made it, and then all together.
///
/// Returns the joint public key, the sum of all parties' contributions `ys`; the
/// party's share, the sum of the shares it received; and a fresh proof of
/// knowledge of that share, made for the share's multiple of the generator.
/// Fails as [`Secp256k1KeyGenStage3Input::fault`] says.
pub fn secp256k1_keygen_stage3(input: Secp256k1KeyGenStage3Input) -> (res: Result<
    Secp256k1KeyGenStage3Output,
    StageError,
>)
    ensures
        res is Ok <==> input.fault() is None,
        res matches Err(e) ==> input.fault() == Some(e),
        res matches Ok(out) ==> {
            &&& out.shared_key.y == point_total(input.ys@)
            &&& input.share() == Some(out.shared_key.x_i)
            &&& dlog_public_point(out.dlog_proof) == generator_mul(out.shared_key.x_i)
        },
{
    let party_index: usize = input.key.party_index();
    let n: usize = input.share_count as usize;
    if input.threshold >= input.share_count || party_index < 1 || party_index > n {
        return Err(StageError::shape(Stage::KeyGen3));
    }
    if input.ys.len() != n || input.vss_schemes.len() != n || input.party_shares.len() != n
        || !check_schemes(&input.vss_schemes, input.threshold) {
        return Err(StageError::malformed(Stage::KeyGen3));
    }
    let parties = all_parties(input.share_count);
    let everyone = everyone(n);
    let mut accepted: Vec<bool> = Vec::new();
    let mut i: usize = 0;
    while i < n
        invariant
            input.lists_fit(),
            n == input.share_count,
            party_index == keys_party_index(input.key),
            party_index <= n,
            0 <= i <= n,
            accepted@.len() == i,
            forall|k: int| 0 <= k < i ==> accepted@[k] == input.party_accepted(k),
        decreases n - i,
    {
        let fits = validate_share(
            &input.vss_schemes[i],
            &input.party_shares[i],
            party_index as u16,
        );
        let commits = same_point(&input.vss_schemes[i].commitments[0], &input.ys[i]);
        accepted.push(fits.is_ok() && commits);
        i += 1;
    }
    proof {
        assert(accepted@ =~= input.parties_accepted());
    }
    match verdict(Stage::KeyGen3, ErrorKind::Verification, &parties, &everyone, &accepted) {
        Some(e) => {
            return Err(e);
        },
        None => {},
    }
    match verify_shares_and_prove(
        &input.key,
        input.threshold,
        input.share_count,
        &input.ys,
        &input.party_shares,
        &input.vss_schemes,
        party_index,
    ) {
        Ok((y, x_i, dlog_proof)) => Ok(
            Secp256k1KeyGenStage3Output { shared_key: SharedKeys { y, x_i }, dlog_proof },
        ),
        Err(_) => Err(StageError::rejected(Stage::KeyGen3)),
    }
}

/// What the fourth round of key generation takes: the public contributions, the
/// sharings and the proofs of all parties, in the order of their indices.
#[derive(Clone, Debug)]
pub struct Secp256k1KeyGenStage4Input {
    pub ys: Vec<CurvePoint>,
    pub vss_schemes: Vec<VerifiableSS>,
    pub dlog_proofs: Vec<DLogProof>,
    pub threshold: u16,
    pub share_count: u16,
}

/// What the fourth round of key generation returns: nothing but its success.
#[derive(Clone, Debug)]
pub struct Secp256k1KeyGenStage4Output {}

impl Secp256k1KeyGenStage4Input {
    /// Whether each of the three lists holds one entry for each party, and each
    /// scheme as many commitments as the threshold asks for.
    pub open spec fn lists_fit(&self) -> bool {
        &&& self.ys@.len() == self.share_count
        &&& self.vss_schemes@.len() == self.share_count
        &&& self.dlog_proofs@.len() == self.share_count
        &&& schemes_fit(self.vss_schemes@, self.threshold as int)
    }

    /// For each party, whether its proof verifies.
    pub open spec fn parties_accepted(&self) -> Seq<bool> {
        Seq::new(self.share_count as nat, |i: int| dlog_proof_accepted(self.dlog_proofs@[i]))
    }

    /// The failure of the first party whose proof does not verify.
    pub open spec fn failed(&self) -> Option<StageError> {
        verdict_of(
            Stage::KeyGen4,
            ErrorKind::Verification,
            all_parties_of(self.share_count as int),
            everyone_of(self.share_count as int),
            self.parties_accepted(),
        )
    }

    /// Whether every party's proof verifies and is for the party's public share.
    pub open spec fn proofs_accepted(&self) -> bool {
        dlog_proofs_accepted(self.dlog_proofs@, self.ys@, commitment_lists(self.vss_schemes@))
    }

    /// The failure that the round answers the input with, if any: a threshold
    /// that is not below the number of parties, lists of the wrong length, the
    /// first party whose proof does not verify, or a proof that is for another
    /// point than the party's public share. The last check names no party.
    pub open spec fn fault(&self) -> Option<StageError> {
        if self.threshold >= self.share_count {
            Some(StageError::shape(Stage::KeyGen4))
        } else if !self.lists_fit() {
            Some(StageError::malformed(Stage::KeyGen4))
        } else if self.failed() is Some {
            self.failed()
        } else if !self.proofs_accepted() {
            Some(StageError::rejected(Stage::KeyGen4))
        } else {
            None
        }
    }
}

/// Checks every party's proof of knowledge of its share against the committed
/// polynomials. Success ends the key generation.
///
/// Fails as [`Secp256k1KeyGenStage4Input::fault`] says.
pub fn secp256k1_keygen_stage4(input: Secp256k1KeyGenStage4Input) -> (res: Result<
    Secp256k1KeyGenStage4Output,
    StageError,
>)
    ensures
        res is Ok <==> input.fault() is None,
        res matches Err(e) ==> input.fault() == Some(e),
{
    let n: usize = input.share_count as usize;
    if input.threshold >= input.share_count {
        return Err(StageError::shape(Stage::KeyGen4));
    }
    if input.ys.len() != n || input.vss_schemes.len() != n || input.dlog_proofs.len() != n
        || !check_schemes(&input.vss_schemes, input.threshold) {
        return Err(StageError::malformed(Stage::KeyGen4));
    }
    let parties = all_parties(input.share_count);
    let everyone = everyone(n);
    let mut accepted: Vec<bool> = Vec::new();
    let mut i: usize = 0;
    while i < n
        invariant
            input.lists_fit(),
            n == input.share_count,
            0 <= i <= n,
            accepted@.len() == i,
            forall|k: int|
                0 <= k < i ==> accepted@[k] == dlog_proof_accepted(input.dlog_proofs@[k]),
        decreases n - i,
    {
        accepted.push(verify_dlog_proof(&input.dlog_proofs[i]).is_ok());
        i += 1;
    }
    proof {
        assert(accepted@ =~= input.parties_accepted());
    }
    match verdict(Stage::KeyGen4, ErrorKind::Verification, &parties, &everyone, &accepted) {
        Some(e) => {
            return Err(e);
        },
        None => {},
    }
    match verify_dlog_proofs(
        input.threshold,
        input.share_count,
        &input.dlog_proofs,
        &input.ys,
        &input.vss_schemes,
    ) {
        Ok(_) => Ok(Secp256k1KeyGenStage4Output {  }),
        Err(_) => Err(StageError::rejected(Stage::KeyGen4)),
    }
}

/// What the reconstruction takes: a sharing, for its threshold, and the shares
/// `xs` of the parties `parties`, in the same order.
#[derive(Clone, Debug)]
pub struct Secp256k1ConstructPrivateKeyInput {
    pub vss_scheme: VerifiableSS,
    pub parties: Vec<u16>,
    pub xs: Vec<CurveScalar>,
}

impl Secp256k1ConstructPrivateKeyInput {
    /// The failure that the reconstruction answers the input with, if any:
    /// parties that are not distinct parties of the sharing, or not more than
    /// the threshold, or shares that are not one for each party.
    pub open spec fn fault(&self) -> Option<StageError> {
        if !signing_subset(
            self.parties@,
            self.vss_scheme.parameters.threshold as int,
            self.vss_scheme.parameters.share_count as int,
        ) {
            Some(StageError::shape(Stage::Reconstruct))
        } else if self.xs@.len() != self.parties@.len() {
            Some(StageError::malformed(Stage::Reconstruct))
        } else {
            None
        }
    }
}

/// Reconstructs the joint secret from the shares `xs` of the parties `parties`.
///
/// This is a tool for audits and tests. Whoever runs it holds the whole private
/// key, which the protocol exists to prevent: it has no place in signing.
///
/// Returns the value at 0 of the polynomial through the parties' shares. Fails
/// as [`Secp256k1ConstructPrivateKeyInput::fault`] says.
pub fn secp256k1_construct_private_key(input: Secp256k1ConstructPrivateKeyInput) -> (res: Result<
    CurveScalar,
    StageError,
>)
    ensures
        res is Ok <==> input.fault() is None,
        res matches Err(e) ==> input.fault() == Some(e),
        res matches Ok(x) ==> x == reconstructed_secret(positions_of(input.parties@), input.xs@),
{
    if !check_signing_subset(
        &input.parties,
        input.vss_scheme.parameters.threshold,
        input.vss_scheme.parameters.share_count as usize,
    ) {
        return Err(StageError::shape(Stage::Reconstruct));
    }
    if input.xs.len() != input.parties.len() {
        return Err(StageError::malformed(Stage::Reconstruct));
    }
    match positions(&input.parties) {
        Some(indices) => {
            proof {
                lemma_positions(
                    input.parties@,
                    input.vss_scheme.parameters.share_count as int,
                );
                assert(input.parties@.len() >= 1);
                lemma_named_positions(input.parties@);
            }
            Ok(reconstruct_secret(&input.vss_scheme, &indices, &input.xs))
        },
        None => Err(StageError::shape(Stage::Reconstruct)),
    }
}

/// The second round accepts no input in which one party's numbers are unfit, or
/// its opening or proofs are not accepted.
pub proof fn lemma_stage2_accepts_only_verified(input: Secp256k1KeyGenStage2Input)
    requires
        input.fault() is None,
    ensures
        forall|i: int|
            0 <= i < input.share_count ==> broadcast_passable(
                broadcast_numbers(#[trigger] input.bc1s@[i]),
            ) && input.party_accepted(i),
        keygen_openings_accepted(input.decom1s@, input.bc1s@),
{
    lemma_first_failure(input.broadcasts_passable());
    lemma_first_failure(input.parties_accepted());
    assert forall|i: int| 0 <= i < input.share_count implies broadcast_passable(
        broadcast_numbers(#[trigger] input.bc1s@[i]),
    ) && input.party_accepted(i) by {
        assert(input.broadcasts_passable()[i]);
        assert(input.parties_accepted()[i]);
    }
}

/// The third round accepts no input in which one party's share does not fit
/// that party's commitments.
pub proof fn lemma_stage3_accepts_only_verified(input: Secp256k1KeyGenStage3Input)
    requires
        input.fault() is None,
    ensures
        forall|i: int| 0 <= i < input.share_count ==> input.party_accepted(i),
        input.share() is Some,
{
    lemma_first_failure(input.parties_accepted());
    assert forall|i: int| 0 <= i < input.share_count implies input.party_accepted(i) by {
        assert(input.parties_accepted()[i]);
    }
}

/// The fourth round accepts no input in which one party's proof does not
/// verify, or is for another point than the party's public share.
pub proof fn lemma_stage4_accepts_only_verified(input: Secp256k1KeyGenStage4Input)
    requires
        input.fault() is None,
    ensures
        forall|i: int|
            0 <= i < input.share_count ==> dlog_proof_accepted(#[trigger] input.dlog_proofs@[i]),
        input.proofs_accepted(),
{
    lemma_first_failure(input.parties_accepted());
    assert forall|i: int| 0 <= i < input.share_count implies dlog_proof_accepted(
        #[trigger] input.dlog_proofs@[i],
    ) by {
        assert(input.parties_accepted()[i]);
    }
}

} // verus!
