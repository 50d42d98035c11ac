//! The values that the rounds exchange and keep.
//!
//! Messages and proofs that a round only hands on are the protocol library's own
//! values, opaque here. Aggregates whose lists a round indexes are structs of this
//! crate with the same fields as the protocol library's.

use crate::curve::{
    are_coprime, bits_of, coprime, integer_bits, integer_is_negative, integer_product,
    is_negative_integer, multiply_integers, same_integer, CurvePoint, CurveScalar,
};
use curv::cryptographic_primitives::proofs::sigma_correct_homomorphic_elgamal_enc;
use curv::cryptographic_primitives::proofs::sigma_dlog;
use curv::cryptographic_primitives::proofs::sigma_valid_pedersen;
use curv::cryptographic_primitives::secret_sharing::feldman_vss::ShamirSecretSharing;
use curv::elliptic::curves::secp256_k1::Secp256k1;
use curv::BigInt;
use kzen_paillier::{DecryptionKey, EncryptionKey};
use multi_party_ecdsa::protocols::multi_party_ecdsa::gg_2020::party_i;
use multi_party_ecdsa::protocols::multi_party_ecdsa::gg_2020::party_i::{
    KeyGenBroadcastMessage1, KeyGenDecommitMessage1, SignBroadcastPhase1, SignDecommitPhase1,
};
use multi_party_ecdsa::utilities::mta::{MessageA, MessageB};
use multi_party_ecdsa::utilities::zk_pdl_with_slack::PDLwSlackProof;
use sha2::Sha256;
use vstd::prelude::*;
use zk_paillier::zkproofs::DLogStatement;

verus! {

/// `kzen_paillier::EncryptionKey`, a Paillier public key.
#[verifier::external_type_specification]
#[verifier::external_body]
pub struct ExEncryptionKey(EncryptionKey);

/// `kzen_paillier::DecryptionKey`, a Paillier private key.
#[verifier::external_type_specification]
#[verifier::external_body]
pub struct ExDecryptionKey(DecryptionKey);

/// `zk_paillier`'s `DLogStatement`: a party's `h1`, `h2` and `N~`.
#[verifier::external_type_specification]
#[verifier::external_body]
pub struct ExDLogStatement(DLogStatement);

/// The commitment that a party broadcasts in the first round of key generation.
#[verifier::external_type_specification]
#[verifier::external_body]
pub struct ExKeyGenBroadcastMessage1(KeyGenBroadcastMessage1);

/// The opening of a party's key generation commitment.
#[verifier::external_type_specification]
#[verifier::external_body]
pub struct ExKeyGenDecommitMessage1(KeyGenDecommitMessage1);

/// The commitment to `gamma_i * G` that a signer broadcasts.
#[verifier::external_type_specification]
#[verifier::external_body]
pub struct ExSignBroadcastPhase1(SignBroadcastPhase1);

/// The opening of a signer's commitment to `gamma_i * G`.
#[verifier::external_type_specification]
#[verifier::external_body]
pub struct ExSignDecommitPhase1(SignDecommitPhase1);

/// The request of a share conversion: an encryption of `k_i` with range proofs.
#[verifier::external_type_specification]
#[verifier::external_body]
pub struct ExMessageA(MessageA);

/// The response of a share conversion.
#[verifier::external_type_specification]
#[verifier::external_body]
pub struct ExMessageB(MessageB);

/// A proof that a Paillier ciphertext holds the discrete logarithm of a point.
#[verifier::external_type_specification]
#[verifier::external_body]
pub struct ExPDLwSlackProof(PDLwSlackProof);

/// `<EncryptionKey as Clone>::clone`: the copy is the same key.
pub assume_specification[ <EncryptionKey as Clone>::clone ](k: &EncryptionKey) -> (r:
    EncryptionKey)
    ensures
        r == *k,
;

/// `<DecryptionKey as Clone>::clone`: the copy is the same key.
pub assume_specification[ <DecryptionKey as Clone>::clone ](k: &DecryptionKey) -> (r:
    DecryptionKey)
    ensures
        r == *k,
;

/// `<DLogStatement as Clone>::clone`: the copy is the same statement.
pub assume_specification[ <DLogStatement as Clone>::clone ](s: &DLogStatement) -> (r:
    DLogStatement)
    ensures
        r == *s,
;

/// `<KeyGenBroadcastMessage1 as Clone>::clone`: the copy is the same message.
pub assume_specification[ <KeyGenBroadcastMessage1 as Clone>::clone ](
    m: &KeyGenBroadcastMessage1,
) -> (r: KeyGenBroadcastMessage1)
    ensures
        r == *m,
;

/// `<KeyGenDecommitMessage1 as Clone>::clone`: the copy is the same message.
pub assume_specification[ <KeyGenDecommitMessage1 as Clone>::clone ](
    m: &KeyGenDecommitMessage1,
) -> (r: KeyGenDecommitMessage1)
    ensures
        r == *m,
;

/// `<SignBroadcastPhase1 as Clone>::clone`: the copy is the same message.
pub assume_specification[ <SignBroadcastPhase1 as Clone>::clone ](m: &SignBroadcastPhase1) -> (r:
    SignBroadcastPhase1)
    ensures
        r == *m,
;

/// `<SignDecommitPhase1 as Clone>::clone`: the copy is the same message.
pub assume_specification[ <SignDecommitPhase1 as Clone>::clone ](m: &SignDecommitPhase1) -> (r:
    SignDecommitPhase1)
    ensures
        r == *m,
;

/// `<MessageA as Clone>::clone`: the copy is the same message.
pub assume_specification[ <MessageA as Clone>::clone ](m: &MessageA) -> (r: MessageA)
    ensures
        r == *m,
;

/// `<MessageB as Clone>::clone`: the copy is the same message.
pub assume_specification[ <MessageB as Clone>::clone ](m: &MessageB) -> (r: MessageB)
    ensures
        r == *m,
;

/// `<PDLwSlackProof as Clone>::clone`: the copy is the same proof.
pub assume_specification[ <PDLwSlackProof as Clone>::clone ](p: &PDLwSlackProof) -> (r:
    PDLwSlackProof)
    ensures
        r == *p,
;

/// A party's key generation material: the protocol library's `Keys`.
#[verifier::external_body]
#[derive(Debug)]
pub struct Keys {
    pub inner: party_i::Keys,
}

/// A proof of knowledge of a discrete logarithm: `curv`'s `DLogProof`.
#[verifier::external_body]
#[derive(Debug)]
pub struct DLogProof {
    pub inner: sigma_dlog::DLogProof<Secp256k1, Sha256>,
}

/// A proof that a Pedersen commitment was formed correctly: `curv`'s
/// `PedersenProof`.
#[verifier::external_body]
#[derive(Debug)]
pub struct PedersenProof {
    pub inner: sigma_valid_pedersen::PedersenProof<Secp256k1, Sha256>,
}

/// A proof that `S_i` fits `R`, `T_i` and `sigma_i`: `curv`'s `HomoELGamalProof`.
#[verifier::external_body]
#[derive(Debug)]
pub struct HomoELGamalProof {
    pub inner: sigma_correct_homomorphic_elgamal_enc::HomoELGamalProof<Secp256k1, Sha256>,
}

impl Clone for Keys {
    /// `Keys::clone`: the copy is the same material.
    #[verifier::external_body]
    fn clone(&self) -> (r: Self)
        ensures
            r == *self,
    {
        Keys { inner: self.inner.clone() }
    }
}

impl Clone for DLogProof {
    /// `DLogProof::clone`: the copy is the same proof.
    #[verifier::external_body]
    fn clone(&self) -> (r: Self)
        ensures
            r == *self,
    {
        DLogProof { inner: self.inner.clone() }
    }
}

impl Clone for PedersenProof {
    /// `PedersenProof::clone`: the copy is the same proof.
    #[verifier::external_body]
    fn clone(&self) -> (r: Self)
        ensures
            r == *self,
    {
        PedersenProof { inner: self.inner.clone() }
    }
}

impl Clone for HomoELGamalProof {
    /// `HomoELGamalProof::clone`: the copy is the same proof.
    #[verifier::external_body]
    fn clone(&self) -> (r: Self)
        ensures
            r == *self,
    {
        HomoELGamalProof { inner: self.inner.clone() }
    }
}

/// The least number of bits that the protocol accepts of a Paillier modulus and
/// of a modulus `N~`.
pub const MODULUS_MIN_BITS: usize = 2047;

/// The greatest number of bits that the protocol accepts of a Paillier modulus
/// and of a modulus `N~`.
pub const MODULUS_MAX_BITS: usize = 2048;

/// The numbers of a Paillier public key: the modulus and its square.
pub struct EncryptionNumbers {
    pub n: BigInt,
    pub nn: BigInt,
}

/// The numbers of a Paillier private key: the two factors of the modulus.
pub struct DecryptionNumbers {
    pub p: BigInt,
    pub q: BigInt,
}

/// The numbers of a party's statement: `N~`, `h1` and `h2`.
pub struct StatementNumbers {
    pub n_tilde: BigInt,
    pub h1: BigInt,
    pub h2: BigInt,
}

/// The numbers of a Paillier public key.
pub uninterp spec fn encryption_numbers(ek: EncryptionKey) -> EncryptionNumbers;

/// The numbers of a Paillier private key.
pub uninterp spec fn decryption_numbers(dk: DecryptionKey) -> DecryptionNumbers;

/// The numbers of a party's statement.
pub uninterp spec fn statement_numbers(statement: DLogStatement) -> StatementNumbers;

/// `n` can serve as a modulus: it is positive and of an accepted size.
pub open spec fn modulus_fit(n: BigInt) -> bool {
    !integer_is_negative(n) && MODULUS_MIN_BITS <= integer_bits(n) <= MODULUS_MAX_BITS
}

/// `p` can serve as a factor of a modulus: it is at least 2.
pub open spec fn factor_fit(p: BigInt) -> bool {
    !integer_is_negative(p) && integer_bits(p) >= 2
}

/// A Paillier public key that the protocol can compute with: its modulus can
/// serve as one, and its square is the modulus' square. The protocol library
/// samples below the modulus and reduces by both, and panics on a number that
/// does not allow it.
pub open spec fn encryption_key_sound(ek: EncryptionKey) -> bool {
    &&& modulus_fit(encryption_numbers(ek).n)
    &&& encryption_numbers(ek).nn == integer_product(
        encryption_numbers(ek).n,
        encryption_numbers(ek).n,
    )
}

/// A Paillier private key that the protocol can decrypt with: its factors are at
/// least 2 and have no common divisor. The decryption inverts one modulo the
/// other, and panics where it cannot.
pub open spec fn decryption_key_sound(dk: DecryptionKey) -> bool {
    &&& factor_fit(decryption_numbers(dk).p)
    &&& factor_fit(decryption_numbers(dk).q)
    &&& coprime(decryption_numbers(dk).p, decryption_numbers(dk).q)
}

/// A statement that the protocol can compute with: `N~` can serve as a modulus,
/// and `h1` and `h2` are units modulo `N~`.
pub open spec fn statement_sound(statement: DLogStatement) -> bool {
    &&& modulus_fit(statement_numbers(statement).n_tilde)
    &&& coprime(statement_numbers(statement).h1, statement_numbers(statement).n_tilde)
    &&& coprime(statement_numbers(statement).h2, statement_numbers(statement).n_tilde)
}

/// Every key of `keys` is sound.
pub open spec fn encryption_keys_sound(keys: Seq<EncryptionKey>) -> bool {
    forall|i: int| 0 <= i < keys.len() ==> encryption_key_sound(#[trigger] keys[i])
}

/// Every statement of `statements` is sound.
pub open spec fn statements_sound(statements: Seq<DLogStatement>) -> bool {
    forall|i: int| 0 <= i < statements.len() ==> statement_sound(#[trigger] statements[i])
}

/// The fields `n` and `nn` of `kzen_paillier`'s `EncryptionKey`.
#[verifier::external_body]
pub(crate) fn read_encryption_key(ek: &EncryptionKey) -> (r: EncryptionNumbers)
    ensures
        r == encryption_numbers(*ek),
{
    EncryptionNumbers { n: ek.n.clone(), nn: ek.nn.clone() }
}

/// The fields `p` and `q` of `kzen_paillier`'s `DecryptionKey`.
#[verifier::external_body]
pub(crate) fn read_decryption_key(dk: &DecryptionKey) -> (r: DecryptionNumbers)
    ensures
        r == decryption_numbers(*dk),
{
    DecryptionNumbers { p: dk.p.clone(), q: dk.q.clone() }
}

/// The fields `N`, `g` and `ni` of `zk_paillier`'s `DLogStatement`.
#[verifier::external_body]
pub(crate) fn read_statement(statement: &DLogStatement) -> (r: StatementNumbers)
    ensures
        r == statement_numbers(*statement),
{
    StatementNumbers {
        n_tilde: statement.N.clone(),
        h1: statement.g.clone(),
        h2: statement.ni.clone(),
    }
}

/// Whether `n` can serve as a modulus.
pub fn check_modulus(n: &BigInt) -> (b: bool)
    ensures
        b == modulus_fit(*n),
{
    let bits: usize = bits_of(n);
    !is_negative_integer(n) && MODULUS_MIN_BITS <= bits && bits <= MODULUS_MAX_BITS
}

/// Whether a Paillier public key is sound.
pub fn check_encryption_key(ek: &EncryptionKey) -> (b: bool)
    ensures
        b == encryption_key_sound(*ek),
{
    let numbers = read_encryption_key(ek);
    check_modulus(&numbers.n) && same_integer(
        &numbers.nn,
        &multiply_integers(&numbers.n, &numbers.n),
    )
}

/// Whether a Paillier private key is sound.
pub fn check_decryption_key(dk: &DecryptionKey) -> (b: bool)
    ensures
        b == decryption_key_sound(*dk),
{
    let numbers = read_decryption_key(dk);
    let p_bits: usize = bits_of(&numbers.p);
    let q_bits: usize = bits_of(&numbers.q);
    !is_negative_integer(&numbers.p) && p_bits >= 2 && !is_negative_integer(&numbers.q) && q_bits
        >= 2 && are_coprime(&numbers.p, &numbers.q)
}

/// Whether a statement is sound.
pub fn check_statement(statement: &DLogStatement) -> (b: bool)
    ensures
        b == statement_sound(*statement),
{
    let numbers = read_statement(statement);
    check_modulus(&numbers.n_tilde) && are_coprime(&numbers.h1, &numbers.n_tilde) && are_coprime(
        &numbers.h2,
        &numbers.n_tilde,
    )
}

/// Whether every key of `keys` is sound.
pub fn check_encryption_keys(keys: &Vec<EncryptionKey>) -> (b: bool)
    ensures
        b == encryption_keys_sound(keys@),
{
    let mut i: usize = 0;
    while i < keys.len()
        invariant
            i <= keys.len(),
            forall|k: int| 0 <= k < i ==> encryption_key_sound(#[trigger] keys@[k]),
        decreases keys.len() - i,
    {
        if !check_encryption_key(&keys[i]) {
            return false;
        }
        i += 1;
    }
    true
}

/// Whether every statement of `statements` is sound.
pub fn check_statements(statements: &Vec<DLogStatement>) -> (b: bool)
    ensures
        b == statements_sound(statements@),
{
    let mut i: usize = 0;
    while i < statements.len()
        invariant
            i <= statements.len(),
            forall|k: int| 0 <= k < i ==> statement_sound(#[trigger] statements@[k]),
        decreases statements.len() - i,
    {
        if !check_statement(&statements[i]) {
            return false;
        }
        i += 1;
    }
    true
}

/// The index that key generation material was made for.
pub uninterp spec fn keys_party_index(k: Keys) -> usize;

/// The ciphertext of a share conversion request.
pub uninterp spec fn mta_ciphertext(m: MessageA) -> BigInt;

/// The point `b * G` that a share conversion response proves knowledge of `b`
/// for.
pub uninterp spec fn mta_public_point(m: MessageB) -> CurvePoint;

/// The commitment that a Pedersen proof speaks of.
pub uninterp spec fn pedersen_commitment(p: PedersenProof) -> CurvePoint;

impl Keys {
    /// The field `party_index` of the protocol library's `Keys`.
    #[verifier::external_body]
    pub(crate) fn party_index(&self) -> (r: usize)
        ensures
            r == keys_party_index(*self),
    {
        self.inner.party_index
    }
}

impl PedersenProof {
    /// The field `com` of `curv`'s `PedersenProof`.
    #[verifier::external_body]
    pub(crate) fn commitment(&self) -> (r: CurvePoint)
        ensures
            r == pedersen_commitment(*self),
    {
        CurvePoint { inner: self.inner.com.clone() }
    }
}

/// The field `c` of the protocol library's `MessageA`.
#[verifier::external_body]
pub(crate) fn request_ciphertext(m: &MessageA) -> (r: BigInt)
    ensures
        r == mta_ciphertext(*m),
{
    m.c.clone()
}

/// The field `b_proof.pk` of the protocol library's `MessageB`.
#[verifier::external_body]
pub(crate) fn response_public_point(m: &MessageB) -> (r: CurvePoint)
    ensures
        r == mta_public_point(*m),
{
    CurvePoint { inner: m.b_proof.pk.clone() }
}

/// `curv`'s `ShamirSecretSharing`, the parameters of a secret sharing: any
/// `threshold + 1` of `share_count` parties hold the secret.
#[verifier::external_type_specification]
pub struct ExShamirSecretSharing(ShamirSecretSharing);

/// `<ShamirSecretSharing as Clone>::clone`: the copy has the same parameters.
pub assume_specification[ <ShamirSecretSharing as Clone>::clone ](p: &ShamirSecretSharing) -> (r:
    ShamirSecretSharing)
    ensures
        r == *p,
;

/// The public part of a verifiable secret sharing: commitments to the
/// coefficients of the sharing polynomial, the constant term first.
#[derive(Clone, Debug)]
pub struct VerifiableSS {
    pub parameters: ShamirSecretSharing,
    pub commitments: Vec<CurvePoint>,
}

/// A party's share `x_i` of the joint key and the joint public key `y`.
#[derive(Clone, Debug)]
pub struct SharedKeys {
    pub y: CurvePoint,
    pub x_i: CurveScalar,
}

/// The values of one signing session. They serve one signing attempt and no
/// second one.
#[derive(Clone, Debug)]
pub struct SignKeys {
    pub w_i: CurveScalar,
    pub g_w_i: CurvePoint,
    pub k_i: CurveScalar,
    pub gamma_i: CurveScalar,
    pub g_gamma_i: CurvePoint,
}

/// What one party keeps of a key generation.
#[derive(Clone, Debug)]
pub struct LocalKey {
    pub paillier_dk: DecryptionKey,
    pub pk_vec: Vec<CurvePoint>,
    pub keys_linear: SharedKeys,
    pub paillier_key_vec: Vec<EncryptionKey>,
    pub y_sum_s: CurvePoint,
    pub h1_h2_n_tilde_vec: Vec<DLogStatement>,
    pub vss_scheme: VerifiableSS,
    pub i: u16,
    pub t: u16,
    pub n: u16,
}

/// One signer's share `s_i` of a signature, with what is needed to combine and
/// check the shares.
#[derive(Clone, Debug)]
pub struct LocalSignature {
    pub r: CurveScalar,
    pub r_point: CurvePoint,
    pub s_i: CurveScalar,
    pub m: BigInt,
    pub y: CurvePoint,
}

/// A signature with the identifier that recovers the public key from it.
#[derive(Clone, Debug)]
pub struct SignatureRecid {
    pub r: CurveScalar,
    pub s: CurveScalar,
    pub recid: u8,
}

/// What the message-independent rounds of signing leave for the rounds that
/// sign a message.
#[derive(Clone, Debug)]
pub struct CompletedOfflineStage {
    pub index: u16,
    pub local_key: LocalKey,
    pub sign_key: SignKeys,
    pub ts: Vec<CurvePoint>,
    pub r: CurvePoint,
    pub sigma_i: CurveScalar,
}

impl LocalKey {
    /// The lists hold one entry for each of the `n` parties, the party is one of
    /// them, the threshold is below `n`, and the sharing has `t + 1` commitments.
    pub open spec fn shaped(&self) -> bool {
        &&& self.t < self.n
        &&& 1 <= self.i <= self.n
        &&& self.pk_vec@.len() == self.n
        &&& self.paillier_key_vec@.len() == self.n
        &&& self.h1_h2_n_tilde_vec@.len() == self.n
        &&& self.vss_scheme.commitments@.len() == self.t + 1
        &&& self.vss_scheme.parameters.threshold == self.t
        &&& self.vss_scheme.parameters.share_count == self.n
    }

    /// The party's own Paillier public key.
    pub open spec fn own_key(&self) -> EncryptionKey {
        self.paillier_key_vec@[self.i - 1]
    }

    /// The key is shaped, every party's Paillier key and statement is sound, and
    /// the party's private key is sound and is the one of its public key: its
    /// factors multiply to that key's modulus.
    pub open spec fn wf(&self) -> bool {
        &&& self.shaped()
        &&& encryption_keys_sound(self.paillier_key_vec@)
        &&& statements_sound(self.h1_h2_n_tilde_vec@)
        &&& decryption_key_sound(self.paillier_dk)
        &&& integer_product(
            decryption_numbers(self.paillier_dk).p,
            decryption_numbers(self.paillier_dk).q,
        ) == encryption_numbers(self.own_key()).n
    }

    /// Whether the key is shaped.
    pub fn is_shaped(&self) -> (b: bool)
        ensures
            b == self.shaped(),
    {
        let n: usize = self.n as usize;
        self.t < self.n && 1 <= self.i && self.i <= self.n && self.pk_vec.len() == n
            && self.paillier_key_vec.len() == n && self.h1_h2_n_tilde_vec.len() == n
            && self.vss_scheme.commitments.len() == self.t as usize + 1
            && self.vss_scheme.parameters.threshold == self.t
            && self.vss_scheme.parameters.share_count == self.n
    }

    /// Whether the key is well formed.
    pub fn is_well_formed(&self) -> (b: bool)
        ensures
            b == self.wf(),
    {
        if !self.is_shaped() || !check_encryption_keys(&self.paillier_key_vec) || !check_statements(
            &self.h1_h2_n_tilde_vec,
        ) || !check_decryption_key(&self.paillier_dk) {
            return false;
        }
        let factors = read_decryption_key(&self.paillier_dk);
        let own = read_encryption_key(&self.paillier_key_vec[(self.i - 1) as usize]);
        same_integer(&multiply_integers(&factors.p, &factors.q), &own.n)
    }
}

/// The list that holds `x` and nothing else.
pub fn single<T>(x: T) -> (v: Vec<T>)
    ensures
        v@ == seq![x],
{
    let mut v: Vec<T> = Vec::new();
    v.push(x);
    assert(v@ =~= seq![x]);
    v
}

/// The lists of coefficient commitments of `schemes`, one list for each scheme.
pub open spec fn commitment_lists(schemes: Seq<VerifiableSS>) -> Seq<Seq<CurvePoint>> {
    Seq::new(schemes.len(), |i: int| schemes[i].commitments@)
}

} // verus!
