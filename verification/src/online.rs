//! The rounds of signing that depend on the message, and the verification of a
//! signature.

use crate::curve::{
    add_points, fold_scalars, integer_from_bytes, integer_of_bytes, is_identity, is_zero_scalar,
    mul_generator, mul_point, point_is_identity, point_x, scalar_fold, scalar_from_integer,
    scalar_is_zero, scalar_of_integer, x_coordinate, CurvePoint, CurveScalar,
};
use crate::errors::{Stage, StageError};
use crate::material::{CompletedOfflineStage, LocalSignature, SignatureRecid};
use crate::sign_calls::{
    combine_signature, combined_signature, compute_local_signature, ecdsa_accepted,
    local_signature_of, verification_defined, verification_point, verify_ecdsa,
};
use curv::BigInt;
use vstd::prelude::*;

verus! {

/// The point `m * G + r * y` of the verification of a signature.
fn compute_verification_point(r: &CurveScalar, y: &CurvePoint, m: &BigInt) -> (p: CurvePoint)
    ensures
        p == verification_point(*r, *y, *m),
{
    let m_g = mul_generator(&scalar_from_integer(m));
    let r_y = mul_point(y, r);
    add_points(&m_g, &r_y)
}

/// `(r, s)` of `signature` is an ECDSA signature of `m` under the public key
/// `y`: the verification is defined, and accepts.
pub open spec fn signature_valid(signature: SignatureRecid, y: CurvePoint, m: BigInt) -> bool {
    &&& verification_defined(signature.r, signature.s, y, m)
    &&& ecdsa_accepted(signature.r, signature.s, y, m)
}

/// Whether `signature` is a signature of `message`, read as a big-endian
/// integer, under the public key `y`.
pub fn verify_signature(signature: &SignatureRecid, y: &CurvePoint, message: &Vec<u8>) -> (b: bool)
    ensures
        b == signature_valid(*signature, *y, integer_of_bytes(message@)),
{
    let m = integer_from_bytes(message.as_slice());
    if is_zero_scalar(&signature.s) {
        return false;
    }
    if is_identity(&compute_verification_point(&signature.r, y, &m)) {
        return false;
    }
    verify_ecdsa(signature, y, &m).is_ok()
}

/// What the eighth round of signing takes: what the signer has gathered, and the
/// message to sign, as bytes.
#[derive(Clone, Debug)]
pub struct Secp256k1SignStage8Input {
    pub completed_offline_stage: CompletedOfflineStage,
    pub message: Vec<u8>,
}

/// What the eighth round of signing returns: the signer's part in the signature,
/// and its share `s_i` to send to its peers.
#[derive(Clone, Debug)]
pub struct Secp256k1SignStage8Output {
    pub local_signature: LocalSignature,
    pub partial_signature: CurveScalar,
}

impl Secp256k1SignStage8Input {
    /// The failure that the round answers the input with, if any: a point `R`
    /// without coordinates.
    pub open spec fn fault(&self) -> Option<StageError> {
        if point_x(self.completed_offline_stage.r) is None {
            Some(StageError::malformed(Stage::Sign8))
        } else {
            None
        }
    }

    /// `out` is what the round returns for the input: the signer's part in the
    /// signature of the message, read as a big-endian integer, for `R` and the
    /// joint public key, and its share `s_i` once more.
    pub open spec fn yields(&self, out: Secp256k1SignStage8Output) -> bool {
        let offline = self.completed_offline_stage;
        let m = integer_of_bytes(self.message@);
        &&& out.local_signature == local_signature_of(
            offline.sign_key.k_i,
            m,
            offline.r,
            offline.sigma_i,
            offline.local_key.y_sum_s,
        )
        &&& out.local_signature.r_point == offline.r
        &&& out.local_signature.m == m
        &&& out.local_signature.y == offline.local_key.y_sum_s
        &&& out.partial_signature == out.local_signature.s_i
    }
}

/// Computes the signer's share of the signature of a message.
///
/// Returns what [`Secp256k1SignStage8Input::yields`] says. Fails as
/// [`Secp256k1SignStage8Input::fault`] says.
pub fn secp256k1_sign_stage8(input: Secp256k1SignStage8Input) -> (res: Result<
    Secp256k1SignStage8Output,
    StageError,
>)
    ensures
        res is Ok <==> input.fault() is None,
        res matches Err(e) ==> input.fault() == Some(e),
        res matches Ok(out) ==> input.yields(out),
{
    if x_coordinate(&input.completed_offline_stage.r).is_none() {
        return Err(StageError::malformed(Stage::Sign8));
    }
    let m = integer_from_bytes(input.message.as_slice());
    let local_signature = compute_local_signature(
        &input.completed_offline_stage.sign_key.k_i,
        &m,
        &input.completed_offline_stage.r,
        &input.completed_offline_stage.sigma_i,
        &input.completed_offline_stage.local_key.y_sum_s,
    );
    let partial_signature = local_signature.s_i.clone();
    Ok(Secp256k1SignStage8Output { local_signature, partial_signature })
}

/// What the ninth round of signing takes: the signer's part in the signature,
/// and the shares `s_j` of its peers.
#[derive(Clone, Debug)]
pub struct Secp256k1SignStage9Input {
    pub local_signature: LocalSignature,
    pub partial_signatures: Vec<CurveScalar>,
}

/// What the ninth round of signing returns: the signature.
#[derive(Clone, Debug)]
pub struct Secp256k1SignStage9Output {
    pub signature: SignatureRecid,
}

impl Secp256k1SignStage9Input {
    /// The signature that the signer's share and the shares of its peers add up
    /// to.
    pub open spec fn combined(&self) -> SignatureRecid {
        combined_signature(
            self.local_signature.r_point,
            self.local_signature.s_i,
            self.partial_signatures@,
        )
    }

    /// Whether the shares add up to zero, which is no signature.
    pub open spec fn cancels(&self) -> bool {
        scalar_is_zero(scalar_fold(self.local_signature.s_i, self.partial_signatures@))
    }

    /// Whether the verification has a point with coordinates to read, for the
    /// x-coordinate `x` of `R`.
    pub open spec fn checkable(&self, x: BigInt) -> bool {
        !point_is_identity(
            verification_point(
                scalar_of_integer(x),
                self.local_signature.y,
                self.local_signature.m,
            ),
        )
    }

    /// Whether the combined signature is a signature of the message under the
    /// public key that the signer's share came with.
    pub open spec fn verifies(&self) -> bool {
        ecdsa_accepted(
            self.combined().r,
            self.combined().s,
            self.local_signature.y,
            self.local_signature.m,
        )
    }

    /// The failure that the round answers the input with, if any: a point `R`
    /// without coordinates, shares that add up to zero, or a combined signature
    /// that cannot be verified or does not verify.
    pub open spec fn fault(&self) -> Option<StageError> {
        match point_x(self.local_signature.r_point) {
            None => Some(StageError::malformed(Stage::Sign9)),
            Some(x) => if self.cancels() || !self.checkable(x) || !self.verifies() {
                Some(StageError::rejected(Stage::Sign9))
            } else {
                None
            },
        }
    }
}

/// Combines the signer's share with the shares `partial_signatures` of its peers
/// and checks the signature.
///
/// Returns the combined signature with its recovery identifier, 0 or 1: `r` is
/// the x-coordinate of `R` modulo the group order, `s` is not zero, and the
/// signature verifies for the message under the public key of the signer's
/// share. Fails as
/// [`Secp256k1SignStage9Input::fault`] says.
pub fn secp256k1_sign_stage9(input: Secp256k1SignStage9Input) -> (res: Result<
    Secp256k1SignStage9Output,
    StageError,
>)
    ensures
        res is Ok <==> input.fault() is None,
        res matches Err(e) ==> input.fault() == Some(e),
        res matches Ok(out) ==> {
            &&& out.signature == input.combined()
            &&& out.signature.r == scalar_of_integer(
                point_x(input.local_signature.r_point).unwrap(),
            )
            &&& !scalar_is_zero(out.signature.s)
            &&& signature_valid(out.signature, input.local_signature.y, input.local_signature.m)
            &&& out.signature.recid <= 1
        },
{
    let x = match x_coordinate(&input.local_signature.r_point) {
        Some(x) => x,
        None => {
            return Err(StageError::malformed(Stage::Sign9));
        },
    };
    let total = fold_scalars(&input.local_signature.s_i, &input.partial_signatures);
    if is_zero_scalar(&total) {
        return Err(StageError::rejected(Stage::Sign9));
    }
    let point = compute_verification_point(
        &scalar_from_integer(&x),
        &input.local_signature.y,
        &input.local_signature.m,
    );
    if is_identity(&point) {
        return Err(StageError::rejected(Stage::Sign9));
    }
    match combine_signature(&input.local_signature, &input.partial_signatures) {
        Ok(signature) => Ok(Secp256k1SignStage9Output { signature }),
        Err(_) => Err(StageError::rejected(Stage::Sign9)),
    }
}

/// Where the last round accepts a share of the round before it, the combined
/// signature is a signature of that round's message under the joint public key
/// of that round's key.
pub proof fn lemma_signature_verifies_under_joint_key(
    signing: Secp256k1SignStage8Input,
    share: Secp256k1SignStage8Output,
    combining: Secp256k1SignStage9Input,
)
    requires
        signing.yields(share),
        combining.local_signature == share.local_signature,
        combining.fault() is None,
    ensures
        combining.verifies(),
        combining.local_signature.y == signing.completed_offline_stage.local_key.y_sum_s,
        combining.local_signature.m == integer_of_bytes(signing.message@),
{
}

} // verus!
