//! The additive tweak of a key: the derivation of a child key that keeps the
//! relation to the parent's public key.

use crate::curve::{
    add_points, add_scalars, generator_mul, mul_generator, point_sum, scalar_sum, CurvePoint,
    CurveScalar,
};
use crate::errors::{Stage, StageError};
use crate::material::LocalKey;
use vstd::prelude::*;

verus! {

/// What the tweak takes: the party's index, its key, and the public tweak `il`.
#[derive(Clone, Debug)]
pub struct Secp256k1TweakKeyInput {
    pub index: u16,
    pub local_key: LocalKey,
    pub il: CurveScalar,
}

/// What the tweak returns: the child key.
#[derive(Clone, Debug)]
pub struct Secp256k1TweakKeyOutput {
    pub new_local_key: LocalKey,
}

/// `p` moved by the public point `il * G` of the tweak.
pub open spec fn moved(p: CurvePoint, il: CurveScalar) -> CurvePoint {
    point_sum(p, generator_mul(il))
}

/// `child` is the key of the party `index` that the tweak `il` derives from
/// `parent`.
///
/// The secret is the sum of the parties' shares, so the one party with index 1
/// adds `il` to its share `x_i`, and no other party changes its share. Every
/// party moves its view of the public key by `il * G`: the joint public key in
/// both places, the first commitment of the sharing and the first public share.
/// Nothing else changes.
pub open spec fn tweak_of(child: LocalKey, index: u16, parent: LocalKey, il: CurveScalar) -> bool {
    &&& child.keys_linear.x_i == if index == 1 {
        scalar_sum(parent.keys_linear.x_i, il)
    } else {
        parent.keys_linear.x_i
    }
    &&& child.keys_linear.y == moved(parent.keys_linear.y, il)
    &&& child.y_sum_s == moved(parent.y_sum_s, il)
    &&& child.vss_scheme.commitments@ == parent.vss_scheme.commitments@.update(
        0,
        moved(parent.vss_scheme.commitments@[0], il),
    )
    &&& child.pk_vec@ == parent.pk_vec@.update(0, moved(parent.pk_vec@[0], il))
    &&& child.vss_scheme.parameters == parent.vss_scheme.parameters
    &&& child.paillier_dk == parent.paillier_dk
    &&& child.paillier_key_vec@ == parent.paillier_key_vec@
    &&& child.h1_h2_n_tilde_vec@ == parent.h1_h2_n_tilde_vec@
    &&& child.i == parent.i
    &&& child.t == parent.t
    &&& child.n == parent.n
}

impl Secp256k1TweakKeyInput {
    /// The failure that the tweak answers the input with, if any: a key that is
    /// not well formed, or an `index` that names none of the key's parties.
    pub open spec fn fault(&self) -> Option<StageError> {
        if !self.local_key.wf() {
            Some(StageError::malformed(Stage::Tweak))
        } else if self.index < 1 || self.index > self.local_key.n {
            Some(StageError::shape(Stage::Tweak))
        } else {
            None
        }
    }
}

/// Derives the child key of the party `index` for the public tweak `il`.
///
/// Returns the key that [`tweak_of`] describes, well formed as the parent is. The
/// caller's parent key is not touched: the function works on the copy it is
/// given. Fails as [`Secp256k1TweakKeyInput::fault`] says.
pub fn secp256k1_tweak_key(input: Secp256k1TweakKeyInput) -> (res: Result<
    Secp256k1TweakKeyOutput,
    StageError,
>)
    ensures
        res is Ok <==> input.fault() is None,
        res matches Err(e) ==> input.fault() == Some(e),
        res matches Ok(out) ==> tweak_of(out.new_local_key, input.index, input.local_key, input.il)
            && out.new_local_key.wf(),
{
    if !input.local_key.is_well_formed() {
        return Err(StageError::malformed(Stage::Tweak));
    }
    if input.index < 1 || input.index > input.local_key.n {
        return Err(StageError::shape(Stage::Tweak));
    }
    let il_point = mul_generator(&input.il);
    let mut new_local_key = input.local_key;
    if input.index == 1 {
        new_local_key.keys_linear.x_i = add_scalars(&new_local_key.keys_linear.x_i, &input.il);
    }
    new_local_key.keys_linear.y = add_points(&new_local_key.keys_linear.y, &il_point);
    let commitment = add_points(&new_local_key.vss_scheme.commitments[0], &il_point);
    new_local_key.vss_scheme.commitments.set(0, commitment);
    let share = add_points(&new_local_key.pk_vec[0], &il_point);
    new_local_key.pk_vec.set(0, share);
    new_local_key.y_sum_s = add_points(&new_local_key.y_sum_s, &il_point);
    Ok(Secp256k1TweakKeyOutput { new_local_key })
}

/// Parties that agree on the joint public key before a tweak agree on it after
/// the tweak, whichever parties they are: each one's view moves by `il * G`.
pub proof fn lemma_tweak_moves_public_key(
    a: LocalKey,
    a_child: LocalKey,
    a_index: u16,
    b: LocalKey,
    b_child: LocalKey,
    b_index: u16,
    il: CurveScalar,
)
    requires
        tweak_of(a_child, a_index, a, il),
        tweak_of(b_child, b_index, b, il),
        a.y_sum_s == b.y_sum_s,
    ensures
        a_child.y_sum_s == point_sum(a.y_sum_s, generator_mul(il)),
        b_child.y_sum_s == a_child.y_sum_s,
{
}

/// A tweak changes the share of the party with index 1 and of no other party.
pub proof fn lemma_tweak_changes_one_share(
    parent: LocalKey,
    child: LocalKey,
    index: u16,
    il: CurveScalar,
)
    requires
        tweak_of(child, index, parent, il),
    ensures
        index != 1 ==> child.keys_linear.x_i == parent.keys_linear.x_i,
        index == 1 ==> child.keys_linear.x_i == scalar_sum(parent.keys_linear.x_i, il),
{
}

} // verus!
