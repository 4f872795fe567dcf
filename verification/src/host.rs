//! What the library takes from the host engine: the types that it carries
//! through without looking inside, and the two host functions that it calls.
//! Nothing in this module is proved; each item says what it takes on trust.

use bevy::asset::HandleId;
use bevy::ecs::entity::Entity;
use bevy::math::{Mat4, Vec3};
use bevy::transform::components::GlobalTransform;
use vstd::prelude::*;

verus! {

/// `glam::Vec3` as `bevy::math` exports it: three 4-byte floats, 12 bytes, no padding.
#[verifier::external_type_specification]
#[verifier::external_body]
pub struct ExVec3(Vec3);

/// `glam::Mat4` as `bevy::math` exports it: a column-major 4x4 matrix of floats.
#[verifier::external_type_specification]
#[verifier::external_body]
pub struct ExMat4(Mat4);

/// `bevy::transform::components::GlobalTransform`: an entity's affine transform
/// to world space.
#[verifier::external_type_specification]
#[verifier::external_body]
pub struct ExGlobalTransform(GlobalTransform);

/// `bevy::ecs::entity::Entity`: the identity of an entity, the same in the
/// simulation world and in the render world.
#[verifier::external_type_specification]
#[verifier::external_body]
pub struct ExEntity(Entity);

/// `bevy::asset::HandleId`: the identity of an asset. It owns nothing, so
/// holding one keeps no asset alive.
#[verifier::external_type_specification]
#[verifier::external_body]
pub struct ExHandleId(HandleId);

/// The matrix that `GlobalTransform::compute_matrix` returns for `transform`.
pub uninterp spec fn transform_matrix(transform: GlobalTransform) -> Mat4;

/// `GlobalTransform::compute_matrix` converts the affine transform that it
/// holds into a `Mat4`. It reads nothing but the transform, so the matrix is a
/// function of the transform: that is all the contract claims.
pub assume_specification[ GlobalTransform::compute_matrix ](transform: &GlobalTransform) -> (matrix:
    Mat4)
    ensures
        matrix == transform_matrix(*transform),
;

/// The bytes that `bevy::core::cast_slice` returns for `points`: the memory of
/// the points, 12 bytes each, in order.
pub uninterp spec fn point_bytes_of(points: Seq<Vec3>) -> Seq<u8>;

/// `bevy::core::cast_slice` (bytemuck's) on a slice of points with bytes as
/// target: the same memory seen as bytes. The target's alignment is 1 and its
/// size divides every length, so the call cannot fail. It reads nothing but
/// the slice, and a point is three floats without padding. So the contract
/// claims that the bytes are a function of the points, 12 for each point. It
/// does not say which bytes: their order within a float is that of the target
/// that the library is built for.
#[verifier::external_body]
pub(crate) fn point_bytes<'a>(points: &'a [Vec3]) -> (bytes: &'a [u8])
    ensures
        bytes@ == point_bytes_of(points@),
        bytes@.len() == 12 * points@.len(),
{
    bevy::core::cast_slice(points)
}

} // verus!
