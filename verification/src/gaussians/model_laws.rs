//! What becomes of the components of a Gaussian.
use vstd::prelude::*;

use crate::gaussians::model::{Gaussian, Gaussians};
use crate::math::{Float32, Quat, Vec3};

verus! {

/// One component of a vector.
pub open spec fn component(vector: Vec3, axis: int) -> Float32 {
    if axis == 0 {
        vector.x
    } else if axis == 1 {
        vector.y
    } else {
        vector.z
    }
}

/// Whether a Gaussian has exactly the given components: the bytes of its colour, from red down to
/// alpha, make up the colour again, and its harmonics, read one number after the other, are the given
/// ones.
pub open spec fn is_made_of(
    gaussian: Gaussian,
    rot: Quat,
    pos: Vec3,
    rgba: u32,
    sh: Seq<Float32>,
    scale: Vec3,
) -> bool {
    &&& gaussian.rot == rot
    &&& gaussian.pos == pos
    &&& gaussian.scale == scale
    &&& gaussian.color@[0] * 0x100_0000 + gaussian.color@[1] * 0x1_0000 + gaussian.color@[2] * 0x100
        + gaussian.color@[3] == rgba
    &&& forall|n: int|
        0 <= n < 45 ==> component(gaussian.sh@[n / 3], n % 3) == #[trigger] sh[n]
}

/// No component of a Gaussian is lost, changed or taken for another when it is put together.
pub proof fn law_a_gaussian_keeps_its_components(
    rot: Quat,
    pos: Vec3,
    rgba: u32,
    sh: [Float32; 45],
    scale: Vec3,
    made: Gaussian,
)
    requires
        Gaussian::assemble.ensures((rot, pos, rgba, &sh, scale), made),
    ensures
        is_made_of(made, rot, pos, rgba, sh@, scale),
{
    values_tell_components(made, rot, pos, rgba, sh@, scale);
}

/// The components of a Gaussian, from its value.
pub(crate) proof fn values_tell_components(
    made: Gaussian,
    rot: Quat,
    pos: Vec3,
    rgba: u32,
    sh: Seq<Float32>,
    scale: Vec3,
)
    requires
        made@ == crate::gaussians::model::assembled(rot, pos, rgba, sh, scale),
    ensures
        is_made_of(made, rot, pos, rgba, sh, scale),
{
    let value = made@;
    assert(made.color@ == value.color && made.sh@ == value.sh);
    assert forall|n: int| 0 <= n < 45 implies component(made.sh@[n / 3], n % 3) == #[trigger] sh[n] by {
        assert(3 * (n / 3) + n % 3 == n);
        assert(0 <= n / 3 < 15);
    }
}

/// Gaussians are held as they are: the value of a collection tells every part of every Gaussian, in
/// the order in which they are held.
pub proof fn law_values_tell_every_part(gaussians: Gaussians, i: int)
    ensures
        gaussians@.len() == gaussians.gaussians@.len(),
        0 <= i < gaussians@.len() ==> {
            let held = gaussians.gaussians@[i];
            &&& gaussians@[i].rot == held.rot
            &&& gaussians@[i].pos == held.pos
            &&& gaussians@[i].color == held.color@
            &&& gaussians@[i].sh == held.sh@
            &&& gaussians@[i].scale == held.scale
        },
{
}

} // verus!
