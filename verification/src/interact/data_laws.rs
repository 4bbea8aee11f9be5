//! When two recordings count as the same.
use vstd::prelude::*;
use vstd::std_specs::cmp::PartialEqSpec;

use crate::interact::data::{same_data, InteractData, InteractThreadMessage};
use crate::math_laws::{equal_numbers, law_numbers_are_equal_as_numbers};

verus! {

/// Whether two recordings agree in every part: the entity, each component of the rotation and of the
/// position, and the field of view.
pub open spec fn equal_in_every_part(a: InteractData, b: InteractData) -> bool {
    &&& a.path@ == b.path@
    &&& equal_numbers(a.eye_rotation.x, b.eye_rotation.x)
    &&& equal_numbers(a.eye_rotation.y, b.eye_rotation.y)
    &&& equal_numbers(a.eye_rotation.z, b.eye_rotation.z)
    &&& equal_numbers(a.eye_rotation.w, b.eye_rotation.w)
    &&& equal_numbers(a.eye_position.x, b.eye_position.x)
    &&& equal_numbers(a.eye_position.y, b.eye_position.y)
    &&& equal_numbers(a.eye_position.z, b.eye_position.z)
    &&& a.eye_fov_y is None <==> b.eye_fov_y is None
    &&& a.eye_fov_y is Some && b.eye_fov_y is Some ==> equal_numbers(
        a.eye_fov_y->0,
        b.eye_fov_y->0,
    )
}

/// Two recordings are the same exactly if they agree in every part.
pub proof fn law_recordings_are_compared_by_every_part(a: InteractData, b: InteractData)
    ensures
        same_data(a, b) <==> equal_in_every_part(a, b),
        a.eq_spec(&b) <==> equal_in_every_part(a, b),
        forall|r: bool| #[trigger]
            <InteractData as PartialEq>::eq.ensures((&a, &b), r) ==> r == equal_in_every_part(a, b),
{
    law_numbers_are_equal_as_numbers(a.eye_rotation.x, b.eye_rotation.x);
    law_numbers_are_equal_as_numbers(a.eye_rotation.y, b.eye_rotation.y);
    law_numbers_are_equal_as_numbers(a.eye_rotation.z, b.eye_rotation.z);
    law_numbers_are_equal_as_numbers(a.eye_rotation.w, b.eye_rotation.w);
    law_numbers_are_equal_as_numbers(a.eye_position.x, b.eye_position.x);
    law_numbers_are_equal_as_numbers(a.eye_position.y, b.eye_position.y);
    law_numbers_are_equal_as_numbers(a.eye_position.z, b.eye_position.z);
    if a.eye_fov_y is Some && b.eye_fov_y is Some {
        law_numbers_are_equal_as_numbers(a.eye_fov_y->0, b.eye_fov_y->0);
    }
}

/// A copy has everything that the recording or the message has.
pub proof fn law_copies_are_faithful(
    data: InteractData,
    copied: InteractData,
    message: InteractThreadMessage,
    copied_message: InteractThreadMessage,
)
    requires
        <InteractData as Clone>::clone.ensures((&data,), copied),
        <InteractThreadMessage as Clone>::clone.ensures((&message,), copied_message),
    ensures
        copied.path@ == data.path@,
        copied.eye_rotation == data.eye_rotation,
        copied.eye_position == data.eye_position,
        copied.eye_fov_y == data.eye_fov_y,
        copied_message == message,
{
}

} // verus!
