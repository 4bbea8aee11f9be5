//! What is recorded of a user interaction, and the messages that carry it to the streaming thread.
use vstd::prelude::*;

use crate::math::{is_nan, same_number, Float32, Quat, Vec3};

verus! {

/// User interaction data recorded.
///
/// This data is serialized and sent through websocket.
#[derive(Debug)]
pub struct InteractData {
    pub path: String,
    pub eye_rotation: Quat,
    pub eye_position: Vec3,
    pub eye_fov_y: Option<Float32>,
}

/// Whether two recordings are the same one: the same entity seen from the same eye, with the
/// numbers compared as numbers.
pub open spec fn same_data(a: InteractData, b: InteractData) -> bool {
    &&& a.path@ == b.path@
    &&& same_number(a.eye_rotation.x.bits, b.eye_rotation.x.bits)
    &&& same_number(a.eye_rotation.y.bits, b.eye_rotation.y.bits)
    &&& same_number(a.eye_rotation.z.bits, b.eye_rotation.z.bits)
    &&& same_number(a.eye_rotation.w.bits, b.eye_rotation.w.bits)
    &&& same_number(a.eye_position.x.bits, b.eye_position.x.bits)
    &&& same_number(a.eye_position.y.bits, b.eye_position.y.bits)
    &&& same_number(a.eye_position.z.bits, b.eye_position.z.bits)
    &&& match (a.eye_fov_y, b.eye_fov_y) {
        (Some(x), Some(y)) => same_number(x.bits, y.bits),
        (None, None) => true,
        _ => false,
    }
}

/// Whether every number of a recording is a number.
pub open spec fn has_numbers(data: InteractData) -> bool {
    &&& !is_nan(data.eye_rotation.x.bits)
    &&& !is_nan(data.eye_rotation.y.bits)
    &&& !is_nan(data.eye_rotation.z.bits)
    &&& !is_nan(data.eye_rotation.w.bits)
    &&& !is_nan(data.eye_position.x.bits)
    &&& !is_nan(data.eye_position.y.bits)
    &&& !is_nan(data.eye_position.z.bits)
    &&& data.eye_fov_y matches Some(fov) ==> !is_nan(fov.bits)
}

/// A recording is the same as itself exactly if it has no NaN in it, and sameness is mutual and
/// carries over.
pub proof fn law_sameness(a: InteractData, b: InteractData, c: InteractData)
    ensures
        same_data(a, a) <==> has_numbers(a),
        same_data(a, b) ==> same_data(b, a),
        same_data(a, b) && same_data(b, c) ==> same_data(a, c),
{
}

impl PartialEq for InteractData {
    fn eq(&self, other: &InteractData) -> (r: bool) {
        self.path == other.path && self.eye_rotation == other.eye_rotation && self.eye_position
            == other.eye_position && match (self.eye_fov_y, other.eye_fov_y) {
            (Some(x), Some(y)) => x == y,
            (None, None) => true,
            _ => false,
        }
    }
}

impl vstd::std_specs::cmp::PartialEqSpecImpl for InteractData {
    open spec fn obeys_eq_spec() -> bool {
        true
    }

    open spec fn eq_spec(&self, other: &InteractData) -> bool {
        same_data(*self, *other)
    }
}

impl Clone for InteractData {
    fn clone(&self) -> (r: InteractData)
        ensures
            r == *self,
    {
        InteractData {
            path: self.path.clone(),
            eye_rotation: self.eye_rotation,
            eye_position: self.eye_position,
            eye_fov_y: self.eye_fov_y,
        }
    }
}

/// User interaction thread message.
///
/// For controlling the thread.
#[derive(Debug, PartialEq)]
pub enum InteractThreadMessage {
    /// Send user interaction data to the thread.
    Data(InteractData),
    /// Stop the thread.
    Stop,
}

impl Clone for InteractThreadMessage {
    fn clone(&self) -> (r: InteractThreadMessage)
        ensures
            r == *self,
    {
        match self {
            InteractThreadMessage::Data(data) => InteractThreadMessage::Data(data.clone()),
            InteractThreadMessage::Stop => InteractThreadMessage::Stop,
        }
    }
}

} // verus!
