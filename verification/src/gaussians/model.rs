//! Gaussians, and how one is put together from its logged components.
use vstd::prelude::*;

use crate::math::{Float32, Quat, Vec3};

verus! {

/// A single Gaussian.
pub struct Gaussian {
    /// Orientation.
    pub rot: Quat,
    /// Position.
    pub pos: Vec3,
    /// Red, green, blue and alpha.
    pub color: [u8; 4],
    /// Spherical harmonics, without the constant term.
    pub sh: [Vec3; 15],
    /// Extent along each axis.
    pub scale: Vec3,
}

/// The Gaussians of one entity.
pub struct Gaussians {
    pub gaussians: Vec<Gaussian>,
}

/// The value of a [`Gaussian`].
#[verifier::ext_equal]
pub struct GaussianView {
    pub rot: Quat,
    pub pos: Vec3,
    pub color: Seq<u8>,
    pub sh: Seq<Vec3>,
    pub scale: Vec3,
}

impl View for Gaussian {
    type V = GaussianView;

    open spec fn view(&self) -> GaussianView {
        GaussianView {
            rot: self.rot,
            pos: self.pos,
            color: self.color@,
            sh: self.sh@,
            scale: self.scale,
        }
    }
}

/// The values of several Gaussians.
pub open spec fn values(gaussians: Seq<Gaussian>) -> Seq<GaussianView> {
    gaussians.map_values(|g: Gaussian| g@)
}

impl View for Gaussians {
    type V = Seq<GaussianView>;

    open spec fn view(&self) -> Seq<GaussianView> {
        values(self.gaussians@)
    }
}

/// The channels of a colour, from the most significant byte down: red, green, blue, alpha.
pub open spec fn channels(rgba: u32) -> Seq<u8> {
    seq![
        (rgba / 0x100_0000) as u8,
        (rgba / 0x1_0000 % 0x100) as u8,
        (rgba / 0x100 % 0x100) as u8,
        (rgba % 0x100) as u8,
    ]
}

/// The harmonics of a flat list: three consecutive numbers make a coefficient.
pub open spec fn coefficients(sh: Seq<Float32>) -> Seq<Vec3> {
    Seq::new(15, |k: int| Vec3 { x: sh[3 * k], y: sh[3 * k + 1], z: sh[3 * k + 2] })
}

/// The Gaussian made of the given components.
pub open spec fn assembled(
    rot: Quat,
    pos: Vec3,
    rgba: u32,
    sh: Seq<Float32>,
    scale: Vec3,
) -> GaussianView {
    GaussianView { rot, pos, color: channels(rgba), sh: coefficients(sh), scale }
}

impl Gaussian {
    /// Puts a Gaussian together.
    pub fn assemble(rot: Quat, pos: Vec3, rgba: u32, sh: &[Float32; 45], scale: Vec3) -> (r: Gaussian)
        ensures
            r@ == assembled(rot, pos, rgba, sh@, scale),
    {
        let zero = Float32::zero();
        let color: [u8; 4] = [
            (rgba / 0x100_0000) as u8,
            (rgba / 0x1_0000 % 0x100) as u8,
            (rgba / 0x100 % 0x100) as u8,
            (rgba % 0x100) as u8,
        ];
        let mut harmonics: [Vec3; 15] = [Vec3::new(zero, zero, zero);15];
        for k in 0..15usize
            invariant
                forall|i: int|
                    0 <= i < k ==> #[trigger] harmonics@[i] == coefficients(sh@)[i],
        {
            harmonics[k] = Vec3::new(sh[3 * k], sh[3 * k + 1], sh[3 * k + 2]);
        }
        let r = Gaussian { rot, pos, color, sh: harmonics, scale };
        assert(r@.color =~= channels(rgba));
        assert(r@.sh =~= coefficients(sh@));
        r
    }
}

} // verus!
