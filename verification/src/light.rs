//! Light values: RGB triples carried along rays.

use vstd::prelude::*;

use crate::fixed::{Fx, SCALE};
use crate::vector::{Vec3, Color3, V3};

verus! {

/// An RGB radiance value.
pub type Light = Color3;

/// An RGB radiance value; this renderer approximates spectra by three
/// channels.
pub type Spectrum = Color3;

/// Conversion of a stored color into a light value at a given wavelength.
/// With RGB light there is nothing wavelength-dependent to do.
pub trait ConvertableToLight: View<V = V3> {
    /// The light value carried; for RGB colors, the color itself, whatever
    /// the wavelength.
    fn to_light(&self, wavelength: Fx) -> (r: Light)
        ensures
            r@ == self@,
    ;
}

impl ConvertableToLight for Color3 {
    fn to_light(&self, _wavelength: Fx) -> (r: Light) {
        *self
    }
}

/// The view of black: all channels zero.
pub open spec fn black_v() -> V3 {
    V3 { x: 0, y: 0, z: 0 }
}

/// The view of white: all channels one.
pub open spec fn white_v() -> V3 {
    V3 { x: SCALE as int, y: SCALE as int, z: SCALE as int }
}

/// The distinguished colors the integrators return.
pub trait ColorConstantsQueryable: Sized + View<V = V3> {
    /// All channels zero.
    fn black() -> (r: Self)
        ensures
            r@ == black_v(),
    ;

    /// All channels one.
    fn white() -> (r: Self)
        ensures
            r@ == white_v(),
    ;
}

impl ColorConstantsQueryable for Color3 {
    fn black() -> (r: Color3) {
        Vec3::origin()
    }

    fn white() -> (r: Color3) {
        Vec3::new(Fx::one(), Fx::one(), Fx::one())
    }
}

} // verus!
