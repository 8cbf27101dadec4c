//! Point lights: a position and a color intensity.

use crate::tuple::rgb_eq_s;
use crate::tuple::tuple_fuzzy_eq_s;
use crate::tuple::Tuple;
use vstd::prelude::*;

verus! {

/// A point light: a position and a color intensity.
#[derive(Clone, Copy, Debug, PartialEq, Eq, Structural)]
pub struct Light {
    pub position: Tuple,
    pub intensity: Tuple,
}

impl Light {
    /// A light at `position` shining with the color `intensity`.
    pub fn new(position: Tuple, intensity: Tuple) -> (r: Light)
        ensures
            r == (Light { position, intensity }),
    {
        Light { position, intensity }
    }

    /// Whether two lights agree on position (all four lanes) and on the
    /// color lanes of the intensity, within the fuzzy tolerance.
    pub fn fuzzy_eq(self, other: Light) -> (r: bool)
        ensures
            r == (tuple_fuzzy_eq_s(self.position, other.position) && rgb_eq_s(
                self.intensity,
                other.intensity,
            )),
    {
        self.position.fuzzy_eq(other.position) && self.intensity.rgb_eq(other.intensity)
    }
}

} // verus!
