//! Phong materials and the lighting model.

use crate::fx::fx;
use crate::fx::fx_fuzzy_eq;
use crate::fx::fx_pow;
use crate::fx::Fx;
use crate::fx::SCALE;
use crate::light::Light;
use crate::tuple::dot_s;
use crate::tuple::normalize_s;
use crate::tuple::reflect_s;
use crate::tuple::tuple_add_s;
use crate::tuple::tuple_fuzzy_eq_s;
use crate::tuple::tuple_hadamard_s;
use crate::tuple::tuple_neg_s;
use crate::tuple::tuple_scale_s;
use crate::tuple::tuple_sub_s;
use crate::tuple::Tuple;
use vstd::prelude::*;

verus! {

/// The bits of the default ambient reflection, 0.1 (rounded).
pub const DEFAULT_AMBIENT_BITS: i64 = 429496730;

/// The bits of the default diffuse reflection, 0.9 (rounded).
pub const DEFAULT_DIFFUSE_BITS: i64 = 3865470566;

/// The bits of the default specular reflection, 0.9 (rounded).
pub const DEFAULT_SPECULAR_BITS: i64 = 3865470566;

/// The default shininess exponent.
pub const DEFAULT_SHININESS: u32 = 200;

/// A Phong material: a color and the four reflection parameters.  The
/// shininess is a whole exponent.
#[derive(Clone, Copy, Debug, PartialEq, Eq, Structural)]
pub struct Material {
    pub color: Tuple,
    pub ambient: Fx,
    pub diffuse: Fx,
    pub specular: Fx,
    pub shininess: u32,
}

/// The default material: white, ambient 0.1, diffuse 0.9, specular 0.9,
/// shininess 200.
pub open spec fn default_material_s() -> Material {
    Material {
        color: Tuple {
            x: Fx { bits: SCALE },
            y: Fx { bits: SCALE },
            z: Fx { bits: SCALE },
            w: Fx { bits: SCALE },
        },
        ambient: Fx { bits: DEFAULT_AMBIENT_BITS },
        diffuse: Fx { bits: DEFAULT_DIFFUSE_BITS },
        specular: Fx { bits: DEFAULT_SPECULAR_BITS },
        shininess: DEFAULT_SHININESS,
    }
}

/// Whether two materials agree on color and every parameter within the
/// fuzzy tolerance (the shininess exponents must be equal).
pub open spec fn material_fuzzy_eq_s(a: Material, b: Material) -> bool {
    tuple_fuzzy_eq_s(a.color, b.color) && fx_fuzzy_eq(a.ambient@, b.ambient@) && fx_fuzzy_eq(
        a.diffuse@,
        b.diffuse@,
    ) && fx_fuzzy_eq(a.specular@, b.specular@) && a.shininess == b.shininess
}

/// The color black with a full alpha lane, used for the switched-off
/// diffuse and specular contributions.
pub open spec fn black_s() -> Tuple {
    Tuple { x: fx(0), y: fx(0), z: fx(0), w: fx(SCALE as int) }
}

/// The Phong lighting model.  The ambient term always contributes; in
/// shadow it is the whole result.  The diffuse and specular terms are
/// black when the light is behind the surface, and the specular term is
/// black when the reflected light points away from the eye.
pub open spec fn lighting_s(
    m: Material,
    light: Light,
    point: Tuple,
    eyev: Tuple,
    normalv: Tuple,
    in_shadow: bool,
) -> Tuple {
    let effective = tuple_hadamard_s(m.color, light.intensity);
    let ambient = tuple_scale_s(effective, m.ambient@);
    if in_shadow {
        ambient
    } else {
        let lightv = normalize_s(tuple_sub_s(light.position, point));
        let cos_light_normal = dot_s(lightv, normalv);
        if cos_light_normal <= 0 {
            tuple_add_s(tuple_add_s(ambient, black_s()), black_s())
        } else {
            let diffuse = tuple_scale_s(tuple_scale_s(effective, m.diffuse@), cos_light_normal);
            let reflectv = reflect_s(tuple_neg_s(lightv), normalv);
            let cos_reflect_eye = dot_s(reflectv, eyev);
            let specular = if cos_reflect_eye <= 0 {
                black_s()
            } else {
                tuple_scale_s(
                    tuple_scale_s(light.intensity, m.specular@),
                    fx_pow(cos_reflect_eye, m.shininess as nat),
                )
            };
            tuple_add_s(tuple_add_s(ambient, diffuse), specular)
        }
    }
}

impl Material {
    /// Evaluates the Phong model for this material at `point`, as seen
    /// along `eyev`, with surface normal `normalv`.
    pub fn lighting(
        &self,
        light: Light,
        point: Tuple,
        eyev: Tuple,
        normalv: Tuple,
        in_shadow: bool,
    ) -> (r: Tuple)
        ensures
            r == lighting_s(*self, light, point, eyev, normalv, in_shadow),
    {
        let effective_color = self.color.hadamard(light.intensity);
        let ambient = effective_color.scale(self.ambient);
        if in_shadow {
            return ambient;
        }
        let black = Tuple::color(Fx::zero(), Fx::zero(), Fx::zero(), Fx::one());
        let lightv = light.position.sub(point).normalize();
        let cos_light_normal = lightv.dot(normalv);
        if cos_light_normal.bits <= 0 {
            ambient.add(black).add(black)
        } else {
            let diffuse = effective_color.scale(self.diffuse).scale(cos_light_normal);
            let reflectv = lightv.neg().reflect(normalv);
            let cos_reflect_eye = reflectv.dot(eyev);
            let specular = if cos_reflect_eye.bits <= 0 {
                black
            } else {
                light.intensity.scale(self.specular).scale(cos_reflect_eye.powi(self.shininess))
            };
            ambient.add(diffuse).add(specular)
        }
    }

    /// Whether two materials agree on color and every parameter within
    /// the fuzzy tolerance (the shininess exponents must be equal).
    pub fn fuzzy_eq(&self, other: &Material) -> (r: bool)
        ensures
            r == material_fuzzy_eq_s(*self, *other),
    {
        self.color.fuzzy_eq(other.color) && self.ambient.fuzzy_eq(other.ambient)
            && self.diffuse.fuzzy_eq(other.diffuse) && self.specular.fuzzy_eq(other.specular)
            && self.shininess == other.shininess
    }
}

impl Default for Material {
    /// The default material: white, ambient 0.1, diffuse 0.9,
    /// specular 0.9, shininess 200.
    fn default() -> (r: Material)
        ensures
            r == default_material_s(),
    {
        let one = Fx::one();
        Material {
            color: Tuple::color(one, one, one, one),
            ambient: Fx { bits: DEFAULT_AMBIENT_BITS },
            diffuse: Fx { bits: DEFAULT_DIFFUSE_BITS },
            specular: Fx { bits: DEFAULT_SPECULAR_BITS },
            shininess: DEFAULT_SHININESS,
        }
    }
}

} // verus!
