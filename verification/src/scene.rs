//! The scene model: blades, lights, the camera, and the scene that owns them.
//!
//! Every entity is created during setup and persists for the process
//! lifetime; per-frame animation only accumulates rotation time on entities
//! that already exist.  Accumulated rotation is held in microseconds of
//! animation time; the host turns it into an angle at its fixed angular rate.

use vstd::prelude::*;

use crate::geometry::Color;
use crate::geometry::Point3;
use crate::mesh::Mesh;

verus! {

/// A blade's surface finish: base color, perceptual roughness and metallic
/// factor, the latter two in thousandths.
#[derive(Clone, Copy, Debug, PartialEq, Eq, Structural)]
pub struct Material {
    pub color: Color,
    pub roughness: u32,
    pub metallic: u32,
}

/// The material every blade gets: the caller's color on a shiny metal
/// finish (roughness 0.1, metallic 1.0, in thousandths).
pub open spec fn blade_material(color: Color) -> Material {
    Material { color, roughness: 100, metallic: 1000 }
}

/// One blade entity: an owned mesh, a material, a translation along the Z
/// axis only, and the rotation time accumulated so far about its local Z
/// axis.  `fan_index` is the blade's assigned position in the scene's stable
/// enumeration order, set at spawn time and never changed.
pub struct Blade {
    pub fan_index: usize,
    pub mesh: Mesh,
    pub material: Material,
    pub hub_depth: i32,
    pub spin_micros: u64,
}

/// The sun-like light: fixed color and illuminance, shadows on, placed on
/// the Z axis, swaying about its local X axis by the rotation time
/// accumulated in `sway_micros`.
#[derive(Clone, Copy, Debug, PartialEq, Eq, Structural)]
pub struct DirectionalLight {
    pub color: Color,
    pub illuminance: u32,
    pub shadows_enabled: bool,
    pub z: i32,
    pub sway_micros: u64,
}

/// The colored spot light spawned with each pinwheel, collocated with the
/// pinwheel's hub in the X-Y plane.
#[derive(Clone, Copy, Debug, PartialEq, Eq, Structural)]
pub struct SpotLight {
    pub color: Color,
    pub intensity: u32,
    pub shadows_enabled: bool,
    pub x: i32,
    pub y: i32,
}

/// The tone-mapping mode the camera renders with.
#[derive(Clone, Copy, Debug, PartialEq, Eq, Structural)]
pub enum Tonemapping {
    TonyMcMapface,
}

/// How the bloom stage is composited over the rendered image.
#[derive(Clone, Copy, Debug, PartialEq, Eq, Structural)]
pub enum BloomComposite {
    Additive,
}

/// The bloom post-process configuration, scalar settings in thousandths.
#[derive(Clone, Copy, Debug, PartialEq, Eq, Structural)]
pub struct Bloom {
    pub intensity: u32,
    pub low_frequency_boost: u32,
    pub low_frequency_boost_curvature: u32,
    pub high_pass_frequency: u32,
    pub threshold: u32,
    pub threshold_softness: u32,
    pub composite_mode: BloomComposite,
}

/// The single viewpoint: position, aim, up axis, high-dynamic-range output,
/// tone mapping and bloom.
#[derive(Clone, Copy, Debug, PartialEq, Eq, Structural)]
pub struct Camera {
    pub position: Point3,
    pub target: Point3,
    pub up: Point3,
    pub hdr: bool,
    pub tonemapping: Tonemapping,
    pub bloom: Bloom,
}

/// The whole scene.  The order of `blades` is the stable enumeration order
/// the animation driver iterates in.
pub struct Scene {
    pub blades: Vec<Blade>,
    pub directional_lights: Vec<DirectionalLight>,
    pub spot_lights: Vec<SpotLight>,
    pub cameras: Vec<Camera>,
}

impl Scene {
    /// Scene well-formedness: each blade's assigned fan index agrees with
    /// its position in the enumeration order, and each blade's mesh obeys
    /// the vertex-buffer invariant.
    pub open spec fn wf(self) -> bool {
        forall|i: int|
            0 <= i < self.blades@.len() ==> {
                &&& (#[trigger] self.blades@[i]).fan_index == i
                &&& self.blades@[i].mesh.well_formed()
            }
    }

    /// Decides scene well-formedness at run time, for callers outside the
    /// library that must test it before relying on it.
    #[verifier::loop_isolation(false)]
    pub fn is_well_formed(&self) -> (r: bool)
        ensures
            r == self.wf(),
    {
        let mut i: usize = 0;
        while i < self.blades.len()
            invariant
                i <= self.blades@.len(),
                forall|j: int|
                    0 <= j < i ==> {
                        &&& (#[trigger] self.blades@[j]).fan_index == j
                        &&& self.blades@[j].mesh.well_formed()
                    },
            decreases self.blades@.len() - i,
        {
            if self.blades[i].fan_index != i {
                return false;
            }
            if !self.blades[i].mesh.is_well_formed() {
                return false;
            }
            i = i + 1;
        }
        true
    }

    /// The empty scene setup starts from.
    pub fn new() -> (s: Scene)
        ensures
            s.blades@.len() == 0,
            s.directional_lights@.len() == 0,
            s.spot_lights@.len() == 0,
            s.cameras@.len() == 0,
            s.wf(),
    {
        Scene {
            blades: Vec::new(),
            directional_lights: Vec::new(),
            spot_lights: Vec::new(),
            cameras: Vec::new(),
        }
    }
}

} // verus!
