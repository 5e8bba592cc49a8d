//! A procedurally built rotating pinwheel scene.
//!
//! The library constructs the scene model — triangular blade meshes arranged
//! around a hub, a directional light, one colored spot light per pinwheel and
//! a bloom-enabled camera — and advances it frame by frame.  All quantities
//! are held as fixed-point integers: lengths in thousandths of a scene unit,
//! linear color channels in 256ths, and time in microseconds.  Turning those
//! into floating-point engine data is left to the host program around the
//! library.

pub mod animation;
pub mod assembly;
pub mod geometry;
pub mod laws;
pub mod mesh;
pub mod rig;
pub mod scene;

use vstd::prelude::*;

use crate::assembly::blade_template_normals;
use crate::assembly::blade_template_positions;
use crate::assembly::pinwheel_blade;
use crate::assembly::setup;
use crate::geometry::Color;
use crate::rig::camera;
use crate::rig::directional_light;
use crate::rig::spawn_camera;
use crate::rig::spawn_directional_light;
use crate::rig::spot_light;
use crate::scene::Scene;

verus! {

/// Builds the live scene exactly as startup leaves it, before the first
/// animation frame: one blue pinwheel of five template blades, its spot
/// light at the hub, the one directional light, and the one bloom camera.
pub fn startup() -> (scene: Scene)
    ensures
        scene.blades@.len() == 5,
        forall|i: int|
            0 <= i < 5 ==> pinwheel_blade(
                #[trigger] scene.blades@[i],
                i,
                blade_template_positions(),
                blade_template_normals(),
                Color { r: 55, g: 48, b: 242 },
                -5000i32,
            ),
        scene.spot_lights@ == seq![spot_light(Color { r: 55, g: 48, b: 242 }, 0, 0)],
        scene.directional_lights@ == seq![directional_light()],
        scene.cameras@ == seq![camera()],
        scene.wf(),
{
    let mut scene = Scene::new();
    setup(&mut scene);
    spawn_directional_light(&mut scene);
    spawn_camera(&mut scene);
    proof {
        assert(scene.spot_lights@ =~= seq![spot_light(Color { r: 55, g: 48, b: 242 }, 0, 0)]);
        assert(scene.directional_lights@ =~= seq![directional_light()]);
        assert(scene.cameras@ =~= seq![camera()]);
    }
    scene
}

} // verus!
