//! The lighting and camera rigs: the fixed lights and the single viewpoint.

use vstd::prelude::*;

use crate::geometry::Color;
use crate::geometry::Point3;
use crate::geometry::led_white;
use crate::scene::Bloom;
use crate::scene::BloomComposite;
use crate::scene::Camera;
use crate::scene::DirectionalLight;
use crate::scene::Scene;
use crate::scene::SpotLight;
use crate::scene::Tonemapping;

verus! {

/// The one sun-like light: LED-white, 10000 lux, shadows on, placed five
/// units up the Z axis, with no sway accumulated yet.
pub open spec fn directional_light() -> DirectionalLight {
    DirectionalLight {
        color: Color { r: 256, g: 256, b: 61952 },
        illuminance: 10000,
        shadows_enabled: true,
        z: 5000,
        sway_micros: 0,
    }
}

/// The spot light spawned with a pinwheel: the pinwheel's color at
/// intensity 80000, shadows on, at `(x, y)` in the hub plane.
pub open spec fn spot_light(color: Color, x: i32, y: i32) -> SpotLight {
    SpotLight { color, intensity: 80000, shadows_enabled: true, x, y }
}

/// The camera: ten units up the Z axis looking at the origin with up-axis
/// Y, HDR output, filmic tone mapping, and an additive bloom stage
/// (intensity 0.2, boost 0.2 at curvature 1.0, high-pass 0.5, threshold 0.4
/// with softness 0.5 — all held in thousandths).
pub open spec fn camera() -> Camera {
    Camera {
        position: Point3 { x: 0, y: 0, z: 10000 },
        target: Point3 { x: 0, y: 0, z: 0 },
        up: Point3 { x: 0, y: 1000, z: 0 },
        hdr: true,
        tonemapping: Tonemapping::TonyMcMapface,
        bloom: Bloom {
            intensity: 200,
            low_frequency_boost: 200,
            low_frequency_boost_curvature: 1000,
            high_pass_frequency: 500,
            threshold: 400,
            threshold_softness: 500,
            composite_mode: BloomComposite::Additive,
        },
    }
}

/// Creates the scene's one directional light.  Runs once at setup.
pub fn spawn_directional_light(scene: &mut Scene)
    requires
        old(scene).wf(),
    ensures
        final(scene).directional_lights@ == old(scene).directional_lights@.push(
            directional_light(),
        ),
        final(scene).blades == old(scene).blades,
        final(scene).spot_lights == old(scene).spot_lights,
        final(scene).cameras == old(scene).cameras,
        final(scene).wf(),
{
    let color = led_white();
    scene.directional_lights.push(
        DirectionalLight {
            color,
            illuminance: 10000,
            shadows_enabled: true,
            z: 5000,
            sway_micros: 0,
        },
    );
}

/// Creates one colored spot light at `(x, y)` in the hub plane.  Called
/// once per pinwheel by the radial assembly.
pub fn spawn_point_light(scene: &mut Scene, color: Color, x: i32, y: i32)
    requires
        old(scene).wf(),
    ensures
        final(scene).spot_lights@ == old(scene).spot_lights@.push(spot_light(color, x, y)),
        final(scene).blades == old(scene).blades,
        final(scene).directional_lights == old(scene).directional_lights,
        final(scene).cameras == old(scene).cameras,
        final(scene).wf(),
{
    scene.spot_lights.push(SpotLight { color, intensity: 80000, shadows_enabled: true, x, y });
}

/// Creates the scene's one camera.  Runs once at setup; the camera is never
/// moved afterwards.
pub fn spawn_camera(scene: &mut Scene)
    requires
        old(scene).wf(),
    ensures
        final(scene).cameras@ == old(scene).cameras@.push(camera()),
        final(scene).blades == old(scene).blades,
        final(scene).directional_lights == old(scene).directional_lights,
        final(scene).spot_lights == old(scene).spot_lights,
        final(scene).wf(),
{
    scene.cameras.push(
        Camera {
            position: Point3 { x: 0, y: 0, z: 10000 },
            target: Point3 { x: 0, y: 0, z: 0 },
            up: Point3 { x: 0, y: 1000, z: 0 },
            hdr: true,
            tonemapping: Tonemapping::TonyMcMapface,
            bloom: Bloom {
                intensity: 200,
                low_frequency_boost: 200,
                low_frequency_boost_curvature: 1000,
                high_pass_frequency: 500,
                threshold: 400,
                threshold_softness: 500,
                composite_mode: BloomComposite::Additive,
            },
        },
    );
}

} // verus!
