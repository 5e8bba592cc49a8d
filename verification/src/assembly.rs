//! The radial assembly: replicating one blade template into a pinwheel.

use vstd::prelude::*;

use crate::geometry::Color;
use crate::geometry::Point3;
use crate::geometry::shiny_metallic_blue;
use crate::mesh::blade_indices;
use crate::mesh::build_blade;
use crate::mesh::copy_points;
use crate::rig::spawn_point_light;
use crate::rig::spot_light;
use crate::scene::Blade;
use crate::scene::Material;
use crate::scene::Scene;
use crate::scene::blade_material;

verus! {

/// How many blades one pinwheel is assembled from.
pub open spec fn blades_per_pinwheel() -> int {
    5
}

/// The parametric vertex positions of the blade template: a quadrilateral
/// degenerated from a fan, in thousandths of a unit.
pub open spec fn blade_template_positions() -> Seq<Point3> {
    seq![
        Point3 { x: 0, y: 0, z: 0 },
        Point3 { x: 500, y: 2000, z: 0 },
        Point3 { x: 1000, y: 2000, z: 0 },
        Point3 { x: 0, y: 0, z: 0 },
    ]
}

/// The blade template's surface normals: every vertex faces straight along
/// the positive Z axis (unit length, in thousandths).
pub open spec fn blade_template_normals() -> Seq<Point3> {
    seq![
        Point3 { x: 0, y: 0, z: 1000 },
        Point3 { x: 0, y: 0, z: 1000 },
        Point3 { x: 0, y: 0, z: 1000 },
        Point3 { x: 0, y: 0, z: 1000 },
    ]
}

/// Builds the template's vertex positions as an owned buffer.
pub fn template_positions() -> (v: Vec<Point3>)
    ensures
        v@ == blade_template_positions(),
{
    let mut v: Vec<Point3> = Vec::new();
    v.push(Point3 { x: 0, y: 0, z: 0 });
    v.push(Point3 { x: 500, y: 2000, z: 0 });
    v.push(Point3 { x: 1000, y: 2000, z: 0 });
    v.push(Point3 { x: 0, y: 0, z: 0 });
    proof {
        assert(v@ =~= blade_template_positions());
    }
    v
}

/// Builds the template's normals as an owned buffer.
pub fn template_normals() -> (v: Vec<Point3>)
    ensures
        v@ == blade_template_normals(),
{
    let mut v: Vec<Point3> = Vec::new();
    v.push(Point3 { x: 0, y: 0, z: 1000 });
    v.push(Point3 { x: 0, y: 0, z: 1000 });
    v.push(Point3 { x: 0, y: 0, z: 1000 });
    v.push(Point3 { x: 0, y: 0, z: 1000 });
    proof {
        assert(v@ =~= blade_template_normals());
    }
    v
}

/// What one freshly spawned blade looks like: assigned fan index `i`, a
/// mesh equal to the template with the fixed triangulation, the shared
/// material in the pinwheel's color, the pinwheel's hub depth, and no
/// rotation accumulated yet.
pub open spec fn pinwheel_blade(
    b: Blade,
    i: int,
    positions: Seq<Point3>,
    normals: Seq<Point3>,
    color: Color,
    hub_depth: i32,
) -> bool {
    &&& b.fan_index == i
    &&& b.mesh.positions@ == positions
    &&& b.mesh.normals@ == normals
    &&& b.mesh.indices@ == blade_indices()
    &&& b.material == blade_material(color)
    &&& b.hub_depth == hub_depth
    &&& b.spin_micros == 0
}

/// Spawns one blade entity owning a mesh built from the given vertex data,
/// tagged with the next fan index in the scene's enumeration order.
pub fn spawn_blade(
    scene: &mut Scene,
    positions: Vec<Point3>,
    normals: Vec<Point3>,
    color: Color,
    hub_depth: i32,
)
    requires
        old(scene).wf(),
        positions@.len() == normals@.len(),
        positions@.len() >= 4,
    ensures
        final(scene).blades@.len() == old(scene).blades@.len() + 1,
        forall|i: int|
            0 <= i < old(scene).blades@.len() ==> final(scene).blades@[i] == old(scene).blades@[i],
        pinwheel_blade(
            final(scene).blades@[old(scene).blades@.len() as int],
            old(scene).blades@.len() as int,
            positions@,
            normals@,
            color,
            hub_depth,
        ),
        final(scene).directional_lights == old(scene).directional_lights,
        final(scene).spot_lights == old(scene).spot_lights,
        final(scene).cameras == old(scene).cameras,
        final(scene).wf(),
{
    let fan_index: usize = scene.blades.len();
    let mesh = build_blade(positions, normals);
    scene.blades.push(
        Blade {
            fan_index,
            mesh,
            material: Material { color, roughness: 100, metallic: 1000 },
            hub_depth,
            spin_micros: 0,
        },
    );
}

/// Spawns one pinwheel: exactly five blade entities, each built from an
/// independent value-copy of the blade template and sharing one color and
/// one hub depth, followed by exactly one matching spot light at the given
/// origin.
#[verifier::loop_isolation(false)]
pub fn spawn_pinwheel(
    scene: &mut Scene,
    positions: &Vec<Point3>,
    normals: &Vec<Point3>,
    color: Color,
    hub_depth: i32,
    light_x: i32,
    light_y: i32,
)
    requires
        old(scene).wf(),
        positions@.len() == normals@.len(),
        positions@.len() >= 4,
    ensures
        final(scene).blades@.len() == old(scene).blades@.len() + blades_per_pinwheel(),
        forall|i: int|
            0 <= i < old(scene).blades@.len() ==> final(scene).blades@[i] == old(scene).blades@[i],
        forall|i: int|
            old(scene).blades@.len() <= i < final(scene).blades@.len() ==> pinwheel_blade(
                #[trigger] final(scene).blades@[i],
                i,
                positions@,
                normals@,
                color,
                hub_depth,
            ),
        final(scene).spot_lights@ == old(scene).spot_lights@.push(
            spot_light(color, light_x, light_y),
        ),
        final(scene).directional_lights == old(scene).directional_lights,
        final(scene).cameras == old(scene).cameras,
        final(scene).wf(),
{
    let mut k: usize = 0;
    while k < 5
        invariant
            k <= 5,
            scene.blades@.len() == old(scene).blades@.len() + k,
            forall|i: int|
                0 <= i < old(scene).blades@.len() ==> scene.blades@[i] == old(scene).blades@[i],
            forall|i: int|
                old(scene).blades@.len() <= i < scene.blades@.len() ==> pinwheel_blade(
                    #[trigger] scene.blades@[i],
                    i,
                    positions@,
                    normals@,
                    color,
                    hub_depth,
                ),
            scene.directional_lights == old(scene).directional_lights,
            scene.spot_lights == old(scene).spot_lights,
            scene.cameras == old(scene).cameras,
            scene.wf(),
        decreases 5 - k,
    {
        let blade_positions = copy_points(positions);
        let blade_normals = copy_points(normals);
        spawn_blade(scene, blade_positions, blade_normals, color, hub_depth);
        k = k + 1;
    }
    spawn_point_light(scene, color, light_x, light_y);
}

/// Sets up the scene's geometry: one pinwheel of template blades in shiny
/// metallic blue, five units behind the origin, with its spot light at the
/// hub.  Runs once at startup.
pub fn setup(scene: &mut Scene)
    requires
        old(scene).wf(),
    ensures
        final(scene).blades@.len() == old(scene).blades@.len() + blades_per_pinwheel(),
        forall|i: int|
            0 <= i < old(scene).blades@.len() ==> final(scene).blades@[i] == old(scene).blades@[i],
        forall|i: int|
            old(scene).blades@.len() <= i < final(scene).blades@.len() ==> pinwheel_blade(
                #[trigger] final(scene).blades@[i],
                i,
                blade_template_positions(),
                blade_template_normals(),
                Color { r: 55, g: 48, b: 242 },
                -5000i32,
            ),
        final(scene).spot_lights@ == old(scene).spot_lights@.push(
            spot_light(Color { r: 55, g: 48, b: 242 }, 0, 0),
        ),
        final(scene).directional_lights == old(scene).directional_lights,
        final(scene).cameras == old(scene).cameras,
        final(scene).wf(),
{
    let positions = template_positions();
    let normals = template_normals();
    spawn_pinwheel(scene, &positions, &normals, shiny_metallic_blue(), -5000, 0, 0);
}

} // verus!
