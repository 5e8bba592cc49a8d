//! Scene-wide laws: properties that relate several operations, proved once
//! and for all over the spec-level model.

use vstd::prelude::*;

use crate::animation::Frame;
use crate::animation::lemma_sum_deltas_nonnegative;
use crate::animation::rotate_blades_step;
use crate::animation::run_rotations;
use crate::animation::run_sways;
use crate::animation::spin_count;
use crate::animation::sum_deltas;
use crate::animation::sway_lights_step;
use crate::scene::Blade;
use crate::scene::DirectionalLight;

verus! {

/// Rotation gating: for elapsed time `t` with `count` the floor of `t` in
/// whole seconds, one rotation pass rotates the blade at enumeration index
/// `i` by the frame's delta exactly when `i <= count`, and leaves every
/// blade with index beyond `count` untouched — however many blades exist.
pub proof fn lemma_rotation_gating(blades: Seq<Blade>, elapsed_micros: u64, delta_micros: u64)
    ensures
        run_rotations(blades, seq![Frame { elapsed_micros, delta_micros }]).len()
            == blades.len(),
        forall|i: int|
            0 <= i < blades.len() && i <= spin_count(elapsed_micros) ==> (#[trigger] run_rotations(
                blades,
                seq![Frame { elapsed_micros, delta_micros }],
            )[i]) == (Blade {
                spin_micros: (blades[i].spin_micros + delta_micros) as u64,
                ..blades[i]
            }),
        forall|i: int|
            0 <= i < blades.len() && i > spin_count(elapsed_micros) ==> (#[trigger] run_rotations(
                blades,
                seq![Frame { elapsed_micros, delta_micros }],
            )[i]) == blades[i],
{
    let frames = seq![Frame { elapsed_micros, delta_micros }];
    let stepped = rotate_blades_step(blades, elapsed_micros, delta_micros);
    assert(frames[0] == (Frame { elapsed_micros, delta_micros }));
    assert(frames.drop_first().len() == 0);
    assert(run_rotations(stepped, frames.drop_first()) == stepped);
    assert(run_rotations(blades, frames) == run_rotations(stepped, frames.drop_first()));
}

/// Copy independence: every spawned blade owns its data, so replacing the
/// blade at one enumeration index — say, after mutating its vertex buffer —
/// leaves every sibling blade exactly as it was.
pub proof fn lemma_copy_independence(blades: Seq<Blade>, i: int, b: Blade, j: int)
    requires
        0 <= i < blades.len(),
        0 <= j < blades.len(),
        j != i,
    ensures
        blades.update(i, b)[j] == blades[j],
{
}

/// Light sway monotonicity: after any run of frames with per-frame deltas
/// `d_1..d_N`, a directional light's accumulated sway time equals its
/// starting sway time plus the sum of the deltas, and nothing else about
/// the light changes.  The statement reads only the lights, so the result
/// is independent of any blade state.
pub proof fn lemma_light_sway_accumulates(
    lights: Seq<DirectionalLight>,
    frames: Seq<Frame>,
    i: int,
)
    requires
        0 <= i < lights.len(),
        lights[i].sway_micros + sum_deltas(frames) <= u64::MAX,
    ensures
        run_sways(lights, frames).len() == lights.len(),
        run_sways(lights, frames)[i] == (DirectionalLight {
            sway_micros: (lights[i].sway_micros + sum_deltas(frames)) as u64,
            ..lights[i]
        }),
    decreases frames.len(),
{
    if frames.len() == 0 {
        assert(run_sways(lights, frames)[i] == (DirectionalLight {
            sway_micros: (lights[i].sway_micros + sum_deltas(frames)) as u64,
            ..lights[i]
        }));
    } else {
        let stepped = sway_lights_step(lights, frames[0].delta_micros);
        lemma_sum_deltas_nonnegative(frames.drop_first());
        assert(stepped[i] == (DirectionalLight {
            sway_micros: (lights[i].sway_micros + frames[0].delta_micros) as u64,
            ..lights[i]
        }));
        lemma_light_sway_accumulates(stepped, frames.drop_first(), i);
    }
}

/// Scene cardinality at steady state: no run of update frames creates or
/// destroys an entity — the blade count and the directional light count
/// after any number of frames equal the counts setup left behind.  (The
/// update passes never touch the spot lights or cameras at all.)
pub proof fn lemma_cardinality_steady(
    blades: Seq<Blade>,
    lights: Seq<DirectionalLight>,
    frames: Seq<Frame>,
)
    ensures
        run_rotations(blades, frames).len() == blades.len(),
        run_sways(lights, frames).len() == lights.len(),
    decreases frames.len(),
{
    if frames.len() > 0 {
        lemma_cardinality_steady(
            rotate_blades_step(blades, frames[0].elapsed_micros, frames[0].delta_micros),
            sway_lights_step(lights, frames[0].delta_micros),
            frames.drop_first(),
        );
    }
}

} // verus!
