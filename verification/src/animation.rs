//! The animation driver: the per-frame update of an already-built scene.
//!
//! Each frame reads the clock (elapsed time since start and delta since the
//! previous frame, both in microseconds) and accumulates rotation time on
//! entities.  A blade's accumulated `spin_micros` stands for a rotation of
//! 0.2 of a revolution per second of accumulated time about its local Z
//! axis; a directional light's `sway_micros` stands for 0.8 radians per
//! second about its local X axis.  The host applies those rates when it
//! renders.

use vstd::prelude::*;

use crate::scene::Blade;
use crate::scene::DirectionalLight;
use crate::scene::Scene;

verus! {

/// One frame's clock reading: elapsed time since start, and the delta since
/// the previous frame, both in microseconds.
#[derive(Clone, Copy, Debug, PartialEq, Eq, Structural)]
pub struct Frame {
    pub elapsed_micros: u64,
    pub delta_micros: u64,
}

/// The whole-second count the rotation pass is gated on: the floor of the
/// elapsed time in seconds.
pub open spec fn spin_count(elapsed_micros: u64) -> int {
    elapsed_micros as int / 1_000_000
}

/// One rotation pass over the blade list: the blade at enumeration index
/// `i` gains the frame's delta of rotation time exactly when `i` is at most
/// the whole-second count; the pass stops at the count, so every later
/// blade is left untouched.
pub open spec fn rotate_blades_step(
    blades: Seq<Blade>,
    elapsed_micros: u64,
    delta_micros: u64,
) -> Seq<Blade> {
    blades.map(
        |i: int, b: Blade|
            if i <= spin_count(elapsed_micros) {
                Blade { spin_micros: (b.spin_micros + delta_micros) as u64, ..b }
            } else {
                b
            },
    )
}

/// One sway pass over the directional lights: every one gains the frame's
/// delta of rotation time, unconditionally.
pub open spec fn sway_lights_step(
    lights: Seq<DirectionalLight>,
    delta_micros: u64,
) -> Seq<DirectionalLight> {
    lights.map(
        |i: int, l: DirectionalLight|
            DirectionalLight { sway_micros: (l.sway_micros + delta_micros) as u64, ..l },
    )
}

/// The blade list after a whole run of frames, each applying one rotation
/// pass with that frame's clock reading.
pub open spec fn run_rotations(blades: Seq<Blade>, frames: Seq<Frame>) -> Seq<Blade>
    decreases frames.len(),
{
    if frames.len() == 0 {
        blades
    } else {
        run_rotations(
            rotate_blades_step(blades, frames[0].elapsed_micros, frames[0].delta_micros),
            frames.drop_first(),
        )
    }
}

/// The directional lights after a whole run of frames, each applying one
/// sway pass with that frame's delta.
pub open spec fn run_sways(
    lights: Seq<DirectionalLight>,
    frames: Seq<Frame>,
) -> Seq<DirectionalLight>
    decreases frames.len(),
{
    if frames.len() == 0 {
        lights
    } else {
        run_sways(sway_lights_step(lights, frames[0].delta_micros), frames.drop_first())
    }
}

/// The total rotation time a run of frames delivers: the sum of the
/// per-frame deltas.
pub open spec fn sum_deltas(frames: Seq<Frame>) -> int
    decreases frames.len(),
{
    if frames.len() == 0 {
        0
    } else {
        frames[0].delta_micros + sum_deltas(frames.drop_first())
    }
}

/// Per-frame deltas never subtract: the total rotation time a run of
/// frames delivers is at least zero.
pub proof fn lemma_sum_deltas_nonnegative(frames: Seq<Frame>)
    ensures
        sum_deltas(frames) >= 0,
    decreases frames.len(),
{
    if frames.len() > 0 {
        lemma_sum_deltas_nonnegative(frames.drop_first());
    }
}

/// Appending one frame to a run of rotations applies its rotation pass to
/// the run's result.
pub proof fn lemma_run_rotations_snoc(blades: Seq<Blade>, frames: Seq<Frame>, f: Frame)
    ensures
        run_rotations(blades, frames.push(f)) == rotate_blades_step(
            run_rotations(blades, frames),
            f.elapsed_micros,
            f.delta_micros,
        ),
    decreases frames.len(),
{
    let snoc = frames.push(f);
    assert(snoc.len() == frames.len() + 1);
    if frames.len() == 0 {
        let stepped = rotate_blades_step(blades, f.elapsed_micros, f.delta_micros);
        assert(snoc[0] == f);
        assert(snoc.drop_first() =~= frames);
        assert(run_rotations(blades, snoc) == run_rotations(stepped, snoc.drop_first()));
        assert(run_rotations(stepped, frames) == stepped);
        assert(run_rotations(blades, frames) == blades);
    } else {
        let stepped = rotate_blades_step(blades, frames[0].elapsed_micros, frames[0].delta_micros);
        assert(snoc[0] == frames[0]);
        assert(snoc.drop_first() =~= frames.drop_first().push(f));
        assert(run_rotations(blades, snoc) == run_rotations(stepped, snoc.drop_first()));
        assert(run_rotations(blades, frames) == run_rotations(stepped, frames.drop_first()));
        lemma_run_rotations_snoc(stepped, frames.drop_first(), f);
    }
}

/// Appending one frame to a run of sways applies its sway pass to the
/// run's result.
pub proof fn lemma_run_sways_snoc(lights: Seq<DirectionalLight>, frames: Seq<Frame>, f: Frame)
    ensures
        run_sways(lights, frames.push(f)) == sway_lights_step(
            run_sways(lights, frames),
            f.delta_micros,
        ),
    decreases frames.len(),
{
    let snoc = frames.push(f);
    assert(snoc.len() == frames.len() + 1);
    if frames.len() == 0 {
        let stepped = sway_lights_step(lights, f.delta_micros);
        assert(snoc[0] == f);
        assert(snoc.drop_first() =~= frames);
        assert(run_sways(lights, snoc) == run_sways(stepped, snoc.drop_first()));
        assert(run_sways(stepped, frames) == stepped);
        assert(run_sways(lights, frames) == lights);
    } else {
        let stepped = sway_lights_step(lights, frames[0].delta_micros);
        assert(snoc[0] == frames[0]);
        assert(snoc.drop_first() =~= frames.drop_first().push(f));
        assert(run_sways(lights, snoc) == run_sways(stepped, snoc.drop_first()));
        assert(run_sways(lights, frames) == run_sways(stepped, frames.drop_first()));
        lemma_run_sways_snoc(stepped, frames.drop_first(), f);
    }
}

/// The blade rotation rule.  Walks the blades in their stable enumeration
/// order, adding the frame's delta of rotation time to each, and breaks as
/// soon as it has processed the blade whose fan index equals the
/// whole-second count — so the set of spinning blades grows by one every
/// second, and blades ordered after the boundary receive nothing that
/// frame.
pub fn rotate(scene: &mut Scene, elapsed_micros: u64, delta_micros: u64)
    requires
        old(scene).wf(),
        forall|i: int|
            0 <= i < old(scene).blades@.len() ==> (#[trigger] old(scene).blades@[i]).spin_micros + delta_micros <= u64::MAX,
    ensures
        final(scene).blades@ == rotate_blades_step(
            old(scene).blades@,
            elapsed_micros,
            delta_micros,
        ),
        forall|i: int|
            0 <= i < old(scene).blades@.len() && i <= spin_count(elapsed_micros) ==> (
            #[trigger] final(scene).blades@[i]).spin_micros == old(scene).blades@[i].spin_micros
                + delta_micros,
        forall|i: int|
            0 <= i < old(scene).blades@.len() && i > spin_count(elapsed_micros) ==> (
            #[trigger] final(scene).blades@[i]) == old(scene).blades@[i],
        final(scene).directional_lights == old(scene).directional_lights,
        final(scene).spot_lights == old(scene).spot_lights,
        final(scene).cameras == old(scene).cameras,
        final(scene).wf(),
{
    let count: u64 = elapsed_micros / 1_000_000;
    let n: usize = scene.blades.len();
    let mut i: usize = 0;
    while i < n
        invariant_except_break
            i <= n,
            i <= spin_count(elapsed_micros),
            forall|j: int| i <= j < n ==> (#[trigger] scene.blades@[j]) == old(scene).blades@[j],
        invariant
            n == scene.blades@.len(),
            scene.blades@.len() == old(scene).blades@.len(),
            count == spin_count(elapsed_micros),
            forall|j: int|
                0 <= j < n ==> (#[trigger] old(scene).blades@[j]).spin_micros + delta_micros
                    <= u64::MAX,
            forall|j: int| 0 <= j < n ==> (#[trigger] old(scene).blades@[j]).fan_index == j,
            forall|j: int|
                0 <= j < i ==> (#[trigger] scene.blades@[j]) == (Blade {
                    spin_micros: (old(scene).blades@[j].spin_micros + delta_micros) as u64,
                    ..old(scene).blades@[j]
                }),
            scene.directional_lights == old(scene).directional_lights,
            scene.spot_lights == old(scene).spot_lights,
            scene.cameras == old(scene).cameras,
        ensures
            forall|j: int|
                0 <= j < n && j <= spin_count(elapsed_micros) ==> (#[trigger] scene.blades@[j])
                    == (Blade {
                    spin_micros: (old(scene).blades@[j].spin_micros + delta_micros) as u64,
                    ..old(scene).blades@[j]
                }),
            forall|j: int|
                0 <= j < n && j > spin_count(elapsed_micros) ==> (#[trigger] scene.blades@[j])
                    == old(scene).blades@[j],
            scene.blades@.len() == old(scene).blades@.len(),
            scene.directional_lights == old(scene).directional_lights,
            scene.spot_lights == old(scene).spot_lights,
            scene.cameras == old(scene).cameras,
        decreases n - i,
    {
        let spin: u64 = scene.blades[i].spin_micros;
        let fan_index: usize = scene.blades[i].fan_index;
        scene.blades[i].spin_micros = spin + delta_micros;
        if fan_index as u64 == count {
            break;
        }
        i = i + 1;
    }
    proof {
        assert(scene.blades@ =~= rotate_blades_step(
            old(scene).blades@,
            elapsed_micros,
            delta_micros,
        ));
    }
}

/// The light sway rule: every frame, every directional light gains the
/// frame's delta of rotation time about its local X axis — unconditional
/// and cumulative, with no gating and no reset, whatever the blades are
/// doing.
#[verifier::loop_isolation(false)]
pub fn animate_light_direction(scene: &mut Scene, delta_micros: u64)
    requires
        old(scene).wf(),
        forall|i: int|
            0 <= i < old(scene).directional_lights@.len() ==> (#[trigger] old(scene).directional_lights@[i]).sway_micros + delta_micros <= u64::MAX,
    ensures
        final(scene).directional_lights@ == sway_lights_step(
            old(scene).directional_lights@,
            delta_micros,
        ),
        forall|i: int|
            0 <= i < old(scene).directional_lights@.len() ==> (#[trigger] final(scene).directional_lights@[i]).sway_micros == old(scene).directional_lights@[i].sway_micros
                + delta_micros,
        final(scene).blades == old(scene).blades,
        final(scene).spot_lights == old(scene).spot_lights,
        final(scene).cameras == old(scene).cameras,
        final(scene).wf(),
{
    let n: usize = scene.directional_lights.len();
    let mut i: usize = 0;
    while i < n
        invariant
            i <= n,
            n == scene.directional_lights@.len(),
            scene.directional_lights@.len() == old(scene).directional_lights@.len(),
            forall|j: int|
                0 <= j < i ==> (#[trigger] scene.directional_lights@[j]) == (DirectionalLight {
                    sway_micros: (old(scene).directional_lights@[j].sway_micros
                        + delta_micros) as u64,
                    ..old(scene).directional_lights@[j]
                }),
            forall|j: int|
                i <= j < n ==> (#[trigger] scene.directional_lights@[j]) == old(scene).directional_lights@[j],
            scene.blades == old(scene).blades,
            scene.spot_lights == old(scene).spot_lights,
            scene.cameras == old(scene).cameras,
        decreases n - i,
    {
        let sway: u64 = scene.directional_lights[i].sway_micros;
        scene.directional_lights[i].sway_micros = sway + delta_micros;
        i = i + 1;
    }
    proof {
        assert(scene.directional_lights@ =~= sway_lights_step(
            old(scene).directional_lights@,
            delta_micros,
        ));
    }
}

/// One whole update pass: the blade rotation rule, then the light sway
/// rule, as the host scheduler runs them once per rendered frame.
pub fn advance_frame(scene: &mut Scene, frame: Frame)
    requires
        old(scene).wf(),
        forall|i: int|
            0 <= i < old(scene).blades@.len() ==> (#[trigger] old(scene).blades@[i]).spin_micros + frame.delta_micros <= u64::MAX,
        forall|i: int|
            0 <= i < old(scene).directional_lights@.len() ==> (#[trigger] old(scene).directional_lights@[i]).sway_micros + frame.delta_micros <= u64::MAX,
    ensures
        final(scene).blades@ == rotate_blades_step(
            old(scene).blades@,
            frame.elapsed_micros,
            frame.delta_micros,
        ),
        final(scene).directional_lights@ == sway_lights_step(
            old(scene).directional_lights@,
            frame.delta_micros,
        ),
        final(scene).spot_lights == old(scene).spot_lights,
        final(scene).cameras == old(scene).cameras,
        final(scene).wf(),
{
    rotate(scene, frame.elapsed_micros, frame.delta_micros);
    animate_light_direction(scene, frame.delta_micros);
}

/// Runs a whole sequence of frames through the update schedule, in order,
/// one update pass per frame: the scene ends exactly as the spec-level run
/// of those frames describes.
#[verifier::loop_isolation(false)]
pub fn advance_frames(scene: &mut Scene, frames: &Vec<Frame>)
    requires
        old(scene).wf(),
        forall|i: int|
            0 <= i < old(scene).blades@.len() ==> (#[trigger] old(scene).blades@[i]).spin_micros
                + sum_deltas(frames@) <= u64::MAX,
        forall|i: int|
            0 <= i < old(scene).directional_lights@.len() ==> (#[trigger] old(
                scene,
            ).directional_lights@[i]).sway_micros + sum_deltas(frames@) <= u64::MAX,
    ensures
        final(scene).blades@ == run_rotations(old(scene).blades@, frames@),
        final(scene).directional_lights@ == run_sways(old(scene).directional_lights@, frames@),
        final(scene).spot_lights == old(scene).spot_lights,
        final(scene).cameras == old(scene).cameras,
        final(scene).wf(),
{
    proof {
        assert(frames@.subrange(0, frames@.len() as int) =~= frames@);
    }
    let end: usize = frames.len();
    let mut k: usize = 0;
    while k < end
        invariant
            k <= end,
            scene.blades@ == run_rotations(old(scene).blades@, frames@.subrange(0, k as int)),
            scene.directional_lights@ == run_sways(
                old(scene).directional_lights@,
                frames@.subrange(0, k as int),
            ),
            scene.spot_lights == old(scene).spot_lights,
            scene.cameras == old(scene).cameras,
            scene.wf(),
            forall|i: int|
                0 <= i < scene.blades@.len() ==> (#[trigger] scene.blades@[i]).spin_micros
                    + sum_deltas(frames@.subrange(k as int, end as int)) <= u64::MAX,
            forall|i: int|
                0 <= i < scene.directional_lights@.len() ==> (#[trigger] scene.directional_lights@[i]).sway_micros
                    + sum_deltas(frames@.subrange(k as int, end as int)) <= u64::MAX,
        decreases end - k,
    {
        let ghost processed = frames@.subrange(0, k as int);
        let ghost remaining = frames@.subrange(k as int, end as int);
        let ghost pre = *scene;
        let f = frames[k];
        proof {
            assert(remaining[0] == f);
            assert(remaining.drop_first() =~= frames@.subrange(k as int + 1, end as int));
            lemma_sum_deltas_nonnegative(remaining.drop_first());
            assert(sum_deltas(remaining) == f.delta_micros + sum_deltas(remaining.drop_first()));
        }
        advance_frame(scene, f);
        proof {
            lemma_run_rotations_snoc(old(scene).blades@, processed, f);
            lemma_run_sways_snoc(old(scene).directional_lights@, processed, f);
            assert(processed.push(f) =~= frames@.subrange(0, k as int + 1));
            assert forall|i: int| 0 <= i < scene.blades@.len() implies (
            #[trigger] scene.blades@[i]).spin_micros + sum_deltas(
                frames@.subrange(k as int + 1, end as int),
            ) <= u64::MAX by {
                assert(scene.blades@[i].spin_micros <= pre.blades@[i].spin_micros
                    + f.delta_micros);
            }
            assert forall|i: int| 0 <= i < scene.directional_lights@.len() implies (
            #[trigger] scene.directional_lights@[i]).sway_micros + sum_deltas(
                frames@.subrange(k as int + 1, end as int),
            ) <= u64::MAX by {
                assert(scene.directional_lights@[i].sway_micros
                    <= pre.directional_lights@[i].sway_micros + f.delta_micros);
            }
        }
        k = k + 1;
    }
}

} // verus!
