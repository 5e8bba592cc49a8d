use pinwheel::animation::advance_frame;
use pinwheel::animation::advance_frames;
use pinwheel::animation::animate_light_direction;
use pinwheel::animation::rotate;
use pinwheel::animation::Frame;
use pinwheel::assembly::setup;
use pinwheel::assembly::spawn_pinwheel;
use pinwheel::assembly::template_normals;
use pinwheel::assembly::template_positions;
use pinwheel::geometry::circuit_board_green;
use pinwheel::geometry::led_white;
use pinwheel::geometry::shiny_metallic_blue;
use pinwheel::geometry::Color;
use pinwheel::geometry::Point3;
use pinwheel::mesh::build_blade;
use pinwheel::scene::BloomComposite;
use pinwheel::scene::Scene;
use pinwheel::scene::Tonemapping;
use pinwheel::startup;

#[test]
fn blade_triangulation_is_fixed() {
    let mesh = build_blade(template_positions(), template_normals());
    assert_eq!(mesh.indices, vec![0, 3, 1, 1, 3, 2]);
    assert!(mesh.indices.iter().all(|&k| k < 4));
}

#[test]
fn blade_triangulation_same_for_any_four_vertices() {
    let positions = vec![
        Point3::new(-1000, 0, 0),
        Point3::new(0, 1000, 0),
        Point3::new(1000, 0, 0),
        Point3::new(0, -1000, 0),
    ];
    let normals = vec![
        Point3::new(0, 0, 1000),
        Point3::new(0, 0, 1000),
        Point3::new(0, 0, 1000),
        Point3::new(0, 0, 1000),
    ];
    let mesh = build_blade(positions.clone(), normals.clone());
    assert_eq!(mesh.indices, vec![0, 3, 1, 1, 3, 2]);
    assert_eq!(mesh.positions, positions);
    assert_eq!(mesh.normals, normals);
}

#[test]
fn blade_template_values() {
    let positions = template_positions();
    assert_eq!(
        positions,
        vec![
            Point3::new(0, 0, 0),
            Point3::new(500, 2000, 0),
            Point3::new(1000, 2000, 0),
            Point3::new(0, 0, 0),
        ]
    );
    let normals = template_normals();
    assert_eq!(normals.len(), 4);
    assert!(normals.iter().all(|&n| n == Point3::new(0, 0, 1000)));
}

#[test]
fn copy_independence_between_sibling_blades() {
    let mut scene = startup();
    scene.blades[0].mesh.positions[0] = Point3::new(9999, -9999, 1);
    scene.blades[0].mesh.normals[2] = Point3::new(1000, 0, 0);
    for i in 1..5 {
        assert_eq!(scene.blades[i].mesh.positions[0], Point3::new(0, 0, 0));
        assert_eq!(scene.blades[i].mesh.normals[2], Point3::new(0, 0, 1000));
    }
}

#[test]
fn pinwheel_spawns_five_blades_and_one_spot_light() {
    let mut scene = Scene::new();
    let positions = template_positions();
    let normals = template_normals();
    spawn_pinwheel(
        &mut scene,
        &positions,
        &normals,
        circuit_board_green(),
        -5000,
        2000,
        -3000,
    );
    assert_eq!(scene.blades.len(), 5);
    assert_eq!(scene.spot_lights.len(), 1);
    assert_eq!(scene.spot_lights[0].color, circuit_board_green());
    assert_eq!(scene.spot_lights[0].intensity, 80000);
    assert!(scene.spot_lights[0].shadows_enabled);
    assert_eq!(scene.spot_lights[0].x, 2000);
    assert_eq!(scene.spot_lights[0].y, -3000);
    for (i, blade) in scene.blades.iter().enumerate() {
        assert_eq!(blade.fan_index, i);
        assert_eq!(blade.material.color, circuit_board_green());
        assert_eq!(blade.material.roughness, 100);
        assert_eq!(blade.material.metallic, 1000);
        assert_eq!(blade.hub_depth, -5000);
        assert_eq!(blade.spin_micros, 0);
    }
}

#[test]
fn setup_uses_blue_template_at_depth() {
    let mut scene = Scene::new();
    setup(&mut scene);
    assert_eq!(scene.blades.len(), 5);
    for blade in &scene.blades {
        assert_eq!(blade.material.color, shiny_metallic_blue());
        assert_eq!(blade.hub_depth, -5000);
        assert_eq!(blade.mesh.positions, template_positions());
        assert_eq!(blade.mesh.normals, template_normals());
    }
    assert_eq!(scene.spot_lights.len(), 1);
    assert_eq!(scene.spot_lights[0].x, 0);
    assert_eq!(scene.spot_lights[0].y, 0);
    assert_eq!(scene.spot_lights[0].color, shiny_metallic_blue());
}

#[test]
fn rotation_gating_at_two_point_three_seconds() {
    let mut scene = startup();
    // elapsed 2.3 s -> count = 2: blades 0, 1, 2 gain this frame's delta.
    rotate(&mut scene, 2_300_000, 16_000);
    assert_eq!(scene.blades[0].spin_micros, 16_000);
    assert_eq!(scene.blades[1].spin_micros, 16_000);
    assert_eq!(scene.blades[2].spin_micros, 16_000);
    assert_eq!(scene.blades[3].spin_micros, 0);
    assert_eq!(scene.blades[4].spin_micros, 0);
}

#[test]
fn rotation_gating_at_time_zero() {
    let mut scene = startup();
    rotate(&mut scene, 0, 16_000);
    assert_eq!(scene.blades[0].spin_micros, 16_000);
    for i in 1..5 {
        assert_eq!(scene.blades[i].spin_micros, 0);
    }
}

#[test]
fn rotation_gating_with_more_blades_than_one_pinwheel() {
    let mut scene = startup();
    let positions = template_positions();
    let normals = template_normals();
    spawn_pinwheel(&mut scene, &positions, &normals, led_white(), -5000, 0, 0);
    assert_eq!(scene.blades.len(), 10);
    // elapsed 7.9 s -> count = 7: blades 0..=7 gain the delta, 8 and 9 do not.
    rotate(&mut scene, 7_900_000, 10_000);
    for i in 0..8 {
        assert_eq!(scene.blades[i].spin_micros, 10_000);
    }
    assert_eq!(scene.blades[8].spin_micros, 0);
    assert_eq!(scene.blades[9].spin_micros, 0);
}

#[test]
fn rotation_accumulates_over_frames() {
    let mut scene = startup();
    rotate(&mut scene, 0, 10_000);
    rotate(&mut scene, 1_000_000, 20_000);
    rotate(&mut scene, 2_000_000, 30_000);
    assert_eq!(scene.blades[0].spin_micros, 60_000);
    assert_eq!(scene.blades[1].spin_micros, 50_000);
    assert_eq!(scene.blades[2].spin_micros, 30_000);
    assert_eq!(scene.blades[3].spin_micros, 0);
}

#[test]
fn light_sway_accumulates_deltas() {
    let mut scene = startup();
    let deltas = [16_000u64, 7_000, 10_000, 1];
    for &d in &deltas {
        animate_light_direction(&mut scene, d);
    }
    assert_eq!(scene.directional_lights[0].sway_micros, 33_001);
    // The light's configuration is untouched by the sway.
    assert_eq!(scene.directional_lights[0].color, led_white());
    assert_eq!(scene.directional_lights[0].illuminance, 10000);
    assert!(scene.directional_lights[0].shadows_enabled);
    assert_eq!(scene.directional_lights[0].z, 5000);
}

#[test]
fn light_sway_independent_of_blades() {
    let mut with_rotation = startup();
    let mut without_rotation = startup();
    for frame in 0..10u64 {
        advance_frame(
            &mut with_rotation,
            Frame {
                elapsed_micros: frame * 16_000,
                delta_micros: 16_000,
            },
        );
        animate_light_direction(&mut without_rotation, 16_000);
    }
    assert_eq!(
        with_rotation.directional_lights[0].sway_micros,
        without_rotation.directional_lights[0].sway_micros,
    );
    assert_eq!(with_rotation.directional_lights[0].sway_micros, 160_000);
}

#[test]
fn advance_frames_matches_single_steps() {
    let frames: Vec<Frame> = (0..50u64)
        .map(|k| Frame {
            elapsed_micros: k * 16_000,
            delta_micros: 16_000,
        })
        .collect();

    let mut batched = startup();
    advance_frames(&mut batched, &frames);

    let mut stepped = startup();
    for &frame in &frames {
        advance_frame(&mut stepped, frame);
    }

    for i in 0..5 {
        assert_eq!(batched.blades[i].spin_micros, stepped.blades[i].spin_micros);
    }
    assert_eq!(
        batched.directional_lights[0].sway_micros,
        stepped.directional_lights[0].sway_micros,
    );
    // 50 frames of 16 ms: the light has accumulated the full sum of deltas.
    assert_eq!(batched.directional_lights[0].sway_micros, 800_000);
}

#[test]
fn scene_cardinality_steady_over_many_frames() {
    let mut scene = startup();
    assert_eq!(scene.blades.len(), 5);
    assert_eq!(scene.directional_lights.len(), 1);
    assert_eq!(scene.spot_lights.len(), 1);
    assert_eq!(scene.cameras.len(), 1);
    for frame in 0..1000u64 {
        advance_frame(
            &mut scene,
            Frame {
                elapsed_micros: frame * 16_667,
                delta_micros: 16_667,
            },
        );
        assert_eq!(scene.blades.len(), 5);
        assert_eq!(scene.directional_lights.len(), 1);
        assert_eq!(scene.spot_lights.len(), 1);
        assert_eq!(scene.cameras.len(), 1);
    }
}

#[test]
fn camera_config_values() {
    let scene = startup();
    assert_eq!(scene.cameras.len(), 1);
    let camera = &scene.cameras[0];
    assert_eq!(camera.position, Point3::new(0, 0, 10000));
    assert_eq!(camera.target, Point3::new(0, 0, 0));
    assert_eq!(camera.up, Point3::new(0, 1000, 0));
    assert!(camera.hdr);
    assert_eq!(camera.tonemapping, Tonemapping::TonyMcMapface);
    assert_eq!(camera.bloom.intensity, 200);
    assert_eq!(camera.bloom.low_frequency_boost, 200);
    assert_eq!(camera.bloom.low_frequency_boost_curvature, 1000);
    assert_eq!(camera.bloom.high_pass_frequency, 500);
    assert_eq!(camera.bloom.threshold, 400);
    assert_eq!(camera.bloom.threshold_softness, 500);
    assert_eq!(camera.bloom.composite_mode, BloomComposite::Additive);
}

#[test]
fn well_formedness_checker_accepts_and_rejects() {
    let scene = startup();
    assert!(scene.is_well_formed());
    assert!(scene.blades[0].mesh.is_well_formed());

    let mut reindexed = startup();
    reindexed.blades[0].fan_index = 3;
    assert!(!reindexed.is_well_formed());

    let mut truncated = startup();
    truncated.blades[4].mesh.positions.truncate(2);
    assert!(!truncated.blades[4].mesh.is_well_formed());
    assert!(!truncated.is_well_formed());
}

#[test]
fn palette_values() {
    assert_eq!(shiny_metallic_blue(), Color { r: 55, g: 48, b: 242 });
    assert_eq!(circuit_board_green(), Color { r: 65, g: 191, b: 73 });
    assert_eq!(led_white(), Color { r: 256, g: 256, b: 61952 });
}
