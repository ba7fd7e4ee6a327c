use moving_ascii_art::field::{
    base_point, base_points, generate_image_driven, generate_procedural, image_level,
    procedural_level, FieldParams, NoisePoint, PROCEDURAL_CONTRAST,
};
use moving_ascii_art::grid::LuminanceGrid;
use moving_ascii_art::hash::hash01;

#[test]
fn a_grid_needs_one_cell_per_column_of_each_row() {
    assert!(LuminanceGrid::new(4, 3, vec![0; 12]).is_some());
    assert!(LuminanceGrid::new(4, 3, vec![0; 11]).is_none());
    assert!(LuminanceGrid::new(4, 3, vec![0; 13]).is_none());
    assert!(LuminanceGrid::new(0, 3, Vec::new()).is_some());
    assert!(LuminanceGrid::new(0, 0, vec![1]).is_none());
}

#[test]
fn a_grid_is_read_row_by_row() {
    let grid = LuminanceGrid::new(3, 2, vec![1, 2, 3, 4, 5, 6]).unwrap();
    assert_eq!(grid.width(), 3);
    assert_eq!(grid.height(), 2);
    assert_eq!(grid.get(0, 0), 1);
    assert_eq!(grid.get(2, 0), 3);
    assert_eq!(grid.get(0, 1), 4);
    assert_eq!(grid.get(2, 1), 6);
    assert_eq!(grid.cells(), &vec![1, 2, 3, 4, 5, 6]);
    assert_eq!(grid.into_cells(), vec![1, 2, 3, 4, 5, 6]);
}

#[test]
fn a_filled_grid_holds_one_value() {
    let grid = LuminanceGrid::filled(5, 4, 77).unwrap();
    assert_eq!(grid.width(), 5);
    assert_eq!(grid.height(), 4);
    assert_eq!(grid.cells(), &vec![77u8; 20]);
    let empty = LuminanceGrid::filled(0, 9, 1).unwrap();
    assert!(empty.cells().is_empty());
}

#[test]
fn the_presets_hold_the_constants_of_each_variant() {
    let p = FieldParams::procedural();
    assert_eq!((p.scale, p.speed, p.phase_span, p.amplitude), (90_000, 50_000, 0, 200_000));
    let i = FieldParams::image_driven();
    assert_eq!(
        (i.scale, i.speed, i.phase_span, i.amplitude),
        (5_000_000, 100_000_000, 10_000_000, 200_000)
    );
    assert_eq!(PROCEDURAL_CONTRAST, 4_000_000);
}

#[test]
fn a_procedural_point_scales_the_cell_and_the_time() {
    let p = base_point(&FieldParams::procedural(), 2, 3, 1_000_000);
    assert_eq!(p, NoisePoint { x: 180_000, y: 270_000, z: 50_000 });
    let q = base_point(&FieldParams::procedural(), 127, 95, 20_000_000);
    assert_eq!(q, NoisePoint { x: 11_430_000, y: 8_550_000, z: 1_000_000 });
}

#[test]
fn an_image_driven_point_runs_ahead_by_its_phase() {
    let params = FieldParams::image_driven();
    let p = base_point(&params, 1, 0, 0);
    assert_eq!(hash01(1, 0), 508124);
    assert_eq!(p, NoisePoint { x: 5_000_000, y: 0, z: 508_124_000 });
    let q = base_point(&params, 1, 0, 2_000_000);
    assert_eq!(q, NoisePoint { x: 5_000_000, y: 0, z: 708_124_000 });
    let r = base_point(&params, 0, 0, 3);
    assert_eq!(r, NoisePoint { x: 0, y: 0, z: 300 });
}

#[test]
fn a_point_far_out_saturates() {
    let params = FieldParams { scale: i64::MAX, speed: i64::MAX, phase_span: i64::MAX, amplitude: 0 };
    let p = base_point(&params, u32::MAX, 1, u64::MAX);
    assert_eq!(p, NoisePoint { x: i64::MAX, y: i64::MAX, z: i64::MAX });
    let back = FieldParams { scale: i64::MIN, speed: i64::MIN, phase_span: 0, amplitude: 0 };
    let q = base_point(&back, 2, 0, u64::MAX);
    assert_eq!(q, NoisePoint { x: i64::MIN, y: 0, z: i64::MIN });
}

#[test]
fn a_negative_product_is_rounded_down() {
    let params = FieldParams { scale: -1, speed: -1, phase_span: 0, amplitude: 0 };
    let p = base_point(&params, 3, 0, 1);
    assert_eq!(p, NoisePoint { x: -3, y: 0, z: -1 });
    let q = base_point(&params, 0, 0, 1_000_000);
    assert_eq!(q.z, -1);
    let r = base_point(&params, 0, 0, 1_000_001);
    assert_eq!(r.z, -2);
}

#[test]
fn the_points_of_a_field_come_row_by_row() {
    let params = FieldParams::image_driven();
    let plan = base_points(&params, 3, 2, 7_000);
    assert_eq!(plan.len(), 6);
    for y in 0..2u32 {
        for x in 0..3u32 {
            assert_eq!(plan[(y * 3 + x) as usize], base_point(&params, x, y, 7_000));
        }
    }
    assert!(base_points(&params, 0, 5, 0).is_empty());
    assert!(base_points(&params, 5, 0, 0).is_empty());
}

#[test]
fn the_procedural_level_has_known_values() {
    assert_eq!(procedural_level(0, 200_000, 4_000_000), 128);
    assert_eq!(procedural_level(1_000_000, 200_000, 4_000_000), 255);
    assert_eq!(procedural_level(-1_000_000, 200_000, 4_000_000), 0);
    assert_eq!(procedural_level(50_000, 200_000, 4_000_000), 138);
    assert_eq!(procedural_level(-50_000, 200_000, 4_000_000), 117);
    assert_eq!(procedural_level(125_000, 200_000, 4_000_000), 153);
    assert_eq!(procedural_level(-125_000, 200_000, 4_000_000), 102);
    assert_eq!(procedural_level(2_451, 200_000, 4_000_000), 128);
    assert_eq!(procedural_level(-2_451, 200_000, 4_000_000), 127);
}

#[test]
fn the_procedural_level_is_clamped_for_any_noise() {
    assert_eq!(procedural_level(i64::MAX, i64::MAX, i64::MAX), 255);
    assert_eq!(procedural_level(i64::MIN, i64::MAX, i64::MAX), 0);
    assert_eq!(procedural_level(i64::MIN, i64::MIN, i64::MAX), 255);
    assert_eq!(procedural_level(i64::MAX, i64::MAX, i64::MIN), 0);
    assert_eq!(procedural_level(i64::MAX, i64::MAX, 0), 128);
}

#[test]
fn the_procedural_level_follows_the_floating_point_formula() {
    for step in -40..=40i64 {
        let n = step * 31_250;
        let noise = n as f32 / 1_000_000.0;
        let mut v = (0.5 + noise * 0.20_f32).clamp(0.0, 1.0);
        v = ((v - 0.5) * 4.0 + 0.5).clamp(0.0, 1.0);
        let expected = (v * 255.0).round();
        let ours = procedural_level(n, 200_000, 4_000_000) as f32;
        assert!((ours - expected).abs() <= 1.0);
    }
}

#[test]
fn the_image_level_has_known_values() {
    assert_eq!(image_level(100, 500_000, 200_000), 126);
    assert_eq!(image_level(100, -500_000, 200_000), 75);
    assert_eq!(image_level(200, -1_000_000, 200_000), 149);
    assert_eq!(image_level(255, 1_000_000, 200_000), 255);
    assert_eq!(image_level(7, 9_803, 200_000), 7);
    assert_eq!(image_level(7, 9_804, 200_000), 8);
}

#[test]
fn silent_noise_leaves_the_source_luminance() {
    for v in 0..=255u8 {
        assert_eq!(image_level(v, 0, 200_000), v);
        assert_eq!(image_level(v, 123_456, 0), v);
    }
}

#[test]
fn the_image_level_is_clamped_for_any_noise() {
    assert_eq!(image_level(250, i64::MAX, i64::MAX), 255);
    assert_eq!(image_level(5, i64::MIN, i64::MAX), 0);
    assert_eq!(image_level(0, i64::MIN, i64::MIN), 255);
    assert_eq!(image_level(255, 5_000_001, -200_000), 0);
}

#[test]
fn a_procedural_field_needs_one_noise_value_per_cell() {
    let params = FieldParams::procedural();
    assert!(generate_procedural(&params, PROCEDURAL_CONTRAST, 4, 3, &vec![0; 11]).is_none());
    assert!(generate_procedural(&params, PROCEDURAL_CONTRAST, 4, 3, &vec![0; 13]).is_none());
    let grid = generate_procedural(&params, PROCEDURAL_CONTRAST, 4, 3, &vec![0; 12]).unwrap();
    assert_eq!((grid.width(), grid.height()), (4, 3));
    assert_eq!(grid.cells(), &vec![128u8; 12]);
}

#[test]
fn a_procedural_field_maps_each_noise_value() {
    let params = FieldParams::procedural();
    let noise = vec![0, 1_000_000, -1_000_000, 50_000, -50_000, 125_000];
    let grid = generate_procedural(&params, PROCEDURAL_CONTRAST, 3, 2, &noise).unwrap();
    assert_eq!(grid.cells(), &vec![128, 255, 0, 138, 117, 153]);
}

#[test]
fn an_image_driven_field_lays_noise_over_the_source() {
    let params = FieldParams::image_driven();
    let source = LuminanceGrid::new(3, 2, vec![100, 100, 200, 255, 7, 7]).unwrap();
    let noise = vec![500_000, -500_000, -1_000_000, 1_000_000, 9_803, 9_804];
    let grid = generate_image_driven(&params, &source, &noise).unwrap();
    assert_eq!((grid.width(), grid.height()), (3, 2));
    assert_eq!(grid.cells(), &vec![126, 75, 149, 255, 7, 8]);
    assert!(generate_image_driven(&params, &source, &vec![0; 5]).is_none());
    assert!(generate_image_driven(&params, &source, &vec![0; 7]).is_none());
}
