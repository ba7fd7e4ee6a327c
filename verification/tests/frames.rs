use moving_ascii_art::field::{base_points, FieldParams};
use moving_ascii_art::frame::{
    dither_image, dither_without_image, plan_frame, render_field, text_of, BaseVariant,
    FrameRenderer, NoiseSamples, PROCEDURAL_HEIGHT, PROCEDURAL_WIDTH,
};
use moving_ascii_art::grid::LuminanceGrid;
use moving_ascii_art::ramp::GlyphRamp;
use moving_ascii_art::warp::{flow_plans, FlowParams};

fn still(cells: usize) -> NoiseSamples {
    NoiseSamples { base: vec![0; cells], flow_x: vec![0; cells], flow_y: vec![0; cells] }
}

#[test]
fn a_white_grid_without_warp_is_all_hashes() {
    let base = LuminanceGrid::filled(4, 3, 255).unwrap();
    let ramp = GlyphRamp::new(".:-=+*%#".chars().collect()).unwrap();
    let noise: Vec<i64> = (0..12i64).map(|i| i * 170_000 - 900_000).collect();
    let text = render_field(&base, 0, &noise, &noise, &ramp).unwrap();
    assert_eq!(text, "####\n####\n####\n");
}

#[test]
fn a_black_grid_without_warp_is_all_dots() {
    let base = LuminanceGrid::filled(4, 3, 0).unwrap();
    let ramp = GlyphRamp::new(".:-=+*%#".chars().collect()).unwrap();
    let noise: Vec<i64> = (0..12i64).map(|i| 900_000 - i * 170_000).collect();
    let text = render_field(&base, 0, &noise, &noise, &ramp).unwrap();
    assert_eq!(text, "....\n....\n....\n");
}

#[test]
fn silent_noise_under_a_warp_leaves_the_plain_text() {
    let cells: Vec<u8> = (0..12u32).map(|i| (i * 23) as u8).collect();
    let base = LuminanceGrid::new(4, 3, cells).unwrap();
    let ramp = GlyphRamp::standard();
    let plain = text_of(&base, &ramp);
    let warped = render_field(&base, 5_000_000, &vec![0; 12], &vec![0; 12], &ramp).unwrap();
    assert_eq!(warped, plain);
    assert_eq!(plain, "..::\n-==+\n**%%\n");
}

#[test]
fn a_warp_moves_the_glyphs() {
    let base = LuminanceGrid::new(3, 2, vec![0, 128, 255, 255, 128, 0]).unwrap();
    let ramp = GlyphRamp::standard();
    assert_eq!(text_of(&base, &ramp), ".=#\n#=.\n");
    let right = render_field(&base, 1_000_000, &vec![1_000_000; 6], &vec![0; 6], &ramp).unwrap();
    assert_eq!(right, "=##\n=..\n");
    let up = render_field(&base, 1_000_000, &vec![0; 6], &vec![-1_000_000; 6], &ramp).unwrap();
    assert_eq!(up, ".=#\n.=#\n");
}

#[test]
fn a_frame_is_whole_lines_of_one_length() {
    let cells: Vec<u8> = (0..35u32).map(|i| (i * 7) as u8).collect();
    let base = LuminanceGrid::new(7, 5, cells).unwrap();
    let noise: Vec<i64> = (0..35i64).map(|i| (i * 377_777) % 2_000_000 - 1_000_000).collect();
    let ramp = GlyphRamp::standard();
    let text = render_field(&base, 5_000_000, &noise, &noise, &ramp).unwrap();
    assert_eq!(text.len(), 8 * 5);
    assert!(text.ends_with('\n'));
    let lines: Vec<&str> = text.lines().collect();
    assert_eq!(lines.len(), 5);
    for line in lines {
        assert_eq!(line.chars().count(), 7);
        assert!(line.chars().all(|c| ".:-=+*%#".contains(c)));
    }
}

#[test]
fn an_empty_grid_has_an_empty_or_blank_text() {
    let ramp = GlyphRamp::standard();
    let no_rows = LuminanceGrid::new(4, 0, Vec::new()).unwrap();
    assert_eq!(text_of(&no_rows, &ramp), "");
    let no_columns = LuminanceGrid::new(0, 3, Vec::new()).unwrap();
    assert_eq!(text_of(&no_columns, &ramp), "\n\n\n");
}

#[test]
fn a_text_uses_the_glyphs_of_its_ramp() {
    let base = LuminanceGrid::new(2, 2, vec![0, 254, 255, 100]).unwrap();
    let ramp = GlyphRamp::new(vec!['o', 'X']).unwrap();
    assert_eq!(text_of(&base, &ramp), "oo\nXo\n");
}

#[test]
fn a_frame_needs_one_flow_value_per_cell() {
    let base = LuminanceGrid::filled(4, 3, 9).unwrap();
    let ramp = GlyphRamp::standard();
    assert!(render_field(&base, 1, &vec![0; 11], &vec![0; 12], &ramp).is_none());
    assert!(render_field(&base, 1, &vec![0; 12], &vec![0; 13], &ramp).is_none());
    assert!(render_field(&base, 1, &vec![0; 12], &vec![0; 12], &ramp).is_some());
}

#[test]
fn the_plan_of_a_frame_holds_three_points_per_cell() {
    let field = FieldParams::image_driven();
    let flow = FlowParams::image_driven();
    let plan = plan_frame(&field, &flow, 5, 4, 1_234_567);
    assert_eq!(plan.base, base_points(&field, 5, 4, 1_234_567));
    let (first, second) = flow_plans(&flow, 5, 4, 1_234_567);
    assert_eq!(plan.flow_x, first);
    assert_eq!(plan.flow_y, second);
    assert_eq!(plan.base.len(), 20);
    assert_eq!(plan.flow_x.len(), 20);
    assert_eq!(plan.flow_y.len(), 20);
}

#[test]
fn the_synthetic_frame_under_silent_noise_is_mid_gray() {
    let text = dither_without_image(&still(128 * 96)).unwrap();
    let line = "=".repeat(128) + "\n";
    assert_eq!(text, line.repeat(96));
}

#[test]
fn the_synthetic_frame_follows_its_noise() {
    let mut samples = still(128 * 96);
    samples.base[0] = 1_000_000;
    samples.base[1] = -1_000_000;
    samples.base[128] = 50_000;
    let text = dither_without_image(&samples).unwrap();
    let lines: Vec<&str> = text.lines().collect();
    assert_eq!(lines.len(), 96);
    assert!(lines[0].starts_with("#.=="));
    assert!(lines[1].starts_with("==="));
    assert_eq!(lines[2], "=".repeat(128));
    samples.flow_x[2] = -200_000;
    samples.flow_y[3] = 100_000;
    let moved = dither_without_image(&samples).unwrap();
    assert!(moved.starts_with("#..="));
}

#[test]
fn the_synthetic_frame_needs_one_value_per_cell() {
    assert!(dither_without_image(&still(128 * 96 - 1)).is_none());
    assert!(dither_without_image(&still(0)).is_none());
    let mut uneven = still(128 * 96);
    uneven.flow_y.push(0);
    assert!(dither_without_image(&uneven).is_none());
    let mut short = still(128 * 96);
    short.flow_x.pop();
    assert!(dither_without_image(&short).is_none());
}

#[test]
fn the_frame_over_an_image_under_silent_noise_is_the_image() {
    let gray = LuminanceGrid::new(4, 3, vec![0, 40, 80, 120, 160, 200, 240, 255, 255, 0, 128, 64])
        .unwrap();
    let text = dither_image(&gray, &still(12)).unwrap();
    assert_eq!(text, ".:-=\n+*%#\n#.=:\n");
    assert_eq!(text, text_of(&gray, &GlyphRamp::standard()));
}

#[test]
fn the_frame_over_an_image_follows_its_noise() {
    let gray = LuminanceGrid::new(3, 1, vec![100, 100, 200]).unwrap();
    let samples = NoiseSamples {
        base: vec![500_000, -500_000, -1_000_000],
        flow_x: vec![0, 500_000, 0],
        flow_y: vec![0, 0, 700_000],
    };
    let text = dither_image(&gray, &samples).unwrap();
    assert_eq!(text, "=++\n");
    assert!(dither_image(&gray, &still(2)).is_none());
    assert!(dither_image(&gray, &still(4)).is_none());
}

#[test]
fn a_renderer_renders_what_the_two_variants_render() {
    let samples = NoiseSamples {
        base: (0..128 * 96).map(|i| ((i * 7919) % 2_000_001) as i64 - 1_000_000).collect(),
        flow_x: (0..128 * 96).map(|i| ((i * 104_729) % 2_000_001) as i64 - 1_000_000).collect(),
        flow_y: (0..128 * 96).map(|i| ((i * 1_299_709) % 2_000_001) as i64 - 1_000_000).collect(),
    };
    let renderer = FrameRenderer::procedural();
    assert_eq!((renderer.width(), renderer.height()), (PROCEDURAL_WIDTH, PROCEDURAL_HEIGHT));
    assert_eq!(renderer.render(&samples), dither_without_image(&samples));
    assert!(renderer.render(&still(5)).is_none());

    let cells: Vec<u8> = (0..30u32).map(|i| (i * 8) as u8).collect();
    let gray = LuminanceGrid::new(6, 5, cells.clone()).unwrap();
    let small = NoiseSamples {
        base: samples.base[..30].to_vec(),
        flow_x: samples.flow_x[..30].to_vec(),
        flow_y: samples.flow_y[..30].to_vec(),
    };
    let expected = dither_image(&gray, &small);
    let over = FrameRenderer::image_driven(LuminanceGrid::new(6, 5, cells).unwrap());
    assert_eq!((over.width(), over.height()), (6, 5));
    assert_eq!(over.render(&small), expected);
    assert!(expected.is_some());
}

#[test]
fn a_renderer_plans_and_generates_for_its_own_grid() {
    let renderer = FrameRenderer {
        variant: BaseVariant::Procedural { width: 3, height: 2, contrast: 1_000_000 },
        field: FieldParams { scale: 1_000_000, speed: 1_000_000, phase_span: 0, amplitude: 500_000 },
        flow: FlowParams { freq: 0, speed: 0, amplitude: 0, drift_x: 0, drift_y: 0 },
        ramp: GlyphRamp::new(vec!['0', '1', '2']).unwrap(),
    };
    let plan = renderer.plan(4_000_000);
    assert_eq!(plan.base.len(), 6);
    assert_eq!((plan.base[5].x, plan.base[5].y, plan.base[5].z), (2_000_000, 1_000_000, 4_000_000));
    assert_eq!((plan.flow_y[0].x, plan.flow_y[0].y, plan.flow_y[0].z), (19_700_000, -31_300_000, 0));
    let noise = vec![-1_000_000, -500_000, 0, 500_000, 999_999, 1_000_000];
    let base = renderer.generate(&noise).unwrap();
    assert_eq!(base.cells(), &vec![0, 64, 128, 191, 255, 255]);
    assert!(renderer.generate(&vec![0; 7]).is_none());
    let samples = NoiseSamples { base: noise, flow_x: vec![9; 6], flow_y: vec![-9; 6] };
    assert_eq!(renderer.render(&samples).unwrap(), "001\n122\n");
}
