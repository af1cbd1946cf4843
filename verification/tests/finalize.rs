use pathtracer::finalize::{finalize_image, flatten_rgb, normalize_accumulator, pixel_index};
use pathtracer::records::Vec4Bits;

fn from_floats(x: f32, y: f32, z: f32, w: f32) -> Vec4Bits {
    Vec4Bits { x: x.to_bits(), y: y.to_bits(), z: z.to_bits(), w: w.to_bits() }
}

#[test]
fn normalization_divides_each_lane_by_the_sample_count() {
    let acc = vec![from_floats(2.0, 4.0, 6.0, 8.0), from_floats(1.0, 0.0, -3.0, 2.0)];
    let out = normalize_accumulator(&acc, 2);
    assert_eq!(out.len(), 2);
    assert_eq!(out[0], from_floats(1.0, 2.0, 3.0, 4.0));
    assert_eq!(out[1], from_floats(0.5, 0.0, -1.5, 1.0));
}

#[test]
fn normalization_by_one_sample_changes_nothing() {
    let acc = vec![from_floats(0.5, -0.25, 123.0, 0.0)];
    let out = normalize_accumulator(&acc, 1);
    assert_eq!(out[0], acc[0]);
}

#[test]
fn normalization_keeps_zero_radiance_zero() {
    let acc = vec![from_floats(0.0, 0.0, 0.0, 0.0); 3];
    let out = normalize_accumulator(&acc, 128);
    for pixel in out {
        assert_eq!(pixel, from_floats(0.0, 0.0, 0.0, 0.0));
    }
}

#[test]
fn normalization_propagates_nan_lanes() {
    let acc = vec![Vec4Bits {
        x: f32::NAN.to_bits(),
        y: 2.0f32.to_bits(),
        z: 0.0f32.to_bits(),
        w: 4.0f32.to_bits(),
    }];
    let out = normalize_accumulator(&acc, 2);
    assert!(f32::from_bits(out[0].x).is_nan());
    assert_eq!(out[0].y, 1.0f32.to_bits());
    assert_eq!(out[0].z, 0.0f32.to_bits());
    assert_eq!(out[0].w, 2.0f32.to_bits());
}

#[test]
fn flattening_keeps_three_lanes_per_pixel_in_order() {
    let pixels = vec![
        Vec4Bits { x: 1, y: 2, z: 3, w: 4 },
        Vec4Bits { x: 5, y: 6, z: 7, w: 8 },
    ];
    assert_eq!(flatten_rgb(&pixels), vec![1, 2, 3, 5, 6, 7]);
}

#[test]
fn finalized_image_is_normalized_rgb() {
    let acc = vec![from_floats(2.0, 4.0, 8.0, 16.0), from_floats(0.0, 2.0, 4.0, 6.0)];
    let out = finalize_image(&acc, 2);
    assert_eq!(out.len(), 6);
    let expect: Vec<u32> = [1.0f32, 2.0, 4.0, 0.0, 1.0, 2.0]
        .iter()
        .map(|v| v.to_bits())
        .collect();
    assert_eq!(out, expect);
}

#[test]
fn pixel_addressing_is_row_major() {
    assert_eq!(pixel_index(3, 2, 10), 23);
    assert_eq!(pixel_index(0, 0, 1280), 0);
    assert_eq!(pixel_index(1279, 719, 1280), 1280 * 720 - 1);
}
