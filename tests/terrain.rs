use noise::{NoiseFn, Perlin};
use noise_terrain::compositor::{composite, noise_points, NoisePoint};
use noise_terrain::offset::Location;
use noise_terrain::sampler::{sample, Sample, NOISE_ONE};

fn noise_at(perlin: &Perlin, p: NoisePoint) -> i64 {
    let v = perlin.get([p.x as f64 / 1024.0, p.y as f64 / 1024.0]);
    (v * NOISE_ONE as f64).floor() as i64
}

fn pixel(bytes: &[u8], width: u32, x: u32, y: u32) -> [u8; 4] {
    let i = ((y * width + x) * 4) as usize;
    [bytes[i], bytes[i + 1], bytes[i + 2], bytes[i + 3]]
}

#[test]
fn sample_at_zero_noise_is_mid_height() {
    assert_eq!(sample(0, 300), Sample { row: 150, color: 127 });
}

#[test]
fn sample_exact_values() {
    assert_eq!(sample(32768, 300), Sample { row: 225, color: 191 });
    assert_eq!(sample(-32768, 300), Sample { row: 75, color: 63 });
    assert_eq!(sample(-65535, 300), Sample { row: 0, color: 0 });
}

#[test]
fn sample_clamps_top_to_last_row() {
    assert_eq!(sample(NOISE_ONE, 300), Sample { row: 299, color: 254 });
    assert_eq!(sample(i64::MAX, 300), Sample { row: 299, color: 254 });
    assert_eq!(sample(NOISE_ONE, 1), Sample { row: 0, color: 0 });
}

#[test]
fn sample_clamps_bottom_to_row_zero() {
    assert_eq!(sample(-NOISE_ONE, 300), Sample { row: 0, color: 0 });
    assert_eq!(sample(i64::MIN, 300), Sample { row: 0, color: 0 });
}

#[test]
fn sample_stays_inside_viewport() {
    for h in [1u32, 2, 3, 7, 300, 1080, u32::MAX] {
        let mut n = -2 * NOISE_ONE;
        while n <= 2 * NOISE_ONE {
            let s = sample(n, h);
            assert!(s.row < h);
            n += 997;
        }
    }
}

#[test]
fn sample_is_deterministic() {
    for n in [-70000i64, -1, 0, 1, 12345, 65535, 70000] {
        assert_eq!(sample(n, 300), sample(n, 300));
    }
}

#[test]
fn noise_points_scroll_only_first_coordinate() {
    let pts = noise_points(3, Location { x: 40, y: -60 });
    assert_eq!(
        pts,
        vec![
            NoisePoint { x: 40, y: 10 },
            NoisePoint { x: 41, y: 11 },
            NoisePoint { x: 42, y: 12 },
        ]
    );
    assert!(noise_points(0, Location { x: 0, y: 0 }).is_empty());
}

#[test]
fn composite_fills_columns_up_to_surface() {
    let b = composite(2, 4, &vec![0, NOISE_ONE]).to_raw();
    assert_eq!(b.len(), 2 * 4 * 4);
    for y in 0..3 {
        assert_eq!(pixel(&b, 2, 0, y), [127, 127, 127, 255]);
    }
    assert_eq!(pixel(&b, 2, 0, 3), [0, 0, 0, 0]);
    for y in 0..4 {
        assert_eq!(pixel(&b, 2, 1, y), [191, 191, 191, 255]);
    }
}

#[test]
fn composite_lowest_column_writes_only_row_zero() {
    let b = composite(1, 3, &vec![-NOISE_ONE]).to_raw();
    assert_eq!(pixel(&b, 1, 0, 0), [0, 0, 0, 255]);
    assert_eq!(pixel(&b, 1, 0, 1), [0, 0, 0, 0]);
    assert_eq!(pixel(&b, 1, 0, 2), [0, 0, 0, 0]);
}

#[test]
fn composite_of_empty_viewport() {
    assert!(composite(0, 5, &vec![]).to_raw().is_empty());
    assert!(composite(3, 0, &vec![0, 0, 0]).to_raw().is_empty());
}

#[test]
fn composite_twice_gives_identical_bytes() {
    let noise: Vec<i64> = (0..50).map(|i| (i * 2711 % 131072) - 65536).collect();
    let a = composite(50, 40, &noise).to_raw();
    let b = composite(50, 40, &noise).to_raw();
    assert_eq!(a, b);
}

#[test]
fn coverage_below_and_above_surface() {
    let noise: Vec<i64> = (0..30).map(|i| i * 4000 - 60000).collect();
    let (w, h) = (30u32, 20u32);
    let b = composite(w, h, &noise).to_raw();
    for x in 0..w {
        let s = sample(noise[x as usize], h);
        let c = s.color;
        for y in 0..h {
            let expected = if y <= s.row { [c, c, c, 255] } else { [0, 0, 0, 0] };
            assert_eq!(pixel(&b, w, x, y), expected);
        }
    }
}

#[test]
fn scenario_first_column_of_default_window() {
    let perlin = Perlin::new();
    let (w, h) = (450u32, 300u32);
    let offset = Location { x: 0, y: 0 };
    let noise: Vec<i64> = noise_points(w, offset).into_iter().map(|p| noise_at(&perlin, p)).collect();
    let s = sample(noise[0], h);
    assert!(s.row <= 299);
    let b = composite(w, h, &noise).to_raw();
    let surface = pixel(&b, w, 0, s.row);
    assert_eq!(surface[3], 255);
    for y in 0..s.row {
        assert_eq!(pixel(&b, w, 0, y), surface);
    }
}

#[test]
fn perlin_frames_repeat() {
    let perlin = Perlin::new();
    let offset = Location { x: -140, y: 0 };
    let first: Vec<i64> = noise_points(64, offset).into_iter().map(|p| noise_at(&perlin, p)).collect();
    let second: Vec<i64> = noise_points(64, offset).into_iter().map(|p| noise_at(&perlin, p)).collect();
    assert_eq!(first, second);
    assert_eq!(composite(64, 48, &first).to_raw(), composite(64, 48, &second).to_raw());
}
