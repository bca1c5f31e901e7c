use noise::{NoiseFn, Perlin};
use noise_terrain::compositor::noise_points;
use noise_terrain::input::HeldKeys;
use noise_terrain::offset::{intent_of, Intent, Key, Location, MOVESPEED};
use noise_terrain::viewer::App;
use noise_terrain::world::create_example_world;

fn frame(app: &mut App, perlin: &Perlin, w: u32, h: u32) -> Vec<u8> {
    let noise: Vec<i64> = noise_points(w, app.viewport_offsets)
        .into_iter()
        .map(|p| (perlin.get([p.x as f64 / 1024.0, p.y as f64 / 1024.0]) * 65536.0).floor() as i64)
        .collect();
    app.render(w, h, &noise);
    app.frame_bytes()
}

#[test]
fn keys_map_to_intents() {
    assert_eq!(intent_of(Key::W), Some(Intent::Up));
    assert_eq!(intent_of(Key::Up), Some(Intent::Up));
    assert_eq!(intent_of(Key::A), Some(Intent::Left));
    assert_eq!(intent_of(Key::Left), Some(Intent::Left));
    assert_eq!(intent_of(Key::S), Some(Intent::Down));
    assert_eq!(intent_of(Key::Down), Some(Intent::Down));
    assert_eq!(intent_of(Key::D), Some(Intent::Right));
    assert_eq!(intent_of(Key::Right), Some(Intent::Right));
    assert_eq!(intent_of(Key::Other(27)), None);
}

#[test]
fn pan_moves_one_step() {
    let mut o = Location { x: 0, y: 0 };
    o.pan(Intent::Up);
    assert_eq!(o, Location { x: 0, y: 20 });
    o.pan(Intent::Left);
    assert_eq!(o, Location { x: 20, y: 20 });
    o.pan(Intent::Down);
    o.pan(Intent::Right);
    assert_eq!(o, Location { x: 0, y: 0 });
}

#[test]
fn press_ignores_repeats_and_release_removes() {
    let mut held = HeldKeys::new();
    held.press(Key::A);
    held.press(Key::W);
    held.press(Key::A);
    assert_eq!(held.keys(), &vec![Key::A, Key::W]);
    held.release(Key::A);
    assert_eq!(held.keys(), &vec![Key::W]);
    held.release(Key::D);
    assert_eq!(held.keys(), &vec![Key::W]);
}

#[test]
fn held_keys_add_up_in_one_tick() {
    let mut o = Location { x: 5, y: 7 };
    o.apply_keys(&vec![Key::A, Key::Left, Key::W, Key::Other(1)]);
    assert_eq!(o, Location { x: 45, y: 27 });
    o.apply_keys(&vec![Key::Left, Key::Right, Key::S]);
    assert_eq!(o, Location { x: 45, y: 7 });
}

#[test]
fn pan_right_for_n_ticks_shifts_queries() {
    let mut app = App::new(create_example_world(), 8, 4);
    app.pressed_buttons.press(Key::D);
    let n: i64 = 7;
    for _ in 0..n {
        app.tick();
    }
    assert_eq!(app.viewport_offsets, Location { x: -n * MOVESPEED, y: 0 });
    let moved = noise_points(8, app.viewport_offsets);
    let start = noise_points(8, Location { x: 0, y: 0 });
    for c in 0..8 {
        assert_eq!(moved[c].x, start[c].x - n * MOVESPEED);
        assert_eq!(moved[c].y, start[c].y);
    }
}

#[test]
fn left_then_right_restores_view_and_frame() {
    let perlin = Perlin::new();
    let (w, h) = (450u32, 300u32);
    let mut app = App::new(create_example_world(), w, h);
    let before = frame(&mut app, &perlin, w, h);
    app.pressed_buttons.press(Key::Left);
    for _ in 0..5 {
        app.tick();
    }
    assert_eq!(app.viewport_offsets, Location { x: 100, y: 0 });
    let panned = frame(&mut app, &perlin, w, h);
    app.pressed_buttons.release(Key::Left);
    app.pressed_buttons.press(Key::Right);
    for _ in 0..5 {
        app.tick();
    }
    app.pressed_buttons.release(Key::Right);
    assert_eq!(app.viewport_offsets, Location { x: 0, y: 0 });
    let after = frame(&mut app, &perlin, w, h);
    assert_eq!(before, after);
    assert_eq!(panned.len(), before.len());
}

#[test]
fn new_app_starts_blank() {
    let app = App::new(create_example_world(), 3, 2);
    assert_eq!(app.viewport_offsets, Location { x: 0, y: 0 });
    assert!(app.pressed_buttons.keys().is_empty());
    assert_eq!(app.frame_bytes(), vec![0u8; 24]);
}

#[test]
fn example_world_is_a_square_grid() {
    let world = create_example_world();
    assert_eq!(world.chunks.len(), 1);
    let blocks = &world.chunks[0].blocks;
    assert_eq!(blocks.len(), 400);
    assert_eq!(blocks[0].location, Location { x: -10, y: -10 });
    assert_eq!(blocks[1].location, Location { x: -10, y: -9 });
    assert_eq!(blocks[20].location, Location { x: -9, y: -10 });
    assert_eq!(blocks[399].location, Location { x: 9, y: 9 });
    assert!(blocks.iter().all(|b| b.color[3] == 255));
}
