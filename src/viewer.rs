use vstd::prelude::*;
use crate::compositor::{composite, frame_spec};
use crate::input::HeldKeys;
use crate::offset::{Location, has_room, sum_dx, sum_dy};
use crate::pixels::{PixelBuffer, blank_grid, buffer_dims, buffer_pixels, is_raw_layout};
use crate::world::World;

verus! {

/// State the viewer keeps between frames.
pub struct App {
    /// The world model; nothing draws it yet.
    pub world: World,
    /// How far the view has been scrolled.
    pub viewport_offsets: Location,
    /// Keys held down right now.
    pub pressed_buttons: HeldKeys,
    /// The most recently composed frame.
    pub image_buffer: PixelBuffer,
}

impl App {
    /// A viewer of `world` with no scroll, no keys held and a blank
    /// `width` by `height` frame.
    pub fn new(world: World, width: u32, height: u32) -> (r: App)
        requires
            4 * width * height <= usize::MAX,
        ensures
            r.world == world,
            r.viewport_offsets@ == (0int, 0int),
            r.pressed_buttons@ == Seq::<crate::offset::Key>::empty(),
            buffer_dims(r.image_buffer) == (width, height),
            buffer_pixels(r.image_buffer) == blank_grid(width, height),
    {
        App {
            world,
            viewport_offsets: Location { x: 0, y: 0 },
            pressed_buttons: HeldKeys::new(),
            image_buffer: PixelBuffer::new(width, height),
        }
    }

    /// Moves the view one step for every key held, so that keys held
    /// together add up.
    pub fn tick(&mut self)
        requires
            has_room(old(self).viewport_offsets@, old(self).pressed_buttons@.len() as int),
        ensures
            final(self).viewport_offsets@ == (
                old(self).viewport_offsets@.0 + sum_dx(old(self).pressed_buttons@),
                old(self).viewport_offsets@.1 + sum_dy(old(self).pressed_buttons@),
            ),
            final(self).pressed_buttons == old(self).pressed_buttons,
            final(self).world == old(self).world,
            final(self).image_buffer == old(self).image_buffer,
    {
        self.viewport_offsets.apply_keys(self.pressed_buttons.keys());
    }

    /// Replaces the frame with a fresh `width` by `height` composition of the
    /// per-column noise values `noise`.
    pub fn render(&mut self, width: u32, height: u32, noise: &Vec<i64>)
        requires
            noise@.len() == width,
            4 * width * height <= usize::MAX,
        ensures
            buffer_dims(final(self).image_buffer) == (width, height),
            buffer_pixels(final(self).image_buffer) == frame_spec(noise@, width, height),
            final(self).viewport_offsets == old(self).viewport_offsets,
            final(self).pressed_buttons == old(self).pressed_buttons,
            final(self).world == old(self).world,
    {
        self.image_buffer = composite(width, height, noise);
    }

    /// The current frame's bytes, row by row, four per pixel, ready to upload.
    pub fn frame_bytes(&self) -> (r: Vec<u8>)
        ensures
            is_raw_layout(
                r@,
                buffer_pixels(self.image_buffer),
                buffer_dims(self.image_buffer).0,
                buffer_dims(self.image_buffer).1,
            ),
    {
        self.image_buffer.to_raw()
    }
}

} // verus!
