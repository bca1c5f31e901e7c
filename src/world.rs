use vstd::prelude::*;
use crate::offset::Location;
use crate::pixels::Rgba;

verus! {

/// Relies on `rand::random`: a value drawn from the thread-local generator.
/// Nothing is promised of the value.
pub assume_specification<T>[ rand::random::<T> ]() -> (r: T)
    where
        rand::distributions::Standard: rand::distributions::Distribution<T>,
;

/// One colored square of the world grid.
#[derive(Clone, Copy, Debug)]
pub struct Block {
    pub location: Location,
    pub color: Rgba,
}

/// A group of blocks.
pub struct Chunk {
    pub blocks: Vec<Block>,
}

/// Everything placed in the world.
pub struct World {
    pub chunks: Vec<Chunk>,
}

/// Lowest grid coordinate of the example world, on both axes.
pub const EXAMPLE_MIN: i64 = -10;

/// Number of blocks along each side of the example world.
pub const EXAMPLE_SIDE: i64 = 20;

/// Where the `i`-th block of the example world sits: blocks run through
/// `EXAMPLE_MIN .. EXAMPLE_MIN + EXAMPLE_SIDE` in `y` for each `x` in turn.
pub open spec fn example_location(i: int) -> (int, int) {
    (EXAMPLE_MIN + i / EXAMPLE_SIDE as int, EXAMPLE_MIN + i % EXAMPLE_SIDE as int)
}

/// A world of one chunk holding a 20 by 20 square of blocks centered on the
/// origin, each with random red, green and blue channels and full opacity.
pub fn create_example_world() -> (r: World)
    ensures
        r.chunks@.len() == 1,
        r.chunks@[0].blocks@.len() == EXAMPLE_SIDE * EXAMPLE_SIDE,
        forall|i: int|
            0 <= i < EXAMPLE_SIDE * EXAMPLE_SIDE ==> {
                let b = #[trigger] r.chunks@[0].blocks@[i];
                b.location@ == example_location(i) && b.color[3] == 255u8
            },
{
    let mut chunk = Chunk { blocks: Vec::new() };
    let mut x: i64 = EXAMPLE_MIN;
    while x < EXAMPLE_MIN + EXAMPLE_SIDE
        invariant
            EXAMPLE_MIN <= x <= EXAMPLE_MIN + EXAMPLE_SIDE,
            chunk.blocks@.len() == (x - EXAMPLE_MIN) * EXAMPLE_SIDE,
            forall|i: int|
                0 <= i < chunk.blocks@.len() ==> {
                    let b = #[trigger] chunk.blocks@[i];
                    b.location@ == example_location(i) && b.color[3] == 255u8
                },
        decreases EXAMPLE_MIN + EXAMPLE_SIDE - x,
    {
        let mut y: i64 = EXAMPLE_MIN;
        while y < EXAMPLE_MIN + EXAMPLE_SIDE
            invariant
                EXAMPLE_MIN <= x < EXAMPLE_MIN + EXAMPLE_SIDE,
                EXAMPLE_MIN <= y <= EXAMPLE_MIN + EXAMPLE_SIDE,
                chunk.blocks@.len() == (x - EXAMPLE_MIN) * EXAMPLE_SIDE + (y - EXAMPLE_MIN),
                forall|i: int|
                    0 <= i < chunk.blocks@.len() ==> {
                        let b = #[trigger] chunk.blocks@[i];
                        b.location@ == example_location(i) && b.color[3] == 255u8
                    },
            decreases EXAMPLE_MIN + EXAMPLE_SIDE - y,
        {
            let red: u8 = rand::random::<u8>();
            let green: u8 = rand::random::<u8>();
            let blue: u8 = rand::random::<u8>();
            let ghost i = chunk.blocks@.len() as int;
            assert(example_location(i) == (x as int, y as int)) by (nonlinear_arith)
                requires
                    i == (x - (-10)) * 20 + (y - (-10)),
                    -10 <= x < 10,
                    -10 <= y < 10,
                    example_location(i) == (-10 + i / 20, -10 + i % 20),
            ;
            chunk.blocks.push(Block { location: Location { x, y }, color: [red, green, blue, 255] });
            y = y + 1;
        }
        x = x + 1;
    }
    let mut chunks: Vec<Chunk> = Vec::new();
    chunks.push(chunk);
    World { chunks }
}

} // verus!
