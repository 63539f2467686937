use vstd::prelude::*;

verus! {

/// The height of the grass floor players spawn on.
pub const SPAWN_Y: i32 = 0;

/// Chunks loaded on each side of the origin, along x and along z.
pub const CHUNK_RADIUS: i32 = 5;

/// Blocks of grass on each side of the origin: the loaded chunks, 16 blocks each.
pub const BLOCK_RADIUS: i32 = 80;

/// The world the server shows: the chunks to load, as `(x, z)` chunk
/// positions, and the grass blocks to place, as `(x, y, z)` block positions.
pub struct WorldLayout {
    pub chunks: Vec<(i32, i32)>,
    pub grass: Vec<(i32, i32, i32)>,
}

/// The `i`-th chunk: z runs in the outer loop, x in the inner one, both over
/// `-5..5`.
pub open spec fn chunk_at(i: int) -> (i32, i32) {
    ((i % 10 - 5) as i32, (i / 10 - 5) as i32)
}

/// The `i`-th grass block: x runs in the outer loop, z in the inner one, both
/// over `-80..80`, at height `SPAWN_Y`.
pub open spec fn grass_at(i: int) -> (i32, i32, i32) {
    ((i / 160 - 80) as i32, SPAWN_Y, (i % 160 - 80) as i32)
}

proof fn lemma_cell(row: int, col: int, n: int)
    requires
        0 < n,
        0 <= col < n,
    ensures
        (row * n + col) / n == row,
        (row * n + col) % n == col,
{
    vstd::arithmetic::div_mod::lemma_fundamental_div_mod_converse_div(row * n + col, n, row, col);
    vstd::arithmetic::div_mod::lemma_fundamental_div_mod_converse_mod(row * n + col, n, row, col);
}

fn chunk_grid() -> (chunks: Vec<(i32, i32)>)
    ensures
        chunks@.len() == 100,
        forall|i: int| 0 <= i < 100 ==> #[trigger] chunks@[i] == chunk_at(i),
{
    let mut chunks: Vec<(i32, i32)> = Vec::new();
    let mut z: i32 = -CHUNK_RADIUS;
    while z < CHUNK_RADIUS
        invariant
            -5 <= z <= 5,
            chunks@.len() == (z + 5) * 10,
            forall|i: int| 0 <= i < chunks@.len() ==> #[trigger] chunks@[i] == chunk_at(i),
        decreases 5 - z,
    {
        let mut x: i32 = -CHUNK_RADIUS;
        while x < CHUNK_RADIUS
            invariant
                -5 <= z < 5,
                -5 <= x <= 5,
                chunks@.len() == (z + 5) * 10 + (x + 5),
                forall|i: int| 0 <= i < chunks@.len() ==> #[trigger] chunks@[i] == chunk_at(i),
            decreases 5 - x,
        {
            proof {
                lemma_cell((z + 5) as int, (x + 5) as int, 10);
            }
            chunks.push((x, z));
            x += 1;
        }
        z += 1;
    }
    chunks
}

fn grass_grid() -> (grass: Vec<(i32, i32, i32)>)
    ensures
        grass@.len() == 25600,
        forall|i: int| 0 <= i < 25600 ==> #[trigger] grass@[i] == grass_at(i),
{
    let mut grass: Vec<(i32, i32, i32)> = Vec::new();
    let mut x: i32 = -BLOCK_RADIUS;
    while x < BLOCK_RADIUS
        invariant
            -80 <= x <= 80,
            grass@.len() == (x + 80) * 160,
            forall|i: int| 0 <= i < grass@.len() ==> #[trigger] grass@[i] == grass_at(i),
        decreases 80 - x,
    {
        let mut z: i32 = -BLOCK_RADIUS;
        while z < BLOCK_RADIUS
            invariant
                -80 <= x < 80,
                -80 <= z <= 80,
                grass@.len() == (x + 80) * 160 + (z + 80),
                forall|i: int| 0 <= i < grass@.len() ==> #[trigger] grass@[i] == grass_at(i),
            decreases 80 - z,
        {
            proof {
                lemma_cell((x + 80) as int, (z + 80) as int, 160);
            }
            grass.push((x, SPAWN_Y, z));
            z += 1;
        }
        x += 1;
    }
    grass
}

/// The world to build at start-up: a 10 by 10 square of chunks around the
/// origin, floored with grass at height `SPAWN_Y` over all of it.
pub fn setup() -> (layout: WorldLayout)
    ensures
        layout.chunks@.len() == 100,
        forall|i: int| 0 <= i < 100 ==> #[trigger] layout.chunks@[i] == chunk_at(i),
        layout.grass@.len() == 25600,
        forall|i: int| 0 <= i < 25600 ==> #[trigger] layout.grass@[i] == grass_at(i),
{
    WorldLayout { chunks: chunk_grid(), grass: grass_grid() }
}

/// Every chunk of the square `-5 <= x, z < 5` is loaded, at its place in the
/// order, and nothing else is.
pub proof fn law_chunks_cover_square(x: int, z: int)
    requires
        -5 <= x < 5,
        -5 <= z < 5,
    ensures
        chunk_at((z + 5) * 10 + (x + 5)) == (x as i32, z as i32),
{
    lemma_cell(z + 5, x + 5, 10);
}

/// Every loaded chunk lies in the square `-5 <= x, z < 5`.
pub proof fn law_chunks_inside_square(i: int)
    requires
        0 <= i < 100,
    ensures
        -5 <= chunk_at(i).0 < 5,
        -5 <= chunk_at(i).1 < 5,
{
}

/// Every block of the floor `-80 <= x, z < 80` is grass at height
/// `SPAWN_Y`, at its place in the order.
pub proof fn law_grass_covers_floor(x: int, z: int)
    requires
        -80 <= x < 80,
        -80 <= z < 80,
    ensures
        grass_at((x + 80) * 160 + (z + 80)) == (x as i32, SPAWN_Y, z as i32),
{
    lemma_cell(x + 80, z + 80, 160);
}

} // verus!
