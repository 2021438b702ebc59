//! The voxel world: a dense cube of voxel codes kept as one flat sequence.

use vstd::prelude::*;

verus! {

/// Side length of the cubic voxel grid.
pub const GRID_SIZE: usize = 32;

/// Number of voxels in the grid, `GRID_SIZE` cubed.
pub const VOXEL_COUNT: usize = 32768;

/// Voxel code of the one solid material every cell starts with.
pub const SOLID: u32 = 1;

/// Whether `(x, y, z)` names a cell of the grid.
pub open spec fn in_grid(x: int, y: int, z: int) -> bool {
    &&& 0 <= x < GRID_SIZE
    &&& 0 <= y < GRID_SIZE
    &&& 0 <= z < GRID_SIZE
}

/// Position of the cell `(x, y, z)` in the flat voxel sequence.
pub open spec fn voxel_index(x: int, y: int, z: int) -> int {
    x + y * GRID_SIZE + z * GRID_SIZE * GRID_SIZE
}

/// The cell `(x, y, z)` that the flat position `index` belongs to.
pub open spec fn voxel_coords(index: int) -> (int, int, int) {
    let side = GRID_SIZE as int;
    (index % side, (index / side) % side, index / (side * side))
}

/// The grid holds `GRID_SIZE` cubed voxels.
pub proof fn lemma_voxel_count()
    ensures
        VOXEL_COUNT == GRID_SIZE * GRID_SIZE * GRID_SIZE,
{
}

/// Every cell of the grid has a flat position below `VOXEL_COUNT`, and
/// decoding that position gives the cell back.
pub proof fn lemma_index_round_trip(x: int, y: int, z: int)
    requires
        in_grid(x, y, z),
    ensures
        0 <= voxel_index(x, y, z) < VOXEL_COUNT,
        voxel_coords(voxel_index(x, y, z)) == (x, y, z),
{
    let index = x + y * 32 + z * 1024;
    assert(voxel_index(x, y, z) == index);
    assert(index / 32 == y + z * 32);
}

/// Every flat position below `VOXEL_COUNT` decodes to a cell of the grid
/// whose flat position it is.
pub proof fn lemma_coords_round_trip(index: int)
    requires
        0 <= index < VOXEL_COUNT,
    ensures
        in_grid(voxel_coords(index).0, voxel_coords(index).1, voxel_coords(index).2),
        voxel_index(voxel_coords(index).0, voxel_coords(index).1, voxel_coords(index).2)
            == index,
{
    assert(index / 32 == (index / 32) % 32 + (index / 1024) * 32);
}

/// Two cells of the grid that share a flat position are the same cell.
pub proof fn lemma_index_injective(x1: int, y1: int, z1: int, x2: int, y2: int, z2: int)
    requires
        in_grid(x1, y1, z1),
        in_grid(x2, y2, z2),
        voxel_index(x1, y1, z1) == voxel_index(x2, y2, z2),
    ensures
        x1 == x2,
        y1 == y2,
        z1 == z2,
{
    lemma_index_round_trip(x1, y1, z1);
    lemma_index_round_trip(x2, y2, z2);
}

/// Computes the flat position of the cell `(x, y, z)`.
pub fn flat_index(x: usize, y: usize, z: usize) -> (index: usize)
    requires
        in_grid(x as int, y as int, z as int),
    ensures
        index == voxel_index(x as int, y as int, z as int),
        index < VOXEL_COUNT,
{
    x + y * GRID_SIZE + z * GRID_SIZE * GRID_SIZE
}

/// Computes the cell that the flat position `index` belongs to.
pub fn cell_of(index: usize) -> (cell: (usize, usize, usize))
    requires
        index < VOXEL_COUNT,
    ensures
        cell.0 == voxel_coords(index as int).0,
        cell.1 == voxel_coords(index as int).1,
        cell.2 == voxel_coords(index as int).2,
        in_grid(cell.0 as int, cell.1 as int, cell.2 as int),
        voxel_index(cell.0 as int, cell.1 as int, cell.2 as int) == index,
{
    proof {
        lemma_coords_round_trip(index as int);
    }
    (index % GRID_SIZE, (index / GRID_SIZE) % GRID_SIZE, index / (GRID_SIZE * GRID_SIZE))
}

/// The number that the four bytes of `bytes` from position `4 * i` on spell
/// when the lowest byte comes first.
pub open spec fn word_low_first(bytes: Seq<u8>, i: int) -> int {
    bytes[4 * i] + 256 * bytes[4 * i + 1] + 65536 * bytes[4 * i + 2] + 16777216 * bytes[4 * i
        + 3]
}

/// The number that the four bytes of `bytes` from position `4 * i` on spell
/// when the highest byte comes first.
pub open spec fn word_high_first(bytes: Seq<u8>, i: int) -> int {
    16777216 * bytes[4 * i] + 65536 * bytes[4 * i + 1] + 256 * bytes[4 * i + 2] + bytes[4 * i
        + 3]
}

/// Whether `bytes` is `words` as it lies in memory: four bytes per word, in
/// the order of the words, every word in the same byte order.
pub open spec fn memory_image(bytes: Seq<u8>, words: Seq<u32>) -> bool {
    &&& bytes.len() == 4 * words.len()
    &&& {
        ||| forall|i: int| 0 <= i < words.len() ==> #[trigger] word_low_first(bytes, i) == words[i]
        ||| forall|i: int|
            0 <= i < words.len() ==> #[trigger] word_high_first(bytes, i) == words[i]
    }
}

/// `bytemuck::cast_slice` from `u32` to `u8`. It hands back the same memory
/// seen as bytes: four times as many items, each word in the byte order of
/// the machine. With a target of size one it never fails.
#[verifier::external_body]
fn words_as_bytes(words: &[u32]) -> (bytes: &[u8])
    ensures
        memory_image(bytes@, words@),
{
    bytemuck::cast_slice(words)
}

/// The dense voxel grid, one code per cell.
pub struct World {
    voxels: Vec<u32>,
}

impl View for World {
    type V = Seq<u32>;

    /// The voxel codes in flat order: cell `(x, y, z)` is at `voxel_index(x, y, z)`.
    closed spec fn view(&self) -> Seq<u32> {
        self.voxels@
    }
}

impl World {
    #[verifier::type_invariant]
    spec fn complete(self) -> bool {
        self.voxels@.len() == VOXEL_COUNT
    }

    /// The voxel code this world holds for the cell `(x, y, z)`.
    pub open spec fn at(&self, x: int, y: int, z: int) -> u32 {
        self@[voxel_index(x, y, z)]
    }

    /// Builds the world with every cell filled with `SOLID`.
    pub fn new() -> (world: World)
        ensures
            world@.len() == VOXEL_COUNT,
            forall|i: int| 0 <= i < VOXEL_COUNT ==> world@[i] == SOLID,
    {
        let mut voxels = vec![0u32; GRID_SIZE * GRID_SIZE * GRID_SIZE];
        for x in 0..GRID_SIZE
            invariant
                voxels@.len() == VOXEL_COUNT,
                forall|a: int, b: int, c: int|
                    in_grid(a, b, c) && a < x ==> voxels@[#[trigger] voxel_index(a, b, c)]
                        == SOLID,
        {
            for z in 0..GRID_SIZE
                invariant
                    x < GRID_SIZE,
                    voxels@.len() == VOXEL_COUNT,
                    forall|a: int, b: int, c: int|
                        in_grid(a, b, c) && (a < x || (a == x && c < z)) ==> voxels@[#[trigger] voxel_index(
                            a,
                            b,
                            c,
                        )] == SOLID,
            {
                for y in 0..GRID_SIZE
                    invariant
                        x < GRID_SIZE,
                        z < GRID_SIZE,
                        voxels@.len() == VOXEL_COUNT,
                        forall|a: int, b: int, c: int|
                            in_grid(a, b, c) && (a < x || (a == x && (c < z || (c == z && b < y))))
                                ==> voxels@[#[trigger] voxel_index(a, b, c)] == SOLID,
                {
                    voxels.set(x + (y * GRID_SIZE) + (z * GRID_SIZE * GRID_SIZE), SOLID);
                }
            }
        }
        proof {
            assert forall|i: int| 0 <= i < VOXEL_COUNT implies voxels@[i] == SOLID by {
                lemma_coords_round_trip(i);
                let cell = voxel_coords(i);
                assert(voxels@[voxel_index(cell.0, cell.1, cell.2)] == SOLID);
            }
        }
        World { voxels }
    }

    /// Reads the voxel code of the cell `(x, y, z)`.
    pub fn voxel(&self, x: usize, y: usize, z: usize) -> (code: u32)
        requires
            in_grid(x as int, y as int, z as int),
        ensures
            code == self.at(x as int, y as int, z as int),
    {
        proof {
            use_type_invariant(self);
        }
        self.voxels[flat_index(x, y, z)]
    }

    /// Number of voxels held, always `VOXEL_COUNT`.
    pub fn len(&self) -> (n: usize)
        ensures
            n == self@.len(),
            n == VOXEL_COUNT,
    {
        proof {
            use_type_invariant(self);
        }
        self.voxels.len()
    }

    /// The voxel codes in flat order.
    pub fn voxels(&self) -> (codes: &[u32])
        ensures
            codes@ == self@,
            codes@.len() == VOXEL_COUNT,
    {
        proof {
            use_type_invariant(self);
        }
        self.voxels.as_slice()
    }

    /// The voxel codes as the bytes a storage buffer is filled with.
    pub fn as_bytes(&self) -> (bytes: &[u8])
        ensures
            memory_image(bytes@, self@),
            bytes@.len() == 4 * VOXEL_COUNT,
    {
        proof {
            use_type_invariant(self);
        }
        words_as_bytes(self.voxels.as_slice())
    }
}

} // verus!
