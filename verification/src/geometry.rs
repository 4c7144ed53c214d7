//! Triangle lists for a latitude-longitude sphere.
//!
//! A sphere of `stacks` bands and `sectors` wedges is drawn over a grid of
//! `(stacks + 1) * (sectors + 1)` vertices, stored band by band. This
//! module decides which grid vertices make up which triangle; where the
//! vertices lie in space is the caller's business.

use vstd::prelude::*;

verus! {

/// The number of vertices in the grid.
pub open spec fn grid_len(sectors: int, stacks: int) -> int {
    (stacks + 1) * (sectors + 1)
}

/// The grid indices that the cell in band `i`, wedge `j` contributes. A
/// cell is a quad with corners `k1`, `k1 + 1` on its upper edge and `k2`,
/// `k2 + 1` on its lower edge. It gives two triangles, except that the
/// first band has no upper triangle (its upper edge is the pole) and the
/// last band has no lower one.
pub open spec fn cell_indices(sectors: int, stacks: int, i: int, j: int) -> Seq<int> {
    let k1 = i * (sectors + 1) + j;
    let k2 = k1 + sectors + 1;
    let upper = if i != 0 {
        seq![k1, k2, k1 + 1]
    } else {
        Seq::empty()
    };
    let lower = if i != stacks - 1 {
        seq![k1 + 1, k2, k2 + 1]
    } else {
        Seq::empty()
    };
    upper + lower
}

/// The indices of the first `j` cells of band `i`.
pub open spec fn band_prefix(sectors: int, stacks: int, i: int, j: nat) -> Seq<int>
    decreases j,
{
    if j == 0 {
        Seq::empty()
    } else {
        band_prefix(sectors, stacks, i, (j - 1) as nat) + cell_indices(sectors, stacks, i, j - 1)
    }
}

/// The indices of the first `i` bands.
pub open spec fn bands_prefix(sectors: int, stacks: int, i: nat) -> Seq<int>
    decreases i,
{
    if i == 0 {
        Seq::empty()
    } else {
        bands_prefix(sectors, stacks, (i - 1) as nat) + band_prefix(
            sectors,
            stacks,
            i - 1,
            sectors as nat,
        )
    }
}

/// The whole triangle list: every band from the top down, every cell of a
/// band in order, three indices per triangle.
pub open spec fn sphere_index_list(sectors: int, stacks: int) -> Seq<int> {
    bands_prefix(sectors, stacks, stacks as nat)
}

/// How many indices one cell of band `i` contributes.
pub open spec fn cell_size(stacks: int, i: int) -> int {
    (if i != 0 { 3int } else { 0int }) + (if i != stacks - 1 { 3int } else { 0int })
}

/// The length of the whole list: nothing for fewer than two bands, else
/// one triangle per cell in the two polar bands and two in every other.
pub open spec fn sphere_index_count(sectors: int, stacks: int) -> int {
    if stacks >= 2 {
        6 * (sectors * (stacks - 1))
    } else {
        0
    }
}

/// A sequence of machine integers, read as mathematical ones.
pub open spec fn as_ints(s: Seq<u32>) -> Seq<int> {
    s.map_values(|x: u32| x as int)
}

/// Every index of a cell lies inside the grid.
pub proof fn lemma_cell_in_grid(sectors: int, stacks: int, i: int, j: int)
    requires
        0 <= i < stacks,
        0 <= j < sectors,
    ensures
        cell_indices(sectors, stacks, i, j).len() == cell_size(stacks, i),
        forall|k: int|
            0 <= k < cell_indices(sectors, stacks, i, j).len() ==> 0 <= #[trigger] cell_indices(
                sectors,
                stacks,
                i,
                j,
            )[k] < grid_len(sectors, stacks),
{
    let k1 = i * (sectors + 1) + j;
    let k2 = k1 + sectors + 1;
    assert(0 <= i * (sectors + 1)) by (nonlinear_arith)
        requires
            0 <= i,
            0 <= sectors,
    ;
    assert((i + 2) * (sectors + 1) <= (stacks + 1) * (sectors + 1)) by (nonlinear_arith)
        requires
            i + 1 <= stacks,
            0 <= sectors,
    ;
    assert((i + 2) * (sectors + 1) == i * (sectors + 1) + 2 * sectors + 2) by (nonlinear_arith);
    assert(k2 + 1 < grid_len(sectors, stacks));
}

/// The first `j` cells of a band hold `j` cells' worth of indices, all
/// inside the grid.
pub proof fn lemma_band_prefix(sectors: int, stacks: int, i: int, j: nat)
    requires
        0 <= i < stacks,
        j <= sectors,
    ensures
        band_prefix(sectors, stacks, i, j).len() == j * cell_size(stacks, i),
        forall|k: int|
            0 <= k < band_prefix(sectors, stacks, i, j).len() ==> 0 <= #[trigger] band_prefix(
                sectors,
                stacks,
                i,
                j,
            )[k] < grid_len(sectors, stacks),
    decreases j,
{
    if j > 0 {
        lemma_band_prefix(sectors, stacks, i, (j - 1) as nat);
        lemma_cell_in_grid(sectors, stacks, i, j - 1);
        assert(j * cell_size(stacks, i) == (j - 1) * cell_size(stacks, i) + cell_size(stacks, i))
            by (nonlinear_arith);
    }
}

/// How many indices the first `i` bands hold.
pub open spec fn bands_count(sectors: int, stacks: int, i: int) -> int {
    if i <= 0 {
        0
    } else if i == stacks {
        sphere_index_count(sectors, stacks)
    } else {
        3 * sectors + 6 * (sectors * (i - 1))
    }
}

/// The first `i` bands hold `bands_count` indices, all inside the grid.
pub proof fn lemma_bands_prefix(sectors: int, stacks: int, i: nat)
    requires
        0 <= sectors,
        i <= stacks,
    ensures
        bands_prefix(sectors, stacks, i).len() == bands_count(sectors, stacks, i as int),
        forall|k: int|
            0 <= k < bands_prefix(sectors, stacks, i).len() ==> 0 <= #[trigger] bands_prefix(
                sectors,
                stacks,
                i,
            )[k] < grid_len(sectors, stacks),
    decreases i,
{
    if i > 0 {
        lemma_bands_prefix(sectors, stacks, (i - 1) as nat);
        lemma_band_prefix(sectors, stacks, i - 1, sectors as nat);
        let size = cell_size(stacks, i - 1);
        assert(sectors * size == if size == 0 {
            0
        } else if size == 3 {
            3 * sectors
        } else {
            6 * sectors
        }) by (nonlinear_arith)
            requires
                size == 0 || size == 3 || size == 6,
        ;
        assert(sectors * (i - 1) == sectors * (i - 2) + sectors) by (nonlinear_arith);
        assert(sectors * 0 == 0);
    }
}

/// The triangle list has `sphere_index_count` entries, and each of them
/// is a position in the vertex grid.
pub proof fn lemma_sphere_index_list(sectors: int, stacks: int)
    requires
        0 <= sectors,
        0 <= stacks,
    ensures
        sphere_index_list(sectors, stacks).len() == sphere_index_count(sectors, stacks),
        forall|k: int|
            0 <= k < sphere_index_list(sectors, stacks).len() ==> 0 <= #[trigger] sphere_index_list(
                sectors,
                stacks,
            )[k] < grid_len(sectors, stacks),
{
    lemma_bands_prefix(sectors, stacks, stacks as nat);
}

/// Whether the grid of a sphere is small enough for its indices to fit 32
/// bits.
pub fn grid_fits(sectors: u32, stacks: u32) -> (fits: bool)
    ensures
        fits == (grid_len(sectors as int, stacks as int) <= u32::MAX),
{
    let rows: u128 = stacks as u128 + 1;
    let columns: u128 = sectors as u128 + 1;
    assert(rows * columns <= 0x1_0000_0000 * 0x1_0000_0000) by (nonlinear_arith)
        requires
            rows <= 0x1_0000_0000,
            columns <= 0x1_0000_0000,
    ;
    rows * columns <= u32::MAX as u128
}

/// Builds the triangle list of a sphere with `sectors` wedges and `stacks`
/// bands, as indices into the vertex grid.
pub fn sphere_indices(sectors: u32, stacks: u32) -> (indices: Vec<u32>)
    requires
        grid_len(sectors as int, stacks as int) <= u32::MAX,
    ensures
        as_ints(indices@) == sphere_index_list(sectors as int, stacks as int),
        indices@.len() == sphere_index_count(sectors as int, stacks as int),
        forall|k: int|
            0 <= k < indices@.len() ==> (#[trigger] indices@[k]) < grid_len(
                sectors as int,
                stacks as int,
            ),
{
    let mut indices: Vec<u32> = Vec::new();
    let mut i: u32 = 0;
    assert(as_ints(indices@) =~= bands_prefix(sectors as int, stacks as int, 0));
    while i < stacks
        invariant
            i <= stacks,
            grid_len(sectors as int, stacks as int) <= u32::MAX,
            as_ints(indices@) == bands_prefix(sectors as int, stacks as int, i as nat),
        decreases stacks - i,
    {
        proof {
            assert((i + 2) * (sectors + 1) <= (stacks + 1) * (sectors + 1)) by (nonlinear_arith)
                requires
                    i + 1 <= stacks,
                    0 <= sectors,
            ;
            assert((i + 2) * (sectors + 1) == i * (sectors + 1) + 2 * sectors + 2)
                by (nonlinear_arith);
        }
        let mut k1: u32 = i * (sectors + 1);
        let mut k2: u32 = k1 + sectors + 1;
        let mut j: u32 = 0;
        let ghost done = indices@;
        assert(as_ints(indices@) =~= as_ints(done) + band_prefix(
            sectors as int,
            stacks as int,
            i as int,
            0,
        ));
        while j < sectors
            invariant
                i < stacks,
                j <= sectors,
                k1 == i * (sectors + 1) + j,
                k2 == k1 + sectors + 1,
                i * (sectors + 1) + 2 * sectors + 2 <= u32::MAX,
                as_ints(indices@) == as_ints(done) + band_prefix(
                    sectors as int,
                    stacks as int,
                    i as int,
                    j as nat,
                ),
            decreases sectors - j,
        {
            let ghost before = indices@;
            if i != 0 {
                indices.push(k1);
                indices.push(k2);
                indices.push(k1 + 1);
            }
            if i != stacks - 1 {
                indices.push(k1 + 1);
                indices.push(k2);
                indices.push(k2 + 1);
            }
            assert(as_ints(indices@) =~= as_ints(before) + cell_indices(
                sectors as int,
                stacks as int,
                i as int,
                j as int,
            ));
            assert(as_ints(indices@) =~= as_ints(done) + band_prefix(
                sectors as int,
                stacks as int,
                i as int,
                (j + 1) as nat,
            ));
            k1 += 1;
            k2 += 1;
            j += 1;
        }
        i += 1;
    }
    proof {
        lemma_sphere_index_list(sectors as int, stacks as int);
        assert(indices@.len() == as_ints(indices@).len());
        assert forall|k: int| 0 <= k < indices@.len() implies (#[trigger] indices@[k]) < grid_len(
            sectors as int,
            stacks as int,
        ) by {
            assert(as_ints(indices@)[k] == indices@[k] as int);
        }
    }
    indices
}

/// Lays the grid out as a triangle list: one vertex per entry of the
/// index list, in its order, so that every three entries are a triangle.
pub fn triangle_list<V: Copy>(grid: &Vec<V>, sectors: u32, stacks: u32) -> (vertices: Vec<V>)
    requires
        grid@.len() == grid_len(sectors as int, stacks as int),
        grid_len(sectors as int, stacks as int) <= u32::MAX,
    ensures
        vertices@.len() == sphere_index_count(sectors as int, stacks as int),
        forall|k: int|
            0 <= k < vertices@.len() ==> (#[trigger] vertices@[k]) == grid@[sphere_index_list(
                sectors as int,
                stacks as int,
            )[k]],
{
    let indices = sphere_indices(sectors, stacks);
    let mut vertices: Vec<V> = Vec::new();
    let mut k: usize = 0;
    while k < indices.len()
        invariant
            k <= indices@.len(),
            vertices@.len() == k,
            grid@.len() == grid_len(sectors as int, stacks as int),
            as_ints(indices@) == sphere_index_list(sectors as int, stacks as int),
            forall|t: int|
                0 <= t < indices@.len() ==> (#[trigger] indices@[t]) < grid_len(
                    sectors as int,
                    stacks as int,
                ),
            forall|t: int|
                0 <= t < k ==> (#[trigger] vertices@[t]) == grid@[sphere_index_list(
                    sectors as int,
                    stacks as int,
                )[t]],
        decreases indices@.len() - k,
    {
        let index = indices[k];
        assert(as_ints(indices@)[k as int] == index as int);
        vertices.push(grid[index as usize]);
        k += 1;
    }
    vertices
}

} // verus!
