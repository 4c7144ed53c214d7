use atom_simulator::geometry::{grid_fits, sphere_indices, triangle_list};

fn vertex_grid(radius: f32, sectors: u32, stacks: u32) -> Vec<[f32; 3]> {
    let pi = std::f32::consts::PI;
    let sector_step = 2.0 * pi / sectors as f32;
    let stack_step = pi / stacks as f32;
    let mut vertices = Vec::new();
    for i in 0..=stacks {
        let stack_angle = pi / 2.0 - i as f32 * stack_step;
        let xy = radius * stack_angle.cos();
        let z = radius * stack_angle.sin();
        for j in 0..=sectors {
            let sector_angle = j as f32 * sector_step;
            vertices.push([xy * sector_angle.cos(), xy * sector_angle.sin(), z]);
        }
    }
    vertices
}

#[test]
fn test_generate_sphere_creates_vertices() {
    let grid = vertex_grid(1.0, 10, 10);
    let vertices = triangle_list(&grid, 10, 10);
    assert!(!vertices.is_empty(), "generate_sphere should produce vertices");
}

#[test]
fn sphere_of_ten_by_ten_has_180_triangles() {
    let grid = vertex_grid(1.0, 10, 10);
    assert_eq!(grid.len(), 121);
    let vertices = triangle_list(&grid, 10, 10);
    assert_eq!(vertices.len(), 540);
    for v in &vertices {
        let norm = (v[0] * v[0] + v[1] * v[1] + v[2] * v[2]).sqrt();
        assert!((norm - 1.0).abs() < 1e-5);
    }
}

#[test]
fn two_bands_of_two_wedges() {
    // grid rows: 0 1 2 / 3 4 5 / 6 7 8
    assert_eq!(sphere_indices(2, 2), vec![1, 3, 4, 2, 4, 5, 3, 6, 4, 4, 7, 5]);
}

#[test]
fn three_bands_have_a_middle_band_of_quads() {
    // grid rows: 0 1 / 2 3 / 4 5 / 6 7
    assert_eq!(sphere_indices(1, 3), vec![1, 2, 3, 2, 4, 3, 3, 4, 5, 4, 6, 5]);
}

#[test]
fn fewer_than_two_bands_give_no_triangle() {
    assert!(sphere_indices(10, 0).is_empty());
    assert!(sphere_indices(10, 1).is_empty());
    assert!(sphere_indices(0, 10).is_empty());
    assert!(sphere_indices(0, 0).is_empty());
}

#[test]
fn index_count_is_six_per_cell_less_the_poles() {
    for sectors in 0u32..8 {
        for stacks in 0u32..8 {
            let indices = sphere_indices(sectors, stacks);
            let expected = if stacks >= 2 { 6 * sectors * (stacks - 1) } else { 0 };
            assert_eq!(indices.len() as u32, expected);
            for index in indices {
                assert!(index < (sectors + 1) * (stacks + 1));
            }
        }
    }
}

#[test]
fn triangle_list_follows_the_index_list() {
    let grid: Vec<u32> = (100..109).collect();
    let listed = triangle_list(&grid, 2, 2);
    let expected: Vec<u32> = sphere_indices(2, 2).iter().map(|i| 100 + i).collect();
    assert_eq!(listed, expected);
}

#[test]
fn a_grid_fits_while_its_indices_fit_thirty_two_bits() {
    assert!(grid_fits(10, 10));
    assert!(grid_fits(0, 0));
    assert!(grid_fits(65_534, 65_535));
    assert!(grid_fits(u32::MAX - 1, 0));
    assert!(!grid_fits(65_535, 65_535));
    assert!(!grid_fits(u32::MAX, 0));
    assert!(!grid_fits(u32::MAX, u32::MAX));
}
