use dirst::layout::{matrix_index, tensor3_coords, tensor3_index};

#[test]
fn matrix_index_is_row_major() {
    assert_eq!(matrix_index(2, 0, 1), 1);
    assert_eq!(matrix_index(2, 1, 0), 2);
    assert_eq!(matrix_index(3, 2, 2), 8);
}

#[test]
fn tensor3_index_is_row_major() {
    // Γ^u_uv and Γ^v_uu of a two-parameter surface
    assert_eq!(tensor3_index(2, 0, 0, 1), 1);
    assert_eq!(tensor3_index(2, 0, 1, 0), 2);
    assert_eq!(tensor3_index(2, 1, 0, 0), 4);
    assert_eq!(tensor3_index(3, 2, 1, 0), 21);
}

#[test]
fn tensor3_coords_of_flat_positions() {
    assert_eq!(tensor3_coords(2, 5), (1, 0, 1));
    assert_eq!(tensor3_coords(3, 26), (2, 2, 2));
    assert_eq!(tensor3_coords(4, 27), (1, 2, 3));
}

#[test]
fn tensor3_roundtrip() {
    for n in 1..5usize {
        for idx in 0..n * n * n {
            let (i, j, k) = tensor3_coords(n, idx);
            assert_eq!(tensor3_index(n, i, j, k), idx);
        }
    }
}
