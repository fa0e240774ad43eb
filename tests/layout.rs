use webgl_torus::layout::transposed;

#[test]
fn transpose_swaps_rows_and_columns() {
    let m: [u32; 16] = [0, 1, 2, 3, 4, 5, 6, 7, 8, 9, 10, 11, 12, 13, 14, 15];
    assert_eq!(transposed(&m), [0, 4, 8, 12, 1, 5, 9, 13, 2, 6, 10, 14, 3, 7, 11, 15]);
}

#[test]
fn transpose_twice_is_identity_map() {
    let m: [f32; 16] = [
        1.0, 2.5, -3.0, 0.0, 4.0, 5.0, 6.0, 7.0, 8.0, 9.0, 10.0, 11.0, 12.0, 13.0, 14.0, 15.5,
    ];
    assert_eq!(transposed(&transposed(&m)), m);
    assert_ne!(transposed(&m), m);
}

#[test]
fn transpose_keeps_diagonal() {
    let m: [i64; 16] = [1, 0, 0, 0, 0, 2, 0, 0, 0, 0, 3, 0, 0, 0, 0, 4];
    assert_eq!(transposed(&m), m);
}
