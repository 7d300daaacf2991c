use grmot::spectrum::hermitian_extend;
use grmot::spectrum::receiver_column;
use grmot::tensor::symmetric3;

#[test]
fn column_gathers_one_receiver_across_frequencies() {
    let rows = vec![vec![1, 2, 3], vec![4, 5, 6], vec![7, 8, 9], vec![10, 11, 12]];
    assert_eq!(receiver_column(&rows, 0), vec![1, 4, 7, 10]);
    assert_eq!(receiver_column(&rows, 2), vec![3, 6, 9, 12]);
}

#[test]
fn column_of_no_frequencies_is_empty() {
    let rows: Vec<Vec<i32>> = Vec::new();
    assert!(receiver_column(&rows, 5).is_empty());
}

#[test]
fn even_length_buffer_is_padded_then_mirrored() {
    let full = hermitian_extend(vec![1i64, 2, 3], 8, 0, |x: i64| -x);
    assert_eq!(full, vec![1, 2, 3, 0, 0, 0, -3, -2]);
}

#[test]
fn odd_length_buffer_is_padded_then_mirrored() {
    let full = hermitian_extend(vec![1i64, 2, 3], 7, 0, |x: i64| -x);
    assert_eq!(full, vec![1, 2, 3, 0, 0, -3, -2]);
}

#[test]
fn full_one_sided_spectrum_needs_no_padding() {
    let full = hermitian_extend(vec![5i64, 6, 7], 4, 0, |x: i64| -x);
    assert_eq!(full, vec![5, 6, 7, -6]);
}

#[test]
fn spectrum_longer_than_nyquist_is_kept_whole() {
    let full = hermitian_extend(vec![1i64, 2, 3, 4, 5, 6], 4, 0, |x: i64| -x);
    assert_eq!(full, vec![1, 2, 3, 4, 5, 6, -2]);
}

#[test]
fn zero_samples_leave_a_single_zero() {
    let full = hermitian_extend(Vec::<i64>::new(), 0, 0, |x: i64| -x);
    assert_eq!(full, vec![0]);
}

#[test]
fn complex_entries_are_conjugated() {
    let spectrum = vec![(1.0f64, 0.0f64), (0.5, 0.25), (0.0, -1.5)];
    let full = hermitian_extend(spectrum, 5, (0.0, 0.0), |c: (f64, f64)| (c.0, -c.1));
    assert_eq!(full.len(), 5);
    assert_eq!(full[3], (0.0, 1.5));
    assert_eq!(full[4], (0.5, -0.25));
    for p in 3..5 {
        assert_eq!(full[p], (full[5 - p].0, -full[5 - p].1));
    }
}

#[test]
fn tensor_is_filled_symmetrically() {
    let m = symmetric3(1, 2, 3, 4, 5, 6);
    assert_eq!(m, [[1, 2, 3], [2, 4, 5], [3, 5, 6]]);
    for i in 0..3 {
        for j in 0..3 {
            assert_eq!(m[i][j], m[j][i]);
        }
    }
}
