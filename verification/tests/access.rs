use mat::traits::{Matrix, Transpose, UnsafeGet};
use mat::Mat;

fn three_by_four() -> Mat<u16, 3, 4> {
    Mat::from_row_major(vec![10, 11, 12, 13, 20, 21, 22, 23, 30, 31, 32, 33]).unwrap()
}

#[test]
fn get_agrees_with_unsafe_get_in_range() {
    let m = three_by_four();
    for r in 0..3 {
        for c in 0..4 {
            assert_eq!((&m).get(r, c), (&m).unsafe_get(r, c));
        }
    }
}

#[test]
fn entries_stand_row_after_row() {
    let m = three_by_four();
    assert_eq!((&m).get(0, 0), 10);
    assert_eq!((&m).get(0, 3), 13);
    assert_eq!((&m).get(1, 0), 20);
    assert_eq!((&m).get(2, 1), 31);
    assert_eq!((&m).get(2, 3), 33);
}

#[test]
fn size_is_rows_then_columns() {
    let m = three_by_four();
    assert_eq!((&m).size(), (3, 4));
    assert_eq!((&m).nrows(), 3);
    assert_eq!((&m).ncols(), 4);
}

#[test]
fn transpose_reports_swapped_size() {
    let m = three_by_four();
    let t = (&m).t();
    assert_eq!(t.size(), (4, 3));
    assert_eq!(t.nrows(), 4);
    assert_eq!(t.ncols(), 3);
}

#[test]
fn transpose_reads_with_swapped_indices() {
    let m = three_by_four();
    let t = (&m).t();
    for r in 0..3 {
        for c in 0..4 {
            assert_eq!(t.get(c, r), (&m).get(r, c));
            assert_eq!(t.unsafe_get(c, r), (&m).unsafe_get(r, c));
        }
    }
    assert_eq!(t.get(3, 0), 13);
    assert_eq!(t.get(0, 2), 30);
}

#[test]
fn transpose_wraps_the_value_it_was_made_from() {
    let m = three_by_four();
    let t = (&m).t();
    assert!(std::ptr::eq(t.m, &m));
    let tt = t.t();
    assert!(std::ptr::eq(tt.m.m, &m));
}

#[test]
fn a_transpose_is_copied_not_moved() {
    let m = three_by_four();
    let t = (&m).t();
    let u = t;
    let v = t.clone();
    assert_eq!(t.get(1, 2), 31);
    assert_eq!(u.get(1, 2), 31);
    assert_eq!(v.get(1, 2), 31);
}

#[test]
fn double_transpose_reads_as_the_matrix() {
    let m = three_by_four();
    let tt = (&m).t().t();
    assert_eq!(tt.size(), (3, 4));
    for r in 0..3 {
        for c in 0..4 {
            assert_eq!(tt.get(r, c), (&m).get(r, c));
        }
    }
}
