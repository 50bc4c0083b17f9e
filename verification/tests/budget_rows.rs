use semaphore::budget::{circuit_rows, fits_table, min_k};

#[test]
fn row_count_formula() {
    // height 3, 38 rows per hash invocation: 6 + (3 + 3) * 38
    assert_eq!(circuit_rows(38, 3), Some(234));
    // a zero-cost hash leaves only the six fixed rows
    assert_eq!(circuit_rows(0, 20), Some(6));
    // an overflowing configuration is rejected
    assert_eq!(circuit_rows(u64::MAX, u64::MAX), None);
    assert_eq!(circuit_rows(2, u64::MAX), None);
}

#[test]
fn minimal_table_exponent() {
    assert_eq!(min_k(1), 0);
    assert_eq!(min_k(2), 1);
    assert_eq!(min_k(3), 2);
    assert_eq!(min_k(234), 8);
    assert_eq!(min_k(256), 8);
    assert_eq!(min_k(257), 9);
    assert_eq!(min_k(u64::MAX), 64);
}

#[test]
fn table_bound_is_tight() {
    // height 3 with a 38-row hash gadget needs k = 8 and overflows k = 7
    let rows = circuit_rows(38, 3).unwrap();
    let k = min_k(rows);
    assert_eq!(k, 8);
    assert!(fits_table(rows, k));
    assert!(!fits_table(rows, k - 1));
}

#[test]
fn taller_trees_need_more_rows() {
    // height 20 with the same gate set
    let rows = circuit_rows(38, 20).unwrap();
    assert_eq!(rows, 6 + 23 * 38);
    let k = min_k(rows);
    assert!(fits_table(rows, k));
    assert!(!fits_table(rows, k - 1));
}
