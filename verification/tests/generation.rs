use fibonacci::generator::{column_rows, generate_by_count, generate_up_to_max, sum_terms};

#[test]
fn ten_terms_with_stats() {
    let r = generate_by_count(10, true, false);
    assert_eq!(r.terms, vec![0, 1, 1, 2, 3, 5, 8, 13, 21, 34]);
    let stats = r.stats.expect("statistics were requested");
    assert_eq!(stats.term_count, 10);
    assert_eq!(stats.sum, 88);
    assert_eq!(stats.last_two, Some((34, 21)));
    assert!(r.rows.is_none());
}

#[test]
fn ten_terms_average() {
    let r = generate_by_count(10, true, false);
    let stats = r.stats.expect("statistics were requested");
    let average = stats.sum as f64 / stats.term_count as f64;
    assert_eq!(format!("{:.2}", average), "8.80");
}

#[test]
fn one_term_with_stats() {
    let r = generate_by_count(1, true, false);
    assert_eq!(r.terms, vec![0]);
    let stats = r.stats.expect("statistics were requested");
    assert_eq!(stats.term_count, 1);
    assert_eq!(stats.sum, 0);
    assert_eq!(stats.last_two, None);
}

#[test]
fn two_terms_with_stats() {
    let r = generate_by_count(2, true, false);
    assert_eq!(r.terms, vec![0, 1]);
    let stats = r.stats.expect("statistics were requested");
    assert_eq!(stats.sum, 1);
    assert_eq!(stats.last_two, Some((1, 0)));
}

#[test]
fn plain_mode_carries_no_extras() {
    let r = generate_by_count(5, false, false);
    assert_eq!(r.terms, vec![0, 1, 1, 2, 3]);
    assert!(r.stats.is_none());
    assert!(r.rows.is_none());
}

#[test]
fn first_terms_match_the_sequence() {
    let expected: [i64; 13] = [0, 1, 1, 2, 3, 5, 8, 13, 21, 34, 55, 89, 144];
    for n in 1..=13 {
        let r = generate_by_count(n, false, false);
        assert_eq!(r.terms.len(), n);
        assert_eq!(r.terms[..], expected[..n]);
    }
}

#[test]
fn ninety_two_terms_fit_in_i64() {
    let r = generate_by_count(92, true, false);
    assert_eq!(r.terms.len(), 92);
    assert_eq!(r.terms[91], 4660046610375530309);
    assert_eq!(r.terms[90], 2880067194370816120);
    let stats = r.stats.expect("statistics were requested");
    assert_eq!(stats.sum, 12200160415121876737);
    assert_eq!(stats.last_two, Some((4660046610375530309, 2880067194370816120)));
}

#[test]
fn by_count_is_idempotent() {
    let first = generate_by_count(30, true, true);
    let second = generate_by_count(30, true, true);
    assert_eq!(first, second);
}

#[test]
fn up_to_max_ten() {
    let terms = generate_up_to_max(10);
    assert_eq!(terms, vec![0, 1, 1, 2, 3, 5, 8]);
    assert_eq!(terms.len(), 7);
}

#[test]
fn up_to_max_zero() {
    assert_eq!(generate_up_to_max(0), vec![0]);
}

#[test]
fn up_to_max_one() {
    assert_eq!(generate_up_to_max(1), vec![0, 1, 1]);
}

#[test]
fn up_to_max_exact_term_is_kept() {
    assert_eq!(generate_up_to_max(8), vec![0, 1, 1, 2, 3, 5, 8]);
    assert_eq!(generate_up_to_max(7), vec![0, 1, 1, 2, 3, 5]);
}

#[test]
fn up_to_max_never_exceeds_bound() {
    for max in [0, 1, 2, 3, 4, 5, 100, 1000, 832040] {
        let terms = generate_up_to_max(max);
        assert!(terms.iter().all(|&t| t <= max));
    }
}

#[test]
fn up_to_max_largest_bound() {
    let terms = generate_up_to_max(i64::MAX);
    assert_eq!(terms.len(), 93);
    assert_eq!(terms[92], 7540113804746346429);
}

#[test]
fn up_to_max_is_idempotent() {
    let first = generate_up_to_max(12345678);
    let second = generate_up_to_max(12345678);
    assert_eq!(first, second);
}

#[test]
fn sum_of_a_short_list() {
    assert_eq!(sum_terms(&vec![1, 2, 3]), 6);
    assert_eq!(sum_terms(&vec![]), 0);
    assert_eq!(sum_terms(&vec![i64::MAX; 92]), 92 * (i64::MAX as i128));
}

#[test]
fn columns_wrap_every_ten_terms() {
    let r = generate_by_count(25, false, true);
    let rows = r.rows.expect("column mode was requested");
    assert_eq!(rows.len(), 3);
    assert_eq!(rows[0].len(), 10);
    assert_eq!(rows[1].len(), 10);
    assert_eq!(rows[2].len(), 5);
    let rejoined: Vec<i64> = rows.into_iter().flatten().collect();
    assert_eq!(rejoined, r.terms);
}

#[test]
fn columns_single_full_row() {
    let r = generate_by_count(10, false, true);
    let rows = r.rows.expect("column mode was requested");
    assert_eq!(rows.len(), 1);
    assert_eq!(rows[0], r.terms);
}

#[test]
fn column_rows_of_empty_list() {
    let rows = column_rows(&vec![]);
    assert!(rows.is_empty());
}
