use dirst::triangle::{upper_triangle_pairs, upper_triangle_triples};

#[test]
fn pairs_are_listed_row_by_row() {
    assert_eq!(
        upper_triangle_pairs(3),
        vec![(0, 0), (0, 1), (0, 2), (1, 1), (1, 2), (2, 2)]
    );
    assert!(upper_triangle_pairs(0).is_empty());
    assert_eq!(upper_triangle_pairs(1), vec![(0, 0)]);
}

#[test]
fn triples_are_listed_lexicographically() {
    assert_eq!(
        upper_triangle_triples(2),
        vec![(0, 0, 0), (0, 0, 1), (0, 1, 0), (0, 1, 1), (1, 1, 0), (1, 1, 1)]
    );
    assert!(upper_triangle_triples(0).is_empty());
    assert_eq!(upper_triangle_triples(4).len(), 40);
}

#[test]
fn symmetric_fill_writes_each_entry_once() {
    for n in 0..6usize {
        let mut writes = vec![0usize; n * n];
        for (a, b) in upper_triangle_pairs(n) {
            writes[a * n + b] += 1;
            if a != b {
                writes[b * n + a] += 1;
            }
        }
        assert!(writes.iter().all(|&w| w == 1));
    }
}

#[test]
fn symmetric_derivative_fill_writes_each_entry_once() {
    for n in 0..5usize {
        let mut writes = vec![0usize; n * n * n];
        for (a, b, c) in upper_triangle_triples(n) {
            writes[a * n * n + b * n + c] += 1;
            if a != b {
                writes[b * n * n + a * n + c] += 1;
            }
        }
        assert!(writes.iter().all(|&w| w == 1));
    }
}
