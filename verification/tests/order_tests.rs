use grooves_player::order::{candidate_indices, generate_order, generate_order_seeded, pin_start};

fn is_permutation(order: &[usize], len: usize) -> bool {
    if order.len() != len {
        return false;
    }
    let mut seen = vec![false; len];
    for &index in order {
        if index >= len || seen[index] {
            return false;
        }
        seen[index] = true;
    }
    seen.iter().all(|&s| s)
}

#[test]
fn order_without_start_is_a_permutation() {
    for len in 1..40usize {
        let order = generate_order(len, None);
        assert!(is_permutation(&order, len), "len {}: {:?}", len, order);
    }
}

#[test]
fn order_with_start_begins_with_it() {
    for len in 1..20usize {
        for start in 0..len {
            let order = generate_order(len, Some(start));
            assert_eq!(order[0], start);
            assert!(is_permutation(&order, len), "len {}: {:?}", len, order);
        }
    }
}

#[test]
fn order_of_one_element_is_that_element() {
    assert_eq!(generate_order(1, None), vec![0]);
    assert_eq!(generate_order(1, Some(0)), vec![0]);
    assert_eq!(generate_order_seeded(1, Some(0), 7), vec![0]);
}

#[test]
fn order_of_two_with_start_is_fixed() {
    assert_eq!(generate_order(2, Some(1)), vec![1, 0]);
    assert_eq!(generate_order(2, Some(0)), vec![0, 1]);
}

#[test]
fn orders_are_shuffled() {
    let identity: Vec<usize> = (0..60).collect();
    let mut moved = false;
    for _ in 0..4 {
        if generate_order(60, None) != identity {
            moved = true;
        }
    }
    assert!(moved);
}

#[test]
fn seeded_orders_are_shuffled() {
    let identity: Vec<usize> = (0..60).collect();
    let mut moved = false;
    for seed in 0..4u64 {
        let order = generate_order_seeded(60, None, seed);
        assert!(is_permutation(&order, 60));
        if order != identity {
            moved = true;
        }
    }
    assert!(moved);
}

#[test]
fn seeded_order_repeats_for_the_same_seed() {
    let first = generate_order_seeded(25, Some(3), 42);
    let second = generate_order_seeded(25, Some(3), 42);
    assert_eq!(first, second);
    assert_eq!(first[0], 3);
    assert!(is_permutation(&first, 25));
}

#[test]
fn seeded_orders_differ_between_seeds() {
    let mut distinct = false;
    let first = generate_order_seeded(40, None, 1);
    for seed in 2..6u64 {
        if generate_order_seeded(40, None, seed) != first {
            distinct = true;
        }
    }
    assert!(distinct);
}

#[test]
fn candidates_leave_the_start_out() {
    assert_eq!(candidate_indices(5, None), vec![0, 1, 2, 3, 4]);
    assert_eq!(candidate_indices(5, Some(0)), vec![1, 2, 3, 4]);
    assert_eq!(candidate_indices(5, Some(2)), vec![0, 1, 3, 4]);
    assert_eq!(candidate_indices(5, Some(4)), vec![0, 1, 2, 3]);
    assert_eq!(candidate_indices(1, Some(0)), Vec::<usize>::new());
    assert_eq!(candidate_indices(0, None), Vec::<usize>::new());
}

#[test]
fn pinned_start_comes_first() {
    assert_eq!(pin_start(vec![3, 0, 2], Some(1)), vec![1, 3, 0, 2]);
    assert_eq!(pin_start(vec![3, 0, 2, 1], None), vec![3, 0, 2, 1]);
    assert_eq!(pin_start(vec![], Some(0)), vec![0]);
    assert_eq!(pin_start(vec![], None), Vec::<usize>::new());
}
