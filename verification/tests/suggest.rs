use binbreak::bits::Bits;
use binbreak::suggest::{
    all_distinct, all_within, draw_row, pick_and_shuffle, position, push_if_new, top_up, MAX_DRAWS,
};

#[test]
fn position_finds_the_first_occurrence() {
    assert_eq!(position(&vec![4, 7, 9, 7], 7), Some(1));
    assert_eq!(position(&vec![4, 7, 9, 7], 4), Some(0));
    assert_eq!(position(&vec![4, 7, 9, 7], 9), Some(2));
    assert_eq!(position(&vec![4, 7, 9, 7], 8), None);
    assert_eq!(position(&vec![], 8), None);
}

#[test]
fn all_distinct_spots_a_repeated_value() {
    assert!(all_distinct(&vec![]));
    assert!(all_distinct(&vec![3]));
    assert!(all_distinct(&vec![3, 1, 2]));
    assert!(!all_distinct(&vec![3, 1, 3]));
    assert!(!all_distinct(&vec![1, 1]));
    assert!(!all_distinct(&vec![0, 5, 6, 7, 7]));
}

#[test]
fn all_within_checks_every_value() {
    assert!(all_within(&vec![], 0));
    assert!(all_within(&vec![0, 15, 3], 15));
    assert!(!all_within(&vec![0, 16, 3], 15));
    assert!(!all_within(&vec![1], 0));
}

#[test]
fn push_if_new_keeps_a_row_free_of_repeats() {
    let mut row = vec![5, 9];
    assert!(push_if_new(&mut row, 7));
    assert_eq!(row, vec![5, 9, 7]);
    assert!(!push_if_new(&mut row, 9));
    assert_eq!(row, vec![5, 9, 7]);
    assert!(!push_if_new(&mut row, 7));
    assert_eq!(row, vec![5, 9, 7]);
    let mut empty = vec![];
    assert!(push_if_new(&mut empty, 0));
    assert_eq!(empty, vec![0]);
}

#[test]
fn top_up_fills_with_the_smallest_missing_numbers() {
    let mut row = vec![1, 5];
    top_up(&mut row, 4);
    assert_eq!(row, vec![1, 5, 0, 2]);

    let mut row = vec![];
    top_up(&mut row, 3);
    assert_eq!(row, vec![0, 1, 2]);

    let mut row = vec![0, 1, 2];
    top_up(&mut row, 6);
    assert_eq!(row, vec![0, 1, 2, 3, 4, 5]);

    let mut row = vec![65535];
    top_up(&mut row, 6);
    assert_eq!(row, vec![65535, 0, 1, 2, 3, 4]);
}

#[test]
fn top_up_leaves_a_full_row_alone() {
    let mut row = vec![9, 8, 7];
    top_up(&mut row, 3);
    assert_eq!(row, vec![9, 8, 7]);
    let mut row = vec![];
    top_up(&mut row, 0);
    assert_eq!(row, Vec::<u32>::new());
}

fn check_row(bits: Bits, row: &[u32]) {
    assert_eq!(row.len(), bits.suggestion_count());
    for (i, a) in row.iter().enumerate() {
        assert!(*a <= bits.upper_bound());
        for b in &row[i + 1..] {
            assert_ne!(a, b);
        }
    }
}

#[test]
fn drawn_rows_are_valid() {
    let mut rng = rand::rng();
    for _ in 0..200 {
        check_row(Bits::Four, &draw_row(Bits::Four, &mut rng));
        check_row(Bits::Eight, &draw_row(Bits::Eight, &mut rng));
        check_row(Bits::Twelve, &draw_row(Bits::Twelve, &mut rng));
        check_row(Bits::Sixteen, &draw_row(Bits::Sixteen, &mut rng));
    }
}

#[test]
fn drawn_numbers_are_not_always_the_upper_bound() {
    // A generator that handed back the bound would give this row each time.
    let stuck = vec![65535, 0, 1, 2, 3, 4];
    let mut rng = rand::rng();
    let mut differ = false;
    for _ in 0..50 {
        if draw_row(Bits::Sixteen, &mut rng) != stuck {
            differ = true;
        }
    }
    assert!(differ);
    assert_eq!(MAX_DRAWS, 1024);
}

#[test]
fn pick_and_shuffle_keeps_the_numbers_and_picks_one_of_them() {
    let mut rng = rand::rng();
    for _ in 0..200 {
        let (row, picked) = pick_and_shuffle(vec![10, 20, 30, 40, 50, 60], &mut rng);
        let mut sorted = row.clone();
        sorted.sort();
        assert_eq!(sorted, vec![10, 20, 30, 40, 50, 60]);
        assert!(row.contains(&picked));
    }
}

#[test]
fn pick_and_shuffle_reorders_the_row() {
    let mut rng = rand::rng();
    let mut reordered = false;
    let mut picks = Vec::new();
    for _ in 0..200 {
        let (row, picked) = pick_and_shuffle(vec![10, 20, 30, 40, 50, 60], &mut rng);
        if row != vec![10, 20, 30, 40, 50, 60] {
            reordered = true;
        }
        if !picks.contains(&picked) {
            picks.push(picked);
        }
    }
    assert!(reordered);
    // Not always the last number, as a generator that handed back its bound would pick.
    assert!(picks.len() > 1);
}

#[test]
fn pick_and_shuffle_of_one_number_picks_it() {
    let mut rng = rand::rng();
    let (row, picked) = pick_and_shuffle(vec![7], &mut rng);
    assert_eq!(row, vec![7]);
    assert_eq!(picked, 7);
}
