use timeline_view::logical_index;

#[test]
fn forward_mapping_is_identity() {
    for i in 0..5 {
        assert_eq!(logical_index(i, 5, false), i);
    }
}

#[test]
fn reversed_three_items_maps_ends() {
    // Display position 0 shows the last logical item and position 2 the first.
    assert_eq!(logical_index(0, 3, true), 2);
    assert_eq!(logical_index(1, 3, true), 1);
    assert_eq!(logical_index(2, 3, true), 0);
}

#[test]
fn reversed_mapping_is_an_involution() {
    let n = 17;
    for s in 0..n {
        let ind = logical_index(s, n, true);
        assert!(ind < n);
        assert_eq!(logical_index(ind, n, true), s);
    }
}

#[test]
fn mapping_is_injective_both_ways() {
    let n = 9;
    for reversed in [false, true] {
        let mut seen = vec![false; n];
        for s in 0..n {
            let ind = logical_index(s, n, reversed);
            assert!(!seen[ind]);
            seen[ind] = true;
        }
        assert!(seen.iter().all(|&b| b));
    }
}

#[test]
fn single_item_maps_to_itself() {
    assert_eq!(logical_index(0, 1, false), 0);
    assert_eq!(logical_index(0, 1, true), 0);
}
