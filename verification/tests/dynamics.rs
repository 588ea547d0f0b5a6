use universal_axiom::{fibonacci_sequence, DynamicLayer};

#[test]
fn test_fibonacci_sequence_generation() {
    let sequence = fibonacci_sequence(12);
    let expected = vec![1, 1, 2, 3, 5, 8, 13, 21, 34, 55, 89, 144];
    assert_eq!(sequence, expected);
}

#[test]
fn test_fibonacci_at_n() {
    let dynamic1 = DynamicLayer::new(1);
    assert_eq!(dynamic1.fibonacci(), 1);

    let dynamic2 = DynamicLayer::new(2);
    assert_eq!(dynamic2.fibonacci(), 2);

    let dynamic3 = DynamicLayer::new(3);
    assert_eq!(dynamic3.fibonacci(), 3);

    let dynamic10 = DynamicLayer::new(10);
    assert_eq!(dynamic10.fibonacci(), 89);
}

#[test]
fn test_fibonacci_at_zero() {
    let dynamic = DynamicLayer::new(0);
    assert_eq!(dynamic.fibonacci(), 1);
}

#[test]
fn test_fibonacci_at_largest_supported_step() {
    let dynamic = DynamicLayer::new(92);
    assert_eq!(dynamic.fibonacci(), 12200160415121876738);
}

#[test]
fn test_fibonacci_sequence_empty() {
    let sequence = fibonacci_sequence(0);
    assert!(sequence.is_empty());
}

#[test]
fn test_fibonacci_sequence_single_term() {
    let sequence = fibonacci_sequence(1);
    assert_eq!(sequence, vec![1]);
}

#[test]
fn test_fibonacci_sequence_longest_supported() {
    let sequence = fibonacci_sequence(93);
    assert_eq!(sequence.len(), 93);
    assert_eq!(sequence[92], 12200160415121876738);
}

#[test]
fn test_new_keeps_step_index() {
    let dynamic = DynamicLayer::new(17);
    assert_eq!(dynamic.n, 17);
}
