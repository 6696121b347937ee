use select_chip::sizing::{checked_next_power_of_two, next_power_of_two};

#[test]
fn least_power_of_two_at_the_named_counts() {
    assert_eq!(next_power_of_two(0, None), 1);
    assert_eq!(next_power_of_two(1, None), 1);
    assert_eq!(next_power_of_two(2, None), 2);
    assert_eq!(next_power_of_two(1000, None), 1024);
    assert_eq!(next_power_of_two(1023, None), 1024);
    assert_eq!(next_power_of_two(1024, None), 1024);
    assert_eq!(next_power_of_two(1025, None), 2048);
}

#[test]
fn least_power_of_two_agrees_with_std() {
    for n in 0usize..5000 {
        assert_eq!(next_power_of_two(n, None), n.next_power_of_two());
    }
    assert_eq!(next_power_of_two(1 << 40, None), 1 << 40);
    assert_eq!(next_power_of_two((1 << 40) + 1, None), 1 << 41);
    assert_eq!(next_power_of_two(1 << (usize::BITS - 1), None), 1 << (usize::BITS - 1));
}

#[test]
fn fixed_size_is_two_to_the_power() {
    for n in [0usize, 1, 2, 1000, 1023, 1024, 1025] {
        assert_eq!(next_power_of_two(n, Some(0)), 1);
        assert_eq!(next_power_of_two(n, Some(1)), 2);
        assert_eq!(next_power_of_two(n, Some(10)), 1024);
        assert_eq!(next_power_of_two(n, Some(16)), 65536);
    }
    assert_eq!(next_power_of_two(3, Some((usize::BITS - 1) as usize)), 1 << (usize::BITS - 1));
}

#[test]
fn checked_sizing_refuses_what_does_not_fit() {
    let top = (usize::BITS - 1) as usize;
    assert_eq!(checked_next_power_of_two(0, None), Some(1));
    assert_eq!(checked_next_power_of_two(1000, None), Some(1024));
    assert_eq!(checked_next_power_of_two(1 << top, None), Some(1 << top));
    assert_eq!(checked_next_power_of_two((1 << top) + 1, None), None);
    assert_eq!(checked_next_power_of_two(usize::MAX, None), None);
    assert_eq!(checked_next_power_of_two(5, Some(3)), Some(8));
    assert_eq!(checked_next_power_of_two(5, Some(0)), Some(1));
    assert_eq!(checked_next_power_of_two(5, Some(top)), Some(1 << top));
    assert_eq!(checked_next_power_of_two(5, Some(top + 1)), None);
    assert_eq!(checked_next_power_of_two(5, Some(usize::MAX)), None);
}
