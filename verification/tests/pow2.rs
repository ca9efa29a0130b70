use wgpu_rendering::pow2::next_power_of_two;

#[test]
fn next_power_of_two_exact_values() {
    assert_eq!(next_power_of_two(0), 1);
    assert_eq!(next_power_of_two(1), 1);
    assert_eq!(next_power_of_two(2), 2);
    assert_eq!(next_power_of_two(3), 4);
    assert_eq!(next_power_of_two(4), 4);
    assert_eq!(next_power_of_two(5), 8);
    assert_eq!(next_power_of_two(10), 16);
    assert_eq!(next_power_of_two(16), 16);
    assert_eq!(next_power_of_two(17), 32);
    assert_eq!(next_power_of_two(1 << 40), 1 << 40);
    assert_eq!(next_power_of_two((1 << 40) + 1), 1 << 41);
}

#[test]
fn next_power_of_two_matches_std() {
    for n in 0u64..200 {
        assert_eq!(next_power_of_two(n), n.next_power_of_two());
    }
}
