use atom_model::units::{integrate, NANOS_PER_SECOND, PICOS_PER_UNIT};

#[test]
fn unit_constants() {
    assert_eq!(NANOS_PER_SECOND, 1_000_000_000);
    assert_eq!(PICOS_PER_UNIT, 1_000_000_000_000);
}

#[test]
fn integrate_is_the_exact_product() {
    assert_eq!(integrate(0, 0), 0);
    assert_eq!(integrate(0, u64::MAX), 0);
    assert_eq!(integrate(u32::MAX, 0), 0);
    assert_eq!(integrate(1, 1), 1);
    assert_eq!(integrate(1500, 16_666_667), 25_000_000_500);
    assert_eq!(integrate(3, 7), 21);
}

#[test]
fn one_second_at_a_thousand_thousandths_is_one_unit() {
    assert_eq!(integrate(1000, NANOS_PER_SECOND), PICOS_PER_UNIT as u128);
}

#[test]
fn integrate_does_not_wrap_at_the_largest_inputs() {
    assert_eq!(integrate(u32::MAX, u64::MAX), 79_228_162_495_817_593_515_539_431_425);
    assert_eq!(integrate(u32::MAX, u64::MAX), u32::MAX as u128 * u64::MAX as u128);
    assert!(integrate(u32::MAX, u64::MAX) < 1u128 << 96);
}
