use telemetry_sampler::quantity::{BYTES_PER_KIB, KIB_PER_GIB};
use telemetry_sampler::{KiB_to_GiB, Quotient};

fn as_float(q: Quotient) -> f64 {
    q.num as f64 / q.den as f64
}

#[test]
fn kib_to_gib_round_trip() {
    let gib = KiB_to_GiB(Quotient::whole(1024 * 1024)).unwrap();
    assert!(gib.equals_whole(1));
    assert_eq!(as_float(gib), 1.0);
    assert_eq!(gib, Quotient { num: 1024 * 1024, den: 1024 * 1024 });
}

#[test]
fn kib_to_gib_divides_by_1024_squared() {
    let gib = KiB_to_GiB(Quotient::whole(524_288)).unwrap();
    assert_eq!(as_float(gib), 0.5);
    assert!(!gib.equals_whole(0));
    assert!(!gib.equals_whole(1));
    let gib = KiB_to_GiB(Quotient { num: 8_589_934_592, den: 1024 }).unwrap();
    assert_eq!(gib, Quotient { num: 8_589_934_592, den: 1_073_741_824 });
    assert!(gib.equals_whole(8));
    assert_eq!(KiB_to_GiB(Quotient::whole(0)).unwrap(), Quotient { num: 0, den: 1_048_576 });
}

#[test]
fn kib_to_gib_is_none_when_the_divisor_does_not_fit() {
    let largest = u64::MAX / KIB_PER_GIB;
    assert_eq!(
        KiB_to_GiB(Quotient { num: 1, den: largest }),
        Some(Quotient { num: 1, den: largest * KIB_PER_GIB })
    );
    assert_eq!(KiB_to_GiB(Quotient { num: 1, den: largest + 1 }), None);
    assert_eq!(KiB_to_GiB(Quotient { num: 1, den: u64::MAX }), None);
}

#[test]
fn units_are_powers_of_1024() {
    assert_eq!(BYTES_PER_KIB, 1024);
    assert_eq!(KIB_PER_GIB, 1024 * 1024);
}

#[test]
fn quotient_new_refuses_a_zero_divisor() {
    assert_eq!(Quotient::new(5, 0), None);
    assert_eq!(Quotient::new(0, 0), None);
    assert_eq!(Quotient::new(5, 2), Some(Quotient { num: 5, den: 2 }));
    assert_eq!(Quotient::whole(7), Quotient { num: 7, den: 1 });
}

#[test]
fn equals_whole_compares_exactly() {
    assert!(Quotient { num: 6, den: 3 }.equals_whole(2));
    assert!(!Quotient { num: 7, den: 3 }.equals_whole(2));
    assert!(Quotient { num: 0, den: 9 }.equals_whole(0));
    let big = Quotient { num: u64::MAX as u128 * u64::MAX as u128, den: u64::MAX };
    assert!(big.equals_whole(u64::MAX));
    assert!(!Quotient { num: u128::MAX, den: u64::MAX }.equals_whole(u64::MAX));
}
