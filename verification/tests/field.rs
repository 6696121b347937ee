use p3_baby_bear::BabyBear;
use p3_field::{AbstractField, PrimeField32};
use select_chip::field::{Felt, MODULUS};

const SAMPLES: [u32; 12] =
    [0, 1, 2, 3, 5, 1000, 65535, 65536, 1006632960, 2013265919, 2013265920, 123456789];

fn bb(n: u32) -> BabyBear {
    BabyBear::from_canonical_u32(n)
}

#[test]
fn modulus_is_the_baby_bear_prime() {
    assert_eq!(MODULUS, (1u32 << 31) - (1u32 << 27) + 1);
    assert_eq!(MODULUS, BabyBear::ORDER_U32);
}

#[test]
fn constants() {
    assert_eq!(Felt::zero().as_canonical_u32(), 0);
    assert_eq!(Felt::one().as_canonical_u32(), 1);
    assert_eq!(Felt::from_bool(false), Felt::zero());
    assert_eq!(Felt::from_bool(true), Felt::one());
    assert_ne!(Felt::zero(), Felt::one());
}

#[test]
fn canonical_round_trip() {
    for n in SAMPLES {
        assert_eq!(Felt::from_canonical_u32(n).as_canonical_u32(), n);
    }
}

#[test]
fn wrapped_values_reduce() {
    assert_eq!(Felt::from_wrapped_u32(MODULUS), Felt::zero());
    assert_eq!(Felt::from_wrapped_u32(MODULUS + 1), Felt::one());
    assert_eq!(Felt::from_wrapped_u32(u32::MAX).as_canonical_u32(), u32::MAX - 2 * MODULUS);
    assert_eq!(Felt::from_wrapped_u32(7), Felt::from_canonical_u32(7));
    for n in [MODULUS, MODULUS + 5, u32::MAX, 4026531841] {
        assert_eq!(
            Felt::from_wrapped_u32(n).as_canonical_u32(),
            BabyBear::from_wrapped_u32(n).as_canonical_u32()
        );
    }
}

#[test]
fn exact_sums_differences_and_products() {
    let f = Felt::from_canonical_u32;
    assert_eq!(f(3).add(f(5)), f(8));
    assert_eq!(f(2013265920).add(f(1)), f(0));
    assert_eq!(f(2013265920).add(f(2013265920)), f(2013265919));
    assert_eq!(f(5).sub(f(3)), f(2));
    assert_eq!(f(3).sub(f(5)), f(2013265919));
    assert_eq!(f(0).sub(f(1)), f(2013265920));
    assert_eq!(f(3).mul(f(5)), f(15));
    assert_eq!(f(2013265920).mul(f(2013265920)), f(1));
    assert_eq!(f(65536).mul(f(65536)), f(268435454));
    assert_eq!(f(0).mul(f(123456789)), f(0));
}

#[test]
fn arithmetic_agrees_with_baby_bear() {
    for a in SAMPLES {
        for b in SAMPLES {
            let (x, y) = (Felt::from_canonical_u32(a), Felt::from_canonical_u32(b));
            assert_eq!(x.add(y).as_canonical_u32(), (bb(a) + bb(b)).as_canonical_u32());
            assert_eq!(x.sub(y).as_canonical_u32(), (bb(a) - bb(b)).as_canonical_u32());
            assert_eq!(x.mul(y).as_canonical_u32(), (bb(a) * bb(b)).as_canonical_u32());
        }
    }
}

#[test]
fn zero_and_one_are_neutral() {
    for a in SAMPLES {
        let x = Felt::from_canonical_u32(a);
        assert_eq!(x.add(Felt::zero()), x);
        assert_eq!(Felt::zero().add(x), x);
        assert_eq!(x.mul(Felt::one()), x);
        assert_eq!(Felt::one().mul(x), x);
        assert_eq!(x.mul(Felt::zero()), Felt::zero());
        assert_eq!(x.sub(x), Felt::zero());
    }
    assert_eq!(Felt::one().sub(Felt::one()), Felt::zero());
    assert_eq!(Felt::one().sub(Felt::zero()), Felt::one());
}
