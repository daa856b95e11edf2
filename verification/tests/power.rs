use num_integer::{Power, Power10};

#[test]
fn is_power_of_examples() {
    assert_eq!(100u32.is_power_of(&10), true);
    assert_eq!(4u32.is_power_of(&10), false);
    assert_eq!(1u32.is_power_of(&10), true);
    assert_eq!(0u32.is_power_of(&10), false);
    assert_eq!(243u8.is_power_of(&3), true);
    assert_eq!(244u8.is_power_of(&3), false);
    assert_eq!(255u8.is_power_of(&2), false);
    assert_eq!((1u64 << 63).is_power_of(&2), true);
    assert_eq!(u64::MAX.is_power_of(&2), false);
}

#[test]
fn log_examples() {
    assert_eq!(100u32.log(&10), 2);
    assert_eq!(4u32.log(&10), 0);
    assert_eq!(99u8.log(&10), 1);
    assert_eq!(u8::MAX.log(&2), 7);
    assert_eq!(u16::MAX.log(&2), 15);
    assert_eq!(u32::MAX.log(&2), 31);
    assert_eq!(u64::MAX.log(&2), 63);
    assert_eq!(u128::MAX.log(&2), 127);
    assert_eq!(u128::MAX.log(&10), 38);
    assert_eq!(80usize.log(&3), 3);
    assert_eq!(81usize.log(&3), 4);
    assert_eq!(7u64.log(&u64::MAX), 0);
    assert_eq!(u64::MAX.log(&u64::MAX), 1);
}

#[test]
fn checked_log_examples() {
    assert_eq!(100u32.checked_log(&10), Some(2));
    assert_eq!(4u32.checked_log(&10), Some(0));
    assert_eq!(0u32.checked_log(&10), None);
    assert_eq!(0u8.checked_log(&0), None);
    assert_eq!(1u128.checked_log(&2), Some(0));
}

#[test]
fn wrapping_next_power_of_examples() {
    assert_eq!(100u32.wrapping_next_power_of(&10), 100);
    assert_eq!(4u32.wrapping_next_power_of(&10), 10);
    assert_eq!(200u8.wrapping_next_power_of(&10), 0);
    assert_eq!(0u8.wrapping_next_power_of(&10), 1);
    assert_eq!(129u8.wrapping_next_power_of(&2), 0);
    assert_eq!(128u8.wrapping_next_power_of(&2), 128);
}

#[test]
fn checked_next_power_of_examples() {
    assert_eq!(100u32.checked_next_power_of(&10), Some(100));
    assert_eq!(4u32.checked_next_power_of(&10), Some(10));
    assert_eq!(200u8.checked_next_power_of(&10), None);
    assert_eq!(11u32.checked_next_power_of(&10), Some(100));
    assert_eq!(101u64.checked_next_power_of(&10), Some(1000));
    assert_eq!(0u16.checked_next_power_of(&7), Some(1));
    assert_eq!(1u16.checked_next_power_of(&7), Some(1));
    assert_eq!(2u16.checked_next_power_of(&7), Some(7));
    assert_eq!(8u16.checked_next_power_of(&7), Some(49));
    assert_eq!(16808u16.checked_next_power_of(&7), None);
    assert_eq!(0u8.checked_next_power_of(&0), Some(1));
    assert_eq!(1u8.checked_next_power_of(&1), Some(1));
    assert_eq!(
        (u128::MAX / 2).checked_next_power_of(&2),
        Some(1u128 << 127)
    );
    assert_eq!((u128::MAX / 2 + 2).checked_next_power_of(&2), None);
    assert_eq!(usize::MAX.checked_next_power_of(&2), None);
}

#[test]
fn next_power_of_examples() {
    assert_eq!(100u32.next_power_of(&10), 100);
    assert_eq!(4u32.next_power_of(&10), 10);
    assert_eq!(65u8.next_power_of(&2), 128);
}

fn least_power_not_below(v: u32, base: u32) -> u32 {
    let mut p: u32 = 1;
    while p < v {
        p *= base;
    }
    p
}

#[test]
fn powers_of_every_u8_in_small_bases() {
    for base in 2..=12u8 {
        for v in 0..=255u8 {
            let next = least_power_not_below(v as u32, base as u32);
            let fits = next <= 255;
            assert_eq!(v.checked_next_power_of(&base), if fits { Some(next as u8) } else { None });
            assert_eq!(v.wrapping_next_power_of(&base), if fits { next as u8 } else { 0 });
            assert_eq!(v.is_power_of(&base), v != 0 && next == v as u32);
            if v == 0 {
                assert_eq!(v.checked_log(&base), None);
            } else {
                let mut d: u32 = 0;
                let mut p: u32 = base as u32;
                while p <= v as u32 {
                    p *= base as u32;
                    d += 1;
                }
                assert_eq!(v.checked_log(&base), Some(d));
                assert_eq!(v.log(&base), d);
            }
        }
    }
}

#[test]
fn base_ten_agrees_with_the_tables() {
    for v in 0..=u16::MAX {
        assert_eq!(v.is_power_of(&10), v.is_power_of_ten());
        assert_eq!(v.checked_log(&10), v.checked_log10());
        assert_eq!(v.checked_next_power_of(&10), v.checked_next_power_of_ten());
        assert_eq!(v.wrapping_next_power_of(&10), v.wrapping_next_power_of_ten());
    }
}
