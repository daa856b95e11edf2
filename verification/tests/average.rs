use num_integer::{average_ceil, average_floor, Average};

#[test]
fn average_ceil_examples() {
    assert_eq!((3).average_ceil(&10), 7);
    assert_eq!((-2).average_ceil(&-5), -3);
    assert_eq!((4).average_ceil(&4), 4);
    assert_eq!(u8::max_value().average_ceil(&2), 129);
}

#[test]
fn average_floor_examples() {
    assert_eq!((3).average_floor(&10), 6);
    assert_eq!((-2).average_floor(&-5), -4);
    assert_eq!((4).average_floor(&4), 4);
    assert_eq!(u8::max_value().average_floor(&2), 128);
}

#[test]
fn average_free_functions() {
    assert_eq!(average_floor(&3u32, &10u32), 6);
    assert_eq!(average_ceil(&3u32, &10u32), 7);
    assert_eq!(average_floor(&-7i64, &2i64), -3);
    assert_eq!(average_ceil(&-7i64, &2i64), -2);
}

#[test]
fn average_at_the_ends_of_the_range() {
    assert_eq!(u8::MAX.average_floor(&u8::MAX), u8::MAX);
    assert_eq!(u16::MAX.average_ceil(&u16::MAX), u16::MAX);
    assert_eq!(u32::MAX.average_floor(&(u32::MAX - 1)), u32::MAX - 1);
    assert_eq!(u32::MAX.average_ceil(&(u32::MAX - 1)), u32::MAX);
    assert_eq!(u64::MAX.average_floor(&0), u64::MAX / 2);
    assert_eq!(u64::MAX.average_ceil(&0), u64::MAX / 2 + 1);
    assert_eq!(u128::MAX.average_floor(&0), u128::MAX / 2);
    assert_eq!(u128::MAX.average_ceil(&1), u128::MAX / 2 + 1);
    assert_eq!(usize::MAX.average_floor(&usize::MAX), usize::MAX);
    assert_eq!(i8::MIN.average_floor(&i8::MAX), -1);
    assert_eq!(i8::MIN.average_ceil(&i8::MAX), 0);
    assert_eq!(i16::MIN.average_floor(&i16::MIN), i16::MIN);
    assert_eq!(i32::MIN.average_ceil(&i32::MIN), i32::MIN);
    assert_eq!(i64::MAX.average_floor(&i64::MAX), i64::MAX);
    assert_eq!(i64::MIN.average_floor(&i64::MAX), -1);
    assert_eq!(i128::MIN.average_ceil(&i128::MAX), 0);
    assert_eq!(i128::MIN.average_floor(&(i128::MIN + 1)), i128::MIN);
    assert_eq!(isize::MIN.average_ceil(&(isize::MIN + 1)), isize::MIN + 1);
}

#[test]
fn average_of_every_pair_of_u8() {
    for a in 0..=255u8 {
        for b in 0..=255u8 {
            let sum = a as u32 + b as u32;
            assert_eq!(a.average_floor(&b) as u32, sum / 2);
            assert_eq!(a.average_ceil(&b) as u32, (sum + 1) / 2);
        }
    }
}

#[test]
fn average_of_every_pair_of_i8() {
    for a in -128..=127i8 {
        for b in -128..=127i8 {
            let sum = a as i32 + b as i32;
            assert_eq!(a.average_floor(&b) as i32, sum.div_euclid(2));
            assert_eq!(a.average_ceil(&b) as i32, (sum + 1).div_euclid(2));
        }
    }
}

#[test]
fn average_lies_between_its_arguments() {
    let samples: [i64; 9] = [i64::MIN, i64::MIN + 1, -1_000_003, -2, 0, 1, 77, i64::MAX - 1, i64::MAX];
    for &a in samples.iter() {
        for &b in samples.iter() {
            let lo = if a < b { a } else { b };
            let hi = if a < b { b } else { a };
            let f = a.average_floor(&b);
            let c = a.average_ceil(&b);
            assert!(lo <= f && f <= c && c <= hi);
            assert!(c - f <= 1);
            assert_eq!(f, b.average_floor(&a));
            assert_eq!(c, b.average_ceil(&a));
        }
    }
}
