use num_integer::{
    checked_log10, checked_next_power_of_ten, is_power_of_ten, log10, next_power_of_ten,
    wrapping_next_power_of_ten, Power10,
};

fn log10_by_float(x: f64) -> u32 {
    x.log10().floor() as u32
}

#[test]
fn test_is_pow_10_u8() {
    assert_eq!((0 as u8).is_power_of_ten(), false);
    assert_eq!(<u8>::max_value().is_power_of_ten(), false);
    let mut x: u8 = 1;
    let end: u8 = <u8>::max_value() / 10;
    while x < end {
        assert_eq!(is_power_of_ten(x), true);
        assert_eq!((x - 1).is_power_of_ten(), false);
        assert_eq!((x + 1).is_power_of_ten(), false);
        x *= 10;
    }
    assert_eq!(x.is_power_of_ten(), true);
    assert_eq!((x - 1).is_power_of_ten(), false);
    assert_eq!((x + 1).is_power_of_ten(), false);
}

#[test]
fn test_floor_log10_u8() {
    assert_eq!((0 as u8).checked_log10(), None);
    assert_eq!(log10_by_float(<u8>::max_value() as f64), <u8>::max_value().log10());
    assert_eq!(log10_by_float((<u8>::max_value() - 1) as f64), (<u8>::max_value() - 1).log10());
    assert_eq!(log10_by_float((<u8>::max_value() - 2) as f64), (<u8>::max_value() - 2).log10());
    let mut x: u8 = 1;
    let mut count: u32 = 0;
    let end: u8 = <u8>::max_value() / 10;
    while x < end {
        assert_eq!(log10(x), count);
        assert_eq!(checked_log10(x), Some(count));
        if x > 1 {
            assert_eq!((x - 1).log10(), count - 1);
        }
        assert_eq!((x + 1).log10(), count);
        x *= 10;
        count += 1;
    }
    assert_eq!(x.log10(), count);
    assert_eq!((x - 1).log10(), count - 1);
    assert_eq!((x + 1).log10(), count);

    // powers of 2
    x = 1;
    while x != 0 {
        assert_eq!(log10_by_float(x as f64), x.log10());
        assert_eq!(log10_by_float((x + 1) as f64), (x + 1).log10());
        if x > 1 {
            assert_eq!(log10_by_float((x - 1) as f64), (x - 1).log10());
        }
        x <<= 1;
    }
}

#[test]
fn test_wrap_next_power_10_u8() {
    assert_eq!((0 as u8).wrapping_next_power_of_ten(), 1);
    assert_eq!(<u8>::max_value().wrapping_next_power_of_ten(), 0);
    assert_eq!((<u8>::max_value() - 1).wrapping_next_power_of_ten(), 0, "max - 1");
    assert_eq!((<u8>::max_value() - 2).wrapping_next_power_of_ten(), 0, "max - 2");
    let mut x: u8 = 1;
    let end: u8 = <u8>::max_value() / 10;
    while x < end {
        assert_eq!(wrapping_next_power_of_ten(x), x);
        if x > 1 {
            assert_eq!((x - 1).wrapping_next_power_of_ten(), x);
        }
        assert_eq!((x + 1).wrapping_next_power_of_ten(), x * 10);
        x *= 10;
    }
    assert_eq!(x.wrapping_next_power_of_ten(), x);
    assert_eq!((x - 1).wrapping_next_power_of_ten(), x);
    assert_eq!((x + 1).wrapping_next_power_of_ten(), 0);

    // powers of 2
    x = 4;
    let mut pow10: u8 = 10;
    while x != 0 {
        assert_eq!(x.wrapping_next_power_of_ten(), pow10);
        assert_eq!((x + 1).wrapping_next_power_of_ten(), pow10);
        assert_eq!((x - 1).wrapping_next_power_of_ten(), pow10);
        x <<= 1;
        if x > pow10 {
            if pow10 > end {
                pow10 = 0;
            } else {
                pow10 *= 10;
            }
        }
    }
}

#[test]
fn test_next_power_10_u8() {
    assert_eq!((0 as u8).next_power_of_ten(), 1);
    let mut x: u8 = 1;
    let end: u8 = <u8>::max_value() / 10;
    while x < end {
        assert_eq!(next_power_of_ten(x), x);
        assert_eq!((x + 1).next_power_of_ten(), x * 10);
        x *= 10;
    }
    assert_eq!(x.next_power_of_ten(), x);
    assert_eq!((x - 1).next_power_of_ten(), x);
}

#[test]
fn test_checked_next_power_10_u8() {
    assert_eq!((0 as u8).checked_next_power_of_ten(), Some(1));
    assert_eq!(<u8>::max_value().checked_next_power_of_ten(), None);
    assert_eq!((<u8>::max_value() - 1).checked_next_power_of_ten(), None);
    assert_eq!((<u8>::max_value() - 2).checked_next_power_of_ten(), None);
    let mut x: u8 = 1;
    let end: u8 = <u8>::max_value() / 10;
    while x < end {
        assert_eq!(checked_next_power_of_ten(x), Some(x));
        if x > 1 {
            assert_eq!((x - 1).checked_next_power_of_ten(), Some(x));
        }
        assert_eq!((x + 1).checked_next_power_of_ten(), Some(x * 10));
        x *= 10;
    }
    assert_eq!(x.checked_next_power_of_ten(), Some(x));
    assert_eq!((x - 1).checked_next_power_of_ten(), Some(x));
    assert_eq!((x + 1).checked_next_power_of_ten(), None);

    // powers of 2
    x = 4;
    let mut pow10: u8 = 10;
    while x != 0 {
        let c = if pow10 == 0 { None } else { Some(pow10) };
        assert_eq!(x.checked_next_power_of_ten(), c);
        assert_eq!((x + 1).checked_next_power_of_ten(), c);
        assert_eq!((x - 1).checked_next_power_of_ten(), c);
        x <<= 1;
        if x > pow10 {
            if pow10 > end {
                pow10 = 0;
            } else {
                pow10 *= 10;
            }
        }
    }
}

#[test]
fn test_is_pow_10_u16() {
    assert_eq!((0 as u16).is_power_of_ten(), false);
    assert_eq!(<u16>::max_value().is_power_of_ten(), false);
    let mut x: u16 = 1;
    let end: u16 = <u16>::max_value() / 10;
    while x < end {
        assert_eq!(is_power_of_ten(x), true);
        assert_eq!((x - 1).is_power_of_ten(), false);
        assert_eq!((x + 1).is_power_of_ten(), false);
        x *= 10;
    }
    assert_eq!(x.is_power_of_ten(), true);
    assert_eq!((x - 1).is_power_of_ten(), false);
    assert_eq!((x + 1).is_power_of_ten(), false);
}

#[test]
fn test_floor_log10_u16() {
    assert_eq!((0 as u16).checked_log10(), None);
    assert_eq!(log10_by_float(<u16>::max_value() as f64), <u16>::max_value().log10());
    assert_eq!(log10_by_float((<u16>::max_value() - 1) as f64), (<u16>::max_value() - 1).log10());
    assert_eq!(log10_by_float((<u16>::max_value() - 2) as f64), (<u16>::max_value() - 2).log10());
    let mut x: u16 = 1;
    let mut count: u32 = 0;
    let end: u16 = <u16>::max_value() / 10;
    while x < end {
        assert_eq!(log10(x), count);
        assert_eq!(checked_log10(x), Some(count));
        if x > 1 {
            assert_eq!((x - 1).log10(), count - 1);
        }
        assert_eq!((x + 1).log10(), count);
        x *= 10;
        count += 1;
    }
    assert_eq!(x.log10(), count);
    assert_eq!((x - 1).log10(), count - 1);
    assert_eq!((x + 1).log10(), count);

    // powers of 2
    x = 1;
    while x != 0 {
        assert_eq!(log10_by_float(x as f64), x.log10());
        assert_eq!(log10_by_float((x + 1) as f64), (x + 1).log10());
        if x > 1 {
            assert_eq!(log10_by_float((x - 1) as f64), (x - 1).log10());
        }
        x <<= 1;
    }
}

#[test]
fn test_wrap_next_power_10_u16() {
    assert_eq!((0 as u16).wrapping_next_power_of_ten(), 1);
    assert_eq!(<u16>::max_value().wrapping_next_power_of_ten(), 0);
    assert_eq!((<u16>::max_value() - 1).wrapping_next_power_of_ten(), 0, "max - 1");
    assert_eq!((<u16>::max_value() - 2).wrapping_next_power_of_ten(), 0, "max - 2");
    let mut x: u16 = 1;
    let end: u16 = <u16>::max_value() / 10;
    while x < end {
        assert_eq!(wrapping_next_power_of_ten(x), x);
        if x > 1 {
            assert_eq!((x - 1).wrapping_next_power_of_ten(), x);
        }
        assert_eq!((x + 1).wrapping_next_power_of_ten(), x * 10);
        x *= 10;
    }
    assert_eq!(x.wrapping_next_power_of_ten(), x);
    assert_eq!((x - 1).wrapping_next_power_of_ten(), x);
    assert_eq!((x + 1).wrapping_next_power_of_ten(), 0);

    // powers of 2
    x = 4;
    let mut pow10: u16 = 10;
    while x != 0 {
        assert_eq!(x.wrapping_next_power_of_ten(), pow10);
        assert_eq!((x + 1).wrapping_next_power_of_ten(), pow10);
        assert_eq!((x - 1).wrapping_next_power_of_ten(), pow10);
        x <<= 1;
        if x > pow10 {
            if pow10 > end {
                pow10 = 0;
            } else {
                pow10 *= 10;
            }
        }
    }
}

#[test]
fn test_next_power_10_u16() {
    assert_eq!((0 as u16).next_power_of_ten(), 1);
    let mut x: u16 = 1;
    let end: u16 = <u16>::max_value() / 10;
    while x < end {
        assert_eq!(next_power_of_ten(x), x);
        assert_eq!((x + 1).next_power_of_ten(), x * 10);
        x *= 10;
    }
    assert_eq!(x.next_power_of_ten(), x);
    assert_eq!((x - 1).next_power_of_ten(), x);
}

#[test]
fn test_checked_next_power_10_u16() {
    assert_eq!((0 as u16).checked_next_power_of_ten(), Some(1));
    assert_eq!(<u16>::max_value().checked_next_power_of_ten(), None);
    assert_eq!((<u16>::max_value() - 1).checked_next_power_of_ten(), None);
    assert_eq!((<u16>::max_value() - 2).checked_next_power_of_ten(), None);
    let mut x: u16 = 1;
    let end: u16 = <u16>::max_value() / 10;
    while x < end {
        assert_eq!(checked_next_power_of_ten(x), Some(x));
        if x > 1 {
            assert_eq!((x - 1).checked_next_power_of_ten(), Some(x));
        }
        assert_eq!((x + 1).checked_next_power_of_ten(), Some(x * 10));
        x *= 10;
    }
    assert_eq!(x.checked_next_power_of_ten(), Some(x));
    assert_eq!((x - 1).checked_next_power_of_ten(), Some(x));
    assert_eq!((x + 1).checked_next_power_of_ten(), None);

    // powers of 2
    x = 4;
    let mut pow10: u16 = 10;
    while x != 0 {
        let c = if pow10 == 0 { None } else { Some(pow10) };
        assert_eq!(x.checked_next_power_of_ten(), c);
        assert_eq!((x + 1).checked_next_power_of_ten(), c);
        assert_eq!((x - 1).checked_next_power_of_ten(), c);
        x <<= 1;
        if x > pow10 {
            if pow10 > end {
                pow10 = 0;
            } else {
                pow10 *= 10;
            }
        }
    }
}

#[test]
fn test_is_pow_10_u32() {
    assert_eq!((0 as u32).is_power_of_ten(), false);
    assert_eq!(<u32>::max_value().is_power_of_ten(), false);
    let mut x: u32 = 1;
    let end: u32 = <u32>::max_value() / 10;
    while x < end {
        assert_eq!(is_power_of_ten(x), true);
        assert_eq!((x - 1).is_power_of_ten(), false);
        assert_eq!((x + 1).is_power_of_ten(), false);
        x *= 10;
    }
    assert_eq!(x.is_power_of_ten(), true);
    assert_eq!((x - 1).is_power_of_ten(), false);
    assert_eq!((x + 1).is_power_of_ten(), false);
}

#[test]
fn test_floor_log10_u32() {
    assert_eq!((0 as u32).checked_log10(), None);
    assert_eq!(log10_by_float(<u32>::max_value() as f64), <u32>::max_value().log10());
    assert_eq!(log10_by_float((<u32>::max_value() - 1) as f64), (<u32>::max_value() - 1).log10());
    assert_eq!(log10_by_float((<u32>::max_value() - 2) as f64), (<u32>::max_value() - 2).log10());
    let mut x: u32 = 1;
    let mut count: u32 = 0;
    let end: u32 = <u32>::max_value() / 10;
    while x < end {
        assert_eq!(log10(x), count);
        assert_eq!(checked_log10(x), Some(count));
        if x > 1 {
            assert_eq!((x - 1).log10(), count - 1);
        }
        assert_eq!((x + 1).log10(), count);
        x *= 10;
        count += 1;
    }
    assert_eq!(x.log10(), count);
    assert_eq!((x - 1).log10(), count - 1);
    assert_eq!((x + 1).log10(), count);

    // powers of 2
    x = 1;
    while x != 0 {
        assert_eq!(log10_by_float(x as f64), x.log10());
        assert_eq!(log10_by_float((x + 1) as f64), (x + 1).log10());
        if x > 1 {
            assert_eq!(log10_by_float((x - 1) as f64), (x - 1).log10());
        }
        x <<= 1;
    }
}

#[test]
fn test_wrap_next_power_10_u32() {
    assert_eq!((0 as u32).wrapping_next_power_of_ten(), 1);
    assert_eq!(<u32>::max_value().wrapping_next_power_of_ten(), 0);
    assert_eq!((<u32>::max_value() - 1).wrapping_next_power_of_ten(), 0, "max - 1");
    assert_eq!((<u32>::max_value() - 2).wrapping_next_power_of_ten(), 0, "max - 2");
    let mut x: u32 = 1;
    let end: u32 = <u32>::max_value() / 10;
    while x < end {
        assert_eq!(wrapping_next_power_of_ten(x), x);
        if x > 1 {
            assert_eq!((x - 1).wrapping_next_power_of_ten(), x);
        }
        assert_eq!((x + 1).wrapping_next_power_of_ten(), x * 10);
        x *= 10;
    }
    assert_eq!(x.wrapping_next_power_of_ten(), x);
    assert_eq!((x - 1).wrapping_next_power_of_ten(), x);
    assert_eq!((x + 1).wrapping_next_power_of_ten(), 0);

    // powers of 2
    x = 4;
    let mut pow10: u32 = 10;
    while x != 0 {
        assert_eq!(x.wrapping_next_power_of_ten(), pow10);
        assert_eq!((x + 1).wrapping_next_power_of_ten(), pow10);
        assert_eq!((x - 1).wrapping_next_power_of_ten(), pow10);
        x <<= 1;
        if x > pow10 {
            if pow10 > end {
                pow10 = 0;
            } else {
                pow10 *= 10;
            }
        }
    }
}

#[test]
fn test_next_power_10_u32() {
    assert_eq!((0 as u32).next_power_of_ten(), 1);
    let mut x: u32 = 1;
    let end: u32 = <u32>::max_value() / 10;
    while x < end {
        assert_eq!(next_power_of_ten(x), x);
        assert_eq!((x + 1).next_power_of_ten(), x * 10);
        x *= 10;
    }
    assert_eq!(x.next_power_of_ten(), x);
    assert_eq!((x - 1).next_power_of_ten(), x);
}

#[test]
fn test_checked_next_power_10_u32() {
    assert_eq!((0 as u32).checked_next_power_of_ten(), Some(1));
    assert_eq!(<u32>::max_value().checked_next_power_of_ten(), None);
    assert_eq!((<u32>::max_value() - 1).checked_next_power_of_ten(), None);
    assert_eq!((<u32>::max_value() - 2).checked_next_power_of_ten(), None);
    let mut x: u32 = 1;
    let end: u32 = <u32>::max_value() / 10;
    while x < end {
        assert_eq!(checked_next_power_of_ten(x), Some(x));
        if x > 1 {
            assert_eq!((x - 1).checked_next_power_of_ten(), Some(x));
        }
        assert_eq!((x + 1).checked_next_power_of_ten(), Some(x * 10));
        x *= 10;
    }
    assert_eq!(x.checked_next_power_of_ten(), Some(x));
    assert_eq!((x - 1).checked_next_power_of_ten(), Some(x));
    assert_eq!((x + 1).checked_next_power_of_ten(), None);

    // powers of 2
    x = 4;
    let mut pow10: u32 = 10;
    while x != 0 {
        let c = if pow10 == 0 { None } else { Some(pow10) };
        assert_eq!(x.checked_next_power_of_ten(), c);
        assert_eq!((x + 1).checked_next_power_of_ten(), c);
        assert_eq!((x - 1).checked_next_power_of_ten(), c);
        x <<= 1;
        if x > pow10 {
            if pow10 > end {
                pow10 = 0;
            } else {
                pow10 *= 10;
            }
        }
    }
}

#[test]
fn test_is_pow_10_u64() {
    assert_eq!((0 as u64).is_power_of_ten(), false);
    assert_eq!(<u64>::max_value().is_power_of_ten(), false);
    let mut x: u64 = 1;
    let end: u64 = <u64>::max_value() / 10;
    while x < end {
        assert_eq!(is_power_of_ten(x), true);
        assert_eq!((x - 1).is_power_of_ten(), false);
        assert_eq!((x + 1).is_power_of_ten(), false);
        x *= 10;
    }
    assert_eq!(x.is_power_of_ten(), true);
    assert_eq!((x - 1).is_power_of_ten(), false);
    assert_eq!((x + 1).is_power_of_ten(), false);
}

#[test]
fn test_floor_log10_u64() {
    assert_eq!((0 as u64).checked_log10(), None);
    assert_eq!(log10_by_float(<u64>::max_value() as f64), <u64>::max_value().log10());
    assert_eq!(log10_by_float((<u64>::max_value() - 1) as f64), (<u64>::max_value() - 1).log10());
    assert_eq!(log10_by_float((<u64>::max_value() - 2) as f64), (<u64>::max_value() - 2).log10());
    let mut x: u64 = 1;
    let mut count: u32 = 0;
    let end: u64 = <u64>::max_value() / 10;
    while x < end {
        assert_eq!(log10(x), count);
        assert_eq!(checked_log10(x), Some(count));
        if x > 1 {
            assert_eq!((x - 1).log10(), count - 1);
        }
        assert_eq!((x + 1).log10(), count);
        x *= 10;
        count += 1;
    }
    assert_eq!(x.log10(), count);
    assert_eq!((x - 1).log10(), count - 1);
    assert_eq!((x + 1).log10(), count);

    // powers of 2
    x = 1;
    while x != 0 {
        assert_eq!(log10_by_float(x as f64), x.log10());
        assert_eq!(log10_by_float((x + 1) as f64), (x + 1).log10());
        if x > 1 {
            assert_eq!(log10_by_float((x - 1) as f64), (x - 1).log10());
        }
        x <<= 1;
    }
}

#[test]
fn test_wrap_next_power_10_u64() {
    assert_eq!((0 as u64).wrapping_next_power_of_ten(), 1);
    assert_eq!(<u64>::max_value().wrapping_next_power_of_ten(), 0);
    assert_eq!((<u64>::max_value() - 1).wrapping_next_power_of_ten(), 0, "max - 1");
    assert_eq!((<u64>::max_value() - 2).wrapping_next_power_of_ten(), 0, "max - 2");
    let mut x: u64 = 1;
    let end: u64 = <u64>::max_value() / 10;
    while x < end {
        assert_eq!(wrapping_next_power_of_ten(x), x);
        if x > 1 {
            assert_eq!((x - 1).wrapping_next_power_of_ten(), x);
        }
        assert_eq!((x + 1).wrapping_next_power_of_ten(), x * 10);
        x *= 10;
    }
    assert_eq!(x.wrapping_next_power_of_ten(), x);
    assert_eq!((x - 1).wrapping_next_power_of_ten(), x);
    assert_eq!((x + 1).wrapping_next_power_of_ten(), 0);

    // powers of 2
    x = 4;
    let mut pow10: u64 = 10;
    while x != 0 {
        assert_eq!(x.wrapping_next_power_of_ten(), pow10);
        assert_eq!((x + 1).wrapping_next_power_of_ten(), pow10);
        assert_eq!((x - 1).wrapping_next_power_of_ten(), pow10);
        x <<= 1;
        if x > pow10 {
            if pow10 > end {
                pow10 = 0;
            } else {
                pow10 *= 10;
            }
        }
    }
}

#[test]
fn test_next_power_10_u64() {
    assert_eq!((0 as u64).next_power_of_ten(), 1);
    let mut x: u64 = 1;
    let end: u64 = <u64>::max_value() / 10;
    while x < end {
        assert_eq!(next_power_of_ten(x), x);
        assert_eq!((x + 1).next_power_of_ten(), x * 10);
        x *= 10;
    }
    assert_eq!(x.next_power_of_ten(), x);
    assert_eq!((x - 1).next_power_of_ten(), x);
}

#[test]
fn test_checked_next_power_10_u64() {
    assert_eq!((0 as u64).checked_next_power_of_ten(), Some(1));
    assert_eq!(<u64>::max_value().checked_next_power_of_ten(), None);
    assert_eq!((<u64>::max_value() - 1).checked_next_power_of_ten(), None);
    assert_eq!((<u64>::max_value() - 2).checked_next_power_of_ten(), None);
    let mut x: u64 = 1;
    let end: u64 = <u64>::max_value() / 10;
    while x < end {
        assert_eq!(checked_next_power_of_ten(x), Some(x));
        if x > 1 {
            assert_eq!((x - 1).checked_next_power_of_ten(), Some(x));
        }
        assert_eq!((x + 1).checked_next_power_of_ten(), Some(x * 10));
        x *= 10;
    }
    assert_eq!(x.checked_next_power_of_ten(), Some(x));
    assert_eq!((x - 1).checked_next_power_of_ten(), Some(x));
    assert_eq!((x + 1).checked_next_power_of_ten(), None);

    // powers of 2
    x = 4;
    let mut pow10: u64 = 10;
    while x != 0 {
        let c = if pow10 == 0 { None } else { Some(pow10) };
        assert_eq!(x.checked_next_power_of_ten(), c);
        assert_eq!((x + 1).checked_next_power_of_ten(), c);
        assert_eq!((x - 1).checked_next_power_of_ten(), c);
        x <<= 1;
        if x > pow10 {
            if pow10 > end {
                pow10 = 0;
            } else {
                pow10 *= 10;
            }
        }
    }
}

#[test]
fn test_is_pow_10_u128() {
    assert_eq!((0 as u128).is_power_of_ten(), false);
    assert_eq!(<u128>::max_value().is_power_of_ten(), false);
    let mut x: u128 = 1;
    let end: u128 = <u128>::max_value() / 10;
    while x < end {
        assert_eq!(is_power_of_ten(x), true);
        assert_eq!((x - 1).is_power_of_ten(), false);
        assert_eq!((x + 1).is_power_of_ten(), false);
        x *= 10;
    }
    assert_eq!(x.is_power_of_ten(), true);
    assert_eq!((x - 1).is_power_of_ten(), false);
    assert_eq!((x + 1).is_power_of_ten(), false);
}

#[test]
fn test_floor_log10_u128() {
    assert_eq!((0 as u128).checked_log10(), None);
    assert_eq!(log10_by_float(<u128>::max_value() as f64), <u128>::max_value().log10());
    assert_eq!(log10_by_float((<u128>::max_value() - 1) as f64), (<u128>::max_value() - 1).log10());
    assert_eq!(log10_by_float((<u128>::max_value() - 2) as f64), (<u128>::max_value() - 2).log10());
    let mut x: u128 = 1;
    let mut count: u32 = 0;
    let end: u128 = <u128>::max_value() / 10;
    while x < end {
        assert_eq!(log10(x), count);
        assert_eq!(checked_log10(x), Some(count));
        if x > 1 {
            assert_eq!((x - 1).log10(), count - 1);
        }
        assert_eq!((x + 1).log10(), count);
        x *= 10;
        count += 1;
    }
    assert_eq!(x.log10(), count);
    assert_eq!((x - 1).log10(), count - 1);
    assert_eq!((x + 1).log10(), count);

    // powers of 2
    x = 1;
    while x != 0 {
        assert_eq!(log10_by_float(x as f64), x.log10());
        assert_eq!(log10_by_float((x + 1) as f64), (x + 1).log10());
        if x > 1 {
            assert_eq!(log10_by_float((x - 1) as f64), (x - 1).log10());
        }
        x <<= 1;
    }
}

#[test]
fn test_wrap_next_power_10_u128() {
    assert_eq!((0 as u128).wrapping_next_power_of_ten(), 1);
    assert_eq!(<u128>::max_value().wrapping_next_power_of_ten(), 0);
    assert_eq!((<u128>::max_value() - 1).wrapping_next_power_of_ten(), 0, "max - 1");
    assert_eq!((<u128>::max_value() - 2).wrapping_next_power_of_ten(), 0, "max - 2");
    let mut x: u128 = 1;
    let end: u128 = <u128>::max_value() / 10;
    while x < end {
        assert_eq!(wrapping_next_power_of_ten(x), x);
        if x > 1 {
            assert_eq!((x - 1).wrapping_next_power_of_ten(), x);
        }
        assert_eq!((x + 1).wrapping_next_power_of_ten(), x * 10);
        x *= 10;
    }
    assert_eq!(x.wrapping_next_power_of_ten(), x);
    assert_eq!((x - 1).wrapping_next_power_of_ten(), x);
    assert_eq!((x + 1).wrapping_next_power_of_ten(), 0);

    // powers of 2
    x = 4;
    let mut pow10: u128 = 10;
    while x != 0 {
        assert_eq!(x.wrapping_next_power_of_ten(), pow10);
        assert_eq!((x + 1).wrapping_next_power_of_ten(), pow10);
        assert_eq!((x - 1).wrapping_next_power_of_ten(), pow10);
        x <<= 1;
        if x > pow10 {
            if pow10 > end {
                pow10 = 0;
            } else {
                pow10 *= 10;
            }
        }
    }
}

#[test]
fn test_next_power_10_u128() {
    assert_eq!((0 as u128).next_power_of_ten(), 1);
    let mut x: u128 = 1;
    let end: u128 = <u128>::max_value() / 10;
    while x < end {
        assert_eq!(next_power_of_ten(x), x);
        assert_eq!((x + 1).next_power_of_ten(), x * 10);
        x *= 10;
    }
    assert_eq!(x.next_power_of_ten(), x);
    assert_eq!((x - 1).next_power_of_ten(), x);
}

#[test]
fn test_checked_next_power_10_u128() {
    assert_eq!((0 as u128).checked_next_power_of_ten(), Some(1));
    assert_eq!(<u128>::max_value().checked_next_power_of_ten(), None);
    assert_eq!((<u128>::max_value() - 1).checked_next_power_of_ten(), None);
    assert_eq!((<u128>::max_value() - 2).checked_next_power_of_ten(), None);
    let mut x: u128 = 1;
    let end: u128 = <u128>::max_value() / 10;
    while x < end {
        assert_eq!(checked_next_power_of_ten(x), Some(x));
        if x > 1 {
            assert_eq!((x - 1).checked_next_power_of_ten(), Some(x));
        }
        assert_eq!((x + 1).checked_next_power_of_ten(), Some(x * 10));
        x *= 10;
    }
    assert_eq!(x.checked_next_power_of_ten(), Some(x));
    assert_eq!((x - 1).checked_next_power_of_ten(), Some(x));
    assert_eq!((x + 1).checked_next_power_of_ten(), None);

    // powers of 2
    x = 4;
    let mut pow10: u128 = 10;
    while x != 0 {
        let c = if pow10 == 0 { None } else { Some(pow10) };
        assert_eq!(x.checked_next_power_of_ten(), c);
        assert_eq!((x + 1).checked_next_power_of_ten(), c);
        assert_eq!((x - 1).checked_next_power_of_ten(), c);
        x <<= 1;
        if x > pow10 {
            if pow10 > end {
                pow10 = 0;
            } else {
                pow10 *= 10;
            }
        }
    }
}

#[test]
fn test_is_pow_10_usize() {
    assert_eq!((0 as usize).is_power_of_ten(), false);
    assert_eq!(<usize>::max_value().is_power_of_ten(), false);
    let mut x: usize = 1;
    let end: usize = <usize>::max_value() / 10;
    while x < end {
        assert_eq!(is_power_of_ten(x), true);
        assert_eq!((x - 1).is_power_of_ten(), false);
        assert_eq!((x + 1).is_power_of_ten(), false);
        x *= 10;
    }
    assert_eq!(x.is_power_of_ten(), true);
    assert_eq!((x - 1).is_power_of_ten(), false);
    assert_eq!((x + 1).is_power_of_ten(), false);
}

#[test]
fn test_floor_log10_usize() {
    assert_eq!((0 as usize).checked_log10(), None);
    assert_eq!(log10_by_float(<usize>::max_value() as f64), <usize>::max_value().log10());
    assert_eq!(log10_by_float((<usize>::max_value() - 1) as f64), (<usize>::max_value() - 1).log10());
    assert_eq!(log10_by_float((<usize>::max_value() - 2) as f64), (<usize>::max_value() - 2).log10());
    let mut x: usize = 1;
    let mut count: u32 = 0;
    let end: usize = <usize>::max_value() / 10;
    while x < end {
        assert_eq!(log10(x), count);
        assert_eq!(checked_log10(x), Some(count));
        if x > 1 {
            assert_eq!((x - 1).log10(), count - 1);
        }
        assert_eq!((x + 1).log10(), count);
        x *= 10;
        count += 1;
    }
    assert_eq!(x.log10(), count);
    assert_eq!((x - 1).log10(), count - 1);
    assert_eq!((x + 1).log10(), count);

    // powers of 2
    x = 1;
    while x != 0 {
        assert_eq!(log10_by_float(x as f64), x.log10());
        assert_eq!(log10_by_float((x + 1) as f64), (x + 1).log10());
        if x > 1 {
            assert_eq!(log10_by_float((x - 1) as f64), (x - 1).log10());
        }
        x <<= 1;
    }
}

#[test]
fn test_wrap_next_power_10_usize() {
    assert_eq!((0 as usize).wrapping_next_power_of_ten(), 1);
    assert_eq!(<usize>::max_value().wrapping_next_power_of_ten(), 0);
    assert_eq!((<usize>::max_value() - 1).wrapping_next_power_of_ten(), 0, "max - 1");
    assert_eq!((<usize>::max_value() - 2).wrapping_next_power_of_ten(), 0, "max - 2");
    let mut x: usize = 1;
    let end: usize = <usize>::max_value() / 10;
    while x < end {
        assert_eq!(wrapping_next_power_of_ten(x), x);
        if x > 1 {
            assert_eq!((x - 1).wrapping_next_power_of_ten(), x);
        }
        assert_eq!((x + 1).wrapping_next_power_of_ten(), x * 10);
        x *= 10;
    }
    assert_eq!(x.wrapping_next_power_of_ten(), x);
    assert_eq!((x - 1).wrapping_next_power_of_ten(), x);
    assert_eq!((x + 1).wrapping_next_power_of_ten(), 0);

    // powers of 2
    x = 4;
    let mut pow10: usize = 10;
    while x != 0 {
        assert_eq!(x.wrapping_next_power_of_ten(), pow10);
        assert_eq!((x + 1).wrapping_next_power_of_ten(), pow10);
        assert_eq!((x - 1).wrapping_next_power_of_ten(), pow10);
        x <<= 1;
        if x > pow10 {
            if pow10 > end {
                pow10 = 0;
            } else {
                pow10 *= 10;
            }
        }
    }
}

#[test]
fn test_next_power_10_usize() {
    assert_eq!((0 as usize).next_power_of_ten(), 1);
    let mut x: usize = 1;
    let end: usize = <usize>::max_value() / 10;
    while x < end {
        assert_eq!(next_power_of_ten(x), x);
        assert_eq!((x + 1).next_power_of_ten(), x * 10);
        x *= 10;
    }
    assert_eq!(x.next_power_of_ten(), x);
    assert_eq!((x - 1).next_power_of_ten(), x);
}

#[test]
fn test_checked_next_power_10_usize() {
    assert_eq!((0 as usize).checked_next_power_of_ten(), Some(1));
    assert_eq!(<usize>::max_value().checked_next_power_of_ten(), None);
    assert_eq!((<usize>::max_value() - 1).checked_next_power_of_ten(), None);
    assert_eq!((<usize>::max_value() - 2).checked_next_power_of_ten(), None);
    let mut x: usize = 1;
    let end: usize = <usize>::max_value() / 10;
    while x < end {
        assert_eq!(checked_next_power_of_ten(x), Some(x));
        if x > 1 {
            assert_eq!((x - 1).checked_next_power_of_ten(), Some(x));
        }
        assert_eq!((x + 1).checked_next_power_of_ten(), Some(x * 10));
        x *= 10;
    }
    assert_eq!(x.checked_next_power_of_ten(), Some(x));
    assert_eq!((x - 1).checked_next_power_of_ten(), Some(x));
    assert_eq!((x + 1).checked_next_power_of_ten(), None);

    // powers of 2
    x = 4;
    let mut pow10: usize = 10;
    while x != 0 {
        let c = if pow10 == 0 { None } else { Some(pow10) };
        assert_eq!(x.checked_next_power_of_ten(), c);
        assert_eq!((x + 1).checked_next_power_of_ten(), c);
        assert_eq!((x - 1).checked_next_power_of_ten(), c);
        x <<= 1;
        if x > pow10 {
            if pow10 > end {
                pow10 = 0;
            } else {
                pow10 *= 10;
            }
        }
    }
}

#[test]
fn scenario_32_bit() {
    assert_eq!(is_power_of_ten(100u32), true);
    assert_eq!(is_power_of_ten(101u32), false);
    assert_eq!(4u32.is_power_of_ten(), false);
    assert_eq!(log10(100u32), 2);
    assert_eq!(log10(4u32), 0);
    assert_eq!(checked_log10(100u32), Some(2));
    assert_eq!(checked_log10(4u32), Some(0));
    assert_eq!(checked_log10(0u32), None);
    assert_eq!(wrapping_next_power_of_ten(100u32), 100);
    assert_eq!(wrapping_next_power_of_ten(4u32), 10);
    assert_eq!(wrapping_next_power_of_ten(3_900_000_000u32), 0);
    assert_eq!(checked_next_power_of_ten(100u32), Some(100));
    assert_eq!(checked_next_power_of_ten(4u32), Some(10));
    assert_eq!(next_power_of_ten(4u32), 10);
}

#[test]
fn scenario_8_bit() {
    assert_eq!(wrapping_next_power_of_ten(200u8), 0);
    assert_eq!(checked_next_power_of_ten(200u8), None);
    assert_eq!(wrapping_next_power_of_ten(100u8), 100);
    assert_eq!(wrapping_next_power_of_ten(101u8), 0);
}

#[test]
fn scenario_16_bit() {
    assert_eq!(20_000u16.wrapping_next_power_of_ten(), 0);
    assert_eq!(20_000u16.checked_next_power_of_ten(), None);
    assert_eq!(10_000u16.wrapping_next_power_of_ten(), 10_000);
    assert_eq!(10_001u16.wrapping_next_power_of_ten(), 0);
    assert_eq!(9_999u16.next_power_of_ten(), 10_000);
}

#[test]
fn zero_in_every_width() {
    assert_eq!(is_power_of_ten(0u8), false);
    assert_eq!(is_power_of_ten(0u16), false);
    assert_eq!(is_power_of_ten(0u32), false);
    assert_eq!(is_power_of_ten(0u64), false);
    assert_eq!(is_power_of_ten(0u128), false);
    assert_eq!(is_power_of_ten(0usize), false);
    assert_eq!(checked_log10(0u8), None);
    assert_eq!(checked_log10(0u16), None);
    assert_eq!(checked_log10(0u64), None);
    assert_eq!(checked_log10(0u128), None);
    assert_eq!(checked_log10(0usize), None);
    assert_eq!(wrapping_next_power_of_ten(0u8), 1);
    assert_eq!(wrapping_next_power_of_ten(0u16), 1);
    assert_eq!(wrapping_next_power_of_ten(0u32), 1);
    assert_eq!(wrapping_next_power_of_ten(0u64), 1);
    assert_eq!(wrapping_next_power_of_ten(0u128), 1);
    assert_eq!(wrapping_next_power_of_ten(0usize), 1);
}

#[test]
fn largest_value_in_every_width() {
    assert_eq!(wrapping_next_power_of_ten(u8::MAX), 0);
    assert_eq!(wrapping_next_power_of_ten(u16::MAX), 0);
    assert_eq!(wrapping_next_power_of_ten(u32::MAX), 0);
    assert_eq!(wrapping_next_power_of_ten(u64::MAX), 0);
    assert_eq!(wrapping_next_power_of_ten(u128::MAX), 0);
    assert_eq!(wrapping_next_power_of_ten(usize::MAX), 0);
    assert_eq!(checked_next_power_of_ten(u8::MAX), None);
    assert_eq!(checked_next_power_of_ten(u16::MAX), None);
    assert_eq!(checked_next_power_of_ten(u32::MAX), None);
    assert_eq!(checked_next_power_of_ten(u64::MAX), None);
    assert_eq!(checked_next_power_of_ten(u128::MAX), None);
    assert_eq!(checked_next_power_of_ten(usize::MAX), None);
    assert_eq!(is_power_of_ten(u128::MAX), false);
    assert_eq!(log10(u8::MAX), 2);
    assert_eq!(log10(u16::MAX), 4);
    assert_eq!(log10(u32::MAX), 9);
    assert_eq!(log10(u64::MAX), 19);
    assert_eq!(log10(u128::MAX), 38);
}

#[test]
fn exact_values_in_128_bits() {
    let top: u128 = 100_000_000_000_000_000_000_000_000_000_000_000_000;
    assert_eq!(is_power_of_ten(top), true);
    assert_eq!(is_power_of_ten(top - 1), false);
    assert_eq!(is_power_of_ten(top + 1), false);
    assert_eq!(log10(top), 38);
    assert_eq!(log10(top - 1), 37);
    assert_eq!(wrapping_next_power_of_ten(top), top);
    assert_eq!(wrapping_next_power_of_ten(top - 1), top);
    assert_eq!(wrapping_next_power_of_ten(top + 1), 0);
    assert_eq!(wrapping_next_power_of_ten(top / 10 + 1), top);
    assert_eq!(checked_next_power_of_ten(top / 10), Some(top / 10));
    assert_eq!(is_power_of_ten(1u128 << 127), false);
    assert_eq!(is_power_of_ten(1u128), true);
    assert_eq!(is_power_of_ten(10_000_000_000_000_000_000u128), true);
    assert_eq!(log10(10_000_000_000_000_000_000u128), 19);
    assert_eq!(wrapping_next_power_of_ten(10_000_000_000_000_000_001u128), 100_000_000_000_000_000_000);
}

fn digits_less_one(v: u32) -> u32 {
    let mut d: u32 = 0;
    let mut rest: u32 = v;
    while rest >= 10 {
        rest /= 10;
        d += 1;
    }
    d
}

fn least_power_of_ten_not_below(v: u32) -> u32 {
    let mut p: u32 = 1;
    while p < v {
        p *= 10;
    }
    p
}

#[test]
fn every_u8_against_division() {
    for v in 0..=u8::MAX {
        let next = least_power_of_ten_not_below(v as u32);
        assert_eq!(v.is_power_of_ten(), v != 0 && next == v as u32);
        if v != 0 {
            assert_eq!(v.log10(), digits_less_one(v as u32));
            assert_eq!(v.log10(), (v as f64).log10().floor() as u32);
        }
        assert_eq!(v.wrapping_next_power_of_ten() as u32, if next <= 255 { next } else { 0 });
        assert_eq!(v.checked_next_power_of_ten(), if next <= 255 { Some(next as u8) } else { None });
    }
}

#[test]
fn every_u16_against_division() {
    for v in 0..=u16::MAX {
        let next = least_power_of_ten_not_below(v as u32);
        assert_eq!(v.is_power_of_ten(), v != 0 && next == v as u32);
        if v != 0 {
            assert_eq!(v.log10(), digits_less_one(v as u32));
            assert_eq!(v.log10(), (v as f64).log10().floor() as u32);
        }
        assert_eq!(v.wrapping_next_power_of_ten() as u32, if next <= 65_535 { next } else { 0 });
        assert_eq!(
            v.checked_next_power_of_ten(),
            if next <= 65_535 { Some(next as u16) } else { None }
        );
    }
}

#[test]
fn widths_agree_on_small_values() {
    for v in 0..=200_000u32 {
        assert_eq!(v.is_power_of_ten(), (v as u64).is_power_of_ten());
        assert_eq!(v.is_power_of_ten(), (v as u128).is_power_of_ten());
        assert_eq!(v.is_power_of_ten(), (v as usize).is_power_of_ten());
        assert_eq!(v.checked_log10(), (v as u64).checked_log10());
        assert_eq!(v.checked_log10(), (v as u128).checked_log10());
        assert_eq!(v.checked_log10(), (v as usize).checked_log10());
        assert_eq!(v.wrapping_next_power_of_ten() as u64, (v as u64).wrapping_next_power_of_ten());
        assert_eq!(v.wrapping_next_power_of_ten() as u128, (v as u128).wrapping_next_power_of_ten());
        assert_eq!(v.wrapping_next_power_of_ten() as usize, (v as usize).wrapping_next_power_of_ten());
    }
}
