use shr3::BaseOps;

#[test]
fn test_base_ops() {
    // unsigned
    assert_eq!(u8::NUMBITS, 8);
    assert_eq!(u16::NUMBITS, 16);
    assert_eq!(u32::NUMBITS, 32);
    assert_eq!(u64::NUMBITS, 64);
    assert_eq!(usize::NUMBITS, usize::BITS as u8);
    assert_eq!(u128::NUMBITS, 128);

    // signed
    assert_eq!(i8::NUMBITS, 8);
    assert_eq!(i16::NUMBITS, 16);
    assert_eq!(i32::NUMBITS, 32);
    assert_eq!(i64::NUMBITS, 64);
    assert_eq!(isize::NUMBITS, usize::BITS as u8);
    assert_eq!(i128::NUMBITS, 128);

    // unsigned
    assert_eq!(u8::MINVAL, 0);
    assert_eq!(u16::MINVAL, 0);
    assert_eq!(u32::MINVAL, 0);
    assert_eq!(u64::MINVAL, 0);
    assert_eq!(usize::MINVAL, 0);
    assert_eq!(u128::MINVAL, 0);

    // signed
    assert_eq!(i8::MINVAL, i8::MIN);
    assert_eq!(i16::MINVAL, i16::MIN);
    assert_eq!(i32::MINVAL, i32::MIN);
    assert_eq!(i64::MINVAL, i64::MIN);
    assert_eq!(isize::MINVAL, isize::MIN);
    assert_eq!(i128::MINVAL, i128::MIN);

    // unsigned
    assert_eq!(u8::MAXVAL, u8::MAX);
    assert_eq!(u16::MAXVAL, u16::MAX);
    assert_eq!(u32::MAXVAL, u32::MAX);
    assert_eq!(u64::MAXVAL, u64::MAX);
    assert_eq!(usize::MAXVAL, usize::MAX);
    assert_eq!(u128::MAXVAL, u128::MAX);

    // signed
    assert_eq!(i8::MAXVAL, i8::MAX);
    assert_eq!(i16::MAXVAL, i16::MAX);
    assert_eq!(i32::MAXVAL, i32::MAX);
    assert_eq!(i64::MAXVAL, i64::MAX);
    assert_eq!(isize::MAXVAL, isize::MAX);
    assert_eq!(i128::MAXVAL, i128::MAX);

    // unsigned
    assert_eq!(u8::from_u8(42), 42);
    assert_eq!(u16::from_u8(42), 42);
    assert_eq!(u32::from_u8(42), 42);
    assert_eq!(u64::from_u8(42), 42);
    assert_eq!(usize::from_u8(42), 42);
    assert_eq!(u128::from_u8(42), 42);

    // signed
    assert_eq!(i8::from_u8(42), 42);
    assert_eq!(i16::from_u8(42), 42);
    assert_eq!(i32::from_u8(42), 42);
    assert_eq!(i64::from_u8(42), 42);
    assert_eq!(isize::from_u8(42), 42);
    assert_eq!(i128::from_u8(42), 42);

    // signed
    assert_eq!(i8::from_u8(0xFF), -1);
    assert_eq!(i16::from_u8(0xFF), 0xFF);
    assert_eq!(i32::from_u8(0xFF), 0xFF);
    assert_eq!(i64::from_u8(0xFF), 0xFF);
    assert_eq!(isize::from_u8(0xFF), 0xFF);
    assert_eq!(i128::from_u8(0xFF), 0xFF);

    // from_unsigned (unsigned)
    assert_eq!(u8::from_unsigned(0xF0_u8), 0xF0);
    assert_eq!(u16::from_unsigned(0xF0_u16), 0xF0);
    assert_eq!(u32::from_unsigned(0xF0_u32), 0xF0);
    assert_eq!(u64::from_unsigned(0xF0_u64), 0xF0);
    assert_eq!(usize::from_unsigned(0xF0_usize), 0xF0);
    assert_eq!(u128::from_unsigned(0xF0_u128), 0xF0);

    // from_unsigned (signed)
    assert_eq!(i8::from_unsigned(0xF0_u8), -16);
    assert_eq!(i16::from_unsigned(0xFFF0_u16), -16);
    assert_eq!(i32::from_unsigned(0xFFFF_FFF0_u32), -16);
    assert_eq!(i64::from_unsigned(0xFFFF_FFFF_FFFF_FFF0_u64), -16);
    assert_eq!(isize::from_unsigned((-16_isize) as usize), -16);
    assert_eq!(i128::from_unsigned((-16_i128) as u128), -16);

    // to_unsigned (unsigned)
    assert_eq!(0xF0_u8.to_unsigned(), 0xF0_u8);
    assert_eq!(0xF0_u16.to_unsigned(), 0xF0_u16);
    assert_eq!(0xF0_u32.to_unsigned(), 0xF0_u32);
    assert_eq!(0xF0_u64.to_unsigned(), 0xF0_u64);
    assert_eq!(0xF0_usize.to_unsigned(), 0xF0_usize);
    assert_eq!(0xF0_u128.to_unsigned(), 0xF0_u128);

    // to_unsigned (signed)
    assert_eq!((-16_i8).to_unsigned(), 0xF0_u8);
    assert_eq!((-16_i16).to_unsigned(), 0xFFF0_u16);
    assert_eq!((-16_i32).to_unsigned(), 0xFFFF_FFF0_u32);
    assert_eq!((-16_i64).to_unsigned(), 0xFFFF_FFFF_FFFF_FFF0_u64);
    assert_eq!((-16_isize).to_unsigned(), (-16_isize) as usize);
    assert_eq!((-16_i128).to_unsigned(), (-16_i128) as u128);

    // unsigned fls
    assert_eq!(0x00_u8.fls(), 0);
    assert_eq!(0x80_u8.fls(), 8);
    assert_eq!(0x4F_u8.fls(), 7);
    assert_eq!(0x02_u8.fls(), 2);
    assert_eq!(0x01_u8.fls(), 1);
    assert_eq!(0x4000_u16.fls(), 15);
    assert_eq!(0x4000_0000_u32.fls(), 31);
    assert_eq!(0x4000_0000_0000_0000_u64.fls(), 63);
    assert_eq!(0x4000_0000_0000_0000_0000_0000_0000_0000_u128.fls(), 127);

    // signed fls
    assert_eq!(0x00_i8.fls(), 0);
    assert_eq!((-127_i8).fls(), 8);
    assert_eq!(0x4F_i8.fls(), 7);
    assert_eq!(0x02_i8.fls(), 2);
    assert_eq!(0x01_i8.fls(), 1);
    assert_eq!(0x4000_i16.fls(), 15);
    assert_eq!(0x4000_0000_i32.fls(), 31);
    assert_eq!(0x4000_0000_0000_0000_i64.fls(), 63);
    assert_eq!(0x4000_0000_0000_0000_0000_0000_0000_0000_i128.fls(), 127);
}

#[test]
fn fls_of_extremes() {
    assert_eq!(u8::MAX.fls(), 8);
    assert_eq!(u128::MAX.fls(), 128);
    assert_eq!((-1_i64).fls(), 64);
    assert_eq!(i32::MIN.fls(), 32);
    assert_eq!(i32::MAX.fls(), 31);
    assert_eq!(usize::MAX.fls(), usize::BITS as u8);
}

#[test]
fn reinterpretation_round_trips() {
    for v in [i16::MIN, -1, 0, 1, i16::MAX] {
        assert_eq!(i16::from_unsigned(v.to_unsigned()), v);
    }
    assert_eq!(i8::MIN.to_unsigned(), 0x80);
    assert_eq!(i8::from_unsigned(0x7F), 127);
    assert_eq!(i8::from_unsigned(0x80), -128);
}
