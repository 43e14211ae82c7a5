use rawcall::reg::{ArgReg, Errno, RetReg, MAX_ERRNO};

#[test]
fn usize_argument_keeps_its_bits() {
    assert_eq!(ArgReg::<0>::from_usize(0).raw(), 0);
    assert_eq!(ArgReg::<1>::from_usize(usize::MAX).raw(), usize::MAX);
    assert_eq!(ArgReg::<2>::from_usize(0x7fff_1000).raw(), 0x7fff_1000);
    assert_eq!(ArgReg::<3>::from_usize(12).raw(), 12);
    assert_eq!(ArgReg::<2>::from_u32(0x80000).raw(), 0x80000);
    assert_eq!(ArgReg::<2>::from_u32(u32::MAX).raw(), u32::MAX as usize);
}

#[test]
fn signed_arguments_are_sign_extended() {
    assert_eq!(ArgReg::<0>::from_isize(-1).raw(), usize::MAX);
    assert_eq!(ArgReg::<0>::from_isize(isize::MIN).raw(), isize::MIN as usize);
    assert_eq!(ArgReg::<0>::from_isize(42).raw(), 42);
    assert_eq!(ArgReg::<0>::from_i32(-100).raw(), usize::MAX - 99);
    assert_eq!(ArgReg::<0>::from_i32(i32::MIN).raw(), i32::MIN as isize as usize);
    assert_eq!(ArgReg::<0>::from_i32(7).raw(), 7);
}

#[test]
fn round_trip_of_representative_values() {
    for v in [0usize, 0x7fff_1000, 12, usize::MAX - MAX_ERRNO as usize] {
        let w = ArgReg::<0>::from_usize(v).raw();
        assert_eq!(RetReg::from_word(w).raw(), v);
        assert_eq!(RetReg::from_word(w).decode(), Ok(v));
    }
    let w = ArgReg::<0>::from_usize(usize::MAX).raw();
    assert_eq!(RetReg::from_word(w).raw(), usize::MAX);
    for v in [0i32, -100, 3, i32::MIN, i32::MAX] {
        let w = ArgReg::<0>::from_i32(v).raw();
        assert_eq!(RetReg::from_word(w).to_i32(), Some(v));
    }
    for v in [0isize, -1, isize::MIN, isize::MAX] {
        let w = ArgReg::<0>::from_isize(v).raw();
        assert_eq!(RetReg::from_word(w).raw_signed(), v);
    }
}

#[test]
fn error_band_edges() {
    assert_eq!(RetReg::from_word(usize::MAX).decode(), Err(Errno { code: 1 }));
    assert_eq!(RetReg::from_word(usize::MAX - 1).decode(), Err(Errno { code: 2 }));
    assert_eq!(RetReg::from_word(usize::MAX - 4094).decode(), Err(Errno { code: 4095 }));
    assert_eq!(RetReg::from_word(usize::MAX - 4095).decode(), Ok(usize::MAX - 4095));
    assert_eq!(RetReg::from_word(0).decode(), Ok(0));
    assert_eq!(RetReg::from_word(isize::MAX as usize).decode(), Ok(isize::MAX as usize));
    assert_eq!(RetReg::from_word(isize::MIN as usize).decode(), Ok(isize::MIN as usize));
    assert!(RetReg::from_word(usize::MAX - 4094).is_error());
    assert!(!RetReg::from_word(usize::MAX - 4095).is_error());
}

#[test]
fn descriptor_reading() {
    assert_eq!(RetReg::from_word(3).to_i32(), Some(3));
    assert_eq!(RetReg::from_word(usize::MAX).to_i32(), Some(-1));
    if usize::BITS == 64 {
        assert_eq!(RetReg::from_word(i32::MAX as usize + 1).to_i32(), None);
    }
}
