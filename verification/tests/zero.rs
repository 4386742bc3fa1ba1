use mat::traits::Zero;

#[test]
fn zero_of_each_signed_type() {
    assert_eq!(<i8 as Zero>::zero(), 0i8);
    assert_eq!(<i16 as Zero>::zero(), 0i16);
    assert_eq!(<i32 as Zero>::zero(), 0i32);
    assert_eq!(<i64 as Zero>::zero(), 0i64);
    assert_eq!(<isize as Zero>::zero(), 0isize);
}

#[test]
fn zero_of_each_unsigned_type() {
    assert_eq!(<u8 as Zero>::zero(), 0u8);
    assert_eq!(<u16 as Zero>::zero(), 0u16);
    assert_eq!(<u32 as Zero>::zero(), 0u32);
    assert_eq!(<u64 as Zero>::zero(), 0u64);
    assert_eq!(<usize as Zero>::zero(), 0usize);
}

#[test]
fn adding_zero_changes_nothing() {
    assert_eq!(i8::MIN + <i8 as Zero>::zero(), i8::MIN);
    assert_eq!(<i8 as Zero>::zero() + i8::MAX, i8::MAX);
    assert_eq!(-300i16 + <i16 as Zero>::zero(), -300);
    assert_eq!(i32::MAX + <i32 as Zero>::zero(), i32::MAX);
    assert_eq!(<i64 as Zero>::zero() + i64::MIN, i64::MIN);
    assert_eq!(-1isize + <isize as Zero>::zero(), -1);
    assert_eq!(u8::MAX + <u8 as Zero>::zero(), u8::MAX);
    assert_eq!(<u16 as Zero>::zero() + 40000u16, 40000);
    assert_eq!(u32::MAX + <u32 as Zero>::zero(), u32::MAX);
    assert_eq!(<u64 as Zero>::zero() + u64::MAX, u64::MAX);
    assert_eq!(usize::MAX + <usize as Zero>::zero(), usize::MAX);
}
