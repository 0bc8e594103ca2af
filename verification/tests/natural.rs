use dials::natural::{NatContainer, Natural};

#[test]
fn containers_report_their_bounds() {
    assert_eq!(<u8 as NatContainer>::min_value(), 0);
    assert_eq!(<u8 as NatContainer>::max_value(), 255);
    assert_eq!(<u16 as NatContainer>::max_value(), 65535);
    assert_eq!(<u64 as NatContainer>::max_value(), usize::MAX);
    assert_eq!(<u128 as NatContainer>::max_value(), usize::MAX);
}

#[test]
fn containers_cast_and_read_back() {
    assert_eq!(<u8 as NatContainer>::try_cast(200), Ok(200u8));
    assert_eq!(<u8 as NatContainer>::try_cast(256), Err(256));
    assert_eq!(<u16 as NatContainer>::try_cast(65536), Err(65536));
    assert_eq!(<u64 as NatContainer>::try_cast(65536), Ok(65536u64));
    assert_eq!(123u8.repr(), 123);
    assert_eq!(9000u16.repr(), 9000);
    assert_eq!(77u128.repr_wide(), 77);
}

#[test]
fn naturals_widen_without_loss() {
    let a: u16 = Natural::<u16>::as_container(200u8);
    assert_eq!(a, 200u16);
    let b: u128 = Natural::<u128>::as_container(70000u32);
    assert_eq!(b, 70000u128);
    assert_eq!(Natural::<u64>::as_natural(40000u16), 40000);
    let c: u32 = Natural::<u32>::as_container(12u32);
    assert_eq!(c, 12);
}
