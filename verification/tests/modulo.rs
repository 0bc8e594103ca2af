use dials::modulo::Modulo;

#[test]
fn lib_can_construct() {
    let n = Modulo::<8, u8>::new(0);
    let n = n.add(Modulo::<8, u8>::new(1));
    assert_eq!(n.value(), 1);
}

#[test]
fn modulo_can_construct() {
    let n = Modulo::<8, u8>::new(0);
    let n = n.add(Modulo::<8, u8>::new(1));
    assert_eq!(n.value(), 1);

    let m = Modulo::<1000, u16>::new(1001_u16);
    assert_eq!(m.value(), 1);
}

#[test]
fn construction_reduces_modulo_n() {
    assert_eq!(Modulo::<8, u8>::new(8).value(), 0);
    assert_eq!(Modulo::<8, u8>::new(9).value(), 1);
    assert_eq!(Modulo::<8, u8>::new(7).value(), 7);
    assert_eq!(Modulo::<255, u8>::new(255).value(), 0);
    assert_eq!(Modulo::<1, u32>::new(12345).value(), 0);
    assert_eq!(Modulo::<1000, u128>::new(123456789).value(), 789);
    assert_eq!(Modulo::<1000, usize>::new(2000).value(), 0);
}

#[test]
fn addition_wraps_around() {
    let a = Modulo::<10, u16>::new(7);
    let b = Modulo::<10, u16>::new(6);
    assert_eq!(a.add(b).value(), 3);
    let z = Modulo::<10, u16>::new(0);
    assert_eq!(a.add(z).value(), 7);
    // The sum of two large representatives would overflow the container,
    // but the result is still reduced correctly.
    let c = Modulo::<250, u8>::new(200);
    let d = Modulo::<250, u8>::new(100);
    assert_eq!(c.add(d).value(), 50);
}

#[test]
fn subtraction_wraps_around() {
    let a = Modulo::<10, u64>::new(3);
    let b = Modulo::<10, u64>::new(7);
    assert_eq!(a.sub(b).value(), 6);
    assert_eq!(b.sub(a).value(), 4);
    assert_eq!(a.sub(a).value(), 0);
}
