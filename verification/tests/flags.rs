use dials::flags::MyFlags;
use dials::layout::{FieldDecl, RecordLayout};
use dials::record::Record;

fn decl(name: &str, width: usize) -> FieldDecl {
    FieldDecl { name: name.to_string(), width }
}

#[test]
fn can_construct_bitflags_into_u8() {
    // struct MyFlags { flag_0: bool, flag_1: bool, flag_2: bool,
    //                  flag_3: bool, flag_4: u3, flag_5: bool }
    let mut x = MyFlags(0);
    assert_eq!(x.flag_1(), false);
    x.set_flag_4(5);
    assert_eq!(x.flag_4(), 5);
    x.set_flag_4(8);
    assert_eq!(x.flag_4(), 0);
}

#[test]
fn can_construct_bitflags_with_bigger_container_types() {
    // struct MyFlags { flag_0: u2, flag_1: u2, flag_2: u4,
    //                  flag_4: u3, flag_5: u5 }
    let decls = vec![
        decl("flag_0", 2),
        decl("flag_1", 2),
        decl("flag_2", 4),
        decl("flag_4", 3),
        decl("flag_5", 5),
    ];
    let layout = match RecordLayout::new(&decls) {
        Ok(l) => l,
        Err(_) => panic!("layout must fit in 16 bits"),
    };
    assert_eq!(layout.container_width, 16);
    let mut x = Record::new(layout, 0);
    assert_eq!(x.get(1), 0);
    x.set(1, 3);
    assert_eq!(x.get(1), 3);
    x.set(3, 8);
    assert_eq!(x.get(3), 0);

    // struct MyOtherFlags { flag_0: u4, flag_1: u4, flag_2: u8,
    //                       flag_4: u6, flag_5: u10 }
    let decls = vec![
        decl("flag_0", 4),
        decl("flag_1", 4),
        decl("flag_2", 8),
        decl("flag_4", 6),
        decl("flag_5", 10),
    ];
    let layout = match RecordLayout::new(&decls) {
        Ok(l) => l,
        Err(_) => panic!("layout must fit in 32 bits"),
    };
    assert_eq!(layout.container_width, 32);
}

#[test]
fn boolean_flags_set_unset_toggle() {
    let mut x = MyFlags(0);
    assert!(!x.flag_0());
    x.set_flag_0();
    assert!(x.flag_0());
    assert_eq!(x.0, 1);
    x.unset_flag_0();
    assert!(!x.flag_0());
    assert_eq!(x.0, 0);

    // unset clears only flag_0: the other fields keep their bits.
    let mut y = MyFlags(0b11111111);
    y.unset_flag_0();
    assert_eq!(y.0, 0b11111110);
    assert!(y.flag_1());
    assert!(y.flag_2());
    assert!(y.flag_3());
    assert_eq!(y.flag_4(), 7);
    assert!(y.flag_5());
}

#[test]
fn toggle_is_self_inverse_on_flags() {
    let mut x = MyFlags(0b10110101);
    x.toggle_flag_0();
    assert_eq!(x.0, 0b10110100);
    x.toggle_flag_0();
    assert_eq!(x.0, 0b10110101);
}

#[test]
fn setting_flag_4_preserves_other_fields() {
    let mut x = MyFlags(0b10001111);
    x.set_flag_4(5);
    assert_eq!(x.flag_4(), 5);
    assert_eq!(x.0, 0b11011111);
    assert!(x.flag_0());
    assert!(x.flag_1());
    assert!(x.flag_2());
    assert!(x.flag_3());
    assert!(x.flag_5());
    x.set_flag_4(13);
    assert_eq!(x.flag_4(), 5);
}
