use dials::decl::{build_field_table, field_type_width};
use dials::layout::{container_size_bits, FieldDecl, LayoutError, RecordLayout};
use dials::record::Record;

fn decl(name: &str, width: usize) -> FieldDecl {
    FieldDecl { name: name.to_string(), width }
}

#[test]
fn container_width_is_smallest_standard_width() {
    assert_eq!(container_size_bits(0), Ok(8));
    assert_eq!(container_size_bits(1), Ok(8));
    assert_eq!(container_size_bits(8), Ok(8));
    assert_eq!(container_size_bits(9), Ok(16));
    assert_eq!(container_size_bits(16), Ok(16));
    assert_eq!(container_size_bits(17), Ok(32));
    assert_eq!(container_size_bits(32), Ok(32));
    assert_eq!(container_size_bits(33), Ok(64));
    assert_eq!(container_size_bits(64), Ok(64));
    assert_eq!(container_size_bits(65), Ok(128));
    assert_eq!(container_size_bits(128), Ok(128));
}

#[test]
fn container_width_fails_above_128_bits() {
    assert_eq!(container_size_bits(129), Err(LayoutError::LayoutTooLarge));
    assert_eq!(container_size_bits(1000), Err(LayoutError::LayoutTooLarge));
    let decls = vec![decl("a", 128), decl("b", 1)];
    assert!(matches!(RecordLayout::new(&decls), Err(LayoutError::LayoutTooLarge)));
}

#[test]
fn layout_packs_fields_contiguously() {
    // The one-byte example record: four bools, a u3, one more bool.
    let decls = vec![
        decl("flag_0", 1),
        decl("flag_1", 1),
        decl("flag_2", 1),
        decl("flag_3", 1),
        decl("flag_4", 3),
        decl("flag_5", 1),
    ];
    let layout = RecordLayout::new(&decls).ok().unwrap();
    assert_eq!(layout.total_width, 8);
    assert_eq!(layout.container_width, 8);
    let expected: Vec<(usize, usize, u128)> = vec![
        (0, 1, 0b00000001),
        (1, 1, 0b00000010),
        (2, 1, 0b00000100),
        (3, 1, 0b00001000),
        (4, 3, 0b01110000),
        (7, 1, 0b10000000),
    ];
    assert_eq!(layout.fields.len(), expected.len());
    for (f, (start, size, mask)) in layout.fields.iter().zip(expected.iter()) {
        assert_eq!(f.start, *start);
        assert_eq!(f.size, *size);
        assert_eq!(f.mask, *mask);
    }
    assert_eq!(layout.fields[4].name, "flag_4");
}

#[test]
fn masks_are_disjoint_and_cover_total_width() {
    let decls = vec![decl("a", 2), decl("b", 2), decl("c", 4), decl("d", 3), decl("e", 5)];
    let layout = RecordLayout::new(&decls).ok().unwrap();
    assert_eq!(layout.container_width, 16);
    let mut union: u128 = 0;
    for i in 0..layout.fields.len() {
        for j in 0..layout.fields.len() {
            if i != j {
                assert_eq!(layout.fields[i].mask & layout.fields[j].mask, 0);
            }
        }
        union |= layout.fields[i].mask;
    }
    assert_eq!(union, 0xffff);
    assert_eq!(union.count_ones() as usize, layout.total_width);
}

#[test]
fn record_set_then_get_round_trips() {
    let decls = vec![decl("lo", 3), decl("mid", 4), decl("hi", 2)];
    let layout = RecordLayout::new(&decls).ok().unwrap();
    let mut r = Record::new(layout, 0);
    for x in 0..16u128 {
        r.set(1, x);
        assert_eq!(r.get(1), x);
    }
}

#[test]
fn record_set_preserves_other_fields() {
    let decls = vec![decl("lo", 3), decl("mid", 4), decl("hi", 2)];
    let layout = RecordLayout::new(&decls).ok().unwrap();
    let mut r = Record::new(layout, 0);
    r.set(0, 5);
    r.set(2, 3);
    r.set(1, 9);
    assert_eq!(r.get(0), 5);
    assert_eq!(r.get(1), 9);
    assert_eq!(r.get(2), 3);
}

#[test]
fn record_set_wraps_out_of_range_values() {
    let decls = vec![decl("lo", 3), decl("mid", 4), decl("hi", 2)];
    let layout = RecordLayout::new(&decls).ok().unwrap();
    let mut r = Record::new(layout, 0);
    // Writing x with x >= 2^w stores exactly x mod 2^w.
    r.set(1, 16);
    assert_eq!(r.get(1), 0);
    r.set(1, 21);
    assert_eq!(r.get(1), 5);
    let mut s = Record::new(RecordLayout::new(&decls).ok().unwrap(), 0);
    s.set(1, 21 % 16);
    assert_eq!(r.value, s.value);
}

#[test]
fn record_bit_operations() {
    let decls = vec![decl("a", 1), decl("n", 5), decl("b", 1)];
    let layout = RecordLayout::new(&decls).ok().unwrap();
    let mut r = Record::new(layout, 0);
    assert!(!r.get_bit(0));
    r.set_bit(0);
    assert!(r.get_bit(0));
    r.set(1, 19);
    r.set_bit(2);
    assert!(r.get_bit(2));
    r.unset_bit(0);
    assert!(!r.get_bit(0));
    assert_eq!(r.get(1), 19);
    assert!(r.get_bit(2));
    let before = r.value;
    r.toggle_bit(2);
    assert!(!r.get_bit(2));
    r.toggle_bit(2);
    assert_eq!(r.value, before);
}

#[test]
fn field_type_tokens_classify() {
    assert_eq!(field_type_width(b"bool"), Some(1));
    assert_eq!(field_type_width(b"u1"), Some(1));
    assert_eq!(field_type_width(b"u3"), Some(3));
    assert_eq!(field_type_width(b"u007"), Some(7));
    assert_eq!(field_type_width(b"u128"), Some(128));
    assert_eq!(field_type_width(b"u300"), Some(300));
    assert_eq!(field_type_width(b"u"), None);
    assert_eq!(field_type_width(b"u0"), None);
    assert_eq!(field_type_width(b"u12a"), None);
    assert_eq!(field_type_width(b"i32"), None);
    assert_eq!(field_type_width(b"boolean"), None);
    assert_eq!(field_type_width(b""), None);
    assert_eq!(field_type_width(b"u99999999999999999999999999"), None);
}

#[test]
fn field_table_reports_malformed_declarations() {
    let good = vec![
        ("flag_0".to_string(), b"bool".to_vec()),
        ("flag_1".to_string(), b"u3".to_vec()),
    ];
    let table = build_field_table(&good).ok().unwrap();
    assert_eq!(table.len(), 2);
    assert_eq!(table[0].name, "flag_0");
    assert_eq!(table[0].width, 1);
    assert_eq!(table[1].name, "flag_1");
    assert_eq!(table[1].width, 3);

    let bad = vec![
        ("flag_0".to_string(), b"bool".to_vec()),
        ("flag_1".to_string(), b"i32".to_vec()),
    ];
    assert!(matches!(
        build_field_table(&bad),
        Err(LayoutError::MalformedDeclaration { field_index: 1 })
    ));
}
