use rebg::mem::byte::{HistMem, MCell, OutOfOrderWrite};

#[test]
fn byte_ticks() {
    let mut cell = MCell::new();
    cell.add_tick(4, 0x11).unwrap();
    cell.add_tick(7, 0x22).unwrap();
    cell.add_tick(8, 0x33).unwrap();

    assert_eq!(cell.at_tick(0), None);
    assert_eq!(cell.at_tick(3), None);
    assert_eq!(cell.at_tick(4), Some(0x11));
    assert_eq!(cell.at_tick(5), Some(0x11));
    assert_eq!(cell.at_tick(6), Some(0x11));
    assert_eq!(cell.at_tick(7), Some(0x22));
    assert_eq!(cell.at_tick(8), Some(0x33));
    assert_eq!(cell.at_tick(9), Some(0x33));
    assert_eq!(cell.at_tick(9999999), Some(0x33));
}

#[test]
fn mod_ticks() {
    let mut cell = MCell::new();
    cell.add_tick(4, 0x11).unwrap();
    cell.add_tick(7, 0x22).unwrap();
    cell.add_tick(8, 0x33).unwrap();

    assert_eq!(cell.at_tick(0), None);
    assert_eq!(cell.at_tick(3), None);
    assert_eq!(cell.at_tick(4), Some(0x11));
    assert_eq!(cell.at_tick(5), Some(0x11));
    assert_eq!(cell.at_tick(6), Some(0x11));
    assert_eq!(cell.at_tick(7), Some(0x22));
    assert_eq!(cell.at_tick(8), Some(0x33));
    assert_eq!(cell.at_tick(9), Some(0x33));
    assert_eq!(cell.at_tick(9999999), Some(0x33));
}

#[test]
fn qword_ticks() {
    let mut cell = MCell::new();
    cell.add_tick(4, 0x11).unwrap();
    cell.add_tick(7, 0x22).unwrap();
    cell.add_tick(8, 0x33).unwrap();

    assert_eq!(cell.at_tick(0), None);
    assert_eq!(cell.at_tick(3), None);
    assert_eq!(cell.at_tick(4), Some(0x11));
    assert_eq!(cell.at_tick(5), Some(0x11));
    assert_eq!(cell.at_tick(6), Some(0x11));
    assert_eq!(cell.at_tick(7), Some(0x22));
    assert_eq!(cell.at_tick(8), Some(0x33));
    assert_eq!(cell.at_tick(9), Some(0x33));
    assert_eq!(cell.at_tick(9999999), Some(0x33));
}

#[test]
fn byte_overlapping_stores() {
    let mut m = HistMem::new();
    m.store64(0, 0x1234, 0x1111111111111111).unwrap();
    m.store64(0, 0x1234, 0x2222222222222222).unwrap();

    assert_eq!(m.load64(0, 0x1234), Some(0x2222222222222222))
}

#[test]
fn byte_stores() {
    const TICK: u32 = 555;
    let mut v = HistMem::new();

    v.store64(TICK - 1, 0, 0x1111111111111111).unwrap();
    v.store64(TICK - 1, 8, 0x2222222222222222).unwrap();

    // u64
    v.store64(TICK, 1, 0xFFFFFFFFFFFFFFFF).unwrap();

    assert_eq!(v.load64(TICK, 0), Some(0x11FFFFFFFFFFFFFF));
    assert_eq!(v.load64(TICK, 8), Some(0xFF22222222222222));

    // u32
    v.store32(TICK + 1, 7, 0x77777777).unwrap();
    assert_eq!(v.load64(TICK + 1, 0), Some(0x11FFFFFFFFFFFF77));
    assert_eq!(v.load64(TICK + 1, 8), Some(0x7777772222222222));

    v.store32(TICK + 2, 1, 0x44444444).unwrap();
    assert_eq!(v.load64(TICK + 2, 0), Some(0x1144444444FFFF77));
    assert_eq!(v.load64(TICK + 2, 8), Some(0x7777772222222222));

    v.store32(TICK + 3, 2, 0x55555555).unwrap();
    assert_eq!(v.load64(TICK + 3, 0), Some(0x114455555555FF77));
    assert_eq!(v.load64(TICK + 3, 8), Some(0x7777772222222222));

    v.store32(TICK + 4, 5, 0x66666666).unwrap();
    assert_eq!(v.load64(TICK + 4, 0), Some(0x1144555555666666));
    assert_eq!(v.load64(TICK + 4, 8), Some(0x6677772222222222));

    v.store32(TICK + 5, 10, 0x99999999).unwrap();
    assert_eq!(v.load64(TICK + 5, 0), Some(0x1144555555666666));
    assert_eq!(v.load64(TICK + 5, 8), Some(0x6677999999992222));

    v.store64(TICK + 6, 0, 0x0000000000000000).unwrap();
    v.store64(TICK + 6, 8, 0x0000000000000000).unwrap();
    for i in 1..12 {
        let mut val = 0;
        for ind in 0..8 {
            val |= i << (ind * 4);
        }
        v.store32(TICK + 7 + i, i.into(), val as u32).unwrap();
    }

    assert_eq!(v.load64(TICK + 30, 0), Some(0x0011223344556677));
    assert_eq!(v.load64(TICK + 30, 8), Some(0x8899aabbbbbbbb00));

    // u16
    v.store64(TICK + 100, 0, 0x4444444444444444).unwrap();
    v.store64(TICK + 100, 8, 0x4444444444444444).unwrap();

    v.store16(TICK + 101, 0, 0xffff).unwrap();
    v.store16(TICK + 102, 2, 0xeeee).unwrap();
    v.store16(TICK + 103, 4, 0xdddd).unwrap();
    v.store16(TICK + 104, 5, 0x9999).unwrap();
    v.store16(TICK + 105, 6, 0x8888).unwrap();
    v.store16(TICK + 106, 7, 0x7777).unwrap();
    v.store16(TICK + 107, 8, 0x6666).unwrap();
    v.store16(TICK + 108, 9, 0x5555).unwrap();
    v.store16(TICK + 109, 10, 0x0000).unwrap();

    assert_eq!(v.load64(TICK + 110, 0), Some(0xffffeeeedd998877));
    assert_eq!(v.load64(TICK + 110, 8), Some(0x6655000044444444));

    // u8
    v.store64(TICK + 200, 0, 0x2222222222222222).unwrap();
    v.store64(TICK + 200, 8, 0x2222222222222222).unwrap();

    v.store8(TICK + 201, 0, 0x33).unwrap();
    v.store8(TICK + 202, 3, 0x33).unwrap();
    v.store8(TICK + 203, 7, 0x88).unwrap();
    v.store8(TICK + 204, 8, 0x99).unwrap();
    v.store8(TICK + 205, 9, 0x77).unwrap();

    assert_eq!(v.load64(TICK + 210, 0), Some(0x3322223322222288));
    assert_eq!(v.load64(TICK + 210, 8), Some(0x9977222222222222));
}

#[test]
fn byte_loads() {
    const TICK: u32 = 555;

    let mut v = HistMem::new();

    v.store64(TICK, 0, 0x1111111111111111).unwrap();
    v.store64(TICK, 8, 0x2222222222222222).unwrap();

    // u64
    for a in 0..=8 {
        println!("64 {:02x}: {:016x}", a, v.load64(TICK, a).unwrap());
    }
    assert_eq!(v.load64(TICK, 0), Some(0x1111111111111111));
    assert_eq!(v.load64(TICK, 1), Some(0x1111111111111122));
    assert_eq!(v.load64(TICK, 7), Some(0x1122222222222222));
    assert_eq!(v.load64(TICK, 8), Some(0x2222222222222222));
    assert_eq!(v.load64(TICK, 9), None);

    // u32
    println!("");
    for a in 0..10 {
        println!("32 {:02x}: {:08x}", a, v.load32(TICK, a).unwrap());
    }
    assert_eq!(v.load32(TICK, 0), Some(0x11111111));
    assert_eq!(v.load32(TICK, 4), Some(0x11111111));
    assert_eq!(v.load32(TICK, 5), Some(0x11111122));
    assert_eq!(v.load32(TICK, 6), Some(0x11112222));
    assert_eq!(v.load32(TICK, 7), Some(0x11222222));
    assert_eq!(v.load32(TICK, 8), Some(0x22222222));
    assert_eq!(v.load32(TICK, 9), Some(0x22222222));
    assert_eq!(v.load32(TICK, 12), Some(0x22222222));
    assert_eq!(v.load32(TICK, 13), None);

    // u16
    println!("");
    for a in 0..10 {
        println!("16 {:02x}: {:04x}", a, v.load16(TICK, a).unwrap());
    }
    assert_eq!(v.load16(TICK, 0), Some(0x1111));
    assert_eq!(v.load16(TICK, 6), Some(0x1111));
    assert_eq!(v.load16(TICK, 7), Some(0x1122));
    assert_eq!(v.load16(TICK, 8), Some(0x2222));
    assert_eq!(v.load16(TICK, 14), Some(0x2222));
    assert_eq!(v.load16(TICK, 15), None);

    // u8
    for a in 0..8 {
        assert_eq!(v.load8(TICK, a), Some(0x11));
    }
    for a in 8..16 {
        assert_eq!(v.load8(TICK, a), Some(0x22));
    }
    assert_eq!(v.load8(TICK, 16), None);
}

#[test]
fn store_then_load_gives_the_value_at_every_width() {
    let mut m = HistMem::new();
    m.store8(3, 0x10, 0xab).unwrap();
    m.store16(3, 0x20, 0xabcd).unwrap();
    m.store32(3, 0x30, 0xabcd_ef01).unwrap();
    m.store64(3, 0x40, 0xabcd_ef01_2345_6789).unwrap();
    assert_eq!(m.load8(3, 0x10), Some(0xab));
    assert_eq!(m.load16(3, 0x20), Some(0xabcd));
    assert_eq!(m.load32(3, 0x30), Some(0xabcd_ef01));
    assert_eq!(m.load64(3, 0x40), Some(0xabcd_ef01_2345_6789));
    assert_eq!(m.load64(1000, 0x40), Some(0xabcd_ef01_2345_6789));
    assert_eq!(m.load64(2, 0x40), None);
}

#[test]
fn values_are_big_endian() {
    let mut m = HistMem::new();
    m.store32(1, 100, 0x0102_0304).unwrap();
    assert_eq!(m.load8(1, 100), Some(0x01));
    assert_eq!(m.load8(1, 101), Some(0x02));
    assert_eq!(m.load8(1, 102), Some(0x03));
    assert_eq!(m.load8(1, 103), Some(0x04));
    assert_eq!(m.load16(1, 101), Some(0x0203));
}

#[test]
fn history_is_kept() {
    let a: u64 = 0x1111_2222_3333_4444;
    let b: u64 = 0x5555_6666_7777_8888;
    let mut m = HistMem::new();
    m.store64(5, 0, a).unwrap();
    m.store64(9, 0, b).unwrap();
    assert_eq!(m.load64(4, 0), None);
    assert_eq!(m.load64(5, 0), Some(a));
    assert_eq!(m.load64(7, 0), Some(a));
    assert_eq!(m.load64(8, 0), Some(a));
    assert_eq!(m.load64(9, 0), Some(b));
    assert_eq!(m.load64(10, 0), Some(b));
}

#[test]
fn out_of_order_store_is_rejected() {
    let mut m = HistMem::new();
    m.store8(10, 7, 1).unwrap();
    assert_eq!(m.store8(9, 7, 2), Err(OutOfOrderWrite { tick: 9, address: 7 }));
    assert_eq!(m.load8(10, 7), Some(1));
    assert_eq!(m.load8(9, 7), None);
}

#[test]
fn rejected_store_reports_the_first_offending_byte_and_keeps_the_bytes_before_it() {
    let mut m = HistMem::new();
    m.store8(10, 0x102, 0xee).unwrap();
    let r = m.store32(5, 0x100, 0xa1a2_a3a4);
    assert_eq!(r, Err(OutOfOrderWrite { tick: 5, address: 0x102 }));
    assert_eq!(m.load8(5, 0x100), Some(0xa1));
    assert_eq!(m.load8(5, 0x101), Some(0xa2));
    assert_eq!(m.load8(5, 0x102), None);
    assert_eq!(m.load8(5, 0x103), None);
    assert_eq!(m.load8(10, 0x102), Some(0xee));
}

#[test]
fn same_tick_overwrites_in_place() {
    let mut cell = MCell::new();
    cell.add_tick(4, 1).unwrap();
    cell.add_tick(4, 2).unwrap();
    assert_eq!(cell.at_tick(4), Some(2));
    assert_eq!(cell.at_tick(3), None);
    assert_eq!(cell.add_tick(3, 9), Err(()));
    assert_eq!(cell.at_tick(4), Some(2));
}

#[test]
fn load_at_the_end_of_the_address_space_is_unset() {
    let mut m = HistMem::new();
    m.store8(1, u64::MAX, 0x7f).unwrap();
    assert_eq!(m.load8(1, u64::MAX), Some(0x7f));
    assert_eq!(m.load16(1, u64::MAX), None);
    assert_eq!(m.load64(1, u64::MAX - 3), None);
}
