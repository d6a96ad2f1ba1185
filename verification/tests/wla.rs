use gb::wla::{comment, label, parse, WlaSym};

#[test]
fn wla_label() {
    let s = b"12:1234 some_label\n";
    let r = label(s, 0);
    assert_eq!(r, Some((0x12, 0x1234, 18)));
    assert_eq!(&s[8..18], b"some_label");
    assert_eq!(&s[18..], b"\n");
}

#[test]
fn wla_comment() {
    let s = b"; dsfhjlashjdfjakdshfkjahdsf\n";
    assert_eq!(comment(s, 0), Some(s.len() - 1));
    assert_eq!(&s[s.len() - 1..], b"\n");
}

#[test]
fn wla_labels() {
    let s = "[labels]\n\n;extraneous comment\n12:1234 some_label\n[other]\njkldsfj\njlaksdf\n[memmap]\n00 0000\n01 4000\n02 8000\n[labels]\n45:5467 more_label\n";
    let (sym, rest) = parse(s.as_bytes());
    assert_eq!(rest, s.len());
    assert_eq!(sym.label(0x12, 0x1234).unwrap(), &b"some_label".to_vec());
    assert_eq!(sym.label(0x45, 0x5467).unwrap(), &b"more_label".to_vec());
    assert_eq!(sym.label(0x12, 0x1235), None);
    assert_eq!(sym.mem_map(0), 0x0000);
    assert_eq!(sym.mem_map(1), 0x4000);
    assert_eq!(sym.mem_map(2), 0x8000);
    // Nothing else was parsed: exactly these two labels, and no other bank
    // has a slot of its own.
    assert_eq!(
        sym.entries(),
        &vec![(0x12u8, 0x1234u16, b"some_label".to_vec()), (0x45u8, 0x5467u16, b"more_label".to_vec())]
    );
    for bank in 3..=255u8 {
        assert_eq!(sym.mem_map(bank), 0x4000);
    }
}

#[test]
fn wla_unparsed_rest_is_reported() {
    let s = b"[memmap]\n01 c000\ngarbage";
    let (sym, rest) = parse(s);
    assert_eq!(sym.mem_map(1), 0xc000);
    assert_eq!(rest, 17);
}

#[test]
fn wla_merge_prefers_the_later_file() {
    let (mut a, _) = parse(b"[memmap]\n01 4000\n[labels]\n00:0100 start\n");
    let (b, _) = parse(b"[memmap]\n01 c000\n");
    a.merge(b);
    assert_eq!(a.mem_map(1), 0xc000);
    assert_eq!(a.mem_map(3), 0x4000);
    assert_eq!(a.label(0, 0x100).unwrap(), &b"start".to_vec());
    let empty = WlaSym::new();
    assert_eq!(empty.mem_map(0), 0);
}
