use gb::dis::{analyze, bank_starts, fixed_entries, header_data, label_entries, remap_address, Section, BANK_SIZE};
use gb::dump::{bank_file_name, bank_names, dump_bank, header_source, link_source, makefile_source};
use gb::names::rom_targets;
use gb::regions::byte_regions;
use gb::wla::{parse, WlaSym};

fn name_for(list: &[(u64, String)], k: u64) -> Option<&str> {
    list.iter().find(|(p, _)| *p == k).map(|(_, n)| n.as_str())
}

fn three_banks() -> WlaSym {
    let text = b"[memmap]\n00 0000\n01 4000\n02 4000\n";
    let (syms, used) = parse(text);
    assert_eq!(used, text.len());
    syms
}

#[test]
fn remap_from_bank_zero_reaches_every_switchable_bank() {
    let starts = vec![0x0000u16, 0x4000, 0x4000];
    assert_eq!(remap_address(0x4123, 0, &starts), Some(vec![0x4123, 0x8123]));
    assert_eq!(remap_address(0x4123, 2, &starts), Some(vec![0x8123]));
    assert_eq!(remap_address(0x0100, 0, &starts), Some(vec![0x0100]));
    // From a switchable bank only that bank's own window counts.
    assert_eq!(remap_address(0x0100, 1, &starts), None);
    assert_eq!(remap_address(0xc000, 0, &starts), None);
}

#[test]
fn bank_starts_follow_the_memory_map() {
    let syms = three_banks();
    assert_eq!(bank_starts(&syms, 3), vec![0x0000, 0x4000, 0x4000]);
    let (moved, _) = parse(b"[memmap]\n01 8000\n");
    assert_eq!(bank_starts(&moved, 3), vec![0x0000, 0x8000, 0x4000]);
    assert_eq!(bank_starts(&WlaSym::new(), 0), Vec::<u16>::new());
}

#[test]
fn entry_points_and_header_ranges() {
    let e = fixed_entries();
    assert_eq!(e.len(), 14);
    assert_eq!(e[0], ("main", 0x100));
    assert_eq!(e[13], ("JoypadTransitionInterrupt", 0x60));
    let dmg = header_data(false);
    assert_eq!(dmg.len(), 12);
    assert_eq!(dmg[10], ("Title", 0x134, 0x144));
    let cgb = header_data(true);
    assert_eq!(cgb.len(), 13);
    assert_eq!(cgb[10], ("Title", 0x134, 0x13f));
    assert_eq!(cgb[12], ("LicenseeCode", 0x144, 0x145));
}

#[test]
fn labels_become_entry_points() {
    let (syms, _) = parse(b"[memmap]\n00 0000\n01 4000\n02 4000\n[labels]\n00:0150 start\n01:4010 far\n00:4020 either\n");
    let starts = bank_starts(&syms, 3);
    let mut got = label_entries(&syms, &starts);
    got.sort();
    assert_eq!(
        got,
        vec![
            (0x0150, b"start".to_vec()),
            (0x4010, b"far".to_vec()),
            (0x4020, b"either".to_vec()),
            (0x8020, b"either".to_vec()),
        ]
    );
}

#[test]
fn byte_regions_cut_at_every_end() {
    let ranges = vec![(0x104, 0x150, Section::Data), (0x150, 0x200, Section::Code), (0x160, 0x180, Section::Nop)];
    let r = byte_regions(0, 0x4000, 0, &ranges);
    assert_eq!(
        r,
        vec![
            (0x000, 0x104, 0x000, 0x104, Section::Data),
            (0x104, 0x150, 0x104, 0x150, Section::Data),
            (0x150, 0x160, 0x150, 0x160, Section::Code),
            (0x160, 0x180, 0x160, 0x180, Section::Nop),
            (0x180, 0x200, 0x180, 0x200, Section::Code),
            (0x200, 0x4000, 0x200, 0x4000, Section::Data),
        ]
    );
}

#[test]
fn byte_regions_map_a_switchable_bank() {
    let ranges = vec![(0x4010, 0x4020, Section::Code), (0x10, 0x20, Section::Code)];
    let r = byte_regions(0x4000, 0x8000, 0x4000, &ranges);
    assert_eq!(
        r,
        vec![
            (0x4000, 0x4010, 0x4000, 0x4010, Section::Data),
            (0x4010, 0x4020, 0x4010, 0x4020, Section::Code),
            (0x4020, 0x8000, 0x4020, 0x8000, Section::Data),
        ]
    );
    // A bank at the top of the address space: the mapped end saturates.
    let top = byte_regions(0, 0x4000, 0xc000, &Vec::new());
    assert_eq!(top, vec![(0, 0x4000, 0xc000, 0xffff, Section::Data)]);
}

fn loop_rom() -> Vec<u8> {
    let mut rom = vec![0u8; BANK_SIZE as usize];
    rom[0x100] = 0x18; // JR -2: jumps to itself
    rom[0x101] = 0xfe;
    rom
}

#[test]
fn analyze_follows_a_jump_and_marks_nops() {
    let rom = loop_rom();
    let syms = WlaSym::new();
    let found = analyze(&rom, &syms, &vec![0x100], &Vec::new());
    assert_eq!(
        found.ranges,
        vec![(0x100, 0x102, Section::Code), (0x102, 0x4000, Section::Nop), (0x102, 0x4000, Section::Code)]
    );
    assert_eq!(found.targets, vec![0x100]);
}

#[test]
fn analyze_keeps_data_first_and_stops_at_it() {
    let mut rom = vec![0u8; BANK_SIZE as usize];
    rom[0x100] = 0x3e; // LD A,$12
    rom[0x101] = 0x12;
    rom[0x102] = 0x00;
    let found = analyze(&rom, &WlaSym::new(), &vec![0x100], &vec![(0x103, 0x4000)]);
    assert_eq!(found.ranges, vec![(0x103, 0x4000, Section::Data), (0x100, 0x103, Section::Code)]);
    assert!(found.targets.is_empty());
}

#[test]
fn rom_targets_make_names_unique() {
    let named = vec![
        (1, "a".to_string()),
        (2, "a".to_string()),
        (3, "a".to_string()),
        (2, "b".to_string()),
    ];
    let t = rom_targets(&named, &vec![0x4005, 1, 0x10]);
    assert_eq!(name_for(&t, 1), Some("a"));
    assert_eq!(name_for(&t, 2), Some("b"));
    assert_eq!(name_for(&t, 3), Some("a_InternalLabel1"));
    assert_eq!(name_for(&t, 0x4005), Some("Label_Bank1_0005"));
    assert_eq!(name_for(&t, 0x10), Some("Label_Bank0_0010"));
    assert_eq!(name_for(&t, 7), None);
}

#[test]
fn bank_names_name_single_targets() {
    let starts = vec![0x0000u16, 0x4000, 0x4000];
    let targets = vec![(0x4005u64, "x".to_string()), (0x0100, "m".to_string())];
    let zero = bank_names(&targets, &starts, 0);
    assert_eq!(zero, vec![(0x0100, "m".to_string())]);
    let one = bank_names(&targets, &starts, 1);
    assert_eq!(one, vec![(0x4005, "x".to_string())]);
}

#[test]
fn dump_bank_writes_labels_data_code_and_nops() {
    let rom = loop_rom();
    let syms = WlaSym::new();
    let found = analyze(&rom, &syms, &vec![0x100], &Vec::new());
    let targets = rom_targets(&vec![(0x100, "main".to_string())], &found.targets);
    let starts = bank_starts(&syms, 1);
    let names = bank_names(&targets, &starts, 0);
    let text = dump_bank(&rom, 0, 0, &found.ranges, &targets, &names).unwrap();
    let mut expected = String::from(".BANK 0 SLOT 0\n.ORG 0\n");
    for _ in 0..16 {
        expected.push_str("\t.db $00 $00 $00 $00 $00 $00 $00 $00 $00 $00 $00 $00 $00 $00 $00 $00 \n");
    }
    expected.push_str("\n");
    expected.push_str("main:\n");
    expected.push_str("\tJR main ; Addr: 00000100\n");
    expected.push_str("\t.DSB 16126, $00\n");
    assert_eq!(text, expected);
}

#[test]
fn dump_bank_code_shows_addresses_and_leftover_bytes() {
    let mut rom = vec![0u8; BANK_SIZE as usize];
    rom[0] = 0x3e; // LD A,$12
    rom[1] = 0x12;
    rom[2] = 0xc9; // RET
    rom[3] = 0xc3; // JP with its address cut off
    rom[4] = 0x34;
    let ranges = vec![(0, 5, Section::Code), (5, 0x4000, Section::Nop)];
    let text = dump_bank(&rom, 0, 0, &ranges, &Vec::new(), &Vec::new()).unwrap();
    assert_eq!(
        text,
        ".BANK 0 SLOT 0\n.ORG 0\n\tLD A,$12 ; Addr: 00000000\n\tRET ; Addr: 00000002\n\t.db $c3 $34 \n\t.DSB 16379, $00\n"
    );
}

#[test]
fn dump_bank_refuses_a_jump_of_minus_128() {
    let mut rom = vec![0u8; BANK_SIZE as usize];
    rom[0] = 0x18;
    rom[1] = 0x80;
    let ranges = vec![(0, 2, Section::Code)];
    assert_eq!(dump_bank(&rom, 0, 0, &ranges, &Vec::new(), &Vec::new()), None);
}

#[test]
fn project_files() {
    let syms = three_banks();
    assert_eq!(bank_file_name(7), "bank007.s");
    assert_eq!(bank_file_name(42), "bank042.s");
    assert_eq!(bank_file_name(123), "bank123.s");
    assert_eq!(
        header_source(&syms, 2),
        ".ROMBANKMAP\nBANKSTOTAL 2\nBANKSIZE  $4000\nBANKS 1\n\nBANKSIZE  $4000\nBANKS 1\n\n.ENDRO\n.MEMORYMAP\nDEFAULTSLOT 0\nSLOT 0 $0000 size $4000 \nSLOT 1 $4000 size $4000 \n.ENDME\n.include \"bank000.s\"\n.include \"bank001.s\"\n"
    );
    assert_eq!(
        makefile_source(2),
        "rom.gb : rom.link rom.o\n\twlalink $< $@\nrom.o : header.s bank000.s bank001.s\n\twla-gb -o $@ $<\n"
    );
    assert_eq!(link_source(), "[objects]\nrom.o\n");
}
