use gb::cart::Cart;
use gb::mmu::{apply_offset, MMUInternal, SeekError, SeekFrom};

#[test]
fn offsets_move_within_the_address_space() {
    assert_eq!(apply_offset(0x100, 0x10), Ok(0x110));
    assert_eq!(apply_offset(0xfff0, 0x100), Ok(0xffff));
    assert_eq!(apply_offset(0x100, 0), Ok(0x100));
    assert_eq!(apply_offset(0xffff, -1), Ok(0));
    assert_eq!(apply_offset(0x100, -1), Err(SeekError::BeforeStart));
    assert_eq!(apply_offset(0xffff, 100_000), Ok(0xffff));
}

#[test]
fn seek_sets_the_position() {
    let mut bus = MMUInternal::new(Cart::fake(), None, None);
    assert_eq!(bus.seek(SeekFrom::Start(0x1234)), Ok(0x1234));
    assert_eq!(bus.seek(SeekFrom::Current(4)), Ok(0x1238));
    assert_eq!(bus.seek(SeekFrom::Start(0x1_0000)), Ok(0xffff));
    assert_eq!(bus.seek(SeekFrom::Current(-2)), Ok(1));
    assert_eq!(bus.seek(SeekFrom::Current(-2)), Err(SeekError::BeforeStart));
    assert_eq!(bus.seek(SeekFrom::Current(0)), Ok(1));
    assert_eq!(bus.seek(SeekFrom::End(-1)), Ok(0));
}
