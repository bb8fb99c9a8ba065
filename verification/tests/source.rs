use uasset::{Error, MemoryReader, ObjectVersion, ObjectVersionUE5, SeekFrom};

#[test]
fn read_gives_bytes_in_order_and_stops_at_the_end() {
    let mut reader = MemoryReader::new(vec![1, 2, 3, 4, 5]);
    assert_eq!(reader.read(2), vec![1, 2]);
    assert_eq!(reader.stream_position(), 2);
    assert_eq!(reader.read(0), Vec::<u8>::new());
    assert_eq!(reader.read(10), vec![3, 4, 5]);
    assert_eq!(reader.stream_position(), 5);
    assert_eq!(reader.read(1), Vec::<u8>::new());
    assert_eq!(reader.into_inner(), vec![1, 2, 3, 4, 5]);
}

#[test]
fn read_u32_le_puts_the_lowest_byte_first() {
    let mut reader = MemoryReader::new(vec![0xC1, 0x83, 0x2A, 0x9E, 0x01, 0x00, 0x00, 0x00]);
    assert_eq!(reader.read_u32_le(), Ok(0x9E2A83C1));
    assert_eq!(reader.read_u32_le(), Ok(1));
    assert_eq!(reader.read_u32_le(), Err(Error::ParseError(8)));
    assert_eq!(reader.stream_position(), 8);
}

#[test]
fn read_i32_le_is_signed() {
    let mut reader = MemoryReader::new(vec![0xFA, 0xFF, 0xFF, 0xFF, 0x00, 0x00, 0x00, 0x80, 0x78]);
    assert_eq!(reader.read_i32_le(), Ok(-6));
    assert_eq!(reader.read_i32_le(), Ok(i32::MIN));
    assert_eq!(reader.read_i32_le(), Err(Error::ParseError(8)));
    assert_eq!(reader.stream_position(), 8);
    assert_eq!(reader.read(4), vec![0x78]);
}

#[test]
fn read_i32_le_starts_at_the_position() {
    let mut reader = MemoryReader::new(vec![0xFF, 0x04, 0x03, 0x02, 0x01]);
    assert_eq!(reader.seek(SeekFrom::Start(1)), Ok(1));
    assert_eq!(reader.read_i32_le(), Ok(0x0102_0304));
}

#[test]
fn seek_measures_from_start_end_and_position() {
    let mut reader = MemoryReader::new(vec![0; 10]);
    assert_eq!(reader.seek(SeekFrom::Start(4)), Ok(4));
    assert_eq!(reader.seek(SeekFrom::Current(3)), Ok(7));
    assert_eq!(reader.seek(SeekFrom::Current(-7)), Ok(0));
    assert_eq!(reader.seek(SeekFrom::End(-10)), Ok(0));
    assert_eq!(reader.seek(SeekFrom::End(0)), Ok(10));
    assert_eq!(reader.stream_position(), 10);
}

#[test]
fn seek_before_the_first_byte_is_refused() {
    let mut reader = MemoryReader::new(vec![0; 10]);
    assert_eq!(reader.seek(SeekFrom::Start(4)), Ok(4));
    assert_eq!(reader.seek(SeekFrom::Current(-5)), Err(Error::IoError(SeekFrom::Current(-5))));
    assert_eq!(reader.seek(SeekFrom::End(-11)), Err(Error::IoError(SeekFrom::End(-11))));
    assert_eq!(reader.seek(SeekFrom::End(i64::MIN)), Err(Error::IoError(SeekFrom::End(i64::MIN))));
    assert_eq!(reader.stream_position(), 4);
}

#[test]
fn seek_past_the_end_leaves_nothing_to_read() {
    let mut reader = MemoryReader::new(vec![1, 2, 3]);
    assert_eq!(reader.seek(SeekFrom::End(5)), Ok(8));
    assert_eq!(reader.read(4), Vec::<u8>::new());
    assert_eq!(reader.read_i32_le(), Err(Error::ParseError(8)));
    assert_eq!(reader.stream_position(), 8);
}

#[test]
fn primary_timeline_bounds() {
    assert_eq!(ObjectVersion::from_i32(213), None);
    assert_eq!(ObjectVersion::from_i32(214).unwrap().to_i32(), 214);
    assert_eq!(ObjectVersion::from_i32(522).unwrap().to_i32(), 522);
    assert_eq!(ObjectVersion::from_i32(523), None);
    assert_eq!(ObjectVersion::from_i32(0), None);
    assert_eq!(ObjectVersion::from_i32(-214), None);
}

#[test]
fn secondary_timeline_bounds() {
    assert_eq!(ObjectVersionUE5::from_i32(999), None);
    assert_eq!(ObjectVersionUE5::from_i32(1000).unwrap().to_i32(), 1000);
    assert_eq!(ObjectVersionUE5::from_i32(1009).unwrap().to_i32(), 1009);
    assert_eq!(ObjectVersionUE5::from_i32(1010), None);
    assert_eq!(ObjectVersionUE5::from_i32(0), None);
}

#[test]
fn revisions_are_ordered_by_tag() {
    let a = ObjectVersion::from_i32(300).unwrap();
    let b = ObjectVersion::from_i32(301).unwrap();
    assert!(a < b);
    assert!(b.at_least(a));
    assert!(a.at_least(a));
    assert!(!a.at_least(b));
    let c = ObjectVersionUE5::from_i32(1001).unwrap();
    let d = ObjectVersionUE5::from_i32(1002).unwrap();
    assert!(c < d);
    assert!(d.to_i32() > c.to_i32());
}
