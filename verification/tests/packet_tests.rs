use bmos::packet::{read_u32, MyPacketReader};

#[test]
fn read_u32_is_big_endian() {
    assert_eq!(read_u32(&[0x01, 0x02, 0x03, 0x04]), 0x0102_0304);
    assert_eq!(read_u32(&[0xff, 0xff, 0xff, 0xff, 0x00]), u32::MAX);
    assert_eq!(read_u32(&[0, 0, 0, 0]), 0);
}

#[test]
fn reader_needs_a_whole_header() {
    assert!(MyPacketReader::new(&[0, 0, 0, 1, 0, 0, 0]).is_none());
    assert!(MyPacketReader::new(&[]).is_none());
    assert!(MyPacketReader::new(&[0, 0, 0, 1, 0, 0, 0, 0]).is_some());
}

#[test]
fn reader_gives_version_and_payload() {
    let raw = [0, 0, 0, 7, 0, 0, 0, 3, 9, 8, 7, 6, 5];
    let p = MyPacketReader::new(&raw).unwrap();
    assert_eq!(p.get_version(), 7);
    assert_eq!(p.get_data(), &[9, 8, 7]);
}

#[test]
fn payload_is_cut_at_the_end_of_the_buffer() {
    let raw = [1, 0, 0, 0, 0, 0, 0, 10, 1, 2];
    let p = MyPacketReader::new(&raw).unwrap();
    assert_eq!(p.get_version(), 0x0100_0000);
    assert_eq!(p.get_data(), &[1, 2]);
}

#[test]
fn payload_with_huge_length_is_the_rest() {
    let raw = [0, 0, 0, 1, 0xff, 0xff, 0xff, 0xff, 4, 5, 6];
    let p = MyPacketReader::new(&raw).unwrap();
    assert_eq!(p.get_data(), &[4, 5, 6]);
}

#[test]
fn empty_payload() {
    let raw = [0, 0, 0, 2, 0, 0, 0, 0, 4, 5, 6];
    let p = MyPacketReader::new(&raw).unwrap();
    assert_eq!(p.get_version(), 2);
    assert_eq!(p.get_data().len(), 0);
}

#[test]
fn packet_written_then_read_back() {
    let version: u32 = 0xdead_beef;
    let data = [10u8, 20, 30, 40, 50];
    let mut raw = Vec::new();
    raw.extend_from_slice(&version.to_be_bytes());
    raw.extend_from_slice(&(data.len() as u32).to_be_bytes());
    raw.extend_from_slice(&data);
    raw.extend_from_slice(&[99, 98]);
    let p = MyPacketReader::new(&raw).unwrap();
    assert_eq!(p.get_version(), version);
    assert_eq!(p.get_data(), &data);
}
