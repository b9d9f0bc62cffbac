use commonlibsse_ng::header::{Header, HeaderError};
use commonlibsse_ng::mapping::Mapping;
use commonlibsse_ng::unpack::{parse_id, parse_offset, unpack_file, UnpackError};
use commonlibsse_ng::version::Version;

fn header_bytes(fmt: u32, version: (u32, u32, u32, u32), name: &[u8], ptr: u32, count: u32) -> Vec<u8> {
    let mut b: Vec<u8> = Vec::new();
    b.extend_from_slice(&fmt.to_le_bytes());
    b.extend_from_slice(&version.0.to_le_bytes());
    b.extend_from_slice(&version.1.to_le_bytes());
    b.extend_from_slice(&version.2.to_le_bytes());
    b.extend_from_slice(&version.3.to_le_bytes());
    b.extend_from_slice(&(name.len() as u32).to_le_bytes());
    b.extend_from_slice(name);
    b.extend_from_slice(&ptr.to_le_bytes());
    b.extend_from_slice(&count.to_le_bytes());
    b
}

fn literal_record(id: u64, offset: u64) -> Vec<u8> {
    let mut b: Vec<u8> = vec![0x00];
    b.extend_from_slice(&id.to_le_bytes());
    b.extend_from_slice(&offset.to_le_bytes());
    b
}

#[test]
fn test_header_decodes_documented_layout() {
    let bytes = header_bytes(1, (1, 5, 97, 0), b"SkyrimSE.exe", 8, 778674);
    let mut pos = 0usize;
    let header = Header::from_reader(&bytes, &mut pos, 1).expect("header should decode");
    assert_eq!(header.version, Version::new(1, 5, 97, 0));
    assert_eq!(header.pointer_size(), 8);
    assert_eq!(header.address_count(), 778674);
    assert_eq!(pos, bytes.len());
}

#[test]
fn test_header_unexpected_format() {
    let bytes = header_bytes(1, (1, 5, 97, 0), b"", 8, 0);
    let mut pos = 0usize;
    assert_eq!(
        Header::from_reader(&bytes, &mut pos, 2),
        Err(HeaderError::UnexpectedFormat { expected: 2, actual_format: 1 })
    );
}

#[test]
fn test_header_field_errors() {
    let mut pos = 0usize;
    assert_eq!(
        Header::from_reader(&[1, 0], &mut pos, 1),
        Err(HeaderError::ReadFormatVersion)
    );

    let mut pos = 0usize;
    assert_eq!(
        Header::from_reader(&[1, 0, 0, 0, 7, 7], &mut pos, 1),
        Err(HeaderError::ReadVersion)
    );

    let full = header_bytes(1, (1, 5, 97, 0), b"", 8, 3);
    let mut pos = 0usize;
    assert_eq!(
        Header::from_reader(&full[..22], &mut pos, 1),
        Err(HeaderError::ReadNameLength)
    );
    let mut pos = 0usize;
    assert_eq!(
        Header::from_reader(&full[..24], &mut pos, 1),
        Err(HeaderError::ReadPointerSize)
    );
    let mut pos = 0usize;
    assert_eq!(
        Header::from_reader(&full[..30], &mut pos, 1),
        Err(HeaderError::ReadAddressCount)
    );

    // a name length that would seek before the start of the input
    let mut bad = header_bytes(1, (1, 5, 97, 0), b"", 8, 3);
    bad[20..24].copy_from_slice(&(-100i32).to_le_bytes());
    let mut pos = 0usize;
    assert_eq!(
        Header::from_reader(&bad, &mut pos, 1),
        Err(HeaderError::SeekAfterNameLength)
    );
}

/// A minimal file of literal records decodes to exactly the pairs given.
#[test]
fn test_round_trip_literal_records() {
    let pairs: [(u64, u64); 3] = [(10, 0x100), (20, 0x200), (30, 0x300)];
    let mut bytes = header_bytes(1, (1, 5, 97, 0), b"", 8, pairs.len() as u32);
    for (id, off) in pairs {
        bytes.extend_from_slice(&literal_record(id, off));
    }

    let mut pos = 0usize;
    let header = Header::from_reader(&bytes, &mut pos, 1).expect("header should decode");
    assert_eq!(header.address_count(), 3);
    let table = unpack_file(&bytes, &mut pos, header.address_count(), header.pointer_size())
        .expect("records should decode");
    let expected: Vec<Mapping> = pairs
        .iter()
        .map(|&(id, offset)| Mapping { id, offset })
        .collect();
    assert_eq!(table, expected);
    assert_eq!(pos, bytes.len());
}

/// The decoded table is sorted by id whatever order the file encodes.
#[test]
fn test_decoded_table_is_sorted() {
    let pairs: [(u64, u64); 4] = [(30, 3), (10, 1), (40, 4), (20, 2)];
    let mut bytes: Vec<u8> = Vec::new();
    for (id, off) in pairs {
        bytes.extend_from_slice(&literal_record(id, off));
    }
    let mut pos = 0usize;
    let table = unpack_file(&bytes, &mut pos, 4, 8).expect("records should decode");
    let ids: Vec<u64> = table.iter().map(|m| m.id).collect();
    assert_eq!(ids, vec![10, 20, 30, 40]);
    for w in table.windows(2) {
        assert!(w[0].id <= w[1].id);
    }
}

/// Delta encoding: after (id=100, offset=800), a control byte selecting
/// "id +1, offset +u8" with a data byte of 5 yields (101, 805).
#[test]
fn test_delta_encoding() {
    let mut bytes = literal_record(100, 800);
    bytes.push(0x21); // low nibble 1: id + 1; high nibble 2: offset + u8
    bytes.push(5);
    let mut pos = 0usize;
    let table = unpack_file(&bytes, &mut pos, 2, 8).expect("records should decode");
    assert_eq!(table, vec![Mapping { id: 100, offset: 800 }, Mapping { id: 101, offset: 805 }]);
}

/// Divide flag: with pointer size 8 and previous offset 800, a control
/// byte with the divide flag and "offset literal u16 = 3" decodes to
/// 3 * 8 = 24, not 3.
#[test]
fn test_divide_flag() {
    let mut bytes = literal_record(100, 800);
    bytes.push(0xE1); // low 1: id + 1; high 0xE = 8 | 6: divide flag, literal u16
    bytes.extend_from_slice(&3u16.to_le_bytes());
    let mut pos = 0usize;
    let table = unpack_file(&bytes, &mut pos, 2, 8).expect("records should decode");
    assert_eq!(table, vec![Mapping { id: 100, offset: 800 }, Mapping { id: 101, offset: 24 }]);
}

/// The divide flag also divides the working value before a delta is
/// applied: offset +u8(1) on 800 / 8 gives (100 + 1) * 8 = 808.
#[test]
fn test_divide_flag_with_delta() {
    let mut bytes = literal_record(100, 800);
    bytes.push(0xA1); // low 1: id + 1; high 0xA = 8 | 2: divide flag, offset + u8
    bytes.push(1);
    let mut pos = 0usize;
    let table = unpack_file(&bytes, &mut pos, 2, 8).expect("records should decode");
    assert_eq!(table[1], Mapping { id: 101, offset: 808 });
}

#[test]
fn test_invalid_id_nibble() {
    let bytes: Vec<u8> = vec![0x08]; // low nibble 8 names no id encoding
    let mut pos = 0usize;
    assert_eq!(
        unpack_file(&bytes, &mut pos, 1, 8),
        Err(UnpackError::InvalidId { id: 8 })
    );
}

#[test]
fn test_out_of_data() {
    let bytes: Vec<u8> = vec![0x00, 1, 2]; // literal record cut short
    let mut pos = 0usize;
    assert_eq!(unpack_file(&bytes, &mut pos, 1, 8), Err(UnpackError::OutOfData));

    let empty: Vec<u8> = Vec::new();
    let mut pos = 0usize;
    assert_eq!(unpack_file(&empty, &mut pos, 1, 8), Err(UnpackError::OutOfData));
}

#[test]
fn test_zero_pointer_size_rejected() {
    let bytes = literal_record(1, 2);
    let mut pos = 0usize;
    assert_eq!(
        unpack_file(&bytes, &mut pos, 1, 0),
        Err(UnpackError::ZeroPointerSize)
    );
}

#[test]
fn test_parse_id_encodings() {
    // literal u64
    let mut pos = 0usize;
    assert_eq!(parse_id(&7u64.to_le_bytes(), &mut pos, 0, 99), Ok(7));
    // + 1
    let mut pos = 0usize;
    assert_eq!(parse_id(&[], &mut pos, 1, 99), Ok(100));
    // + u8 and - u8
    let mut pos = 0usize;
    assert_eq!(parse_id(&[5], &mut pos, 2, 99), Ok(104));
    let mut pos = 0usize;
    assert_eq!(parse_id(&[5], &mut pos, 3, 99), Ok(94));
    // + u16 and - u16
    let mut pos = 0usize;
    assert_eq!(parse_id(&300u16.to_le_bytes(), &mut pos, 4, 99), Ok(399));
    let mut pos = 0usize;
    assert_eq!(parse_id(&30u16.to_le_bytes(), &mut pos, 5, 99), Ok(69));
    // literal u16 and literal u32
    let mut pos = 0usize;
    assert_eq!(parse_id(&4660u16.to_le_bytes(), &mut pos, 6, 99), Ok(4660));
    let mut pos = 0usize;
    assert_eq!(parse_id(&70000u32.to_le_bytes(), &mut pos, 7, 99), Ok(70000));
    // any other nibble is invalid
    let mut pos = 0usize;
    assert_eq!(parse_id(&[], &mut pos, 9, 99), Err(UnpackError::InvalidId { id: 9 }));
}

#[test]
fn test_parse_offset_encodings() {
    let mut pos = 0usize;
    assert_eq!(parse_offset(&9u64.to_le_bytes(), &mut pos, 0, 800), Ok(9));
    let mut pos = 0usize;
    assert_eq!(parse_offset(&[], &mut pos, 1, 800), Ok(801));
    let mut pos = 0usize;
    assert_eq!(parse_offset(&[5], &mut pos, 2, 800), Ok(805));
    let mut pos = 0usize;
    assert_eq!(parse_offset(&[5], &mut pos, 3, 800), Ok(795));
    let mut pos = 0usize;
    assert_eq!(parse_offset(&1000u16.to_le_bytes(), &mut pos, 4, 800), Ok(1800));
    let mut pos = 0usize;
    assert_eq!(parse_offset(&100u16.to_le_bytes(), &mut pos, 5, 800), Ok(700));
    let mut pos = 0usize;
    assert_eq!(parse_offset(&3u16.to_le_bytes(), &mut pos, 6, 800), Ok(3));
    let mut pos = 0usize;
    assert_eq!(parse_offset(&70000u32.to_le_bytes(), &mut pos, 7, 800), Ok(70000));
}
