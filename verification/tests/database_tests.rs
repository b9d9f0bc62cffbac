use commonlibsse_ng::database::{bin_file_path, shared_memory_name, DataBaseError, IdDatabase};
use commonlibsse_ng::header::HeaderError;
use commonlibsse_ng::mapping::Mapping;
use commonlibsse_ng::offset_to_id::OffsetToID;
use commonlibsse_ng::runtime::Runtime;
use commonlibsse_ng::version::Version;

fn bin_file(fmt: u32, version: (u32, u32, u32, u32), pairs: &[(u64, u64)]) -> Vec<u8> {
    let mut b: Vec<u8> = Vec::new();
    b.extend_from_slice(&fmt.to_le_bytes());
    b.extend_from_slice(&version.0.to_le_bytes());
    b.extend_from_slice(&version.1.to_le_bytes());
    b.extend_from_slice(&version.2.to_le_bytes());
    b.extend_from_slice(&version.3.to_le_bytes());
    b.extend_from_slice(&0u32.to_le_bytes()); // no name
    b.extend_from_slice(&8u32.to_le_bytes()); // pointer size
    b.extend_from_slice(&(pairs.len() as u32).to_le_bytes());
    for &(id, off) in pairs {
        b.push(0x00);
        b.extend_from_slice(&id.to_le_bytes());
        b.extend_from_slice(&off.to_le_bytes());
    }
    b
}

/// Every present id yields its exact offset; every absent id yields
/// `NotFoundId`.
#[test]
fn test_lookup_correctness() {
    let pairs = [(30u64, 0x330u64), (10, 0x110), (20, 0x220)];
    let bytes = bin_file(1, (1, 5, 97, 0), &pairs);
    let mut db = IdDatabase::from_bin(&bytes, &Version::new(1, 5, 97, 0), 1)
        .expect("the file should load");
    for (id, off) in pairs {
        assert_eq!(db.id_to_offset(id), Ok(off as usize));
    }
    assert_eq!(db.id_to_offset(15), Err(DataBaseError::NotFoundId { id: 15 }));
    assert_eq!(db.id_to_offset(0), Err(DataBaseError::NotFoundId { id: 0 }));
    assert_eq!(db.id_to_offset(99), Err(DataBaseError::NotFoundId { id: 99 }));
}

/// A file whose embedded version differs from the live version fails with
/// `VersionMismatch` and populates nothing.
#[test]
fn test_version_mismatch() {
    let bytes = bin_file(1, (1, 5, 97, 0), &[(1, 2)]);
    let live = Version::new(1, 6, 1170, 0);
    let r = IdDatabase::from_bin(&bytes, &live, 1);
    assert_eq!(
        r.err(),
        Some(DataBaseError::VersionMismatch {
            expected: live,
            actual: Version::new(1, 5, 97, 0),
        })
    );
}

#[test]
fn test_wrong_format_version() {
    let bytes = bin_file(1, (1, 6, 1170, 0), &[(1, 2)]);
    let r = IdDatabase::from_bin(&bytes, &Version::new(1, 6, 1170, 0), 2);
    assert_eq!(
        r.err(),
        Some(DataBaseError::HeaderParseError {
            source: HeaderError::UnexpectedFormat { expected: 2, actual_format: 1 }
        })
    );
}

/// Two loads of the same table: the first decodes, the second attaches to
/// the first's table without decoding, and both observe the same table.
#[test]
fn test_idempotent_shared_creation() {
    let pairs = [(5u64, 50u64), (6, 60), (7, 70)];
    let version = Version::new(1, 5, 97, 0);
    let bytes = bin_file(1, (1, 5, 97, 0), &pairs);

    let mut decode_count = 0;

    let (db1, decoded1) =
        IdDatabase::load(&version, Runtime::Se, &bytes, None).expect("first load");
    if decoded1 {
        decode_count += 1;
    }
    let table1: Vec<Mapping> = db1.mem_map.data.clone();

    let (db2, decoded2) = IdDatabase::load(&version, Runtime::Se, &bytes, Some(table1.clone()))
        .expect("second load");
    if decoded2 {
        decode_count += 1;
    }

    assert_eq!(decode_count, 1);
    assert_eq!(db1.mem_map.data, db2.mem_map.data);

    let mut db1 = db1;
    let mut db2 = db2;
    for (id, off) in pairs {
        assert_eq!(db1.id_to_offset(id), Ok(off as usize));
        assert_eq!(db2.id_to_offset(id), Ok(off as usize));
    }
}

/// The version check runs before the create-or-open choice: even an
/// attach to an existing table fails on a mismatched file.
#[test]
fn test_version_mismatch_on_attach() {
    let bytes = bin_file(1, (1, 5, 97, 0), &[(1, 2)]);
    let live = Version::new(1, 6, 640, 0);
    let r = IdDatabase::load(&live, Runtime::Se, &bytes, Some(Vec::new()));
    assert!(matches!(r, Err(DataBaseError::VersionMismatch { .. })));
}

#[test]
fn test_ae_uses_format_two() {
    let bytes = bin_file(2, (1, 6, 1170, 0), &[(1, 2)]);
    let version = Version::new(1, 6, 1170, 0);
    let (mut db, decoded) =
        IdDatabase::load(&version, Runtime::Ae, &bytes, None).expect("the file should load");
    assert!(decoded);
    assert_eq!(db.id_to_offset(1), Ok(2));
}

#[test]
fn test_bin_file_path() {
    let se = Version::new(1, 5, 97, 0);
    assert_eq!(
        bin_file_path(&se, Runtime::Se),
        "Data/SKSE/Plugins/version-1.5.97.0.bin"
    );
    let ae = Version::new(1, 6, 1170, 0);
    assert_eq!(
        bin_file_path(&ae, Runtime::Ae),
        "Data/SKSE/Plugins/versionlib-1.6.1170.0.bin"
    );
    assert_eq!(
        bin_file_path(&se, Runtime::Vr),
        "Data/SKSE/Plugins/version-1.5.97.0.bin"
    );
}

#[test]
fn test_shared_memory_name() {
    let v = Version::new(1, 5, 97, 0);
    assert_eq!(shared_memory_name(&v), "CommonLibSSEOffsets-v2-1.5.97.0");
}

/// The reverse table answers offset lookups and leaves the canonical
/// table untouched.
#[test]
fn test_offset_to_id() {
    let pairs = [(30u64, 3u64), (10, 1), (20, 2)];
    let bytes = bin_file(1, (1, 5, 97, 0), &pairs);
    let mut db = IdDatabase::from_bin(&bytes, &Version::new(1, 5, 97, 0), 1)
        .expect("the file should load");
    let before = db.mem_map.data.clone();

    let o2i = OffsetToID::new(&mut db).expect("the copy should build");
    assert_eq!(o2i.get_id(1), Some(10));
    assert_eq!(o2i.get_id(2), Some(20));
    assert_eq!(o2i.get_id(3), Some(30));
    assert_eq!(o2i.get_id(4), None);

    assert_eq!(db.mem_map.data, before);
    for w in o2i.offset_to_id.windows(2) {
        assert!(w[0].offset <= w[1].offset);
    }
}
