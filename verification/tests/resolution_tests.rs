use commonlibsse_ng::database::IdDatabase;
use commonlibsse_ng::id::ID;
use commonlibsse_ng::offset::{Offset, VariantOffset};
use commonlibsse_ng::relocation::{invoke, relocate, Relocation};
use commonlibsse_ng::relocation_id::RelocationID;
use commonlibsse_ng::runtime::Runtime;
use commonlibsse_ng::variant_id::VariantID;
use commonlibsse_ng::version::Version;

fn small_db() -> IdDatabase {
    // ids 10, 20, 30 at offsets 0x100, 0x200, 0x300
    let mut b: Vec<u8> = Vec::new();
    b.extend_from_slice(&1u32.to_le_bytes());
    for part in [1u32, 5, 97, 0] {
        b.extend_from_slice(&part.to_le_bytes());
    }
    b.extend_from_slice(&0u32.to_le_bytes());
    b.extend_from_slice(&8u32.to_le_bytes());
    b.extend_from_slice(&3u32.to_le_bytes());
    for (id, off) in [(10u64, 0x100u64), (20, 0x200), (30, 0x300)] {
        b.push(0x00);
        b.extend_from_slice(&id.to_le_bytes());
        b.extend_from_slice(&off.to_le_bytes());
    }
    IdDatabase::from_bin(&b, &Version::new(1, 5, 97, 0), 1).expect("the file should load")
}

#[test]
fn test_id_resolution() {
    let mut db = small_db();
    let id = ID::new(20);
    assert_eq!(id.offset(&mut db), Ok(0x200));
    assert_eq!(id.address(&mut db, 0x1000), Ok(0x1200));
    assert!(ID::new(21).offset(&mut db).is_err());
}

#[test]
fn test_relocation_id_selects_by_flavor() {
    let mut db = small_db();
    let rid = RelocationID::new(10, 20, 30);
    assert_eq!(rid.id(Runtime::Se), 10);
    assert_eq!(rid.id(Runtime::Ae), 20);
    assert_eq!(rid.id(Runtime::Vr), 30);
    assert_eq!(rid.offset(&mut db, Runtime::Se), Ok(0x100));
    assert_eq!(rid.offset(&mut db, Runtime::Ae), Ok(0x200));
    assert_eq!(rid.address(&mut db, Runtime::Vr, 0x1000), Ok(0x1300));
}

#[test]
fn test_variant_id_selects_by_flavor() {
    let mut db = small_db();
    let vid = VariantID::new(10, 20, 30);
    assert_eq!(vid.offset(&mut db, Runtime::Se), Ok(0x100));
    assert_eq!(vid.offset(&mut db, Runtime::Ae), Ok(0x200));
    assert_eq!(vid.offset(&mut db, Runtime::Vr), Ok(0x300));
    // an undetermined flavor looks up id 0, which is absent
    assert!(vid.offset(&mut db, Runtime::Unknown).is_err());
}

#[test]
fn test_offset_resolution() {
    let o = Offset::new(0x40);
    assert_eq!(o.offset(), 0x40);
    assert_eq!(o.address(0x1000), 0x1040);
    // a zero offset resolves to the zero address
    assert_eq!(Offset::new(0).address(0x1000), 0);
}

#[test]
fn test_variant_offset_resolution() {
    let vo = VariantOffset::new(0x10, 0x20, 0x30);
    assert_eq!(vo.offset(Runtime::Se), 0x10);
    assert_eq!(vo.offset(Runtime::Ae), 0x20);
    assert_eq!(vo.offset(Runtime::Vr), 0x30);
    assert_eq!(vo.offset(Runtime::Unknown), 0);
    assert_eq!(vo.address(Runtime::Ae, 0x1000), 0x1020);
    assert_eq!(vo.address(Runtime::Unknown, 0x1000), 0);
}

#[test]
fn test_relocation() {
    let r: Relocation<u64> = Relocation::new(0x1040);
    assert_eq!(r.address(), 0x1040);
    assert_eq!(r.offset(0x1000), Ok(0x40));
    let r2: Relocation<u64> = Relocation::from_addresses(0x1000, 0x40);
    assert_eq!(r2.address(), 0x1040);
}

#[test]
fn test_relocate_picks_by_flavor() {
    assert_eq!(relocate(1u64, 2u64, Runtime::Se), 1);
    assert_eq!(relocate(1u64, 2u64, Runtime::Vr), 1);
    assert_eq!(relocate(1u64, 2u64, Runtime::Unknown), 1);
    assert_eq!(relocate(1u64, 2u64, Runtime::Ae), 2);
}

#[test]
fn test_invoke() {
    let double = |x: u32| x * 2;
    assert_eq!(invoke(double, 21), 42);
}
