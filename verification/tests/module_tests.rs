use commonlibsse_ng::module::{
    load_segments, Module, ModuleHandle, ModuleHandleError, ModuleInitError, SCN_MEM_EXECUTE,
    SCN_MEM_WRITE,
};
use commonlibsse_ng::module_state::{ModuleState, ModuleStateError};
use commonlibsse_ng::segment::SegmentName;
use commonlibsse_ng::version::Version;

struct SectionSpec {
    name: &'static [u8],
    virtual_address: u32,
    raw_size: u32,
    characteristics: u32,
}

fn build_image(sections: &[SectionSpec]) -> Vec<u8> {
    let e_lfanew = 64u32;
    let size_of_optional_header = 240u16;
    let mut image = vec![0u8; 64];
    image[0] = 0x4D; // 'M'
    image[1] = 0x5A; // 'Z'
    image[60..64].copy_from_slice(&e_lfanew.to_le_bytes());

    // the newer header: signature, then the 20-byte file header
    image.extend_from_slice(&0x4550u32.to_le_bytes());
    let mut file_header = [0u8; 20];
    file_header[2..4].copy_from_slice(&(sections.len() as u16).to_le_bytes());
    file_header[16..18].copy_from_slice(&size_of_optional_header.to_le_bytes());
    image.extend_from_slice(&file_header);
    image.extend_from_slice(&vec![0u8; size_of_optional_header as usize]);

    for s in sections {
        let mut entry = [0u8; 40];
        entry[..s.name.len()].copy_from_slice(s.name);
        entry[12..16].copy_from_slice(&s.virtual_address.to_le_bytes());
        entry[16..20].copy_from_slice(&s.raw_size.to_le_bytes());
        entry[36..40].copy_from_slice(&s.characteristics.to_le_bytes());
        image.extend_from_slice(&entry);
    }
    image
}

#[test]
fn test_load_segments_by_name_and_flags() {
    let image = build_image(&[
        SectionSpec {
            name: b".text",
            virtual_address: 0x1000,
            raw_size: 0x500,
            characteristics: SCN_MEM_EXECUTE,
        },
        SectionSpec {
            name: b".rdata",
            virtual_address: 0x2000,
            raw_size: 0x300,
            characteristics: 0,
        },
        SectionSpec {
            name: b".data",
            virtual_address: 0x3000,
            raw_size: 0x200,
            characteristics: SCN_MEM_WRITE,
        },
        SectionSpec {
            name: b".text",
            virtual_address: 0x4000,
            raw_size: 0x100,
            characteristics: SCN_MEM_WRITE,
        },
    ]);
    let handle = ModuleHandle::new(0x7000_0000).expect("a nonzero base is a handle");
    let segments = load_segments(&handle, &image).expect("the headers are valid");
    assert_eq!(segments.len(), 8);

    let textx = segments[SegmentName::Textx.as_index()];
    assert_eq!(textx.proxy_base, 0x7000_0000);
    assert_eq!(textx.address, 0x1000);
    assert_eq!(textx.size, 0x500);

    let rdata = segments[SegmentName::Rdata.as_index()];
    assert_eq!(rdata.address, 0x2000);

    let data = segments[SegmentName::Data.as_index()];
    assert_eq!(data.address, 0x3000);

    // a writable, non-executable .text lands in the writable-code slot
    let textw = segments[SegmentName::Textw.as_index()];
    assert_eq!(textw.address, 0x4000);

    // slots nothing matched stay empty
    let tls = segments[SegmentName::Tls.as_index()];
    assert_eq!(tls.address, 0);
    assert_eq!(tls.size, 0);
}

#[test]
fn test_header_validation_errors() {
    let handle = ModuleHandle::new(0x1000).expect("a nonzero base is a handle");

    let mut image = build_image(&[]);
    image[0] = 0x00;
    assert_eq!(
        handle.try_as_nt_header(&image),
        Err(ModuleHandleError::InvalidDosHeaderSignature { actual: 0x5A00 })
    );

    let mut image = build_image(&[]);
    image[64] = 0xFF;
    assert!(matches!(
        handle.try_as_nt_header(&image),
        Err(ModuleHandleError::InvalidNtHeader64Signature { .. })
    ));

    assert_eq!(
        handle.try_as_nt_header(&[0u8; 10]),
        Err(ModuleHandleError::InvalidDosHeaderSignature { actual: 0 })
    );

    assert_eq!(ModuleHandle::new(0), Err(ModuleHandleError::HandleNotFound));
    assert_eq!(handle.as_raw(), 0x1000);
}

#[test]
fn test_module_init_and_state() {
    let image = build_image(&[SectionSpec {
        name: b".text",
        virtual_address: 0x1000,
        raw_size: 0x500,
        characteristics: SCN_MEM_EXECUTE,
    }]);
    let handle = ModuleHandle::new(0x7000_0000).expect("a nonzero base is a handle");
    let module = Module::init_inner(
        "SkyrimSE.exe".to_string(),
        handle,
        &image,
        Version::new(1, 5, 97, 0),
    )
    .expect("the module should initialize");

    assert!(module.is_se());
    assert!(!module.is_ae());
    assert!(!module.is_vr());
    assert_eq!(module.segment(SegmentName::Textx).address, 0x1000);
    assert_eq!(module.file_path, "SkyrimSE.exe");

    let state = ModuleState::init(Ok(module.clone()));
    let version = state.map_active(|m| m.version).expect("the module is active");
    assert_eq!(version, Version::new(1, 5, 97, 0));

    let mut state = state;
    state.reset().expect("reset always succeeds");
    assert_eq!(
        state.map_active(|m| m.version),
        Err(ModuleStateError::ModuleHasBeenCleared)
    );

    // a cleared state reinitializes from the fresh outcome
    let v = state
        .map_or_init(Ok(module.clone()), |m| m.version)
        .expect("the fresh module is installed");
    assert_eq!(v, Version::new(1, 5, 97, 0));
    assert!(matches!(state, ModuleState::Active(_)));
}

#[test]
fn test_module_state_failed_init() {
    let mut state = ModuleState::Cleared;
    let r = state.map_or_init(
        Err(ModuleInitError::ModuleNameAndHandleNotFound),
        |m| m.version,
    );
    assert_eq!(
        r,
        Err(ModuleStateError::FailedInit {
            source: ModuleInitError::ModuleNameAndHandleNotFound
        })
    );
    assert!(matches!(state, ModuleState::FailedInit(_)));
}

#[test]
fn test_module_init_bad_image() {
    let handle = ModuleHandle::new(0x1000).expect("a nonzero base is a handle");
    let r = Module::init_inner(
        "SkyrimSE.exe".to_string(),
        handle,
        &[0u8; 16],
        Version::new(1, 5, 97, 0),
    );
    assert!(matches!(r, Err(ModuleInitError::SegmentLoadFailed { .. })));
}
