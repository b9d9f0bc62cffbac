use commonlibsse_ng::segment::{Segment, SegmentName};

#[test]
fn test_segment_offset() {
    let segment = Segment::new(0x1000, 0x2000, 0x500);
    assert_eq!(segment.offset(), 0x1000);
}

#[test]
fn test_segment_offset_wraps() {
    let segment = Segment::new(0x3000, 0x2000, 0x500);
    assert_eq!(segment.offset(), 0x2000usize.wrapping_sub(0x3000));
}

#[test]
fn test_segment_name_indices() {
    assert_eq!(SegmentName::Textx.as_index(), 0);
    assert_eq!(SegmentName::Idata.as_index(), 1);
    assert_eq!(SegmentName::Rdata.as_index(), 2);
    assert_eq!(SegmentName::Data.as_index(), 3);
    assert_eq!(SegmentName::Pdata.as_index(), 4);
    assert_eq!(SegmentName::Tls.as_index(), 5);
    assert_eq!(SegmentName::Textw.as_index(), 6);
    assert_eq!(SegmentName::Gfids.as_index(), 7);
    assert_eq!(SegmentName::Total.as_index(), 8);
    assert_eq!(SegmentName::default(), SegmentName::Textx);
}
