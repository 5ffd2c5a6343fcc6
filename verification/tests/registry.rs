use tthresh::AllocPlan;
use tthresh::Buffer;
use tthresh::Element;
use tthresh::ElementKind;
use tthresh::Error;
use tthresh::interpret_decompress;
use tthresh::plan_alloc;

const ALL_KINDS: [ElementKind; 5] = [
    ElementKind::U8,
    ElementKind::U16,
    ElementKind::I32,
    ElementKind::F32,
    ElementKind::F64,
];

#[test]
fn native_tags_are_fixed() {
    assert_eq!(ElementKind::U8.native_tag(), 0);
    assert_eq!(ElementKind::U16.native_tag(), 1);
    assert_eq!(ElementKind::I32.native_tag(), 2);
    assert_eq!(ElementKind::F32.native_tag(), 3);
    assert_eq!(ElementKind::F64.native_tag(), 4);
}

#[test]
fn byte_widths_are_fixed() {
    assert_eq!(ElementKind::U8.byte_width(), 1);
    assert_eq!(ElementKind::U16.byte_width(), 2);
    assert_eq!(ElementKind::I32.byte_width(), 4);
    assert_eq!(ElementKind::F32.byte_width(), 4);
    assert_eq!(ElementKind::F64.byte_width(), 8);
}

#[test]
fn every_kind_round_trips_through_its_native_tag() {
    for kind in ALL_KINDS {
        assert_eq!(ElementKind::from_native_tag(kind.native_tag()), Some(kind));
    }
}

#[test]
fn tags_outside_the_closed_set_are_refused() {
    assert_eq!(ElementKind::from_native_tag(5), None);
    assert_eq!(ElementKind::from_native_tag(6), None);
    assert_eq!(ElementKind::from_native_tag(u32::MAX), None);
}

#[test]
fn element_types_map_to_their_kinds() {
    assert_eq!(<u8 as Element>::element_kind(), ElementKind::U8);
    assert_eq!(<u16 as Element>::element_kind(), ElementKind::U16);
    assert_eq!(<i32 as Element>::element_kind(), ElementKind::I32);
}

#[test]
fn zero_size_requests_get_a_non_null_aligned_sentinel() {
    for align in [1usize, 2, 4, 8, 16, 4096] {
        match plan_alloc(0, align) {
            AllocPlan::Sentinel { addr } => {
                assert_ne!(addr, 0);
                assert_eq!(addr % align, 0);
            }
            AllocPlan::Heap { .. } => panic!("a zero-size request must not touch the heap"),
        }
    }
}

#[test]
fn non_zero_requests_go_to_the_heap_unchanged() {
    assert_eq!(plan_alloc(262144, 8), AllocPlan::Heap { size: 262144, align: 8 });
    assert_eq!(plan_alloc(1, 1), AllocPlan::Heap { size: 1, align: 1 });
}

#[test]
fn failed_decompression_is_reported_as_corruption() {
    assert_eq!(
        interpret_decompress(false, 0, &vec![]),
        Err(Error::CorruptedCompressedBytes)
    );
    // whatever stands in the untouched output slots is ignored
    assert_eq!(
        interpret_decompress(false, 99, &vec![7, 7]),
        Err(Error::CorruptedCompressedBytes)
    );
}

#[test]
fn successful_decompression_recovers_kind_and_shape() {
    for kind in ALL_KINDS {
        let (recovered_kind, shape) = interpret_decompress(true, kind.native_tag(), &vec![64, 64, 64])
            .expect("interpretation should not fail");
        assert_eq!(recovered_kind, kind);
        assert_eq!(shape, vec![64, 64, 64]);
    }
}

#[test]
fn buffers_keep_their_tag_and_length() {
    let buffers = [
        Buffer::U8(vec![42]),
        Buffer::U16(vec![42, 42]),
        Buffer::I32(vec![42, 42, 42]),
        Buffer::F32(vec![(42.0f32).to_bits(); 4]),
        Buffer::F64(vec![(42.0f64).to_bits(); 5]),
    ];
    for (i, (buffer, kind)) in buffers.iter().zip(ALL_KINDS).enumerate() {
        assert_eq!(buffer.element_kind(), kind);
        assert_eq!(buffer.len(), i + 1);
    }
}

#[test]
fn error_messages_name_the_failure() {
    assert_eq!(
        Error::InsufficientDimensionality.message(),
        "data must be at least three-dimensional"
    );
    assert_eq!(
        Error::InvalidShape.message(),
        "shape does not match the provided buffer"
    );
    assert_eq!(
        Error::ExcessiveSize.message(),
        "data shape sizes must fit within [0; 2^32 - 1]"
    );
    assert_eq!(
        Error::NegativeErrorBound.message(),
        "error bound must be non-negative"
    );
    assert_eq!(
        Error::CorruptedCompressedBytes.message(),
        "compressed bytes have been corrupted"
    );
}
