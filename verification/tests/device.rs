use common::codec_details::CodecDetails;
use common::device::Device;
use common::ownership::Allocation;
use common::ownership::ArrayKind;
use common::ownership::Owner;
use common::records::DecodingSpec;
use common::records::EncodingSpec;
use common::tags::Chroma;
use common::tags::Codec;
use common::tags::ColorDepth;
use common::tags::Driver;
use common::tags::EncodeProfile;
use common::tags::ThreeValue;
use common::utils::drop_vec;
use common::utils::vec_to_ptr;

fn decoding_spec() -> DecodingSpec {
    DecodingSpec {
        chroma: Chroma::Yuv420,
        color_depth: ColorDepth::Bit8,
        max_width: 4096,
        max_height: 4096,
    }
}

fn encoding_spec() -> EncodingSpec {
    EncodingSpec {
        chroma: Chroma::Yuv420,
        color_depth: ColorDepth::Bit8,
        profile: EncodeProfile::Main,
        max_width: 4096,
        max_height: 4096,
        b_frames_supported: ThreeValue::False,
    }
}

fn array(kind: ArrayKind, count: u32) -> Allocation {
    Allocation::Array { kind, count }
}

#[test]
fn device_by_ordinal_has_a_null_path_and_a_name() {
    let device = Device::new_with_ordinal(Driver::Nvidia, 3, String::from("GeForce"), Vec::new());
    assert_eq!(device.driver(), Driver::Nvidia);
    assert_eq!(device.ordinal(), 3);
    assert!(device.path().is_none());
    assert_eq!(device.name().map(|t| t.as_bytes()), Some(&b"GeForce"[..]));
    assert!(device.codecs().is_none());
    assert_eq!(device.num_codecs(), 0);
}

#[test]
fn device_by_ordinal_keeps_an_empty_name() {
    let device = Device::new_with_ordinal(Driver::Nvidia, 0, String::new(), Vec::new());
    assert!(device.path().is_none());
    assert_eq!(device.name().map(|t| t.as_bytes().len()), Some(0));
}

#[test]
fn device_by_path_without_a_name_has_a_null_name() {
    let device = Device::new_with_path(Driver::Vaapi, String::from("/dev/dri/renderD128"), None, Vec::new());
    assert_eq!(device.driver(), Driver::Vaapi);
    assert_eq!(device.ordinal(), 0);
    assert_eq!(device.path().map(|t| t.as_bytes()), Some(&b"/dev/dri/renderD128"[..]));
    assert!(device.name().is_none());
}

#[test]
fn device_by_path_with_a_name_has_both_texts() {
    let device = Device::new_with_path(
        Driver::Vaapi,
        String::from("/dev/dri/renderD129"),
        Some(String::from("Arc A770")),
        Vec::new(),
    );
    assert_eq!(device.path().map(|t| t.as_bytes()), Some(&b"/dev/dri/renderD129"[..]));
    assert_eq!(device.name().map(|t| t.as_bytes()), Some(&b"Arc A770"[..]));
    assert_eq!(device.ordinal(), 0);
}

#[test]
fn device_name_is_null_exactly_when_none_was_given() {
    for name in [None, Some(String::new()), Some(String::from("iGPU"))] {
        let given = name.is_some();
        let device = Device::new_with_path(Driver::Vaapi, String::from("/dev/dri/card0"), name, Vec::new());
        assert!(device.path().is_some());
        assert_eq!(device.name().is_some(), given);
    }
}

#[test]
fn device_codecs_pointer_is_null_exactly_for_a_count_of_zero() {
    for n in [0u32, 1, 5] {
        let codecs: Vec<CodecDetails> =
            (0..n).map(|_| CodecDetails::new(Codec::H264, vec![decoding_spec()], Vec::new())).collect();
        let device = Device::new_with_ordinal(Driver::Nvidia, 1, String::from("GPU"), codecs);
        assert_eq!(device.num_codecs(), n);
        assert_eq!(device.codecs().is_none(), n == 0);
        assert_eq!(device.codecs().map_or(0, |v| v.len()), n as usize);
    }
}

#[test]
fn device_keeps_its_codecs_in_order() {
    let codecs = vec![
        CodecDetails::new(Codec::H264, vec![decoding_spec()], vec![encoding_spec()]),
        CodecDetails::new(Codec::Hevc, vec![decoding_spec()], Vec::new()),
        CodecDetails::new(Codec::Av1, Vec::new(), Vec::new()),
    ];
    let device = Device::new_with_path(Driver::Vaapi, String::from("/dev/dri/card1"), None, codecs.clone());
    assert_eq!(device.num_codecs(), 3);
    assert_eq!(device.codecs(), Some(&codecs));
    let kept: Vec<Codec> = device.codecs().unwrap().iter().map(|c| c.codec()).collect();
    assert_eq!(kept, vec![Codec::H264, Codec::Hevc, Codec::Av1]);
}

#[test]
fn releasing_a_device_by_ordinal_releases_name_then_codecs() {
    let codecs = vec![
        CodecDetails::new(Codec::H264, vec![decoding_spec()], vec![encoding_spec(), encoding_spec()]),
        CodecDetails::new(Codec::Av1, vec![decoding_spec(), decoding_spec(), decoding_spec()], Vec::new()),
    ];
    let device = Device::new_with_ordinal(Driver::Nvidia, 0, String::from("GPU0"), codecs);
    assert_eq!(
        device.release(),
        vec![
            Allocation::Name,
            array(ArrayKind::DecodingSpecs, 1),
            array(ArrayKind::EncodingSpecs, 2),
            array(ArrayKind::DecodingSpecs, 3),
            array(ArrayKind::Codecs, 2),
        ]
    );
}

#[test]
fn releasing_a_device_by_path_releases_path_then_name_then_codecs() {
    let codecs = vec![CodecDetails::new(Codec::Vp9, Vec::new(), vec![encoding_spec()])];
    let device = Device::new_with_path(
        Driver::Vaapi,
        String::from("/dev/dri/renderD128"),
        Some(String::from("Radeon")),
        codecs,
    );
    assert_eq!(
        device.release(),
        vec![
            Allocation::Path,
            Allocation::Name,
            array(ArrayKind::EncodingSpecs, 1),
            array(ArrayKind::Codecs, 1),
        ]
    );
}

#[test]
fn releasing_a_device_without_name_and_codecs_releases_the_path_alone() {
    let device = Device::new_with_path(Driver::Vaapi, String::from("/dev/dri/renderD128"), None, Vec::new());
    assert_eq!(device.release(), vec![Allocation::Path]);
}

#[test]
fn releasing_a_device_with_empty_aggregates_releases_their_backing_store() {
    let codecs = vec![
        CodecDetails::new(Codec::Mpeg1, Vec::new(), Vec::new()),
        CodecDetails::new(Codec::Mpeg2, Vec::new(), Vec::new()),
    ];
    let device = Device::new_with_ordinal(Driver::Nvidia, 7, String::from("old"), codecs);
    assert_eq!(device.release(), vec![Allocation::Name, array(ArrayKind::Codecs, 2)]);
}

#[test]
fn dropping_packed_aggregates_releases_each_before_the_backing_store() {
    let codecs = vec![
        CodecDetails::new(Codec::H264, vec![decoding_spec()], Vec::new()),
        CodecDetails::new(Codec::Hevc, Vec::new(), vec![encoding_spec()]),
    ];
    let (ptr, count) = vec_to_ptr(codecs);
    assert_eq!(count, 2);
    assert_eq!(
        drop_vec(ptr, count),
        vec![
            array(ArrayKind::DecodingSpecs, 1),
            array(ArrayKind::EncodingSpecs, 1),
            array(ArrayKind::Codecs, 2),
        ]
    );
}

#[test]
fn devices_are_listed_as_devices() {
    assert_eq!(<Device as Owner>::kind(), ArrayKind::Devices);
}

#[test]
fn copy_of_a_device_says_the_same_and_stands_alone() {
    let device = Device::new_with_path(
        Driver::Vaapi,
        String::from("/dev/dri/renderD128"),
        Some(String::from("Iris")),
        vec![CodecDetails::new(Codec::H264, vec![decoding_spec()], vec![encoding_spec()])],
    );
    let copy = device.clone();
    assert_eq!(copy, device);
    let freed = device.release();
    assert_eq!(copy.path().map(|t| t.as_bytes()), Some(&b"/dev/dri/renderD128"[..]));
    assert_eq!(copy.name().map(|t| t.as_bytes()), Some(&b"Iris"[..]));
    assert_eq!(copy.num_codecs(), 1);
    assert_eq!(copy.codecs().unwrap()[0].codec(), Codec::H264);
    assert_eq!(copy.release(), freed);
}
