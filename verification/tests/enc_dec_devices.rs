use common::codec_details::CodecDetails;
use common::device::Device;
use common::enc_dec_devices::EncDecDevices;
use common::ownership::Allocation;
use common::ownership::ArrayKind;
use common::records::DecodingSpec;
use common::records::EncodingSpec;
use common::tags::Chroma;
use common::tags::Codec;
use common::tags::ColorDepth;
use common::tags::Driver;
use common::tags::EncodeProfile;
use common::tags::ThreeValue;

fn decoding_spec(depth: ColorDepth) -> DecodingSpec {
    DecodingSpec { chroma: Chroma::Yuv420, color_depth: depth, max_width: 8192, max_height: 8192 }
}

fn encoding_spec(profile: EncodeProfile) -> EncodingSpec {
    EncodingSpec {
        chroma: Chroma::Yuv420,
        color_depth: ColorDepth::Bit8,
        profile,
        max_width: 4096,
        max_height: 4096,
        b_frames_supported: ThreeValue::True,
    }
}

fn array(kind: ArrayKind, count: u32) -> Allocation {
    Allocation::Array { kind, count }
}

#[test]
fn result_without_devices_is_null() {
    let devices = EncDecDevices::new(Vec::new());
    assert!(devices.devices().is_none());
    assert_eq!(devices.num_devices(), 0);
    assert!(devices.release().is_empty());
}

#[test]
fn result_pointer_is_null_exactly_for_a_count_of_zero() {
    for n in [0u8, 1, 4] {
        let list: Vec<Device> = (0..n)
            .map(|i| Device::new_with_ordinal(Driver::Nvidia, i, format!("GPU{}", i), Vec::new()))
            .collect();
        let devices = EncDecDevices::new(list);
        assert_eq!(devices.num_devices(), n as u32);
        assert_eq!(devices.devices().is_none(), n == 0);
        assert_eq!(devices.devices().map_or(0, |v| v.len()), n as usize);
    }
}

#[test]
fn result_keeps_its_devices_in_order() {
    let list = vec![
        Device::new_with_ordinal(Driver::Nvidia, 1, String::from("second"), Vec::new()),
        Device::new_with_ordinal(Driver::Nvidia, 0, String::from("first"), Vec::new()),
    ];
    let devices = EncDecDevices::new(list.clone());
    assert_eq!(devices.devices(), Some(&list));
    let ordinals: Vec<u8> = devices.devices().unwrap().iter().map(|d| d.ordinal()).collect();
    assert_eq!(ordinals, vec![1, 0]);
}

#[test]
fn two_devices_are_built_and_torn_down_whole() {
    let vaapi = Device::new_with_path(
        Driver::Vaapi,
        String::from("/dev/dri/renderD128"),
        None,
        vec![CodecDetails::new(
            Codec::H264,
            vec![decoding_spec(ColorDepth::Bit8)],
            vec![encoding_spec(EncodeProfile::Main), encoding_spec(EncodeProfile::High)],
        )],
    );
    let nvidia = Device::new_with_ordinal(
        Driver::Nvidia,
        0,
        String::from("GPU0"),
        vec![CodecDetails::new(Codec::Av1, vec![decoding_spec(ColorDepth::Bit10)], Vec::new())],
    );
    let devices = EncDecDevices::new(vec![vaapi, nvidia]);

    assert_eq!(devices.num_devices(), 2);
    let list = devices.devices().unwrap();
    assert_eq!(list.len(), 2);

    let first = &list[0];
    assert_eq!(first.driver(), Driver::Vaapi);
    assert_eq!(first.ordinal(), 0);
    assert_eq!(first.path().map(|t| t.as_bytes()), Some(&b"/dev/dri/renderD128"[..]));
    assert!(first.name().is_none());
    assert_eq!(first.num_codecs(), 1);
    let h264 = &first.codecs().unwrap()[0];
    assert_eq!(h264.codec(), Codec::H264);
    assert_eq!(h264.num_decoding_specs(), 1);
    assert_eq!(h264.num_encoding_specs(), 2);
    assert_eq!(h264.decoding_specs(), Some(&vec![decoding_spec(ColorDepth::Bit8)]));
    assert_eq!(
        h264.encoding_specs(),
        Some(&vec![encoding_spec(EncodeProfile::Main), encoding_spec(EncodeProfile::High)])
    );

    let second = &list[1];
    assert_eq!(second.driver(), Driver::Nvidia);
    assert_eq!(second.ordinal(), 0);
    assert!(second.path().is_none());
    assert_eq!(second.name().map(|t| t.as_bytes()), Some(&b"GPU0"[..]));
    assert_eq!(second.num_codecs(), 1);
    let av1 = &second.codecs().unwrap()[0];
    assert_eq!(av1.codec(), Codec::Av1);
    assert_eq!(av1.num_decoding_specs(), 1);
    assert_eq!(av1.num_encoding_specs(), 0);
    assert!(av1.encoding_specs().is_none());

    let freed = devices.release();
    assert_eq!(
        freed,
        vec![
            Allocation::Path,
            array(ArrayKind::DecodingSpecs, 1),
            array(ArrayKind::EncodingSpecs, 2),
            array(ArrayKind::Codecs, 1),
            Allocation::Name,
            array(ArrayKind::DecodingSpecs, 1),
            array(ArrayKind::Codecs, 1),
            array(ArrayKind::Devices, 2),
        ]
    );
    // Eight allocations were made: two texts, three arrays of limits, two
    // arrays of aggregates and the array of devices. Each is released once.
    assert_eq!(freed.len(), 8);
}

#[test]
fn releasing_a_result_releases_each_device_before_the_backing_store() {
    let list = vec![
        Device::new_with_ordinal(Driver::Nvidia, 0, String::from("a"), Vec::new()),
        Device::new_with_path(Driver::Vaapi, String::from("/dev/dri/card0"), Some(String::from("b")), Vec::new()),
        Device::new_with_path(Driver::Vaapi, String::from("/dev/dri/card1"), None, Vec::new()),
    ];
    let devices = EncDecDevices::new(list);
    assert_eq!(
        devices.release(),
        vec![
            Allocation::Name,
            Allocation::Path,
            Allocation::Name,
            Allocation::Path,
            array(ArrayKind::Devices, 3),
        ]
    );
}

#[test]
fn copy_of_a_result_says_the_same_and_stands_alone() {
    let devices = EncDecDevices::new(vec![
        Device::new_with_ordinal(
            Driver::Nvidia,
            2,
            String::from("GPU2"),
            vec![CodecDetails::new(Codec::Hevc, vec![decoding_spec(ColorDepth::Bit12)], Vec::new())],
        ),
        Device::new_with_path(Driver::Vaapi, String::from("/dev/dri/card0"), None, Vec::new()),
    ]);
    let copy = devices.clone();
    assert_eq!(copy, devices);
    let freed = devices.release();
    assert_eq!(freed.len(), 5);
    assert_eq!(copy.num_devices(), 2);
    assert_eq!(copy.devices().unwrap()[0].ordinal(), 2);
    assert_eq!(copy.release(), freed);
}
