use ash_layer::layer::LayerFunction;
use ash_layer::version::{api_version_major, api_version_minor, api_version_patch};
use ash_layer::{version_from_vulkan, Version};

fn pack(major: u32, minor: u32, patch: u32) -> u32 {
    (major << 22) | (minor << 12) | patch
}

#[test]
fn decodes_vulkan_1_2_170() {
    assert_eq!(
        version_from_vulkan(pack(1, 2, 170)),
        Version { major: 1, minor: 2, patch: 170 }
    );
}

#[test]
fn decodes_zero() {
    assert_eq!(version_from_vulkan(0), Version { major: 0, minor: 0, patch: 0 });
}

#[test]
fn decodes_largest_fields() {
    assert_eq!(
        version_from_vulkan(0x1fff_ffff),
        Version { major: 127, minor: 1023, patch: 4095 }
    );
}

#[test]
fn variant_bits_are_dropped() {
    assert_eq!(
        version_from_vulkan(0xE0C0_3005),
        Version { major: 3, minor: 3, patch: 5 }
    );
    assert_eq!(version_from_vulkan(u32::MAX), version_from_vulkan(0x1fff_ffff));
    assert_eq!(version_from_vulkan(0x2000_0000), version_from_vulkan(0));
}

#[test]
fn different_fields_give_different_versions() {
    assert_ne!(version_from_vulkan(pack(1, 2, 3)), version_from_vulkan(pack(1, 2, 4)));
    assert_ne!(version_from_vulkan(pack(1, 2, 3)), version_from_vulkan(pack(1, 3, 3)));
    assert_ne!(version_from_vulkan(pack(1, 2, 3)), version_from_vulkan(pack(2, 2, 3)));
}

#[test]
fn packing_round_trip() {
    for &(major, minor, patch) in &[(0u32, 0u32, 0u32), (1, 0, 0), (1, 3, 250), (127, 1023, 4095), (5, 512, 2048)] {
        let v = version_from_vulkan(pack(major, minor, patch));
        assert_eq!(v, Version { major, minor, patch });
        assert_eq!(pack(v.major, v.minor, v.patch), pack(major, minor, patch));
    }
}

#[test]
fn nvidia_style_driver_version() {
    // 470.57.2 in the packing NVIDIA uses, read with the API layout.
    let raw: u32 = (470 << 22) | (57 << 14) | (2 << 6);
    assert_eq!(
        version_from_vulkan(raw),
        Version { major: 470 % 128, minor: (raw >> 12) & 0x3ff, patch: raw & 0xfff }
    );
}

#[test]
fn field_helpers() {
    let raw = pack(7, 300, 4000) | (5 << 29);
    assert_eq!(api_version_major(raw), 7);
    assert_eq!(api_version_minor(raw), 300);
    assert_eq!(api_version_patch(raw), 4000);
}

#[test]
fn layer_function_tags() {
    assert_eq!(LayerFunction::LayerLinkInfo.as_raw(), 0);
    assert_eq!(LayerFunction::LoaderDataCallback.as_raw(), 1);
    assert_eq!(LayerFunction::LayerLinkInfo, LayerFunction::LayerLinkInfo);
    assert_ne!(LayerFunction::LayerLinkInfo, LayerFunction::LoaderDataCallback);
}
