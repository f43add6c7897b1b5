use direct3d11::enums::{
    BindFlags, CpuAccessFlags, CreateDeviceFlags, DriverType, FeatureLevel, MapMode,
    ResourceMiscFlags, Usage,
};

#[test]
fn union_of_all_named_bits_validates() {
    assert!(BindFlags(BindFlags::MASK).validate());
    assert!(CpuAccessFlags(CpuAccessFlags::MASK).validate());
    assert!(CreateDeviceFlags(CreateDeviceFlags::MASK).validate());
    assert!(ResourceMiscFlags(ResourceMiscFlags::MASK).validate());
}

#[test]
fn masks_are_the_unions_of_the_named_bits() {
    assert_eq!(BindFlags::MASK, 0x6FF);
    assert_eq!(CpuAccessFlags::MASK, 0x30000);
    assert_eq!(CreateDeviceFlags::MASK, 0x9EF);
    assert_eq!(ResourceMiscFlags::MASK, 0xEFBF7);
}

#[test]
fn every_named_bit_validates_alone() {
    for bit in [0x1, 0x2, 0x4, 0x8, 0x10, 0x20, 0x40, 0x80, 0x200, 0x400] {
        assert!(BindFlags(bit).validate());
    }
    for bit in [0x10000, 0x20000, 0x30000] {
        assert!(CpuAccessFlags(bit).validate());
    }
    for bit in [0x1, 0x2, 0x4, 0x8, 0x20, 0x40, 0x80, 0x100, 0x800] {
        assert!(CreateDeviceFlags(bit).validate());
    }
    for bit in [
        0x1, 0x2, 0x4, 0x10, 0x20, 0x40, 0x80, 0x100, 0x200, 0x800, 0x1000, 0x2000, 0x4000,
        0x8000, 0x20000, 0x40000, 0x80000,
    ] {
        assert!(ResourceMiscFlags(bit).validate());
    }
}

#[test]
fn every_single_bit_outside_the_named_ones_is_invalid() {
    for i in 0..32 {
        let bit: u32 = 1 << i;
        assert_eq!(BindFlags(bit).validate(), 0x6FF & bit != 0);
        assert_eq!(CpuAccessFlags(bit).validate(), 0x30000 & bit != 0);
        assert_eq!(CreateDeviceFlags(bit).validate(), 0x9EF & bit != 0);
        assert_eq!(ResourceMiscFlags(bit).validate(), 0xEFBF7 & bit != 0);
    }
    assert!(!BindFlags(0x100).validate());
    assert!(!BindFlags(0x800).validate());
    assert!(!CpuAccessFlags(0x1).validate());
    assert!(!CreateDeviceFlags(0x10).validate());
    assert!(!CreateDeviceFlags(0x200).validate());
    assert!(!ResourceMiscFlags(0x8).validate());
    assert!(!ResourceMiscFlags(0x10000).validate());
}

#[test]
fn a_stray_bit_spoils_a_valid_value() {
    assert!(!BindFlags(BindFlags::VERTEX_BUFFER | 0x100).validate());
    assert!(!CreateDeviceFlags(CreateDeviceFlags::MASK | 0x8000_0000).validate());
}

#[test]
fn none_is_valid_and_contains_only_itself() {
    assert!(BindFlags(BindFlags::NONE).validate());
    assert!(BindFlags(BindFlags::NONE).is_set(BindFlags(BindFlags::NONE)));
    assert!(!BindFlags(BindFlags::NONE).is_set(BindFlags(BindFlags::VERTEX_BUFFER)));
    assert!(BindFlags(BindFlags::DECODER).is_set(BindFlags(BindFlags::NONE)));
}

#[test]
fn is_set_is_a_subset_test() {
    let a = BindFlags(BindFlags::VERTEX_BUFFER);
    let b = BindFlags(BindFlags::RENDER_TARGET);
    assert!((a | b).is_set(a));
    assert!((a | b).is_set(b));
    assert!(!a.is_set(a | b));
    assert!(!b.is_set(a | b));
    assert!(a.is_set(a | a));
    let rw = CpuAccessFlags(CpuAccessFlags::READWRITE);
    assert!(rw.is_set(CpuAccessFlags(CpuAccessFlags::READ)));
    assert!(!CpuAccessFlags(CpuAccessFlags::READ).is_set(rw));
}

#[test]
fn is_set_over_many_pairs() {
    let values = [0u32, 0x1, 0x2, 0x3, 0x20, 0x21, 0x9EF, 0x10, 0xFFFF_FFFF];
    for a in values {
        for b in values {
            let a = CreateDeviceFlags(a);
            let b = CreateDeviceFlags(b);
            assert!((a | b).is_set(a));
            assert_eq!(a.is_set(a | b), b.0 & !a.0 == 0);
        }
    }
}

#[test]
fn operators_work_on_the_raw_value() {
    let a = ResourceMiscFlags(0x3);
    let b = ResourceMiscFlags(0x6);
    assert!((a & b) == ResourceMiscFlags(0x2));
    assert!((a | b) == ResourceMiscFlags(0x7));
    assert!((a ^ b) == ResourceMiscFlags(0x5));
    assert!(!a == ResourceMiscFlags(0xFFFF_FFFC));
    assert!(!(!a).validate());
}

#[test]
fn assigning_operators_work_on_the_raw_value() {
    let mut f = BindFlags(0x3);
    f &= BindFlags(0x6);
    assert!(f.0 == 0x2);
    f |= BindFlags(0x41);
    assert!(f.0 == 0x43);
    f ^= BindFlags(0x3);
    assert!(f.0 == 0x40);
}

#[test]
fn clear_removes_a_subset() {
    let mut f = BindFlags(BindFlags::VERTEX_BUFFER | BindFlags::INDEX_BUFFER | BindFlags::DECODER);
    f.clear(BindFlags(BindFlags::INDEX_BUFFER));
    assert!(f.0 == 0x201);
    f.clear(BindFlags(BindFlags::INDEX_BUFFER));
    assert!(f.0 == 0x201);
    f.clear(BindFlags(0x201));
    assert!(f.0 == 0);
    let mut c = CpuAccessFlags(CpuAccessFlags::READWRITE);
    c.clear(CpuAccessFlags(CpuAccessFlags::WRITE));
    assert!(c == CpuAccessFlags(CpuAccessFlags::READ));
}

#[test]
fn flags_are_written_out_by_name() {
    assert_eq!(BindFlags(0).describe(), "BindFlags(NONE)");
    assert_eq!(BindFlags(0x1).describe(), "BindFlags(VERTEX_BUFFER)");
    assert_eq!(BindFlags(0x3).describe(), "BindFlags(VERTEX_BUFFER | INDEX_BUFFER)");
    assert_eq!(
        BindFlags(0x6FF).describe(),
        "BindFlags(VERTEX_BUFFER | INDEX_BUFFER | CONSTANT_BUFFER | SHADER_RESOURCE | STREAM_OUTPUT \
         | RENDER_TARGET | DEPTH_STENCIL | UNORDERED_ACCESS | DECODER | VIDEO_ENCODER)"
    );
    assert_eq!(BindFlags(0x100).describe(), "BindFlags(NONE)");
    assert_eq!(CpuAccessFlags(0x10000).describe(), "CpuAccessFlags(WRITE)");
    assert_eq!(CpuAccessFlags(0x30000).describe(), "CpuAccessFlags(WRITE | READ | READWRITE)");
    assert_eq!(CreateDeviceFlags(0x22).describe(), "CreateDeviceFlags(DEBUG | BGRA_SUPPORT)");
    assert_eq!(CreateDeviceFlags(0x800).describe(), "CreateDeviceFlags(VIDEO_SUPPORT)");
    assert_eq!(
        ResourceMiscFlags(0x80001).describe(),
        "ResourceMiscFlags(GENERATE_MIPS | HW_PROTECTED)"
    );
    assert_eq!(ResourceMiscFlags(0).describe(), "ResourceMiscFlags(NONE)");
}

#[test]
fn driver_type_codes() {
    assert_eq!(DriverType::try_from(0), Some(DriverType::Unknown));
    assert_eq!(DriverType::try_from(1), Some(DriverType::Hardware));
    assert_eq!(DriverType::try_from(2), Some(DriverType::Reference));
    assert_eq!(DriverType::try_from(3), Some(DriverType::Null));
    assert_eq!(DriverType::try_from(4), Some(DriverType::Software));
    assert_eq!(DriverType::try_from(5), Some(DriverType::Warp));
    assert_eq!(DriverType::try_from(6), None);
    assert_eq!(DriverType::try_from(0xFFFF_FFFF), None);
    assert_eq!(DriverType::from_u32(5), Some(DriverType::Warp));
    assert_eq!(DriverType::from_u32(7), None);
    assert_eq!(DriverType::Warp.to_u32(), 5);
    assert_eq!(DriverType::Unknown.to_u32(), 0);
}

#[test]
fn usage_codes() {
    assert_eq!(Usage::try_from(0), Some(Usage::Default));
    assert_eq!(Usage::try_from(1), Some(Usage::Immutable));
    assert_eq!(Usage::try_from(2), Some(Usage::Dynamic));
    assert_eq!(Usage::try_from(3), Some(Usage::Staging));
    assert_eq!(Usage::try_from(4), None);
    assert_eq!(Usage::Dynamic.to_u32(), 2);
}

#[test]
fn map_mode_codes() {
    assert_eq!(MapMode::try_from(0), None);
    assert_eq!(MapMode::try_from(1), Some(MapMode::Read));
    assert_eq!(MapMode::try_from(2), Some(MapMode::Write));
    assert_eq!(MapMode::try_from(3), Some(MapMode::ReadWrite));
    assert_eq!(MapMode::try_from(4), Some(MapMode::Discard));
    assert_eq!(MapMode::try_from(5), Some(MapMode::WriteNoOverwrite));
    assert_eq!(MapMode::try_from(6), None);
    assert_eq!(MapMode::Read.to_u32(), 1);
    assert_eq!(MapMode::WriteNoOverwrite.to_u32(), 5);
}

#[test]
fn codes_come_back_from_every_integer_nearby() {
    for value in 0..16u32 {
        assert_eq!(DriverType::try_from(value).map(|v| v.to_u32()), if value <= 5 { Some(value) } else { None });
        assert_eq!(Usage::try_from(value).map(|v| v.to_u32()), if value <= 3 { Some(value) } else { None });
        assert_eq!(
            MapMode::try_from(value).map(|v| v.to_u32()),
            if 1 <= value && value <= 5 { Some(value) } else { None }
        );
    }
}

#[test]
fn feature_level_numbers() {
    assert_eq!(FeatureLevel(FeatureLevel::LEVEL_9_1).major(), 9);
    assert_eq!(FeatureLevel(FeatureLevel::LEVEL_9_1).minor(), 1);
    assert_eq!(FeatureLevel(FeatureLevel::LEVEL_9_3).minor(), 3);
    assert_eq!(FeatureLevel(FeatureLevel::LEVEL_10_0).major(), 10);
    assert_eq!(FeatureLevel(FeatureLevel::LEVEL_10_0).minor(), 0);
    assert_eq!(FeatureLevel(FeatureLevel::LEVEL_11_1).major(), 11);
    assert_eq!(FeatureLevel(FeatureLevel::LEVEL_11_1).minor(), 1);
    assert_eq!(FeatureLevel(FeatureLevel::LEVEL_12_1).major(), 12);
    assert_eq!(FeatureLevel(0xFFFF_FFFF).major(), 15);
    assert_eq!(FeatureLevel(0xFFFF_FFFF).minor(), 15);
    assert_eq!(FeatureLevel(0x1_2345).major(), 2);
    assert_eq!(FeatureLevel(0x1_2345).minor(), 3);
    assert_eq!(FeatureLevel(0).major(), 0);
}

#[test]
fn feature_level_values() {
    assert_eq!(FeatureLevel::LEVEL_9_1, 0x9100);
    assert_eq!(FeatureLevel::LEVEL_9_2, 0x9200);
    assert_eq!(FeatureLevel::LEVEL_9_3, 0x9300);
    assert_eq!(FeatureLevel::LEVEL_10_0, 0xA000);
    assert_eq!(FeatureLevel::LEVEL_10_1, 0xA100);
    assert_eq!(FeatureLevel::LEVEL_11_0, 0xB000);
    assert_eq!(FeatureLevel::LEVEL_11_1, 0xB100);
    assert_eq!(FeatureLevel::LEVEL_12_0, 0xC000);
    assert_eq!(FeatureLevel::LEVEL_12_1, 0xC100);
}

#[test]
fn feature_levels_are_ordered_by_tier() {
    let levels = [
        FeatureLevel::LEVEL_9_1,
        FeatureLevel::LEVEL_9_2,
        FeatureLevel::LEVEL_9_3,
        FeatureLevel::LEVEL_10_0,
        FeatureLevel::LEVEL_10_1,
        FeatureLevel::LEVEL_11_0,
        FeatureLevel::LEVEL_11_1,
        FeatureLevel::LEVEL_12_0,
        FeatureLevel::LEVEL_12_1,
    ];
    for i in 0..levels.len() {
        for j in 0..levels.len() {
            let a = FeatureLevel(levels[i]);
            let b = FeatureLevel(levels[j]);
            assert_eq!(a < b, i < j);
            assert_eq!(a <= b, i <= j);
            assert_eq!(a == b, i == j);
            assert_eq!(a.partial_cmp(&b), i.partial_cmp(&j));
            assert_eq!(a.cmp(&b), i.cmp(&j));
        }
    }
}

#[test]
fn feature_level_is_written_out_as_major_and_minor() {
    assert_eq!(FeatureLevel(FeatureLevel::LEVEL_9_1).describe(), "FeatureLevel(9.1)");
    assert_eq!(FeatureLevel(FeatureLevel::LEVEL_10_0).describe(), "FeatureLevel(10.0)");
    assert_eq!(FeatureLevel(FeatureLevel::LEVEL_11_1).describe(), "FeatureLevel(11.1)");
    assert_eq!(FeatureLevel(FeatureLevel::LEVEL_12_1).describe(), "FeatureLevel(12.1)");
    assert_eq!(FeatureLevel(0xFF00).describe(), "FeatureLevel(15.15)");
    assert_eq!(FeatureLevel(0).describe(), "FeatureLevel(0.0)");
}
