use direct3d11::device::builder::{DeviceBuilder, DeviceReply, DeviceRequest, SDK_VERSION};
use direct3d11::device::Device;
use direct3d11::enums::{CreateDeviceFlags, DriverType, FeatureLevel};
use direct3d11::error::Error;
use direct3d11::helpers::{ComWrapper, Interface, RefCounts};
use direct3d11::interop::Adapter;

const S_OK: i32 = 0;
const E_INVALIDARG: i32 = -2147024809;
const DEVICE: usize = 0x1000;
const CONTEXT: usize = 0x2000;

/// A native side that supports every level up to 11.1: it grants the first
/// level of the request, and 11.0 where the request leaves the choice open.
fn native(request: DeviceRequest) -> DeviceReply {
    let level = match request.feature_levels {
        Some(levels) => levels[0].0,
        None => FeatureLevel::LEVEL_11_0,
    };
    DeviceReply { status: S_OK, feature_level: level, device: DEVICE, context: CONTEXT }
}

#[test]
fn create_default() {
    let mut counts = RefCounts::new();
    let (feature_level, _dev, _ctx) = Device::create().build(&mut counts, native).unwrap();
    assert!(feature_level <= FeatureLevel(FeatureLevel::LEVEL_11_0));
    assert!(feature_level >= FeatureLevel(FeatureLevel::LEVEL_9_1));
}

#[test]
fn create_debug() {
    let mut counts = RefCounts::new();
    let (feature_level, _dev, _ctx) = Device::create()
        .with_driver_type(DriverType::Hardware)
        .with_feature_levels(&[FeatureLevel(FeatureLevel::LEVEL_11_0)])
        .with_flags(CreateDeviceFlags(CreateDeviceFlags::DEBUG))
        .build(&mut counts, native)
        .unwrap();
    assert!(feature_level == FeatureLevel(FeatureLevel::LEVEL_11_0));
}

#[test]
fn create_debuggable() {
    let mut counts = RefCounts::new();
    let (feature_level, _dev, _ctx) = Device::create()
        .with_driver_type(DriverType::Warp)
        .with_feature_levels(&[FeatureLevel(FeatureLevel::LEVEL_11_0)])
        .with_flags(CreateDeviceFlags(CreateDeviceFlags::DEBUGGABLE))
        .build(&mut counts, native)
        .unwrap();
    assert!(feature_level == FeatureLevel(FeatureLevel::LEVEL_11_0));
}

#[test]
fn create_hardware_11_0() {
    let mut counts = RefCounts::new();
    let (feature_level, _dev, _ctx) = Device::create()
        .with_driver_type(DriverType::Hardware)
        .with_feature_levels(&[FeatureLevel(FeatureLevel::LEVEL_11_0)])
        .build(&mut counts, native)
        .unwrap();
    assert!(feature_level == FeatureLevel(FeatureLevel::LEVEL_11_0));
}

#[test]
fn create_hardware_11_1() {
    let mut counts = RefCounts::new();
    let (feature_level, _dev, _ctx) = Device::create()
        .with_driver_type(DriverType::Hardware)
        .with_feature_levels(&[FeatureLevel(FeatureLevel::LEVEL_11_1)])
        .build(&mut counts, native)
        .unwrap();
    assert!(feature_level == FeatureLevel(FeatureLevel::LEVEL_11_1));
}

#[test]
fn create_reference() {
    let mut counts = RefCounts::new();
    let (feature_level, _dev, _ctx) = Device::create()
        .with_driver_type(DriverType::Reference)
        .with_feature_levels(&[FeatureLevel(FeatureLevel::LEVEL_11_0)])
        .build(&mut counts, native)
        .unwrap();
    assert!(feature_level == FeatureLevel(FeatureLevel::LEVEL_11_0));
}

#[test]
fn create_warp() {
    let mut counts = RefCounts::new();
    let (feature_level, _dev, _ctx) = Device::create()
        .with_driver_type(DriverType::Warp)
        .with_feature_levels(&[FeatureLevel(FeatureLevel::LEVEL_11_0)])
        .build(&mut counts, native)
        .unwrap();
    assert!(feature_level == FeatureLevel(FeatureLevel::LEVEL_11_0));
}

#[test]
fn create_bgra() {
    let mut counts = RefCounts::new();
    let (feature_level, _dev, _ctx) = Device::create()
        .with_driver_type(DriverType::Hardware)
        .with_feature_levels(&[FeatureLevel(FeatureLevel::LEVEL_11_0)])
        .with_flags(CreateDeviceFlags(CreateDeviceFlags::BGRA_SUPPORT))
        .build(&mut counts, native)
        .unwrap();
    assert!(feature_level == FeatureLevel(FeatureLevel::LEVEL_11_0));
}

#[test]
fn unconfigured_request_takes_the_defaults() {
    let request = Device::create().request();
    assert_eq!(request.adapter, 0);
    assert_eq!(request.driver_type, 1);
    assert_eq!(request.software_module, 0);
    assert_eq!(request.flags, 0);
    assert!(request.feature_levels.is_none());
    assert_eq!(request.num_feature_levels, 0);
    assert_eq!(request.sdk_version, 7);
    assert_eq!(SDK_VERSION, 7);
}

#[test]
fn request_carries_the_configuration() {
    let levels = [FeatureLevel(FeatureLevel::LEVEL_11_1), FeatureLevel(FeatureLevel::LEVEL_10_0)];
    let request = Device::create()
        .with_driver_type(DriverType::Warp)
        .with_flags(CreateDeviceFlags(CreateDeviceFlags::DEBUG | CreateDeviceFlags::BGRA_SUPPORT))
        .with_feature_levels(&levels)
        .request();
    assert_eq!(request.driver_type, 5);
    assert_eq!(request.flags, 0x22);
    assert!(request.feature_levels.unwrap() == &levels[..]);
    assert_eq!(request.num_feature_levels, 2);
}

#[test]
fn empty_feature_level_list_is_the_null_pointer() {
    let request = Device::create().with_feature_levels(&[]).request();
    assert!(request.feature_levels.is_none());
    assert_eq!(request.num_feature_levels, 0);
}

#[test]
fn last_write_wins() {
    let request = Device::create()
        .with_driver_type(DriverType::Reference)
        .with_driver_type(DriverType::Null)
        .with_flags(CreateDeviceFlags(CreateDeviceFlags::DEBUG))
        .with_flags(CreateDeviceFlags(CreateDeviceFlags::VIDEO_SUPPORT))
        .request();
    assert_eq!(request.driver_type, 3);
    assert_eq!(request.flags, 0x800);
}

#[test]
fn adapter_forces_unknown_driver_type() {
    let adapter = Adapter::from_raw(0x500);
    let builder = Device::create().with_adapter(&adapter);
    let request = builder.request();
    assert_eq!(request.adapter, 0x500);
    assert_eq!(request.driver_type, 0);
    assert!(builder.accepts_driver_type(DriverType::Unknown));
}

#[test]
fn adapter_then_hardware_is_rejected() {
    let adapter = Adapter::from_raw(0x500);
    let builder = Device::create().with_adapter(&adapter);
    assert!(!builder.accepts_driver_type(DriverType::Hardware));
    assert!(!builder.accepts_driver_type(DriverType::Reference));
    assert!(!builder.accepts_driver_type(DriverType::Null));
    assert!(!builder.accepts_driver_type(DriverType::Software));
    assert!(!builder.accepts_driver_type(DriverType::Warp));
}

#[test]
fn hardware_then_adapter_is_rejected() {
    let builder = Device::create().with_driver_type(DriverType::Hardware);
    assert!(!builder.accepts_adapter());
    assert!(Device::create().accepts_adapter());
    assert!(Device::create().with_driver_type(DriverType::Unknown).accepts_adapter());
}

#[test]
fn single_threaded_flag_is_rejected() {
    assert!(!DeviceBuilder::accepts_flags(CreateDeviceFlags(CreateDeviceFlags::SINGLETHREADED)));
    assert!(!DeviceBuilder::accepts_flags(CreateDeviceFlags(
        CreateDeviceFlags::SINGLETHREADED | CreateDeviceFlags::DEBUG
    )));
    assert!(DeviceBuilder::accepts_flags(CreateDeviceFlags(CreateDeviceFlags::DEBUG)));
    assert!(DeviceBuilder::accepts_flags(CreateDeviceFlags(CreateDeviceFlags::NONE)));
}

#[test]
fn unnamed_flag_bit_is_rejected() {
    assert!(!DeviceBuilder::accepts_flags(CreateDeviceFlags(0x10)));
    assert!(!DeviceBuilder::accepts_flags(CreateDeviceFlags(0x2 | 0x8000_0000)));
}

#[test]
fn software_module_forces_software_driver_type() {
    let builder = Device::create().with_software_module(0x7700);
    let request = builder.request();
    assert_eq!(request.software_module, 0x7700);
    assert_eq!(request.driver_type, 4);
    assert!(builder.accepts_driver_type(DriverType::Software));
    assert!(!builder.accepts_driver_type(DriverType::Hardware));
    assert!(!builder.accepts_adapter());
}

#[test]
fn software_module_after_other_driver_type_is_rejected() {
    assert!(!Device::create().with_driver_type(DriverType::Warp).accepts_software_module());
    assert!(Device::create().with_driver_type(DriverType::Software).accepts_software_module());
    assert!(Device::create().accepts_software_module());
}

#[test]
fn build_calls_the_native_side_once() {
    let mut calls = 0;
    let mut counts = RefCounts::new();
    let result = Device::create().build(&mut counts, |request: DeviceRequest| {
        calls += 1;
        native(request)
    });
    assert!(result.is_ok());
    assert_eq!(calls, 1);
}

#[test]
fn build_wraps_what_the_native_side_returns() {
    let mut counts = RefCounts::new();
    let (level, device, context) = Device::create()
        .with_feature_levels(&[FeatureLevel(FeatureLevel::LEVEL_11_1)])
        .build(&mut counts, |_request: DeviceRequest| DeviceReply {
            status: S_OK,
            feature_level: FeatureLevel::LEVEL_10_1,
            device: DEVICE,
            context: CONTEXT,
        })
        .unwrap();
    assert_eq!(level.0, 0xA100);
    assert_eq!(device.get_raw(), DEVICE);
    assert_eq!(context.get_raw(), CONTEXT);
    assert_eq!(counts.count(DEVICE), 1);
    assert_eq!(counts.count(CONTEXT), 1);
}

#[test]
fn failed_build_wraps_nothing() {
    let mut counts = RefCounts::new();
    let result = Device::create().build(&mut counts, |_request: DeviceRequest| DeviceReply {
        status: E_INVALIDARG,
        feature_level: 0,
        device: 0,
        context: 0,
    });
    assert!(matches!(result, Err(Error::D3D11(E_INVALIDARG))));
    assert_eq!(counts.count(0), 0);
    assert!(!counts.is_held(DEVICE));
}

#[test]
fn finish_reads_the_reply() {
    let mut counts = RefCounts::new();
    let reply = DeviceReply { status: 1, feature_level: 0x9300, device: DEVICE, context: CONTEXT };
    let (level, device, context) = DeviceBuilder::finish(reply, &mut counts).unwrap();
    assert!(level == FeatureLevel(FeatureLevel::LEVEL_9_3));
    assert_eq!(device.into_raw(), DEVICE);
    assert_eq!(context.into_raw(), CONTEXT);
    let failed = DeviceReply { status: -1, feature_level: 0x9300, device: DEVICE, context: CONTEXT };
    assert!(matches!(DeviceBuilder::finish(failed, &mut counts), Err(Error::D3D11(-1))));
    assert_eq!(counts.count(DEVICE), 1);
}

#[test]
fn device_casts_to_its_companion_view() {
    let mut counts = RefCounts::new();
    let (_, device, _) = Device::create().build(&mut counts, native).unwrap();
    let view = device
        .as_dxgi(&mut counts, |query| {
            assert_eq!(query.object, DEVICE);
            assert_eq!(query.target, Interface::DxgiDevice);
            direct3d11::helpers::CastReply { status: S_OK, object: 0x1008 }
        })
        .unwrap();
    assert_eq!(view.get_raw(), 0x1008);
    assert_eq!(counts.count(0x1008), 1);
    assert_eq!(counts.count(DEVICE), 1);
}
