use direct3d11::device::Device;
use direct3d11::device_child::IDeviceChild;
use direct3d11::device_context::{CopyResourceCall, DeviceContext, IDeviceContext};
use direct3d11::error::{succeeded, DxgiError, Error};
use direct3d11::helpers::{
    adopt, cast, clone_wrapper, drop_wrapper, finish_cast, surrender, CastQuery, CastReply, ComPtr,
    ComWrapper, Interface, RefCounts,
};
use direct3d11::resource::{IResource, Resource};
use direct3d11::texture2d::Texture2D;

const S_OK: i32 = 0;
const S_FALSE: i32 = 1;
const E_NOINTERFACE: i32 = -2147467262;
const E_INVALIDARG: i32 = -2147024809;

#[test]
fn raw_address_round_trip() {
    let device = Device::from_raw(0x4000);
    assert_eq!(device.get_raw(), 0x4000);
    assert_eq!(device.get_raw(), 0x4000);
    let raw = device.into_raw();
    assert_eq!(raw, 0x4000);
    let again = Device::from_raw(raw);
    assert_eq!(again.get_raw(), 0x4000);
}

#[test]
fn com_ptr_keeps_its_address() {
    let ptr = ComPtr::from_raw(0xABCD);
    assert_eq!(ptr.as_raw(), 0xABCD);
    assert_eq!(ptr, ComPtr::from_raw(0xABCD));
    assert_ne!(ptr, ComPtr::from_raw(0xABCE));
    assert_eq!(ptr.into_raw(), 0xABCD);
}

#[test]
fn wrappers_compare_by_address() {
    assert_eq!(Texture2D::from_raw(0x10), Texture2D::from_raw(0x10));
    assert_ne!(Texture2D::from_raw(0x10), Texture2D::from_raw(0x18));
}

#[test]
fn new_account_holds_nothing() {
    let counts = RefCounts::new();
    assert_eq!(counts.count(0x4000), 0);
    assert!(!counts.is_held(0x4000));
}

#[test]
fn acquire_and_release_count_per_address() {
    let mut counts = RefCounts::new();
    counts.acquire(0x10);
    counts.acquire(0x20);
    counts.acquire(0x10);
    assert_eq!(counts.count(0x10), 2);
    assert_eq!(counts.count(0x20), 1);
    assert!(counts.release(0x10));
    assert_eq!(counts.count(0x10), 1);
    assert_eq!(counts.count(0x20), 1);
    assert!(counts.release(0x10));
    assert!(!counts.is_held(0x10));
    assert!(counts.is_held(0x20));
}

#[test]
fn release_without_an_increment_changes_nothing() {
    let mut counts = RefCounts::new();
    counts.acquire(0x20);
    assert!(!counts.release(0x10));
    assert_eq!(counts.count(0x20), 1);
    assert!(counts.release(0x20));
    assert!(!counts.release(0x20));
    assert_eq!(counts.count(0x20), 0);
}

#[test]
fn clone_then_drop_leaves_the_original_alive() {
    let mut counts = RefCounts::new();
    let original: Resource = adopt(0x4000, &mut counts);
    assert_eq!(counts.count(0x4000), 1);
    let copy = clone_wrapper(&original, &mut counts);
    assert_eq!(copy.get_raw(), 0x4000);
    assert_eq!(counts.count(0x4000), 2);
    assert!(drop_wrapper(copy, &mut counts));
    assert_eq!(counts.count(0x4000), 1);
    assert!(counts.is_held(0x4000));
    assert_eq!(original.get_raw(), 0x4000);
}

#[test]
fn drop_of_the_last_wrapper_ends_the_account() {
    let mut counts = RefCounts::new();
    let device: Device = adopt(0x4000, &mut counts);
    assert!(drop_wrapper(device, &mut counts));
    assert!(!counts.is_held(0x4000));
}

#[test]
fn drop_of_an_unaccounted_wrapper_is_reported() {
    let mut counts = RefCounts::new();
    let stray = Device::from_raw(0x4000);
    assert!(!drop_wrapper(stray, &mut counts));
    assert_eq!(counts.count(0x4000), 0);
}

#[test]
fn surrender_hands_the_increment_out() {
    let mut counts = RefCounts::new();
    let texture: Texture2D = adopt(0x3000, &mut counts);
    let copy = clone_wrapper(&texture, &mut counts);
    assert_eq!(surrender(copy, &mut counts), 0x3000);
    assert_eq!(counts.count(0x3000), 1);
    let back: Texture2D = adopt(0x3000, &mut counts);
    assert_eq!(back.get_raw(), 0x3000);
    assert_eq!(counts.count(0x3000), 2);
}

#[test]
fn cast_round_trip_keeps_identity_and_balance() {
    let mut counts = RefCounts::new();
    let texture: Texture2D = adopt(0x3000, &mut counts);
    let resource: Resource = cast(&texture, Interface::Resource, &mut counts, |query: CastQuery| {
        assert_eq!(query, CastQuery { object: 0x3000, target: Interface::Resource });
        CastReply { status: S_OK, object: query.object }
    })
    .unwrap();
    let back: Texture2D = cast(&resource, Interface::Texture2D, &mut counts, |query: CastQuery| {
        assert_eq!(query, CastQuery { object: 0x3000, target: Interface::Texture2D });
        CastReply { status: S_OK, object: query.object }
    })
    .unwrap();
    assert_eq!(back.get_raw(), texture.get_raw());
    assert_eq!(counts.count(0x3000), 3);
    assert!(drop_wrapper(back, &mut counts));
    assert!(drop_wrapper(resource, &mut counts));
    assert_eq!(counts.count(0x3000), 1);
    assert_eq!(texture.get_raw(), 0x3000);
}

#[test]
fn cast_asks_once_and_reports_failure() {
    let mut counts = RefCounts::new();
    let context: DeviceContext = adopt(0x2000, &mut counts);
    let mut calls = 0;
    let result: Result<Resource, Error> =
        cast(&context, Interface::Resource, &mut counts, |_query: CastQuery| {
            calls += 1;
            CastReply { status: E_NOINTERFACE, object: 0 }
        });
    assert_eq!(calls, 1);
    assert_eq!(result, Err(Error::D3D11(E_NOINTERFACE)));
    assert_eq!(counts.count(0x2000), 1);
    assert_eq!(counts.count(0), 0);
}

#[test]
fn finish_cast_reads_the_reply() {
    let mut counts = RefCounts::new();
    let view: Resource =
        finish_cast(CastReply { status: S_FALSE, object: 0x88 }, &mut counts).unwrap();
    assert_eq!(view.get_raw(), 0x88);
    assert_eq!(counts.count(0x88), 1);
    let failed: Result<Resource, Error> =
        finish_cast(CastReply { status: -1, object: 0x88 }, &mut counts);
    assert_eq!(failed, Err(Error::D3D11(-1)));
    assert_eq!(counts.count(0x88), 1);
}

#[test]
fn wrap_if_wraps_on_success_only() {
    let mut counts = RefCounts::new();
    let device: Device = Error::wrap_if(S_OK, 0x4000, &mut counts).unwrap();
    assert_eq!(device.get_raw(), 0x4000);
    assert_eq!(counts.count(0x4000), 1);
    let failed: Result<Device, Error> = Error::wrap_if(E_INVALIDARG, 0x5000, &mut counts);
    assert_eq!(failed, Err(Error::D3D11(E_INVALIDARG)));
    assert_eq!(counts.count(0x5000), 0);
    let null_on_failure: Result<Device, Error> = Error::wrap_if(-1, 0, &mut counts);
    assert_eq!(null_on_failure, Err(Error::D3D11(-1)));
}

#[test]
fn status_codes_succeed_from_zero_up() {
    assert!(succeeded(S_OK));
    assert!(succeeded(S_FALSE));
    assert!(succeeded(i32::MAX));
    assert!(!succeeded(-1));
    assert!(!succeeded(E_INVALIDARG));
    assert!(!succeeded(i32::MIN));
}

#[test]
fn errors_render_with_tag_and_meaning() {
    let e = Error::D3D11(E_INVALIDARG);
    assert_eq!(e.render("The parameter is incorrect."), "D3D11(The parameter is incorrect.)");
    assert_eq!(e.render("The parameter is incorrect."), e.render("The parameter is incorrect."));
    assert_eq!(e.render(""), "D3D11()");
    let d = Error::Dxgi(DxgiError(-2005270523));
    assert_eq!(d.render("The device was removed."), "Dxgi(The device was removed.)");
}

#[test]
fn errors_carry_their_status() {
    assert_eq!(Error::D3D11(E_INVALIDARG).code(), E_INVALIDARG);
    assert_eq!(Error::Dxgi(DxgiError(-7)).code(), -7);
    assert_eq!(Error::from(E_NOINTERFACE), Error::D3D11(E_NOINTERFACE));
    assert_eq!(Error::from(DxgiError(-7)), Error::Dxgi(DxgiError(-7)));
    assert_ne!(Error::D3D11(-7), Error::Dxgi(DxgiError(-7)));
    let e = Error::D3D11(-7);
    let copy = e;
    assert_eq!(e, copy);
}

#[test]
fn copy_resource_puts_the_destination_first() {
    let context = DeviceContext::from_raw(0x2000);
    let src = Resource::from_raw(0x100);
    let dst = Resource::from_raw(0x200);
    let call = context.copy_resource(&src, &dst);
    assert_eq!(call, CopyResourceCall { context: 0x2000, destination: 0x200, source: 0x100 });
    let back = context.copy_resource(&dst, &src);
    assert_eq!(back, CopyResourceCall { context: 0x2000, destination: 0x100, source: 0x200 });
}

#[test]
fn facades_hand_out_their_address() {
    assert_eq!(DeviceContext::from_raw(0x2000).raw_ctx(), 0x2000);
    assert_eq!(Resource::from_raw(0x100).raw_res(), 0x100);
    assert_eq!(Texture2D::from_raw(0x3000).raw_device_child(), 0x3000);
}
