//! Flag sets, discrete enumerations and the feature level descriptor.

pub mod bind_flags;
pub mod bits;
pub mod cpu_access_flags;
pub mod create_device_flags;
pub mod driver_type;
pub mod feature_level;
pub mod map;
pub mod resource_misc_flags;
pub mod usage;

pub use crate::enums::bind_flags::BindFlags;
pub use crate::enums::cpu_access_flags::CpuAccessFlags;
pub use crate::enums::create_device_flags::CreateDeviceFlags;
pub use crate::enums::driver_type::DriverType;
pub use crate::enums::feature_level::FeatureLevel;
pub use crate::enums::map::MapMode;
pub use crate::enums::resource_misc_flags::ResourceMiscFlags;
pub use crate::enums::usage::Usage;
