//! Decoding of the x86 processor identification instruction.
//!
//! The crate issues `cpuid` for a fixed set of leaves and interprets the
//! returned register words as named feature flags, numeric fields and the
//! processor brand string.

pub mod address;
pub mod bits;
pub mod brand;
pub mod feature;
pub mod layout;
pub mod query;
pub mod structured;
pub mod thermal;

pub use address::{physical_address_size, PhysicalAddressSize};
pub use bits::{bit_of, bits_of};
pub use brand::{as_bytes, brand_string, BrandString, BRAND_STRING_LENGTH};
pub use feature::{feature_information, FeatureInformation};
pub use query::{cpuid, Registers, RequestType};
pub use structured::{structured_extended_information, StructuredExtendedInformation};
pub use thermal::{thermal_power_management_information, ThermalPowerManagementInformation};
