//! The identification instruction and the leaves this crate asks it for.

use vstd::prelude::*;

verus! {

/// The information leaves that can be asked for.
#[derive(Clone, Copy, Debug, PartialEq, Eq, Structural)]
pub enum RequestType {
    BasicInformation,
    VersionInformation,
    ThermalPowerManagementInformation,
    StructuredExtendedInformation,
    ExtendedFunctionInformation,
    BrandString1,
    BrandString2,
    BrandString3,
    PhysicalAddressSize,
}

impl RequestType {
    /// The number the instruction expects in `eax` to select this leaf.
    pub open spec fn leaf(self) -> u32 {
        match self {
            RequestType::BasicInformation => 0x0000_0000,
            RequestType::VersionInformation => 0x0000_0001,
            RequestType::ThermalPowerManagementInformation => 0x0000_0006,
            RequestType::StructuredExtendedInformation => 0x0000_0007,
            RequestType::ExtendedFunctionInformation => 0x8000_0000,
            RequestType::BrandString1 => 0x8000_0002,
            RequestType::BrandString2 => 0x8000_0003,
            RequestType::BrandString3 => 0x8000_0004,
            RequestType::PhysicalAddressSize => 0x8000_0008,
        }
    }

    /// The selector code of this leaf.
    pub fn code(self) -> (leaf: u32)
        ensures
            leaf == self.leaf(),
    {
        match self {
            RequestType::BasicInformation => 0x0000_0000,
            RequestType::VersionInformation => 0x0000_0001,
            RequestType::ThermalPowerManagementInformation => 0x0000_0006,
            RequestType::StructuredExtendedInformation => 0x0000_0007,
            RequestType::ExtendedFunctionInformation => 0x8000_0000,
            RequestType::BrandString1 => 0x8000_0002,
            RequestType::BrandString2 => 0x8000_0003,
            RequestType::BrandString3 => 0x8000_0004,
            RequestType::PhysicalAddressSize => 0x8000_0008,
        }
    }
}

/// The four words that one run of the instruction leaves in the registers.
#[derive(Clone, Copy, Debug, PartialEq, Eq, Structural)]
pub struct Registers {
    pub eax: u32,
    pub ebx: u32,
    pub ecx: u32,
    pub edx: u32,
}

/// Runs the instruction through `core::arch::x86_64::__cpuid_count`, with
/// `leaf` in `eax` and `sub_leaf` in `ecx`, and hands back the four registers
/// word for word.
///
/// Nothing is claimed of the words: they are whatever the executing processor
/// answers, and a leaf it does not know gives words of the vendor's choosing
/// rather than a failure.
#[verifier::external_body]
fn cpuid_count(leaf: u32, sub_leaf: u32) -> Registers {
    let found = core::arch::x86_64::__cpuid_count(leaf, sub_leaf);
    Registers { eax: found.eax, ebx: found.ebx, ecx: found.ecx, edx: found.edx }
}

/// Asks the executing processor for the leaf `code`, sub-leaf 0.
///
/// The answer is the processor's own, so no clause binds it; whether the
/// processor supports the leaf is for the caller to find out beforehand.
pub fn cpuid(code: RequestType) -> Registers {
    cpuid_count(code.code(), 0)
}

} // verus!
