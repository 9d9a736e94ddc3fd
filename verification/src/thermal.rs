//! The fields of the thermal and power management leaf.

use crate::bits::{bit_of, bit_range, bit_set, bits_of, lemma_bit_range_below};
use crate::layout::{
    distinct_names, flag, number, plain_names, render_fields, well_formed, Field, LineWriter,
};
use crate::query::{cpuid, Registers, RequestType};
use vstd::arithmetic::power2::lemma2_to64;
use vstd::prelude::*;

verus! {

/// Exposes the thermal and power management capabilities of the processor.
#[derive(Copy, Clone)]
pub struct ThermalPowerManagementInformation {
    eax: u32,
    ebx: u32,
    ecx: u32,
}

impl ThermalPowerManagementInformation {
    /// The captured `eax` word.
    pub closed spec fn eax(self) -> u32 {
        self.eax
    }

    /// The captured `ebx` word.
    pub closed spec fn ebx(self) -> u32 {
        self.ebx
    }

    /// The captured `ecx` word.
    pub closed spec fn ecx(self) -> u32 {
        self.ecx
    }

    /// The named bits of the `eax` word, lowest first. Bits 3, 11, 12 and
    /// those above 13 carry no name.
    pub open spec fn eax_layout() -> Seq<Field> {
        seq![
            flag("digital_temperature_sensor"@, 0),
            flag("intel_turbo_boost"@, 1),
            flag("arat"@, 2),
            flag("pln"@, 4),
            flag("ecmd"@, 5),
            flag("ptm"@, 6),
            flag("hwp"@, 7),
            flag("hwp_notification"@, 8),
            flag("hwp_activity_window"@, 9),
            flag("hwp_energy_performance_preference"@, 10),
            flag("hdc"@, 13),
        ]
    }

    /// The named bits of the `ebx` word: one number in the four lowest bits.
    pub open spec fn ebx_layout() -> Seq<Field> {
        seq![
            number("number_of_interrupt_thresholds"@, 0, 3),
        ]
    }

    /// The named bits of the `ecx` word, lowest first. Bits 1, 2 and those
    /// above 3 carry no name.
    pub open spec fn ecx_layout() -> Seq<Field> {
        seq![
            flag("hardware_coordination_feedback"@, 0),
            flag("performance_energy_bias"@, 3),
        ]
    }

    /// The rendering of the descriptor: the lines of `eax`, then those of
    /// `ebx`, then those of `ecx`.
    pub open spec fn text(self) -> Seq<char> {
        render_fields(Self::eax_layout(), self.eax())
            + render_fields(Self::ebx_layout(), self.ebx())
            + render_fields(Self::ecx_layout(), self.ecx())
    }

    /// Keeps the `eax`, `ebx` and `ecx` words of an answer to the thermal and
    /// power management leaf.
    pub fn from_registers(found: Registers) -> (info: Self)
        ensures
            info.eax() == found.eax,
            info.ebx() == found.ebx,
            info.ecx() == found.ecx,
    {
        ThermalPowerManagementInformation { eax: found.eax, ebx: found.ebx, ecx: found.ecx }
    }

    /// A digital temperature sensor.
    pub fn digital_temperature_sensor(self) -> (flag: bool)
        ensures
            flag == bit_set(self.eax(), 0),
    {
        bit_of(self.eax, 0)
    }

    /// Intel Turbo Boost technology.
    pub fn intel_turbo_boost(self) -> (flag: bool)
        ensures
            flag == bit_set(self.eax(), 1),
    {
        bit_of(self.eax, 1)
    }

    /// A local APIC timer that keeps running in deep sleep states.
    pub fn arat(self) -> (flag: bool)
        ensures
            flag == bit_set(self.eax(), 2),
    {
        bit_of(self.eax, 2)
    }

    /// Power limit notification.
    pub fn pln(self) -> (flag: bool)
        ensures
            flag == bit_set(self.eax(), 4),
    {
        bit_of(self.eax, 4)
    }

    /// Extended clock modulation duty cycles.
    pub fn ecmd(self) -> (flag: bool)
        ensures
            flag == bit_set(self.eax(), 5),
    {
        bit_of(self.eax, 5)
    }

    /// Package thermal management.
    pub fn ptm(self) -> (flag: bool)
        ensures
            flag == bit_set(self.eax(), 6),
    {
        bit_of(self.eax, 6)
    }

    /// Hardware-managed performance states.
    pub fn hwp(self) -> (flag: bool)
        ensures
            flag == bit_set(self.eax(), 7),
    {
        bit_of(self.eax, 7)
    }

    /// Notification of changes to hardware-managed performance states.
    pub fn hwp_notification(self) -> (flag: bool)
        ensures
            flag == bit_set(self.eax(), 8),
    {
        bit_of(self.eax, 8)
    }

    /// An activity window for hardware-managed performance states.
    pub fn hwp_activity_window(self) -> (flag: bool)
        ensures
            flag == bit_set(self.eax(), 9),
    {
        bit_of(self.eax, 9)
    }

    /// An energy and performance preference for hardware-managed performance
    /// states.
    pub fn hwp_energy_performance_preference(self) -> (flag: bool)
        ensures
            flag == bit_set(self.eax(), 10),
    {
        bit_of(self.eax, 10)
    }

    /// Hardware duty cycling.
    pub fn hdc(self) -> (flag: bool)
        ensures
            flag == bit_set(self.eax(), 13),
    {
        bit_of(self.eax, 13)
    }

    /// The number of interrupt thresholds of the digital thermal sensor.
    pub fn number_of_interrupt_thresholds(self) -> (count: u32)
        ensures
            count == bit_range(self.ebx(), 0, 3),
            count < 16,
    {
        proof {
            lemma_bit_range_below(self.ebx(), 0, 3);
            lemma2_to64();
        }
        bits_of(self.ebx, 0, 3)
    }

    /// Feedback on delivered performance through a pair of counting registers.
    pub fn hardware_coordination_feedback(self) -> (flag: bool)
        ensures
            flag == bit_set(self.ecx(), 0),
    {
        bit_of(self.ecx, 0)
    }

    /// A hint to the processor on how to weigh performance against energy.
    pub fn performance_energy_bias(self) -> (flag: bool)
        ensures
            flag == bit_set(self.ecx(), 3),
    {
        bit_of(self.ecx, 3)
    }

    /// The lines of the `eax` word.
    fn render_eax(&self) -> (text: String)
        ensures
            text@ == render_fields(Self::eax_layout(), self.eax()),
    {
        let mut writer = LineWriter::new(Ghost(Self::eax_layout()), Ghost(self.eax()));
        writer.flag("digital_temperature_sensor", self.digital_temperature_sensor());
        writer.flag("intel_turbo_boost", self.intel_turbo_boost());
        writer.flag("arat", self.arat());
        writer.flag("pln", self.pln());
        writer.flag("ecmd", self.ecmd());
        writer.flag("ptm", self.ptm());
        writer.flag("hwp", self.hwp());
        writer.flag("hwp_notification", self.hwp_notification());
        writer.flag("hwp_activity_window", self.hwp_activity_window());
        writer.flag("hwp_energy_performance_preference", self.hwp_energy_performance_preference());
        writer.flag("hdc", self.hdc());
        writer.finish()
    }

    /// The lines of the `ebx` word.
    fn render_ebx(&self) -> (text: String)
        ensures
            text@ == render_fields(Self::ebx_layout(), self.ebx()),
    {
        let mut writer = LineWriter::new(Ghost(Self::ebx_layout()), Ghost(self.ebx()));
        writer.number("number_of_interrupt_thresholds", self.number_of_interrupt_thresholds());
        writer.finish()
    }

    /// The lines of the `ecx` word.
    fn render_ecx(&self) -> (text: String)
        ensures
            text@ == render_fields(Self::ecx_layout(), self.ecx()),
    {
        let mut writer = LineWriter::new(Ghost(Self::ecx_layout()), Ghost(self.ecx()));
        writer.flag("hardware_coordination_feedback", self.hardware_coordination_feedback());
        writer.flag("performance_energy_bias", self.performance_energy_bias());
        writer.finish()
    }

    /// Renders every field as a line `name: value`: the flags of `eax`, the
    /// number of `ebx`, then the flags of `ecx`, each in the order of its
    /// table.
    pub fn render(&self) -> (text: String)
        ensures
            text@ == self.text(),
    {
        let mut text = self.render_eax();
        text.append(self.render_ebx().as_str());
        text.append(self.render_ecx().as_str());
        text
    }
}

/// Asks the processor for its thermal and power management capabilities. The
/// fields are the processor's own answer, so no clause binds them.
pub fn thermal_power_management_information() -> ThermalPowerManagementInformation {
    ThermalPowerManagementInformation::from_registers(
        cpuid(RequestType::ThermalPowerManagementInformation),
    )
}

/// The tables of the thermal and power management fields are well formed,
/// their names hold no line end, and no name stands twice in a rendering.
pub proof fn lemma_thermal_layout()
    ensures
        well_formed(ThermalPowerManagementInformation::eax_layout()),
        well_formed(ThermalPowerManagementInformation::ebx_layout()),
        well_formed(ThermalPowerManagementInformation::ecx_layout()),
        plain_names(ThermalPowerManagementInformation::eax_layout()),
        plain_names(ThermalPowerManagementInformation::ebx_layout()),
        plain_names(ThermalPowerManagementInformation::ecx_layout()),
        distinct_names(
            ThermalPowerManagementInformation::eax_layout()
                + ThermalPowerManagementInformation::ebx_layout()
                + ThermalPowerManagementInformation::ecx_layout(),
        ),
{
    reveal_strlit("digital_temperature_sensor");
    assert("digital_temperature_sensor"@ =~= seq![
        'd', 'i', 'g', 'i', 't', 'a', 'l', '_', 't', 'e', 'm', 'p', 'e', 'r', 'a', 't', 'u',
        'r', 'e', '_', 's', 'e', 'n', 's', 'o', 'r',
    ]);
    reveal_strlit("intel_turbo_boost");
    assert("intel_turbo_boost"@ =~= seq![
        'i', 'n', 't', 'e', 'l', '_', 't', 'u', 'r', 'b', 'o', '_', 'b', 'o', 'o', 's', 't',
    ]);
    reveal_strlit("arat");
    assert("arat"@ =~= seq!['a', 'r', 'a', 't']);
    reveal_strlit("pln");
    assert("pln"@ =~= seq!['p', 'l', 'n']);
    reveal_strlit("ecmd");
    assert("ecmd"@ =~= seq!['e', 'c', 'm', 'd']);
    reveal_strlit("ptm");
    assert("ptm"@ =~= seq!['p', 't', 'm']);
    reveal_strlit("hwp");
    assert("hwp"@ =~= seq!['h', 'w', 'p']);
    reveal_strlit("hwp_notification");
    assert("hwp_notification"@ =~= seq![
        'h', 'w', 'p', '_', 'n', 'o', 't', 'i', 'f', 'i', 'c', 'a', 't', 'i', 'o', 'n',
    ]);
    reveal_strlit("hwp_activity_window");
    assert("hwp_activity_window"@ =~= seq![
        'h', 'w', 'p', '_', 'a', 'c', 't', 'i', 'v', 'i', 't', 'y', '_', 'w', 'i', 'n', 'd',
        'o', 'w',
    ]);
    reveal_strlit("hwp_energy_performance_preference");
    assert("hwp_energy_performance_preference"@ =~= seq![
        'h', 'w', 'p', '_', 'e', 'n', 'e', 'r', 'g', 'y', '_', 'p', 'e', 'r', 'f', 'o', 'r',
        'm', 'a', 'n', 'c', 'e', '_', 'p', 'r', 'e', 'f', 'e', 'r', 'e', 'n', 'c', 'e',
    ]);
    reveal_strlit("hdc");
    assert("hdc"@ =~= seq!['h', 'd', 'c']);
    reveal_strlit("number_of_interrupt_thresholds");
    assert("number_of_interrupt_thresholds"@ =~= seq![
        'n', 'u', 'm', 'b', 'e', 'r', '_', 'o', 'f', '_', 'i', 'n', 't', 'e', 'r', 'r', 'u',
        'p', 't', '_', 't', 'h', 'r', 'e', 's', 'h', 'o', 'l', 'd', 's',
    ]);
    reveal_strlit("hardware_coordination_feedback");
    assert("hardware_coordination_feedback"@ =~= seq![
        'h', 'a', 'r', 'd', 'w', 'a', 'r', 'e', '_', 'c', 'o', 'o', 'r', 'd', 'i', 'n', 'a',
        't', 'i', 'o', 'n', '_', 'f', 'e', 'e', 'd', 'b', 'a', 'c', 'k',
    ]);
    reveal_strlit("performance_energy_bias");
    assert("performance_energy_bias"@ =~= seq![
        'p', 'e', 'r', 'f', 'o', 'r', 'm', 'a', 'n', 'c', 'e', '_', 'e', 'n', 'e', 'r', 'g',
        'y', '_', 'b', 'i', 'a', 's',
    ]);
}

} // verus!
