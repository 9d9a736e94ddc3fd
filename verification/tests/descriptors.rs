use cpuid::{
    FeatureInformation, PhysicalAddressSize, Registers, StructuredExtendedInformation,
    ThermalPowerManagementInformation,
};

fn registers(eax: u32, ebx: u32, ecx: u32, edx: u32) -> Registers {
    Registers { eax, ebx, ecx, edx }
}

fn features(ecx: u32, edx: u32) -> FeatureInformation {
    FeatureInformation::from_registers(registers(0, 0, ecx, edx))
}

fn thermal(eax: u32, ebx: u32, ecx: u32) -> ThermalPowerManagementInformation {
    ThermalPowerManagementInformation::from_registers(registers(eax, ebx, ecx, 0))
}

fn structured(ebx: u32, ecx: u32) -> StructuredExtendedInformation {
    StructuredExtendedInformation::from_registers(registers(0, ebx, ecx, 0))
}

fn address(eax: u32) -> PhysicalAddressSize {
    PhysicalAddressSize::from_registers(registers(eax, 0, 0, 0))
}

fn concat(lines: &[&str]) -> String {
    lines.concat()
}

#[test]
fn address_widths_of_a_known_word() {
    let size = address(0x0000_3024);
    assert_eq!(size.physical_address_bits(), 0x24);
    assert_eq!(size.physical_address_bits(), 36);
    assert_eq!(size.linear_address_bits(), 0x30);
    assert_eq!(size.linear_address_bits(), 48);
}

#[test]
fn address_widths_share_no_bit() {
    let low = PhysicalAddressSize::from_registers(registers(0x0000_00ff, 0, 0, 0));
    assert_eq!(low.physical_address_bits(), 255);
    assert_eq!(low.linear_address_bits(), 0);

    let high = PhysicalAddressSize::from_registers(registers(0x0000_ff00, 0, 0, 0));
    assert_eq!(high.physical_address_bits(), 0);
    assert_eq!(high.linear_address_bits(), 255);

    let above = PhysicalAddressSize::from_registers(registers(0xffff_0000, 0, 0, 0));
    assert_eq!(above.physical_address_bits(), 0);
    assert_eq!(above.linear_address_bits(), 0);
}

#[test]
fn address_widths_read_only_the_first_word() {
    let size = PhysicalAddressSize::from_registers(registers(0, u32::MAX, u32::MAX, u32::MAX));
    assert_eq!(size.physical_address_bits(), 0);
    assert_eq!(size.linear_address_bits(), 0);
}

#[test]
fn address_widths_are_rendered_as_decimal_numerals() {
    let size = PhysicalAddressSize::from_registers(registers(0x0000_3024, 0, 0, 0));
    assert_eq!(size.render(), "physical_address_bits: 36\nlinear_address_bits: 48\n");

    let size = PhysicalAddressSize::from_registers(registers(0xffff_ffff, 0, 0, 0));
    assert_eq!(size.render(), "physical_address_bits: 255\nlinear_address_bits: 255\n");

    let size = PhysicalAddressSize::from_registers(registers(0x0000_0a00, 0, 0, 0));
    assert_eq!(size.render(), "physical_address_bits: 0\nlinear_address_bits: 10\n");

    let size = PhysicalAddressSize::from_registers(registers(0x0000_6409, 0, 0, 0));
    assert_eq!(size.render(), "physical_address_bits: 9\nlinear_address_bits: 100\n");
}

#[test]
fn thermal_fields_of_known_words() {
    let thermal = ThermalPowerManagementInformation::from_registers(registers(
        0x0000_2077,
        0x0000_0002,
        0x0000_0009,
        u32::MAX,
    ));
    assert!(thermal.digital_temperature_sensor());
    assert!(thermal.intel_turbo_boost());
    assert!(thermal.arat());
    assert!(thermal.pln());
    assert!(thermal.ecmd());
    assert!(thermal.ptm());
    assert!(!thermal.hwp());
    assert!(!thermal.hwp_notification());
    assert!(!thermal.hwp_activity_window());
    assert!(!thermal.hwp_energy_performance_preference());
    assert!(thermal.hdc());
    assert_eq!(thermal.number_of_interrupt_thresholds(), 2);
    assert!(thermal.hardware_coordination_feedback());
    assert!(thermal.performance_energy_bias());
    assert_eq!(
        thermal.render(),
        concat(&[
            "digital_temperature_sensor: true\n",
            "intel_turbo_boost: true\n",
            "arat: true\n",
            "pln: true\n",
            "ecmd: true\n",
            "ptm: true\n",
            "hwp: false\n",
            "hwp_notification: false\n",
            "hwp_activity_window: false\n",
            "hwp_energy_performance_preference: false\n",
            "hdc: true\n",
            "number_of_interrupt_thresholds: 2\n",
            "hardware_coordination_feedback: true\n",
            "performance_energy_bias: true\n",
        ])
    );
}

#[test]
fn thermal_threshold_count_is_the_low_four_bits_of_the_second_word() {
    for count in 0u32..16 {
        let found = thermal(0, 0xffff_fff0 | count, 0);
        assert_eq!(found.number_of_interrupt_thresholds(), count);
        let line = format!("number_of_interrupt_thresholds: {}\n", count);
        assert!(found.render().contains(&line));
    }
    let found = thermal(u32::MAX, 0xf0, u32::MAX);
    assert_eq!(found.number_of_interrupt_thresholds(), 0);
}

#[test]
fn thermal_reserved_bits_set_no_flag() {
    let reserved = (1u32 << 3) | (1 << 11) | (1 << 12) | 0xffff_c000;
    let found = thermal(reserved, 0, 0b0110);
    assert!(!found.render().contains("true"));
    assert_eq!(found.render().lines().count(), 14);
}

#[test]
fn structured_flags_of_known_words() {
    let structured = StructuredExtendedInformation::from_registers(registers(
        u32::MAX,
        0x021c_2fbb,
        1,
        u32::MAX,
    ));
    assert!(structured.fsgsbase());
    assert!(structured.ia32_tsc_adjust_msr());
    assert!(structured.bmi1());
    assert!(structured.hle());
    assert!(structured.avx2());
    assert!(structured.smep());
    assert!(structured.bmi2());
    assert!(structured.enhanced_rep_movsb_stosb());
    assert!(structured.invpcid());
    assert!(structured.rtm());
    assert!(!structured.pqm());
    assert!(structured.deprecates_fpu_cs_ds());
    assert!(!structured.pqe());
    assert!(structured.rdseed());
    assert!(structured.adx());
    assert!(structured.smap());
    assert!(structured.intel_processor_trace());
    assert!(structured.prefetchwt1());
    assert_eq!(
        structured.render(),
        concat(&[
            "fsgsbase: true\n",
            "ia32_tsc_adjust_msr: true\n",
            "bmi1: true\n",
            "hle: true\n",
            "avx2: true\n",
            "smep: true\n",
            "bmi2: true\n",
            "enhanced_rep_movsb_stosb: true\n",
            "invpcid: true\n",
            "rtm: true\n",
            "pqm: false\n",
            "deprecates_fpu_cs_ds: true\n",
            "pqe: false\n",
            "rdseed: true\n",
            "adx: true\n",
            "smap: true\n",
            "intel_processor_trace: true\n",
            "prefetchwt1: true\n",
        ])
    );
}

#[test]
fn structured_flags_follow_their_own_bit_only() {
    let structured =
        StructuredExtendedInformation::from_registers(registers(0, 0x0004_0020, 0xffff_fffe, 0));
    assert!(structured.avx2());
    assert!(structured.rdseed());
    assert!(!structured.prefetchwt1());
    assert_eq!(
        structured.render(),
        concat(&[
            "fsgsbase: false\n",
            "ia32_tsc_adjust_msr: false\n",
            "bmi1: false\n",
            "hle: false\n",
            "avx2: true\n",
            "smep: false\n",
            "bmi2: false\n",
            "enhanced_rep_movsb_stosb: false\n",
            "invpcid: false\n",
            "rtm: false\n",
            "pqm: false\n",
            "deprecates_fpu_cs_ds: false\n",
            "pqe: false\n",
            "rdseed: true\n",
            "adx: false\n",
            "smap: false\n",
            "intel_processor_trace: false\n",
            "prefetchwt1: false\n",
        ])
    );
}

#[test]
fn feature_flags_of_a_recent_processor() {
    let features = FeatureInformation::from_registers(registers(
        0x0005_0654,
        0x0010_0800,
        0x7ffa_fbff,
        0xbfeb_fbff,
    ));
    assert!(features.sse3());
    assert!(features.vmx());
    assert!(!features.cnxt_id());
    assert!(features.sdbg());
    assert!(features.avx());
    assert!(features.rdrand());
    assert!(features.fpu());
    assert!(!features.psn());
    assert!(features.htt());
    assert!(features.pbe());
    assert_eq!(
        features.render(),
        concat(&[
            "sse3: true\n",
            "pclmulqdq: true\n",
            "dtes64: true\n",
            "monitor: true\n",
            "ds_cpl: true\n",
            "vmx: true\n",
            "smx: true\n",
            "eist: true\n",
            "tm2: true\n",
            "ssse3: true\n",
            "cnxt_id: false\n",
            "sdbg: true\n",
            "fma: true\n",
            "cmpxchg16b: true\n",
            "xtpr_update_control: true\n",
            "pdcm: true\n",
            "pcid: true\n",
            "dca: false\n",
            "sse4_1: true\n",
            "sse4_2: true\n",
            "x2apic: true\n",
            "movbe: true\n",
            "popcnt: true\n",
            "tsc_deadline: true\n",
            "aesni: true\n",
            "xsave: true\n",
            "osxsave: true\n",
            "avx: true\n",
            "f16c: true\n",
            "rdrand: true\n",
            "fpu: true\n",
            "vme: true\n",
            "de: true\n",
            "pse: true\n",
            "tsc: true\n",
            "msr: true\n",
            "pae: true\n",
            "mce: true\n",
            "cx8: true\n",
            "apic: true\n",
            "sep: true\n",
            "mtrr: true\n",
            "pge: true\n",
            "mca: true\n",
            "cmov: true\n",
            "pat: true\n",
            "pse_36: true\n",
            "psn: false\n",
            "clfsh: true\n",
            "ds: true\n",
            "acpi: true\n",
            "mmx: true\n",
            "fxsr: true\n",
            "sse: true\n",
            "sse2: true\n",
            "ss: true\n",
            "htt: true\n",
            "tm: true\n",
            "pbe: true\n",
        ])
    );
}

#[test]
fn each_feature_flag_of_the_third_word_reads_its_own_bit() {
    assert!(features(0x0000_0001, 0).sse3());
    assert!(!features(0xffff_fffe, 0).sse3());
    assert!(features(0x0000_0002, 0).pclmulqdq());
    assert!(!features(0xffff_fffd, 0).pclmulqdq());
    assert!(features(0x0000_0004, 0).dtes64());
    assert!(!features(0xffff_fffb, 0).dtes64());
    assert!(features(0x0000_0008, 0).monitor());
    assert!(!features(0xffff_fff7, 0).monitor());
    assert!(features(0x0000_0010, 0).ds_cpl());
    assert!(!features(0xffff_ffef, 0).ds_cpl());
    assert!(features(0x0000_0020, 0).vmx());
    assert!(!features(0xffff_ffdf, 0).vmx());
    assert!(features(0x0000_0040, 0).smx());
    assert!(!features(0xffff_ffbf, 0).smx());
    assert!(features(0x0000_0080, 0).eist());
    assert!(!features(0xffff_ff7f, 0).eist());
    assert!(features(0x0000_0100, 0).tm2());
    assert!(!features(0xffff_feff, 0).tm2());
    assert!(features(0x0000_0200, 0).ssse3());
    assert!(!features(0xffff_fdff, 0).ssse3());
    assert!(features(0x0000_0400, 0).cnxt_id());
    assert!(!features(0xffff_fbff, 0).cnxt_id());
    assert!(features(0x0000_0800, 0).sdbg());
    assert!(!features(0xffff_f7ff, 0).sdbg());
    assert!(features(0x0000_1000, 0).fma());
    assert!(!features(0xffff_efff, 0).fma());
    assert!(features(0x0000_2000, 0).cmpxchg16b());
    assert!(!features(0xffff_dfff, 0).cmpxchg16b());
    assert!(features(0x0000_4000, 0).xtpr_update_control());
    assert!(!features(0xffff_bfff, 0).xtpr_update_control());
    assert!(features(0x0000_8000, 0).pdcm());
    assert!(!features(0xffff_7fff, 0).pdcm());
    assert!(features(0x0002_0000, 0).pcid());
    assert!(!features(0xfffd_ffff, 0).pcid());
    assert!(features(0x0004_0000, 0).dca());
    assert!(!features(0xfffb_ffff, 0).dca());
    assert!(features(0x0008_0000, 0).sse4_1());
    assert!(!features(0xfff7_ffff, 0).sse4_1());
    assert!(features(0x0010_0000, 0).sse4_2());
    assert!(!features(0xffef_ffff, 0).sse4_2());
    assert!(features(0x0020_0000, 0).x2apic());
    assert!(!features(0xffdf_ffff, 0).x2apic());
    assert!(features(0x0040_0000, 0).movbe());
    assert!(!features(0xffbf_ffff, 0).movbe());
    assert!(features(0x0080_0000, 0).popcnt());
    assert!(!features(0xff7f_ffff, 0).popcnt());
    assert!(features(0x0100_0000, 0).tsc_deadline());
    assert!(!features(0xfeff_ffff, 0).tsc_deadline());
    assert!(features(0x0200_0000, 0).aesni());
    assert!(!features(0xfdff_ffff, 0).aesni());
    assert!(features(0x0400_0000, 0).xsave());
    assert!(!features(0xfbff_ffff, 0).xsave());
    assert!(features(0x0800_0000, 0).osxsave());
    assert!(!features(0xf7ff_ffff, 0).osxsave());
    assert!(features(0x1000_0000, 0).avx());
    assert!(!features(0xefff_ffff, 0).avx());
    assert!(features(0x2000_0000, 0).f16c());
    assert!(!features(0xdfff_ffff, 0).f16c());
    assert!(features(0x4000_0000, 0).rdrand());
    assert!(!features(0xbfff_ffff, 0).rdrand());
}

#[test]
fn each_feature_flag_of_the_fourth_word_reads_its_own_bit() {
    assert!(features(0, 0x0000_0001).fpu());
    assert!(!features(0, 0xffff_fffe).fpu());
    assert!(features(0, 0x0000_0002).vme());
    assert!(!features(0, 0xffff_fffd).vme());
    assert!(features(0, 0x0000_0004).de());
    assert!(!features(0, 0xffff_fffb).de());
    assert!(features(0, 0x0000_0008).pse());
    assert!(!features(0, 0xffff_fff7).pse());
    assert!(features(0, 0x0000_0010).tsc());
    assert!(!features(0, 0xffff_ffef).tsc());
    assert!(features(0, 0x0000_0020).msr());
    assert!(!features(0, 0xffff_ffdf).msr());
    assert!(features(0, 0x0000_0040).pae());
    assert!(!features(0, 0xffff_ffbf).pae());
    assert!(features(0, 0x0000_0080).mce());
    assert!(!features(0, 0xffff_ff7f).mce());
    assert!(features(0, 0x0000_0100).cx8());
    assert!(!features(0, 0xffff_feff).cx8());
    assert!(features(0, 0x0000_0200).apic());
    assert!(!features(0, 0xffff_fdff).apic());
    assert!(features(0, 0x0000_0800).sep());
    assert!(!features(0, 0xffff_f7ff).sep());
    assert!(features(0, 0x0000_1000).mtrr());
    assert!(!features(0, 0xffff_efff).mtrr());
    assert!(features(0, 0x0000_2000).pge());
    assert!(!features(0, 0xffff_dfff).pge());
    assert!(features(0, 0x0000_4000).mca());
    assert!(!features(0, 0xffff_bfff).mca());
    assert!(features(0, 0x0000_8000).cmov());
    assert!(!features(0, 0xffff_7fff).cmov());
    assert!(features(0, 0x0001_0000).pat());
    assert!(!features(0, 0xfffe_ffff).pat());
    assert!(features(0, 0x0002_0000).pse_36());
    assert!(!features(0, 0xfffd_ffff).pse_36());
    assert!(features(0, 0x0004_0000).psn());
    assert!(!features(0, 0xfffb_ffff).psn());
    assert!(features(0, 0x0008_0000).clfsh());
    assert!(!features(0, 0xfff7_ffff).clfsh());
    assert!(features(0, 0x0020_0000).ds());
    assert!(!features(0, 0xffdf_ffff).ds());
    assert!(features(0, 0x0040_0000).acpi());
    assert!(!features(0, 0xffbf_ffff).acpi());
    assert!(features(0, 0x0080_0000).mmx());
    assert!(!features(0, 0xff7f_ffff).mmx());
    assert!(features(0, 0x0100_0000).fxsr());
    assert!(!features(0, 0xfeff_ffff).fxsr());
    assert!(features(0, 0x0200_0000).sse());
    assert!(!features(0, 0xfdff_ffff).sse());
    assert!(features(0, 0x0400_0000).sse2());
    assert!(!features(0, 0xfbff_ffff).sse2());
    assert!(features(0, 0x0800_0000).ss());
    assert!(!features(0, 0xf7ff_ffff).ss());
    assert!(features(0, 0x1000_0000).htt());
    assert!(!features(0, 0xefff_ffff).htt());
    assert!(features(0, 0x2000_0000).tm());
    assert!(!features(0, 0xdfff_ffff).tm());
    assert!(features(0, 0x8000_0000).pbe());
    assert!(!features(0, 0x7fff_ffff).pbe());
}

#[test]
fn each_thermal_flag_reads_its_own_bit() {
    assert!(thermal(0x0000_0001, 0, 0).digital_temperature_sensor());
    assert!(!thermal(0xffff_fffe, 0, 0).digital_temperature_sensor());
    assert!(thermal(0x0000_0002, 0, 0).intel_turbo_boost());
    assert!(!thermal(0xffff_fffd, 0, 0).intel_turbo_boost());
    assert!(thermal(0x0000_0004, 0, 0).arat());
    assert!(!thermal(0xffff_fffb, 0, 0).arat());
    assert!(thermal(0x0000_0010, 0, 0).pln());
    assert!(!thermal(0xffff_ffef, 0, 0).pln());
    assert!(thermal(0x0000_0020, 0, 0).ecmd());
    assert!(!thermal(0xffff_ffdf, 0, 0).ecmd());
    assert!(thermal(0x0000_0040, 0, 0).ptm());
    assert!(!thermal(0xffff_ffbf, 0, 0).ptm());
    assert!(thermal(0x0000_0080, 0, 0).hwp());
    assert!(!thermal(0xffff_ff7f, 0, 0).hwp());
    assert!(thermal(0x0000_0100, 0, 0).hwp_notification());
    assert!(!thermal(0xffff_feff, 0, 0).hwp_notification());
    assert!(thermal(0x0000_0200, 0, 0).hwp_activity_window());
    assert!(!thermal(0xffff_fdff, 0, 0).hwp_activity_window());
    assert!(thermal(0x0000_0400, 0, 0).hwp_energy_performance_preference());
    assert!(!thermal(0xffff_fbff, 0, 0).hwp_energy_performance_preference());
    assert!(thermal(0x0000_2000, 0, 0).hdc());
    assert!(!thermal(0xffff_dfff, 0, 0).hdc());
    assert!(thermal(0, 0, 0x0000_0001).hardware_coordination_feedback());
    assert!(!thermal(0, 0, 0xffff_fffe).hardware_coordination_feedback());
    assert!(thermal(0, 0, 0x0000_0008).performance_energy_bias());
    assert!(!thermal(0, 0, 0xffff_fff7).performance_energy_bias());
}

#[test]
fn each_structured_flag_reads_its_own_bit() {
    assert!(structured(0x0000_0001, 0).fsgsbase());
    assert!(!structured(0xffff_fffe, 0).fsgsbase());
    assert!(structured(0x0000_0002, 0).ia32_tsc_adjust_msr());
    assert!(!structured(0xffff_fffd, 0).ia32_tsc_adjust_msr());
    assert!(structured(0x0000_0008, 0).bmi1());
    assert!(!structured(0xffff_fff7, 0).bmi1());
    assert!(structured(0x0000_0010, 0).hle());
    assert!(!structured(0xffff_ffef, 0).hle());
    assert!(structured(0x0000_0020, 0).avx2());
    assert!(!structured(0xffff_ffdf, 0).avx2());
    assert!(structured(0x0000_0080, 0).smep());
    assert!(!structured(0xffff_ff7f, 0).smep());
    assert!(structured(0x0000_0100, 0).bmi2());
    assert!(!structured(0xffff_feff, 0).bmi2());
    assert!(structured(0x0000_0200, 0).enhanced_rep_movsb_stosb());
    assert!(!structured(0xffff_fdff, 0).enhanced_rep_movsb_stosb());
    assert!(structured(0x0000_0400, 0).invpcid());
    assert!(!structured(0xffff_fbff, 0).invpcid());
    assert!(structured(0x0000_0800, 0).rtm());
    assert!(!structured(0xffff_f7ff, 0).rtm());
    assert!(structured(0x0000_1000, 0).pqm());
    assert!(!structured(0xffff_efff, 0).pqm());
    assert!(structured(0x0000_2000, 0).deprecates_fpu_cs_ds());
    assert!(!structured(0xffff_dfff, 0).deprecates_fpu_cs_ds());
    assert!(structured(0x0000_8000, 0).pqe());
    assert!(!structured(0xffff_7fff, 0).pqe());
    assert!(structured(0x0004_0000, 0).rdseed());
    assert!(!structured(0xfffb_ffff, 0).rdseed());
    assert!(structured(0x0008_0000, 0).adx());
    assert!(!structured(0xfff7_ffff, 0).adx());
    assert!(structured(0x0010_0000, 0).smap());
    assert!(!structured(0xffef_ffff, 0).smap());
    assert!(structured(0x0200_0000, 0).intel_processor_trace());
    assert!(!structured(0xfdff_ffff, 0).intel_processor_trace());
    assert!(structured(0, 0x0000_0001).prefetchwt1());
    assert!(!structured(0, 0xffff_fffe).prefetchwt1());
}

#[test]
fn rendering_names_every_accessor_once_in_table_order() {
    let features = FeatureInformation::from_registers(registers(0, 0, 0, 0));
    let text = features.render();
    let names: Vec<&str> = text.lines().map(|line| line.split(": ").next().unwrap()).collect();
    let expected = [
        "sse3",
        "pclmulqdq",
        "dtes64",
        "monitor",
        "ds_cpl",
        "vmx",
        "smx",
        "eist",
        "tm2",
        "ssse3",
        "cnxt_id",
        "sdbg",
        "fma",
        "cmpxchg16b",
        "xtpr_update_control",
        "pdcm",
        "pcid",
        "dca",
        "sse4_1",
        "sse4_2",
        "x2apic",
        "movbe",
        "popcnt",
        "tsc_deadline",
        "aesni",
        "xsave",
        "osxsave",
        "avx",
        "f16c",
        "rdrand",
        "fpu",
        "vme",
        "de",
        "pse",
        "tsc",
        "msr",
        "pae",
        "mce",
        "cx8",
        "apic",
        "sep",
        "mtrr",
        "pge",
        "mca",
        "cmov",
        "pat",
        "pse_36",
        "psn",
        "clfsh",
        "ds",
        "acpi",
        "mmx",
        "fxsr",
        "sse",
        "sse2",
        "ss",
        "htt",
        "tm",
        "pbe",
    ];
    assert_eq!(names, expected);
    for (at, name) in names.iter().enumerate() {
        assert!(!names[..at].contains(name));
    }
    for line in text.lines() {
        assert!(line.ends_with(": false"));
    }
}

#[test]
fn rendering_reserved_feature_bits_changes_nothing() {
    let none = FeatureInformation::from_registers(registers(0, 0, 0, 0));
    let reserved = FeatureInformation::from_registers(registers(
        u32::MAX,
        u32::MAX,
        (1 << 16) | (1 << 31),
        (1 << 10) | (1 << 20) | (1 << 30),
    ));
    assert_eq!(none.render(), reserved.render());
}

#[test]
fn rendering_is_the_same_for_a_copy() {
    let features = FeatureInformation::from_registers(registers(1, 2, 0x1357_9bdf, 0x0246_8ace));
    let copy = features;
    assert_eq!(features.render(), copy.render());
    assert_eq!(features.render(), features.render());
}
