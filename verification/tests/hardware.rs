use cpuid::{
    as_bytes, brand_string, cpuid, feature_information, physical_address_size,
    structured_extended_information, thermal_power_management_information, RequestType,
};

#[test]
fn basic_genuine_intel() {
    let found = cpuid(RequestType::BasicInformation);

    assert_eq!(b"Genu", &as_bytes(found.ebx));
    assert_eq!(b"ntel", &as_bytes(found.ecx));
    assert_eq!(b"ineI", &as_bytes(found.edx));
}

#[test]
fn brand_string_contains_intel() {
    assert!(brand_string().as_str().unwrap().contains("Intel(R)"))
}

#[test]
fn brand_string_is_the_same_on_every_query() {
    let first = brand_string();
    let second = brand_string();
    assert_eq!(first.as_bytes(), second.as_bytes());
    assert!(first.as_bytes().iter().all(|&byte| byte != 0));
    assert!(first.as_bytes().len() <= 48);
}

#[test]
fn extended_leaves_are_reported() {
    let found = cpuid(RequestType::ExtendedFunctionInformation);
    assert!(found.eax >= 0x8000_0008);
}

#[test]
fn a_processor_that_runs_this_code_has_its_baseline_features() {
    let features = feature_information();
    assert!(features.fpu());
    assert!(features.tsc());
    assert!(features.msr());
    assert!(features.cx8());
    assert!(features.cmov());
    assert!(features.fxsr());
    assert!(features.sse());
    assert!(features.sse2());
}

#[test]
fn queried_descriptors_render_what_their_accessors_return() {
    let features = feature_information();
    let text = features.render();
    assert!(text.starts_with(&format!("sse3: {}\n", features.sse3())));
    assert!(text.ends_with(&format!("pbe: {}\n", features.pbe())));
    assert_eq!(text.lines().count(), 59);

    let thermal = thermal_power_management_information();
    let text = thermal.render();
    assert!(text.contains(&format!(
        "number_of_interrupt_thresholds: {}\n",
        thermal.number_of_interrupt_thresholds()
    )));
    assert_eq!(text.lines().count(), 14);

    let structured = structured_extended_information();
    assert_eq!(structured.render().lines().count(), 18);
}

#[test]
fn address_widths_are_plausible() {
    let size = physical_address_size();
    assert!(size.physical_address_bits() >= 32);
    assert!(size.physical_address_bits() <= 64);
    assert!(size.linear_address_bits() >= 32);
    assert!(size.linear_address_bits() <= 64);
}
