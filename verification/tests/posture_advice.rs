use serial_checker::advice::{generate_spoofing_advice, Difficulty};
use serial_checker::posture::{detect_oem_vendor, LockedMotherboardInfo, PlatformSignals};

fn signals(
    oem_vendor: Option<&str>,
    is_tier1_oem: bool,
    secure_boot: bool,
    tpm_active: bool,
    vbs: bool,
    hvci: bool,
) -> PlatformSignals {
    PlatformSignals {
        oem_vendor: oem_vendor.map(|s| s.to_string()),
        is_tier1_oem,
        secure_boot,
        tpm_active,
        vbs,
        hvci,
    }
}

#[test]
fn dell_with_secure_boot_locks_with_two_reasons_and_six_advisories() {
    let s = signals(Some("Dell"), true, true, false, false, false);
    let p = LockedMotherboardInfo::detect(&s);
    assert!(p.overall_locked);
    assert!(p.is_oem_system);
    assert!(p.secure_boot_enforced);
    assert!(!p.tpm_locked);
    assert!(!p.bios_write_protected);
    assert_eq!(p.oem_vendor, "Dell");
    assert_eq!(p.lock_reasons.len(), 2);
    assert_eq!(p.lock_reasons[0], "Dell OEM system detected - BIOS typically locked");
    assert_eq!(p.lock_reasons[1], "Secure Boot enabled - EFI modifications restricted");

    let advice = generate_spoofing_advice(&p);
    assert_eq!(advice.len(), 6);
    assert_eq!(advice[0].category, "SMBIOS/Motherboard");
    assert_eq!(advice[0].method, "EFI-Level Spoofing");
    assert_eq!(advice[0].difficulty, Difficulty::Advanced);
    assert_eq!(advice[1].category, "Secure Boot");
    assert_eq!(advice[1].difficulty, Difficulty::Easy);
}

#[test]
fn all_signals_absent_means_unlocked_with_five_advisories() {
    let s = signals(None, false, false, false, false, false);
    let p = LockedMotherboardInfo::detect(&s);
    assert!(!p.overall_locked);
    assert_eq!(p.lock_reasons.len(), 0);
    assert_eq!(p.oem_vendor, "Unknown");

    let advice = generate_spoofing_advice(&p);
    assert_eq!(advice.len(), 5);
    assert_eq!(advice[0].category, "SMBIOS/Motherboard");
    assert_eq!(advice[0].method, "Registry + Driver Spoofing");
    assert_eq!(advice[0].difficulty, Difficulty::Medium);
    assert_eq!(advice[1].category, "Disk Serials");
    assert_eq!(advice[1].difficulty, Difficulty::Advanced);
    assert_eq!(advice[2].category, "Network MAC");
    assert_eq!(advice[2].difficulty, Difficulty::Easy);
    assert_eq!(advice[3].category, "GPU GUID");
    assert_eq!(advice[3].difficulty, Difficulty::Medium);
    assert_eq!(advice[4].category, "Monitor Serial");
    assert_eq!(advice[4].difficulty, Difficulty::Advanced);
}

#[test]
fn tpm_alone_does_not_lock_overall_but_gets_its_advisory() {
    let s = signals(None, false, false, true, false, false);
    let p = LockedMotherboardInfo::detect(&s);
    assert!(!p.overall_locked);
    assert!(p.tpm_locked);
    assert_eq!(p.lock_reasons.len(), 1);
    assert_eq!(p.lock_reasons[0], "TPM active - Hardware attestation may detect changes");
    let advice = generate_spoofing_advice(&p);
    assert_eq!(advice.len(), 6);
    assert_eq!(advice[0].category, "SMBIOS/Motherboard");
    assert_eq!(advice[0].difficulty, Difficulty::Medium);
    assert_eq!(advice[1].category, "TPM");
    assert_eq!(advice[1].method, "TPM Clear/Reset");
    assert_eq!(advice[1].difficulty, Difficulty::Medium);
}

#[test]
fn locked_with_tpm_adds_reset_advisory() {
    let s = signals(None, false, true, true, false, false);
    let p = LockedMotherboardInfo::detect(&s);
    assert!(p.overall_locked);
    let advice = generate_spoofing_advice(&p);
    assert_eq!(advice.len(), 7);
    assert_eq!(advice[2].category, "TPM");
    assert_eq!(advice[2].difficulty, Difficulty::Medium);
}

#[test]
fn vbs_and_hvci_both_protect_and_both_reasons_appear() {
    let s = signals(None, false, false, false, true, true);
    let p = LockedMotherboardInfo::detect(&s);
    assert!(p.overall_locked);
    assert!(p.bios_write_protected);
    assert_eq!(p.lock_reasons.len(), 2);
    assert_eq!(p.lock_reasons[0], "VBS enabled - Kernel-level protections active");
    assert_eq!(p.lock_reasons[1], "HVCI enabled - Driver signing enforced");
}

#[test]
fn hvci_alone_protects_with_one_reason() {
    let s = signals(None, false, false, false, false, true);
    let p = LockedMotherboardInfo::detect(&s);
    assert!(p.bios_write_protected);
    assert_eq!(p.lock_reasons, vec!["HVCI enabled - Driver signing enforced".to_string()]);
}

#[test]
fn vendor_detection_recognizes_patterns() {
    assert_eq!(detect_oem_vendor("Dell Inc."), Some(("Dell".to_string(), true)));
    assert_eq!(detect_oem_vendor("Hewlett-Packard"), Some(("HP".to_string(), true)));
    assert_eq!(detect_oem_vendor("LENOVO"), Some(("Lenovo".to_string(), true)));
    assert_eq!(detect_oem_vendor("ASUSTeK COMPUTER INC."), Some(("ASUS".to_string(), false)));
    assert_eq!(detect_oem_vendor("Micro-Star International"), None);
    assert_eq!(detect_oem_vendor("MSI"), Some(("MSI".to_string(), false)));
    assert_eq!(detect_oem_vendor("Frobnitz Systems"), None);
}

#[test]
fn default_posture_is_unlocked() {
    let p = LockedMotherboardInfo::default();
    assert!(!p.overall_locked);
    assert_eq!(p.oem_vendor, "Unknown");
    assert!(p.lock_reasons.is_empty());
}
