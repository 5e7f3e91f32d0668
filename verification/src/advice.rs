//! The advisory catalogue: a fixed, finite set of remediation entries per
//! identity category, parameterized only by the lock posture.

use vstd::prelude::*;

use crate::posture::{LockedMotherboardInfo, PostureView};

verus! {

/// How hard a remediation method is to carry out.
#[derive(Debug, Clone, Copy, PartialEq, Eq)]
pub enum Difficulty {
    Easy,
    Medium,
    Advanced,
}

/// One remediation entry: an identity category, a method, its difficulty
/// and free-text details.
#[derive(Debug, Clone)]
pub struct SpoofingAdvice {
    pub category: String,
    pub method: String,
    pub difficulty: Difficulty,
    pub details: String,
}

/// Mathematical shape of an advisory entry.
#[verifier::ext_equal]
pub struct AdviceView {
    pub category: Seq<char>,
    pub method: Seq<char>,
    pub difficulty: Difficulty,
    pub details: Seq<char>,
}

impl View for SpoofingAdvice {
    type V = AdviceView;

    open spec fn view(&self) -> AdviceView {
        AdviceView {
            category: self.category@,
            method: self.method@,
            difficulty: self.difficulty,
            details: self.details@,
        }
    }
}

impl DeepView for SpoofingAdvice {
    type V = AdviceView;

    open spec fn deep_view(&self) -> AdviceView {
        self.view()
    }
}

pub open spec fn motherboard_locked_entry() -> AdviceView {
    AdviceView {
        category: "SMBIOS/Motherboard"@,
        method: "EFI-Level Spoofing"@,
        difficulty: Difficulty::Advanced,
        details: "Use UEFI shell or EFI module injection. Tools: SmmBackdoor, custom EFI drivers. Modify SMBIOS tables at firmware level before OS boot. May require disabling Secure Boot first."@,
    }
}

pub open spec fn motherboard_unlocked_entry() -> AdviceView {
    AdviceView {
        category: "SMBIOS/Motherboard"@,
        method: "Registry + Driver Spoofing"@,
        difficulty: Difficulty::Medium,
        details: "Modify HKLM\\HARDWARE\\DESCRIPTION\\System\\BIOS values. Use WMI provider hooks or kernel drivers to intercept queries. Tools: Custom kernel drivers, WMI hooks."@,
    }
}

pub open spec fn secure_boot_entry() -> AdviceView {
    AdviceView {
        category: "Secure Boot"@,
        method: "Disable in BIOS"@,
        difficulty: Difficulty::Easy,
        details: "Enter BIOS setup (DEL/F2), navigate to Security/Boot settings, disable Secure Boot. Required before EFI modifications. Some OEM systems may require BIOS password."@,
    }
}

pub open spec fn tpm_entry() -> AdviceView {
    AdviceView {
        category: "TPM"@,
        method: "TPM Clear/Reset"@,
        difficulty: Difficulty::Medium,
        details: "Clear TPM from BIOS or Windows Security settings. Note: This will remove all TPM-protected keys including BitLocker. Back up recovery keys first. Some games use TPM for hardware attestation."@,
    }
}

pub open spec fn disk_entry() -> AdviceView {
    AdviceView {
        category: "Disk Serials"@,
        method: "IOCTL Hooking / Firmware"@,
        difficulty: Difficulty::Advanced,
        details: "Hook IOCTL_STORAGE_QUERY_PROPERTY and SMART_RCV_DRIVE_DATA in kernel driver. For persistent changes: some SSDs have firmware tools to modify serial. NVMe drives may use vendor-specific commands."@,
    }
}

pub open spec fn network_entry() -> AdviceView {
    AdviceView {
        category: "Network MAC"@,
        method: "Registry / Driver Level"@,
        difficulty: Difficulty::Easy,
        details: "Registry: HKLM\\SYSTEM\\CurrentControlSet\\Control\\Class\\{4d36e972...}\\000X Add NetworkAddress string with new MAC (no colons). Or use Device Manager > Network Adapter > Advanced > Locally Administered Address."@,
    }
}

pub open spec fn gpu_entry() -> AdviceView {
    AdviceView {
        category: "GPU GUID"@,
        method: "Registry Modification"@,
        difficulty: Difficulty::Medium,
        details: "Modify HKLM\\SYSTEM\\CurrentControlSet\\Enum\\PCI entries for GPU. Some anti-cheats read GPU info via DXGI/DirectX - may need API hooks. NVIDIA/AMD driver reinstall generates new GUIDs."@,
    }
}

pub open spec fn monitor_entry() -> AdviceView {
    AdviceView {
        category: "Monitor Serial"@,
        method: "EDID Spoofing"@,
        difficulty: Difficulty::Advanced,
        details: "Intercept EDID data from monitor. Tools: Custom display drivers, EDID override in registry. Path: HKLM\\SYSTEM\\CurrentControlSet\\Enum\\DISPLAY\\<Monitor>\\<ID>\\Device Parameters\\EDID_OVERRIDE"@,
    }
}

/// The whole catalogue for a posture: one motherboard entry whose method
/// branches on the overall verdict, a secure-boot entry when secure boot
/// is enforced, a TPM entry when the TPM is active, then one fixed entry
/// per remaining identity category.
pub open spec fn advice_spec(p: PostureView) -> Seq<AdviceView> {
    let mb = if p.overall_locked {
        seq![motherboard_locked_entry()]
    } else {
        seq![motherboard_unlocked_entry()]
    };
    let sb = if p.secure_boot_enforced {
        seq![secure_boot_entry()]
    } else {
        Seq::empty()
    };
    let tpm = if p.tpm_locked {
        seq![tpm_entry()]
    } else {
        Seq::empty()
    };
    mb + sb + tpm + seq![disk_entry(), network_entry(), gpu_entry(), monitor_entry()]
}

/// Builds the advisory catalogue for the given posture.
pub fn generate_spoofing_advice(locked_info: &LockedMotherboardInfo) -> (advice: Vec<
    SpoofingAdvice,
>)
    ensures
        advice.deep_view() == advice_spec(locked_info@),
{
    let mut advice: Vec<SpoofingAdvice> = Vec::new();

    if locked_info.overall_locked {
        advice.push(
            SpoofingAdvice {
                category: String::from_str("SMBIOS/Motherboard"),
                method: String::from_str("EFI-Level Spoofing"),
                difficulty: Difficulty::Advanced,
                details: String::from_str(
                    "Use UEFI shell or EFI module injection. Tools: SmmBackdoor, custom EFI drivers. Modify SMBIOS tables at firmware level before OS boot. May require disabling Secure Boot first.",
                ),
            },
        );
    } else {
        advice.push(
            SpoofingAdvice {
                category: String::from_str("SMBIOS/Motherboard"),
                method: String::from_str("Registry + Driver Spoofing"),
                difficulty: Difficulty::Medium,
                details: String::from_str(
                    "Modify HKLM\\HARDWARE\\DESCRIPTION\\System\\BIOS values. Use WMI provider hooks or kernel drivers to intercept queries. Tools: Custom kernel drivers, WMI hooks.",
                ),
            },
        );
    }
    if locked_info.secure_boot_enforced {
        advice.push(
            SpoofingAdvice {
                category: String::from_str("Secure Boot"),
                method: String::from_str("Disable in BIOS"),
                difficulty: Difficulty::Easy,
                details: String::from_str(
                    "Enter BIOS setup (DEL/F2), navigate to Security/Boot settings, disable Secure Boot. Required before EFI modifications. Some OEM systems may require BIOS password.",
                ),
            },
        );
    }
    if locked_info.tpm_locked {
        advice.push(
            SpoofingAdvice {
                category: String::from_str("TPM"),
                method: String::from_str("TPM Clear/Reset"),
                difficulty: Difficulty::Medium,
                details: String::from_str(
                    "Clear TPM from BIOS or Windows Security settings. Note: This will remove all TPM-protected keys including BitLocker. Back up recovery keys first. Some games use TPM for hardware attestation.",
                ),
            },
        );
    }

    advice.push(
        SpoofingAdvice {
            category: String::from_str("Disk Serials"),
            method: String::from_str("IOCTL Hooking / Firmware"),
            difficulty: Difficulty::Advanced,
            details: String::from_str(
                "Hook IOCTL_STORAGE_QUERY_PROPERTY and SMART_RCV_DRIVE_DATA in kernel driver. For persistent changes: some SSDs have firmware tools to modify serial. NVMe drives may use vendor-specific commands.",
            ),
        },
    );
    advice.push(
        SpoofingAdvice {
            category: String::from_str("Network MAC"),
            method: String::from_str("Registry / Driver Level"),
            difficulty: Difficulty::Easy,
            details: String::from_str(
                "Registry: HKLM\\SYSTEM\\CurrentControlSet\\Control\\Class\\{4d36e972...}\\000X Add NetworkAddress string with new MAC (no colons). Or use Device Manager > Network Adapter > Advanced > Locally Administered Address.",
            ),
        },
    );
    advice.push(
        SpoofingAdvice {
            category: String::from_str("GPU GUID"),
            method: String::from_str("Registry Modification"),
            difficulty: Difficulty::Medium,
            details: String::from_str(
                "Modify HKLM\\SYSTEM\\CurrentControlSet\\Enum\\PCI entries for GPU. Some anti-cheats read GPU info via DXGI/DirectX - may need API hooks. NVIDIA/AMD driver reinstall generates new GUIDs.",
            ),
        },
    );
    advice.push(
        SpoofingAdvice {
            category: String::from_str("Monitor Serial"),
            method: String::from_str("EDID Spoofing"),
            difficulty: Difficulty::Advanced,
            details: String::from_str(
                "Intercept EDID data from monitor. Tools: Custom display drivers, EDID override in registry. Path: HKLM\\SYSTEM\\CurrentControlSet\\Enum\\DISPLAY\\<Monitor>\\<ID>\\Device Parameters\\EDID_OVERRIDE",
            ),
        },
    );

    proof {
        assert(advice.deep_view() =~= advice_spec(locked_info@));
    }
    advice
}

} // verus!
