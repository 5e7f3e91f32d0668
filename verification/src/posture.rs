//! Lock-posture evaluation: from a set of boolean platform-security signals
//! to an overall "locked" verdict with ordered, human-readable reasons.

use vstd::prelude::*;

use crate::chars::{chars_of, contains_seq, contains_sub, lower_char, lower_seq, to_lower};
use crate::normalize::opt_view;

verus! {

/// Best-effort platform-security signals.  A check that could not be
/// performed is reported as `false` or `None`, never as an error.
pub struct PlatformSignals {
    /// Display name of a recognized OEM vendor, from the reported system
    /// manufacturer.
    pub oem_vendor: Option<String>,
    /// The recognized vendor is one of the typically-locked set
    /// (Dell, HP, Lenovo).
    pub is_tier1_oem: bool,
    /// UEFI secure boot is enabled.
    pub secure_boot: bool,
    /// The TPM service is active.
    pub tpm_active: bool,
    /// Virtualization-based security is enabled.
    pub vbs: bool,
    /// Hypervisor-enforced code integrity is enabled.
    pub hvci: bool,
}

/// Mathematical shape of the signal set.
pub struct SignalsView {
    pub oem_vendor: Option<Seq<char>>,
    pub is_tier1_oem: bool,
    pub secure_boot: bool,
    pub tpm_active: bool,
    pub vbs: bool,
    pub hvci: bool,
}

impl View for PlatformSignals {
    type V = SignalsView;

    open spec fn view(&self) -> SignalsView {
        SignalsView {
            oem_vendor: opt_view(self.oem_vendor),
            is_tier1_oem: self.is_tier1_oem,
            secure_boot: self.secure_boot,
            tpm_active: self.tpm_active,
            vbs: self.vbs,
            hvci: self.hvci,
        }
    }
}

/// The derived lock posture of the platform.
#[derive(Debug, Clone)]
pub struct LockedMotherboardInfo {
    pub is_oem_system: bool,
    pub oem_vendor: String,
    pub bios_write_protected: bool,
    pub secure_boot_enforced: bool,
    pub tpm_locked: bool,
    pub overall_locked: bool,
    pub lock_reasons: Vec<String>,
}

/// Mathematical shape of a lock posture.
#[verifier::ext_equal]
pub struct PostureView {
    pub is_oem_system: bool,
    pub oem_vendor: Seq<char>,
    pub bios_write_protected: bool,
    pub secure_boot_enforced: bool,
    pub tpm_locked: bool,
    pub overall_locked: bool,
    pub lock_reasons: Seq<Seq<char>>,
}

impl View for LockedMotherboardInfo {
    type V = PostureView;

    open spec fn view(&self) -> PostureView {
        PostureView {
            is_oem_system: self.is_oem_system,
            oem_vendor: self.oem_vendor@,
            bios_write_protected: self.bios_write_protected,
            secure_boot_enforced: self.secure_boot_enforced,
            tpm_locked: self.tpm_locked,
            overall_locked: self.overall_locked,
            lock_reasons: self.lock_reasons.deep_view(),
        }
    }
}

/// The reasons collected before the HVCI check, in evaluation order:
/// vendor, secure boot, TPM, VBS.
pub open spec fn reasons_before_hvci(s: SignalsView) -> Seq<Seq<char>> {
    let oem = if s.is_tier1_oem && s.oem_vendor is Some {
        seq![s.oem_vendor->0 + " OEM system detected - BIOS typically locked"@]
    } else {
        Seq::empty()
    };
    let sb = if s.secure_boot {
        seq!["Secure Boot enabled - EFI modifications restricted"@]
    } else {
        Seq::empty()
    };
    let tpm = if s.tpm_active {
        seq!["TPM active - Hardware attestation may detect changes"@]
    } else {
        Seq::empty()
    };
    let vbs = if s.vbs {
        seq!["VBS enabled - Kernel-level protections active"@]
    } else {
        Seq::empty()
    };
    oem + sb + tpm + vbs
}

/// The full reason list: the HVCI reason is appended only when no earlier
/// reason already mentions HVCI.
pub open spec fn lock_reasons_spec(s: SignalsView) -> Seq<Seq<char>> {
    let pre = reasons_before_hvci(s);
    if s.hvci && !(exists|i: int|
        0 <= i < pre.len() && contains_seq(#[trigger] pre[i], "HVCI"@)) {
        pre + seq!["HVCI enabled - Driver signing enforced"@]
    } else {
        pre
    }
}

/// The posture derived from a signal set.  The overall verdict is the
/// disjunction of OEM lock, secure boot and BIOS write protection; TPM
/// activity alone does not flip it.
pub open spec fn posture_spec(s: SignalsView) -> PostureView {
    PostureView {
        is_oem_system: s.is_tier1_oem && s.oem_vendor is Some,
        oem_vendor: match s.oem_vendor {
            Option::Some(v) => v,
            Option::None => "Unknown"@,
        },
        bios_write_protected: s.vbs || s.hvci,
        secure_boot_enforced: s.secure_boot,
        tpm_locked: s.tpm_active,
        overall_locked: (s.is_tier1_oem && s.oem_vendor is Some) || s.secure_boot || s.vbs
            || s.hvci,
        lock_reasons: lock_reasons_spec(s),
    }
}

/// True when some already-collected reason mentions `needle`.
fn any_reason_contains(reasons: &Vec<String>, needle: &str) -> (r: bool)
    ensures
        r == exists|i: int|
            0 <= i < reasons.deep_view().len() && contains_seq(
                #[trigger] reasons.deep_view()[i],
                needle@,
            ),
{
    let n = reasons.len();
    let mut i: usize = 0;
    while i < n
        invariant
            0 <= i <= n,
            n == reasons@.len(),
            reasons.deep_view().len() == n,
            forall|k: int| 0 <= k < i ==> !contains_seq(#[trigger] reasons.deep_view()[k], needle@),
        decreases n - i,
    {
        let cs = chars_of(reasons[i].as_str());
        proof {
            assert(reasons.deep_view()[i as int] == reasons@[i as int]@);
        }
        if contains_sub(&cs, needle) {
            return true;
        }
        i += 1;
    }
    false
}

impl LockedMotherboardInfo {
    /// Derives the lock posture from the given signals.  This cannot fail:
    /// an absent signal only under-detects.
    pub fn detect(signals: &PlatformSignals) -> (info: Self)
        ensures
            info@ == posture_spec(signals@),
    {
        let mut lock_reasons: Vec<String> = Vec::new();
        let mut is_oem_system = false;
        let oem_vendor: String = match &signals.oem_vendor {
            Option::Some(v) => {
                if signals.is_tier1_oem {
                    is_oem_system = true;
                    lock_reasons.push(
                        v.clone().concat(" OEM system detected - BIOS typically locked"),
                    );
                }
                v.clone()
            },
            Option::None => String::from_str("Unknown"),
        };
        if signals.secure_boot {
            lock_reasons.push(String::from_str("Secure Boot enabled - EFI modifications restricted"));
        }
        if signals.tpm_active {
            lock_reasons.push(String::from_str("TPM active - Hardware attestation may detect changes"));
        }
        if signals.vbs {
            lock_reasons.push(String::from_str("VBS enabled - Kernel-level protections active"));
        }
        proof {
            assert(lock_reasons.deep_view() =~= reasons_before_hvci(signals@));
        }
        if signals.hvci {
            if !any_reason_contains(&lock_reasons, "HVCI") {
                lock_reasons.push(String::from_str("HVCI enabled - Driver signing enforced"));
            }
        }
        proof {
            assert(lock_reasons.deep_view() =~= lock_reasons_spec(signals@));
        }
        let info = LockedMotherboardInfo {
            is_oem_system,
            oem_vendor,
            bios_write_protected: signals.vbs || signals.hvci,
            secure_boot_enforced: signals.secure_boot,
            tpm_locked: signals.tpm_active,
            overall_locked: is_oem_system || signals.secure_boot || signals.vbs || signals.hvci,
            lock_reasons,
        };
        proof {
            assert(info@ =~= posture_spec(signals@));
        }
        info
    }
}

impl Default for LockedMotherboardInfo {
    /// The posture with nothing detected: unlocked, vendor unknown.
    fn default() -> (d: Self)
        ensures
            d@ == posture_spec(
                SignalsView {
                    oem_vendor: Option::None,
                    is_tier1_oem: false,
                    secure_boot: false,
                    tpm_active: false,
                    vbs: false,
                    hvci: false,
                },
            ),
    {
        let d = LockedMotherboardInfo {
            is_oem_system: false,
            oem_vendor: String::from_str("Unknown"),
            bios_write_protected: false,
            secure_boot_enforced: false,
            tpm_locked: false,
            overall_locked: false,
            lock_reasons: Vec::new(),
        };
        proof {
            let s = SignalsView {
                oem_vendor: Option::None,
                is_tier1_oem: false,
                secure_boot: false,
                tpm_active: false,
                vbs: false,
                hvci: false,
            };
            assert(reasons_before_hvci(s) =~= Seq::<Seq<char>>::empty());
            assert(d@ =~= posture_spec(s));
        }
        d
    }
}

/// Which recognized vendor pattern, if any, occurs in the lower-cased
/// manufacturer string; the flag marks the typically-locked vendors.
pub open spec fn oem_vendor_spec(m: Seq<char>) -> Option<(Seq<char>, bool)> {
    let low = lower_seq(m);
    if contains_seq(low, "dell"@) {
        Option::Some(("Dell"@, true))
    } else if contains_seq(low, "hp"@) {
        Option::Some(("HP"@, true))
    } else if contains_seq(low, "hewlett"@) {
        Option::Some(("HP"@, true))
    } else if contains_seq(low, "lenovo"@) {
        Option::Some(("Lenovo"@, true))
    } else if contains_seq(low, "asus"@) {
        Option::Some(("ASUS"@, false))
    } else if contains_seq(low, "acer"@) {
        Option::Some(("Acer"@, false))
    } else if contains_seq(low, "msi"@) {
        Option::Some(("MSI"@, false))
    } else if contains_seq(low, "gigabyte"@) {
        Option::Some(("Gigabyte"@, false))
    } else if contains_seq(low, "asrock"@) {
        Option::Some(("ASRock"@, false))
    } else {
        Option::None
    }
}

/// Recognizes an OEM vendor in a reported manufacturer string.  The flag of
/// the result marks vendors whose firmware is typically locked.
pub fn detect_oem_vendor(manufacturer: &str) -> (r: Option<(String, bool)>)
    ensures
        match r {
            Option::None => oem_vendor_spec(manufacturer@) is None,
            Option::Some(p) => oem_vendor_spec(manufacturer@) == Option::Some((p.0@, p.1)),
        },
{
    let n = manufacturer.unicode_len();
    let mut low: Vec<char> = Vec::new();
    let mut i: usize = 0;
    while i < n
        invariant
            0 <= i <= n,
            n == manufacturer@.len(),
            low@.len() == i,
            forall|k: int| 0 <= k < i ==> low@[k] == lower_char(manufacturer@[k]),
        decreases n - i,
    {
        low.push(to_lower(manufacturer.get_char(i)));
        i += 1;
    }
    proof {
        assert(low@ =~= lower_seq(manufacturer@));
    }
    if contains_sub(&low, "dell") {
        Option::Some((String::from_str("Dell"), true))
    } else if contains_sub(&low, "hp") {
        Option::Some((String::from_str("HP"), true))
    } else if contains_sub(&low, "hewlett") {
        Option::Some((String::from_str("HP"), true))
    } else if contains_sub(&low, "lenovo") {
        Option::Some((String::from_str("Lenovo"), true))
    } else if contains_sub(&low, "asus") {
        Option::Some((String::from_str("ASUS"), false))
    } else if contains_sub(&low, "acer") {
        Option::Some((String::from_str("Acer"), false))
    } else if contains_sub(&low, "msi") {
        Option::Some((String::from_str("MSI"), false))
    } else if contains_sub(&low, "gigabyte") {
        Option::Some((String::from_str("Gigabyte"), false))
    } else if contains_sub(&low, "asrock") {
        Option::Some((String::from_str("ASRock"), false))
    } else {
        Option::None
    }
}

} // verus!
