//! The firmware category: descriptive values and the security flags that
//! feed the lock-posture evaluation.

use vstd::prelude::*;

use crate::normalize::{first_some, opt_view, sentinel};

verus! {

/// Firmware values and platform-security flags.
#[derive(Debug, Clone)]
pub struct BiosInfo {
    pub vendor: String,
    pub version: String,
    pub release_date: String,
    pub core_isolation: bool,
    pub virtualization: bool,
    pub secure_boot: bool,
    pub tpm_enabled: bool,
}

/// Mathematical shape of the firmware category.
#[verifier::ext_equal]
pub struct BiosInfoView {
    pub vendor: Seq<char>,
    pub version: Seq<char>,
    pub release_date: Seq<char>,
    pub core_isolation: bool,
    pub virtualization: bool,
    pub secure_boot: bool,
    pub tpm_enabled: bool,
}

impl View for BiosInfo {
    type V = BiosInfoView;

    open spec fn view(&self) -> BiosInfoView {
        BiosInfoView {
            vendor: self.vendor@,
            version: self.version@,
            release_date: self.release_date@,
            core_isolation: self.core_isolation,
            virtualization: self.virtualization,
            secure_boot: self.secure_boot,
            tpm_enabled: self.tpm_enabled,
        }
    }
}

/// A raw inventory timestamp rendered as month/day/year; shorter values
/// pass through unchanged.
pub open spec fn release_date_spec(d: Seq<char>) -> Seq<char> {
    if d.len() >= 8 {
        d.subrange(4, 6) + "/"@ + d.subrange(6, 8) + "/"@ + d.subrange(0, 4)
    } else {
        d
    }
}

/// An optional raw value, or the sentinel.
pub open spec fn or_sentinel(o: Option<Seq<char>>) -> Seq<char> {
    match o {
        Option::Some(v) => v,
        Option::None => sentinel(),
    }
}

/// Raw, possibly-missing firmware values and the security flags read at
/// the platform edge.
pub struct RawBiosData {
    pub manufacturer: Option<String>,
    pub smbios_bios_version: Option<String>,
    pub version: Option<String>,
    pub release_date: Option<String>,
    pub secure_boot: bool,
    pub core_isolation: bool,
    pub virtualization: bool,
    pub tpm_enabled: bool,
}

impl BiosInfo {
    /// Renders a raw inventory timestamp as month/day/year.
    pub fn format_release_date(d: &str) -> (r: String)
        ensures
            r@ == release_date_spec(d@),
    {
        let n = d.unicode_len();
        if n >= 8 {
            let month = d.substring_char(4, 6);
            let day = d.substring_char(6, 8);
            let year = d.substring_char(0, 4);
            let r = String::from_str(month).concat("/").concat(day).concat("/").concat(year);
            proof {
                assert(r@ =~= release_date_spec(d@));
            }
            r
        } else {
            String::from_str(d)
        }
    }

    /// Builds the firmware category from raw inventory values; absent
    /// descriptive values become the sentinel, and the flags pass through.
    pub fn collect(raw: &RawBiosData) -> (info: BiosInfo)
        ensures
            info@.vendor == or_sentinel(opt_view(raw.manufacturer)),
            info@.version == or_sentinel(
                first_some(opt_view(raw.smbios_bios_version), opt_view(raw.version)),
            ),
            info@.release_date == match opt_view(raw.release_date) {
                Option::Some(d) => release_date_spec(d),
                Option::None => sentinel(),
            },
            info@.core_isolation == raw.core_isolation,
            info@.virtualization == raw.virtualization,
            info@.secure_boot == raw.secure_boot,
            info@.tpm_enabled == raw.tpm_enabled,
    {
        let vendor = match &raw.manufacturer {
            Option::Some(v) => v.clone(),
            Option::None => String::from_str("N/A"),
        };
        let version = match &raw.smbios_bios_version {
            Option::Some(v) => v.clone(),
            Option::None => match &raw.version {
                Option::Some(v) => v.clone(),
                Option::None => String::from_str("N/A"),
            },
        };
        let release_date = match &raw.release_date {
            Option::Some(d) => Self::format_release_date(d.as_str()),
            Option::None => String::from_str("N/A"),
        };
        BiosInfo {
            vendor,
            version,
            release_date,
            core_isolation: raw.core_isolation,
            virtualization: raw.virtualization,
            secure_boot: raw.secure_boot,
            tpm_enabled: raw.tpm_enabled,
        }
    }
}

impl Default for BiosInfo {
    /// All values absent, all flags off.
    fn default() -> (d: Self)
        ensures
            d@.vendor == sentinel(),
            d@.version == sentinel(),
            d@.release_date == sentinel(),
            !d@.core_isolation,
            !d@.virtualization,
            !d@.secure_boot,
            !d@.tpm_enabled,
    {
        BiosInfo {
            vendor: String::from_str("N/A"),
            version: String::from_str("N/A"),
            release_date: String::from_str("N/A"),
            core_isolation: false,
            virtualization: false,
            secure_boot: false,
            tpm_enabled: false,
        }
    }
}

} // verus!
