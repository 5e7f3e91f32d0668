//! The chassis identity category, including the fixed mapping from SMBIOS
//! chassis type codes to names.

use vstd::prelude::*;

use crate::normalize::{
    lemma_normalize_opt_normalized, normalize_opt, normalize_opt_spec, normalized_value, opt_view,
    sentinel,
};

verus! {

/// Normalized chassis identity values.
#[derive(Debug, Clone)]
pub struct ChassisInfo {
    pub manufacturer: String,
    pub chassis_type: String,
    pub version: String,
    pub serial_number: String,
    pub asset_tag: String,
    pub sku: String,
}

/// Mathematical shape of the chassis category.
#[verifier::ext_equal]
pub struct ChassisInfoView {
    pub manufacturer: Seq<char>,
    pub chassis_type: Seq<char>,
    pub version: Seq<char>,
    pub serial_number: Seq<char>,
    pub asset_tag: Seq<char>,
    pub sku: Seq<char>,
}

impl View for ChassisInfo {
    type V = ChassisInfoView;

    open spec fn view(&self) -> ChassisInfoView {
        ChassisInfoView {
            manufacturer: self.manufacturer@,
            chassis_type: self.chassis_type@,
            version: self.version@,
            serial_number: self.serial_number@,
            asset_tag: self.asset_tag@,
            sku: self.sku@,
        }
    }
}

impl ChassisInfoView {
    /// Every identity field is the sentinel or a trimmed non-placeholder
    /// value; the chassis type is a name from the fixed table.
    pub open spec fn wf(&self) -> bool {
        &&& normalized_value(self.manufacturer)
        &&& normalized_value(self.version)
        &&& normalized_value(self.serial_number)
        &&& normalized_value(self.asset_tag)
        &&& normalized_value(self.sku)
    }
}

/// The SMBIOS chassis type table.
pub open spec fn chassis_type_name_spec(type_id: u16) -> Seq<char> {
    match type_id {
        1u16 => "Other"@,
        2u16 => "Unknown"@,
        3u16 => "Desktop"@,
        4u16 => "Low Profile Desktop"@,
        5u16 => "Pizza Box"@,
        6u16 => "Mini Tower"@,
        7u16 => "Tower"@,
        8u16 => "Portable"@,
        9u16 => "Laptop"@,
        10u16 => "Notebook"@,
        11u16 => "Hand Held"@,
        12u16 => "Docking Station"@,
        13u16 => "All in One"@,
        14u16 => "Sub Notebook"@,
        15u16 => "Space-saving"@,
        16u16 => "Lunch Box"@,
        17u16 => "Main System Chassis"@,
        18u16 => "Expansion Chassis"@,
        19u16 => "SubChassis"@,
        20u16 => "Bus Expansion Chassis"@,
        21u16 => "Peripheral Chassis"@,
        22u16 => "Storage Chassis"@,
        23u16 => "Rack Mount Chassis"@,
        24u16 => "Sealed-Case PC"@,
        25u16 => "Multi-system Chassis"@,
        26u16 => "Compact PCI"@,
        27u16 => "Advanced TCA"@,
        28u16 => "Blade"@,
        29u16 => "Blade Enclosure"@,
        30u16 => "Tablet"@,
        31u16 => "Convertible"@,
        32u16 => "Detachable"@,
        33u16 => "IoT Gateway"@,
        34u16 => "Embedded PC"@,
        35u16 => "Mini PC"@,
        36u16 => "Stick PC"@,
        _ => "Unknown"@,
    }
}

/// The chassis type reported first in the raw list, named; absent or empty
/// lists yield the unknown name.
pub open spec fn chassis_type_of(types: Option<Seq<u16>>) -> Seq<char> {
    match types {
        Option::Some(v) => if v.len() > 0 {
            chassis_type_name_spec(v[0])
        } else {
            "Unknown"@
        },
        Option::None => "Unknown"@,
    }
}

/// Raw, possibly-missing chassis values handed in by the platform
/// inventory.
pub struct RawChassisData {
    pub manufacturer: Option<String>,
    pub chassis_types: Option<Vec<u16>>,
    pub version: Option<String>,
    pub serial_number: Option<String>,
    pub smbios_asset_tag: Option<String>,
    pub sku: Option<String>,
}

/// View of the optional chassis type list.
pub open spec fn types_view(o: Option<Vec<u16>>) -> Option<Seq<u16>> {
    match o {
        Option::None => Option::None,
        Option::Some(v) => Option::Some(v@),
    }
}

impl ChassisInfo {
    /// The fixed name of an SMBIOS chassis type code.
    pub fn chassis_type_name(type_id: u16) -> (r: String)
        ensures
            r@ == chassis_type_name_spec(type_id),
    {
        match type_id {
            1u16 => String::from_str("Other"),
            2u16 => String::from_str("Unknown"),
            3u16 => String::from_str("Desktop"),
            4u16 => String::from_str("Low Profile Desktop"),
            5u16 => String::from_str("Pizza Box"),
            6u16 => String::from_str("Mini Tower"),
            7u16 => String::from_str("Tower"),
            8u16 => String::from_str("Portable"),
            9u16 => String::from_str("Laptop"),
            10u16 => String::from_str("Notebook"),
            11u16 => String::from_str("Hand Held"),
            12u16 => String::from_str("Docking Station"),
            13u16 => String::from_str("All in One"),
            14u16 => String::from_str("Sub Notebook"),
            15u16 => String::from_str("Space-saving"),
            16u16 => String::from_str("Lunch Box"),
            17u16 => String::from_str("Main System Chassis"),
            18u16 => String::from_str("Expansion Chassis"),
            19u16 => String::from_str("SubChassis"),
            20u16 => String::from_str("Bus Expansion Chassis"),
            21u16 => String::from_str("Peripheral Chassis"),
            22u16 => String::from_str("Storage Chassis"),
            23u16 => String::from_str("Rack Mount Chassis"),
            24u16 => String::from_str("Sealed-Case PC"),
            25u16 => String::from_str("Multi-system Chassis"),
            26u16 => String::from_str("Compact PCI"),
            27u16 => String::from_str("Advanced TCA"),
            28u16 => String::from_str("Blade"),
            29u16 => String::from_str("Blade Enclosure"),
            30u16 => String::from_str("Tablet"),
            31u16 => String::from_str("Convertible"),
            32u16 => String::from_str("Detachable"),
            33u16 => String::from_str("IoT Gateway"),
            34u16 => String::from_str("Embedded PC"),
            35u16 => String::from_str("Mini PC"),
            36u16 => String::from_str("Stick PC"),
            _ => String::from_str("Unknown"),
        }
    }

    /// Builds the normalized chassis category from raw inventory values.
    pub fn collect(raw: &RawChassisData) -> (info: ChassisInfo)
        ensures
            info@.manufacturer == normalize_opt_spec(opt_view(raw.manufacturer)),
            info@.chassis_type == chassis_type_of(types_view(raw.chassis_types)),
            info@.version == normalize_opt_spec(opt_view(raw.version)),
            info@.serial_number == normalize_opt_spec(opt_view(raw.serial_number)),
            info@.asset_tag == normalize_opt_spec(opt_view(raw.smbios_asset_tag)),
            info@.sku == normalize_opt_spec(opt_view(raw.sku)),
            info@.wf(),
    {
        let chassis_type: String = match &raw.chassis_types {
            Option::Some(v) => {
                if v.len() > 0 {
                    Self::chassis_type_name(v[0])
                } else {
                    String::from_str("Unknown")
                }
            },
            Option::None => String::from_str("Unknown"),
        };
        let info = ChassisInfo {
            manufacturer: normalize_opt(&raw.manufacturer),
            chassis_type,
            version: normalize_opt(&raw.version),
            serial_number: normalize_opt(&raw.serial_number),
            asset_tag: normalize_opt(&raw.smbios_asset_tag),
            sku: normalize_opt(&raw.sku),
        };
        proof {
            lemma_normalize_opt_normalized(opt_view(raw.manufacturer));
            lemma_normalize_opt_normalized(opt_view(raw.version));
            lemma_normalize_opt_normalized(opt_view(raw.serial_number));
            lemma_normalize_opt_normalized(opt_view(raw.smbios_asset_tag));
            lemma_normalize_opt_normalized(opt_view(raw.sku));
        }
        info
    }
}

impl Default for ChassisInfo {
    /// All fields absent.
    fn default() -> (d: Self)
        ensures
            d@.manufacturer == sentinel(),
            d@.chassis_type == sentinel(),
            d@.version == sentinel(),
            d@.serial_number == sentinel(),
            d@.asset_tag == sentinel(),
            d@.sku == sentinel(),
            d@.wf(),
    {
        ChassisInfo {
            manufacturer: String::from_str("N/A"),
            chassis_type: String::from_str("N/A"),
            version: String::from_str("N/A"),
            serial_number: String::from_str("N/A"),
            asset_tag: String::from_str("N/A"),
            sku: String::from_str("N/A"),
        }
    }
}

} // verus!
