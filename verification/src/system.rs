//! The system identity category: serial, UUID, SKU and descriptive fields,
//! built from raw inventory values by normalization.

use vstd::prelude::*;

use crate::normalize::{
    first_some, lemma_normalize_opt_normalized, normalize_first, normalize_opt,
    normalize_opt_spec, normalized_value, opt_view, sentinel,
};

verus! {

/// Normalized system identity values.
#[derive(Debug, Clone)]
pub struct SystemInfo {
    pub manufacturer: String,
    pub product_name: String,
    pub version: String,
    pub serial_number: String,
    pub uuid: String,
    pub family: String,
    pub sku: String,
}

/// Mathematical shape of the system category.
#[verifier::ext_equal]
pub struct SystemInfoView {
    pub manufacturer: Seq<char>,
    pub product_name: Seq<char>,
    pub version: Seq<char>,
    pub serial_number: Seq<char>,
    pub uuid: Seq<char>,
    pub family: Seq<char>,
    pub sku: Seq<char>,
}

impl View for SystemInfo {
    type V = SystemInfoView;

    open spec fn view(&self) -> SystemInfoView {
        SystemInfoView {
            manufacturer: self.manufacturer@,
            product_name: self.product_name@,
            version: self.version@,
            serial_number: self.serial_number@,
            uuid: self.uuid@,
            family: self.family@,
            sku: self.sku@,
        }
    }
}

impl SystemInfoView {
    /// Every field is the sentinel or a trimmed non-placeholder value.
    pub open spec fn wf(&self) -> bool {
        &&& normalized_value(self.manufacturer)
        &&& normalized_value(self.product_name)
        &&& normalized_value(self.version)
        &&& normalized_value(self.serial_number)
        &&& normalized_value(self.uuid)
        &&& normalized_value(self.family)
        &&& normalized_value(self.sku)
    }
}

/// Raw, possibly-missing values handed in by the platform inventory for the
/// system category; the first six come from the product record, the rest
/// from the computer-system record.
pub struct RawSystemData {
    pub vendor: Option<String>,
    pub name: Option<String>,
    pub version: Option<String>,
    pub identifying_number: Option<String>,
    pub uuid: Option<String>,
    pub sku_number: Option<String>,
    pub manufacturer: Option<String>,
    pub model: Option<String>,
    pub system_family: Option<String>,
    pub system_sku_number: Option<String>,
}

impl SystemInfo {
    /// Builds the normalized system category from raw inventory values,
    /// preferring the computer-system record where both records report a
    /// field.
    pub fn collect(raw: &RawSystemData) -> (info: SystemInfo)
        ensures
            info@.manufacturer == normalize_opt_spec(
                first_some(opt_view(raw.manufacturer), opt_view(raw.vendor)),
            ),
            info@.product_name == normalize_opt_spec(
                first_some(opt_view(raw.model), opt_view(raw.name)),
            ),
            info@.version == normalize_opt_spec(opt_view(raw.version)),
            info@.serial_number == normalize_opt_spec(opt_view(raw.identifying_number)),
            info@.uuid == normalize_opt_spec(opt_view(raw.uuid)),
            info@.family == normalize_opt_spec(opt_view(raw.system_family)),
            info@.sku == normalize_opt_spec(
                first_some(opt_view(raw.system_sku_number), opt_view(raw.sku_number)),
            ),
            info@.wf(),
    {
        let info = SystemInfo {
            manufacturer: normalize_first(&raw.manufacturer, &raw.vendor),
            product_name: normalize_first(&raw.model, &raw.name),
            version: normalize_opt(&raw.version),
            serial_number: normalize_opt(&raw.identifying_number),
            uuid: normalize_opt(&raw.uuid),
            family: normalize_opt(&raw.system_family),
            sku: normalize_first(&raw.system_sku_number, &raw.sku_number),
        };
        proof {
            lemma_normalize_opt_normalized(
                first_some(opt_view(raw.manufacturer), opt_view(raw.vendor)),
            );
            lemma_normalize_opt_normalized(first_some(opt_view(raw.model), opt_view(raw.name)));
            lemma_normalize_opt_normalized(opt_view(raw.version));
            lemma_normalize_opt_normalized(opt_view(raw.identifying_number));
            lemma_normalize_opt_normalized(opt_view(raw.uuid));
            lemma_normalize_opt_normalized(opt_view(raw.system_family));
            lemma_normalize_opt_normalized(
                first_some(opt_view(raw.system_sku_number), opt_view(raw.sku_number)),
            );
        }
        info
    }
}

impl Default for SystemInfo {
    /// All fields absent.
    fn default() -> (d: Self)
        ensures
            d@.manufacturer == sentinel(),
            d@.product_name == sentinel(),
            d@.version == sentinel(),
            d@.serial_number == sentinel(),
            d@.uuid == sentinel(),
            d@.family == sentinel(),
            d@.sku == sentinel(),
            d@.wf(),
    {
        SystemInfo {
            manufacturer: String::from_str("N/A"),
            product_name: String::from_str("N/A"),
            version: String::from_str("N/A"),
            serial_number: String::from_str("N/A"),
            uuid: String::from_str("N/A"),
            family: String::from_str("N/A"),
            sku: String::from_str("N/A"),
        }
    }
}

} // verus!
