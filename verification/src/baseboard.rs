//! The baseboard identity category.

use vstd::prelude::*;

use crate::normalize::{
    lemma_normalize_opt_normalized, normalize_opt, normalize_opt_spec, normalized_value, opt_view,
    sentinel,
};

verus! {

/// Normalized baseboard identity values.
#[derive(Debug, Clone)]
pub struct BaseboardInfo {
    pub manufacturer: String,
    pub product_name: String,
    pub version: String,
    pub serial_number: String,
    pub asset_tag: String,
    pub location: String,
}

/// Mathematical shape of the baseboard category.
#[verifier::ext_equal]
pub struct BaseboardInfoView {
    pub manufacturer: Seq<char>,
    pub product_name: Seq<char>,
    pub version: Seq<char>,
    pub serial_number: Seq<char>,
    pub asset_tag: Seq<char>,
    pub location: Seq<char>,
}

impl View for BaseboardInfo {
    type V = BaseboardInfoView;

    open spec fn view(&self) -> BaseboardInfoView {
        BaseboardInfoView {
            manufacturer: self.manufacturer@,
            product_name: self.product_name@,
            version: self.version@,
            serial_number: self.serial_number@,
            asset_tag: self.asset_tag@,
            location: self.location@,
        }
    }
}

impl BaseboardInfoView {
    /// Every identity field is the sentinel or a trimmed non-placeholder
    /// value; the location is a fixed description.
    pub open spec fn wf(&self) -> bool {
        &&& normalized_value(self.manufacturer)
        &&& normalized_value(self.product_name)
        &&& normalized_value(self.version)
        &&& normalized_value(self.serial_number)
        &&& normalized_value(self.asset_tag)
    }
}

/// Raw, possibly-missing baseboard values handed in by the platform
/// inventory.
pub struct RawBaseboardData {
    pub manufacturer: Option<String>,
    pub product: Option<String>,
    pub version: Option<String>,
    pub serial_number: Option<String>,
    pub tag: Option<String>,
}

impl BaseboardInfo {
    /// Builds the normalized baseboard category from raw inventory values.
    pub fn collect(raw: &RawBaseboardData) -> (info: BaseboardInfo)
        ensures
            info@.manufacturer == normalize_opt_spec(opt_view(raw.manufacturer)),
            info@.product_name == normalize_opt_spec(opt_view(raw.product)),
            info@.version == normalize_opt_spec(opt_view(raw.version)),
            info@.serial_number == normalize_opt_spec(opt_view(raw.serial_number)),
            info@.asset_tag == normalize_opt_spec(opt_view(raw.tag)),
            info@.location == "(Integrated)"@,
            info@.wf(),
    {
        let info = BaseboardInfo {
            manufacturer: normalize_opt(&raw.manufacturer),
            product_name: normalize_opt(&raw.product),
            version: normalize_opt(&raw.version),
            serial_number: normalize_opt(&raw.serial_number),
            asset_tag: normalize_opt(&raw.tag),
            location: String::from_str("(Integrated)"),
        };
        proof {
            lemma_normalize_opt_normalized(opt_view(raw.manufacturer));
            lemma_normalize_opt_normalized(opt_view(raw.product));
            lemma_normalize_opt_normalized(opt_view(raw.version));
            lemma_normalize_opt_normalized(opt_view(raw.serial_number));
            lemma_normalize_opt_normalized(opt_view(raw.tag));
        }
        info
    }
}

impl Default for BaseboardInfo {
    /// All fields absent.
    fn default() -> (d: Self)
        ensures
            d@.manufacturer == sentinel(),
            d@.product_name == sentinel(),
            d@.version == sentinel(),
            d@.serial_number == sentinel(),
            d@.asset_tag == sentinel(),
            d@.location == sentinel(),
            d@.wf(),
    {
        BaseboardInfo {
            manufacturer: String::from_str("N/A"),
            product_name: String::from_str("N/A"),
            version: String::from_str("N/A"),
            serial_number: String::from_str("N/A"),
            asset_tag: String::from_str("N/A"),
            location: String::from_str("N/A"),
        }
    }
}

} // verus!
