//! The processor identity category.

use vstd::prelude::*;

use crate::chars::{dec_str, u64_to_string};
use crate::normalize::{
    lemma_normalize_opt_normalized, normalize_opt, normalize_opt_spec, normalized_value, opt_view,
    sentinel,
};

verus! {

/// Normalized processor identity values; core and thread counts are
/// rendered in decimal.
#[derive(Debug, Clone)]
pub struct ProcessorInfo {
    pub manufacturer: String,
    pub processor_type: String,
    pub serial_number: String,
    pub part_number: String,
    pub asset_tag: String,
    pub socket: String,
    pub core_count: String,
    pub thread_count: String,
}

/// Mathematical shape of the processor category.
#[verifier::ext_equal]
pub struct ProcessorInfoView {
    pub manufacturer: Seq<char>,
    pub processor_type: Seq<char>,
    pub serial_number: Seq<char>,
    pub part_number: Seq<char>,
    pub asset_tag: Seq<char>,
    pub socket: Seq<char>,
    pub core_count: Seq<char>,
    pub thread_count: Seq<char>,
}

impl View for ProcessorInfo {
    type V = ProcessorInfoView;

    open spec fn view(&self) -> ProcessorInfoView {
        ProcessorInfoView {
            manufacturer: self.manufacturer@,
            processor_type: self.processor_type@,
            serial_number: self.serial_number@,
            part_number: self.part_number@,
            asset_tag: self.asset_tag@,
            socket: self.socket@,
            core_count: self.core_count@,
            thread_count: self.thread_count@,
        }
    }
}

impl ProcessorInfoView {
    /// Every identity field is the sentinel or a trimmed non-placeholder
    /// value; the counts are decimal renderings or the sentinel.
    pub open spec fn wf(&self) -> bool {
        &&& normalized_value(self.manufacturer)
        &&& normalized_value(self.processor_type)
        &&& normalized_value(self.serial_number)
        &&& normalized_value(self.part_number)
        &&& normalized_value(self.asset_tag)
        &&& normalized_value(self.socket)
    }
}

/// An optional count rendered in decimal; absence is the sentinel.
pub open spec fn opt_count(o: Option<u32>) -> Seq<char> {
    match o {
        Option::None => sentinel(),
        Option::Some(n) => dec_str(n as int),
    }
}

/// Raw, possibly-missing processor values handed in by the platform
/// inventory.
pub struct RawProcessorData {
    pub manufacturer: Option<String>,
    pub name: Option<String>,
    pub serial_number: Option<String>,
    pub part_number: Option<String>,
    pub asset_tag: Option<String>,
    pub socket_designation: Option<String>,
    pub number_of_cores: Option<u32>,
    pub number_of_logical_processors: Option<u32>,
}

fn count_string(o: &Option<u32>) -> (r: String)
    ensures
        r@ == opt_count(*o),
{
    match o {
        Option::None => String::from_str("N/A"),
        Option::Some(n) => u64_to_string(*n as u64),
    }
}

impl ProcessorInfo {
    /// Builds the normalized processor category from raw inventory values.
    pub fn collect(raw: &RawProcessorData) -> (info: ProcessorInfo)
        ensures
            info@.manufacturer == normalize_opt_spec(opt_view(raw.manufacturer)),
            info@.processor_type == normalize_opt_spec(opt_view(raw.name)),
            info@.serial_number == normalize_opt_spec(opt_view(raw.serial_number)),
            info@.part_number == normalize_opt_spec(opt_view(raw.part_number)),
            info@.asset_tag == normalize_opt_spec(opt_view(raw.asset_tag)),
            info@.socket == normalize_opt_spec(opt_view(raw.socket_designation)),
            info@.core_count == opt_count(raw.number_of_cores),
            info@.thread_count == opt_count(raw.number_of_logical_processors),
            info@.wf(),
    {
        let info = ProcessorInfo {
            manufacturer: normalize_opt(&raw.manufacturer),
            processor_type: normalize_opt(&raw.name),
            serial_number: normalize_opt(&raw.serial_number),
            part_number: normalize_opt(&raw.part_number),
            asset_tag: normalize_opt(&raw.asset_tag),
            socket: normalize_opt(&raw.socket_designation),
            core_count: count_string(&raw.number_of_cores),
            thread_count: count_string(&raw.number_of_logical_processors),
        };
        proof {
            lemma_normalize_opt_normalized(opt_view(raw.manufacturer));
            lemma_normalize_opt_normalized(opt_view(raw.name));
            lemma_normalize_opt_normalized(opt_view(raw.serial_number));
            lemma_normalize_opt_normalized(opt_view(raw.part_number));
            lemma_normalize_opt_normalized(opt_view(raw.asset_tag));
            lemma_normalize_opt_normalized(opt_view(raw.socket_designation));
        }
        info
    }
}

impl Default for ProcessorInfo {
    /// All fields absent.
    fn default() -> (d: Self)
        ensures
            d@.manufacturer == sentinel(),
            d@.processor_type == sentinel(),
            d@.serial_number == sentinel(),
            d@.part_number == sentinel(),
            d@.asset_tag == sentinel(),
            d@.socket == sentinel(),
            d@.core_count == sentinel(),
            d@.thread_count == sentinel(),
            d@.wf(),
    {
        ProcessorInfo {
            manufacturer: String::from_str("N/A"),
            processor_type: String::from_str("N/A"),
            serial_number: String::from_str("N/A"),
            part_number: String::from_str("N/A"),
            asset_tag: String::from_str("N/A"),
            socket: String::from_str("N/A"),
            core_count: String::from_str("N/A"),
            thread_count: String::from_str("N/A"),
        }
    }
}

} // verus!
