//! The baseline: scalar and list values recovered from a previously saved
//! snapshot.  Every field is optional; list fields hold only the
//! comparison-relevant value per item.

use vstd::prelude::*;

use crate::normalize::opt_view;

verus! {

/// Values recovered by parsing a previously saved snapshot.  Absent scalars
/// and empty lists mean "never recorded or placeholder at save time".
pub struct PreviousSerials {
    pub system_serial: Option<String>,
    pub system_uuid: Option<String>,
    pub system_sku: Option<String>,
    pub baseboard_serial: Option<String>,
    pub processor_serial: Option<String>,
    pub chassis_serial: Option<String>,
    pub disk_serials: Vec<String>,
    pub network_macs: Vec<String>,
    pub monitor_serials: Vec<String>,
    pub gpu_guids: Vec<String>,
}

/// Mathematical shape of a baseline: optional character sequences and
/// sequences of character sequences.
#[verifier::ext_equal]
pub struct BaselineView {
    pub system_serial: Option<Seq<char>>,
    pub system_uuid: Option<Seq<char>>,
    pub system_sku: Option<Seq<char>>,
    pub baseboard_serial: Option<Seq<char>>,
    pub processor_serial: Option<Seq<char>>,
    pub chassis_serial: Option<Seq<char>>,
    pub disk_serials: Seq<Seq<char>>,
    pub network_macs: Seq<Seq<char>>,
    pub monitor_serials: Seq<Seq<char>>,
    pub gpu_guids: Seq<Seq<char>>,
}

impl View for PreviousSerials {
    type V = BaselineView;

    open spec fn view(&self) -> BaselineView {
        BaselineView {
            system_serial: opt_view(self.system_serial),
            system_uuid: opt_view(self.system_uuid),
            system_sku: opt_view(self.system_sku),
            baseboard_serial: opt_view(self.baseboard_serial),
            processor_serial: opt_view(self.processor_serial),
            chassis_serial: opt_view(self.chassis_serial),
            disk_serials: self.disk_serials.deep_view(),
            network_macs: self.network_macs.deep_view(),
            monitor_serials: self.monitor_serials.deep_view(),
            gpu_guids: self.gpu_guids.deep_view(),
        }
    }
}

/// The baseline with nothing recorded.
pub open spec fn empty_baseline() -> BaselineView {
    BaselineView {
        system_serial: Option::None,
        system_uuid: Option::None,
        system_sku: Option::None,
        baseboard_serial: Option::None,
        processor_serial: Option::None,
        chassis_serial: Option::None,
        disk_serials: Seq::empty(),
        network_macs: Seq::empty(),
        monitor_serials: Seq::empty(),
        gpu_guids: Seq::empty(),
    }
}

impl Default for PreviousSerials {
    /// A baseline with nothing recorded.
    fn default() -> (d: Self)
        ensures
            d@ == empty_baseline(),
    {
        let d = PreviousSerials {
            system_serial: Option::None,
            system_uuid: Option::None,
            system_sku: Option::None,
            baseboard_serial: Option::None,
            processor_serial: Option::None,
            chassis_serial: Option::None,
            disk_serials: Vec::new(),
            network_macs: Vec::new(),
            monitor_serials: Vec::new(),
            gpu_guids: Vec::new(),
        };
        proof {
            assert(d@.disk_serials =~= empty_baseline().disk_serials);
            assert(d@.network_macs =~= empty_baseline().network_macs);
            assert(d@.monitor_serials =~= empty_baseline().monitor_serials);
            assert(d@.gpu_guids =~= empty_baseline().gpu_guids);
        }
        d
    }
}

} // verus!
