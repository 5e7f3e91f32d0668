//! The snapshot: one full set of normalized identity values collected at a
//! point in time.

use vstd::prelude::*;

use crate::baseboard::{BaseboardInfo, BaseboardInfoView};
use crate::chassis::{ChassisInfo, ChassisInfoView};
use crate::disk::{DiskEntryView, DiskInfo};
use crate::gpu::{GpuEntryView, GpuInfo};
use crate::monitor::{MonitorEntryView, MonitorInfo};
use crate::network::{NetworkInfo, NetworkInterfaceView};
use crate::processor::{ProcessorInfo, ProcessorInfoView};
use crate::system::{SystemInfo, SystemInfoView};

verus! {

/// One full identity snapshot, immutable once collected.
#[derive(Debug, Clone)]
pub struct SnapshotModel {
    pub system: SystemInfo,
    pub baseboard: BaseboardInfo,
    pub processor: ProcessorInfo,
    pub chassis: ChassisInfo,
    pub disk: DiskInfo,
    pub network: NetworkInfo,
    pub monitor: MonitorInfo,
    pub gpu: GpuInfo,
}

/// Mathematical shape of a snapshot.
#[verifier::ext_equal]
pub struct SnapshotView {
    pub system: SystemInfoView,
    pub baseboard: BaseboardInfoView,
    pub processor: ProcessorInfoView,
    pub chassis: ChassisInfoView,
    pub disks: Seq<DiskEntryView>,
    pub interfaces: Seq<NetworkInterfaceView>,
    pub monitors: Seq<MonitorEntryView>,
    pub gpus: Seq<GpuEntryView>,
}

impl View for SnapshotModel {
    type V = SnapshotView;

    open spec fn view(&self) -> SnapshotView {
        SnapshotView {
            system: self.system@,
            baseboard: self.baseboard@,
            processor: self.processor@,
            chassis: self.chassis@,
            disks: self.disk@,
            interfaces: self.network@,
            monitors: self.monitor@,
            gpus: self.gpu@,
        }
    }
}

impl SnapshotView {
    /// Every category satisfies its own invariant.
    pub open spec fn wf(&self) -> bool {
        &&& self.system.wf()
        &&& self.baseboard.wf()
        &&& self.processor.wf()
        &&& self.chassis.wf()
        &&& forall|i: int| 0 <= i < self.disks.len() ==> (#[trigger] self.disks[i]).wf()
        &&& forall|i: int| 0 <= i < self.interfaces.len() ==> (#[trigger] self.interfaces[i]).wf()
        &&& forall|i: int| 0 <= i < self.monitors.len() ==> (#[trigger] self.monitors[i]).wf()
        &&& forall|i: int| 0 <= i < self.gpus.len() ==> (#[trigger] self.gpus[i]).wf()
    }
}

impl Default for SnapshotModel {
    /// A snapshot with nothing collected: all scalars absent, all lists
    /// empty.
    fn default() -> (d: Self)
        ensures
            d@.system.wf(),
            d@.baseboard.wf(),
            d@.processor.wf(),
            d@.chassis.wf(),
            d@.disks.len() == 0,
            d@.interfaces.len() == 0,
            d@.monitors.len() == 0,
            d@.gpus.len() == 0,
            d@.wf(),
    {
        SnapshotModel {
            system: Default::default(),
            baseboard: Default::default(),
            processor: Default::default(),
            chassis: Default::default(),
            disk: Default::default(),
            network: Default::default(),
            monitor: Default::default(),
            gpu: Default::default(),
        }
    }
}

} // verus!
