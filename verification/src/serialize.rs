//! Rendering a snapshot to the durable text format: named sections, each a
//! header line followed by key-value lines, closed by a blank line.

use vstd::prelude::*;

use crate::baseboard::BaseboardInfoView;
use crate::chars::{dec_str, u64_to_string};
use crate::chassis::ChassisInfoView;
use crate::disk::{DiskEntry, DiskEntryView};
use crate::gpu::{GpuEntry, GpuEntryView};
use crate::monitor::{MonitorEntry, MonitorEntryView};
use crate::network::{NetworkInterface, NetworkInterfaceView};
use crate::processor::ProcessorInfoView;
use crate::snapshot::{SnapshotModel, SnapshotView};
use crate::system::SystemInfoView;

verus! {

/// The line terminator.
pub open spec fn nl() -> Seq<char> {
    "\n"@
}

/// A header line.
pub open spec fn hdr(h: Seq<char>) -> Seq<char> {
    h + nl()
}

/// A key-value line; the key carries its own separator.
pub open spec fn kv(k: Seq<char>, v: Seq<char>) -> Seq<char> {
    k + v + nl()
}

pub open spec fn system_section(s: SystemInfoView) -> Seq<char> {
    hdr("=== SYSTEM ==="@) + kv("Serial Number: "@, s.serial_number) + kv("UUID: "@, s.uuid) + kv(
        "SKU: "@,
        s.sku,
    ) + nl()
}

pub open spec fn baseboard_section(b: BaseboardInfoView) -> Seq<char> {
    hdr("=== BASEBOARD ==="@) + kv("Serial Number: "@, b.serial_number) + kv(
        "Asset Tag: "@,
        b.asset_tag,
    ) + nl()
}

pub open spec fn processor_section(p: ProcessorInfoView) -> Seq<char> {
    hdr("=== PROCESSOR ==="@) + kv("Serial Number: "@, p.serial_number) + kv(
        "Part Number: "@,
        p.part_number,
    ) + nl()
}

pub open spec fn chassis_section(c: ChassisInfoView) -> Seq<char> {
    hdr("=== CHASSIS ==="@) + kv("Serial Number: "@, c.serial_number) + kv(
        "Asset Tag: "@,
        c.asset_tag,
    ) + kv("SKU: "@, c.sku) + nl()
}

/// One drive: a numbered model line and two indented value lines.
pub open spec fn disk_block(d: DiskEntryView, i: int) -> Seq<char> {
    "Disk "@ + dec_str(i + 1) + ": "@ + d.model + nl() + kv(
        "  Serial (Storage Query): "@,
        d.storage_query,
    ) + kv("  WWN: "@, d.wwn)
}

pub open spec fn disk_blocks(ds: Seq<DiskEntryView>) -> Seq<char>
    decreases ds.len(),
{
    if ds.len() == 0 {
        Seq::empty()
    } else {
        disk_blocks(ds.drop_last()) + disk_block(ds.last(), ds.len() - 1)
    }
}

pub open spec fn disks_section(ds: Seq<DiskEntryView>) -> Seq<char> {
    hdr("=== DISKS ==="@) + disk_blocks(ds) + nl()
}

/// One adapter: its name and hardware address on one line.
pub open spec fn net_block(f: NetworkInterfaceView) -> Seq<char> {
    f.name + ": "@ + f.mac_address + nl()
}

pub open spec fn net_blocks(fs: Seq<NetworkInterfaceView>) -> Seq<char>
    decreases fs.len(),
{
    if fs.len() == 0 {
        Seq::empty()
    } else {
        net_blocks(fs.drop_last()) + net_block(fs.last())
    }
}

pub open spec fn network_section(fs: Seq<NetworkInterfaceView>) -> Seq<char> {
    hdr("=== NETWORK ==="@) + net_blocks(fs) + nl()
}

/// One monitor: a display-and-model line and two indented value lines.
pub open spec fn monitor_block(m: MonitorEntryView) -> Seq<char> {
    m.display_name + ": "@ + m.model + nl() + kv("  Serial Number: "@, m.serial_number) + kv(
        "  ID Serial: "@,
        m.id_serial,
    )
}

pub open spec fn monitor_blocks(ms: Seq<MonitorEntryView>) -> Seq<char>
    decreases ms.len(),
{
    if ms.len() == 0 {
        Seq::empty()
    } else {
        monitor_blocks(ms.drop_last()) + monitor_block(ms.last())
    }
}

pub open spec fn monitors_section(ms: Seq<MonitorEntryView>) -> Seq<char> {
    hdr("=== MONITORS ==="@) + monitor_blocks(ms) + nl()
}

/// One controller: its name line and two indented value lines.
pub open spec fn gpu_block(g: GpuEntryView) -> Seq<char> {
    g.name + nl() + kv("  PCI Device: "@, g.pci_device) + kv("  GUID: "@, g.guid)
}

pub open spec fn gpu_blocks(gs: Seq<GpuEntryView>) -> Seq<char>
    decreases gs.len(),
{
    if gs.len() == 0 {
        Seq::empty()
    } else {
        gpu_blocks(gs.drop_last()) + gpu_block(gs.last())
    }
}

pub open spec fn gpu_section(gs: Seq<GpuEntryView>) -> Seq<char> {
    hdr("=== GPU ==="@) + gpu_blocks(gs)
}

/// The full durable text of a snapshot: the fixed sections in order.
pub open spec fn serialized_spec(m: SnapshotView) -> Seq<char> {
    system_section(m.system) + baseboard_section(m.baseboard) + processor_section(m.processor)
        + chassis_section(m.chassis) + disks_section(m.disks) + network_section(m.interfaces)
        + monitors_section(m.monitors) + gpu_section(m.gpus)
}

fn append_disks(out: &mut String, disks: &Vec<DiskEntry>)
    ensures
        final(out)@ == old(out)@ + disks_section(disks.deep_view()),
{
    out.append("=== DISKS ===");
    out.append("\n");
    let n = disks.len();
    let ghost dv = disks.deep_view();
    let mut i: usize = 0;
    while i < n
        invariant
            0 <= i <= n,
            n == disks@.len(),
            dv == disks.deep_view(),
            dv.len() == n,
            i < n ==> i + 1 <= u64::MAX,
            out@ =~= old(out)@ + hdr("=== DISKS ==="@) + disk_blocks(dv.take(i as int)),
        decreases n - i,
    {
        proof {
            assert(dv[i as int] == disks@[i as int]@);
        }
        out.append("Disk ");
        let num = u64_to_string((i as u64) + 1);
        out.append(num.as_str());
        out.append(": ");
        out.append(disks[i].model.as_str());
        out.append("\n");
        out.append("  Serial (Storage Query): ");
        out.append(disks[i].storage_query.as_str());
        out.append("\n");
        out.append("  WWN: ");
        out.append(disks[i].wwn.as_str());
        out.append("\n");
        proof {
            assert(dv.take(i + 1).drop_last() =~= dv.take(i as int));
            assert(dv.take(i + 1).last() == dv[i as int]);
            assert(out@ =~= old(out)@ + hdr("=== DISKS ==="@) + disk_blocks(dv.take(i + 1)));
        }
        i += 1;
    }
    out.append("\n");
    proof {
        assert(dv.take(n as int) =~= dv);
        assert(out@ =~= old(out)@ + disks_section(dv));
    }
}

fn append_network(out: &mut String, interfaces: &Vec<NetworkInterface>)
    ensures
        final(out)@ == old(out)@ + network_section(interfaces.deep_view()),
{
    out.append("=== NETWORK ===");
    out.append("\n");
    let n = interfaces.len();
    let ghost fv = interfaces.deep_view();
    let mut i: usize = 0;
    while i < n
        invariant
            0 <= i <= n,
            n == interfaces@.len(),
            fv == interfaces.deep_view(),
            fv.len() == n,
            out@ =~= old(out)@ + hdr("=== NETWORK ==="@) + net_blocks(fv.take(i as int)),
        decreases n - i,
    {
        proof {
            assert(fv[i as int] == interfaces@[i as int]@);
        }
        out.append(interfaces[i].name.as_str());
        out.append(": ");
        out.append(interfaces[i].mac_address.as_str());
        out.append("\n");
        proof {
            assert(fv.take(i + 1).drop_last() =~= fv.take(i as int));
            assert(fv.take(i + 1).last() == fv[i as int]);
            assert(out@ =~= old(out)@ + hdr("=== NETWORK ==="@) + net_blocks(fv.take(i + 1)));
        }
        i += 1;
    }
    out.append("\n");
    proof {
        assert(fv.take(n as int) =~= fv);
        assert(out@ =~= old(out)@ + network_section(fv));
    }
}

fn append_monitors(out: &mut String, monitors: &Vec<MonitorEntry>)
    ensures
        final(out)@ == old(out)@ + monitors_section(monitors.deep_view()),
{
    out.append("=== MONITORS ===");
    out.append("\n");
    let n = monitors.len();
    let ghost mv = monitors.deep_view();
    let mut i: usize = 0;
    while i < n
        invariant
            0 <= i <= n,
            n == monitors@.len(),
            mv == monitors.deep_view(),
            mv.len() == n,
            out@ =~= old(out)@ + hdr("=== MONITORS ==="@) + monitor_blocks(mv.take(i as int)),
        decreases n - i,
    {
        proof {
            assert(mv[i as int] == monitors@[i as int]@);
        }
        out.append(monitors[i].display_name.as_str());
        out.append(": ");
        out.append(monitors[i].model.as_str());
        out.append("\n");
        out.append("  Serial Number: ");
        out.append(monitors[i].serial_number.as_str());
        out.append("\n");
        out.append("  ID Serial: ");
        out.append(monitors[i].id_serial.as_str());
        out.append("\n");
        proof {
            assert(mv.take(i + 1).drop_last() =~= mv.take(i as int));
            assert(mv.take(i + 1).last() == mv[i as int]);
            assert(out@ =~= old(out)@ + hdr("=== MONITORS ==="@) + monitor_blocks(mv.take(i + 1)));
        }
        i += 1;
    }
    out.append("\n");
    proof {
        assert(mv.take(n as int) =~= mv);
        assert(out@ =~= old(out)@ + monitors_section(mv));
    }
}

fn append_gpus(out: &mut String, gpus: &Vec<GpuEntry>)
    ensures
        final(out)@ == old(out)@ + gpu_section(gpus.deep_view()),
{
    out.append("=== GPU ===");
    out.append("\n");
    let n = gpus.len();
    let ghost gv = gpus.deep_view();
    let mut i: usize = 0;
    while i < n
        invariant
            0 <= i <= n,
            n == gpus@.len(),
            gv == gpus.deep_view(),
            gv.len() == n,
            out@ =~= old(out)@ + hdr("=== GPU ==="@) + gpu_blocks(gv.take(i as int)),
        decreases n - i,
    {
        proof {
            assert(gv[i as int] == gpus@[i as int]@);
        }
        out.append(gpus[i].name.as_str());
        out.append("\n");
        out.append("  PCI Device: ");
        out.append(gpus[i].pci_device.as_str());
        out.append("\n");
        out.append("  GUID: ");
        out.append(gpus[i].guid.as_str());
        out.append("\n");
        proof {
            assert(gv.take(i + 1).drop_last() =~= gv.take(i as int));
            assert(gv.take(i + 1).last() == gv[i as int]);
            assert(out@ =~= old(out)@ + hdr("=== GPU ==="@) + gpu_blocks(gv.take(i + 1)));
        }
        i += 1;
    }
    proof {
        assert(gv.take(n as int) =~= gv);
    }
}

impl SnapshotModel {
    /// Renders the snapshot to the durable text format.  The result is a
    /// pure function of the snapshot: no time stamp, no input/output.
    #[verifier::rlimit(80)]
    pub fn serialize(&self) -> (out: String)
        ensures
            out@ == serialized_spec(self@),
    {
        let mut out = String::new();

        out.append("=== SYSTEM ===");
        out.append("\n");
        out.append("Serial Number: ");
        out.append(self.system.serial_number.as_str());
        out.append("\n");
        out.append("UUID: ");
        out.append(self.system.uuid.as_str());
        out.append("\n");
        out.append("SKU: ");
        out.append(self.system.sku.as_str());
        out.append("\n");
        out.append("\n");
        proof {
            assert(out@ =~= system_section(self@.system));
        }
        let ghost done1 = out@;

        out.append("=== BASEBOARD ===");
        out.append("\n");
        out.append("Serial Number: ");
        out.append(self.baseboard.serial_number.as_str());
        out.append("\n");
        out.append("Asset Tag: ");
        out.append(self.baseboard.asset_tag.as_str());
        out.append("\n");
        out.append("\n");
        proof {
            assert(out@ =~= done1 + baseboard_section(self@.baseboard));
        }
        let ghost done2 = out@;

        out.append("=== PROCESSOR ===");
        out.append("\n");
        out.append("Serial Number: ");
        out.append(self.processor.serial_number.as_str());
        out.append("\n");
        out.append("Part Number: ");
        out.append(self.processor.part_number.as_str());
        out.append("\n");
        out.append("\n");
        proof {
            assert(out@ =~= done2 + processor_section(self@.processor));
        }
        let ghost done3 = out@;

        out.append("=== CHASSIS ===");
        out.append("\n");
        out.append("Serial Number: ");
        out.append(self.chassis.serial_number.as_str());
        out.append("\n");
        out.append("Asset Tag: ");
        out.append(self.chassis.asset_tag.as_str());
        out.append("\n");
        out.append("SKU: ");
        out.append(self.chassis.sku.as_str());
        out.append("\n");
        out.append("\n");
        proof {
            assert(out@ =~= done3 + chassis_section(self@.chassis));
        }
        let ghost done4 = out@;

        append_disks(&mut out, &self.disk.disks);
        let ghost done5 = out@;
        append_network(&mut out, &self.network.interfaces);
        let ghost done6 = out@;
        append_monitors(&mut out, &self.monitor.monitors);
        let ghost done7 = out@;
        append_gpus(&mut out, &self.gpu.gpus);

        proof {
            assert(done5 == done4 + disks_section(self@.disks));
            assert(done6 == done5 + network_section(self@.interfaces));
            assert(done7 == done6 + monitors_section(self@.monitors));
            assert(out@ == done7 + gpu_section(self@.gpus));
            assert(out@ =~= serialized_spec(self@));
        }
        out
    }
}

} // verus!
