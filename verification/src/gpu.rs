//! The GPU identity category: one entry per video controller, with the
//! vendor heuristic, memory rendering and device-class id fallback.

use vstd::prelude::*;

use crate::chars::{chars_of, contains_seq, contains_sub, dec_str, u64_to_string};
use crate::normalize::{
    first_some, lemma_normalize_normalized, lemma_normalize_opt_normalized, normalize,
    normalize_first, normalize_opt, normalize_opt_spec, normalize_spec, normalized_value,
    opt_view, sentinel,
};

verus! {

/// One normalized video controller record.
#[derive(Debug, Clone)]
pub struct GpuEntry {
    pub pci_device: String,
    pub name: String,
    pub guid: String,
    pub vram: String,
    pub vendor: String,
}

/// Mathematical shape of a video controller record.
#[verifier::ext_equal]
pub struct GpuEntryView {
    pub pci_device: Seq<char>,
    pub name: Seq<char>,
    pub guid: Seq<char>,
    pub vram: Seq<char>,
    pub vendor: Seq<char>,
}

impl View for GpuEntry {
    type V = GpuEntryView;

    open spec fn view(&self) -> GpuEntryView {
        GpuEntryView {
            pci_device: self.pci_device@,
            name: self.name@,
            guid: self.guid@,
            vram: self.vram@,
            vendor: self.vendor@,
        }
    }
}

impl DeepView for GpuEntry {
    type V = GpuEntryView;

    open spec fn deep_view(&self) -> GpuEntryView {
        self.view()
    }
}

impl GpuEntryView {
    /// The identity fields are the sentinel or trimmed non-placeholder
    /// values; the class id may also be the fixed vendor-specific marker.
    pub open spec fn wf(&self) -> bool {
        &&& normalized_value(self.pci_device)
        &&& normalized_value(self.name)
        &&& (normalized_value(self.guid) || self.guid == "N/A (LIKELY AMD GPU)"@)
    }
}

/// All video controllers of one snapshot, in report order.
#[derive(Debug, Clone)]
pub struct GpuInfo {
    pub gpus: Vec<GpuEntry>,
}

impl View for GpuInfo {
    type V = Seq<GpuEntryView>;

    open spec fn view(&self) -> Seq<GpuEntryView> {
        self.gpus.deep_view()
    }
}

/// Raw, possibly-missing values of one video controller record.
pub struct RawVideoController {
    pub name: Option<String>,
    pub adapter_ram: Option<u64>,
    pub adapter_compatibility: Option<String>,
    pub video_processor: Option<String>,
    pub pnp_device_id: Option<String>,
}

/// Mathematical shape of a raw video controller record.
pub struct RawVideoView {
    pub name: Option<Seq<char>>,
    pub adapter_ram: Option<u64>,
    pub adapter_compatibility: Option<Seq<char>>,
    pub video_processor: Option<Seq<char>>,
    pub pnp_device_id: Option<Seq<char>>,
}

impl View for RawVideoController {
    type V = RawVideoView;

    open spec fn view(&self) -> RawVideoView {
        RawVideoView {
            name: opt_view(self.name),
            adapter_ram: self.adapter_ram,
            adapter_compatibility: opt_view(self.adapter_compatibility),
            video_processor: opt_view(self.video_processor),
            pnp_device_id: opt_view(self.pnp_device_id),
        }
    }
}

impl DeepView for RawVideoController {
    type V = RawVideoView;

    open spec fn deep_view(&self) -> RawVideoView {
        self.view()
    }
}

/// The controller name used throughout an entry.
pub open spec fn gpu_name_of(c: RawVideoView) -> Seq<char> {
    normalize_opt_spec(first_some(c.name, c.video_processor))
}

/// The vendor: as reported, else guessed from well-known product-name
/// fragments.
pub open spec fn vendor_of(c: RawVideoView) -> Seq<char> {
    match c.adapter_compatibility {
        Option::Some(v) => v,
        Option::None => {
            let name = gpu_name_of(c);
            if contains_seq(name, "NVIDIA"@) || contains_seq(name, "GeForce"@) || contains_seq(
                name,
                "RTX"@,
            ) || contains_seq(name, "GTX"@) {
                "NVIDIA"@
            } else if contains_seq(name, "AMD"@) || contains_seq(name, "Radeon"@) {
                "AMD"@
            } else if contains_seq(name, "Intel"@) {
                "Intel"@
            } else {
                "Unknown"@
            }
        },
    }
}

/// The adapter memory, rendered in the largest fitting unit.
pub open spec fn vram_of(o: Option<u64>) -> Seq<char> {
    match o {
        Option::None => sentinel(),
        Option::Some(ram) => if ram >= 0x40000000 {
            dec_str((ram / 0x40000000) as int) + " GB"@
        } else if ram >= 0x100000 {
            dec_str((ram / 0x100000) as int) + " MB"@
        } else {
            dec_str(ram as int) + " bytes"@
        },
    }
}

/// The device-class id: the registry value when one was found, else a
/// fixed marker that names the vendors known not to expose one.
pub open spec fn guid_of(reg: Option<Seq<char>>, vendor: Seq<char>) -> Seq<char> {
    match reg {
        Option::Some(g) => normalize_spec(g),
        Option::None => if contains_seq(vendor, "AMD"@) || contains_seq(vendor, "Radeon"@) {
            "N/A (LIKELY AMD GPU)"@
        } else {
            sentinel()
        },
    }
}

/// The entry built from one raw controller record and the class id looked
/// up for it, if any.
pub open spec fn gpu_entry_spec(c: RawVideoView, reg: Option<Seq<char>>) -> GpuEntryView {
    GpuEntryView {
        pci_device: normalize_opt_spec(c.pnp_device_id),
        name: gpu_name_of(c),
        guid: guid_of(reg, vendor_of(c)),
        vram: vram_of(c.adapter_ram),
        vendor: vendor_of(c),
    }
}

/// The looked-up class id aligned with controller index `i`, if any.
pub open spec fn guid_at(gs: Seq<Option<Seq<char>>>, i: int) -> Option<Seq<char>> {
    if 0 <= i < gs.len() {
        gs[i]
    } else {
        Option::None
    }
}

/// All entries, controller by controller in report order.
pub open spec fn gpus_spec(cs: Seq<RawVideoView>, gs: Seq<Option<Seq<char>>>) -> Seq<
    GpuEntryView,
> {
    Seq::new(cs.len(), |i: int| gpu_entry_spec(cs[i], guid_at(gs, i)))
}

fn vendor_string(c: &RawVideoController, name: &String) -> (r: String)
    requires
        name@ == gpu_name_of(c@),
    ensures
        r@ == vendor_of(c@),
{
    match &c.adapter_compatibility {
        Option::Some(v) => v.clone(),
        Option::None => {
            let cs = chars_of(name.as_str());
            if contains_sub(&cs, "NVIDIA") || contains_sub(&cs, "GeForce") || contains_sub(
                &cs,
                "RTX",
            ) || contains_sub(&cs, "GTX") {
                String::from_str("NVIDIA")
            } else if contains_sub(&cs, "AMD") || contains_sub(&cs, "Radeon") {
                String::from_str("AMD")
            } else if contains_sub(&cs, "Intel") {
                String::from_str("Intel")
            } else {
                String::from_str("Unknown")
            }
        },
    }
}

fn vram_string(o: &Option<u64>) -> (r: String)
    ensures
        r@ == vram_of(*o),
{
    match o {
        Option::None => String::from_str("N/A"),
        Option::Some(ram) => {
            if *ram >= 1024 * 1024 * 1024 {
                u64_to_string(*ram / (1024 * 1024 * 1024)).concat(" GB")
            } else if *ram >= 1024 * 1024 {
                u64_to_string(*ram / (1024 * 1024)).concat(" MB")
            } else {
                u64_to_string(*ram).concat(" bytes")
            }
        },
    }
}

fn guid_string(reg: &Option<String>, vendor: &String) -> (r: String)
    ensures
        r@ == guid_of(opt_view(*reg), vendor@),
{
    match reg {
        Option::Some(g) => normalize(g.as_str()),
        Option::None => {
            let cs = chars_of(vendor.as_str());
            if contains_sub(&cs, "AMD") || contains_sub(&cs, "Radeon") {
                String::from_str("N/A (LIKELY AMD GPU)")
            } else {
                String::from_str("N/A")
            }
        },
    }
}

impl GpuInfo {
    /// Builds the normalized controller list from raw inventory records;
    /// the looked-up class ids are matched to controllers by position.
    pub fn collect(controllers: &Vec<RawVideoController>, reg_guids: &Vec<Option<String>>) -> (
        info: GpuInfo)
        ensures
            info@ == gpus_spec(controllers.deep_view(), reg_guids.deep_view()),
            forall|i: int| 0 <= i < info@.len() ==> (#[trigger] info@[i]).wf(),
    {
        let n = controllers.len();
        let mut gpus: Vec<GpuEntry> = Vec::new();
        let mut i: usize = 0;
        while i < n
            invariant
                0 <= i <= n,
                n == controllers@.len(),
                controllers.deep_view().len() == n,
                reg_guids.deep_view().len() == reg_guids@.len(),
                gpus.deep_view() =~= gpus_spec(controllers.deep_view(), reg_guids.deep_view())
                    .take(i as int),
                forall|k: int| 0 <= k < i ==> (#[trigger] gpus.deep_view()[k]).wf(),
            decreases n - i,
        {
            let c = &controllers[i];
            let reg: Option<String> = if i < reg_guids.len() {
                match &reg_guids[i] {
                    Option::Some(g) => Option::Some(g.clone()),
                    Option::None => Option::None,
                }
            } else {
                Option::None
            };
            proof {
                assert(controllers.deep_view()[i as int] == controllers@[i as int]@);
                if i < reg_guids.len() {
                    assert(reg_guids.deep_view()[i as int] == reg_guids@[i as int].deep_view());
                }
                assert(opt_view(reg) == guid_at(reg_guids.deep_view(), i as int));
            }
            let name = normalize_first(&c.name, &c.video_processor);
            let vendor = vendor_string(c, &name);
            let entry = GpuEntry {
                pci_device: normalize_opt(&c.pnp_device_id),
                name,
                guid: guid_string(&reg, &vendor),
                vram: vram_string(&c.adapter_ram),
                vendor,
            };
            proof {
                lemma_normalize_opt_normalized(opt_view(c.pnp_device_id));
                lemma_normalize_opt_normalized(first_some(opt_view(c.name), opt_view(c.video_processor)));
                match opt_view(reg) {
                    Option::Some(g) => lemma_normalize_normalized(g),
                    Option::None => {},
                }
                assert(entry@ =~= gpu_entry_spec(
                    controllers.deep_view()[i as int],
                    guid_at(reg_guids.deep_view(), i as int),
                ));
                let all = gpus_spec(controllers.deep_view(), reg_guids.deep_view());
                assert(all.take(i + 1) =~= all.take(i as int).push(all[i as int]));
            }
            let ghost pre = gpus.deep_view();
            let ghost ev = entry@;
            gpus.push(entry);
            proof {
                assert(gpus.deep_view() =~= pre.push(ev));
            }
            i += 1;
        }
        proof {
            assert(gpus_spec(controllers.deep_view(), reg_guids.deep_view()).take(n as int)
                =~= gpus_spec(controllers.deep_view(), reg_guids.deep_view()));
        }
        GpuInfo { gpus }
    }
}

impl Default for GpuInfo {
    /// No controllers recorded.
    fn default() -> (d: Self)
        ensures
            d@ == Seq::<GpuEntryView>::empty(),
    {
        let d = GpuInfo { gpus: Vec::new() };
        proof {
            assert(d@ =~= Seq::<GpuEntryView>::empty());
        }
        d
    }
}

} // verus!
