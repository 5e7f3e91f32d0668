//! The disk identity category: one entry per physical drive, with the
//! comparison-relevant serial and descriptive fields.

use vstd::prelude::*;

use crate::chars::{chars_of, contains_seq, contains_sub, str_eq};
use crate::normalize::{
    lemma_normalize_opt_normalized, normalize_opt, normalize_opt_spec, normalized_value, opt_view,
    sentinel,
};

verus! {

/// One normalized drive record.
#[derive(Debug, Clone)]
pub struct DiskEntry {
    pub model: String,
    pub storage_query: String,
    pub smart_data: String,
    pub wwn: String,
    pub scsi: String,
    pub ata: String,
}

/// Mathematical shape of a drive record.
#[verifier::ext_equal]
pub struct DiskEntryView {
    pub model: Seq<char>,
    pub storage_query: Seq<char>,
    pub smart_data: Seq<char>,
    pub wwn: Seq<char>,
    pub scsi: Seq<char>,
    pub ata: Seq<char>,
}

impl View for DiskEntry {
    type V = DiskEntryView;

    open spec fn view(&self) -> DiskEntryView {
        DiskEntryView {
            model: self.model@,
            storage_query: self.storage_query@,
            smart_data: self.smart_data@,
            wwn: self.wwn@,
            scsi: self.scsi@,
            ata: self.ata@,
        }
    }
}

impl DeepView for DiskEntry {
    type V = DiskEntryView;

    open spec fn deep_view(&self) -> DiskEntryView {
        self.view()
    }
}

impl DiskEntryView {
    /// The identity fields are the sentinel or trimmed non-placeholder
    /// values.
    pub open spec fn wf(&self) -> bool {
        &&& normalized_value(self.model)
        &&& normalized_value(self.storage_query)
        &&& normalized_value(self.wwn)
    }
}

/// All drives of one snapshot, in report order.
#[derive(Debug, Clone)]
pub struct DiskInfo {
    pub disks: Vec<DiskEntry>,
}

impl View for DiskInfo {
    type V = Seq<DiskEntryView>;

    open spec fn view(&self) -> Seq<DiskEntryView> {
        self.disks.deep_view()
    }
}

/// Raw, possibly-missing values of one drive record.
pub struct RawDiskDrive {
    pub model: Option<String>,
    pub serial_number: Option<String>,
    pub interface_type: Option<String>,
    pub status: Option<String>,
}

/// Mathematical shape of a raw drive record.
pub struct RawDiskView {
    pub model: Option<Seq<char>>,
    pub serial_number: Option<Seq<char>>,
    pub interface_type: Option<Seq<char>>,
    pub status: Option<Seq<char>>,
}

impl View for RawDiskDrive {
    type V = RawDiskView;

    open spec fn view(&self) -> RawDiskView {
        RawDiskView {
            model: opt_view(self.model),
            serial_number: opt_view(self.serial_number),
            interface_type: opt_view(self.interface_type),
            status: opt_view(self.status),
        }
    }
}

impl DeepView for RawDiskDrive {
    type V = RawDiskView;

    open spec fn deep_view(&self) -> RawDiskView {
        self.view()
    }
}

/// A raw storage-namespace record; only its stable unique id is used.
pub struct RawMsftDisk {
    pub unique_id: Option<String>,
}

impl View for RawMsftDisk {
    type V = Option<Seq<char>>;

    open spec fn view(&self) -> Option<Seq<char>> {
        opt_view(self.unique_id)
    }
}

impl DeepView for RawMsftDisk {
    type V = Option<Seq<char>>;

    open spec fn deep_view(&self) -> Option<Seq<char>> {
        self.view()
    }
}

/// The health summary: the raw status, prefixed unless it is plain "OK".
pub open spec fn smart_of(status: Option<Seq<char>>) -> Seq<char> {
    match status {
        Option::None => sentinel(),
        Option::Some(s) => if s == "OK"@ {
            "OK"@
        } else {
            "Status: "@ + s
        },
    }
}

/// The reported interface, or a fixed fallback.
pub open spec fn interface_of(i: Option<Seq<char>>) -> Seq<char> {
    match i {
        Option::None => "Unknown"@,
        Option::Some(s) => s,
    }
}

/// The pass-through capability pair derived from the interface type.
pub open spec fn passthrough_of(i: Option<Seq<char>>) -> (Seq<char>, Seq<char>) {
    let s = interface_of(i);
    if s == "SCSI"@ {
        ("Supported"@, sentinel())
    } else if s == "IDE"@ || s == "ATA"@ {
        (sentinel(), "Supported"@)
    } else if s == "USB"@ {
        ("USB"@, sentinel())
    } else if contains_seq(s, "NVMe"@) {
        ("NVMe"@, sentinel())
    } else {
        (s, sentinel())
    }
}

/// The entry built from one raw drive record and the unique id of the
/// matching storage-namespace record, if any.
pub open spec fn disk_entry_spec(d: RawDiskView, m: Option<Seq<char>>) -> DiskEntryView {
    DiskEntryView {
        model: normalize_opt_spec(d.model),
        storage_query: normalize_opt_spec(d.serial_number),
        smart_data: smart_of(d.status),
        wwn: normalize_opt_spec(m),
        scsi: passthrough_of(d.interface_type).0,
        ata: passthrough_of(d.interface_type).1,
    }
}

/// The storage-namespace unique id aligned with drive index `i`, if the
/// namespace reported that many records.
pub open spec fn msft_at(ms: Seq<Option<Seq<char>>>, i: int) -> Option<Seq<char>> {
    if 0 <= i < ms.len() {
        ms[i]
    } else {
        Option::None
    }
}

/// All entries, drive by drive in report order.
pub open spec fn disks_spec(ds: Seq<RawDiskView>, ms: Seq<Option<Seq<char>>>) -> Seq<
    DiskEntryView,
> {
    Seq::new(ds.len(), |i: int| disk_entry_spec(ds[i], msft_at(ms, i)))
}

fn smart_string(status: &Option<String>) -> (r: String)
    ensures
        r@ == smart_of(opt_view(*status)),
{
    match status {
        Option::None => String::from_str("N/A"),
        Option::Some(s) => {
            if str_eq(s.as_str(), "OK") {
                String::from_str("OK")
            } else {
                String::from_str("Status: ").concat(s.as_str())
            }
        },
    }
}

fn passthrough_pair(i: &Option<String>) -> (r: (String, String))
    ensures
        r.0@ == passthrough_of(opt_view(*i)).0,
        r.1@ == passthrough_of(opt_view(*i)).1,
{
    let s: String = match i {
        Option::None => String::from_str("Unknown"),
        Option::Some(v) => v.clone(),
    };
    if str_eq(s.as_str(), "SCSI") {
        (String::from_str("Supported"), String::from_str("N/A"))
    } else if str_eq(s.as_str(), "IDE") || str_eq(s.as_str(), "ATA") {
        (String::from_str("N/A"), String::from_str("Supported"))
    } else if str_eq(s.as_str(), "USB") {
        (String::from_str("USB"), String::from_str("N/A"))
    } else {
        let cs = chars_of(s.as_str());
        if contains_sub(&cs, "NVMe") {
            (String::from_str("NVMe"), String::from_str("N/A"))
        } else {
            (s, String::from_str("N/A"))
        }
    }
}

impl DiskInfo {
    /// Builds the normalized drive list from raw inventory records; the
    /// storage-namespace records are matched to drives by position.
    pub fn collect(drives: &Vec<RawDiskDrive>, msft_disks: &Vec<RawMsftDisk>) -> (info: DiskInfo)
        ensures
            info@ == disks_spec(drives.deep_view(), msft_disks.deep_view()),
            forall|i: int| 0 <= i < info@.len() ==> (#[trigger] info@[i]).wf(),
    {
        let n = drives.len();
        let mut disks: Vec<DiskEntry> = Vec::new();
        let mut i: usize = 0;
        while i < n
            invariant
                0 <= i <= n,
                n == drives@.len(),
                drives.deep_view().len() == n,
                msft_disks.deep_view().len() == msft_disks@.len(),
                disks.deep_view() =~= disks_spec(drives.deep_view(), msft_disks.deep_view()).take(
                    i as int,
                ),
                forall|k: int| 0 <= k < i ==> (#[trigger] disks.deep_view()[k]).wf(),
            decreases n - i,
        {
            let d = &drives[i];
            let m: Option<String> = if i < msft_disks.len() {
                match &msft_disks[i].unique_id {
                    Option::Some(u) => Option::Some(u.clone()),
                    Option::None => Option::None,
                }
            } else {
                Option::None
            };
            proof {
                assert(opt_view(m) == msft_at(msft_disks.deep_view(), i as int));
                assert(drives.deep_view()[i as int] == drives@[i as int]@);
            }
            let pair = passthrough_pair(&d.interface_type);
            let entry = DiskEntry {
                model: normalize_opt(&d.model),
                storage_query: normalize_opt(&d.serial_number),
                smart_data: smart_string(&d.status),
                wwn: normalize_opt(&m),
                scsi: pair.0,
                ata: pair.1,
            };
            proof {
                lemma_normalize_opt_normalized(opt_view(d.model));
                lemma_normalize_opt_normalized(opt_view(d.serial_number));
                lemma_normalize_opt_normalized(opt_view(m));
                assert(entry@ =~= disk_entry_spec(
                    drives.deep_view()[i as int],
                    msft_at(msft_disks.deep_view(), i as int),
                ));
            }
            let ghost pre = disks.deep_view();
            let ghost ev = entry@;
            disks.push(entry);
            proof {
                assert(disks@.len() == pre.len() + 1);
                assert(disks.deep_view() =~= pre.push(ev));
                let all = disks_spec(drives.deep_view(), msft_disks.deep_view());
                assert(all.take(i + 1) =~= all.take(i as int).push(all[i as int]));
            }
            i += 1;
        }
        proof {
            assert(disks_spec(drives.deep_view(), msft_disks.deep_view()).take(n as int)
                =~= disks_spec(drives.deep_view(), msft_disks.deep_view()));
        }
        DiskInfo { disks }
    }
}

impl Default for DiskInfo {
    /// No drives recorded.
    fn default() -> (d: Self)
        ensures
            d@ == Seq::<DiskEntryView>::empty(),
    {
        let d = DiskInfo { disks: Vec::new() };
        proof {
            assert(d@ =~= Seq::<DiskEntryView>::empty());
        }
        d
    }
}

} // verus!
