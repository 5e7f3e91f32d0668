//! Drift comparison: a live value against the baseline, per scalar category
//! and per list category.

use vstd::prelude::*;

use crate::baseline::{BaselineView, PreviousSerials};
use crate::chars::str_eq;
use crate::normalize::sentinel;

verus! {

/// Result of one comparison.
#[derive(Debug, Clone, PartialEq)]
pub enum SerialStatus {
    /// The live value equals the recorded one.
    Unchanged,
    /// The live value differs; `old` carries what was recorded, or a fixed
    /// marker for list categories, which keep no per-item identity.
    Changed { old: String },
    /// No usable live value, or nothing recorded to compare against.
    New,
}

/// Mathematical shape of a comparison result.
pub enum SerialStatusView {
    Unchanged,
    Changed { old: Seq<char> },
    New,
}

impl View for SerialStatus {
    type V = SerialStatusView;

    open spec fn view(&self) -> SerialStatusView {
        match self {
            SerialStatus::Unchanged => SerialStatusView::Unchanged,
            SerialStatus::Changed { old } => SerialStatusView::Changed { old: old@ },
            SerialStatus::New => SerialStatusView::New,
        }
    }
}

/// The scalar comparison categories, each naming one optional baseline
/// field.
#[derive(Debug, Clone, Copy, PartialEq, Eq)]
pub enum ScalarCategory {
    SystemSerial,
    SystemUuid,
    SystemSku,
    BaseboardSerial,
    ProcessorSerial,
    ChassisSerial,
}

/// The list comparison categories, each naming one baseline list.
#[derive(Debug, Clone, Copy, PartialEq, Eq)]
pub enum ListCategory {
    Disk,
    Network,
    Monitor,
    Gpu,
}

/// The baseline scalar a category refers to.
pub open spec fn baseline_scalar(b: BaselineView, c: ScalarCategory) -> Option<Seq<char>> {
    match c {
        ScalarCategory::SystemSerial => b.system_serial,
        ScalarCategory::SystemUuid => b.system_uuid,
        ScalarCategory::SystemSku => b.system_sku,
        ScalarCategory::BaseboardSerial => b.baseboard_serial,
        ScalarCategory::ProcessorSerial => b.processor_serial,
        ScalarCategory::ChassisSerial => b.chassis_serial,
    }
}

/// The baseline list a category refers to.
pub open spec fn baseline_list(b: BaselineView, c: ListCategory) -> Seq<Seq<char>> {
    match c {
        ListCategory::Disk => b.disk_serials,
        ListCategory::Network => b.network_macs,
        ListCategory::Monitor => b.monitor_serials,
        ListCategory::Gpu => b.gpu_guids,
    }
}

/// Scalar drift: `New` without a usable live value or a recorded one,
/// `Unchanged` on exact equality, else `Changed` carrying the old value.
pub open spec fn compare_scalar_spec(b: BaselineView, c: ScalarCategory, cur: Seq<char>)
    -> SerialStatusView {
    if cur.len() == 0 || cur == sentinel() {
        SerialStatusView::New
    } else {
        match baseline_scalar(b, c) {
            Option::None => SerialStatusView::New,
            Option::Some(old) => if old == cur {
                SerialStatusView::Unchanged
            } else {
                SerialStatusView::Changed { old }
            },
        }
    }
}

/// The fixed marker a list comparison reports in place of a prior value.
pub open spec fn list_changed_marker() -> Seq<char> {
    "(different from previous)"@
}

/// List drift: membership anywhere in the recorded list counts as
/// `Unchanged`; a nonempty list without a match is `Changed` with a fixed
/// marker, since list items carry no stable identity across runs.
pub open spec fn compare_list_spec(b: BaselineView, c: ListCategory, cur: Seq<char>)
    -> SerialStatusView {
    if cur.len() == 0 || cur == sentinel() {
        SerialStatusView::New
    } else {
        let l = baseline_list(b, c);
        if l.len() == 0 {
            SerialStatusView::New
        } else if l.contains(cur) {
            SerialStatusView::Unchanged
        } else {
            SerialStatusView::Changed { old: list_changed_marker() }
        }
    }
}

impl PreviousSerials {
    /// Compares a live scalar value with the recorded one for `category`.
    pub fn compare(&self, category: ScalarCategory, current: &str) -> (st: SerialStatus)
        ensures
            st@ == compare_scalar_spec(self@, category, current@),
    {
        if current.unicode_len() == 0 || str_eq(current, "N/A") {
            return SerialStatus::New;
        }
        let previous: &Option<String> = match category {
            ScalarCategory::SystemSerial => &self.system_serial,
            ScalarCategory::SystemUuid => &self.system_uuid,
            ScalarCategory::SystemSku => &self.system_sku,
            ScalarCategory::BaseboardSerial => &self.baseboard_serial,
            ScalarCategory::ProcessorSerial => &self.processor_serial,
            ScalarCategory::ChassisSerial => &self.chassis_serial,
        };
        match previous {
            Option::Some(old) => {
                if str_eq(old.as_str(), current) {
                    SerialStatus::Unchanged
                } else {
                    SerialStatus::Changed { old: old.clone() }
                }
            },
            Option::None => SerialStatus::New,
        }
    }

    /// Checks whether a live list value occurs anywhere in the recorded
    /// list for `category`.
    pub fn compare_list(&self, category: ListCategory, current: &str) -> (st: SerialStatus)
        ensures
            st@ == compare_list_spec(self@, category, current@),
    {
        if current.unicode_len() == 0 || str_eq(current, "N/A") {
            return SerialStatus::New;
        }
        let list: &Vec<String> = match category {
            ListCategory::Disk => &self.disk_serials,
            ListCategory::Network => &self.network_macs,
            ListCategory::Monitor => &self.monitor_serials,
            ListCategory::Gpu => &self.gpu_guids,
        };
        let ghost l = baseline_list(self@, category);
        proof {
            assert(l =~= list.deep_view());
            assert(l.len() == list@.len());
        }
        if list.len() == 0 {
            return SerialStatus::New;
        }
        let n = list.len();
        let mut i: usize = 0;
        while i < n
            invariant
                0 <= i <= n,
                n == list@.len(),
                l == list.deep_view(),
                l == baseline_list(self@, category),
                l.len() == n,
                current@.len() > 0,
                current@ != sentinel(),
                forall|k: int| 0 <= k < i ==> l[k] != current@,
            decreases n - i,
        {
            proof {
                assert(l[i as int] == list@[i as int]@);
            }
            if str_eq(list[i].as_str(), current) {
                proof {
                    assert(l.contains(current@));
                }
                return SerialStatus::Unchanged;
            }
            i += 1;
        }
        proof {
            assert(!l.contains(current@));
        }
        SerialStatus::Changed { old: String::from_str("(different from previous)") }
    }
}

} // verus!

