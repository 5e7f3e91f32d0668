//! The monitor identity category: entries decoded from 16-bit identifier
//! blocks when available, else from desktop monitor records.

use vstd::prelude::*;

use crate::chars::{
    after_last, after_last_str, char_from_u16, char_of_u16, dec_str, trim_spec, trim_vec,
    u64_to_string, vec_to_string,
};
use crate::normalize::{
    first_some, lemma_normalize_normalized, lemma_normalize_opt_normalized, normalize, normalize_first,
    normalize_opt, normalize_opt_spec, normalize_spec, normalized_value, opt_view, sentinel,
};

verus! {

/// One normalized monitor record.
#[derive(Debug, Clone)]
pub struct MonitorEntry {
    pub display_name: String,
    pub manufacturer: String,
    pub model: String,
    pub serial_number: String,
    pub id_serial: String,
    pub resolution: String,
}

/// Mathematical shape of a monitor record.
#[verifier::ext_equal]
pub struct MonitorEntryView {
    pub display_name: Seq<char>,
    pub manufacturer: Seq<char>,
    pub model: Seq<char>,
    pub serial_number: Seq<char>,
    pub id_serial: Seq<char>,
    pub resolution: Seq<char>,
}

impl View for MonitorEntry {
    type V = MonitorEntryView;

    open spec fn view(&self) -> MonitorEntryView {
        MonitorEntryView {
            display_name: self.display_name@,
            manufacturer: self.manufacturer@,
            model: self.model@,
            serial_number: self.serial_number@,
            id_serial: self.id_serial@,
            resolution: self.resolution@,
        }
    }
}

impl DeepView for MonitorEntry {
    type V = MonitorEntryView;

    open spec fn deep_view(&self) -> MonitorEntryView {
        self.view()
    }
}

impl MonitorEntryView {
    /// The identity fields are the sentinel or trimmed non-placeholder
    /// values.
    pub open spec fn wf(&self) -> bool {
        &&& normalized_value(self.model)
        &&& normalized_value(self.serial_number)
        &&& normalized_value(self.id_serial)
    }
}

/// All monitors of one snapshot, in report order.
#[derive(Debug, Clone)]
pub struct MonitorInfo {
    pub monitors: Vec<MonitorEntry>,
}

impl View for MonitorInfo {
    type V = Seq<MonitorEntryView>;

    open spec fn view(&self) -> Seq<MonitorEntryView> {
        self.monitors.deep_view()
    }
}

/// Raw identifier blocks of one monitor: 16-bit code units, terminated by
/// a zero unit.
pub struct RawMonitorId {
    pub manufacturer_name: Option<Vec<u16>>,
    pub product_code_id: Option<Vec<u16>>,
    pub serial_number_id: Option<Vec<u16>>,
    pub user_friendly_name: Option<Vec<u16>>,
}

/// Mathematical shape of a raw identifier block set.
pub struct RawMonitorIdView {
    pub manufacturer_name: Option<Seq<u16>>,
    pub product_code_id: Option<Seq<u16>>,
    pub serial_number_id: Option<Seq<u16>>,
    pub user_friendly_name: Option<Seq<u16>>,
}

/// View of an optional code-unit vector.
pub open spec fn units_view(o: Option<Vec<u16>>) -> Option<Seq<u16>> {
    match o {
        Option::None => Option::None,
        Option::Some(v) => Option::Some(v@),
    }
}

impl View for RawMonitorId {
    type V = RawMonitorIdView;

    open spec fn view(&self) -> RawMonitorIdView {
        RawMonitorIdView {
            manufacturer_name: units_view(self.manufacturer_name),
            product_code_id: units_view(self.product_code_id),
            serial_number_id: units_view(self.serial_number_id),
            user_friendly_name: units_view(self.user_friendly_name),
        }
    }
}

impl DeepView for RawMonitorId {
    type V = RawMonitorIdView;

    open spec fn deep_view(&self) -> RawMonitorIdView {
        self.view()
    }
}

/// Raw, possibly-missing values of one desktop monitor record.
pub struct RawDesktopMonitor {
    pub name: Option<String>,
    pub monitor_manufacturer: Option<String>,
    pub monitor_type: Option<String>,
    pub pnp_device_id: Option<String>,
    pub screen_width: Option<u32>,
    pub screen_height: Option<u32>,
}

/// Mathematical shape of a raw desktop monitor record.
pub struct RawDesktopView {
    pub name: Option<Seq<char>>,
    pub monitor_manufacturer: Option<Seq<char>>,
    pub monitor_type: Option<Seq<char>>,
    pub pnp_device_id: Option<Seq<char>>,
    pub screen_width: Option<u32>,
    pub screen_height: Option<u32>,
}

impl View for RawDesktopMonitor {
    type V = RawDesktopView;

    open spec fn view(&self) -> RawDesktopView {
        RawDesktopView {
            name: opt_view(self.name),
            monitor_manufacturer: opt_view(self.monitor_manufacturer),
            monitor_type: opt_view(self.monitor_type),
            pnp_device_id: opt_view(self.pnp_device_id),
            screen_width: self.screen_width,
            screen_height: self.screen_height,
        }
    }
}

impl DeepView for RawDesktopMonitor {
    type V = RawDesktopView;

    open spec fn deep_view(&self) -> RawDesktopView {
        self.view()
    }
}

/// The code units before the first zero terminator.
pub open spec fn take_until_nul(d: Seq<u16>) -> Seq<u16>
    decreases d.len(),
{
    if d.len() == 0 {
        Seq::empty()
    } else if d[0] == 0 {
        Seq::empty()
    } else {
        seq![d[0]] + take_until_nul(d.drop_first())
    }
}

proof fn lemma_take_until_nul(d: Seq<u16>, i: int)
    requires
        0 <= i <= d.len(),
        forall|k: int| 0 <= k < i ==> d[k] != 0,
        i < d.len() ==> d[i] == 0,
    ensures
        take_until_nul(d) == d.take(i),
    decreases i,
{
    if i == 0 {
        assert(d.take(0) =~= Seq::<u16>::empty());
    } else {
        lemma_take_until_nul(d.drop_first(), i - 1);
        assert(seq![d[0]] + d.drop_first().take(i - 1) =~= d.take(i));
    }
}

/// The characters the code units denote; surrogate units are dropped.
pub open spec fn chars_of_u16(d: Seq<u16>) -> Seq<char>
    decreases d.len(),
{
    if d.len() == 0 {
        Seq::empty()
    } else {
        let rest = chars_of_u16(d.drop_last());
        match char_of_u16(d.last()) {
            Option::None => rest,
            Option::Some(c) => rest.push(c),
        }
    }
}

/// The decoded text of an identifier block: characters up to the zero
/// terminator, trimmed; empty results count as absent.
pub open spec fn decode_spec(o: Option<Seq<u16>>) -> Option<Seq<char>> {
    match o {
        Option::None => Option::None,
        Option::Some(d) => {
            let t = trim_spec(chars_of_u16(take_until_nul(d)));
            if t.len() == 0 {
                Option::None
            } else {
                Option::Some(t)
            }
        },
    }
}

impl MonitorInfo {
    /// Decodes a 16-bit identifier block into text, dropping everything
    /// from the first zero unit on and trimming the result.
    pub fn decode_wmi_string(data: &Option<Vec<u16>>) -> (r: Option<String>)
        ensures
            opt_view(r) == decode_spec(units_view(*data)),
    {
        match data {
            Option::None => Option::None,
            Option::Some(d) => {
                let n = d.len();
                let mut raw: Vec<char> = Vec::new();
                let mut i: usize = 0;
                while i < n && d[i] != 0
                    invariant
                        0 <= i <= n,
                        n == d@.len(),
                        forall|k: int| 0 <= k < i ==> d@[k] != 0,
                        raw@ == chars_of_u16(d@.take(i as int)),
                    decreases n - i,
                {
                    proof {
                        assert(d@.take(i + 1).drop_last() =~= d@.take(i as int));
                        assert(d@.take(i + 1).last() == d@[i as int]);
                    }
                    match char_from_u16(d[i]) {
                        Option::Some(c) => raw.push(c),
                        Option::None => {},
                    }
                    i += 1;
                }
                proof {
                    lemma_take_until_nul(d@, i as int);
                }
                let t = trim_vec(&raw);
                if t.len() == 0 {
                    Option::None
                } else {
                    Option::Some(vec_to_string(&t))
                }
            },
        }
    }

    /// The serial-like tail of a plug-and-play device path: what follows
    /// the final path separator, normalized.
    pub fn extract_serial_from_pnp(pnp_id: &Option<String>) -> (r: String)
        ensures
            r@ == match opt_view(*pnp_id) {
                Option::Some(p) => normalize_spec(after_last(p, '\\')),
                Option::None => sentinel(),
            },
    {
        match pnp_id {
            Option::Some(p) => normalize(after_last_str(p.as_str(), '\\')),
            Option::None => String::from_str("N/A"),
        }
    }
}

/// The rendered screen size of a desktop record, when both dimensions are
/// reported positive.
pub open spec fn resolution_of(d: Option<RawDesktopView>) -> Seq<char> {
    match d {
        Option::None => sentinel(),
        Option::Some(m) => match m.screen_width {
            Option::Some(w) => match m.screen_height {
                Option::Some(h) => if w > 0 && h > 0 {
                    dec_str(w as int) + "x"@ + dec_str(h as int)
                } else {
                    sentinel()
                },
                Option::None => sentinel(),
            },
            Option::None => sentinel(),
        },
    }
}

/// The desktop record aligned with index `i`, if one was reported.
pub open spec fn desk_at(ds: Seq<RawDesktopView>, i: int) -> Option<RawDesktopView> {
    if 0 <= i < ds.len() {
        Option::Some(ds[i])
    } else {
        Option::None
    }
}

/// The fixed display label of the monitor at index `i`.
pub open spec fn display_of(i: int) -> Seq<char> {
    "\\DISPLAY"@ + dec_str(i + 1)
}

/// The entry built from an identifier block set, with the screen size of
/// the position-aligned desktop record.
pub open spec fn monitor_from_id(id: RawMonitorIdView, desk: Option<RawDesktopView>, i: int)
    -> MonitorEntryView {
    MonitorEntryView {
        display_name: display_of(i),
        manufacturer: match decode_spec(id.manufacturer_name) {
            Option::Some(m) => m,
            Option::None => "Unknown"@,
        },
        model: normalize_opt_spec(
            first_some(decode_spec(id.user_friendly_name), decode_spec(id.product_code_id)),
        ),
        serial_number: normalize_opt_spec(decode_spec(id.serial_number_id)),
        id_serial: normalize_opt_spec(decode_spec(id.serial_number_id)),
        resolution: resolution_of(desk),
    }
}

/// The entry built from a desktop record alone.
pub open spec fn monitor_from_desktop(m: RawDesktopView, i: int) -> MonitorEntryView {
    MonitorEntryView {
        display_name: display_of(i),
        manufacturer: match m.monitor_manufacturer {
            Option::Some(v) => v,
            Option::None => "Unknown"@,
        },
        model: normalize_opt_spec(first_some(m.monitor_type, m.name)),
        serial_number: match m.pnp_device_id {
            Option::Some(p) => normalize_spec(after_last(p, '\\')),
            Option::None => sentinel(),
        },
        id_serial: normalize_opt_spec(m.pnp_device_id),
        resolution: resolution_of(Option::Some(m)),
    }
}

/// All entries: from the identifier blocks when any were reported, else
/// from the desktop records.
pub open spec fn monitors_spec(ids: Seq<RawMonitorIdView>, desks: Seq<RawDesktopView>) -> Seq<
    MonitorEntryView,
> {
    if ids.len() > 0 {
        Seq::new(ids.len(), |i: int| monitor_from_id(ids[i], desk_at(desks, i), i))
    } else {
        Seq::new(desks.len(), |i: int| monitor_from_desktop(desks[i], i))
    }
}

fn display_label(i: usize) -> (r: String)
    requires
        i < usize::MAX,
    ensures
        r@ == display_of(i as int),
{
    let num = u64_to_string((i as u64) + 1);
    String::from_str("\\DISPLAY").concat(num.as_str())
}

fn resolution_at(desks: &Vec<RawDesktopMonitor>, i: usize) -> (r: String)
    ensures
        r@ == resolution_of(desk_at(desks.deep_view(), i as int)),
{
    if i < desks.len() {
        proof {
            assert(desks.deep_view()[i as int] == desks@[i as int]@);
        }
        let m = &desks[i];
        match (m.screen_width, m.screen_height) {
            (Option::Some(w), Option::Some(h)) => {
                if w > 0 && h > 0 {
                    let ws = u64_to_string(w as u64);
                    let hs = u64_to_string(h as u64);
                    ws.concat("x").concat(hs.as_str())
                } else {
                    String::from_str("N/A")
                }
            },
            _ => String::from_str("N/A"),
        }
    } else {
        String::from_str("N/A")
    }
}

fn decode_first(a: &Option<Vec<u16>>, b: &Option<Vec<u16>>) -> (r: Option<String>)
    ensures
        opt_view(r) == first_some(decode_spec(units_view(*a)), decode_spec(units_view(*b))),
{
    match MonitorInfo::decode_wmi_string(a) {
        Option::Some(s) => Option::Some(s),
        Option::None => MonitorInfo::decode_wmi_string(b),
    }
}

impl MonitorInfo {
    /// Builds the normalized monitor list: from identifier blocks when any
    /// were reported, else from desktop records.
    pub fn collect(wmi_ids: &Vec<RawMonitorId>, desktop_monitors: &Vec<RawDesktopMonitor>) -> (
        info: MonitorInfo)
        ensures
            info@ == monitors_spec(wmi_ids.deep_view(), desktop_monitors.deep_view()),
            forall|i: int| 0 <= i < info@.len() ==> (#[trigger] info@[i]).wf(),
    {
        let mut monitors: Vec<MonitorEntry> = Vec::new();
        let ghost idv = wmi_ids.deep_view();
        let ghost dkv = desktop_monitors.deep_view();
        if wmi_ids.len() > 0 {
            let n = wmi_ids.len();
            let mut i: usize = 0;
            while i < n
                invariant
                    0 <= i <= n,
                    0 < n == wmi_ids@.len(),
                    idv == wmi_ids.deep_view(),
                    dkv == desktop_monitors.deep_view(),
                    idv.len() == n,
                    monitors.deep_view() =~= monitors_spec(idv, dkv).take(i as int),
                    forall|k: int|
                        0 <= k < i ==> (#[trigger] monitors.deep_view()[k]).wf(),
                decreases n - i,
            {
                let id = &wmi_ids[i];
                let serial = normalize_opt(&Self::decode_wmi_string(&id.serial_number_id));
                let entry = MonitorEntry {
                    display_name: display_label(i),
                    manufacturer: match Self::decode_wmi_string(&id.manufacturer_name) {
                        Option::Some(m) => m,
                        Option::None => String::from_str("Unknown"),
                    },
                    model: normalize_opt(&decode_first(&id.user_friendly_name, &id.product_code_id)),
                    serial_number: serial.clone(),
                    id_serial: serial,
                    resolution: resolution_at(desktop_monitors, i),
                };
                proof {
                    assert(idv[i as int] == wmi_ids@[i as int]@);
                    lemma_normalize_opt_normalized(decode_spec(idv[i as int].serial_number_id));
                    lemma_normalize_opt_normalized(
                        first_some(
                            decode_spec(idv[i as int].user_friendly_name),
                            decode_spec(idv[i as int].product_code_id),
                        ),
                    );
                    assert(entry@ =~= monitor_from_id(idv[i as int], desk_at(dkv, i as int), i as int));
                    let all = monitors_spec(idv, dkv);
                    assert(all.take(i + 1) =~= all.take(i as int).push(all[i as int]));
                }
                let ghost pre = monitors.deep_view();
                let ghost ev = entry@;
                monitors.push(entry);
                proof {
                    assert(monitors.deep_view() =~= pre.push(ev));
                }
                i += 1;
            }
            proof {
                assert(monitors_spec(idv, dkv).take(n as int) =~= monitors_spec(idv, dkv));
            }
        } else {
            let n = desktop_monitors.len();
            let mut i: usize = 0;
            while i < n
                invariant
                    0 <= i <= n,
                    n == desktop_monitors@.len(),
                    wmi_ids@.len() == 0,
                    idv == wmi_ids.deep_view(),
                    dkv == desktop_monitors.deep_view(),
                    idv.len() == 0,
                    dkv.len() == n,
                    monitors.deep_view() =~= monitors_spec(idv, dkv).take(i as int),
                    forall|k: int|
                        0 <= k < i ==> (#[trigger] monitors.deep_view()[k]).wf(),
                decreases n - i,
            {
                let m = &desktop_monitors[i];
                let entry = MonitorEntry {
                    display_name: display_label(i),
                    manufacturer: match &m.monitor_manufacturer {
                        Option::Some(v) => v.clone(),
                        Option::None => String::from_str("Unknown"),
                    },
                    model: normalize_first(&m.monitor_type, &m.name),
                    serial_number: Self::extract_serial_from_pnp(&m.pnp_device_id),
                    id_serial: normalize_opt(&m.pnp_device_id),
                    resolution: resolution_at(desktop_monitors, i),
                };
                proof {
                    assert(dkv[i as int] == desktop_monitors@[i as int]@);
                    lemma_normalize_opt_normalized(
                        first_some(dkv[i as int].monitor_type, dkv[i as int].name),
                    );
                    match dkv[i as int].pnp_device_id {
                        Option::Some(p) => lemma_normalize_normalized(after_last(p, '\\')),
                        Option::None => {},
                    }
                    lemma_normalize_opt_normalized(dkv[i as int].pnp_device_id);
                    assert(entry@ =~= monitor_from_desktop(dkv[i as int], i as int));
                    let all = monitors_spec(idv, dkv);
                    assert(all.take(i + 1) =~= all.take(i as int).push(all[i as int]));
                }
                let ghost pre = monitors.deep_view();
                let ghost ev = entry@;
                monitors.push(entry);
                proof {
                    assert(monitors.deep_view() =~= pre.push(ev));
                }
                i += 1;
            }
            proof {
                assert(monitors_spec(idv, dkv).take(n as int) =~= monitors_spec(idv, dkv));
            }
        }
        MonitorInfo { monitors }
    }
}

impl Default for MonitorInfo {
    /// No monitors recorded.
    fn default() -> (d: Self)
        ensures
            d@ == Seq::<MonitorEntryView>::empty(),
    {
        let d = MonitorInfo { monitors: Vec::new() };
        proof {
            assert(d@ =~= Seq::<MonitorEntryView>::empty());
        }
        d
    }
}

} // verus!
