//! The network identity category: one entry per physical adapter with a
//! hardware address, matched to its configuration record by that address.

use vstd::prelude::*;

use crate::chars::str_eq;
use crate::normalize::{
    lemma_normalize_normalized, lemma_normalize_opt_normalized, normalize, normalize_opt,
    normalize_opt_spec, normalize_spec, normalized_value, opt_view,
};

verus! {

/// One normalized adapter record.
#[derive(Debug, Clone)]
pub struct NetworkInterface {
    pub name: String,
    pub mac_address: String,
    pub ip_address: String,
}

/// Mathematical shape of an adapter record.
#[verifier::ext_equal]
pub struct NetworkInterfaceView {
    pub name: Seq<char>,
    pub mac_address: Seq<char>,
    pub ip_address: Seq<char>,
}

impl View for NetworkInterface {
    type V = NetworkInterfaceView;

    open spec fn view(&self) -> NetworkInterfaceView {
        NetworkInterfaceView {
            name: self.name@,
            mac_address: self.mac_address@,
            ip_address: self.ip_address@,
        }
    }
}

impl DeepView for NetworkInterface {
    type V = NetworkInterfaceView;

    open spec fn deep_view(&self) -> NetworkInterfaceView {
        self.view()
    }
}

impl NetworkInterfaceView {
    /// Name and hardware address are the sentinel or trimmed
    /// non-placeholder values; the address of an included adapter is never
    /// the sentinel by construction.
    pub open spec fn wf(&self) -> bool {
        &&& normalized_value(self.name)
        &&& normalized_value(self.mac_address)
    }
}

/// All adapters of one snapshot, in report order.
#[derive(Debug, Clone)]
pub struct NetworkInfo {
    pub interfaces: Vec<NetworkInterface>,
}

impl View for NetworkInfo {
    type V = Seq<NetworkInterfaceView>;

    open spec fn view(&self) -> Seq<NetworkInterfaceView> {
        self.interfaces.deep_view()
    }
}

/// Raw, possibly-missing values of one adapter record.
pub struct RawNetworkAdapter {
    pub name: Option<String>,
    pub mac_address: Option<String>,
}

/// Mathematical shape of a raw adapter record.
pub struct RawAdapterView {
    pub name: Option<Seq<char>>,
    pub mac_address: Option<Seq<char>>,
}

impl View for RawNetworkAdapter {
    type V = RawAdapterView;

    open spec fn view(&self) -> RawAdapterView {
        RawAdapterView { name: opt_view(self.name), mac_address: opt_view(self.mac_address) }
    }
}

impl DeepView for RawNetworkAdapter {
    type V = RawAdapterView;

    open spec fn deep_view(&self) -> RawAdapterView {
        self.view()
    }
}

/// Raw, possibly-missing values of one configuration record.
pub struct RawNetworkConfig {
    pub mac_address: Option<String>,
    pub ip_address: Option<Vec<String>>,
}

/// Mathematical shape of a raw configuration record.
pub struct RawConfigView {
    pub mac_address: Option<Seq<char>>,
    pub ip_address: Option<Seq<Seq<char>>>,
}

impl View for RawNetworkConfig {
    type V = RawConfigView;

    open spec fn view(&self) -> RawConfigView {
        RawConfigView {
            mac_address: opt_view(self.mac_address),
            ip_address: match self.ip_address {
                Option::None => Option::None,
                Option::Some(v) => Option::Some(v.deep_view()),
            },
        }
    }
}

impl DeepView for RawNetworkConfig {
    type V = RawConfigView;

    open spec fn deep_view(&self) -> RawConfigView {
        self.view()
    }
}

/// The first configuration record reporting the given hardware address.
pub open spec fn find_config(cs: Seq<RawConfigView>, mac: Seq<char>) -> Option<RawConfigView>
    decreases cs.len(),
{
    if cs.len() == 0 {
        Option::None
    } else if cs[0].mac_address == Option::Some(mac) {
        Option::Some(cs[0])
    } else {
        find_config(cs.drop_first(), mac)
    }
}

pub proof fn lemma_find_config(cs: Seq<RawConfigView>, mac: Seq<char>, i: int)
    requires
        0 <= i <= cs.len(),
        forall|k: int| 0 <= k < i ==> (#[trigger] cs[k]).mac_address != Option::Some(mac),
        i < cs.len() ==> cs[i].mac_address == Option::Some(mac),
    ensures
        find_config(cs, mac) == if i < cs.len() {
            Option::Some(cs[i])
        } else {
            Option::<RawConfigView>::None
        },
    decreases i,
{
    if i == 0 {
    } else {
        lemma_find_config(cs.drop_first(), mac, i - 1);
    }
}

/// The first address of the matching configuration record; empty without a
/// match or without addresses.
pub open spec fn ip_of(cs: Seq<RawConfigView>, mac: Seq<char>) -> Seq<char> {
    match find_config(cs, mac) {
        Option::None => Seq::empty(),
        Option::Some(c) => match c.ip_address {
            Option::Some(ips) => if ips.len() > 0 {
                ips[0]
            } else {
                Seq::empty()
            },
            Option::None => Seq::empty(),
        },
    }
}

/// The entry built for an adapter that reports the hardware address `mac`.
pub open spec fn iface_spec(a: RawAdapterView, cs: Seq<RawConfigView>, mac: Seq<char>)
    -> NetworkInterfaceView {
    NetworkInterfaceView {
        name: normalize_opt_spec(a.name),
        mac_address: normalize_spec(mac),
        ip_address: ip_of(cs, mac),
    }
}

/// All entries, adapter by adapter in report order; adapters without a
/// hardware address are skipped.
pub open spec fn interfaces_spec(adapters: Seq<RawAdapterView>, cs: Seq<RawConfigView>) -> Seq<
    NetworkInterfaceView,
>
    decreases adapters.len(),
{
    if adapters.len() == 0 {
        Seq::empty()
    } else {
        let rest = interfaces_spec(adapters.drop_last(), cs);
        match adapters.last().mac_address {
            Option::None => rest,
            Option::Some(mac) => rest.push(iface_spec(adapters.last(), cs, mac)),
        }
    }
}

fn find_ip(configs: &Vec<RawNetworkConfig>, mac: &str) -> (r: String)
    ensures
        r@ == ip_of(configs.deep_view(), mac@),
{
    let n = configs.len();
    let mut i: usize = 0;
    while i < n
        invariant
            0 <= i <= n,
            n == configs@.len(),
            configs.deep_view().len() == n,
            forall|k: int|
                0 <= k < i ==> (#[trigger] configs.deep_view()[k]).mac_address != Option::Some(
                    mac@,
                ),
        decreases n - i,
    {
        proof {
            assert(configs.deep_view()[i as int] == configs@[i as int]@);
        }
        let matches = match &configs[i].mac_address {
            Option::Some(m) => str_eq(m.as_str(), mac),
            Option::None => false,
        };
        if matches {
            proof {
                lemma_find_config(configs.deep_view(), mac@, i as int);
            }
            let r: String = match &configs[i].ip_address {
                Option::Some(ips) => {
                    if ips.len() > 0 {
                        proof {
                            assert(ips.deep_view()[0] == ips@[0]@);
                        }
                        ips[0].clone()
                    } else {
                        String::new()
                    }
                },
                Option::None => String::new(),
            };
            return r;
        }
        i += 1;
    }
    proof {
        lemma_find_config(configs.deep_view(), mac@, n as int);
    }
    String::new()
}

impl NetworkInfo {
    /// Builds the normalized adapter list from raw inventory records.
    pub fn collect(adapters: &Vec<RawNetworkAdapter>, configs: &Vec<RawNetworkConfig>) -> (info:
        NetworkInfo)
        ensures
            info@ == interfaces_spec(adapters.deep_view(), configs.deep_view()),
            forall|i: int| 0 <= i < info@.len() ==> (#[trigger] info@[i]).wf(),
    {
        let n = adapters.len();
        let mut interfaces: Vec<NetworkInterface> = Vec::new();
        let mut i: usize = 0;
        while i < n
            invariant
                0 <= i <= n,
                n == adapters@.len(),
                adapters.deep_view().len() == n,
                interfaces.deep_view() =~= interfaces_spec(
                    adapters.deep_view().take(i as int),
                    configs.deep_view(),
                ),
                forall|k: int|
                    0 <= k < interfaces.deep_view().len() ==> (#[trigger] interfaces.deep_view()[
                        k
                    ]).wf(),
            decreases n - i,
        {
            proof {
                assert(adapters.deep_view()[i as int] == adapters@[i as int]@);
                assert(adapters.deep_view().take(i + 1).drop_last() =~= adapters.deep_view().take(
                    i as int,
                ));
                assert(adapters.deep_view().take(i + 1).last() == adapters.deep_view()[i as int]);
            }
            match &adapters[i].mac_address {
                Option::None => {},
                Option::Some(mac) => {
                    let entry = NetworkInterface {
                        name: normalize_opt(&adapters[i].name),
                        mac_address: normalize(mac.as_str()),
                        ip_address: find_ip(configs, mac.as_str()),
                    };
                    proof {
                        lemma_normalize_opt_normalized(opt_view(adapters[i as int].name));
                        lemma_normalize_normalized(mac@);
                        assert(entry@ =~= iface_spec(
                            adapters.deep_view()[i as int],
                            configs.deep_view(),
                            mac@,
                        ));
                    }
                    let ghost pre = interfaces.deep_view();
                    let ghost ev = entry@;
                    interfaces.push(entry);
                    proof {
                        assert(interfaces.deep_view() =~= pre.push(ev));
                    }
                },
            }
            i += 1;
        }
        proof {
            assert(adapters.deep_view().take(n as int) =~= adapters.deep_view());
        }
        NetworkInfo { interfaces }
    }
}

impl Default for NetworkInfo {
    /// No adapters recorded.
    fn default() -> (d: Self)
        ensures
            d@ == Seq::<NetworkInterfaceView>::empty(),
    {
        let d = NetworkInfo { interfaces: Vec::new() };
        proof {
            assert(d@ =~= Seq::<NetworkInterfaceView>::empty());
        }
        d
    }
}

} // verus!
