//! The fixed set of display tabs, one per identity category.

use vstd::prelude::*;

verus! {

/// One display tab per identity category.
#[derive(Debug, Clone, Copy, PartialEq, Eq, Structural)]
pub enum Tab {
    System,
    Bios,
    Baseboard,
    Disk,
    Processor,
    Chassis,
    Network,
    Monitor,
    Gpu,
}

/// The fixed tab order.
pub open spec fn tab_order() -> Seq<Tab> {
    seq![
        Tab::System,
        Tab::Bios,
        Tab::Baseboard,
        Tab::Disk,
        Tab::Processor,
        Tab::Chassis,
        Tab::Network,
        Tab::Monitor,
        Tab::Gpu,
    ]
}

/// The display label of each tab.
pub open spec fn tab_label(t: Tab) -> Seq<char> {
    match t {
        Tab::System => "System"@,
        Tab::Bios => "BIOS"@,
        Tab::Baseboard => "Baseboard"@,
        Tab::Disk => "Disk"@,
        Tab::Processor => "Processor"@,
        Tab::Chassis => "Chassis"@,
        Tab::Network => "Network"@,
        Tab::Monitor => "Monitor"@,
        Tab::Gpu => "GPU"@,
    }
}

/// The icon of each tab.
pub open spec fn tab_icon(t: Tab) -> Seq<char> {
    match t {
        Tab::System => "💻"@,
        Tab::Bios => "🔧"@,
        Tab::Baseboard => "🔌"@,
        Tab::Disk => "💾"@,
        Tab::Processor => "⚡"@,
        Tab::Chassis => "📦"@,
        Tab::Network => "🌐"@,
        Tab::Monitor => "🖥️"@,
        Tab::Gpu => "🎮"@,
    }
}

impl Tab {
    /// Every tab, in display order.
    pub fn all() -> (r: Vec<Tab>)
        ensures
            r@ == tab_order(),
    {
        let mut r: Vec<Tab> = Vec::new();
        r.push(Tab::System);
        r.push(Tab::Bios);
        r.push(Tab::Baseboard);
        r.push(Tab::Disk);
        r.push(Tab::Processor);
        r.push(Tab::Chassis);
        r.push(Tab::Network);
        r.push(Tab::Monitor);
        r.push(Tab::Gpu);
        proof {
            assert(r@ =~= tab_order());
        }
        r
    }

    /// The tab's display label.
    pub fn label(&self) -> (r: &'static str)
        ensures
            r@ == tab_label(*self),
    {
        match self {
            Tab::System => "System",
            Tab::Bios => "BIOS",
            Tab::Baseboard => "Baseboard",
            Tab::Disk => "Disk",
            Tab::Processor => "Processor",
            Tab::Chassis => "Chassis",
            Tab::Network => "Network",
            Tab::Monitor => "Monitor",
            Tab::Gpu => "GPU",
        }
    }

    /// The tab's icon.
    pub fn icon(&self) -> (r: &'static str)
        ensures
            r@ == tab_icon(*self),
    {
        match self {
            Tab::System => "💻",
            Tab::Bios => "🔧",
            Tab::Baseboard => "🔌",
            Tab::Disk => "💾",
            Tab::Processor => "⚡",
            Tab::Chassis => "📦",
            Tab::Network => "🌐",
            Tab::Monitor => "🖥️",
            Tab::Gpu => "🎮",
        }
    }
}

} // verus!
