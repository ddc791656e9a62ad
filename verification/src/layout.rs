//! The sections of the window and the navigation between them.
use vstd::prelude::*;

verus! {

/// A section of the window.
#[derive(Clone, Copy, Debug, PartialEq, Eq, Structural)]
pub enum Section {
    Containers,
    Images,
    Volumes,
    Networks,
    Engine,
    VirtualEnvironment,
    Monitoring,
    NetworkManager,
    RemoteDesktop,
}

/// An entry of the sidebar.
pub struct NavItem {
    pub section: Section,
    pub label: &'static str,
    pub icon: &'static str,
}

/// The sections the sidebar links to, in order.
pub open spec fn nav_sections() -> Seq<Section> {
    seq![
        Section::Containers,
        Section::Images,
        Section::Volumes,
        Section::Networks,
        Section::Engine,
        Section::VirtualEnvironment,
        Section::Monitoring,
        Section::RemoteDesktop,
    ]
}

/// The sidebar's labels, in order.
pub open spec fn nav_labels() -> Seq<Seq<char>> {
    seq![
        "Containers"@,
        "Images"@,
        "Volumes"@,
        "Networks"@,
        "Engine"@,
        "Virtual Envs"@,
        "Monitoring"@,
        "Remote Desktop"@,
    ]
}

/// The sidebar's icons, in order.
pub open spec fn nav_icons() -> Seq<Seq<char>> {
    seq!["⬢"@, "⬡"@, "⬢"@, "⬡"@, "⚙"@, "◈"@, "◉"@, "⧉"@]
}

fn nav(section: Section, label: &'static str, icon: &'static str) -> (r: NavItem)
    ensures
        r.section == section,
        r.label@ == label@,
        r.icon@ == icon@,
{
    NavItem { section, label, icon }
}

/// The sidebar's entries: every section but the network manager, each
/// with its label and icon.
pub fn items() -> (r: Vec<NavItem>)
    ensures
        r@.len() == 8,
        forall|i: int|
            0 <= i < 8 ==> #[trigger] r@[i].section == nav_sections()[i] && r@[i].label@
                == nav_labels()[i] && r@[i].icon@ == nav_icons()[i],
{
    let r = vec![
        nav(Section::Containers, "Containers", "⬢"),
        nav(Section::Images, "Images", "⬡"),
        nav(Section::Volumes, "Volumes", "⬢"),
        nav(Section::Networks, "Networks", "⬡"),
        nav(Section::Engine, "Engine", "⚙"),
        nav(Section::VirtualEnvironment, "Virtual Envs", "◈"),
        nav(Section::Monitoring, "Monitoring", "◉"),
        nav(Section::RemoteDesktop, "Remote Desktop", "⧉"),
    ];
    r
}

/// The class of a sidebar entry: marked active when it links to the
/// section shown.
pub fn nav_item_class(item: Section, current: Section) -> (r: &'static str)
    ensures
        r@ == (if item == current {
            "sidebar-item sidebar-item-active"@
        } else {
            "sidebar-item"@
        }),
{
    if item == current {
        "sidebar-item sidebar-item-active"
    } else {
        "sidebar-item"
    }
}

} // verus!
