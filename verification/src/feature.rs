//! Features, kernel variants and the marker keys they are stored under.

use vstd::prelude::*;

verus! {

/// The direction of a toggle request.
#[derive(Clone, Copy, Debug, PartialEq, Eq, Structural)]
pub enum Direction {
    Enable,
    Disable,
}

/// The state a marker key is in: its marker is present or absent.
#[derive(Clone, Copy, Debug, PartialEq, Eq, Structural)]
pub enum MarkerState {
    Enabled,
    Disabled,
}

/// A toggleable feature.
#[derive(Clone, Copy, Debug, PartialEq, Eq, Structural)]
pub enum Feature {
    /// The mainline kernel.
    Mainline,
    /// The Pacstall package manager.
    Pacstall,
    /// Removal of snapd in favour of Flatpak.
    Snapdpurge,
    /// The XanMod kernel, in one or more variants.
    Xanmod,
    /// The Liquorix kernel.
    Liquorix,
    /// The Linux-libre kernel.
    Libre,
}

/// A build variant of the XanMod kernel.
#[derive(Clone, Copy, Debug, PartialEq, Eq, Structural)]
pub enum Variant {
    Stable,
    Edge,
    Lts,
    Realtime,
    RealtimeEdge,
    Tasktype,
}

/// The key of one marker: a single-valued feature, or one XanMod variant.
#[derive(Clone, Copy, Debug, PartialEq, Eq, Structural)]
pub enum MarkerKey {
    Mainline,
    Pacstall,
    Snapdpurge,
    Liquorix,
    Libre,
    Xanmod(Variant),
}

impl Direction {
    /// The state that a transition in this direction leads to, which is also
    /// the state from which it is illegal.
    pub open spec fn spec_target(self) -> MarkerState {
        match self {
            Direction::Enable => MarkerState::Enabled,
            Direction::Disable => MarkerState::Disabled,
        }
    }

    /// The state that a transition in this direction leads to.
    pub fn target(self) -> (state: MarkerState)
        ensures
            state == self.spec_target(),
    {
        match self {
            Direction::Enable => MarkerState::Enabled,
            Direction::Disable => MarkerState::Disabled,
        }
    }
}

impl Feature {
    /// The feature's name as the user writes it.
    pub open spec fn spec_name(self) -> Seq<char> {
        match self {
            Feature::Mainline => "mainline"@,
            Feature::Pacstall => "pacstall"@,
            Feature::Snapdpurge => "snapdpurge"@,
            Feature::Xanmod => "xanmod"@,
            Feature::Liquorix => "liquorix"@,
            Feature::Libre => "libre"@,
        }
    }

    /// The feature's name as the user writes it.
    pub fn name(self) -> (name: &'static str)
        ensures
            name@ == self.spec_name(),
    {
        match self {
            Feature::Mainline => "mainline",
            Feature::Pacstall => "pacstall",
            Feature::Snapdpurge => "snapdpurge",
            Feature::Xanmod => "xanmod",
            Feature::Liquorix => "liquorix",
            Feature::Libre => "libre",
        }
    }

    /// The marker key of a single-valued feature; `None` for the XanMod
    /// kernel, whose keys are per variant.
    pub open spec fn spec_single_key(self) -> Option<MarkerKey> {
        match self {
            Feature::Mainline => Some(MarkerKey::Mainline),
            Feature::Pacstall => Some(MarkerKey::Pacstall),
            Feature::Snapdpurge => Some(MarkerKey::Snapdpurge),
            Feature::Xanmod => None,
            Feature::Liquorix => Some(MarkerKey::Liquorix),
            Feature::Libre => Some(MarkerKey::Libre),
        }
    }

    /// The marker key of a single-valued feature; `None` for the XanMod
    /// kernel, whose keys are per variant.
    pub fn single_key(self) -> (key: Option<MarkerKey>)
        ensures
            key == self.spec_single_key(),
    {
        match self {
            Feature::Mainline => Some(MarkerKey::Mainline),
            Feature::Pacstall => Some(MarkerKey::Pacstall),
            Feature::Snapdpurge => Some(MarkerKey::Snapdpurge),
            Feature::Xanmod => None,
            Feature::Liquorix => Some(MarkerKey::Liquorix),
            Feature::Libre => Some(MarkerKey::Libre),
        }
    }
}

impl Variant {
    /// The variant's name as the user writes it.
    pub open spec fn spec_name(self) -> Seq<char> {
        match self {
            Variant::Stable => "stable"@,
            Variant::Edge => "edge"@,
            Variant::Lts => "lts"@,
            Variant::Realtime => "realtime"@,
            Variant::RealtimeEdge => "realtime-edge"@,
            Variant::Tasktype => "tasktype"@,
        }
    }

    /// The variant's name as the user writes it.
    pub fn name(self) -> (name: &'static str)
        ensures
            name@ == self.spec_name(),
    {
        match self {
            Variant::Stable => "stable",
            Variant::Edge => "edge",
            Variant::Lts => "lts",
            Variant::Realtime => "realtime",
            Variant::RealtimeEdge => "realtime-edge",
            Variant::Tasktype => "tasktype",
        }
    }

    /// The variant's place in the canonical order: stable, edge, lts,
    /// realtime, realtime-edge, tasktype.
    pub open spec fn spec_rank(self) -> nat {
        match self {
            Variant::Stable => 0,
            Variant::Edge => 1,
            Variant::Lts => 2,
            Variant::Realtime => 3,
            Variant::RealtimeEdge => 4,
            Variant::Tasktype => 5,
        }
    }

    /// The variant at a place in the canonical order.
    pub open spec fn spec_of_rank(rank: nat) -> Variant {
        if rank == 0 {
            Variant::Stable
        } else if rank == 1 {
            Variant::Edge
        } else if rank == 2 {
            Variant::Lts
        } else if rank == 3 {
            Variant::Realtime
        } else if rank == 4 {
            Variant::RealtimeEdge
        } else {
            Variant::Tasktype
        }
    }

    /// The variant at a place in the canonical order; the last one for a
    /// rank beyond it.
    pub fn of_rank(rank: usize) -> (variant: Variant)
        ensures
            variant == Variant::spec_of_rank(rank as nat),
            rank < 6 ==> variant.spec_rank() == rank,
    {
        if rank == 0 {
            Variant::Stable
        } else if rank == 1 {
            Variant::Edge
        } else if rank == 2 {
            Variant::Lts
        } else if rank == 3 {
            Variant::Realtime
        } else if rank == 4 {
            Variant::RealtimeEdge
        } else {
            Variant::Tasktype
        }
    }

    /// The variant's place in the canonical order.
    pub fn rank(self) -> (rank: usize)
        ensures
            rank == self.spec_rank(),
    {
        match self {
            Variant::Stable => 0,
            Variant::Edge => 1,
            Variant::Lts => 2,
            Variant::Realtime => 3,
            Variant::RealtimeEdge => 4,
            Variant::Tasktype => 5,
        }
    }
}

impl MarkerKey {
    /// The feature that the key belongs to.
    pub open spec fn spec_feature(self) -> Feature {
        match self {
            MarkerKey::Mainline => Feature::Mainline,
            MarkerKey::Pacstall => Feature::Pacstall,
            MarkerKey::Snapdpurge => Feature::Snapdpurge,
            MarkerKey::Liquorix => Feature::Liquorix,
            MarkerKey::Libre => Feature::Libre,
            MarkerKey::Xanmod(_) => Feature::Xanmod,
        }
    }

    /// The feature that the key belongs to.
    pub fn feature(self) -> (feature: Feature)
        ensures
            feature == self.spec_feature(),
    {
        match self {
            MarkerKey::Mainline => Feature::Mainline,
            MarkerKey::Pacstall => Feature::Pacstall,
            MarkerKey::Snapdpurge => Feature::Snapdpurge,
            MarkerKey::Liquorix => Feature::Liquorix,
            MarkerKey::Libre => Feature::Libre,
            MarkerKey::Xanmod(_) => Feature::Xanmod,
        }
    }

    /// The variant that the key stands for, if it is a XanMod key.
    pub open spec fn spec_variant(self) -> Option<Variant> {
        match self {
            MarkerKey::Xanmod(v) => Some(v),
            _ => None,
        }
    }

    /// The variant that the key stands for, if it is a XanMod key.
    pub fn variant(self) -> (variant: Option<Variant>)
        ensures
            variant == self.spec_variant(),
    {
        match self {
            MarkerKey::Xanmod(v) => Some(v),
            _ => None,
        }
    }

    /// The name of the marker file in the configuration directory.
    pub open spec fn spec_name(self) -> Seq<char> {
        match self {
            MarkerKey::Mainline => "mainline"@,
            MarkerKey::Pacstall => "pacstall"@,
            MarkerKey::Snapdpurge => "snapdpurge"@,
            MarkerKey::Liquorix => "liquorix"@,
            MarkerKey::Libre => "libre"@,
            MarkerKey::Xanmod(Variant::Stable) => "xanmod-stable"@,
            MarkerKey::Xanmod(Variant::Edge) => "xanmod-edge"@,
            MarkerKey::Xanmod(Variant::Lts) => "xanmod-lts"@,
            MarkerKey::Xanmod(Variant::Realtime) => "xanmod-realtime"@,
            MarkerKey::Xanmod(Variant::RealtimeEdge) => "xanmod-realtime-edge"@,
            MarkerKey::Xanmod(Variant::Tasktype) => "xanmod-tasktype"@,
        }
    }

    /// The name of the marker file in the configuration directory.
    pub fn name(self) -> (name: &'static str)
        ensures
            name@ == self.spec_name(),
    {
        match self {
            MarkerKey::Mainline => "mainline",
            MarkerKey::Pacstall => "pacstall",
            MarkerKey::Snapdpurge => "snapdpurge",
            MarkerKey::Liquorix => "liquorix",
            MarkerKey::Libre => "libre",
            MarkerKey::Xanmod(Variant::Stable) => "xanmod-stable",
            MarkerKey::Xanmod(Variant::Edge) => "xanmod-edge",
            MarkerKey::Xanmod(Variant::Lts) => "xanmod-lts",
            MarkerKey::Xanmod(Variant::Realtime) => "xanmod-realtime",
            MarkerKey::Xanmod(Variant::RealtimeEdge) => "xanmod-realtime-edge",
            MarkerKey::Xanmod(Variant::Tasktype) => "xanmod-tasktype",
        }
    }

    /// The key's place among the eleven keys: the single-valued features
    /// first, then the XanMod variants in canonical order.
    pub open spec fn spec_index(self) -> nat {
        match self {
            MarkerKey::Mainline => 0,
            MarkerKey::Pacstall => 1,
            MarkerKey::Snapdpurge => 2,
            MarkerKey::Liquorix => 3,
            MarkerKey::Libre => 4,
            MarkerKey::Xanmod(v) => 5 + v.spec_rank(),
        }
    }

    /// The key's place among the eleven keys.
    pub fn index(self) -> (index: usize)
        ensures
            index == self.spec_index(),
            index < KEY_COUNT,
    {
        match self {
            MarkerKey::Mainline => 0,
            MarkerKey::Pacstall => 1,
            MarkerKey::Snapdpurge => 2,
            MarkerKey::Liquorix => 3,
            MarkerKey::Libre => 4,
            MarkerKey::Xanmod(v) => 5 + v.rank(),
        }
    }
}

/// The number of marker keys.
pub const KEY_COUNT: usize = 11;

/// Every XanMod marker is named `xanmod-` followed by the variant's name.
pub proof fn lemma_xanmod_marker_name(variant: Variant)
    ensures
        MarkerKey::Xanmod(variant).spec_name() == "xanmod-"@ + variant.spec_name(),
{
    reveal_strlit("xanmod-");
    reveal_strlit("stable");
    reveal_strlit("edge");
    reveal_strlit("lts");
    reveal_strlit("realtime");
    reveal_strlit("realtime-edge");
    reveal_strlit("tasktype");
    reveal_strlit("xanmod-stable");
    reveal_strlit("xanmod-edge");
    reveal_strlit("xanmod-lts");
    reveal_strlit("xanmod-realtime");
    reveal_strlit("xanmod-realtime-edge");
    reveal_strlit("xanmod-tasktype");
    assert(MarkerKey::Xanmod(variant).spec_name() =~= "xanmod-"@ + variant.spec_name());
}

/// Two keys with the same place among the keys are the same key.
pub proof fn lemma_index_injective(a: MarkerKey, b: MarkerKey)
    requires
        a.spec_index() == b.spec_index(),
    ensures
        a == b,
{
}

/// Distinct keys are stored under distinct marker names.
pub proof fn lemma_marker_names_distinct(a: MarkerKey, b: MarkerKey)
    requires
        a != b,
    ensures
        a.spec_name() != b.spec_name(),
{
    reveal_strlit("mainline");
    reveal_strlit("pacstall");
    reveal_strlit("snapdpurge");
    reveal_strlit("liquorix");
    reveal_strlit("libre");
    reveal_strlit("xanmod-stable");
    reveal_strlit("xanmod-edge");
    reveal_strlit("xanmod-lts");
    reveal_strlit("xanmod-realtime");
    reveal_strlit("xanmod-realtime-edge");
    reveal_strlit("xanmod-tasktype");
    let x = a.spec_name();
    let y = b.spec_name();
    if x == y {
        assert(x.len() == y.len());
        assert(x[0] == y[0]);
        assert(x[7] == y[7]);
    }
}

} // verus!
