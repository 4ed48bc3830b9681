//! The variant resolver: from the variant flags of a XanMod request to the
//! variants it concerns.

use vstd::prelude::*;
use crate::feature::Direction;
use crate::feature::Variant;

verus! {

/// The variant flags of a XanMod request. Any number of them may be set.
#[derive(Clone, Copy, Debug, PartialEq, Eq, Structural)]
pub struct XanmodVariants {
    /// Stable variant
    pub stable: bool,
    /// Mainline variant
    pub edge: bool,
    /// Long-Term-Support variant
    pub lts: bool,
    /// Realtime variant
    pub realtime: bool,
    /// Uses the Task Type CPU scheduler
    pub tasktype: bool,
    /// Realtime variant of the edge kernel
    pub realtime_edge: bool,
}

impl Default for XanmodVariants {
    fn default() -> (flags: XanmodVariants)
        ensures
            flags.spec_is_empty(),
    {
        XanmodVariants {
            stable: false,
            edge: false,
            lts: false,
            realtime: false,
            tasktype: false,
            realtime_edge: false,
        }
    }
}

/// The sequence that holds `variant` if `flag` is set, and nothing otherwise.
pub open spec fn pick(flag: bool, variant: Variant) -> Seq<Variant> {
    if flag {
        seq![variant]
    } else {
        Seq::empty()
    }
}

impl XanmodVariants {
    /// Whether the flag of `variant` is set.
    pub open spec fn spec_has(self, variant: Variant) -> bool {
        match variant {
            Variant::Stable => self.stable,
            Variant::Edge => self.edge,
            Variant::Lts => self.lts,
            Variant::Realtime => self.realtime,
            Variant::RealtimeEdge => self.realtime_edge,
            Variant::Tasktype => self.tasktype,
        }
    }

    /// Whether the flag of `variant` is set.
    pub fn has(&self, variant: Variant) -> (set: bool)
        ensures
            set == self.spec_has(variant),
    {
        match variant {
            Variant::Stable => self.stable,
            Variant::Edge => self.edge,
            Variant::Lts => self.lts,
            Variant::Realtime => self.realtime,
            Variant::RealtimeEdge => self.realtime_edge,
            Variant::Tasktype => self.tasktype,
        }
    }

    /// Whether no flag is set.
    pub open spec fn spec_is_empty(self) -> bool {
        forall|v: Variant| !self.spec_has(v)
    }

    /// Whether no flag is set.
    pub fn is_empty(&self) -> (empty: bool)
        ensures
            empty == self.spec_is_empty(),
    {
        let empty = !self.stable && !self.edge && !self.lts && !self.realtime
            && !self.realtime_edge && !self.tasktype;
        proof {
            if !empty {
                assert(self.spec_has(Variant::Stable) || self.spec_has(Variant::Edge)
                    || self.spec_has(Variant::Lts) || self.spec_has(Variant::Realtime)
                    || self.spec_has(Variant::RealtimeEdge) || self.spec_has(Variant::Tasktype));
            }
        }
        empty
    }

    /// The flagged variants among the first `n` of the canonical order, in
    /// that order.
    pub open spec fn spec_flagged_below(self, n: nat) -> Seq<Variant>
        decreases n,
    {
        if n == 0 {
            Seq::empty()
        } else {
            let last = Variant::spec_of_rank((n - 1) as nat);
            self.spec_flagged_below((n - 1) as nat) + pick(self.spec_has(last), last)
        }
    }

    /// The variants whose flags are set, in canonical order.
    pub open spec fn spec_flagged(self) -> Seq<Variant> {
        pick(self.stable, Variant::Stable) + pick(self.edge, Variant::Edge) + pick(
            self.lts,
            Variant::Lts,
        ) + pick(self.realtime, Variant::Realtime) + pick(
            self.realtime_edge,
            Variant::RealtimeEdge,
        ) + pick(self.tasktype, Variant::Tasktype)
    }

    /// The variants a request with these flags concerns: the stable variant
    /// alone where no flag is set, else the flagged variants in canonical
    /// order.
    pub open spec fn spec_expand(self) -> Seq<Variant> {
        if self.spec_is_empty() {
            seq![Variant::Stable]
        } else {
            self.spec_flagged()
        }
    }
}

/// Expands the variant flags of a request into the variants it concerns:
/// the stable variant alone where no flag is set, else one entry per set
/// flag in the order stable, edge, lts, realtime, realtime-edge, tasktype.
/// The direction plays no part in the result.
pub fn expand(requested: &XanmodVariants, direction: Direction) -> (variants: Vec<Variant>)
    ensures
        variants@ == requested.spec_expand(),
{
    let mut variants: Vec<Variant> = Vec::new();
    if requested.is_empty() {
        variants.push(Variant::Stable);
        assert(variants@ =~= seq![Variant::Stable]);
        return variants;
    }
    let mut rank: usize = 0;
    while rank < 6
        invariant
            rank <= 6,
            variants@ == requested.spec_flagged_below(rank as nat),
        decreases 6 - rank,
    {
        let variant = Variant::of_rank(rank);
        if requested.has(variant) {
            variants.push(variant);
        }
        assert(variants@ =~= requested.spec_flagged_below(rank as nat) + pick(
            requested.spec_has(variant),
            variant,
        ));
        rank = rank + 1;
    }
    proof {
        lemma_flagged_unfolds(*requested);
    }
    variants
}

/// The flagged variants among all six are the flagged variants.
pub proof fn lemma_flagged_unfolds(requested: XanmodVariants)
    ensures
        requested.spec_flagged_below(6) == requested.spec_flagged(),
{
    reveal_with_fuel(XanmodVariants::spec_flagged_below, 7);
    assert(requested.spec_flagged_below(6) =~= requested.spec_flagged());
}

/// The expansion is never empty, holds at most one entry per variant, and
/// is in canonical order: ranks strictly increase along it.
pub proof fn lemma_expand_ordered(requested: XanmodVariants)
    ensures
        1 <= requested.spec_expand().len() <= 6,
        forall|i: int, j: int|
            0 <= i < j < requested.spec_expand().len() ==> requested.spec_expand()[i].spec_rank()
                < requested.spec_expand()[j].spec_rank(),
        requested.spec_expand().no_duplicates(),
{
    let e = requested.spec_expand();
    lemma_flagged_unfolds(requested);
    if !requested.spec_is_empty() {
        lemma_flagged_below(requested, 6);
        let v = choose|v: Variant| requested.spec_has(v);
        assert(e.contains(v));
    }
    assert forall|i: int, j: int| 0 <= i < e.len() && 0 <= j < e.len() && i != j implies e[i]
        != e[j] by {
        if i < j {
            assert(e[i].spec_rank() < e[j].spec_rank());
        } else {
            assert(e[j].spec_rank() < e[i].spec_rank());
        }
    }
}

/// With at least one flag set, the expansion holds exactly the flagged
/// variants; with none set, exactly the stable variant.
pub proof fn lemma_expand_members(requested: XanmodVariants, variant: Variant)
    ensures
        requested.spec_expand().contains(variant) <==> if requested.spec_is_empty() {
            variant == Variant::Stable
        } else {
            requested.spec_has(variant)
        },
{
    let e = requested.spec_expand();
    lemma_flagged_unfolds(requested);
    if requested.spec_is_empty() {
        assert(e[0] == Variant::Stable);
    } else {
        lemma_flagged_below(requested, 6);
    }
}

/// The flagged variants among the first `n` are in canonical order, and are
/// exactly the variants below rank `n` whose flags are set.
pub proof fn lemma_flagged_below(requested: XanmodVariants, n: nat)
    requires
        n <= 6,
    ensures
        requested.spec_flagged_below(n).len() <= n,
        forall|i: int, j: int|
            0 <= i < j < requested.spec_flagged_below(n).len() ==> requested.spec_flagged_below(
                n,
            )[i].spec_rank() < requested.spec_flagged_below(n)[j].spec_rank(),
        forall|v: Variant|
            #[trigger] requested.spec_flagged_below(n).contains(v) <==> (requested.spec_has(v)
                && v.spec_rank() < n),
    decreases n,
{
    if n > 0 {
        let m = (n - 1) as nat;
        let last = Variant::spec_of_rank(m);
        let s = requested.spec_flagged_below(m);
        let t = requested.spec_flagged_below(n);
        lemma_flagged_below(requested, m);
        assert(t == s + pick(requested.spec_has(last), last));
        assert(last.spec_rank() == m);
        assert forall|i: int| 0 <= i < s.len() implies s[i].spec_rank() < m by {
            assert(s.contains(s[i]));
        }
        assert forall|v: Variant|
            #[trigger] t.contains(v) <==> (requested.spec_has(v) && v.spec_rank() < n) by {
            if s.contains(v) {
                let i = choose|i: int| 0 <= i < s.len() && s[i] == v;
                assert(t[i] == v);
            }
            if requested.spec_has(v) && v.spec_rank() == m {
                assert(v == last);
                assert(t[s.len() as int] == v);
            }
        }
    }
}

} // verus!
