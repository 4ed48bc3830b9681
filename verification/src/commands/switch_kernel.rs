//! Switching between the alternate kernels. These transitions change
//! markers only: the updater installs what the markers name.

use vstd::prelude::*;
use crate::engine::Engine;
use crate::engine::EngineView;
use crate::engine::ToggleRequest;
use crate::feature::Direction;
use crate::feature::Feature;
use crate::variants::XanmodVariants;

verus! {

/// The engine that enables the flagged XanMod variants, or the stable
/// variant where no flag is set: one `xanmod-<variant>` marker each, in
/// canonical order.
pub fn enable_xanmod(variants: &XanmodVariants) -> (engine: Engine)
    ensures
        engine@ == EngineView::initial(ToggleRequest::spec_xanmod(*variants, Direction::Enable)),
        engine@.wf(),
{
    Engine::new(ToggleRequest::xanmod(*variants, Direction::Enable))
}

/// The engine that enables the Liquorix kernel.
pub fn enable_liquorix() -> (engine: Engine)
    ensures
        engine@ == EngineView::initial(
            ToggleRequest::spec_single(Feature::Liquorix, Direction::Enable),
        ),
        engine@.wf(),
{
    Engine::new(ToggleRequest::single(Feature::Liquorix, Direction::Enable))
}

/// The engine that enables the Linux-libre kernel.
pub fn enable_libre() -> (engine: Engine)
    ensures
        engine@ == EngineView::initial(
            ToggleRequest::spec_single(Feature::Libre, Direction::Enable),
        ),
        engine@.wf(),
{
    Engine::new(ToggleRequest::single(Feature::Libre, Direction::Enable))
}

/// The engine that disables the flagged XanMod variants, or the stable
/// variant where no flag is set.
pub fn disable_xanmod(variants: &XanmodVariants) -> (engine: Engine)
    ensures
        engine@ == EngineView::initial(ToggleRequest::spec_xanmod(*variants, Direction::Disable)),
        engine@.wf(),
{
    Engine::new(ToggleRequest::xanmod(*variants, Direction::Disable))
}

/// The engine that disables the Liquorix kernel.
pub fn disable_liquorix() -> (engine: Engine)
    ensures
        engine@ == EngineView::initial(
            ToggleRequest::spec_single(Feature::Liquorix, Direction::Disable),
        ),
        engine@.wf(),
{
    Engine::new(ToggleRequest::single(Feature::Liquorix, Direction::Disable))
}

/// The engine that disables the Linux-libre kernel.
pub fn disable_libre() -> (engine: Engine)
    ensures
        engine@ == EngineView::initial(
            ToggleRequest::spec_single(Feature::Libre, Direction::Disable),
        ),
        engine@.wf(),
{
    Engine::new(ToggleRequest::single(Feature::Libre, Direction::Disable))
}

} // verus!
