//! Disabling the single-valued features.

use vstd::prelude::*;
use crate::engine::Engine;
use crate::engine::EngineView;
use crate::engine::ToggleRequest;
use crate::feature::Direction;
use crate::feature::Feature;

verus! {

/// The engine that disables Pacstall: it removes the `pacstall` marker,
/// then fetches and runs the uninstall script.
pub fn pacstall() -> (engine: Engine)
    ensures
        engine@ == EngineView::initial(
            ToggleRequest::spec_single(Feature::Pacstall, Direction::Disable),
        ),
        engine@.wf(),
{
    Engine::new(ToggleRequest::single(Feature::Pacstall, Direction::Disable))
}

/// The engine that brings snapd back: it removes the `snapdpurge` marker,
/// then reinstalls snapd and releases the hold on it.
pub fn snapdpurge() -> (engine: Engine)
    ensures
        engine@ == EngineView::initial(
            ToggleRequest::spec_single(Feature::Snapdpurge, Direction::Disable),
        ),
        engine@.wf(),
{
    Engine::new(ToggleRequest::single(Feature::Snapdpurge, Direction::Disable))
}

} // verus!
