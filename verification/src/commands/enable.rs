//! Enabling the single-valued features.

use vstd::prelude::*;
use crate::engine::Engine;
use crate::engine::EngineView;
use crate::engine::ToggleRequest;
use crate::feature::Direction;
use crate::feature::Feature;

verus! {

/// The engine that enables Pacstall: it creates the `pacstall` marker, then
/// fetches and runs the install script.
pub fn pacstall() -> (engine: Engine)
    ensures
        engine@ == EngineView::initial(
            ToggleRequest::spec_single(Feature::Pacstall, Direction::Enable),
        ),
        engine@.wf(),
{
    Engine::new(ToggleRequest::single(Feature::Pacstall, Direction::Enable))
}

/// The engine that removes snapd in favour of Flatpak: it creates the
/// `snapdpurge` marker, then purges snapd, deletes the snapd cache and the
/// user's snap data, installs Flatpak and registers Flathub.
pub fn snapdpurge() -> (engine: Engine)
    ensures
        engine@ == EngineView::initial(
            ToggleRequest::spec_single(Feature::Snapdpurge, Direction::Enable),
        ),
        engine@.wf(),
{
    Engine::new(ToggleRequest::single(Feature::Snapdpurge, Direction::Enable))
}

} // verus!
