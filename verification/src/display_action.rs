//! Display actions: the ordered outbox of intents that the display-server
//! adapter executes.  The core only appends; the adapter only drains, and
//! actions queued while one event is processed execute first pushed, first
//! executed.

use vstd::prelude::*;

use crate::command::Keybind;
use crate::models::TagId;
use crate::models::Window;
use crate::models::WindowHandle;

verus! {

/// An intent record queued for the display-server adapter.
#[derive(Clone, Debug)]
pub enum DisplayAction {
    /// Re-grab the key chords, carrying the currently mapped bindings.
    ReloadKeyGrabs(Vec<Keybind>),
    /// Leave any modal state on the server side.
    NormalMode,
    /// Send a window a synthetic configure notice carrying a snapshot of its
    /// current state.
    ConfigureXlibWindow(Window),
    /// Announce the newly active tag.
    SetCurrentTags(TagId),
    /// Hand input focus to the window.
    WindowTakeFocus(WindowHandle),
    /// Prepare the server for an interactive window move.
    ReadyToMoveWindow(WindowHandle),
    /// Prepare the server for an interactive window resize.
    ReadyToResizeWindow(WindowHandle),
    /// Apply a recomputed placement to the window.
    UpdateWindow(Window),
}

} // verus!
