//! Display events: discrete notifications from the windowing protocol layer
//! that drive the core, delivered serially by the display-server adapter.

use vstd::prelude::*;

use crate::command::Command;
use crate::models::Screen;
use crate::models::Window;
use crate::models::WindowHandle;

verus! {

/// One notification from the display server.  The event handler dispatches
/// every variant; none is silently dropped.
#[derive(Clone, Debug)]
pub enum DisplayEvent {
    ScreenCreate(Screen),
    WindowCreate(Window, i32, i32),
    WindowChange(Window),
    MouseEnteredWindow(WindowHandle),
    KeyGrabReload,
    MoveFocusTo(i32, i32),
    VerifyFocusedAt(WindowHandle),
    WindowDestroy(WindowHandle),
    KeyCombo(u32, u32),
    SendCommand(Command),
    MouseCombo(u32, u32, WindowHandle),
    ChangeToNormalMode,
    Movement(WindowHandle, i32, i32),
    MoveWindow(WindowHandle, i32, i32),
    ResizeWindow(WindowHandle, i32, i32),
    ConfigureXlibWindow(WindowHandle),
}

} // verus!
