//! Passive data describing the desktop topology: screens, workspaces, tags,
//! windows, the modal state and the focus policy.

use vstd::prelude::*;

verus! {

/// Opaque identifier handed out by the display server for a window or for a
/// screen's root.
pub type WindowHandle = u64;

/// Tags are numbered starting at 1; an id is valid when it is at least 1 and
/// at most the number of configured tag labels.
pub type TagId = usize;

/// Whether a tag id refers to one of `n_tags` configured tags.
pub open spec fn valid_tag_id(tag: TagId, n_tags: int) -> bool {
    1 <= tag && tag <= n_tags
}

/// The rule governing how input focus follows the pointer or explicit action.
#[derive(Clone, Copy, Debug, PartialEq, Eq, Structural)]
pub enum FocusBehaviour {
    /// Focus follows the pointer and stale focus reports are re-validated.
    Sloppy,
    /// Focus changes only by click or command.
    ClickTo,
    /// Focus changes only by command.
    Driven,
}

/// The exclusive modal interaction state of the manager.  The handle of the
/// window being manipulated exists only while a modal state is active.
#[derive(Clone, Copy, Debug, PartialEq, Eq, Structural)]
pub enum Mode {
    Normal,
    MovingWindow(WindowHandle),
    ResizingWindow(WindowHandle),
}

/// Whether layouts are tracked per tag or per workspace.
#[derive(Clone, Copy, Debug, PartialEq, Eq, Structural)]
pub enum LayoutMode {
    Tag,
    Workspace,
}

/// A named window layout; the geometry math behind each name lives in the
/// layout engine, outside this core.
#[derive(Clone, Copy, Debug, PartialEq, Eq, Structural)]
pub enum Layout {
    MainAndVertStack,
    Monocle,
    EvenVertical,
}

/// One side of a workspace, for gutter placement.
#[derive(Clone, Copy, Debug, PartialEq, Eq, Structural)]
pub enum Side {
    Top,
    Bottom,
    Left,
    Right,
}

/// Reserved space on one side of a workspace.
#[derive(Clone, Copy, Debug, PartialEq, Eq, Structural)]
pub struct Gutter {
    pub side: Side,
    pub value: i32,
}

/// Margins around a window or workspace.
#[derive(Clone, Copy, Debug, PartialEq, Eq, Structural)]
pub struct Margins {
    pub top: u32,
    pub right: u32,
    pub bottom: u32,
    pub left: u32,
}

impl Margins {
    /// A uniform margin on all four sides.
    pub fn new(value: u32) -> (m: Margins)
        ensures
            m.top == value && m.right == value && m.bottom == value && m.left == value,
    {
        Margins { top: value, right: value, bottom: value, left: value }
    }
}

/// A width limit expressed in pixels.
#[derive(Clone, Copy, Debug, PartialEq, Eq, Structural)]
pub enum Size {
    Pixel(i32),
}

/// A scratchpad definition: a named command whose window is summoned and
/// dismissed on demand.
#[derive(Clone, Debug)]
pub struct ScratchPad {
    pub name: String,
    pub value: String,
}

/// A physical display surface.  Screens are created on `ScreenCreate` and
/// never destroyed during normal operation.
#[derive(Clone, Copy, Debug, PartialEq, Eq, Structural)]
pub struct Screen {
    pub root: WindowHandle,
    pub x: i32,
    pub y: i32,
    pub width: i32,
    pub height: i32,
}

impl Default for Screen {
    fn default() -> (s: Screen)
        ensures
            s == (Screen { root: 0, x: 0, y: 0, width: 800, height: 600 }),
    {
        Screen { root: 0, x: 0, y: 0, width: 800, height: 600 }
    }
}

/// A region of a screen with an active tag.  Windows are shown on a
/// workspace when their tag equals the workspace's active tag.
#[derive(Clone, Copy, Debug, PartialEq, Eq, Structural)]
pub struct Workspace {
    pub id: usize,
    /// The currently active tag of this workspace.
    pub tag: TagId,
    pub x: i32,
    pub y: i32,
    pub width: i32,
    pub height: i32,
}

/// A managed window: the display server's handle, its geometry, its floating
/// flag and its owning tag.
#[derive(Clone, Copy, Debug, PartialEq, Eq, Structural)]
pub struct Window {
    pub handle: WindowHandle,
    pub tag: TagId,
    pub floating: bool,
    pub visible: bool,
    pub x: i32,
    pub y: i32,
    pub width: i32,
    pub height: i32,
}

/// Whether the point `(px, py)` lies inside the rectangle anchored at
/// `(rx, ry)` with extent `rw` by `rh`.
pub open spec fn rect_contains(rx: i32, ry: i32, rw: i32, rh: i32, px: i32, py: i32) -> bool {
    rx <= px && px < rx + rw && ry <= py && py < ry + rh
}

pub open spec fn workspace_contains_point(ws: Workspace, x: i32, y: i32) -> bool {
    rect_contains(ws.x, ws.y, ws.width, ws.height, x, y)
}

pub open spec fn window_contains_point(w: Window, x: i32, y: i32) -> bool {
    rect_contains(w.x, w.y, w.width, w.height, x, y)
}

/// The index of the first workspace containing the point, scanning in
/// declaration order.
pub open spec fn first_workspace_at_point(wss: Seq<Workspace>, x: i32, y: i32) -> Option<int>
    decreases wss.len(),
{
    if wss.len() == 0 {
        None
    } else if workspace_contains_point(wss[0], x, y) {
        Some(0)
    } else {
        match first_workspace_at_point(wss.skip(1), x, y) {
            Some(j) => Some(j + 1),
            None => None,
        }
    }
}

/// The first workspace whose active tag is `tag`, scanning in declaration
/// order.
pub open spec fn first_workspace_with_tag(wss: Seq<Workspace>, tag: TagId) -> Option<Workspace>
    decreases wss.len(),
{
    if wss.len() == 0 {
        None
    } else if wss[0].tag == tag {
        Some(wss[0])
    } else {
        first_workspace_with_tag(wss.skip(1), tag)
    }
}

/// The index of the first window carrying the handle, scanning in insertion
/// order.
pub open spec fn first_window_with_handle(ws: Seq<Window>, handle: WindowHandle) -> Option<int>
    decreases ws.len(),
{
    if ws.len() == 0 {
        None
    } else if ws[0].handle == handle {
        Some(0)
    } else {
        match first_window_with_handle(ws.skip(1), handle) {
            Some(j) => Some(j + 1),
            None => None,
        }
    }
}

/// The index of the first window containing the point, scanning in insertion
/// order.
pub open spec fn first_window_at_point(ws: Seq<Window>, x: i32, y: i32) -> Option<int>
    decreases ws.len(),
{
    if ws.len() == 0 {
        None
    } else if window_contains_point(ws[0], x, y) {
        Some(0)
    } else {
        match first_window_at_point(ws.skip(1), x, y) {
            Some(j) => Some(j + 1),
            None => None,
        }
    }
}

/// A found index is in range and names a window with the handle.
pub proof fn lemma_first_window_with_handle_in_range(ws: Seq<Window>, handle: WindowHandle)
    ensures
        match first_window_with_handle(ws, handle) {
            Some(k) => 0 <= k < ws.len() && ws[k].handle == handle,
            None => true,
        },
    decreases ws.len(),
{
    if ws.len() == 0 {
    } else if ws[0].handle == handle {
    } else {
        lemma_first_window_with_handle_in_range(ws.skip(1), handle);
        match first_window_with_handle(ws.skip(1), handle) {
            Some(j) => {
                assert(ws.skip(1)[j] == ws[j + 1]);
            },
            None => {},
        }
    }
}

/// Unrolls `first_window_with_handle` one step into a sequence suffix.
pub proof fn lemma_first_window_with_handle_skip(ws: Seq<Window>, handle: WindowHandle, i: int)
    requires
        0 <= i < ws.len(),
    ensures
        first_window_with_handle(ws.skip(i), handle) == (if ws[i].handle == handle {
            Some(0int)
        } else {
            match first_window_with_handle(ws.skip(i + 1), handle) {
                Some(j) => Some(j + 1),
                None => None::<int>,
            }
        }),
{
    assert(ws.skip(i).len() > 0);
    assert(ws.skip(i)[0] == ws[i]);
    assert(ws.skip(i).skip(1) =~= ws.skip(i + 1));
}

/// Unrolls `first_window_at_point` one step into a sequence suffix.
pub proof fn lemma_first_window_at_point_skip(ws: Seq<Window>, x: i32, y: i32, i: int)
    requires
        0 <= i < ws.len(),
    ensures
        first_window_at_point(ws.skip(i), x, y) == (if window_contains_point(ws[i], x, y) {
            Some(0int)
        } else {
            match first_window_at_point(ws.skip(i + 1), x, y) {
                Some(j) => Some(j + 1),
                None => None::<int>,
            }
        }),
{
    assert(ws.skip(i).len() > 0);
    assert(ws.skip(i)[0] == ws[i]);
    assert(ws.skip(i).skip(1) =~= ws.skip(i + 1));
}

/// Unrolls `first_workspace_at_point` one step into a sequence suffix, which
/// is the shape a forward scan produces.
pub proof fn lemma_first_workspace_at_point_skip(wss: Seq<Workspace>, x: i32, y: i32, i: int)
    requires
        0 <= i < wss.len(),
    ensures
        first_workspace_at_point(wss.skip(i), x, y) == (if workspace_contains_point(
            wss[i],
            x,
            y,
        ) {
            Some(0int)
        } else {
            match first_workspace_at_point(wss.skip(i + 1), x, y) {
                Some(j) => Some(j + 1),
                None => None::<int>,
            }
        }),
{
    assert(wss.skip(i).len() > 0);
    assert(wss.skip(i)[0] == wss[i]);
    assert(wss.skip(i).skip(1) =~= wss.skip(i + 1));
}

/// Unrolls `first_workspace_with_tag` one step into a sequence suffix.
pub proof fn lemma_first_workspace_with_tag_skip(wss: Seq<Workspace>, tag: TagId, i: int)
    requires
        0 <= i < wss.len(),
    ensures
        first_workspace_with_tag(wss.skip(i), tag) == (if wss[i].tag == tag {
            Some(wss[i])
        } else {
            first_workspace_with_tag(wss.skip(i + 1), tag)
        }),
{
    assert(wss.skip(i).len() > 0);
    assert(wss.skip(i)[0] == wss[i]);
    assert(wss.skip(i).skip(1) =~= wss.skip(i + 1));
}

/// Whether a workspace rectangle contains the point; the arithmetic is done
/// in 64 bits so that it cannot overflow.
pub fn workspace_has_point(ws: &Workspace, x: i32, y: i32) -> (r: bool)
    ensures
        r == workspace_contains_point(*ws, x, y),
{
    (ws.x as i64) <= (x as i64) && (x as i64) < (ws.x as i64) + (ws.width as i64) && (ws.y
        as i64) <= (y as i64) && (y as i64) < (ws.y as i64) + (ws.height as i64)
}

/// Whether a window rectangle contains the point.
pub fn window_has_point(w: &Window, x: i32, y: i32) -> (r: bool)
    ensures
        r == window_contains_point(*w, x, y),
{
    (w.x as i64) <= (x as i64) && (x as i64) < (w.x as i64) + (w.width as i64) && (w.y
        as i64) <= (y as i64) && (y as i64) < (w.y as i64) + (w.height as i64)
}

} // verus!
