//! The mutable desktop state owned by the manager, and the focus handlers
//! that act on it.

use vstd::prelude::*;

use std::collections::VecDeque;

use crate::display_action::DisplayAction;
use crate::focus_manager::FocusManager;
use crate::focus_manager::distinct_hist;
use crate::focus_manager::lemma_promote_hist_wf;
use crate::focus_manager::promote_hist;
use crate::models::FocusBehaviour;
use crate::models::Mode;
use crate::models::Screen;
use crate::models::Window;
use crate::models::WindowHandle;
use crate::models::Workspace;
use crate::models::first_window_at_point;
use crate::models::first_workspace_at_point;
use crate::models::lemma_first_window_at_point_skip;
use crate::models::lemma_first_workspace_at_point_skip;
use crate::models::valid_tag_id;
use crate::models::window_has_point;
use crate::models::workspace_has_point;

verus! {

/// Mouse button that starts an interactive window move.
pub const MOUSE_BUTTON_MAIN: u32 = 1;

/// Mouse button that starts an interactive window resize.
pub const MOUSE_BUTTON_SECONDARY: u32 = 3;

/// Whether some managed window carries the handle.
pub open spec fn has_window(ws: Seq<Window>, handle: WindowHandle) -> bool {
    exists|i: int| 0 <= i < ws.len() && #[trigger] ws[i].handle == handle
}

/// Whether the handle is a registered screen's root.
pub open spec fn has_screen_root(ss: Seq<Screen>, handle: WindowHandle) -> bool {
    exists|i: int| 0 <= i < ss.len() && #[trigger] ss[i].root == handle
}

/// The desktop state: screens, workspaces, windows, tags, focus, modal state
/// and the outgoing action queue.
#[derive(Debug)]
pub struct State {
    pub screens: Vec<Screen>,
    pub workspaces: Vec<Workspace>,
    pub windows: Vec<Window>,
    /// The configured tag labels; tag ids are 1-based indexes into this list.
    pub tags: Vec<String>,
    pub focus_manager: FocusManager,
    pub mode: Mode,
    /// The ordered outbox of intents for the display-server adapter.
    pub actions: VecDeque<DisplayAction>,
    /// Modifier mask that grabs mouse chords for window interaction, as
    /// decoded by the display-server adapter from the configured mouse key.
    pub mousekey_mask: u32,
}

impl State {
    /// Structural invariant: the tag history holds valid tag ids and never
    /// the same id twice, and the focused workspace index is in range.
    pub open spec fn wf(self) -> bool {
        &&& distinct_hist(self.focus_manager.tag_history@)
        &&& (forall|i: int|
            0 <= i < self.focus_manager.tag_history@.len() ==> valid_tag_id(
                #[trigger] self.focus_manager.tag_history@[i],
                self.tags@.len() as int,
            ))
        &&& (match self.focus_manager.focused_workspace {
            Some(i) => (i as int) < self.workspaces@.len(),
            None => true,
        })
    }

    /// Fields no focus handler ever touches.
    pub open spec fn same_desktop(pre: State, post: State) -> bool {
        &&& post.screens == pre.screens
        &&& post.workspaces == pre.workspaces
        &&& post.windows == pre.windows
        &&& post.tags == pre.tags
        &&& post.mousekey_mask == pre.mousekey_mask
    }

    pub fn new(tags: Vec<String>, behaviour: FocusBehaviour) -> (s: State)
        ensures
            s.wf(),
            s.screens@.len() == 0,
            s.workspaces@.len() == 0,
            s.windows@.len() == 0,
            s.tags == tags,
            s.focus_manager.behaviour == behaviour,
            s.focus_manager.focused_window is None,
            s.focus_manager.focused_workspace is None,
            s.focus_manager.tag_history@.len() == 0,
            s.mode == Mode::Normal,
            s.actions@.len() == 0,
            s.mousekey_mask == 0,
    {
        State {
            screens: Vec::new(),
            workspaces: Vec::new(),
            windows: Vec::new(),
            tags,
            focus_manager: FocusManager::new(behaviour),
            mode: Mode::Normal,
            actions: VecDeque::new(),
            mousekey_mask: 0,
        }
    }

    /// Focuses the window carrying `handle`, if it exists and is not already
    /// focused; queues a focus handover action when focus actually changes.
    pub fn focus_window(&mut self, handle: &WindowHandle) -> (changed: bool)
        ensures
            changed == (has_window(old(self).windows@, *handle) && old(self).focus_manager.focused_window != Some(*handle)),
            changed ==> final(self).focus_manager.focused_window == Some(*handle) && final(self).actions@ == old(self).actions@.push(DisplayAction::WindowTakeFocus(*handle)) && final(self).focus_manager.behaviour == old(self).focus_manager.behaviour && final(self).focus_manager.focused_workspace == old(self).focus_manager.focused_workspace && final(self).focus_manager.tag_history == old(self).focus_manager.tag_history && final(self).mode
                == old(self).mode && State::same_desktop(*old(self), *final(self)),
            !changed ==> *final(self) == *old(self),
            old(self).wf() ==> final(self).wf(),
    {
        let already = match self.focus_manager.focused_window {
            Some(f) => f == *handle,
            None => false,
        };
        if already {
            return false;
        }
        let n = self.windows.len();
        let mut i: usize = 0;
        while i < n
            invariant
                i <= n,
                n == self.windows@.len(),
                *self == *old(self),
                old(self).focus_manager.focused_window != Some(*handle),
                forall|j: int| 0 <= j < i ==> old(self).windows@[j].handle != *handle,
            decreases n - i,
        {
            if self.windows[i].handle == *handle {
                proof {
                    assert(old(self).windows@[i as int].handle == *handle);
                    assert(has_window(old(self).windows@, *handle));
                }
                self.focus_manager.focused_window = Some(*handle);
                self.actions.push_back(DisplayAction::WindowTakeFocus(*handle));
                return true;
            }
            i += 1;
        }
        proof {
            assert(!has_window(old(self).windows@, *handle));
        }
        false
    }

    /// Re-validates a stale focus report: a no-op when the handle is already
    /// focused or unknown, otherwise a focus correction.
    pub fn validate_focus_at(&mut self, handle: &WindowHandle) -> (changed: bool)
        ensures
            changed == (has_window(old(self).windows@, *handle) && old(self).focus_manager.focused_window != Some(*handle)),
            !changed ==> *final(self) == *old(self),
            changed ==> final(self).focus_manager.focused_window == Some(*handle) && final(self).actions@ == old(self).actions@.push(DisplayAction::WindowTakeFocus(*handle))
                && final(self).mode == old(self).mode && State::same_desktop(
                *old(self),
                *final(self),
            ) && final(self).focus_manager.tag_history == old(self).focus_manager.tag_history
                && final(self).focus_manager.behaviour == old(self).focus_manager.behaviour,
            old(self).wf() ==> final(self).wf(),
    {
        self.focus_window(handle)
    }

    /// Moves focus to the first window occupying the point, if any.
    pub fn move_focus_to_point(&mut self, x: i32, y: i32) -> (changed: bool)
        ensures
            match first_window_at_point(old(self).windows@, x, y) {
                Some(k) => {
                    &&& changed == (old(self).focus_manager.focused_window != Some(
                        old(self).windows@[k].handle,
                    ))
                    &&& (changed ==> final(self).focus_manager.focused_window == Some(
                        old(self).windows@[k].handle,
                    ) && final(self).actions@ == old(self).actions@.push(
                        DisplayAction::WindowTakeFocus(old(self).windows@[k].handle),
                    ) && final(self).mode == old(self).mode && State::same_desktop(
                        *old(self),
                        *final(self),
                    ) && final(self).focus_manager.tag_history == old(self).focus_manager.tag_history && final(self).focus_manager.behaviour == old(self).focus_manager.behaviour)
                    &&& (!changed ==> *final(self) == *old(self))
                },
                None => changed == false && *final(self) == *old(self),
            },
            old(self).wf() ==> final(self).wf(),
    {
        let ghost orig = self.windows@;
        let n = self.windows.len();
        let mut i: usize = 0;
        proof {
            assert(orig.skip(0) =~= orig);
        }
        while i < n
            invariant
                i <= n,
                n == orig.len(),
                *self == *old(self),
                orig == old(self).windows@,
                first_window_at_point(orig, x, y) == (match first_window_at_point(
                    orig.skip(i as int),
                    x,
                    y,
                ) {
                    Some(j) => Some(j + i as int),
                    None => None::<int>,
                }),
            decreases n - i,
        {
            proof {
                lemma_first_window_at_point_skip(orig, x, y, i as int);
            }
            let w = self.windows[i];
            if window_has_point(&w, x, y) {
                proof {
                    assert(first_window_at_point(orig, x, y) == Some(i as int));
                }
                let h = w.handle;
                return self.focus_window(&h);
            }
            i += 1;
        }
        proof {
            assert(orig.skip(n as int) =~= Seq::<Window>::empty());
            assert(first_window_at_point(orig, x, y) is None);
        }
        false
    }

    /// Focuses the workspace under the point, promoting its active tag in
    /// the visit history; a no-op when no workspace lies there or it is
    /// already focused.
    pub fn focus_workspace_under_cursor(&mut self, x: i32, y: i32) -> (changed: bool)
        requires
            old(self).wf(),
        ensures
            final(self).wf(),
            match first_workspace_at_point(old(self).workspaces@, x, y) {
                Some(k) => {
                    &&& changed == (old(self).focus_manager.focused_workspace != Some(
                        k as usize,
                    ))
                    &&& (changed ==> final(self).focus_manager.focused_workspace == Some(k as usize)
                        && final(self).focus_manager.focused_window == old(self).focus_manager.focused_window && final(self).focus_manager.behaviour == old(self).focus_manager.behaviour && final(self).mode == old(self).mode && final(self).actions == old(self).actions && State::same_desktop(*old(self), *final(self))
                        && (if valid_tag_id(
                        old(self).workspaces@[k].tag,
                        old(self).tags@.len() as int,
                    ) {
                        final(self).focus_manager.tag_history@ == promote_hist(
                            old(self).focus_manager.tag_history@,
                            old(self).workspaces@[k].tag,
                        )
                    } else {
                        final(self).focus_manager.tag_history == old(self).focus_manager.tag_history
                    }))
                    &&& (!changed ==> *final(self) == *old(self))
                },
                None => changed == false && *final(self) == *old(self),
            },
    {
        let ghost orig = self.workspaces@;
        let n = self.workspaces.len();
        let mut i: usize = 0;
        proof {
            assert(orig.skip(0) =~= orig);
        }
        while i < n
            invariant
                i <= n,
                n == orig.len(),
                *self == *old(self),
                old(self).wf(),
                orig == old(self).workspaces@,
                first_workspace_at_point(orig, x, y) == (match first_workspace_at_point(
                    orig.skip(i as int),
                    x,
                    y,
                ) {
                    Some(j) => Some(j + i as int),
                    None => None::<int>,
                }),
            decreases n - i,
        {
            proof {
                lemma_first_workspace_at_point_skip(orig, x, y, i as int);
            }
            let ws = self.workspaces[i];
            if workspace_has_point(&ws, x, y) {
                proof {
                    assert(first_workspace_at_point(orig, x, y) == Some(i as int));
                }
                let already = match self.focus_manager.focused_workspace {
                    Some(f) => f == i,
                    None => false,
                };
                if already {
                    return false;
                }
                self.focus_manager.focused_workspace = Some(i);
                let tag = ws.tag;
                if 1 <= tag && tag <= self.tags.len() {
                    proof {
                        lemma_promote_hist_wf(
                            self.focus_manager.tag_history@,
                            tag,
                            self.tags@.len() as int,
                        );
                    }
                    self.focus_manager.promote_tag(tag);
                }
                return true;
            }
            i += 1;
        }
        proof {
            assert(orig.skip(n as int) =~= Seq::<Workspace>::empty());
            assert(first_workspace_at_point(orig, x, y) is None);
        }
        false
    }

    /// Whether a mouse chord grabs a window for interactive manipulation.
    pub open spec fn mouse_chord_grabs(
        self,
        modifier_mask: u32,
        button: u32,
        handle: WindowHandle,
    ) -> bool {
        modifier_mask == self.mousekey_mask && has_window(self.windows@, handle) && (button
            == MOUSE_BUTTON_MAIN || button == MOUSE_BUTTON_SECONDARY)
    }

    /// Resolves a mouse chord: with the configured mouse key held it enters
    /// an interactive move or resize on the window, but only from `Normal`
    /// mode; any other click is an explicit focus request.
    pub fn mouse_combo_handler(
        &mut self,
        modifier_mask: u32,
        button: u32,
        handle: WindowHandle,
    ) -> (changed: bool)
        ensures
            old(self).mode != Mode::Normal ==> changed == false && *final(self) == *old(self),
            (old(self).mode == Mode::Normal && old(self).mouse_chord_grabs(
                modifier_mask,
                button,
                handle,
            )) ==> {
                &&& changed == true
                &&& final(self).mode == (if button == MOUSE_BUTTON_MAIN {
                    Mode::MovingWindow(handle)
                } else {
                    Mode::ResizingWindow(handle)
                })
                &&& final(self).actions@ == old(self).actions@.push(
                    if button == MOUSE_BUTTON_MAIN {
                        DisplayAction::ReadyToMoveWindow(handle)
                    } else {
                        DisplayAction::ReadyToResizeWindow(handle)
                    },
                )
                &&& final(self).focus_manager == old(self).focus_manager
                &&& State::same_desktop(*old(self), *final(self))
            },
            (old(self).mode == Mode::Normal && !old(self).mouse_chord_grabs(
                modifier_mask,
                button,
                handle,
            )) ==> {
                &&& changed == (has_window(old(self).windows@, handle) && old(self).focus_manager.focused_window != Some(handle))
                &&& (changed ==> final(self).focus_manager.focused_window == Some(handle) && final(self).actions@ == old(self).actions@.push(DisplayAction::WindowTakeFocus(handle))
                    && final(self).mode == old(self).mode && State::same_desktop(
                    *old(self),
                    *final(self),
                ) && final(self).focus_manager.tag_history == old(self).focus_manager.tag_history
                    && final(self).focus_manager.behaviour == old(self).focus_manager.behaviour)
                &&& (!changed ==> *final(self) == *old(self))
            },
            old(self).wf() ==> final(self).wf(),
    {
        match self.mode {
            Mode::Normal => {},
            _ => {
                return false;
            },
        }
        let grabs_key = modifier_mask == self.mousekey_mask && (button == MOUSE_BUTTON_MAIN
            || button == MOUSE_BUTTON_SECONDARY);
        if grabs_key {
            let mut found: bool = false;
            let n = self.windows.len();
            let mut i: usize = 0;
            while i < n
                invariant
                    i <= n,
                    n == self.windows@.len(),
                    *self == *old(self),
                    found == exists|j: int|
                        0 <= j < i && #[trigger] old(self).windows@[j].handle == handle,
                decreases n - i,
            {
                if self.windows[i].handle == handle {
                    found = true;
                }
                i += 1;
            }
            if found {
                if button == MOUSE_BUTTON_MAIN {
                    self.mode = Mode::MovingWindow(handle);
                    self.actions.push_back(DisplayAction::ReadyToMoveWindow(handle));
                } else {
                    self.mode = Mode::ResizingWindow(handle);
                    self.actions.push_back(DisplayAction::ReadyToResizeWindow(handle));
                }
                return true;
            }
        }
        proof {
            assert(!old(self).mouse_chord_grabs(modifier_mask, button, handle));
        }
        self.focus_window(&handle)
    }
}

} // verus!
