//! The aggregate root: the manager owns the desktop state and a
//! configuration, dispatches every display event, dispatches commands, and
//! recomputes window placement when a handler reports that a render pass is
//! needed.

use vstd::prelude::*;

use crate::command::Command;
use crate::command::build_command;
use crate::config::Config;
use crate::config::TestConfig;
use crate::display_action::DisplayAction;
use crate::display_event::DisplayEvent;
use crate::focus_manager::lemma_promote_hist_wf;
use crate::focus_manager::lemma_swap_hist_wf;
use crate::focus_manager::promote_hist;
use crate::focus_manager::swap_hist_post;
use crate::models::FocusBehaviour;
use crate::models::Mode;
use crate::models::Screen;
use crate::models::TagId;
use crate::models::Window;
use crate::models::WindowHandle;
use crate::models::Workspace;
use crate::models::first_window_at_point;
use crate::models::first_window_with_handle;
use crate::models::first_workspace_at_point;
use crate::models::first_workspace_with_tag;
use crate::models::lemma_first_window_with_handle_in_range;
use crate::models::lemma_first_window_with_handle_skip;
use crate::models::lemma_first_workspace_at_point_skip;
use crate::models::lemma_first_workspace_with_tag_skip;
use crate::models::valid_tag_id;
use crate::models::workspace_has_point;
use crate::state::State;
use crate::state::has_screen_root;
use crate::state::has_window;

verus! {

/// The placement the layout step assigns to a window: a window is visible
/// exactly when some workspace shows its tag; a tiled visible window fills
/// the first such workspace, a floating one keeps its own geometry.
pub open spec fn desired_window(w: Window, wss: Seq<Workspace>) -> Window {
    match first_workspace_with_tag(wss, w.tag) {
        Some(ws) => if w.floating {
            Window { visible: true, ..w }
        } else {
            Window { visible: true, x: ws.x, y: ws.y, width: ws.width, height: ws.height, ..w }
        },
        None => Window { visible: false, ..w },
    }
}

/// Every window already stands where the layout step would put it.
pub open spec fn layout_settled(s: State) -> bool {
    forall|i: int|
        0 <= i < s.windows@.len() ==> s.windows@[i] == #[trigger] desired_window(
            s.windows@[i],
            s.workspaces@,
        )
}

/// Recomputing a placement a second time changes nothing.
pub proof fn lemma_desired_window_idempotent(w: Window, wss: Seq<Workspace>)
    ensures
        desired_window(desired_window(w, wss), wss) == desired_window(w, wss),
{
    assert(desired_window(w, wss).tag == w.tag);
    assert(desired_window(w, wss).floating == w.floating);
}

/// The stored window after a change notice: geometry and floating flag come
/// from the notice, identity and tag assignment stay.
pub open spec fn apply_window_change(stored: Window, w: Window) -> Window {
    Window { x: w.x, y: w.y, width: w.width, height: w.height, floating: w.floating, ..stored }
}

/// The window after a modal interactive move: it floats at the new position.
pub open spec fn moved_window(w: Window, x: i32, y: i32) -> Window {
    Window { x, y, floating: true, ..w }
}

/// The window after a modal interactive resize: it floats with the new
/// extent.
pub open spec fn resized_window(w: Window, width: i32, height: i32) -> Window {
    Window { width, height, floating: true, ..w }
}

/// The workspace with another active tag.
pub open spec fn retagged(ws: Workspace, tag: TagId) -> Workspace {
    Workspace { tag, ..ws }
}

/// What "go to tag" does: with a valid tag and a focused workspace, the tag
/// becomes that workspace's active tag, the visit history is updated with
/// push or swap semantics, and one tag announcement is queued; on any other
/// input nothing changes and the command is not handled.
pub open spec fn goto_tag_post(pre: State, post: State, tag: TagId, swap: bool, handled: bool) -> bool {
    match pre.focus_manager.focused_workspace {
        Some(i) => if valid_tag_id(tag, pre.tags@.len() as int) && (i as int)
            < pre.workspaces@.len() {
            &&& handled == true
            &&& post.workspaces@ == pre.workspaces@.update(
                i as int,
                retagged(pre.workspaces@[i as int], tag),
            )
            &&& (!swap ==> post.focus_manager.tag_history@ == promote_hist(
                pre.focus_manager.tag_history@,
                tag,
            ))
            &&& (swap ==> swap_hist_post(
                pre.focus_manager.tag_history@,
                post.focus_manager.tag_history@,
                tag,
            ))
            &&& post.actions@ == pre.actions@.push(DisplayAction::SetCurrentTags(tag))
            &&& post.windows == pre.windows
            &&& post.screens == pre.screens
            &&& post.tags == pre.tags
            &&& post.mode == pre.mode
            &&& post.mousekey_mask == pre.mousekey_mask
            &&& post.focus_manager.behaviour == pre.focus_manager.behaviour
            &&& post.focus_manager.focused_window == pre.focus_manager.focused_window
            &&& post.focus_manager.focused_workspace == pre.focus_manager.focused_workspace
        } else {
            handled == false && post == pre
        },
        None => handled == false && post == pre,
    }
}

/// Every window of `post` is the placement the layout step assigns to the
/// corresponding window of `mid` under the workspaces `wss`.
pub open spec fn replaced_all(post: Seq<Window>, mid: Seq<Window>, wss: Seq<Workspace>) -> bool {
    post.len() == mid.len() && (forall|i: int|
        0 <= i < mid.len() ==> post[i] == #[trigger] desired_window(mid[i], wss))
}

/// The action queue grew only by window-update records: `pre` is still its
/// prefix and everything after is an update action.
pub open spec fn appended_only_updates(pre: Seq<DisplayAction>, post: Seq<DisplayAction>) -> bool {
    &&& pre.len() <= post.len()
    &&& post.take(pre.len() as int) == pre
    &&& (forall|j: int| pre.len() <= j < post.len() ==> post[j] is UpdateWindow)
}

/// Everything the layout step never touches.
pub open spec fn relayout_frame(pre: State, post: State) -> bool {
    &&& post.workspaces == pre.workspaces
    &&& post.screens == pre.screens
    &&& post.tags == pre.tags
    &&& post.focus_manager == pre.focus_manager
    &&& post.mode == pre.mode
    &&& post.mousekey_mask == pre.mousekey_mask
}

/// What a dispatched "go to tag" leaves behind once the re-layout pass has
/// run: the `goto_tag_post` outcome on everything the layout step preserves,
/// windows re-placed under the retagged workspaces, and the tag announcement
/// followed only by window-update actions.
pub open spec fn goto_tag_result(
    pre: State,
    post: State,
    tag: TagId,
    swap: bool,
    handled: bool,
) -> bool {
    match pre.focus_manager.focused_workspace {
        Some(i) => if valid_tag_id(tag, pre.tags@.len() as int) && (i as int)
            < pre.workspaces@.len() {
            &&& handled == true
            &&& post.workspaces@ == pre.workspaces@.update(
                i as int,
                retagged(pre.workspaces@[i as int], tag),
            )
            &&& (!swap ==> post.focus_manager.tag_history@ == promote_hist(
                pre.focus_manager.tag_history@,
                tag,
            ))
            &&& (swap ==> swap_hist_post(
                pre.focus_manager.tag_history@,
                post.focus_manager.tag_history@,
                tag,
            ))
            &&& appended_only_updates(
                pre.actions@.push(DisplayAction::SetCurrentTags(tag)),
                post.actions@,
            )
            &&& replaced_all(
                post.windows@,
                pre.windows@,
                pre.workspaces@.update(i as int, retagged(pre.workspaces@[i as int], tag)),
            )
            &&& post.screens == pre.screens
            &&& post.tags == pre.tags
            &&& post.mode == pre.mode
            &&& post.mousekey_mask == pre.mousekey_mask
            &&& post.focus_manager.behaviour == pre.focus_manager.behaviour
            &&& post.focus_manager.focused_window == pre.focus_manager.focused_window
            &&& post.focus_manager.focused_workspace == pre.focus_manager.focused_workspace
        } else {
            handled == false && post == pre
        },
        None => handled == false && post == pre,
    }
}

/// The aggregate root owning the desktop state and the configuration.
pub struct Manager<C> {
    pub state: State,
    pub config: C,
}

impl<C: Config> Manager<C> {
    pub fn new(config: C) -> (m: Manager<C>)
        ensures
            m.state.wf(),
            m.state.screens@.len() == 0,
            m.state.workspaces@.len() == 0,
            m.state.windows@.len() == 0,
            m.state.mode == Mode::Normal,
            m.state.actions@.len() == 0,
            m.state.focus_manager.tag_history@.len() == 0,
            m.state.focus_manager.focused_window is None,
            m.state.focus_manager.focused_workspace is None,
    {
        let tags = config.create_list_of_tag_labels();
        let behaviour = config.focus_behaviour();
        Manager { state: State::new(tags, behaviour), config }
    }

    /// Dispatches a structured command: "go to tag" is handled here, any
    /// other name is forwarded to the configuration's command handler.
    pub fn command_handler(&mut self, command: &Command) -> (handled: bool)
        requires
            old(self).state.wf(),
        ensures
            final(self).state.wf(),
            old(self).state.mode != Mode::Normal ==> final(self).state.mode == old(self).state.mode,
            (*command matches Command::GoToTag { tag, swap } ==> goto_tag_post(
                old(self).state,
                final(self).state,
                tag,
                swap,
                handled,
            )),
    {
        match command {
            Command::GoToTag { tag, swap } => self.goto_tag_handler(*tag, *swap),
            Command::Other(name) => C::command_handler(name.as_str(), self),
        }
    }

    /// Processes one display event and applies its changes to the manager.
    /// Returns true exactly when the change needs to be rendered; a
    /// rendering pass recomputes window placement before this returns.
    pub fn display_event_handler(&mut self, event: DisplayEvent) -> (needs_render: bool)
        requires
            old(self).state.wf(),
        ensures
            final(self).state.wf(),
            // a true return means the re-layout pass ran before returning
            needs_render ==> layout_settled(final(self).state),
            // stale focus reports are advisory: any policy but Sloppy ignores them
            (event matches DisplayEvent::VerifyFocusedAt(_) && old(self).state.focus_manager.behaviour != FocusBehaviour::Sloppy) ==> (needs_render == false
                && *final(self) == *old(self)),
            // under Sloppy a stale focus report corrects focus exactly when
            // the reported window exists and is not already focused
            (match event {
                DisplayEvent::VerifyFocusedAt(h) => old(self).state.focus_manager.behaviour
                    == FocusBehaviour::Sloppy ==> {
                    &&& needs_render == (has_window(old(self).state.windows@, h) && old(self).state.focus_manager.focused_window != Some(h))
                    &&& (needs_render ==> final(self).state.focus_manager.focused_window == Some(
                        h,
                    ))
                    &&& (!needs_render ==> *final(self) == *old(self))
                },
                _ => true,
            }),
            // leaving a modal mode always lands in Normal, always renders,
            // queues exactly one normal-mode action, and refocuses the
            // window the mode carried, if it still exists
            event is ChangeToNormalMode ==> {
                &&& needs_render == true
                &&& final(self).state.mode == Mode::Normal
                &&& final(self).state.actions@.take(old(self).state.actions@.len() as int) == old(self).state.actions@
                &&& exists|i: int|
                    old(self).state.actions@.len() <= i < final(self).state.actions@.len() && (
                    #[trigger] final(self).state.actions@[i]) is NormalMode && (forall|j: int|
                        old(self).state.actions@.len() <= j < final(self).state.actions@.len() && j
                            != i ==> !(#[trigger] final(self).state.actions@[j] is NormalMode))
                &&& (match old(self).state.mode {
                    Mode::MovingWindow(h) => has_window(old(self).state.windows@, h) ==> final(self).state.focus_manager.focused_window == Some(h),
                    Mode::ResizingWindow(h) => has_window(old(self).state.windows@, h) ==> final(self).state.focus_manager.focused_window == Some(h),
                    Mode::Normal => true,
                })
            },
            // pointer motion over anything but a screen root changes nothing
            (match event {
                DisplayEvent::Movement(h, _, _) => !has_screen_root(old(self).state.screens@, h),
                _ => false,
            }) ==> (needs_render == false && *final(self) == *old(self)),
            // pointer motion over a screen root focuses the workspace under
            // the pointer exactly when there is one and it is not already
            // focused
            (match event {
                DisplayEvent::Movement(h, x, y) => has_screen_root(old(self).state.screens@, h)
                    ==> (match first_workspace_at_point(old(self).state.workspaces@, x, y) {
                    Some(k) => needs_render == (old(self).state.focus_manager.focused_workspace
                        != Some(k as usize)) && (needs_render ==> final(self).state.focus_manager.focused_workspace == Some(k as usize)) && (
                    !needs_render ==> *final(self) == *old(self)),
                    None => needs_render == false && *final(self) == *old(self),
                }),
                _ => true,
            }),
            // a key-grab reload queues exactly one reload action, carrying
            // the mapped bindings, changes nothing else and never renders
            event is KeyGrabReload ==> {
                &&& needs_render == false
                &&& final(self).state.actions@.len() == old(self).state.actions@.len() + 1
                &&& final(self).state.actions@.take(old(self).state.actions@.len() as int) == old(self).state.actions@
                &&& (final(self).state.actions@.last() matches DisplayAction::ReloadKeyGrabs(b)
                    && b@ == old(self).config.bindings_spec())
                &&& final(self).state.windows == old(self).state.windows
                &&& final(self).state.workspaces == old(self).state.workspaces
                &&& final(self).state.screens == old(self).state.screens
                &&& final(self).state.tags == old(self).state.tags
                &&& final(self).state.focus_manager == old(self).state.focus_manager
                &&& final(self).state.mode == old(self).state.mode
                &&& final(self).state.mousekey_mask == old(self).state.mousekey_mask
            },
            // a configure request for an unknown window changes nothing; for
            // a known one it queues exactly one snapshot action and then
            // re-lays out
            (match event {
                DisplayEvent::ConfigureXlibWindow(h) => match first_window_with_handle(
                    old(self).state.windows@,
                    h,
                ) {
                    Some(k) => {
                        &&& needs_render == true
                        &&& appended_only_updates(
                            old(self).state.actions@.push(
                                DisplayAction::ConfigureXlibWindow(old(self).state.windows@[k]),
                            ),
                            final(self).state.actions@,
                        )
                        &&& replaced_all(
                            final(self).state.windows@,
                            old(self).state.windows@,
                            old(self).state.workspaces@,
                        )
                        &&& relayout_frame(old(self).state, final(self).state)
                    },
                    None => needs_render == false && *final(self) == *old(self),
                },
                _ => true,
            }),
            // screen registration renders and registers screen, workspace,
            // focus and tag history as the screen handler promises
            (match event {
                DisplayEvent::ScreenCreate(scr) => {
                    &&& needs_render == true
                    &&& final(self).state.screens@ == old(self).state.screens@.push(scr)
                    &&& final(self).state.workspaces@.len() == old(self).state.workspaces@.len()
                        + 1
                    &&& final(self).state.focus_manager.focused_workspace == Some(
                        old(self).state.workspaces@.len() as usize,
                    )
                    &&& ((old(self).state.workspaces@.len() < old(self).state.tags@.len())
                        ==> final(self).state.focus_manager.tag_history@ == promote_hist(
                        old(self).state.focus_manager.tag_history@,
                        (old(self).state.workspaces@.len() + 1) as TagId,
                    ))
                    &&& (!(old(self).state.workspaces@.len() < old(self).state.tags@.len())
                        ==> final(self).state.focus_manager.tag_history == old(self).state.focus_manager.tag_history)
                },
                _ => true,
            }),
            // window creation renders and adds exactly one window, under the
            // tag assigned by the creation point
            (match event {
                DisplayEvent::WindowCreate(w, x, y) => {
                    &&& needs_render == true
                    &&& final(self).state.windows@.len() == old(self).state.windows@.len() + 1
                    &&& final(self).state.windows@[old(self).state.windows@.len() as int].handle
                        == w.handle
                    &&& final(self).state.windows@[old(self).state.windows@.len() as int].tag
                        == assigned_tag(old(self).state, w, x, y)
                },
                _ => true,
            }),
            // entering a window focuses it exactly when it exists and is not
            // already focused
            (match event {
                DisplayEvent::MouseEnteredWindow(h) => {
                    &&& needs_render == (has_window(old(self).state.windows@, h) && old(self).state.focus_manager.focused_window != Some(h))
                    &&& (needs_render ==> final(self).state.focus_manager.focused_window == Some(
                        h,
                    ))
                    &&& (!needs_render ==> *final(self) == *old(self))
                },
                _ => true,
            }),
            // moving focus to a point focuses the first window there, if any
            (match event {
                DisplayEvent::MoveFocusTo(x, y) => match first_window_at_point(
                    old(self).state.windows@,
                    x,
                    y,
                ) {
                    Some(k) => {
                        &&& needs_render == (old(self).state.focus_manager.focused_window != Some(
                            old(self).state.windows@[k].handle,
                        ))
                        &&& (needs_render ==> final(self).state.focus_manager.focused_window
                            == Some(old(self).state.windows@[k].handle))
                        &&& (!needs_render ==> *final(self) == *old(self))
                    },
                    None => needs_render == false && *final(self) == *old(self),
                },
                _ => true,
            }),
            // a dispatched go-to-tag command has the full go-to-tag outcome
            (match event {
                DisplayEvent::SendCommand(cmd) => (cmd matches Command::GoToTag { tag, swap }
                    ==> goto_tag_result(old(self).state, final(self).state, tag, swap, needs_render)),
                _ => true,
            }),
            // an unmatched key chord changes nothing; a chord resolving to
            // go-to-tag dispatches it with the full outcome
            (match event {
                DisplayEvent::KeyCombo(m, k) => match crate::command::resolve_chord(
                    old(self).config.bindings_spec(),
                    m,
                    k,
                ) {
                    None => needs_render == false && *final(self) == *old(self),
                    Some(cmd) => (cmd matches Command::GoToTag { tag, swap } ==> goto_tag_result(
                        old(self).state,
                        final(self).state,
                        tag,
                        swap,
                        needs_render,
                    )),
                },
                _ => true,
            }),
            // a change notice updates the named window's stored geometry and
            // floating flag and renders exactly when something differed
            (match event {
                DisplayEvent::WindowChange(w) => match first_window_with_handle(
                    old(self).state.windows@,
                    w.handle,
                ) {
                    Some(k) => {
                        &&& needs_render == (apply_window_change(old(self).state.windows@[k], w)
                            != old(self).state.windows@[k])
                        &&& (needs_render ==> replaced_all(
                            final(self).state.windows@,
                            old(self).state.windows@.update(
                                k,
                                apply_window_change(old(self).state.windows@[k], w),
                            ),
                            old(self).state.workspaces@,
                        ) && appended_only_updates(
                            old(self).state.actions@,
                            final(self).state.actions@,
                        ) && relayout_frame(old(self).state, final(self).state))
                        &&& (!needs_render ==> final(self).state.windows@ == old(self).state.windows@ && final(self).state.actions == old(self).state.actions
                            && relayout_frame(old(self).state, final(self).state))
                    },
                    None => true,
                },
                _ => true,
            }),
            // a modal move floats the named window at the new position and
            // re-lays out
            (match event {
                DisplayEvent::MoveWindow(h, x, y) => match first_window_with_handle(
                    old(self).state.windows@,
                    h,
                ) {
                    Some(k) => needs_render == true && replaced_all(
                        final(self).state.windows@,
                        old(self).state.windows@.update(k, moved_window(old(self).state.windows@[k], x, y)),
                        old(self).state.workspaces@,
                    ) && appended_only_updates(old(self).state.actions@, final(self).state.actions@)
                        && relayout_frame(old(self).state, final(self).state),
                    None => true,
                },
                _ => true,
            }),
            // a modal resize floats the named window with the new extent and
            // re-lays out
            (match event {
                DisplayEvent::ResizeWindow(h, x, y) => match first_window_with_handle(
                    old(self).state.windows@,
                    h,
                ) {
                    Some(k) => needs_render == true && replaced_all(
                        final(self).state.windows@,
                        old(self).state.windows@.update(k, resized_window(old(self).state.windows@[k], x, y)),
                        old(self).state.workspaces@,
                    ) && appended_only_updates(old(self).state.actions@, final(self).state.actions@)
                        && relayout_frame(old(self).state, final(self).state),
                    None => true,
                },
                _ => true,
            }),
            // a grabbing mouse chord enters the modal mode from Normal and
            // queues its ready action; any other click is a focus request
            (match event {
                DisplayEvent::MouseCombo(m, b, h) => old(self).state.mode == Mode::Normal ==> {
                    &&& (old(self).state.mouse_chord_grabs(m, b, h) ==> {
                        &&& needs_render == true
                        &&& final(self).state.mode == (if b == crate::state::MOUSE_BUTTON_MAIN {
                            Mode::MovingWindow(h)
                        } else {
                            Mode::ResizingWindow(h)
                        })
                        &&& appended_only_updates(
                            old(self).state.actions@.push(
                                if b == crate::state::MOUSE_BUTTON_MAIN {
                                    DisplayAction::ReadyToMoveWindow(h)
                                } else {
                                    DisplayAction::ReadyToResizeWindow(h)
                                },
                            ),
                            final(self).state.actions@,
                        )
                        &&& final(self).state.focus_manager == old(self).state.focus_manager
                    })
                    &&& (!old(self).state.mouse_chord_grabs(m, b, h) ==> {
                        &&& needs_render == (has_window(old(self).state.windows@, h) && old(self).state.focus_manager.focused_window != Some(h))
                        &&& (needs_render ==> final(self).state.focus_manager.focused_window
                            == Some(h))
                        &&& (!needs_render ==> *final(self) == *old(self))
                    })
                },
                _ => true,
            }),
            // destroying a known window removes exactly one window and
            // reassigns focus when the destroyed one held it
            (match event {
                DisplayEvent::WindowDestroy(h) => match first_window_with_handle(
                    old(self).state.windows@,
                    h,
                ) {
                    Some(k) => {
                        &&& needs_render == true
                        &&& final(self).state.windows@.len() == old(self).state.windows@.len() - 1
                        &&& replaced_all(
                            final(self).state.windows@,
                            old(self).state.windows@.remove(k),
                            old(self).state.workspaces@,
                        )
                        &&& (old(self).state.focus_manager.focused_window == Some(h) ==> final(self).state.focus_manager.focused_window == (
                        if old(self).state.windows@.remove(k).len() > 0 {
                            Some(old(self).state.windows@.remove(k)[0].handle)
                        } else {
                            None
                        }))
                        &&& (old(self).state.focus_manager.focused_window != Some(h) ==> final(self).state.focus_manager.focused_window == old(self).state.focus_manager.focused_window)
                    },
                    None => true,
                },
                _ => true,
            }),
            // events naming an unknown window handle are no-ops
            (match event {
                DisplayEvent::WindowDestroy(h) => first_window_with_handle(
                    old(self).state.windows@,
                    h,
                ) is None,
                DisplayEvent::MoveWindow(h, _, _) => first_window_with_handle(
                    old(self).state.windows@,
                    h,
                ) is None,
                DisplayEvent::ResizeWindow(h, _, _) => first_window_with_handle(
                    old(self).state.windows@,
                    h,
                ) is None,
                DisplayEvent::WindowChange(w) => first_window_with_handle(
                    old(self).state.windows@,
                    w.handle,
                ) is None,
                _ => false,
            }) ==> (needs_render == false && *final(self) == *old(self)),
            // only leaving a modal mode, a mouse chord or a command may alter
            // the mode
            !(event is ChangeToNormalMode || event is MouseCombo || event is KeyCombo
                || event is SendCommand) ==> final(self).state.mode == old(self).state.mode,
            // a mouse chord only enters a modal mode from Normal, and a
            // command never disturbs an active modal mode
            (event is MouseCombo && old(self).state.mode != Mode::Normal) ==> final(self).state.mode == old(self).state.mode,
            ((event is KeyCombo || event is SendCommand) && old(self).state.mode != Mode::Normal)
                ==> final(self).state.mode == old(self).state.mode,

    {
        let ghost mut marker: int = 0;
        let update_needed: bool;
        match event {
            DisplayEvent::ScreenCreate(s) => {
                update_needed = self.screen_create_handler(s);
            },
            DisplayEvent::WindowCreate(w, x, y) => {
                update_needed = self.window_created_handler(w, x, y);
            },
            DisplayEvent::WindowChange(w) => {
                update_needed = self.window_changed_handler(w);
                proof {
                    if !update_needed && first_window_with_handle(
                        old(self).state.windows@,
                        w.handle,
                    ) is Some {
                        lemma_first_window_with_handle_in_range(old(self).state.windows@, w.handle);
                        assert(self.state.windows@ =~= old(self).state.windows@);
                    }
                }
            },
            DisplayEvent::MouseEnteredWindow(handle) => {
                update_needed = self.state.focus_window(&handle);
            },
            DisplayEvent::KeyGrabReload => {
                let bindings = self.config.mapped_bindings();
                let ghost acts = self.state.actions@;
                self.state.actions.push_back(DisplayAction::ReloadKeyGrabs(bindings));
                proof {
                    assert(self.state.actions@.take(acts.len() as int) =~= acts);
                }
                update_needed = false;
            },
            DisplayEvent::MoveFocusTo(x, y) => {
                update_needed = self.state.move_focus_to_point(x, y);
            },
            DisplayEvent::VerifyFocusedAt(handle) => {
                match self.state.focus_manager.behaviour {
                    FocusBehaviour::Sloppy => {
                        update_needed = self.state.validate_focus_at(&handle);
                    },
                    _ => {
                        return false;
                    },
                }
            },
            DisplayEvent::WindowDestroy(handle) => {
                update_needed = self.window_destroyed_handler(&handle);
                proof {
                    lemma_first_window_with_handle_in_range(old(self).state.windows@, handle);
                    let fw = first_window_with_handle(old(self).state.windows@, handle);
                    if fw is Some {
                        assert(self.state.windows@ == old(self).state.windows@.remove(
                            fw.unwrap(),
                        ));
                        assert(self.state.windows@.len() == old(self).state.windows@.len() - 1);
                    }
                }
            },
            DisplayEvent::KeyCombo(modifier_mask, keysym) => {
                let bindings = self.config.mapped_bindings();
                proof {
                    assert(bindings@ == old(self).config.bindings_spec());
                }
                let built = build_command(&bindings, modifier_mask, keysym);
                match built {
                    Some(cmd) => {
                        update_needed = self.command_handler(&cmd);
                    },
                    None => {
                        update_needed = false;
                    },
                }
            },
            DisplayEvent::SendCommand(command) => {
                update_needed = self.command_handler(&command);
            },
            DisplayEvent::MouseCombo(modifier_mask, button, handle) => {
                update_needed = self.state.mouse_combo_handler(modifier_mask, button, handle);
            },
            DisplayEvent::ChangeToNormalMode => {
                match self.state.mode {
                    Mode::MovingWindow(h) => {
                        let _ = self.state.focus_window(&h);
                    },
                    Mode::ResizingWindow(h) => {
                        let _ = self.state.focus_window(&h);
                    },
                    Mode::Normal => {},
                }
                proof {
                    assert(forall|j: int|
                        old(self).state.actions@.len() <= j < self.state.actions@.len() ==> (
                        #[trigger] self.state.actions@[j]) is WindowTakeFocus);
                }
                self.state.mode = Mode::Normal;
                let ghost before_push = self.state.actions@;
                self.state.actions.push_back(DisplayAction::NormalMode);
                proof {
                    marker = self.state.actions@.len() - 1;
                    assert(self.state.actions@[marker] is NormalMode);
                    assert(marker >= old(self).state.actions@.len());
                    assert(self.state.actions@.take(old(self).state.actions@.len() as int)
                        =~= old(self).state.actions@);
                    assert forall|j: int|
                        old(self).state.actions@.len() <= j < self.state.actions@.len() && j
                            != marker implies !(#[trigger] self.state.actions@[j]
                        is NormalMode) by {
                        assert(self.state.actions@[j] == before_push[j]);
                        assert(before_push[j] is WindowTakeFocus);
                    }
                }
                update_needed = true;
            },
            DisplayEvent::Movement(handle, x, y) => {
                let n = self.state.screens.len();
                let mut i: usize = 0;
                let mut root_found: bool = false;
                while i < n
                    invariant
                        i <= n,
                        n == self.state.screens@.len(),
                        *self == *old(self),
                        root_found == exists|j: int|
                            0 <= j < i && #[trigger] old(self).state.screens@[j].root == handle,
                    decreases n - i,
                {
                    if self.state.screens[i].root == handle {
                        proof {
                            assert(old(self).state.screens@[i as int].root == handle);
                        }
                        root_found = true;
                    }
                    i += 1;
                }
                if root_found {
                    update_needed = self.state.focus_workspace_under_cursor(x, y);
                } else {
                    proof {
                        assert(!has_screen_root(old(self).state.screens@, handle));
                    }
                    update_needed = false;
                }
            },
            DisplayEvent::MoveWindow(handle, x, y) => {
                update_needed = self.window_move_handler(&handle, x, y);
            },
            DisplayEvent::ResizeWindow(handle, x, y) => {
                update_needed = self.window_resize_handler(&handle, x, y);
            },
            DisplayEvent::ConfigureXlibWindow(handle) => {
                let ghost orig = self.state.windows@;
                let n = self.state.windows.len();
                let mut i: usize = 0;
                let mut found: Option<usize> = None;
                proof {
                    assert(orig.skip(0) =~= orig);
                }
                while i < n
                    invariant
                        i <= n,
                        n == orig.len(),
                        *self == *old(self),
                        orig == old(self).state.windows@,
                        found is None ==> first_window_with_handle(orig, handle) == (
                        match first_window_with_handle(orig.skip(i as int), handle) {
                            Some(j) => Some(j + i as int),
                            None => None::<int>,
                        }),
                        match found {
                            Some(k) => (k as int) < orig.len() && first_window_with_handle(
                                orig,
                                handle,
                            ) == Some(k as int),
                            None => true,
                        },
                    decreases n - i,
                {
                    if found.is_none() {
                        proof {
                            lemma_first_window_with_handle_skip(orig, handle, i as int);
                        }
                        if self.state.windows[i].handle == handle {
                            proof {
                                assert(first_window_with_handle(orig, handle) == Some(i as int));
                            }
                            found = Some(i);
                        }
                    }
                    i += 1;
                }
                match found {
                    Some(k) => {
                        let w = self.state.windows[k];
                        self.state.actions.push_back(DisplayAction::ConfigureXlibWindow(w));
                        update_needed = true;
                    },
                    None => {
                        proof {
                            assert(orig.skip(n as int) =~= Seq::<Window>::empty());
                            assert(first_window_with_handle(orig, handle) is None);
                        }
                        update_needed = false;
                    },
                }
            },
        }
        if update_needed {
            let ghost queued = self.state.actions@;
            let ghost staged = self.state.windows@;
            self.update_windows();
            proof {
                if event is ChangeToNormalMode {
                    assert(self.state.actions@.take(queued.len() as int) == queued);
                    assert(self.state.actions@[marker] == queued[marker]);
                    assert(self.state.actions@.take(old(self).state.actions@.len() as int)
                        =~= queued.take(old(self).state.actions@.len() as int));
                    assert forall|j: int|
                        old(self).state.actions@.len() <= j < self.state.actions@.len() && j
                            != marker implies !(#[trigger] self.state.actions@[j]
                        is NormalMode) by {
                        if j < queued.len() {
                            assert(self.state.actions@[j] == queued[j]);
                        } else {
                            assert(self.state.actions@[j] is UpdateWindow);
                        }
                    }
                }
                if event is WindowCreate {
                    let n0 = old(self).state.windows@.len() as int;
                    assert(self.state.windows@[n0] == desired_window(
                        staged[n0],
                        old(self).state.workspaces@,
                    ));
                    assert(desired_window(staged[n0], old(self).state.workspaces@).handle
                        == staged[n0].handle);
                    assert(desired_window(staged[n0], old(self).state.workspaces@).tag
                        == staged[n0].tag);
                }
            }
        }
        update_needed
    }
}

impl<C: Config> Manager<C> {
    /// Inserts a new window, assigning it a tag by the creation point, and
    /// focuses it when the configuration asks for that.
    pub fn window_created_handler(&mut self, window: Window, x: i32, y: i32) -> (changed: bool)
        requires
            old(self).state.wf(),
        ensures
            changed == true,
            final(self).state.wf(),
            final(self).state.windows@ == old(self).state.windows@.push(
                (Window { tag: assigned_tag(old(self).state, window, x, y), ..window }),
            ),
            final(self).state.workspaces == old(self).state.workspaces,
            final(self).state.screens == old(self).state.screens,
            final(self).state.tags == old(self).state.tags,
            final(self).state.mode == old(self).state.mode,
            final(self).state.mousekey_mask == old(self).state.mousekey_mask,
            final(self).state.focus_manager.behaviour == old(self).state.focus_manager.behaviour,
            final(self).state.focus_manager.focused_workspace == old(self).state.focus_manager.focused_workspace,
            final(self).state.focus_manager.tag_history == old(self).state.focus_manager.tag_history,
            (final(self).state.focus_manager.focused_window == old(self).state.focus_manager.focused_window && final(self).state.actions == old(self).state.actions) || (final(self).state.focus_manager.focused_window == Some(
                window.handle,
            ) && final(self).state.actions@ == old(self).state.actions@.push(
                DisplayAction::WindowTakeFocus(window.handle),
            )),
    {
        let ghost wss = self.state.workspaces@;
        let n = self.state.workspaces.len();
        let mut i: usize = 0;
        let mut under: Option<usize> = None;
        proof {
            assert(wss.skip(0) =~= wss);
        }
        while i < n
            invariant
                i <= n,
                n == wss.len(),
                *self == *old(self),
                wss == old(self).state.workspaces@,
                under is None ==> first_workspace_at_point(wss, x, y) == (
                match first_workspace_at_point(wss.skip(i as int), x, y) {
                    Some(j) => Some(j + i as int),
                    None => None::<int>,
                }),
                match under {
                    Some(k) => (k as int) < wss.len() && first_workspace_at_point(wss, x, y)
                        == Some(k as int),
                    None => true,
                },
            decreases n - i,
        {
            if under.is_none() {
                proof {
                    lemma_first_workspace_at_point_skip(wss, x, y, i as int);
                }
                let ws = self.state.workspaces[i];
                if workspace_has_point(&ws, x, y) {
                    proof {
                        assert(first_workspace_at_point(wss, x, y) == Some(i as int));
                    }
                    under = Some(i);
                }
            }
            i += 1;
        }
        proof {
            if under is None {
                assert(wss.skip(n as int) =~= Seq::<Workspace>::empty());
                assert(first_workspace_at_point(wss, x, y) is None);
            }
        }
        let tag: TagId = match under {
            Some(k) => self.state.workspaces[k].tag,
            None => match self.state.focus_manager.focused_workspace {
                Some(f) => if f < self.state.workspaces.len() {
                    self.state.workspaces[f].tag
                } else {
                    window.tag
                },
                None => window.tag,
            },
        };
        let mut placed = window;
        placed.tag = tag;
        self.state.windows.push(placed);
        if self.config.focus_new_windows() {
            let handle = placed.handle;
            let _ = self.state.focus_window(&handle);
        }
        true
    }
}

impl<C> Manager<C> {
    /// Registers a screen: a workspace covering it is created, it becomes
    /// the focused workspace, and the next free tag (if the configuration
    /// still has one) becomes its active tag and enters the visit history.
    pub fn screen_create_handler(&mut self, screen: Screen) -> (changed: bool)
        requires
            old(self).state.wf(),
        ensures
            changed == true,
            final(self).state.wf(),
            final(self).state.screens@ == old(self).state.screens@.push(screen),
            final(self).state.workspaces@.len() == old(self).state.workspaces@.len() + 1,
            final(self).state.workspaces@.take(old(self).state.workspaces@.len() as int) == old(self).state.workspaces@,
            final(self).state.workspaces@.last() == (Workspace {
                id: old(self).state.workspaces@.len() as usize,
                tag: (if old(self).state.workspaces@.len() < old(self).state.tags@.len() {
                    (old(self).state.workspaces@.len() + 1) as TagId
                } else {
                    0
                }),
                x: screen.x,
                y: screen.y,
                width: screen.width,
                height: screen.height,
            }),
            final(self).state.focus_manager.focused_workspace == Some(
                old(self).state.workspaces@.len() as usize,
            ),
            (old(self).state.workspaces@.len() < old(self).state.tags@.len()) ==> final(self).state.focus_manager.tag_history@ == promote_hist(
                old(self).state.focus_manager.tag_history@,
                (old(self).state.workspaces@.len() + 1) as TagId,
            ),
            !(old(self).state.workspaces@.len() < old(self).state.tags@.len()) ==> final(self).state.focus_manager.tag_history == old(self).state.focus_manager.tag_history,
            final(self).state.windows == old(self).state.windows,
            final(self).state.tags == old(self).state.tags,
            final(self).state.mode == old(self).state.mode,
            final(self).state.actions == old(self).state.actions,
            final(self).state.mousekey_mask == old(self).state.mousekey_mask,
            final(self).state.focus_manager.behaviour == old(self).state.focus_manager.behaviour,
            final(self).state.focus_manager.focused_window == old(self).state.focus_manager.focused_window,
            final(self).config == old(self).config,
    {
        let idx = self.state.workspaces.len();
        let next_is_valid = idx < self.state.tags.len();
        let tag: TagId = if next_is_valid {
            idx + 1
        } else {
            0
        };
        let ws = Workspace {
            id: idx,
            tag,
            x: screen.x,
            y: screen.y,
            width: screen.width,
            height: screen.height,
        };
        self.state.workspaces.push(ws);
        self.state.screens.push(screen);
        self.state.focus_manager.focused_workspace = Some(idx);
        if next_is_valid {
            proof {
                lemma_promote_hist_wf(
                    self.state.focus_manager.tag_history@,
                    tag,
                    self.state.tags@.len() as int,
                );
            }
            self.state.focus_manager.promote_tag(tag);
        }
        true
    }

    /// Updates the stored properties of the window named by a change
    /// notice; reports whether anything actually changed.  An unknown
    /// handle is a no-op.
    pub fn window_changed_handler(&mut self, window: Window) -> (changed: bool)
        ensures
            old(self).state.wf() ==> final(self).state.wf(),
            final(self).config == old(self).config,
            match first_window_with_handle(old(self).state.windows@, window.handle) {
                Some(k) => {
                    &&& changed == (apply_window_change(old(self).state.windows@[k], window) != old(self).state.windows@[k])
                    &&& final(self).state.windows@ == old(self).state.windows@.update(
                        k,
                        apply_window_change(old(self).state.windows@[k], window),
                    )
                    &&& final(self).state.workspaces == old(self).state.workspaces
                    &&& final(self).state.screens == old(self).state.screens
                    &&& final(self).state.tags == old(self).state.tags
                    &&& final(self).state.mode == old(self).state.mode
                    &&& final(self).state.actions == old(self).state.actions
                    &&& final(self).state.mousekey_mask == old(self).state.mousekey_mask
                    &&& final(self).state.focus_manager == old(self).state.focus_manager
                },
                None => changed == false && *final(self) == *old(self),
            },
    {
        let ghost orig = self.state.windows@;
        let n = self.state.windows.len();
        let mut i: usize = 0;
        proof {
            assert(orig.skip(0) =~= orig);
        }
        while i < n
            invariant
                i <= n,
                n == orig.len(),
                *self == *old(self),
                orig == old(self).state.windows@,
                first_window_with_handle(orig, window.handle) == (
                match first_window_with_handle(orig.skip(i as int), window.handle) {
                    Some(j) => Some(j + i as int),
                    None => None::<int>,
                }),
            decreases n - i,
        {
            proof {
                lemma_first_window_with_handle_skip(orig, window.handle, i as int);
            }
            let stored = self.state.windows[i];
            if stored.handle == window.handle {
                proof {
                    assert(first_window_with_handle(orig, window.handle) == Some(i as int));
                }
                let mut updated = stored;
                updated.x = window.x;
                updated.y = window.y;
                updated.width = window.width;
                updated.height = window.height;
                updated.floating = window.floating;
                let was_different = stored != updated;
                let _ = self.state.windows.remove(i);
                self.state.windows.insert(i, updated);
                proof {
                    assert(self.state.windows@ =~= orig.update(i as int, updated));
                }
                return was_different;
            }
            i += 1;
        }
        proof {
            assert(orig.skip(n as int) =~= Seq::<Window>::empty());
            assert(first_window_with_handle(orig, window.handle) is None);
        }
        false
    }

    /// Removes the window carrying the handle and hands focus to the first
    /// remaining window when the destroyed one was focused.  An unknown
    /// handle is a no-op.
    pub fn window_destroyed_handler(&mut self, handle: &WindowHandle) -> (changed: bool)
        ensures
            old(self).state.wf() ==> final(self).state.wf(),
            final(self).config == old(self).config,
            match first_window_with_handle(old(self).state.windows@, *handle) {
                Some(k) => {
                    &&& changed == true
                    &&& final(self).state.windows@ == old(self).state.windows@.remove(k)
                    &&& final(self).state.workspaces == old(self).state.workspaces
                    &&& final(self).state.screens == old(self).state.screens
                    &&& final(self).state.tags == old(self).state.tags
                    &&& final(self).state.mode == old(self).state.mode
                    &&& final(self).state.mousekey_mask == old(self).state.mousekey_mask
                    &&& final(self).state.focus_manager.behaviour == old(self).state.focus_manager.behaviour
                    &&& final(self).state.focus_manager.focused_workspace == old(self).state.focus_manager.focused_workspace
                    &&& final(self).state.focus_manager.tag_history == old(self).state.focus_manager.tag_history
                    &&& (old(self).state.focus_manager.focused_window != Some(*handle) ==> final(self).state.focus_manager.focused_window == old(self).state.focus_manager.focused_window && final(self).state.actions == old(self).state.actions)
                    &&& (old(self).state.focus_manager.focused_window == Some(*handle) ==> (
                    if final(self).state.windows@.len() > 0 {
                        final(self).state.focus_manager.focused_window == Some(
                            final(self).state.windows@[0].handle,
                        ) && final(self).state.actions@ == old(self).state.actions@.push(
                            DisplayAction::WindowTakeFocus(final(self).state.windows@[0].handle),
                        )
                    } else {
                        final(self).state.focus_manager.focused_window is None && final(self).state.actions == old(self).state.actions
                    }))
                },
                None => changed == false && *final(self) == *old(self),
            },
    {
        let ghost orig = self.state.windows@;
        let n = self.state.windows.len();
        let mut i: usize = 0;
        proof {
            assert(orig.skip(0) =~= orig);
        }
        while i < n
            invariant
                i <= n,
                n == orig.len(),
                *self == *old(self),
                orig == old(self).state.windows@,
                first_window_with_handle(orig, *handle) == (match first_window_with_handle(
                    orig.skip(i as int),
                    *handle,
                ) {
                    Some(j) => Some(j + i as int),
                    None => None::<int>,
                }),
            decreases n - i,
        {
            proof {
                lemma_first_window_with_handle_skip(orig, *handle, i as int);
            }
            if self.state.windows[i].handle == *handle {
                proof {
                    assert(first_window_with_handle(orig, *handle) == Some(i as int));
                }
                let _ = self.state.windows.remove(i);
                let was_focused = match self.state.focus_manager.focused_window {
                    Some(f) => f == *handle,
                    None => false,
                };
                if was_focused {
                    if self.state.windows.len() > 0 {
                        let next = self.state.windows[0].handle;
                        self.state.focus_manager.focused_window = Some(next);
                        self.state.actions.push_back(DisplayAction::WindowTakeFocus(next));
                    } else {
                        self.state.focus_manager.focused_window = None;
                    }
                }
                return true;
            }
            i += 1;
        }
        proof {
            assert(orig.skip(n as int) =~= Seq::<Window>::empty());
            assert(first_window_with_handle(orig, *handle) is None);
        }
        false
    }

    /// Moves the window directly, bypassing layout constraints; the window
    /// floats from then on.  Used while an interactive move is active.  An
    /// unknown handle is a no-op.
    pub fn window_move_handler(&mut self, handle: &WindowHandle, x: i32, y: i32) -> (changed:
        bool)
        ensures
            old(self).state.wf() ==> final(self).state.wf(),
            final(self).config == old(self).config,
            match first_window_with_handle(old(self).state.windows@, *handle) {
                Some(k) => {
                    &&& changed == true
                    &&& final(self).state.windows@ == old(self).state.windows@.update(
                        k,
                        moved_window(old(self).state.windows@[k], x, y),
                    )
                    &&& final(self).state.workspaces == old(self).state.workspaces
                    &&& final(self).state.screens == old(self).state.screens
                    &&& final(self).state.tags == old(self).state.tags
                    &&& final(self).state.mode == old(self).state.mode
                    &&& final(self).state.actions == old(self).state.actions
                    &&& final(self).state.mousekey_mask == old(self).state.mousekey_mask
                    &&& final(self).state.focus_manager == old(self).state.focus_manager
                },
                None => changed == false && *final(self) == *old(self),
            },
    {
        let ghost orig = self.state.windows@;
        let n = self.state.windows.len();
        let mut i: usize = 0;
        proof {
            assert(orig.skip(0) =~= orig);
        }
        while i < n
            invariant
                i <= n,
                n == orig.len(),
                *self == *old(self),
                orig == old(self).state.windows@,
                first_window_with_handle(orig, *handle) == (match first_window_with_handle(
                    orig.skip(i as int),
                    *handle,
                ) {
                    Some(j) => Some(j + i as int),
                    None => None::<int>,
                }),
            decreases n - i,
        {
            proof {
                lemma_first_window_with_handle_skip(orig, *handle, i as int);
            }
            let stored = self.state.windows[i];
            if stored.handle == *handle {
                proof {
                    assert(first_window_with_handle(orig, *handle) == Some(i as int));
                }
                let mut updated = stored;
                updated.x = x;
                updated.y = y;
                updated.floating = true;
                let _ = self.state.windows.remove(i);
                self.state.windows.insert(i, updated);
                proof {
                    assert(self.state.windows@ =~= orig.update(i as int, updated));
                }
                return true;
            }
            i += 1;
        }
        proof {
            assert(orig.skip(n as int) =~= Seq::<Window>::empty());
            assert(first_window_with_handle(orig, *handle) is None);
        }
        false
    }

    /// Resizes the window directly, bypassing layout constraints; the
    /// window floats from then on.  Used while an interactive resize is
    /// active.  An unknown handle is a no-op.
    pub fn window_resize_handler(&mut self, handle: &WindowHandle, width: i32, height: i32) -> (changed:
        bool)
        ensures
            old(self).state.wf() ==> final(self).state.wf(),
            final(self).config == old(self).config,
            match first_window_with_handle(old(self).state.windows@, *handle) {
                Some(k) => {
                    &&& changed == true
                    &&& final(self).state.windows@ == old(self).state.windows@.update(
                        k,
                        resized_window(old(self).state.windows@[k], width, height),
                    )
                    &&& final(self).state.workspaces == old(self).state.workspaces
                    &&& final(self).state.screens == old(self).state.screens
                    &&& final(self).state.tags == old(self).state.tags
                    &&& final(self).state.mode == old(self).state.mode
                    &&& final(self).state.actions == old(self).state.actions
                    &&& final(self).state.mousekey_mask == old(self).state.mousekey_mask
                    &&& final(self).state.focus_manager == old(self).state.focus_manager
                },
                None => changed == false && *final(self) == *old(self),
            },
    {
        let ghost orig = self.state.windows@;
        let n = self.state.windows.len();
        let mut i: usize = 0;
        proof {
            assert(orig.skip(0) =~= orig);
        }
        while i < n
            invariant
                i <= n,
                n == orig.len(),
                *self == *old(self),
                orig == old(self).state.windows@,
                first_window_with_handle(orig, *handle) == (match first_window_with_handle(
                    orig.skip(i as int),
                    *handle,
                ) {
                    Some(j) => Some(j + i as int),
                    None => None::<int>,
                }),
            decreases n - i,
        {
            proof {
                lemma_first_window_with_handle_skip(orig, *handle, i as int);
            }
            let stored = self.state.windows[i];
            if stored.handle == *handle {
                proof {
                    assert(first_window_with_handle(orig, *handle) == Some(i as int));
                }
                let mut updated = stored;
                updated.width = width;
                updated.height = height;
                updated.floating = true;
                let _ = self.state.windows.remove(i);
                self.state.windows.insert(i, updated);
                proof {
                    assert(self.state.windows@ =~= orig.update(i as int, updated));
                }
                return true;
            }
            i += 1;
        }
        proof {
            assert(orig.skip(n as int) =~= Seq::<Window>::empty());
            assert(first_window_with_handle(orig, *handle) is None);
        }
        false
    }

    /// Makes `tag` the focused workspace's active tag and records the visit.
    pub fn goto_tag_handler(&mut self, tag: TagId, swap: bool) -> (handled: bool)
        requires
            old(self).state.wf(),
        ensures
            final(self).state.wf(),
            goto_tag_post(old(self).state, final(self).state, tag, swap, handled),
            final(self).config == old(self).config,
    {
        if tag < 1 || tag > self.state.tags.len() {
            return false;
        }
        let i = match self.state.focus_manager.focused_workspace {
            Some(i) => i,
            None => {
                return false;
            },
        };
        if i >= self.state.workspaces.len() {
            return false;
        }
        let stored = self.state.workspaces.remove(i);
        let mut updated = stored;
        updated.tag = tag;
        self.state.workspaces.insert(i, updated);
        proof {
            assert(self.state.workspaces@ =~= old(self).state.workspaces@.update(
                i as int,
                retagged(old(self).state.workspaces@[i as int], tag),
            ));
        }
        if swap {
            self.state.focus_manager.swap_tag(tag);
            proof {
                lemma_swap_hist_wf(
                    old(self).state.focus_manager.tag_history@,
                    self.state.focus_manager.tag_history@,
                    tag,
                    self.state.tags@.len() as int,
                );
            }
        } else {
            proof {
                lemma_promote_hist_wf(
                    self.state.focus_manager.tag_history@,
                    tag,
                    self.state.tags@.len() as int,
                );
            }
            self.state.focus_manager.promote_tag(tag);
        }
        self.state.actions.push_back(DisplayAction::SetCurrentTags(tag));
        true
    }
}

/// The tag a newly created window is assigned: the tag shown by the
/// workspace under the creation point, else the focused workspace's tag,
/// else the tag the window already carries.
pub open spec fn assigned_tag(s: State, w: Window, x: i32, y: i32) -> TagId {
    match first_workspace_at_point(s.workspaces@, x, y) {
        Some(k) => s.workspaces@[k].tag,
        None => match s.focus_manager.focused_workspace {
            Some(i) => if (i as int) < s.workspaces@.len() {
                s.workspaces@[i as int].tag
            } else {
                w.tag
            },
            None => w.tag,
        },
    }
}

/// The actions one layout pass queues over the windows `ws`: in window
/// order, one update action carrying the new placement for each window that
/// is not already where the layout step puts it.
pub open spec fn update_actions(ws: Seq<Window>, wss: Seq<Workspace>) -> Seq<DisplayAction>
    decreases ws.len(),
{
    if ws.len() == 0 {
        Seq::empty()
    } else {
        (if ws[0] == desired_window(ws[0], wss) {
            Seq::<DisplayAction>::empty()
        } else {
            seq![DisplayAction::UpdateWindow(desired_window(ws[0], wss))]
        }) + update_actions(ws.skip(1), wss)
    }
}

/// The layout pass's actions over a one-window sequence.
pub proof fn lemma_update_actions_singleton(w: Window, wss: Seq<Workspace>)
    ensures
        update_actions(seq![w], wss) == (if w == desired_window(w, wss) {
            Seq::<DisplayAction>::empty()
        } else {
            seq![DisplayAction::UpdateWindow(desired_window(w, wss))]
        }),
{
    assert(seq![w].skip(1) =~= Seq::<Window>::empty());
    assert(update_actions(Seq::<Window>::empty(), wss) == Seq::<DisplayAction>::empty());
    if w == desired_window(w, wss) {
        assert(Seq::<DisplayAction>::empty() + Seq::<DisplayAction>::empty()
            =~= Seq::<DisplayAction>::empty());
    } else {
        assert(seq![DisplayAction::UpdateWindow(desired_window(w, wss))]
            + Seq::<DisplayAction>::empty() =~= seq![
            DisplayAction::UpdateWindow(desired_window(w, wss)),
        ]);
    }
}

/// The layout pass's actions distribute over concatenation of the windows.
pub proof fn lemma_update_actions_concat(a: Seq<Window>, b: Seq<Window>, wss: Seq<Workspace>)
    ensures
        update_actions(a + b, wss) == update_actions(a, wss) + update_actions(b, wss),
    decreases a.len(),
{
    if a.len() == 0 {
        assert(a + b =~= b);
        assert(update_actions(a, wss) + update_actions(b, wss) =~= update_actions(b, wss));
    } else {
        assert((a + b).len() > 0);
        assert((a + b)[0] == a[0]);
        assert((a + b).skip(1) =~= a.skip(1) + b);
        lemma_update_actions_concat(a.skip(1), b, wss);
        let head = if a[0] == desired_window(a[0], wss) {
            Seq::<DisplayAction>::empty()
        } else {
            seq![DisplayAction::UpdateWindow(desired_window(a[0], wss))]
        };
        assert(update_actions(a + b, wss) == head + (update_actions(a.skip(1), wss)
            + update_actions(b, wss)));
        assert(head + (update_actions(a.skip(1), wss) + update_actions(b, wss)) =~= (head
            + update_actions(a.skip(1), wss)) + update_actions(b, wss));
    }
}

/// Computes the placement the layout step assigns to one window.
fn desired_window_exec(w: &Window, wss: &Vec<Workspace>) -> (d: Window)
    ensures
        d == desired_window(*w, wss@),
{
    let n = wss.len();
    let mut i: usize = 0;
    proof {
        assert(wss@.skip(0) =~= wss@);
    }
    while i < n
        invariant
            i <= n,
            n == wss@.len(),
            first_workspace_with_tag(wss@, w.tag) == first_workspace_with_tag(
                wss@.skip(i as int),
                w.tag,
            ),
        decreases n - i,
    {
        proof {
            lemma_first_workspace_with_tag_skip(wss@, w.tag, i as int);
        }
        let ws = wss[i];
        if ws.tag == w.tag {
            proof {
                assert(first_workspace_with_tag(wss@, w.tag) == Some(wss@[i as int]));
            }
            if w.floating {
                return Window { visible: true, ..*w };
            }
            return Window {
                visible: true,
                x: ws.x,
                y: ws.y,
                width: ws.width,
                height: ws.height,
                ..*w
            };
        }
        i += 1;
    }
    proof {
        assert(wss@.skip(n as int) =~= Seq::<Workspace>::empty());
        assert(first_workspace_with_tag(wss@, w.tag) is None);
    }
    Window { visible: false, ..*w }
}

impl<C> Manager<C> {
    /// The layout-recomputation step: every window is moved to the placement
    /// the current workspaces assign it, and one update action is queued for
    /// each window that actually moved.  On a settled state it queues
    /// nothing and changes nothing, so running it twice in succession never
    /// queues more than running it once.
    pub fn update_windows(&mut self)
        ensures
            final(self).state.windows@.len() == old(self).state.windows@.len(),
            forall|i: int|
                0 <= i < old(self).state.windows@.len() ==> final(self).state.windows@[i]
                    == #[trigger] desired_window(
                    old(self).state.windows@[i],
                    old(self).state.workspaces@,
                ),
            final(self).state.workspaces == old(self).state.workspaces,
            final(self).state.screens == old(self).state.screens,
            final(self).state.tags == old(self).state.tags,
            final(self).state.focus_manager == old(self).state.focus_manager,
            final(self).state.mode == old(self).state.mode,
            final(self).state.mousekey_mask == old(self).state.mousekey_mask,
            final(self).config == old(self).config,
            old(self).state.actions@.len() <= final(self).state.actions@.len(),
            final(self).state.actions@.take(old(self).state.actions@.len() as int) == old(self).state.actions@,
            forall|i: int|
                old(self).state.actions@.len() <= i < final(self).state.actions@.len()
                    ==> final(self).state.actions@[i] is UpdateWindow,
            final(self).state.actions@ == old(self).state.actions@ + update_actions(
                old(self).state.windows@,
                old(self).state.workspaces@,
            ),
            layout_settled(old(self).state) ==> *final(self) == *old(self),
            layout_settled(final(self).state),
            old(self).state.wf() ==> final(self).state.wf(),
    {
        let n = self.state.windows.len();
        let mut i: usize = 0;
        proof {
            assert(self.state.actions@.take(old(self).state.actions@.len() as int)
                =~= old(self).state.actions@);
            assert(old(self).state.windows@.take(0) =~= Seq::<Window>::empty());
            assert(self.state.actions@ =~= old(self).state.actions@ + update_actions(
                old(self).state.windows@.take(0),
                old(self).state.workspaces@,
            ));
        }
        while i < n
            invariant
                i <= n,
                n == old(self).state.windows@.len(),
                self.state.windows@.len() == n,
                forall|k: int|
                    0 <= k < i ==> self.state.windows@[k] == #[trigger] desired_window(
                        old(self).state.windows@[k],
                        old(self).state.workspaces@,
                    ),
                forall|k: int|
                    i <= k < n ==> #[trigger] self.state.windows@[k] == old(self).state.windows@[k],
                self.state.workspaces == old(self).state.workspaces,
                self.state.screens == old(self).state.screens,
                self.state.tags == old(self).state.tags,
                self.state.focus_manager == old(self).state.focus_manager,
                self.state.mode == old(self).state.mode,
                self.state.mousekey_mask == old(self).state.mousekey_mask,
                self.config == old(self).config,
                old(self).state.actions@.len() <= self.state.actions@.len(),
                self.state.actions@.take(old(self).state.actions@.len() as int) == old(self).state.actions@,
                forall|k: int|
                    old(self).state.actions@.len() <= k < self.state.actions@.len()
                        ==> self.state.actions@[k] is UpdateWindow,
                self.state.actions@ == old(self).state.actions@ + update_actions(
                    old(self).state.windows@.take(i as int),
                    old(self).state.workspaces@,
                ),
                layout_settled(old(self).state) ==> *self == *old(self),
            decreases n - i,
        {
            let w = self.state.windows[i];
            let d = desired_window_exec(&w, &self.state.workspaces);
            proof {
                if layout_settled(old(self).state) {
                    assert(old(self).state.windows@[i as int] == desired_window(
                        old(self).state.windows@[i as int],
                        old(self).state.workspaces@,
                    ));
                }
                lemma_update_actions_concat(
                    old(self).state.windows@.take(i as int),
                    seq![old(self).state.windows@[i as int]],
                    old(self).state.workspaces@,
                );
                lemma_update_actions_singleton(
                    old(self).state.windows@[i as int],
                    old(self).state.workspaces@,
                );
                assert(old(self).state.windows@.take(i as int) + seq![
                    old(self).state.windows@[i as int],
                ] =~= old(self).state.windows@.take(i as int + 1));
            }
            if w != d {
                let ghost before = self.state.windows@;
                let _ = self.state.windows.remove(i);
                self.state.windows.insert(i, d);
                proof {
                    assert(self.state.windows@ =~= before.update(i as int, d));
                }
                let ghost acts = self.state.actions@;
                self.state.actions.push_back(DisplayAction::UpdateWindow(d));
                proof {
                    assert(self.state.actions@.take(old(self).state.actions@.len() as int)
                        =~= acts.take(old(self).state.actions@.len() as int));
                    assert(self.state.actions@ =~= old(self).state.actions@ + update_actions(
                        old(self).state.windows@.take(i as int + 1),
                        old(self).state.workspaces@,
                    ));
                }
            } else {
                proof {
                    assert(update_actions(
                        old(self).state.windows@.take(i as int + 1),
                        old(self).state.workspaces@,
                    ) =~= update_actions(
                        old(self).state.windows@.take(i as int),
                        old(self).state.workspaces@,
                    ));
                }
            }
            i += 1;
        }
        proof {
            assert(old(self).state.windows@.take(n as int) =~= old(self).state.windows@);
            assert forall|k: int| 0 <= k < self.state.windows@.len() implies self.state.windows@[k]
                == #[trigger] desired_window(self.state.windows@[k], self.state.workspaces@) by {
                lemma_desired_window_idempotent(
                    old(self).state.windows@[k],
                    old(self).state.workspaces@,
                );
            }
        }
    }
}

impl Manager<TestConfig> {
    /// A manager over the minimal test configuration with the given tag
    /// labels.
    pub fn new_test(tags: Vec<String>) -> (m: Manager<TestConfig>)
        ensures
            m.state.wf(),
            m.state.screens@.len() == 0,
            m.state.workspaces@.len() == 0,
            m.state.windows@.len() == 0,
            m.state.mode == Mode::Normal,
            m.state.actions@.len() == 0,
            m.state.focus_manager.tag_history@.len() == 0,
            m.state.focus_manager.focused_window is None,
            m.state.focus_manager.focused_workspace is None,
            m.state.tags@ == tags@,
            m.config.tags@ == tags@,
            m.state.focus_manager.behaviour == FocusBehaviour::ClickTo,
            m.state.mousekey_mask == 0,
    {
        let config = TestConfig { tags };
        let labels = config.create_list_of_tag_labels();
        let behaviour = config.focus_behaviour();
        Manager { state: State::new(labels, behaviour), config }
    }
}

} // verus!

