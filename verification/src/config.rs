//! The configuration boundary: everything the core learns from the user's
//! configuration comes through this trait, including a custom command
//! handler for command names the dispatcher does not recognize itself.

use vstd::prelude::*;

use crate::command::Keybind;
use crate::manager::Manager;
use crate::models::FocusBehaviour;
use crate::models::Mode;
use crate::models::Gutter;
use crate::models::Layout;
use crate::models::LayoutMode;
use crate::models::Margins;
use crate::models::ScratchPad;
use crate::models::Size;
use crate::models::Workspace;
use crate::state::State;

verus! {

pub trait Config: Sized {
    /// The mapped bindings as the contracts see them: the specification-level
    /// view of what `mapped_bindings` returns.
    spec fn bindings_spec(&self) -> Seq<Keybind>;

    /// Returns a collection of bindings with the mod key mapped.
    fn mapped_bindings(&self) -> (bindings: Vec<Keybind>)
        ensures
            bindings@ == self.bindings_spec(),
    ;

    fn create_list_of_tag_labels(&self) -> Vec<String>;

    fn workspaces(&self) -> Option<Vec<Workspace>>;

    fn focus_behaviour(&self) -> FocusBehaviour;

    fn mousekey(&self) -> String;

    fn create_list_of_scratchpads(&self) -> Vec<ScratchPad>;

    fn layouts(&self) -> Vec<Layout>;

    fn layout_mode(&self) -> LayoutMode;

    fn focus_new_windows(&self) -> bool;

    /// Handles a command name the dispatcher does not recognize itself; it
    /// returns false when it cannot interpret the command.  A handler may
    /// mutate the manager at will, but it must leave the state well-formed
    /// and may not disturb an active modal mode: only `ChangeToNormalMode`
    /// leaves Moving or Resizing.
    fn command_handler(command: &str, manager: &mut Manager<Self>) -> (handled: bool)
        requires
            old(manager).state.wf(),
        ensures
            final(manager).state.wf(),
            old(manager).state.mode != Mode::Normal ==> final(manager).state.mode == old(
                manager,
            ).state.mode,
    ;

    fn always_float(&self) -> bool;

    fn default_width(&self) -> i32;

    fn default_height(&self) -> i32;

    fn border_width(&self) -> i32;

    fn margin(&self) -> Margins;

    fn workspace_margin(&self) -> Option<Margins>;

    fn gutter(&self) -> Option<Vec<Gutter>>;

    fn default_border_color(&self) -> String;

    fn floating_border_color(&self) -> String;

    fn focused_border_color(&self) -> String;

    fn on_new_window_cmd(&self) -> Option<String>;

    fn get_list_of_gutters(&self) -> Vec<Gutter>;

    fn max_window_width(&self) -> Option<Size>;

    /// Attempt to write current state to a file.
    ///
    /// It will be used to restore the state after soft reload.
    ///
    /// **Note:** this function cannot fail.
    fn save_state(&self, state: &State);

    /// Load saved state if it exists.
    fn load_state(&self, state: &mut State)
        requires
            old(state).wf(),
        ensures
            final(state).wf(),
    ;
}

/// A minimal configuration for exercising the core: a plain tag list, the
/// click-to-focus policy, and a custom command handler that understands one
/// command name.
pub struct TestConfig {
    pub tags: Vec<String>,
}

impl Config for TestConfig {
    /// This configuration binds no chords.
    open spec fn bindings_spec(&self) -> Seq<Keybind> {
        Seq::empty()
    }

    fn mapped_bindings(&self) -> (bindings: Vec<Keybind>) {
        Vec::new()
    }

    fn create_list_of_tag_labels(&self) -> (labels: Vec<String>)
        ensures
            labels@ == self.tags@,
    {
        let labels = self.tags.clone();
        proof {
            assert(labels@ =~= self.tags@);
        }
        labels
    }

    fn workspaces(&self) -> Option<Vec<Workspace>> {
        None
    }

    fn focus_behaviour(&self) -> (behaviour: FocusBehaviour)
        ensures
            behaviour == FocusBehaviour::ClickTo,
    {
        FocusBehaviour::ClickTo
    }

    fn mousekey(&self) -> String {
        "Mod4".to_owned()
    }

    fn create_list_of_scratchpads(&self) -> Vec<ScratchPad> {
        Vec::new()
    }

    fn layouts(&self) -> Vec<Layout> {
        Vec::new()
    }

    fn layout_mode(&self) -> LayoutMode {
        LayoutMode::Workspace
    }

    fn focus_new_windows(&self) -> bool {
        false
    }

    /// Understands exactly one command name: "GoToTag2" becomes a
    /// go-to-tag-2 dispatch; anything else is not interpreted and changes
    /// nothing.
    fn command_handler(command: &str, manager: &mut Manager<TestConfig>) -> (handled: bool)
        ensures
            command@ == "GoToTag2"@ ==> crate::manager::goto_tag_post(
                old(manager).state,
                final(manager).state,
                2,
                false,
                handled,
            ),
            command@ != "GoToTag2"@ ==> handled == false && *final(manager) == *old(manager),
    {
        let requested = command.to_owned();
        let go_to_tag_two = "GoToTag2".to_owned();
        if requested == go_to_tag_two {
            manager.goto_tag_handler(2, false)
        } else {
            false
        }
    }

    fn always_float(&self) -> bool {
        false
    }

    fn default_width(&self) -> i32 {
        1000
    }

    fn default_height(&self) -> i32 {
        800
    }

    fn border_width(&self) -> i32 {
        0
    }

    fn margin(&self) -> Margins {
        Margins::new(0)
    }

    fn workspace_margin(&self) -> Option<Margins> {
        None
    }

    fn gutter(&self) -> Option<Vec<Gutter>> {
        None
    }

    fn default_border_color(&self) -> String {
        String::new()
    }

    fn floating_border_color(&self) -> String {
        String::new()
    }

    fn focused_border_color(&self) -> String {
        String::new()
    }

    fn on_new_window_cmd(&self) -> Option<String> {
        None
    }

    fn get_list_of_gutters(&self) -> Vec<Gutter> {
        Vec::new()
    }

    fn max_window_width(&self) -> Option<Size> {
        None
    }

    fn save_state(&self, _state: &State) {
    }

    fn load_state(&self, _state: &mut State) {
    }
}

} // verus!
