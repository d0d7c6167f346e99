//! The tray menu's state and its reaction to events.

use vstd::prelude::*;
use vstd::string::*;
use crate::text::same_text;

verus! {

/// What the status item's label begins with.
pub const STATUS_PREFIX: &'static str = "Status: ";

/// The notification that asks the main window to launch.
pub const EVENT_LAUNCH: &'static str = "tray-launch";

/// The notification that asks the main window to show itself.
pub const EVENT_SHOW: &'static str = "tray-show";

/// The tray menu's state: whether a launch is possible, whether the launch
/// item is enabled, and the status item's label.
#[derive(Debug)]
pub struct TrayState {
    can_launch: bool,
    launch_enabled: bool,
    status_label: String,
}

/// What the shell does on a tray event.
#[derive(Clone, Copy, Debug, PartialEq, Eq, Structural)]
pub enum TrayAction {
    /// Nothing.
    Ignore,
    /// Show and focus the main window, then send `EVENT_LAUNCH`.
    ShowAndNotifyLaunch,
    /// Send `EVENT_SHOW`.
    NotifyShow,
    /// Hide the main window and keep it off the task bar.
    HideWindow,
    /// End the process at once.
    Quit,
}

impl TrayState {
    /// The flag and the launch item's enabled state agree.
    #[verifier::type_invariant]
    pub closed spec fn consistent(&self) -> bool {
        self.can_launch == self.launch_enabled
    }

    pub closed spec fn spec_can_launch(&self) -> bool {
        self.can_launch
    }

    pub closed spec fn spec_launch_enabled(&self) -> bool {
        self.launch_enabled
    }

    pub closed spec fn spec_status_label(&self) -> Seq<char> {
        self.status_label@
    }

    /// The state at startup: no launch possible, status "Checking".
    pub fn new() -> (r: TrayState)
        ensures
            !r.spec_can_launch(),
            !r.spec_launch_enabled(),
            r.spec_status_label() == STATUS_PREFIX@ + "Checking"@,
    {
        TrayState {
            can_launch: false,
            launch_enabled: false,
            status_label: STATUS_PREFIX.to_owned().concat("Checking"),
        }
    }

    /// Whether a launch is possible.
    #[verifier::when_used_as_spec(spec_can_launch)]
    pub fn can_launch(&self) -> (r: bool)
        ensures
            r == self.spec_can_launch(),
    {
        self.can_launch
    }

    /// Whether the launch item is enabled: in every state, exactly where a
    /// launch is possible.
    #[verifier::when_used_as_spec(spec_launch_enabled)]
    pub fn launch_enabled(&self) -> (r: bool)
        ensures
            r == self.spec_launch_enabled(),
            r == self.spec_can_launch(),
    {
        proof {
            use_type_invariant(self);
        }
        self.launch_enabled
    }

    /// The status item's label.
    pub fn status_label(&self) -> (r: String)
        ensures
            r@ == self.spec_status_label(),
    {
        self.status_label.clone()
    }

    /// Sets the flag and the launch item's enabled state to `can_launch`, both
    /// at once, and the status item's label to the prefix and `status_text`.
    pub fn update_tray_state(&mut self, can_launch: bool, status_text: &str)
        ensures
            final(self).spec_can_launch() == can_launch,
            final(self).spec_launch_enabled() == can_launch,
            final(self).spec_status_label() == STATUS_PREFIX@ + status_text@,
    {
        *self = TrayState {
            can_launch,
            launch_enabled: can_launch,
            status_label: STATUS_PREFIX.to_owned().concat(status_text),
        };
    }

    /// The reaction to the menu item `id` in this state.
    pub fn on_menu_event(&self, id: &str) -> (r: TrayAction)
        ensures
            r == menu_action(self.spec_can_launch(), id@),
    {
        menu_event_action(self.can_launch, id)
    }
}

/// The reaction to the menu item `id`: `launch` shows the window and notifies
/// it where a launch is possible and is ignored where not; `show`, `hide` and
/// `quit` do what they say; any other item is ignored. Where the state cannot
/// be read, no launch is possible.
pub fn menu_event_action(can_launch: bool, id: &str) -> (r: TrayAction)
    ensures
        r == menu_action(can_launch, id@),
{
    if same_text(id, "launch") {
        if can_launch {
            TrayAction::ShowAndNotifyLaunch
        } else {
            TrayAction::Ignore
        }
    } else if same_text(id, "show") {
        TrayAction::NotifyShow
    } else if same_text(id, "hide") {
        TrayAction::HideWindow
    } else if same_text(id, "quit") {
        TrayAction::Quit
    } else {
        TrayAction::Ignore
    }
}

/// The reaction to a menu item, by its identifier.
pub open spec fn menu_action(can_launch: bool, id: Seq<char>) -> TrayAction {
    if id == "launch"@ {
        if can_launch {
            TrayAction::ShowAndNotifyLaunch
        } else {
            TrayAction::Ignore
        }
    } else if id == "show"@ {
        TrayAction::NotifyShow
    } else if id == "hide"@ {
        TrayAction::HideWindow
    } else if id == "quit"@ {
        TrayAction::Quit
    } else {
        TrayAction::Ignore
    }
}

/// The reaction to a double click on the tray icon: that of the `show` item.
pub fn on_double_click() -> (r: TrayAction)
    ensures
        r == TrayAction::NotifyShow,
        forall|can_launch: bool| r == menu_action(can_launch, "show"@),
{
    proof {
        reveal_strlit("show");
        reveal_strlit("launch");
        assert("show"@ != "launch"@) by {
            assert("show"@.len() != "launch"@.len());
        }
    }
    TrayAction::NotifyShow
}

} // verus!
