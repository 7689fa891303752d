//! The window lifecycle controller: a state machine from tray, menu and
//! window events to window commands.
//!
//! The host framework owns the event loop and the window; it reports each
//! event to this module and performs the single [`Action`] handed back.
//! The state tracks what the framework's window looks like after the
//! commands issued so far have taken effect.

use vstd::prelude::*;
use vstd::string::StrSliceExecFns;

verus! {

/// Identity of a tray menu entry, decoded from the framework's string key
/// at the boundary. `Other` is the explicit branch for an unmatched key;
/// it is handled as a no-op rather than silently possible to forget.
#[derive(Clone, Copy, Debug, PartialEq, Eq, Structural)]
pub enum MenuId {
    Show,
    Quit,
    Other,
}

/// Mouse button of a tray icon click.
#[derive(Clone, Copy, Debug, PartialEq, Eq, Structural)]
pub enum MouseButton {
    Left,
    Right,
    Middle,
}

/// Whether the button was pressed or released.
#[derive(Clone, Copy, Debug, PartialEq, Eq, Structural)]
pub enum MouseButtonState {
    Up,
    Down,
}

/// One event delivered by the host framework's main loop.
#[derive(Clone, Copy, Debug, PartialEq, Eq, Structural)]
pub enum Event {
    /// A tray menu entry was activated.
    Menu(MenuId),
    /// The tray icon itself was clicked.
    TrayClick { button: MouseButton, button_state: MouseButtonState },
    /// The user asked to close the main window.
    CloseRequested,
    /// A second launch of the application was redirected here.
    SecondInstance,
}

/// The command the controller asks the host framework to perform in
/// response to one event.
#[derive(Clone, Copy, Debug, PartialEq, Eq, Structural)]
pub enum Action {
    /// Make the main window visible and give it input focus.
    ShowFocus,
    /// Hide the main window and suppress the default close, so the
    /// process keeps running in the background.
    HidePreventClose,
    /// Terminate the process with the given exit code.
    Exit { code: i32 },
    /// Nothing to do.
    NoOp,
}

/// What the controller knows of the single main window and of the process.
///
/// `window_present` records whether the framework's window lookup finds
/// the main window; handlers tolerate its absence silently. `running` is
/// false once the process has been told to exit, after which no further
/// event has any effect.
#[derive(Clone, Copy, Debug, PartialEq, Eq, Structural)]
pub struct ControllerState {
    pub window_present: bool,
    pub visible: bool,
    pub focused: bool,
    pub running: bool,
}

/// An event that asks for the window to be shown and focused: the "show"
/// menu entry, a left-click release on the tray icon, or a redirected
/// second launch.
pub open spec fn is_show_trigger(e: Event) -> bool {
    match e {
        Event::Menu(MenuId::Show) => true,
        Event::TrayClick { button, button_state } => button == MouseButton::Left
            && button_state == MouseButtonState::Up,
        Event::SecondInstance => true,
        _ => false,
    }
}

/// The one event that terminates the process: the "quit" menu entry.
pub open spec fn is_quit(e: Event) -> bool {
    e == Event::Menu(MenuId::Quit)
}

/// The state after the window is shown and focused, when it is present;
/// absence of the window is tolerated as a no-op.
pub open spec fn shown_state(s: ControllerState) -> ControllerState {
    if s.window_present {
        ControllerState { visible: true, focused: true, ..s }
    } else {
        s
    }
}

/// The state after the window is hidden: no longer visible nor focused.
pub open spec fn hidden_state(s: ControllerState) -> ControllerState {
    ControllerState { visible: false, focused: false, ..s }
}

/// The transition function of the controller.
pub open spec fn next_state(s: ControllerState, e: Event) -> ControllerState {
    if !s.running {
        s
    } else if is_quit(e) {
        ControllerState { running: false, ..s }
    } else if is_show_trigger(e) {
        shown_state(s)
    } else if e == Event::CloseRequested {
        hidden_state(s)
    } else {
        s
    }
}

/// The command issued for one event in a given state.
pub open spec fn action_of(s: ControllerState, e: Event) -> Action {
    if !s.running {
        Action::NoOp
    } else if is_quit(e) {
        Action::Exit { code: 0 }
    } else if is_show_trigger(e) {
        if s.window_present {
            Action::ShowFocus
        } else {
            Action::NoOp
        }
    } else if e == Event::CloseRequested {
        Action::HidePreventClose
    } else {
        Action::NoOp
    }
}

/// Handles one event: returns the state after it and the command the host
/// framework is asked to perform.
pub fn step(s: ControllerState, e: Event) -> (r: (ControllerState, Action))
    ensures
        r.0 == next_state(s, e),
        r.1 == action_of(s, e),
{
    if !s.running {
        return (s, Action::NoOp);
    }
    match e {
        Event::Menu(MenuId::Quit) => (
            ControllerState { running: false, ..s },
            Action::Exit { code: 0 },
        ),
        Event::Menu(MenuId::Show) | Event::SecondInstance => show_focus(s),
        Event::Menu(MenuId::Other) => (s, Action::NoOp),
        Event::TrayClick { button: MouseButton::Left, button_state: MouseButtonState::Up } => (
            show_focus(s)
        ),
        Event::TrayClick { .. } => (s, Action::NoOp),
        Event::CloseRequested => (
            ControllerState { visible: false, focused: false, ..s },
            Action::HidePreventClose,
        ),
    }
}

/// Shows and focuses the window when it is present; a silent no-op when
/// the window lookup failed.
fn show_focus(s: ControllerState) -> (r: (ControllerState, Action))
    requires
        s.running,
    ensures
        r.0 == shown_state(s),
        r.1 == (if s.window_present {
            Action::ShowFocus
        } else {
            Action::NoOp
        }),
{
    if s.window_present {
        (ControllerState { visible: true, focused: true, ..s }, Action::ShowFocus)
    } else {
        (s, Action::NoOp)
    }
}

/// Tray menu handler: "quit" exits the process with code 0, "show" shows
/// and focuses the window, an unmatched key does nothing.
pub fn on_tray_menu_event(s: ControllerState, id: MenuId) -> (r: (ControllerState, Action))
    ensures
        r.0 == next_state(s, Event::Menu(id)),
        r.1 == action_of(s, Event::Menu(id)),
{
    step(s, Event::Menu(id))
}

/// Tray icon handler: a left-button release shows and focuses the window;
/// every other click is ignored.
pub fn on_tray_icon_event(
    s: ControllerState,
    button: MouseButton,
    button_state: MouseButtonState,
) -> (r: (ControllerState, Action))
    ensures
        r.0 == next_state(s, Event::TrayClick { button, button_state }),
        r.1 == action_of(s, Event::TrayClick { button, button_state }),
{
    step(s, Event::TrayClick { button, button_state })
}

/// Close-request handler: the window is hidden and the default close is
/// suppressed, so the process keeps running in the background.
pub fn on_window_close_requested(s: ControllerState) -> (r: (ControllerState, Action))
    ensures
        r.0 == next_state(s, Event::CloseRequested),
        r.1 == action_of(s, Event::CloseRequested),
        r.0.running == s.running,
        s.running ==> !r.0.visible && r.1 == Action::HidePreventClose,
{
    step(s, Event::CloseRequested)
}

/// Second-launch handler, run in the already-running instance: the
/// existing window is shown and focused; no new window is created.
pub fn on_second_instance(s: ControllerState) -> (r: (ControllerState, Action))
    ensures
        r.0 == next_state(s, Event::SecondInstance),
        r.1 == action_of(s, Event::SecondInstance),
        s.running && s.window_present ==> r.0.visible && r.0.focused && r.1 == Action::ShowFocus,
{
    step(s, Event::SecondInstance)
}

/// The state reached from `s` after a whole sequence of events.
pub open spec fn run_events(s: ControllerState, evs: Seq<Event>) -> ControllerState
    decreases evs.len(),
{
    if evs.len() == 0 {
        s
    } else {
        run_events(next_state(s, evs[0]), evs.skip(1))
    }
}

/// The process never exits on its own: after any sequence of events in
/// which no "quit" entry was activated — close requests, clicks, second
/// launches, in any number and order — it is still running.
pub proof fn lemma_only_quit_exits(s: ControllerState, evs: Seq<Event>)
    requires
        s.running,
        forall|i: int| 0 <= i < evs.len() ==> !is_quit(#[trigger] evs[i]),
    ensures
        run_events(s, evs).running,
    decreases evs.len(),
{
    if evs.len() > 0 {
        let s1 = next_state(s, evs[0]);
        assert(!is_quit(evs[0]));
        assert forall|i: int| 0 <= i < evs.skip(1).len() implies !is_quit(
            #[trigger] evs.skip(1)[i],
        ) by {
            assert(evs.skip(1)[i] == evs[i + 1]);
        }
        lemma_only_quit_exits(s1, evs.skip(1));
    }
}

/// The explicit quit action, and nothing else, terminates the process.
pub proof fn lemma_quit_exits(s: ControllerState, e: Event)
    requires
        s.running,
    ensures
        !next_state(s, e).running <==> is_quit(e),
        is_quit(e) ==> action_of(s, e) == (Action::Exit { code: 0 }),
{
}

/// A show trigger leaves the window visible and focused, whether it was
/// hidden or already visible.
pub proof fn lemma_show_shows(s: ControllerState, e: Event)
    requires
        s.running,
        s.window_present,
        is_show_trigger(e),
    ensures
        next_state(s, e).visible,
        next_state(s, e).focused,
        action_of(s, e) == Action::ShowFocus,
{
}

/// Showing is idempotent: a second show trigger changes nothing.
pub proof fn lemma_show_idempotent(s: ControllerState, e: Event)
    requires
        is_show_trigger(e),
    ensures
        next_state(next_state(s, e), e) == next_state(s, e),
{
}

/// Character-wise string equality, so that menu keys can be compared with
/// a verified contract.
pub fn str_eq(a: &str, b: &str) -> (r: bool)
    ensures
        r == (a@ == b@),
{
    let alen = a.unicode_len();
    let blen = b.unicode_len();
    if alen != blen {
        return false;
    }
    let mut i: usize = 0;
    while i < alen
        invariant
            alen == a@.len(),
            blen == b@.len(),
            alen == blen,
            i <= alen,
            forall|j: int| 0 <= j < i ==> a@[j] == b@[j],
        decreases alen - i,
    {
        if a.get_char(i) != b.get_char(i) {
            return false;
        }
        i += 1;
    }
    proof {
        assert(a@ =~= b@);
    }
    true
}

/// Decodes the framework's string key of a tray menu entry into the
/// closed set of identities the controller dispatches on.
pub fn menu_id_of(s: &str) -> (id: MenuId)
    ensures
        (id == MenuId::Show) == (s@ == "show"@),
        (id == MenuId::Quit) == (s@ == "quit"@),
        (id == MenuId::Other) == (s@ != "show"@ && s@ != "quit"@),
{
    proof {
        reveal_strlit("show");
        reveal_strlit("quit");
        assert("show"@[0] != "quit"@[0]);
    }
    if str_eq(s, "show") {
        MenuId::Show
    } else if str_eq(s, "quit") {
        MenuId::Quit
    } else {
        MenuId::Other
    }
}

/// One entry of the tray menu: the key the framework reports back on
/// activation, and the label the user sees.
#[derive(Clone, Copy, Debug)]
pub struct MenuEntry {
    pub key: &'static str,
    pub label: &'static str,
}

/// The fixed tray menu: a "show" entry labelled "Show", then a "quit"
/// entry labelled "Exit".
pub fn tray_menu_entries() -> (entries: Vec<MenuEntry>)
    ensures
        entries@.len() == 2,
        entries@[0].key@ == "show"@,
        entries@[0].label@ == "Show"@,
        entries@[1].key@ == "quit"@,
        entries@[1].label@ == "Exit"@,
{
    let mut entries: Vec<MenuEntry> = Vec::new();
    entries.push(MenuEntry { key: "show", label: "Show" });
    entries.push(MenuEntry { key: "quit", label: "Exit" });
    entries
}

} // verus!

