//! What holds of the shell as a whole, proved from the definitions of its
//! transitions.

use vstd::prelude::*;
use crate::audio::{mute_reply_spec, mute_request_spec, Platform};
use crate::settings::{json_parse, start_minimized_spec, Json, START_MINIMIZED_KEY};
use crate::shell::{Action, Event, LockOutcome, Shell, ToggleState};
use crate::tray::{MenuItemId, MouseButton, MouseButtonState, ToggleLabel, TrayIconEvent};
use crate::window::WindowEvent;

verus! {

/// The state of a session after a sequence of events, taken in order.
pub open spec fn after(start: Shell, events: Seq<Event>) -> Shell
    decreases events.len(),
{
    if events.len() == 0 {
        start
    } else {
        after(start, events.drop_last()).next(events.last())
    }
}

/// On a platform that cannot mute, the mute command makes no call into the
/// platform and succeeds, whichever value it is given.
pub proof fn lemma_mute_without_capability(platform: Platform, mute: bool)
    requires
        !platform.supports_mute(),
    ensures
        mute_request_spec(platform, mute) is None,
        mute_reply_spec(None) is Ok,
{
}

/// On a platform that can mute, the command hands the platform the value it
/// was given and answers what the platform answered.
pub proof fn lemma_mute_with_capability(
    platform: Platform,
    mute: bool,
    outcome: Result<(), String>,
)
    requires
        platform.supports_mute(),
    ensures
        mute_request_spec(platform, mute) == Some(mute),
        mute_reply_spec(Some(outcome)) == outcome,
{
}

/// Once the tray is built and the slot is locked, the toggle item shows the
/// text for the state that the frontend reported: "activate" for a disabled
/// frontend, "disable" for an enabled one. The host is told to set that text.
pub proof fn lemma_toggle_text_follows_update(shell: Shell, is_disabled: bool)
    requires
        shell.live(),
        shell.toggle is Item,
    ensures
        ({
            let event = Event::ToggleTextUpdate { is_disabled, lock: LockOutcome::Acquired };
            let label = ToggleLabel::spec_for_state(is_disabled);
            &&& shell.next(event).spec_toggle_text() == Some(label.spec_text())
            &&& shell.actions(event) == seq![Action::SetToggleText(label)]
            &&& label == (if is_disabled {
                ToggleLabel::Activate
            } else {
                ToggleLabel::Disable
            })
        }),
{
}

/// Before the tray is built, or where the slot could not be locked, an update
/// of the toggle text changes nothing and asks nothing of the host.
pub proof fn lemma_toggle_update_without_item(shell: Shell, is_disabled: bool, lock: LockOutcome)
    requires
        shell.toggle is Empty || lock is Poisoned,
    ensures
        shell.next(Event::ToggleTextUpdate { is_disabled, lock }) == shell,
        shell.actions(Event::ToggleTextUpdate { is_disabled, lock }) == Seq::<Action>::empty(),
{
}

/// Only the building of the tray and an update from the frontend change what
/// the toggle slot holds. A click on the toggle item itself does not.
pub proof fn lemma_toggle_text_changes_only_by_update(shell: Shell, event: Event)
    requires
        !(event is TrayBuilt),
        !(event is ToggleTextUpdate),
    ensures
        shell.next(event).toggle == shell.toggle,
{
}

/// A close request never ends the session. It hides the window and cancels
/// the close; afterwards the tray's show item and a left click on the tray
/// icon each bring the window back.
pub proof fn lemma_close_hides_and_show_restores(shell: Shell)
    requires
        shell.live(),
    ensures
        ({
            let close = Event::Window(WindowEvent::CloseRequested);
            let closed = shell.next(close);
            let click = Event::TrayIcon(
                TrayIconEvent::Click {
                    button: MouseButton::Left,
                    button_state: MouseButtonState::Up,
                },
            );
            &&& closed.stage == shell.stage
            &&& closed.live()
            &&& closed.window is Hidden
            &&& shell.actions(close) == seq![Action::HideWindow, Action::PreventClose]
            &&& closed.next(Event::Menu(Some(MenuItemId::Show))).window is Visible
            &&& closed.next(Event::Menu(Some(MenuItemId::Show))).live()
            &&& closed.next(click).window is Visible
            &&& closed.next(click).live()
        }),
{
}

/// Showing the window is idempotent: the show item, and a left click on the
/// tray icon, may be used on a visible window, and a second use changes
/// nothing more than the first.
pub proof fn lemma_show_is_idempotent(shell: Shell)
    ensures
        ({
            let show = Event::Menu(Some(MenuItemId::Show));
            let click = Event::TrayIcon(
                TrayIconEvent::Click {
                    button: MouseButton::Left,
                    button_state: MouseButtonState::Up,
                },
            );
            &&& shell.next(show).next(show) == shell.next(show)
            &&& shell.next(click) == shell.next(show)
            &&& shell.actions(click) == shell.actions(show)
            &&& shell.next(show).actions(show) == shell.actions(show)
        }),
{
}

/// A live session is ended by a click on the quit item and by nothing else,
/// and the quit item ends it with the exit code 0.
pub proof fn lemma_only_quit_terminates(shell: Shell, event: Event)
    requires
        shell.live(),
    ensures
        shell.next(event).stage is Terminated <==> event == Event::Menu(Some(MenuItemId::Quit)),
        event == Event::Menu(Some(MenuItemId::Quit)) ==> shell.actions(event) == seq![
            Action::Exit(0),
        ],
        event != Event::Menu(Some(MenuItemId::Quit)) ==> forall|i: int|
            0 <= i < shell.actions(event).len() ==> !(#[trigger] shell.actions(event)[i] is Exit),
{
}

/// Whatever else happens, a session that the user has not quit is not
/// terminated: no sequence of events without a click on the quit item ends it.
pub proof fn lemma_session_survives_without_quit(start: Shell, events: Seq<Event>)
    requires
        !(start.stage is Terminated),
        forall|i: int|
            0 <= i < events.len() ==> #[trigger] events[i] != Event::Menu(Some(MenuItemId::Quit)),
    ensures
        !(after(start, events).stage is Terminated),
    decreases events.len(),
{
    if events.len() > 0 {
        lemma_session_survives_without_quit(start, events.drop_last());
        let before = after(start, events.drop_last());
        assert(events.last() == events[events.len() - 1]);
        if before.live() {
            lemma_only_quit_terminates(before, events.last());
        }
    }
}

/// A session that failed to start or that the user quit stays as it is and
/// asks nothing more of the host.
pub proof fn lemma_ended_session_is_inert(shell: Shell, event: Event)
    requires
        !shell.live(),
    ensures
        shell.next(event) == shell,
        shell.actions(event) == Seq::<Action>::empty(),
{
}

/// Every transition keeps the toggle slot in step with the stage.
pub proof fn lemma_next_preserves_wf(shell: Shell, event: Event)
    requires
        shell.wf(),
    ensures
        shell.next(event).wf(),
{
}

/// Every state that a session can reach from its beginning keeps the toggle
/// slot in step with the stage.
pub proof fn lemma_reachable_states_are_wf(events: Seq<Event>)
    ensures
        after(Shell::initial(), events).wf(),
    decreases events.len(),
{
    if events.len() > 0 {
        lemma_reachable_states_are_wf(events.drop_last());
        lemma_next_preserves_wf(after(Shell::initial(), events.drop_last()), events.last());
    }
}

/// A failed launch of the backend worker does not hold the startup up: the
/// session goes on to build the tray exactly as after a launch that worked.
pub proof fn lemma_backend_failure_does_not_abort(shell: Shell)
    ensures
        shell.next(Event::BackendLaunched { ok: false }) == shell.next(
            Event::BackendLaunched { ok: true },
        ),
        shell.actions(Event::BackendLaunched { ok: false }) == shell.actions(
            Event::BackendLaunched { ok: true },
        ),
        shell.stage is LaunchingBackend ==> shell.next(
            Event::BackendLaunched { ok: false },
        ).stage is BuildingTray,
{
}

/// A tray that cannot be built ends the startup: the session fails and the
/// host is told to give the startup up.
pub proof fn lemma_tray_failure_aborts(shell: Shell)
    requires
        shell.stage is BuildingTray,
    ensures
        shell.next(Event::TrayBuilt { ok: false }).stage is Failed,
        shell.actions(Event::TrayBuilt { ok: false }) == seq![Action::AbortStartup],
{
}

/// The startup, step by step. Whatever the launch of the backend came to, a
/// session whose tray was built ends up running, with the toggle item showing
/// "disable". The window is shown and focused exactly where the startup
/// policy does not ask for a start in the tray; where it does, the window
/// stays hidden and the host is asked nothing about it.
pub proof fn lemma_startup(backend_ok: bool, start_minimized: bool)
    ensures
        ({
            let s0 = Shell::initial();
            let s1 = s0.next(Event::SetupStarted);
            let s2 = s1.next(Event::BackendLaunched { ok: backend_ok });
            let s3 = s2.next(Event::TrayBuilt { ok: true });
            let s4 = s3.next(Event::SettingsLoaded { start_minimized });
            &&& s0.actions(Event::SetupStarted) == seq![Action::LaunchBackend]
            &&& s1.actions(Event::BackendLaunched { ok: backend_ok }) == seq![Action::BuildTray]
            &&& s2.actions(Event::TrayBuilt { ok: true }) == seq![Action::LoadSettings]
            &&& s3.toggle == ToggleState::Item(ToggleLabel::Disable)
            &&& s3.window is Hidden
            &&& s4.stage is Running
            &&& s4.toggle == s3.toggle
            &&& start_minimized ==> s4.window is Hidden && s3.actions(
                Event::SettingsLoaded { start_minimized },
            ) == Seq::<Action>::empty()
            &&& !start_minimized ==> s4.window is Visible && s3.actions(
                Event::SettingsLoaded { start_minimized },
            ) == seq![Action::ShowWindow, Action::FocusWindow]
        }),
{
}

/// The startup policy, case by case. It is `false` without a settings
/// document, for a text that is not JSON, for a document that is not an
/// object, for an object without the field, and for a field that is not a
/// boolean. Where the field is a boolean, the policy is that boolean.
pub proof fn lemma_start_minimized_cases(text: Seq<char>)
    ensures
        !start_minimized_spec(None),
        start_minimized_spec(Some(text)) == match json_parse(text) {
            None => false,
            Some(Json::Object(members)) => if members.contains_key(START_MINIMIZED_KEY@) {
                match members[START_MINIMIZED_KEY@] {
                    Json::Bool(flag) => flag,
                    _ => false,
                }
            } else {
                false
            },
            Some(_) => false,
        },
{
}

} // verus!
