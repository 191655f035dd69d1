//! The session shell controller.
//!
//! The shell is a state machine. The host feeds it what happened (a step of
//! the startup finished, the user clicked the tray, the window was asked to
//! close, the frontend sent a command) and performs the actions that come
//! back, in order. The shell itself touches nothing outside its own state.

use vstd::prelude::*;
use crate::tray::{MenuItemId, ToggleLabel, TrayIconEvent};
use crate::window::{WindowEvent, WindowState};

verus! {

/// The name of the worker executable that the host launches beside the shell.
pub const BACKEND_SIDECAR: &'static str = "pausetime-backend";

/// The exit code of a session that the user ended from the tray menu.
pub const EXIT_CODE: i32 = 0;

/// How far the session has come.
#[derive(Clone, Copy, Debug, PartialEq, Eq, Structural)]
pub enum Stage {
    /// Nothing has happened yet.
    Created,
    /// The host is launching the backend worker.
    LaunchingBackend,
    /// The host is building the tray menu and the tray icon.
    BuildingTray,
    /// The tray is in place; the host is reading the startup policy.
    LoadingSettings,
    /// The startup is over; the shell reacts to the user and the frontend.
    Running,
    /// The tray could not be built: the startup was given up.
    Failed,
    /// The user quit from the tray menu.
    Terminated,
}

/// The slot for the tray menu's live toggle item. It is empty until the tray
/// is built. From then on it holds the item, of which the shell keeps the text.
#[derive(Clone, Copy, Debug, PartialEq, Eq, Structural)]
pub enum ToggleState {
    Empty,
    Item(ToggleLabel),
}

/// How the host's attempt to lock the toggle slot ended.
#[derive(Clone, Copy, Debug, PartialEq, Eq, Structural)]
pub enum LockOutcome {
    Acquired,
    Poisoned,
}

/// What the host reports to the shell.
#[derive(Clone, Copy, Debug, PartialEq, Eq, Structural)]
pub enum Event {
    /// The host is ready to set the session up.
    SetupStarted,
    /// The launch of the backend worker ended, well or not.
    BackendLaunched { ok: bool },
    /// The construction of the tray menu and icon ended, well or not.
    TrayBuilt { ok: bool },
    /// The startup policy was read.
    SettingsLoaded { start_minimized: bool },
    /// An item of the tray menu was clicked; `None` stands for an identifier
    /// that names no item of the menu.
    Menu(Option<MenuItemId>),
    /// Something happened to the tray icon.
    TrayIcon(TrayIconEvent),
    /// Something happened to the main window.
    Window(WindowEvent),
    /// The frontend reported its state, to have the toggle item's text follow.
    ToggleTextUpdate { is_disabled: bool, lock: LockOutcome },
}

/// What the shell asks the host to do.
#[derive(Clone, Copy, Debug, PartialEq, Eq, Structural)]
pub enum Action {
    /// Launch the backend worker and report `Event::BackendLaunched`.
    LaunchBackend,
    /// Build the tray menu and icon and report `Event::TrayBuilt`.
    BuildTray,
    /// Read the startup policy and report `Event::SettingsLoaded`.
    LoadSettings,
    /// Give the startup up with the error that the construction of the tray
    /// returned.
    AbortStartup,
    /// Show the main window.
    ShowWindow,
    /// Give the main window the input focus.
    FocusWindow,
    /// Hide the main window.
    HideWindow,
    /// Keep the window from closing.
    PreventClose,
    /// Send the frontend the notification `TOGGLE_EVENT`.
    EmitTrayToggle,
    /// Set the text of the tray menu's toggle item.
    SetToggleText(ToggleLabel),
    /// End the process with the given exit code.
    Exit(i32),
}

/// The state of the session.
#[derive(Clone, Copy, Debug, PartialEq, Eq, Structural)]
pub struct Shell {
    pub stage: Stage,
    pub window: WindowState,
    pub toggle: ToggleState,
}

impl Shell {
    /// The state in which every session begins: nothing set up, the window
    /// hidden, the toggle slot empty.
    pub open spec fn initial() -> Shell {
        Shell { stage: Stage::Created, window: WindowState::Hidden, toggle: ToggleState::Empty }
    }

    /// Whether the session still reacts to events. A session that failed to
    /// start or that the user quit does not.
    pub open spec fn live(self) -> bool {
        !(self.stage is Failed) && !(self.stage is Terminated)
    }

    /// The toggle slot is filled when the tray is built, and at no other time:
    /// it is empty while the tray does not exist, and it holds the item while
    /// the session is loading the settings or running.
    pub open spec fn wf(self) -> bool {
        match self.stage {
            Stage::Created | Stage::LaunchingBackend | Stage::BuildingTray | Stage::Failed => {
                self.toggle is Empty
            },
            Stage::LoadingSettings | Stage::Running => self.toggle is Item,
            Stage::Terminated => true,
        }
    }

    /// The text that the toggle item shows, once there is one.
    pub open spec fn spec_toggle_text(self) -> Option<Seq<char>> {
        match self.toggle {
            ToggleState::Item(label) => Some(label.spec_text()),
            ToggleState::Empty => None,
        }
    }

    /// The state after an event.
    ///
    /// A session that is not live stays as it is. A step of the startup counts
    /// only at the stage that waits for it. Clicks, close requests and
    /// commands count at every live stage.
    pub open spec fn next(self, event: Event) -> Shell {
        if !self.live() {
            self
        } else {
            match event {
                Event::SetupStarted => if self.stage is Created {
                    Shell { stage: Stage::LaunchingBackend, ..self }
                } else {
                    self
                },
                Event::BackendLaunched { ok } => if self.stage is LaunchingBackend {
                    Shell { stage: Stage::BuildingTray, ..self }
                } else {
                    self
                },
                Event::TrayBuilt { ok } => if self.stage is BuildingTray {
                    if ok {
                        Shell {
                            stage: Stage::LoadingSettings,
                            toggle: ToggleState::Item(ToggleLabel::Disable),
                            ..self
                        }
                    } else {
                        Shell { stage: Stage::Failed, ..self }
                    }
                } else {
                    self
                },
                Event::SettingsLoaded { start_minimized } => if self.stage is LoadingSettings {
                    Shell {
                        stage: Stage::Running,
                        window: if start_minimized {
                            self.window
                        } else {
                            WindowState::Visible
                        },
                        ..self
                    }
                } else {
                    self
                },
                Event::Menu(Some(MenuItemId::Show)) => Shell { window: WindowState::Visible, ..self },
                Event::Menu(Some(MenuItemId::Toggle)) => self,
                Event::Menu(Some(MenuItemId::Quit)) => Shell { stage: Stage::Terminated, ..self },
                Event::Menu(None) => self,
                Event::TrayIcon(icon) => if icon.reopens_window() {
                    Shell { window: WindowState::Visible, ..self }
                } else {
                    self
                },
                Event::Window(WindowEvent::CloseRequested) => Shell {
                    window: WindowState::Hidden,
                    ..self
                },
                Event::Window(WindowEvent::Other) => self,
                Event::ToggleTextUpdate { is_disabled, lock } => if lock is Acquired
                    && self.toggle is Item {
                    Shell {
                        toggle: ToggleState::Item(ToggleLabel::spec_for_state(is_disabled)),
                        ..self
                    }
                } else {
                    self
                },
            }
        }
    }

    /// The actions that an event asks of the host, in the order in which the
    /// host performs them.
    pub open spec fn actions(self, event: Event) -> Seq<Action> {
        if !self.live() {
            seq![]
        } else {
            match event {
                Event::SetupStarted => if self.stage is Created {
                    seq![Action::LaunchBackend]
                } else {
                    seq![]
                },
                Event::BackendLaunched { ok } => if self.stage is LaunchingBackend {
                    seq![Action::BuildTray]
                } else {
                    seq![]
                },
                Event::TrayBuilt { ok } => if self.stage is BuildingTray {
                    if ok {
                        seq![Action::LoadSettings]
                    } else {
                        seq![Action::AbortStartup]
                    }
                } else {
                    seq![]
                },
                Event::SettingsLoaded { start_minimized } => if self.stage is LoadingSettings
                    && !start_minimized {
                    seq![Action::ShowWindow, Action::FocusWindow]
                } else {
                    seq![]
                },
                Event::Menu(Some(MenuItemId::Show)) => seq![Action::ShowWindow, Action::FocusWindow],
                Event::Menu(Some(MenuItemId::Toggle)) => seq![Action::EmitTrayToggle],
                Event::Menu(Some(MenuItemId::Quit)) => seq![Action::Exit(EXIT_CODE)],
                Event::Menu(None) => seq![],
                Event::TrayIcon(icon) => if icon.reopens_window() {
                    seq![Action::ShowWindow, Action::FocusWindow]
                } else {
                    seq![]
                },
                Event::Window(WindowEvent::CloseRequested) => seq![
                    Action::HideWindow,
                    Action::PreventClose,
                ],
                Event::Window(WindowEvent::Other) => seq![],
                Event::ToggleTextUpdate { is_disabled, lock } => if lock is Acquired
                    && self.toggle is Item {
                    seq![Action::SetToggleText(ToggleLabel::spec_for_state(is_disabled))]
                } else {
                    seq![]
                },
            }
        }
    }

    /// A session at its beginning.
    pub fn new() -> (r: Shell)
        ensures
            r == Shell::initial(),
            r.wf(),
    {
        Shell { stage: Stage::Created, window: WindowState::Hidden, toggle: ToggleState::Empty }
    }

    /// Whether the session still reacts to events.
    pub fn is_live(&self) -> (r: bool)
        ensures
            r == self.live(),
    {
        match self.stage {
            Stage::Failed | Stage::Terminated => false,
            _ => true,
        }
    }

    /// The text that the toggle item shows, once there is one.
    pub fn toggle_text(&self) -> (r: Option<&'static str>)
        ensures
            match r {
                Some(text) => self.spec_toggle_text() == Some(text@),
                None => self.spec_toggle_text() is None,
            },
    {
        match self.toggle {
            ToggleState::Item(label) => Some(label.text()),
            ToggleState::Empty => None,
        }
    }

    /// Takes an event in: moves the session to its next state and returns the
    /// actions for the host to perform.
    pub fn handle(&mut self, event: Event) -> (r: Vec<Action>)
        ensures
            *final(self) == old(self).next(event),
            r@ == old(self).actions(event),
            old(self).wf() ==> final(self).wf(),
    {
        let mut actions: Vec<Action> = Vec::new();
        if !self.is_live() {
            return actions;
        }
        match event {
            Event::SetupStarted => {
                if self.stage == Stage::Created {
                    self.stage = Stage::LaunchingBackend;
                    actions.push(Action::LaunchBackend);
                }
            },
            Event::BackendLaunched { ok: _ } => {
                if self.stage == Stage::LaunchingBackend {
                    self.stage = Stage::BuildingTray;
                    actions.push(Action::BuildTray);
                }
            },
            Event::TrayBuilt { ok } => {
                if self.stage == Stage::BuildingTray {
                    if ok {
                        self.stage = Stage::LoadingSettings;
                        self.toggle = ToggleState::Item(ToggleLabel::Disable);
                        actions.push(Action::LoadSettings);
                    } else {
                        self.stage = Stage::Failed;
                        actions.push(Action::AbortStartup);
                    }
                }
            },
            Event::SettingsLoaded { start_minimized } => {
                if self.stage == Stage::LoadingSettings {
                    self.stage = Stage::Running;
                    if !start_minimized {
                        self.window = WindowState::Visible;
                        actions.push(Action::ShowWindow);
                        actions.push(Action::FocusWindow);
                    }
                }
            },
            Event::Menu(Some(MenuItemId::Show)) => {
                self.window = WindowState::Visible;
                actions.push(Action::ShowWindow);
                actions.push(Action::FocusWindow);
            },
            Event::Menu(Some(MenuItemId::Toggle)) => {
                actions.push(Action::EmitTrayToggle);
            },
            Event::Menu(Some(MenuItemId::Quit)) => {
                self.stage = Stage::Terminated;
                actions.push(Action::Exit(EXIT_CODE));
            },
            Event::Menu(None) => {},
            Event::TrayIcon(icon) => {
                if icon.opens_window() {
                    self.window = WindowState::Visible;
                    actions.push(Action::ShowWindow);
                    actions.push(Action::FocusWindow);
                }
            },
            Event::Window(WindowEvent::CloseRequested) => {
                self.window = WindowState::Hidden;
                actions.push(Action::HideWindow);
                actions.push(Action::PreventClose);
            },
            Event::Window(WindowEvent::Other) => {},
            Event::ToggleTextUpdate { is_disabled, lock } => {
                if lock == LockOutcome::Acquired && self.toggle != ToggleState::Empty {
                    let label = ToggleLabel::for_state(is_disabled);
                    self.toggle = ToggleState::Item(label);
                    actions.push(Action::SetToggleText(label));
                }
            },
        }
        assert(actions@ =~= old(self).actions(event));
        actions
    }

    /// A click on the item of the tray menu that `id` names. The item `show`
    /// brings the window back, `toggle` is relayed to the frontend, `quit`
    /// ends the session; any other identifier does nothing.
    pub fn on_menu_event(&mut self, id: &str) -> (r: Vec<Action>)
        ensures
            *final(self) == old(self).next(Event::Menu(MenuItemId::spec_parse(id@))),
            r@ == old(self).actions(Event::Menu(MenuItemId::spec_parse(id@))),
            old(self).wf() ==> final(self).wf(),
    {
        self.handle(Event::Menu(MenuItemId::parse(id)))
    }

    /// An event of the tray icon. The release of the left button brings the
    /// window back; nothing else does anything.
    pub fn on_tray_icon_event(&mut self, event: TrayIconEvent) -> (r: Vec<Action>)
        ensures
            *final(self) == old(self).next(Event::TrayIcon(event)),
            r@ == old(self).actions(Event::TrayIcon(event)),
            old(self).wf() ==> final(self).wf(),
    {
        self.handle(Event::TrayIcon(event))
    }

    /// An event of the main window. A close request hides the window and is
    /// cancelled; nothing else does anything.
    pub fn on_window_event(&mut self, event: WindowEvent) -> (r: Vec<Action>)
        ensures
            *final(self) == old(self).next(Event::Window(event)),
            r@ == old(self).actions(Event::Window(event)),
            old(self).wf() ==> final(self).wf(),
    {
        self.handle(Event::Window(event))
    }

    /// The frontend's command to have the toggle item's text follow its state.
    ///
    /// The command always reports success. It changes the text only where the
    /// host could lock the toggle slot and the slot holds the item; then the
    /// returned action tells the host to set the text of the live item.
    pub fn update_tray_toggle_text(&mut self, lock: LockOutcome, is_disabled: bool) -> (r: (
        Result<(), String>,
        Vec<Action>,
    ))
        ensures
            r.0 is Ok,
            *final(self) == old(self).next(Event::ToggleTextUpdate { is_disabled, lock }),
            r.1@ == old(self).actions(Event::ToggleTextUpdate { is_disabled, lock }),
            old(self).wf() ==> final(self).wf(),
    {
        let actions = self.handle(Event::ToggleTextUpdate { is_disabled, lock });
        (Ok(()), actions)
    }
}

} // verus!
