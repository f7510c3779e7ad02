//! The tray's reaction to user events: theme, menu and frame commands.
//!
//! The UI event loop hands each incoming event to this state machine, which
//! decides the next theme state and what the tray should do: exit, open the
//! editor window, show a frame of the dark or light icon set, or load a
//! newly chosen character's icon set. The widgets themselves — menu items,
//! the tray icon, the editor window — live in the application; it performs
//! exactly what the directive says, dropping a frame command silently when
//! no tray icon or icon set is present yet.

use crate::frame::frame_in_range;
use vstd::prelude::*;

verus! {

/// The host theme, as the OS reports it.
#[derive(Clone, Copy, Debug, PartialEq, Eq, Structural)]
pub enum ThemeMode {
    /// The OS prefers a dark appearance.
    Dark,
    /// The OS prefers a light appearance.
    Light,
    /// The OS reports no preference.
    Unspecified,
}

/// Which menu entry a tray-menu click landed on.
#[derive(Clone, Copy, Debug, PartialEq, Eq, Structural)]
pub enum MenuChoice {
    /// The "Exit" entry.
    ExitItem,
    /// The "Open editor" entry.
    EditorItem,
    /// The "Auto" entry of the theme submenu.
    AutoThemeItem,
    /// The "Dark" entry of the theme submenu.
    DarkThemeItem,
    /// The "Light" entry of the theme submenu, or any other entry that is
    /// neither a theme entry nor a character: the original menu handling
    /// folds those onto the light theme.
    LightThemeItem,
    /// An entry of the characters submenu.
    CharacterItem,
}

/// One event arriving on the UI event loop.
#[derive(Clone, Copy, Debug, PartialEq, Eq, Structural)]
pub enum TrayEvent {
    /// A click on a tray-menu entry.
    Menu(MenuChoice),
    /// The OS theme was observed to have changed.
    SystemThemeChanged(ThemeMode),
    /// The animator asks to show this frame index.
    ChangeIconIndex(usize),
}

/// A frame to show: which icon set flavor, and which index within it.
#[derive(Clone, Copy, Debug, PartialEq, Eq, Structural)]
pub struct FrameCommand {
    /// Use the dark icon set; otherwise the light one.
    pub dark: bool,
    /// The frame index within the set.
    pub index: usize,
}

/// Everything one event asks the application to do.
#[derive(Clone, Copy, Debug, PartialEq, Eq, Structural)]
pub struct TrayDirective {
    /// Stop the event loop and so the whole application.
    pub exit_app: bool,
    /// Open the editor window.
    pub open_editor: bool,
    /// Show this frame of the current icon set, if a tray icon and an icon
    /// set exist; otherwise the command is dropped silently.
    pub show_frame: Option<FrameCommand>,
    /// Load the icon set of the character the click chose.
    pub load_character: bool,
}

/// The tray's persistent presentation state.
#[derive(Clone, Copy, Debug, PartialEq, Eq, Structural)]
pub struct TrayState {
    /// Follow the OS theme instead of a fixed choice.
    pub auto_theme: bool,
    /// The theme currently in force.
    pub curr_theme: ThemeMode,
}

/// Whether a theme picks the dark icon set; any other theme, the light one.
pub open spec fn theme_is_dark(t: ThemeMode) -> bool {
    t is Dark
}

/// A directive that asks for nothing.
pub open spec fn no_directive() -> TrayDirective {
    TrayDirective { exit_app: false, open_editor: false, show_frame: None, load_character: false }
}

/// The frame command that refreshes the icon after a theme change: the
/// first frame of the set the theme picks.
pub open spec fn refresh_command(t: ThemeMode) -> FrameCommand {
    FrameCommand { dark: theme_is_dark(t), index: 0 }
}

/// The state after handling `event`, with `detected` the theme the OS
/// reports at that moment. A menu click outside exit and editor always
/// settles the theme: "Auto" re-enables following the OS, every other entry
/// fixes the theme it stands for — a character click fixing light, as the
/// original menu handling does. A system theme change is honored only while
/// the theme is automatic.
pub open spec fn state_after_event(
    s: TrayState,
    event: TrayEvent,
    detected: ThemeMode,
) -> TrayState {
    match event {
        TrayEvent::Menu(choice) => match choice {
            MenuChoice::ExitItem => s,
            MenuChoice::EditorItem => s,
            MenuChoice::AutoThemeItem => TrayState { auto_theme: true, curr_theme: detected },
            MenuChoice::DarkThemeItem => TrayState {
                auto_theme: false,
                curr_theme: ThemeMode::Dark,
            },
            MenuChoice::LightThemeItem => TrayState {
                auto_theme: false,
                curr_theme: ThemeMode::Light,
            },
            MenuChoice::CharacterItem => TrayState {
                auto_theme: false,
                curr_theme: ThemeMode::Light,
            },
        },
        TrayEvent::SystemThemeChanged(mode) => if s.auto_theme {
            TrayState { auto_theme: true, curr_theme: mode }
        } else {
            s
        },
        TrayEvent::ChangeIconIndex(_) => s,
    }
}

/// What handling `event` asks the application to do, in the state the event
/// leaves behind: a theme-settling click refreshes the icon to frame `0` of
/// the newly picked set, a character click additionally loads that
/// character, and a frame command from the animator shows its index in the
/// set the current theme picks.
pub open spec fn directive_for_event(
    s: TrayState,
    event: TrayEvent,
    detected: ThemeMode,
) -> TrayDirective {
    let next = state_after_event(s, event, detected);
    match event {
        TrayEvent::Menu(choice) => match choice {
            MenuChoice::ExitItem => TrayDirective { exit_app: true, ..no_directive() },
            MenuChoice::EditorItem => TrayDirective { open_editor: true, ..no_directive() },
            MenuChoice::AutoThemeItem => TrayDirective {
                show_frame: Some(refresh_command(next.curr_theme)),
                ..no_directive()
            },
            MenuChoice::DarkThemeItem => TrayDirective {
                show_frame: Some(refresh_command(next.curr_theme)),
                ..no_directive()
            },
            MenuChoice::LightThemeItem => TrayDirective {
                show_frame: Some(refresh_command(next.curr_theme)),
                ..no_directive()
            },
            MenuChoice::CharacterItem => TrayDirective {
                show_frame: Some(refresh_command(next.curr_theme)),
                load_character: true,
                ..no_directive()
            },
        },
        TrayEvent::SystemThemeChanged(_) => if s.auto_theme {
            TrayDirective { show_frame: Some(refresh_command(next.curr_theme)), ..no_directive() }
        } else {
            no_directive()
        },
        TrayEvent::ChangeIconIndex(i) => TrayDirective {
            show_frame: Some((FrameCommand { dark: theme_is_dark(s.curr_theme), index: i })),
            ..no_directive()
        },
    }
}

impl TrayState {
    /// The initial state: follow the OS, whose theme is `detected` now.
    pub fn new(detected: ThemeMode) -> (s: TrayState)
        ensures
            s.auto_theme,
            s.curr_theme == detected,
    {
        TrayState { auto_theme: true, curr_theme: detected }
    }

    /// Whether a freshly detected OS theme differs from the one in force,
    /// so a theme-change event should be raised.
    pub fn needs_theme_notification(&self, detected: ThemeMode) -> (r: bool)
        ensures
            r == (self.curr_theme != detected),
    {
        self.curr_theme != detected
    }

    /// Handles one event: moves to the state the event decides and returns
    /// what the application must do for it.
    pub fn handle_event(&mut self, event: TrayEvent, detected: ThemeMode) -> (r: TrayDirective)
        ensures
            *final(self) == state_after_event(*old(self), event, detected),
            r == directive_for_event(*old(self), event, detected),
    {
        match event {
            TrayEvent::Menu(choice) => match choice {
                MenuChoice::ExitItem => TrayDirective {
                    exit_app: true,
                    open_editor: false,
                    show_frame: None,
                    load_character: false,
                },
                MenuChoice::EditorItem => TrayDirective {
                    exit_app: false,
                    open_editor: true,
                    show_frame: None,
                    load_character: false,
                },
                MenuChoice::AutoThemeItem => {
                    self.auto_theme = true;
                    self.curr_theme = detected;
                    TrayDirective {
                        exit_app: false,
                        open_editor: false,
                        show_frame: Some(self.refresh_frame()),
                        load_character: false,
                    }
                },
                MenuChoice::DarkThemeItem => {
                    self.auto_theme = false;
                    self.curr_theme = ThemeMode::Dark;
                    TrayDirective {
                        exit_app: false,
                        open_editor: false,
                        show_frame: Some(self.refresh_frame()),
                        load_character: false,
                    }
                },
                MenuChoice::LightThemeItem => {
                    self.auto_theme = false;
                    self.curr_theme = ThemeMode::Light;
                    TrayDirective {
                        exit_app: false,
                        open_editor: false,
                        show_frame: Some(self.refresh_frame()),
                        load_character: false,
                    }
                },
                MenuChoice::CharacterItem => {
                    self.auto_theme = false;
                    self.curr_theme = ThemeMode::Light;
                    TrayDirective {
                        exit_app: false,
                        open_editor: false,
                        show_frame: Some(self.refresh_frame()),
                        load_character: true,
                    }
                },
            },
            TrayEvent::SystemThemeChanged(mode) => {
                if self.auto_theme {
                    self.curr_theme = mode;
                    TrayDirective {
                        exit_app: false,
                        open_editor: false,
                        show_frame: Some(self.refresh_frame()),
                        load_character: false,
                    }
                } else {
                    TrayDirective {
                        exit_app: false,
                        open_editor: false,
                        show_frame: None,
                        load_character: false,
                    }
                }
            },
            TrayEvent::ChangeIconIndex(i) => TrayDirective {
                exit_app: false,
                open_editor: false,
                show_frame: Some(
                    FrameCommand { dark: matches!(self.curr_theme, ThemeMode::Dark), index: i },
                ),
                load_character: false,
            },
        }
    }

    /// The frame command that refreshes the icon under the current theme.
    fn refresh_frame(&self) -> (c: FrameCommand)
        ensures
            c == refresh_command(self.curr_theme),
    {
        FrameCommand { dark: matches!(self.curr_theme, ThemeMode::Dark), index: 0 }
    }
}

/// A frame command the animator decided stays addressable: the tray shows
/// exactly the index the animator advanced to.
pub proof fn lemma_frame_command_in_range(s: TrayState, i: usize, detected: ThemeMode)
    requires
        frame_in_range(i as int),
    ensures
        directive_for_event(s, TrayEvent::ChangeIconIndex(i), detected).show_frame matches Some(c)
            && frame_in_range(c.index as int),
        state_after_event(s, TrayEvent::ChangeIconIndex(i), detected) == s,
{
}

} // verus!
