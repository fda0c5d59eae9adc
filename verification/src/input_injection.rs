//! Input injection backends.
//!
//! The Linux and the Windows backend accept every event and post nothing.
//! For macOS the events are posted by the caller; what is decided here is
//! which system event stands for an input event.

use crate::error::InjectionError;
use crate::models::{InputEvent, MouseButton, Platform};
use crate::ports::InputInjector;
use vstd::prelude::*;

verus! {

/// Input injection on Linux.
pub struct LinuxInputInjector {
    taken: Ghost<Seq<InputEvent>>,
}

impl LinuxInputInjector {
    /// The backend. Nothing has to be set up, and no event was taken.
    pub fn new() -> (res: Result<LinuxInputInjector, InjectionError>)
        ensures
            res matches Ok(injector) && injector.injected() == Seq::<InputEvent>::empty(),
    {
        Ok(LinuxInputInjector { taken: Ghost(Seq::empty()) })
    }
}

impl InputInjector for LinuxInputInjector {
    closed spec fn injected(&self) -> Seq<InputEvent> {
        self.taken@
    }

    /// Takes every event.
    fn inject(&mut self, event: InputEvent) -> (res: Result<(), InjectionError>)
        ensures
            res is Ok,
    {
        proof {
            self.taken@ = self.taken@.push(event);
        }
        Ok(())
    }
}

/// Input injection on Windows.
pub struct WindowsInputInjector {
    taken: Ghost<Seq<InputEvent>>,
}

impl WindowsInputInjector {
    /// The backend. Nothing has to be set up, and no event was taken.
    pub fn new() -> (res: Result<WindowsInputInjector, InjectionError>)
        ensures
            res matches Ok(injector) && injector.injected() == Seq::<InputEvent>::empty(),
    {
        Ok(WindowsInputInjector { taken: Ghost(Seq::empty()) })
    }
}

impl InputInjector for WindowsInputInjector {
    closed spec fn injected(&self) -> Seq<InputEvent> {
        self.taken@
    }

    /// Takes every event.
    fn inject(&mut self, event: InputEvent) -> (res: Result<(), InjectionError>)
        ensures
            res is Ok,
    {
        proof {
            self.taken@ = self.taken@.push(event);
        }
        Ok(())
    }
}

/// The mouse button of a system mouse event.
#[derive(Debug, Clone, Copy, PartialEq, Eq, Structural)]
pub enum SystemButton {
    Left,
    Right,
    Center,
}

/// The kind of a system mouse event.
#[derive(Debug, Clone, Copy, PartialEq, Eq, Structural)]
pub enum SystemMouseEvent {
    Moved,
    LeftDown,
    LeftUp,
    RightDown,
    RightUp,
    OtherDown,
    OtherUp,
}

/// The system event that stands for an input event.
#[derive(Debug, Clone, Copy, PartialEq, Eq, Structural)]
pub enum SystemEvent {
    /// A mouse event at a position, in whole pixels.
    Mouse { kind: SystemMouseEvent, button: SystemButton, x: i32, y: i32 },
    /// A keyboard event with a virtual key code.
    Key { code: u16, pressed: bool },
    /// Nothing is posted.
    Nothing,
}

/// The system event for an input event, or why there is none.
///
/// A move goes to its position, with the left button named. A press or
/// release of the left, right or middle button is posted at the origin; the
/// two extra buttons are not supported. Scrolling posts nothing. A key is
/// posted with the low sixteen bits of its code.
pub open spec fn system_event_for(event: InputEvent) -> Result<SystemEvent, InjectionError> {
    match event {
        InputEvent::MouseMove { x, y } => Ok(
            SystemEvent::Mouse { kind: SystemMouseEvent::Moved, button: SystemButton::Left, x, y },
        ),
        InputEvent::MouseButton { button, pressed } => match button {
            MouseButton::Left => Ok(
                SystemEvent::Mouse {
                    kind: if pressed {
                        SystemMouseEvent::LeftDown
                    } else {
                        SystemMouseEvent::LeftUp
                    },
                    button: SystemButton::Left,
                    x: 0,
                    y: 0,
                },
            ),
            MouseButton::Right => Ok(
                SystemEvent::Mouse {
                    kind: if pressed {
                        SystemMouseEvent::RightDown
                    } else {
                        SystemMouseEvent::RightUp
                    },
                    button: SystemButton::Right,
                    x: 0,
                    y: 0,
                },
            ),
            MouseButton::Middle => Ok(
                SystemEvent::Mouse {
                    kind: if pressed {
                        SystemMouseEvent::OtherDown
                    } else {
                        SystemMouseEvent::OtherUp
                    },
                    button: SystemButton::Center,
                    x: 0,
                    y: 0,
                },
            ),
            _ => Err(InjectionError::UnsupportedEvent),
        },
        InputEvent::MouseScroll { .. } => Ok(SystemEvent::Nothing),
        InputEvent::KeyPress { key, pressed } => Ok(
            SystemEvent::Key { code: (key.0 % 0x1_0000) as u16, pressed },
        ),
    }
}

/// Input injection on macOS.
#[derive(Debug, Clone, Copy, PartialEq, Eq, Structural)]
pub struct MacOSInputInjector;

impl MacOSInputInjector {
    /// The backend. Nothing has to be set up.
    pub fn new() -> (res: Result<MacOSInputInjector, InjectionError>)
        ensures
            res is Ok,
    {
        Ok(MacOSInputInjector)
    }

    /// The system event to post for an input event.
    pub fn plan(&self, event: InputEvent) -> (res: Result<SystemEvent, InjectionError>)
        ensures
            res == system_event_for(event),
    {
        match event {
            InputEvent::MouseMove { x, y } => Ok(
                SystemEvent::Mouse {
                    kind: SystemMouseEvent::Moved,
                    button: SystemButton::Left,
                    x,
                    y,
                },
            ),
            InputEvent::MouseButton { button, pressed } => {
                let (system_button, down, up) = match button {
                    MouseButton::Left => (
                        SystemButton::Left,
                        SystemMouseEvent::LeftDown,
                        SystemMouseEvent::LeftUp,
                    ),
                    MouseButton::Right => (
                        SystemButton::Right,
                        SystemMouseEvent::RightDown,
                        SystemMouseEvent::RightUp,
                    ),
                    MouseButton::Middle => (
                        SystemButton::Center,
                        SystemMouseEvent::OtherDown,
                        SystemMouseEvent::OtherUp,
                    ),
                    _ => {
                        return Err(InjectionError::UnsupportedEvent);
                    },
                };
                Ok(
                    SystemEvent::Mouse {
                        kind: if pressed {
                            down
                        } else {
                            up
                        },
                        button: system_button,
                        x: 0,
                        y: 0,
                    },
                )
            },
            InputEvent::MouseScroll { delta_x, delta_y } => Ok(SystemEvent::Nothing),
            InputEvent::KeyPress { key, pressed } => Ok(
                SystemEvent::Key { code: (key.0 % 0x1_0000) as u16, pressed },
            ),
        }
    }
}

/// The injection backend of a platform.
#[derive(Debug, Clone, Copy, PartialEq, Eq, Structural)]
pub enum InjectionBackend {
    Windows,
    Linux,
    MacOS,
}

/// The injection backend for a platform. There is one for Windows, Linux and
/// macOS, and none for any other platform.
pub fn create_input_injector(platform: Platform) -> (res: Result<InjectionBackend, InjectionError>)
    ensures
        match platform {
            Platform::Windows => res == Ok::<InjectionBackend, InjectionError>(
                InjectionBackend::Windows,
            ),
            Platform::Linux => res == Ok::<InjectionBackend, InjectionError>(
                InjectionBackend::Linux,
            ),
            Platform::MacOS => res == Ok::<InjectionBackend, InjectionError>(
                InjectionBackend::MacOS,
            ),
            _ => res == Err::<InjectionBackend, InjectionError>(
                InjectionError::UnsupportedPlatform,
            ),
        },
{
    match platform {
        Platform::Windows => Ok(InjectionBackend::Windows),
        Platform::Linux => Ok(InjectionBackend::Linux),
        Platform::MacOS => Ok(InjectionBackend::MacOS),
        _ => Err(InjectionError::UnsupportedPlatform),
    }
}

} // verus!
