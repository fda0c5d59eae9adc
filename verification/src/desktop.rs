//! What the desktop shell asks of the core: input events by name.

use crate::models::{InputEvent, MouseButton};
use crate::text::{join, same_text};
use vstd::prelude::*;

verus! {

/// The input event that a named command of the shell stands for: a move to
/// a position, or a press or release of the left button. Any other name
/// stands for nothing.
pub open spec fn command_event(event_type: Seq<char>, x: i32, y: i32) -> Option<InputEvent> {
    if event_type == "mouse_move"@ {
        Some(InputEvent::MouseMove { x, y })
    } else if event_type == "mouse_down"@ {
        Some(InputEvent::MouseButton { button: MouseButton::Left, pressed: true })
    } else if event_type == "mouse_up"@ {
        Some(InputEvent::MouseButton { button: MouseButton::Left, pressed: false })
    } else {
        None
    }
}

/// The input event for a named command, or a sentence that names the
/// command that is not known.
pub fn input_event_for(event_type: &str, x: i32, y: i32) -> (res: Result<InputEvent, String>)
    ensures
        match command_event(event_type@, x, y) {
            Some(event) => res == Ok::<InputEvent, String>(event),
            None => res matches Err(text) && text@ == "Unknown event type: "@ + event_type@,
        },
{
    if same_text(event_type, "mouse_move") {
        Ok(InputEvent::MouseMove { x, y })
    } else if same_text(event_type, "mouse_down") {
        Ok(InputEvent::MouseButton { button: MouseButton::Left, pressed: true })
    } else if same_text(event_type, "mouse_up") {
        Ok(InputEvent::MouseButton { button: MouseButton::Left, pressed: false })
    } else {
        Err(join("Unknown event type: ", event_type))
    }
}

} // verus!
