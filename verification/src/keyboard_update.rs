//! What typing on the computer's keyboard does.
use vstd::prelude::*;
use crate::{ApplicationState, EmulatorKeyEvent, EmulatorKeyboardInputKind};
use crate::emulator_update::{respond_to_key_event, spec_keys_after, spec_toggle_running};

verus! {

/// A key of the computer's keyboard, as far as the debugger tells keys apart.
#[derive(Clone, Debug)]
pub enum KeyboardKey {
    /// The space bar.
    Space,
    /// A key that produces text.
    Character(String),
    /// Any other key.
    Other,
}

/// An event of the user interface, as far as the debugger reacts to it.
#[derive(Clone, Debug)]
pub enum UserEvent {
    KeyPressed(KeyboardKey),
    KeyReleased(KeyboardKey),
    Other,
}

/// The state after an event: pressing space starts or pauses the emulator; nothing else
/// changes the state.
pub open spec fn spec_state_after_event(state: ApplicationState, event: UserEvent)
    -> ApplicationState {
    match event {
        UserEvent::KeyPressed(KeyboardKey::Space) => spec_toggle_running(state),
        _ => state,
    }
}

/// The keypad after an event: a key that produces text presses (or, released, releases) the
/// keypad key that its first character stands for.
pub open spec fn spec_keys_after_event(keys: Seq<u8>, event: UserEvent) -> Seq<u8> {
    match event {
        UserEvent::KeyPressed(KeyboardKey::Character(text)) => if text@.len() > 0 {
            spec_keys_after(
                keys,
                EmulatorKeyEvent::Down,
                EmulatorKeyboardInputKind::UsKeyboardChar(text@[0]),
            )
        } else {
            keys
        },
        UserEvent::KeyReleased(KeyboardKey::Character(text)) => if text@.len() > 0 {
            spec_keys_after(
                keys,
                EmulatorKeyEvent::Up,
                EmulatorKeyboardInputKind::UsKeyboardChar(text@[0]),
            )
        } else {
            keys
        },
        _ => keys,
    }
}

/// React to an event of the user interface; `keys` is the emulator's keypad.
pub fn respond_to_user_event(
    application_state: &mut ApplicationState,
    keys: &mut [u8; 16],
    event: UserEvent,
)
    ensures
        *final(application_state) == spec_state_after_event(*old(application_state), event),
        final(keys)@ == spec_keys_after_event(old(keys)@, event),
{
    match event {
        UserEvent::KeyPressed(KeyboardKey::Space) => {
            application_state.emulator_related_data.is_running =
                !application_state.emulator_related_data.is_running;
        },
        UserEvent::KeyPressed(KeyboardKey::Character(text)) => {
            let s = text.as_str();
            if s.unicode_len() > 0 {
                let c = s.get_char(0);
                respond_to_key_event(
                    keys,
                    EmulatorKeyEvent::Down,
                    EmulatorKeyboardInputKind::UsKeyboardChar(c),
                );
            }
        },
        UserEvent::KeyReleased(KeyboardKey::Character(text)) => {
            let s = text.as_str();
            if s.unicode_len() > 0 {
                let c = s.get_char(0);
                respond_to_key_event(
                    keys,
                    EmulatorKeyEvent::Up,
                    EmulatorKeyboardInputKind::UsKeyboardChar(c),
                );
            }
        },
        _ => {},
    }
}

} // verus!
