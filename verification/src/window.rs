use vstd::prelude::*;
use vstd::string::StringExecFns;
use crate::text::{
    chars_match_ignoring_case, texts_match_ignoring_case,
    eq_ignore_ascii_case, eq_ignoring_ascii_case, utf16_decode_lossy, utf16_encode,
    utf16_nul_terminated, utf16_to_string_lossy,
};

verus! {

/// A zero-terminated UTF-16 string, the form in which window class names and titles
/// are handed to the system.
pub fn to_wide_string(value: &str) -> (wide: Vec<u16>)
    ensures
        wide@ == utf16_encode(value@).push(0),
{
    utf16_nul_terminated(value)
}

/// The text of a key press from the units that the keyboard translation wrote into
/// `buffer`: nothing when it reports no characters (`chars_copied <= 0`), else the
/// first `chars_copied` units decoded, unpaired surrogates replaced by U+FFFD.
pub fn key_text(buffer: &[u16], chars_copied: i32) -> (text: Option<String>)
    requires
        chars_copied <= buffer@.len(),
    ensures
        chars_copied <= 0 ==> text is None,
        chars_copied > 0 ==> (text matches Some(t) && t@ == utf16_decode_lossy(
            buffer@.subrange(0, chars_copied as int),
        )),
{
    if chars_copied > 0 {
        let copied = &buffer[0..chars_copied as usize];
        Some(utf16_to_string_lossy(copied))
    } else {
        None
    }
}

/// The message loop ends when the key typed is "s", in either case.
pub open spec fn is_stop_key(key: Seq<char>) -> bool {
    eq_ignoring_ascii_case(key, seq!['s'])
}

/// The key texts that end the message loop are exactly "s" and "S": any other text,
/// another letter, a longer text or an empty one, does not.
pub proof fn stop_keys_are_s(key: Seq<char>)
    ensures
        is_stop_key(key) == (key == seq!['s'] || key == seq!['S']),
{
    texts_match_ignoring_case(key, seq!['s']);
    if key.len() == 1 {
        chars_match_ignoring_case(key[0], 's');
        if key[0] == 's' {
            assert(key =~= seq!['s']);
        } else if key[0] == 'S' {
            assert(key =~= seq!['S']);
        }
    }
}

/// Whether typing `key` ends the window's message loop.
pub fn key_stops_event_loop(key: &str) -> (stop: bool)
    ensures
        stop == is_stop_key(key@),
{
    proof {
        reveal_strlit("s");
    }
    eq_ignore_ascii_case(key, "s")
}

/// A key state as the system reports it is "down" when its most significant bit
/// (0x8000) is set.
pub fn key_is_down(state: i32) -> (down: bool)
    ensures
        down == (state & 0x8000 != 0),
{
    (state & 0x8000) != 0
}

/// What the window procedure does with a message.
#[derive(Debug, Clone, Copy, PartialEq, Eq, Structural)]
pub enum ProcAction {
    /// The window is being destroyed: free the cursor, show it and quit.
    Destroy,
    /// Swallow the message (the Alt key and display changes).
    Swallow,
    /// Hand the message to the default procedure.
    PassOn,
}

/// The window procedure's choice for message code `msg`, given the system's codes for
/// "destroy", "system key down" and "display change".
pub fn proc_action(msg: u32, destroy: u32, sys_key_down: u32, display_change: u32) -> (action: ProcAction)
    ensures
        action == (if msg == destroy {
            ProcAction::Destroy
        } else if msg == sys_key_down || msg == display_change {
            ProcAction::Swallow
        } else {
            ProcAction::PassOn
        }),
{
    if msg == destroy {
        ProcAction::Destroy
    } else if msg == sys_key_down || msg == display_change {
        ProcAction::Swallow
    } else {
        ProcAction::PassOn
    }
}

/// Whether the low-level keyboard hook swallows an event: only when the event is for
/// the hook to handle (`code >= 0`), it is a system key press (`message` is the
/// "system key down" code) and the key is the left Alt key. The key code is read only
/// for events that are for the hook, so it is `None` otherwise.
pub fn keyboard_hook_blocks(
    code: i32,
    message: u32,
    key: Option<u32>,
    sys_key_down: u32,
    left_alt: u32,
) -> (block: bool)
    ensures
        block == (code >= 0 && message == sys_key_down && key == Some(left_alt)),
{
    if code >= 0 && message == sys_key_down {
        match key {
            Some(k) => k == left_alt,
            None => false,
        }
    } else {
        false
    }
}

/// The kinds of message that the window's message loop looks at.
#[derive(Debug, Clone, Copy, PartialEq, Eq, Structural)]
pub enum KeyMessage {
    KeyDown,
    KeyUp,
    Other,
}

/// The kind of message code `msg`, given the system's "key down" and "key up" codes.
pub fn key_message(msg: u32, key_down: u32, key_up: u32) -> (kind: KeyMessage)
    ensures
        kind == (if msg == key_down {
            KeyMessage::KeyDown
        } else if msg == key_up {
            KeyMessage::KeyUp
        } else {
            KeyMessage::Other
        }),
{
    if msg == key_down {
        KeyMessage::KeyDown
    } else if msg == key_up {
        KeyMessage::KeyUp
    } else {
        KeyMessage::Other
    }
}

/// Whether the message loop goes on after fetching a message: the system returns a
/// positive value for a message, zero when the window is to quit, and a negative value
/// on error; the loop runs only while it is positive.
pub fn message_loop_continues(fetched: i32) -> (go_on: bool)
    ensures
        go_on == (fetched > 0),
{
    fetched > 0
}

/// Whether a fetched message ends the message loop: a key press whose text is "s" in
/// either case does; a key release, a key press without text, and any other message do
/// not.
pub fn key_event_stops(kind: KeyMessage, key: &Option<String>) -> (stop: bool)
    ensures
        stop == (kind == KeyMessage::KeyDown && (key matches Some(k) && is_stop_key(k@))),
{
    match kind {
        KeyMessage::KeyDown => match key {
            Some(k) => key_stops_event_loop(k.as_str()),
            None => false,
        },
        _ => false,
    }
}

/// Whether the low-level mouse hook reports an event as a left click: the event is for
/// the hook (`n_code >= 0`) and its message is the "left button down" code.
pub fn mouse_hook_reports_click(n_code: i32, message: u32, left_button_down: u32) -> (click: bool)
    ensures
        click == (n_code >= 0 && message == left_button_down),
{
    n_code >= 0 && message == left_button_down
}

} // verus!
