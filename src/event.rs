use crate::keys::{key_code_of, label_of, symbol_for_native, symbol_of_native, KeySymbol};
use vstd::prelude::*;
use vstd::string::*;

verus! {

/// Native message of a key going down.
pub const WM_KEYDOWN: usize = 0x0100;

/// Native message of a key coming up.
pub const WM_KEYUP: usize = 0x0101;

/// Native message of a key going down while a system key is held.
pub const WM_SYSKEYDOWN: usize = 0x0104;

/// Native message of a key coming up while a system key is held.
pub const WM_SYSKEYUP: usize = 0x0105;

/// Name under which each normalised key event is published to the host.
pub const GLOBAL_KEY_EVENT: &'static str = "global-key-event";

/// Bytes of a native keyboard-hook record that hold its virtual-key code,
/// which is the record's first field, a little-endian `u32`.
pub const VK_CODE_BYTES: usize = 4;

/// Whether a key went down or came up.
#[derive(Clone, Copy, Debug, PartialEq, Eq, Structural)]
pub enum KeyState {
    Down,
    Up,
}

/// The wire name of a key state.
pub open spec fn state_name(s: KeyState) -> Seq<char> {
    match s {
        KeyState::Down => "down"@,
        KeyState::Up => "up"@,
    }
}

impl KeyState {
    /// The wire name of the state: `"down"` or `"up"`.
    pub fn as_str(&self) -> (r: &'static str)
        ensures
            r@ == state_name(*self),
    {
        match self {
            KeyState::Down => "down",
            KeyState::Up => "up",
        }
    }
}

/// One normalised key transition, as published to the host.
#[derive(Clone, Debug)]
pub struct KeyEventRecord {
    /// The canonical identifier of the key.
    pub key_code: String,
    /// A human-readable character or name, where the source gives one.
    pub label: Option<String>,
    pub state: KeyState,
}

/// The characters of an optional string.
pub open spec fn opt_chars(o: Option<String>) -> Option<Seq<char>> {
    match o {
        Some(s) => Some(s@),
        None => None,
    }
}

/// What a raw event of the cross-platform input library is, as far as the
/// bridge reads it. A key carries the library's own identifier of the key.
pub enum RawEventType {
    KeyPress(String),
    KeyRelease(String),
    /// Pointer motion, buttons, the wheel: anything but a key transition.
    Other,
}

/// A raw event of the cross-platform input library.
pub struct RawEvent {
    pub event_type: RawEventType,
    /// The character that the key produced, where the library knows one.
    pub name: Option<String>,
}

fn clone_label(o: &Option<String>) -> (r: Option<String>)
    ensures
        opt_chars(r) == opt_chars(*o),
{
    match o {
        Some(s) => Some(s.clone()),
        None => None,
    }
}

/// Normalises a raw event of the cross-platform input library: a press or a
/// release becomes a record with the key's identifier and the event's label
/// passed through unchanged; any other event is ignored (`None`).
pub fn map_key_event(event: &RawEvent) -> (r: Option<KeyEventRecord>)
    ensures
        match event.event_type {
            RawEventType::KeyPress(key) => r matches Some(rec) && rec.key_code@ == key@
                && opt_chars(rec.label) == opt_chars(event.name) && rec.state == KeyState::Down,
            RawEventType::KeyRelease(key) => r matches Some(rec) && rec.key_code@ == key@
                && opt_chars(rec.label) == opt_chars(event.name) && rec.state == KeyState::Up,
            RawEventType::Other => r is None,
        },
{
    match &event.event_type {
        RawEventType::KeyPress(key) => Some(
            KeyEventRecord {
                key_code: key.clone(),
                label: clone_label(&event.name),
                state: KeyState::Down,
            },
        ),
        RawEventType::KeyRelease(key) => Some(
            KeyEventRecord {
                key_code: key.clone(),
                label: clone_label(&event.name),
                state: KeyState::Up,
            },
        ),
        RawEventType::Other => None,
    }
}

/// The little-endian `u32` held by the first four bytes of `b`.
pub open spec fn le_u32(b: Seq<u8>) -> int {
    b[0] as int + b[1] as int * 0x100 + b[2] as int * 0x1_0000 + b[3] as int * 0x100_0000
}

/// The virtual-key code of a native keyboard-hook record, read from its
/// first four bytes; `None` where the record is too short to hold it.
pub fn vk_code_from_record(record: &[u8]) -> (r: Option<u32>)
    ensures
        record@.len() < VK_CODE_BYTES ==> r is None,
        record@.len() >= VK_CODE_BYTES ==> (r matches Some(vk) && vk as int == le_u32(record@)),
{
    if record.len() < VK_CODE_BYTES {
        return None;
    }
    let b0 = record[0] as u32;
    let b1 = record[1] as u32;
    let b2 = record[2] as u32;
    let b3 = record[3] as u32;
    Some(b0 + b1 * 0x100 + b2 * 0x1_0000 + b3 * 0x100_0000)
}

/// The transition that a native keyboard message reports, if it reports one.
pub open spec fn message_state(message: usize) -> Option<KeyState> {
    if message == WM_KEYDOWN || message == WM_SYSKEYDOWN {
        Some(KeyState::Down)
    } else if message == WM_KEYUP || message == WM_SYSKEYUP {
        Some(KeyState::Up)
    } else {
        None
    }
}

/// The key and transition that a native hook call reports, or `None` where
/// the call is to be passed on without an event: a negative hook code, a
/// message that is no key transition, a record too short to hold a code, or
/// a code outside the key table.
pub open spec fn hook_transition(code: i32, message: usize, record: Seq<u8>) -> Option<
    (KeySymbol, KeyState),
> {
    if code < 0 || record.len() < VK_CODE_BYTES || message_state(message) is None {
        None
    } else if symbol_of_native(le_u32(record) as u32) is Some {
        Some((symbol_of_native(le_u32(record) as u32)->0, message_state(message)->0))
    } else {
        None
    }
}

/// Normalises one call of the native keyboard hook. A recognised key
/// transition becomes a record with the key's canonical identifier, its
/// label and its state; everything else is dropped (`None`).
pub fn map_hook_event(code: i32, message: usize, record: &[u8]) -> (r: Option<KeyEventRecord>)
    ensures
        match hook_transition(code, message, record@) {
            None => r is None,
            Some((k, st)) => r matches Some(rec) && rec.key_code@ == key_code_of(k)
                && opt_chars(rec.label) == Some(label_of(k)) && rec.state == st,
        },
{
    if code < 0 {
        return None;
    }
    let state = if message == WM_KEYDOWN || message == WM_SYSKEYDOWN {
        KeyState::Down
    } else if message == WM_KEYUP || message == WM_SYSKEYUP {
        KeyState::Up
    } else {
        return None;
    };
    let vk = match vk_code_from_record(record) {
        Some(vk) => vk,
        None => return None,
    };
    match symbol_for_native(vk) {
        Some(k) => Some(
            KeyEventRecord {
                key_code: String::from_str(k.key_code()),
                label: Some(String::from_str(k.label())),
                state,
            },
        ),
        None => None,
    }
}

} // verus!
