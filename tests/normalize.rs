use apothekensoft_lib::event::{
    map_hook_event, map_key_event, vk_code_from_record, KeyState, RawEvent, RawEventType, WM_KEYDOWN,
    WM_KEYUP, WM_SYSKEYDOWN, WM_SYSKEYUP,
};

fn record_for(vk: u32) -> Vec<u8> {
    let mut r = vk.to_le_bytes().to_vec();
    r.extend_from_slice(&[0u8; 20]);
    r
}

#[test]
fn press_and_release_of_a_from_the_input_library() {
    let press = RawEvent {
        event_type: RawEventType::KeyPress("KeyA".to_string()),
        name: Some("a".to_string()),
    };
    let rec = map_key_event(&press).unwrap();
    assert_eq!(rec.key_code, "KeyA");
    assert_eq!(rec.label.as_deref(), Some("a"));
    assert_eq!(rec.state, KeyState::Down);

    let release = RawEvent {
        event_type: RawEventType::KeyRelease("KeyA".to_string()),
        name: None,
    };
    let rec2 = map_key_event(&release).unwrap();
    assert_eq!(rec2.key_code, rec.key_code);
    assert_eq!(rec2.label, None);
    assert_eq!(rec2.state, KeyState::Up);
}

#[test]
fn modifier_without_label_keeps_label_absent() {
    let press = RawEvent {
        event_type: RawEventType::KeyPress("ShiftLeft".to_string()),
        name: None,
    };
    let rec = map_key_event(&press).unwrap();
    assert_eq!(rec.key_code, "ShiftLeft");
    assert_eq!(rec.label, None);
    assert_eq!(rec.state.as_str(), "down");
}

#[test]
fn non_key_event_is_ignored() {
    let motion = RawEvent {
        event_type: RawEventType::Other,
        name: None,
    };
    assert!(map_key_event(&motion).is_none());
    assert!(map_hook_event(0, 0x0200, &record_for(0x41)).is_none());
}

#[test]
fn press_and_release_of_a_from_the_native_hook() {
    let down = map_hook_event(0, WM_KEYDOWN, &record_for(0x41)).unwrap();
    assert_eq!(down.key_code, "KeyA");
    assert_eq!(down.label.as_deref(), Some("a"));
    assert_eq!(down.state, KeyState::Down);
    let up = map_hook_event(0, WM_KEYUP, &record_for(0x41)).unwrap();
    assert_eq!(up.key_code, down.key_code);
    assert_eq!(up.state, KeyState::Up);
    assert_eq!(up.state.as_str(), "up");
}

#[test]
fn system_key_messages_count_as_transitions() {
    let down = map_hook_event(0, WM_SYSKEYDOWN, &record_for(0xA4)).unwrap();
    assert_eq!(down.key_code, "AltLeft");
    assert_eq!(down.label.as_deref(), Some("Alt"));
    assert_eq!(down.state, KeyState::Down);
    let up = map_hook_event(3, WM_SYSKEYUP, &record_for(0x20)).unwrap();
    assert_eq!(up.key_code, "Space");
    assert_eq!(up.label.as_deref(), Some(" "));
    assert_eq!(up.state, KeyState::Up);
}

#[test]
fn native_events_that_are_dropped() {
    assert!(map_hook_event(-1, WM_KEYDOWN, &record_for(0x41)).is_none());
    assert!(map_hook_event(0, WM_KEYDOWN, &record_for(0x07)).is_none());
    assert!(map_hook_event(0, WM_KEYDOWN, &record_for(0x10041)).is_none());
    assert!(map_hook_event(0, WM_KEYDOWN, &[0x41, 0, 0]).is_none());
    assert!(map_hook_event(0, WM_KEYDOWN, &[]).is_none());
}

#[test]
fn record_code_is_little_endian() {
    assert_eq!(vk_code_from_record(&[0x78, 0x56, 0x34, 0x12]), Some(0x1234_5678));
    assert_eq!(vk_code_from_record(&[0xFF, 0xFF, 0xFF, 0xFF, 9]), Some(u32::MAX));
    assert_eq!(vk_code_from_record(&[0x41, 0, 0]), None);
    assert_eq!(vk_code_from_record(&record_for(0x0D)), Some(0x0D));
}

#[test]
fn ten_thousand_random_hook_calls_never_fail() {
    let mut seed: u64 = 0x2545_F491_4F6C_DD1D;
    let mut next = || {
        seed = seed.wrapping_mul(6364136223846793005).wrapping_add(1442695040888963407);
        seed >> 16
    };
    let messages = [WM_KEYDOWN, WM_KEYUP, WM_SYSKEYDOWN, WM_SYSKEYUP, 0x0200, 0];
    let mut forwarded = 0;
    for _ in 0..10_000 {
        let code = (next() % 5) as i32 - 1;
        let message = messages[(next() % messages.len() as u64) as usize];
        let vk = match next() % 3 {
            0 => (next() % 0x100) as u32,
            1 => next() as u32,
            _ => u32::MAX,
        };
        let len = (next() % 30) as usize;
        let mut record = vk.to_le_bytes().to_vec();
        record.resize(len, 0);
        if let Some(rec) = map_hook_event(code, message, &record) {
            assert!(code >= 0);
            assert!(record.len() >= 4);
            assert!(!rec.key_code.is_empty());
            forwarded += 1;
        }
    }
    assert!(forwarded > 0);
}
