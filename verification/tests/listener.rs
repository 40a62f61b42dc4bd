use key_counter::listener::{find_device, pressed_key, RawEvent, KEY_EVENT_TYPE, PRESS_VALUE};

#[test]
fn only_key_presses_pass_the_filter() {
    assert_eq!(pressed_key(RawEvent { event_type: 1, code: 30, value: 1 }), Some(30));
    assert_eq!(pressed_key(RawEvent { event_type: 1, code: 43, value: 1 }), Some(43));
    assert_eq!(pressed_key(RawEvent { event_type: 1, code: 0, value: 1 }), Some(0));
    assert_eq!(pressed_key(RawEvent { event_type: 1, code: 30, value: 0 }), None);
    assert_eq!(pressed_key(RawEvent { event_type: 1, code: 30, value: 2 }), None);
    assert_eq!(pressed_key(RawEvent { event_type: 1, code: 30, value: -1 }), None);
    assert_eq!(pressed_key(RawEvent { event_type: 0, code: 0, value: 1 }), None);
    assert_eq!(pressed_key(RawEvent { event_type: 2, code: 1, value: 1 }), None);
    assert_eq!(pressed_key(RawEvent { event_type: 4, code: 4, value: 1 }), None);
    assert_eq!(pressed_key(RawEvent { event_type: 0x11, code: 1, value: 1 }), None);
    assert_eq!(pressed_key(RawEvent { event_type: u16::MAX, code: 30, value: 1 }), None);
    assert_eq!(KEY_EVENT_TYPE, 1);
    assert_eq!(PRESS_VALUE, 1);
}

#[test]
fn filter_agrees_with_its_definition_on_a_grid() {
    let mut event_type: u16 = 0;
    while event_type < 40 {
        let mut value: i32 = -2;
        while value < 4 {
            let event = RawEvent { event_type, code: 1000 + event_type, value };
            let expected =
                if value == 1 && event_type == 1 { Some(1000 + event_type) } else { None };
            assert_eq!(pressed_key(event), expected);
            value += 1;
        }
        event_type += 1;
    }
}

fn names() -> Vec<Option<String>> {
    vec![
        Some("Power Button".to_string()),
        None,
        Some("AT Translated Set 2 keyboard".to_string()),
        Some("GMMK Pro Keyboard".to_string()),
        Some("GMMK Pro Keyboard Consumer Control".to_string()),
        Some("Translated twice".to_string()),
    ]
}

#[test]
fn hint_picks_the_first_device_whose_name_contains_it() {
    assert_eq!(find_device(&names(), "GMMK Pro Keyboard"), Some(3));
    assert_eq!(find_device(&names(), "Translated"), Some(2));
    assert_eq!(find_device(&names(), "Button"), Some(0));
    assert_eq!(find_device(&names(), "Control"), Some(4));
    assert_eq!(find_device(&names(), "twice"), Some(5));
}

#[test]
fn unmatched_hint_finds_nothing() {
    assert_eq!(find_device(&names(), "Trackpad"), None);
    assert_eq!(find_device(&names(), "translated"), None);
    assert_eq!(find_device(&names(), "GMMK Pro Keyboard Consumer Control Panel"), None);
    assert_eq!(find_device(&Vec::new(), "Translated"), None);
    assert_eq!(find_device(&vec![None, None], ""), None);
}

#[test]
fn empty_hint_matches_the_first_named_device() {
    assert_eq!(find_device(&names(), ""), Some(0));
    assert_eq!(find_device(&vec![None, Some(String::new())], ""), Some(1));
}
