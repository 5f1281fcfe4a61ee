use drop_typing::hotkey::{
    capture_single, family_of, map_rdev_key, platform_name, Bindings, Capture, CaptureEvent, HotkeyEvent, Key,
    KeySpec, ModFamily, Platform, RawButton, RawEvent, RdevHotkey, WindowsHotkey,
};

#[test]
fn maps_letter_digit_and_function_keys() {
    assert_eq!(map_rdev_key(&Key::KeyA).as_deref(), Some("A"));
    assert_eq!(map_rdev_key(&Key::Num4).as_deref(), Some("4"));
    assert_eq!(map_rdev_key(&Key::F4).as_deref(), Some("F4"));
}

#[test]
fn maps_named_keys() {
    assert_eq!(map_rdev_key(&Key::Return).as_deref(), Some("ENTER"));
    assert_eq!(map_rdev_key(&Key::Space).as_deref(), Some("SPACE"));
    assert_eq!(map_rdev_key(&Key::UpArrow).as_deref(), Some("UP"));
    assert_eq!(map_rdev_key(&Key::Escape).as_deref(), Some("ESC"));
    assert_eq!(map_rdev_key(&Key::Backspace).as_deref(), Some("DELETE"));
    assert_eq!(map_rdev_key(&Key::Delete).as_deref(), Some("DELETE"));
}

#[test]
fn rejects_unsupported_keys() {
    assert_eq!(map_rdev_key(&Key::Unknown(0)), None);
    assert_eq!(map_rdev_key(&Key::Function), None);
}

#[test]
fn family_of_modifiers() {
    assert_eq!(family_of(&Key::MetaRight), Some(ModFamily::Meta));
    assert_eq!(family_of(&Key::MetaLeft), Some(ModFamily::Meta));
    assert_eq!(family_of(&Key::ShiftLeft), Some(ModFamily::Shift));
    assert_eq!(family_of(&Key::AltGr), Some(ModFamily::Alt));
    assert_eq!(family_of(&Key::ControlRight), Some(ModFamily::Control));
    assert_eq!(family_of(&Key::KeyA), None);
}

#[test]
fn specs_are_read_whatever_their_case() {
    assert_eq!(KeySpec::parse("WIN").unwrap(), KeySpec::Family(ModFamily::Meta));
    assert_eq!(KeySpec::parse("ctrl").unwrap(), KeySpec::Family(ModFamily::Control));
    assert_eq!(KeySpec::parse("metaright").unwrap(), KeySpec::Exact(Key::MetaRight));
    assert_eq!(KeySpec::Exact(Key::ShiftRight).to_config_name(), "ShiftRight");
    assert!(KeySpec::parse("NoSuchKey").is_err());
}

#[test]
fn written_names_are_read_back() {
    for key in [Key::AltGr, Key::F5, Key::KeyQ, Key::Num0, Key::Escape] {
        let name = KeySpec::Exact(key).to_config_name();
        assert_eq!(KeySpec::parse(&name).unwrap(), KeySpec::Exact(key));
    }
}

#[test]
fn platforms_have_names() {
    assert_eq!(platform_name(Platform::Macos), "macos");
    assert_eq!(platform_name(Platform::Windows), "windows");
}

#[test]
fn macos_keys_open_channels() {
    let h = RdevHotkey::new(Bindings::macos_default());
    assert_eq!(
        h.classify(RawEvent::KeyPress(Key::MetaRight)),
        Some(HotkeyEvent::TriggerDown)
    );
    assert_eq!(
        h.classify(RawEvent::KeyRelease(Key::MetaRight)),
        Some(HotkeyEvent::TriggerUp)
    );
    assert_eq!(
        h.classify(RawEvent::KeyPress(Key::AltGr)),
        Some(HotkeyEvent::RepairDown)
    );
}

#[test]
fn windows_needs_the_whole_combination() {
    let mut h = WindowsHotkey::new(&Bindings::windows_default());
    let first = h.handle(RawEvent::KeyPress(Key::MetaLeft), 0);
    assert_eq!(first.events, vec![]);
    let second = h.handle(RawEvent::KeyPress(Key::Alt), 1_000_000);
    assert_eq!(second.events, vec![HotkeyEvent::TriggerDown]);
    let third = h.handle(RawEvent::KeyRelease(Key::Alt), 2_000_000);
    assert_eq!(third.events, vec![HotkeyEvent::TriggerUp]);
}

#[test]
fn recording_a_combination() {
    let mut c = Capture::new(false);
    assert!(c.advance(CaptureEvent::Raw(RawEvent::KeyPress(Key::MetaLeft))).is_none());
    assert!(c.advance(CaptureEvent::Raw(RawEvent::KeyPress(Key::MetaLeft))).is_none());
    assert!(c.advance(CaptureEvent::Raw(RawEvent::KeyPress(Key::ShiftLeft))).is_none());
    assert!(c.advance(CaptureEvent::Raw(RawEvent::KeyRelease(Key::ShiftLeft))).is_none());
    let combo = c
        .advance(CaptureEvent::Raw(RawEvent::KeyPress(Key::KeyC)))
        .unwrap()
        .unwrap();
    assert_eq!(combo.modifiers, vec!["Cmd".to_string()]);
    assert_eq!(combo.key, "C");
}

#[test]
fn recording_ends_without_a_combination() {
    assert_eq!(
        Capture::new(false).advance(CaptureEvent::Cancelled).unwrap(),
        Err("已取消".to_string())
    );
    assert_eq!(
        Capture::new(false).advance(CaptureEvent::TimedOut).unwrap(),
        Err("录制超时".to_string())
    );
    assert_eq!(
        Capture::new(false).advance(CaptureEvent::Raw(RawEvent::KeyPress(Key::Escape))).unwrap(),
        Err("已取消".to_string())
    );
}

#[test]
fn side_buttons_open_channels_and_are_taken() {
    let h = RdevHotkey::new(Bindings::macos_default());
    let forward = RawEvent::ButtonPress(RawButton::Forward);
    assert_eq!(h.classify(forward), Some(HotkeyEvent::MouseTriggerDown));
    assert!(h.consumes(forward));
    assert_eq!(
        h.classify(RawEvent::ButtonRelease(RawButton::Back)),
        Some(HotkeyEvent::MouseRepairUp)
    );
    assert!(!h.consumes(RawEvent::ButtonPress(RawButton::Left)));
}

#[test]
fn windows_swallows_only_its_own_windows_keys() {
    let mut h = WindowsHotkey::new(&Bindings::windows_default());
    let alone = h.handle(RawEvent::KeyPress(Key::MetaLeft), 0);
    assert!(!alone.swallow_win_down);
    let released = h.handle(RawEvent::KeyRelease(Key::MetaLeft), 1_000_000);
    assert!(!released.swallow_win_up);
    let _ = h.handle(RawEvent::KeyPress(Key::MetaLeft), 2_000_000);
    let _ = h.handle(RawEvent::KeyPress(Key::Alt), 3_000_000);
    let up = h.handle(RawEvent::KeyRelease(Key::MetaLeft), 4_000_000);
    assert!(up.swallow_win_up);
    assert_eq!(up.events, vec![HotkeyEvent::TriggerUp]);
}

#[test]
fn single_keys_are_recorded_by_family_or_side() {
    let press = |k| CaptureEvent::Raw(RawEvent::KeyPress(k));
    assert_eq!(capture_single(press(Key::MetaRight), false), Some(Ok("Meta".to_string())));
    assert_eq!(capture_single(press(Key::MetaRight), true), Some(Ok("MetaRight".to_string())));
    assert_eq!(capture_single(press(Key::F5), true), Some(Ok("F5".to_string())));
    assert_eq!(capture_single(press(Key::Unknown(7)), true), None);
    assert_eq!(
        capture_single(CaptureEvent::Raw(RawEvent::KeyRelease(Key::F5)), true),
        None
    );
    assert_eq!(capture_single(press(Key::Escape), false), Some(Err("已取消".to_string())));
    assert_eq!(
        capture_single(CaptureEvent::TimedOut, false),
        Some(Err("录制超时".to_string()))
    );
}

#[test]
fn sides_are_told_apart_on_request() {
    let press = |k| CaptureEvent::Raw(RawEvent::KeyPress(k));
    let mut c = Capture::new(true);
    assert!(c.advance(press(Key::ControlLeft)).is_none());
    assert!(c.advance(press(Key::ControlRight)).is_none());
    assert!(c.advance(CaptureEvent::Raw(RawEvent::KeyRelease(Key::ControlLeft))).is_none());
    assert!(c.advance(press(Key::Alt)).is_none());
    let combo = c.advance(press(Key::KeyC)).unwrap().unwrap();
    assert_eq!(combo.modifiers, vec!["ControlRight", "AltLeft"]);
    assert_eq!(combo.key, "C");
}
