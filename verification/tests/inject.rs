use drop_typing::caret::{caret_anchor, CaretAnchor, Focused};
use drop_typing::command::{KeyCombo, Modifier};
use drop_typing::hotkey::Platform;
use drop_typing::inject::{
    combo_strokes, modifier_key, paste_text, stroke_key, PasteStep, Stroke, StrokeKey,
};

#[test]
fn keys_are_struck_by_name() {
    assert_eq!(stroke_key("C"), Ok(StrokeKey::Character('c')));
    assert_eq!(stroke_key("4"), Ok(StrokeKey::Character('4')));
    assert_eq!(stroke_key("ENTER"), Ok(StrokeKey::Return));
    assert_eq!(stroke_key("DELETE"), Ok(StrokeKey::Backspace));
    assert_eq!(stroke_key("F12"), Ok(StrokeKey::Function(12)));
    assert_eq!(stroke_key("F13"), Err("不支持的键名：F13".to_string()));
}

#[test]
fn windows_strikes_control_for_command() {
    assert_eq!(modifier_key(Modifier::Command, Platform::Macos), StrokeKey::Meta);
    assert_eq!(modifier_key(Modifier::Command, Platform::Windows), StrokeKey::Control);
    assert_eq!(modifier_key(Modifier::AltGr, Platform::Windows), StrokeKey::Option);
}

#[test]
fn modifiers_are_released_the_other_way_round() {
    let combo = KeyCombo {
        modifiers: vec![Modifier::Shift, Modifier::Command],
        key: "E".into(),
    };
    let (strokes, result) = combo_strokes(&combo, Platform::Macos);
    assert_eq!(
        strokes,
        vec![
            Stroke::Press(StrokeKey::Shift),
            Stroke::Press(StrokeKey::Meta),
            Stroke::Click(StrokeKey::Character('e')),
            Stroke::Release(StrokeKey::Meta),
            Stroke::Release(StrokeKey::Shift),
        ]
    );
    assert_eq!(result, Ok(()));
}

#[test]
fn a_key_that_cannot_be_struck_is_told_after_the_modifiers() {
    let combo = KeyCombo {
        modifiers: vec![Modifier::Shift],
        key: "HOME".into(),
    };
    let (strokes, result) = combo_strokes(&combo, Platform::Macos);
    assert_eq!(strokes, vec![Stroke::Press(StrokeKey::Shift)]);
    assert_eq!(result, Err("不支持的键名：HOME".to_string()));
}

#[test]
fn pasting_gives_the_clipboard_back() {
    let steps = paste_text("文", Some("旧".into()), Platform::Windows);
    assert_eq!(steps.len(), 5);
    assert!(matches!(&steps[0], PasteStep::Copy(s) if s == "文"));
    assert!(matches!(steps[1], PasteStep::Wait(60)));
    match &steps[2] {
        PasteStep::Strike(v) => assert_eq!(
            *v,
            vec![
                Stroke::Press(StrokeKey::Control),
                Stroke::Click(StrokeKey::Character('v')),
                Stroke::Release(StrokeKey::Control),
            ]
        ),
        other => panic!("{other:?}"),
    }
    assert!(matches!(steps[3], PasteStep::Wait(150)));
    assert!(matches!(&steps[4], PasteStep::Restore(s) if s == "旧"));
    assert_eq!(paste_text("文", None, Platform::Macos).len(), 4);
}

#[test]
fn the_caret_goes_before_element_and_window() {
    let f = |caret, frame| Some(Focused { caret, frame });
    assert_eq!(caret_anchor(true, f(Some(1), Some(2)), Some(3)), Some(CaretAnchor::Precise(1)));
    assert_eq!(caret_anchor(true, f(None, Some(2)), Some(3)), Some(CaretAnchor::Precise(2)));
    assert_eq!(caret_anchor(true, f(None, None), Some(3)), Some(CaretAnchor::Window(3)));
    assert_eq!(caret_anchor::<i32>(true, None, None), None);
    assert_eq!(caret_anchor(false, f(Some(1), Some(2)), Some(3)), None);
}
