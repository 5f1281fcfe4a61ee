use drop_typing::staging::{CommandEngine, Staging, UiEvent};

#[test]
fn an_error_brings_the_window_up_and_text_takes_it_away() {
    let mut s = Staging::new();
    s.error("坏了");
    assert!(s.has_error());
    assert_eq!(s.drain(), vec![UiEvent::Error("坏了".to_string()), UiEvent::Show]);
    s.append("你好");
    assert!(!s.has_error());
    assert_eq!(s.drain(), vec![UiEvent::Text("你好".to_string())]);
    s.error("坏了");
    s.clear_error();
    assert!(!s.has_error());
    assert_eq!(s.text(), "你好");
}

#[test]
fn taking_the_text_empties_the_bar() {
    let mut s = Staging::new();
    s.append("一");
    s.append("二");
    assert_eq!(s.take(), "一二");
    assert_eq!(s.text(), "");
    s.set_text("一二");
    assert_eq!(s.text(), "一二");
    s.error("坏了");
    s.replace("三");
    assert_eq!(s.text(), "三");
    assert!(!s.has_error());
}

#[test]
fn what_the_window_shows_comes_in_order() {
    let mut s = Staging::new();
    s.show();
    s.set_recording(true);
    s.set_busy(true);
    s.set_status("识别中");
    s.partial("你");
    s.set_repair_note("改");
    s.show_command("CMD + C", 2, CommandEngine::Text);
    s.command_tick(1);
    s.clear_command();
    s.committed();
    s.hide_window();
    assert_eq!(
        s.drain(),
        vec![
            UiEvent::Show,
            UiEvent::Recording(true),
            UiEvent::Busy(true),
            UiEvent::Status("识别中".to_string()),
            UiEvent::Partial("你".to_string()),
            UiEvent::RepairNote("改".to_string()),
            UiEvent::Command("CMD + C".to_string(), 2, CommandEngine::Text),
            UiEvent::CommandTick(1),
            UiEvent::CommandClear,
            UiEvent::Committed,
            UiEvent::Hide,
        ]
    );
    assert!(s.drain().is_empty());
}

#[test]
fn a_cleared_bar_tells_the_window_everything() {
    let mut s = Staging::new();
    s.append("你好");
    s.error("坏了");
    s.drain();
    s.clear();
    assert!(!s.has_error());
    assert_eq!(
        s.drain(),
        vec![
            UiEvent::Text(String::new()),
            UiEvent::Status(String::new()),
            UiEvent::Partial(String::new()),
            UiEvent::Busy(false),
            UiEvent::Recording(false),
            UiEvent::RepairNote(String::new()),
            UiEvent::CommandClear,
        ]
    );
}
