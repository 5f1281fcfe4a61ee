use drop_typing::command::{KeyCombo, Lexicon, Modifier, ParsedCommand};
use drop_typing::config::Config;
use drop_typing::hotkey::HotkeyEvent;
use drop_typing::pipeline::runtime::{reload_plan, WakeSwitch};
use drop_typing::pipeline::wake::{listener_outcome, wake_session_settled, wake_word_to_mode};
use drop_typing::pipeline::{
    Action, Backend, Followup, Forwarder, Means, Pipeline, RecordMode, RuntimeState,
    SessionResult, Silence, Snapshot, State, WakeSession, WakeStep, WakeUpdate,
};
use drop_typing::staging::{Staging, UiEvent};
use drop_typing::wakeword::WakeWord;

const MS: u64 = 1_000_000;

fn snap(backend: Backend) -> Snapshot {
    Snapshot {
        backend,
        lightning: true,
        threshold_ms: 150,
        double_press_ms: 350,
    }
}

/// Presses the key of a channel and reports that recording has begun.
fn press(p: &mut Pipeline, ev: HotkeyEvent, now: u64, backend: Backend) {
    match p.handle(ev, now, snap(backend)) {
        Action::Start(plan) => p.recording_started(plan, now),
        other => panic!("{other:?}"),
    }
}

#[test]
fn forwarder_delivers_audio_when_session_arrives_after_recording_ends() {
    let mut f = Forwarder::new();
    assert_eq!(f.recorded(vec![1]), None);
    assert_eq!(f.recorded(vec![2]), None);
    assert!(f.waits());
    assert_eq!(f.session_arrived().len(), 2);
}

#[test]
fn forwarder_done_precedes_finish_with_all_audio() {
    let mut f = Forwarder::new();
    assert_eq!(f.recorded(vec![9, 9]), None);
    let chunks = f.session_arrived();
    assert_eq!(chunks.len(), 1);
    assert_eq!(chunks[0], vec![9, 9]);
    assert!(!f.waits());
    assert_eq!(f.recorded(vec![3]), Some(vec![3]));
}

/// Spots the command wherever the sound is the one it was made for.
fn spotted(sound: &[u8], pcm: &[u8]) -> Option<ParsedCommand> {
    if sound == pcm {
        Some(ParsedCommand::Combo(KeyCombo {
            modifiers: vec![Modifier::Command],
            key: "C".to_string(),
        }))
    } else {
        None
    }
}

#[test]
fn forwarder_reports_lightning_hit() {
    let mut f = Forwarder::new();
    let mut hits = Vec::new();
    for chunk in [vec![1], vec![7, 7]] {
        hits.extend(spotted(&[7, 7], &chunk));
        assert_eq!(f.recorded(chunk), None);
    }
    let hit = hits.remove(0);
    assert_eq!(hit.display(), "CMD+C");
    let sent = f.session_arrived();
    assert_eq!(sent, vec![vec![1], vec![7, 7]]);
    assert!(!f.waits());
}

#[test]
fn a_spotted_command_ends_the_recording() {
    let mut p = Pipeline::new(true);
    press(&mut p, HotkeyEvent::CommandDown, 0, Backend::Realtime);
    assert!(p.wants_lightning());
    let run = p.lightning_hit(spotted(&[7, 7], &[7, 7]).unwrap());
    assert_eq!(run.command.display(), "CMD+C");
    assert!(!p.wants_lightning());
}

#[test]
fn runtime_state_defaults() {
    let st = RuntimeState::from_config(&Config::default());
    assert!(st.backend.is_none());
    assert!(st.cleaner.is_none());
    assert_eq!(st.threshold, 150);
    assert_eq!(st.double_press, 350);
    assert_eq!(st.command_countdown, 1000);
    assert!(st.lexicon.entry_count() > 0);
}

#[test]
fn runtime_state_reflects_custom_thresholds() {
    let mut cfg = Config::default();
    cfg.long_press_threshold_ms = 500;
    cfg.double_press_window_ms = 400;
    cfg.command_countdown_ms = 3000;
    let st = RuntimeState::from_config(&cfg);
    assert_eq!(st.threshold, 500);
    assert_eq!(st.double_press, 400);
    assert_eq!(st.command_countdown, 3000);
    assert_eq!(st.snapshot(false).threshold_ms, 500);
    assert_eq!(st.snapshot(false).backend, Backend::Missing);
}

#[test]
fn a_long_press_is_recognised() {
    let mut p = Pipeline::new(true);
    press(&mut p, HotkeyEvent::TriggerDown, 0, Backend::Realtime);
    assert_eq!(
        p.handle(HotkeyEvent::TriggerUp, 150 * MS, snap(Backend::Realtime)),
        Action::FinishRealtime(RecordMode::Input)
    );
    let mut q = Pipeline::new(true);
    press(&mut q, HotkeyEvent::TriggerDown, 0, Backend::Batch);
    assert_eq!(
        q.handle(HotkeyEvent::TriggerUp, 200 * MS, snap(Backend::Batch)),
        Action::Transcribe(RecordMode::Input)
    );
}

#[test]
fn a_short_press_commits_after_the_double_press_window() {
    let mut p = Pipeline::new(true);
    p.staging.append("你好");
    press(&mut p, HotkeyEvent::TriggerDown, 0, Backend::Realtime);
    assert_eq!(
        p.handle(HotkeyEvent::TriggerUp, 149 * MS, snap(Backend::Realtime)),
        Action::Discard
    );
    assert_eq!(p.commit_pending(400 * MS, snap(Backend::Realtime)), Action::Nothing);
    assert_eq!(
        p.commit_pending(499 * MS, snap(Backend::Realtime)),
        Action::Commit {
            text: "你好".to_string(),
            collapse: false
        }
    );
    assert_eq!(p.staging.text(), "");
}

#[test]
fn two_short_presses_clear_the_bar() {
    let mut p = Pipeline::new(true);
    p.staging.append("你好");
    press(&mut p, HotkeyEvent::TriggerDown, 0, Backend::Realtime);
    let _ = p.handle(HotkeyEvent::TriggerUp, 100 * MS, snap(Backend::Realtime));
    press(&mut p, HotkeyEvent::TriggerDown, 200 * MS, Backend::Realtime);
    let _ = p.handle(HotkeyEvent::TriggerUp, 300 * MS, snap(Backend::Realtime));
    assert_eq!(p.staging.text(), "");
    assert_eq!(p.commit_pending(2000 * MS, snap(Backend::Realtime)), Action::Nothing);
}

#[test]
fn another_key_makes_a_recording_void() {
    let mut p = Pipeline::new(true);
    press(&mut p, HotkeyEvent::TriggerDown, 0, Backend::Realtime);
    let _ = p.handle(HotkeyEvent::OtherKeyDown, 50 * MS, snap(Backend::Realtime));
    assert_eq!(
        p.handle(HotkeyEvent::TriggerUp, 900 * MS, snap(Backend::Realtime)),
        Action::Discard
    );
}

#[test]
fn without_a_microphone_nothing_starts() {
    let mut p = Pipeline::new(false);
    assert_eq!(
        p.handle(HotkeyEvent::TriggerDown, 0, snap(Backend::Realtime)),
        Action::Nothing
    );
    assert!(p.staging.has_error());
}

fn means(lexicon: &Lexicon, cleaner: bool) -> Means<'_> {
    Means {
        cleaner,
        countdown_ms: 1000,
        lexicon,
    }
}

#[test]
fn transcripts_go_to_the_bar_or_to_polishing() {
    let lex = Lexicon::default();
    let mut p = Pipeline::new(true);
    match p.transcript(RecordMode::Input, Ok("你好".into()), means(&lex, false)) {
        Followup::Nothing => {}
        other => panic!("{other:?}"),
    }
    assert_eq!(p.staging.text(), "你好");
    match p.transcript(RecordMode::Input, Ok("再见".into()), means(&lex, true)) {
        Followup::Clean { raw, message } => {
            assert_eq!(raw, "再见");
            assert!(message.contains("再见"));
        }
        other => panic!("{other:?}"),
    }
    p.clean_finished("再见", Err("断网".into()));
    assert_eq!(p.staging.text(), "你好再见");
    assert!(p.staging.has_error());
}

#[test]
fn commands_are_counted_down_and_can_be_overtaken() {
    let lex = Lexicon::default();
    let mut p = Pipeline::new(true);
    let mut run = match p.transcript(RecordMode::Command, Ok("复制".into()), means(&lex, false)) {
        Followup::Run(run) => run,
        other => panic!("{other:?}"),
    };
    assert_eq!(run.command.display(), "CMD+C");
    assert_eq!(run.remaining, 1);
    press(&mut p, HotkeyEvent::TriggerDown, 0, Backend::Realtime);
    assert!(!p.countdown_tick(&mut run));
}

#[test]
fn speech_that_is_no_command_is_told() {
    let lex = Lexicon::default();
    let mut p = Pipeline::new(true);
    match p.transcript(RecordMode::Command, Ok("今天天气不错".into()), means(&lex, false)) {
        Followup::Nothing => {}
        other => panic!("{other:?}"),
    }
    assert!(p.staging.has_error());
}

#[test]
fn sessions_that_cannot_be_finished_are_told() {
    let mut p = Pipeline::new(true);
    assert!(p.session_settled(true, SessionResult::Connected, RecordMode::Input));
    assert!(!p.session_settled(false, SessionResult::Connected, RecordMode::Input));
    assert_eq!(
        p.staging.last_error.as_deref(),
        Some("音频未能在 4 秒内送达，已放弃本次识别")
    );
    assert!(!p.session_settled(true, SessionResult::Failed("坏".into()), RecordMode::Input));
    assert_eq!(p.staging.last_error.as_deref(), Some("ASR 会话建立失败：坏"));
    assert_eq!(
        wake_session_settled(WakeSession::Failed("坏".into()), true),
        Err("ASR 会话建立失败：坏".to_string())
    );
}

#[test]
fn wake_words_open_channels() {
    let word = |text: &str, action: &str| WakeWord {
        text: text.into(),
        action: action.into(),
    };
    assert_eq!(wake_word_to_mode(&word("小易修", "repair")), RecordMode::Repair);
    assert_eq!(wake_word_to_mode(&word("小易控", "command")), RecordMode::Command);
    assert_eq!(wake_word_to_mode(&word("小易记", "input")), RecordMode::Input);
    let mut p = Pipeline::new(true);
    p.wake_update(WakeUpdate::Ready);
    assert_eq!(p.state, State::Listening);
    p.staging.append("文");
    match p.wake_word(&word("小易确认", "commit")) {
        WakeStep::Done(Action::Commit { text, .. }) => assert_eq!(text, "文"),
        other => panic!("{other:?}"),
    }
    match p.wake_word(&word("小易记", "input")) {
        WakeStep::Record => {}
        other => panic!("{other:?}"),
    }
}

#[test]
fn the_engine_says_what_is_missing() {
    assert!(matches!(listener_outcome(Ok(true)), WakeUpdate::Ready));
    assert!(matches!(listener_outcome(Ok(false)), WakeUpdate::Failed(_)));
    assert!(matches!(listener_outcome(Err("x".into())), WakeUpdate::Failed(_)));
}

#[test]
fn silence_is_counted_in_a_row() {
    let mut s = Silence::new(10);
    s.observe(6, true);
    s.observe(1, false);
    s.observe(6, true);
    assert!(!s.over());
    s.observe(4, true);
    assert!(s.over());
}

#[test]
fn a_new_device_restarts_the_wake_word_engine() {
    let old = Config::default();
    let mut new = Config::default();
    new.audio.input_device = Some("Drop Mic".into());
    new.wakeword.enabled = true;
    let plan = reload_plan(&old.audio, &old.wakeword, &new);
    assert_eq!(plan.device, Some(Some("Drop Mic".to_string())));
    assert_eq!(plan.wake, WakeSwitch::Enable);
    let same = reload_plan(&old.audio, &old.wakeword, &old);
    assert_eq!(same.device, None);
    assert_eq!(same.wake, WakeSwitch::Keep);
}

#[test]
fn taken_text_can_be_put_back() {
    let mut s = Staging::new();
    s.append("甲");
    s.append("乙");
    assert_eq!(s.text(), "甲乙");
    let t = s.take();
    assert_eq!(s.text(), "");
    s.set_text(&t);
    assert_eq!(s.text(), "甲乙");
}

#[test]
fn the_window_is_told_in_order() {
    let mut s = Staging::new();
    s.append("甲");
    s.error("坏");
    assert_eq!(
        s.drain(),
        vec![
            UiEvent::Text("甲".into()),
            UiEvent::Error("坏".into()),
            UiEvent::Show
        ]
    );
    assert_eq!(s.drain(), vec![]);
}

#[test]
fn repairs_are_shown_beside_the_text() {
    let mut p = Pipeline::new(true);
    p.partial_heard(RecordMode::Input, "你");
    p.partial_heard(RecordMode::Repair, "改");
    assert_eq!(
        p.staging.drain(),
        vec![UiEvent::Partial("你".into()), UiEvent::RepairNote("改".into())]
    );
}
