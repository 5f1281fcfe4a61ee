//! Recordings that wake words begin and silence ends.
use crate::pipeline::machine;
use crate::pipeline::machine::{Act, Action, Backend, Machine, Pipeline, RecordMode, Recording, Snapshot, State};
use crate::search;
use crate::search::concat;
use crate::staging;
use crate::text;
use crate::wakeword::words;
use crate::wakeword::words::WakeWord;
use vstd::prelude::*;

verus! {

/// How many samples make up a second.
pub const SAMPLES_PER_SECOND: u64 = 16_000;

// ---------------------------------------------------------------------------
// The engine comes and goes
// ---------------------------------------------------------------------------

/// News of the wake word engine.
#[derive(Debug)]
pub enum WakeUpdate {
    Ready,
    Disabled,
    Failed(String),
}

/// What came of starting the engine: a listener or why there is none, and with
/// a listener, whether the model could be loaded.
pub open spec fn engine_problem(listener: Result<bool, String>) -> Option<Seq<char>> {
    match listener {
        Ok(true) => None,
        Ok(false) => Some(
            "唤醒词模型缺失或加载失败：请使用安装包安装；裸 exe 需在 exe 同目录放置 models 目录，或在设置页检查唤醒词模型目录。"@,
        ),
        Err(e) => Some(
            "麦克风监听启动失败："@ + e@ + "（请检查 Windows 设置 → 隐私 → 麦克风是否允许桌面应用访问）"@,
        ),
    }
}

/// What the pipeline is told when the engine was started.
pub fn listener_outcome(listener: Result<bool, String>) -> (r: WakeUpdate)
    ensures
        match engine_problem(listener) {
            None => r is Ready,
            Some(e) => r matches WakeUpdate::Failed(m) && m@ == e,
        },
{
    match listener {
        Ok(true) => WakeUpdate::Ready,
        Ok(false) => WakeUpdate::Failed(
            "唤醒词模型缺失或加载失败：请使用安装包安装；裸 exe 需在 exe 同目录放置 models 目录，或在设置页检查唤醒词模型目录。".to_string(),
        ),
        Err(e) => {
            let mut m = concat("麦克风监听启动失败：", &e);
            m.append("（请检查 Windows 设置 → 隐私 → 麦克风是否允许桌面应用访问）");
            WakeUpdate::Failed(m)
        },
    }
}

/// The idle state follows the engine; a recording and a waiting press go on.
pub open spec fn on_update(m: Machine, u: WakeUpdate) -> Machine {
    let ready = u is Ready;
    let moved = Machine {
        wake_ready: ready,
        state: match m.state {
            State::Idle if ready => State::Listening,
            State::Listening if !ready => State::Idle,
            s => s,
        },
        ..m
    };
    match u {
        WakeUpdate::Failed(e) => moved.with_bar(m.bar.failed("唤醒词不可用："@ + e@)),
        _ => moved,
    }
}

impl Pipeline {
    pub fn wake_update(&mut self, u: WakeUpdate)
        ensures
            final(self)@ == on_update(old(self)@, u),
            final(self).pending_device == old(self).pending_device,
    {
        match u {
            WakeUpdate::Ready => {
                self.wake_ready = true;
                if self.state == State::Idle {
                    self.state = State::Listening;
                }
            },
            WakeUpdate::Disabled => {
                self.wake_ready = false;
                if self.state == State::Listening {
                    self.state = State::Idle;
                }
            },
            WakeUpdate::Failed(e) => {
                self.wake_ready = false;
                if self.state == State::Listening {
                    self.state = State::Idle;
                }
                let m = concat("唤醒词不可用：", &e);
                self.staging.error(&m);
            },
        }
    }

    // -----------------------------------------------------------------------
    // The input device changes
    // -----------------------------------------------------------------------

    /// The user has chosen another input device. `Some` is the device to
    /// switch to at once; during a recording the change waits.
    pub fn device_changed(&mut self, name: Option<String>) -> (r: Option<Option<String>>)
        ensures
            final(self)@ == old(self)@,
            old(self)@.state is Recording ==> r is None && final(self).pending_device == Some(name),
            !(old(self)@.state is Recording) ==> r == Some(name) && final(self).pending_device
                == old(self).pending_device,
    {
        if let State::Recording(_) = self.state {
            self.pending_device = Some(name);
            None
        } else {
            Some(name)
        }
    }

    /// The change of device that has waited, once no recording is under way.
    pub fn take_device_change(&mut self) -> (r: Option<Option<String>>)
        ensures
            final(self)@ == old(self)@,
            old(self)@.state is Recording ==> r is None && final(self).pending_device == old(
                self,
            ).pending_device,
            !(old(self)@.state is Recording) ==> r == old(self).pending_device
                && final(self).pending_device is None,
    {
        if let State::Recording(_) = self.state {
            return None;
        }
        let mut taken: Option<Option<String>> = None;
        std::mem::swap(&mut taken, &mut self.pending_device);
        taken
    }

    /// The recorder was made anew, or could not be.
    pub fn recorder_rebuilt(&mut self, result: Result<(), String>)
        ensures
            match result {
                Ok(_) => final(self)@ == (Machine { recorder: true, ..old(self)@ }),
                Err(e) => final(self)@ == (Machine { recorder: false, ..old(self)@ }).with_bar(
                    old(self)@.bar.failed("麦克风初始化失败："@ + e@),
                ),
            },
            final(self).pending_device == old(self).pending_device,
    {
        match result {
            Ok(_) => {
                self.recorder = true;
            },
            Err(e) => {
                self.recorder = false;
                let m = concat("麦克风初始化失败：", &e);
                self.staging.error(&m);
            },
        }
    }
}

// ---------------------------------------------------------------------------
// A wake word is heard
// ---------------------------------------------------------------------------

/// What a wake word records for; a word for no known channel records text.
pub open spec fn mode_of(action: Seq<char>) -> RecordMode {
    if action == "repair"@ {
        RecordMode::Repair
    } else if action == "command"@ {
        RecordMode::Command
    } else {
        RecordMode::Input
    }
}

pub fn wake_word_to_mode(word: &WakeWord) -> (r: RecordMode)
    ensures
        r == mode_of(word@.action),
{
    if text::same(&word.action, "repair") {
        RecordMode::Repair
    } else if text::same(&word.action, "command") {
        RecordMode::Command
    } else {
        RecordMode::Input
    }
}

/// What is to be done about a wake word.
#[derive(Debug)]
pub enum WakeStep {
    /// It is done.
    Done(Action),
    /// A recording is to be started.
    Record,
}

/// The words for committing and for clearing act at once. Clearing first
/// dismisses an error, as the cancel key does.
pub open spec fn on_word(m: Machine, action: Seq<char>) -> Option<machine::Step> {
    if action == "commit"@ {
        Some(machine::on_commit(m))
    } else if action == "clear"@ {
        Some(
            if m.bar.error is Some {
                m.with_bar(m.bar.error_cleared()).stay()
            } else {
                m.bump().with_bar(machine::swept(m.bar)).stay()
            },
        )
    } else {
        None
    }
}

/// How a recording is to be read from the buffer: from which sample on, and
/// after how many samples of silence it ends.
#[derive(Debug, Clone, Copy, PartialEq, Eq, Structural)]
pub struct WakePlan {
    pub mode: RecordMode,
    pub read_from: u64,
    pub silence_samples: u64,
    pub lightning: bool,
}

/// The samples of a time in milliseconds.
pub open spec fn samples(ms: u64) -> int {
    ms * 16_000 / 1000
}

pub open spec fn less_but_not_below_zero(a: int, b: int) -> int {
    if a < b {
        0
    } else {
        a - b
    }
}

/// The bar when a wake word has begun a recording.
pub open spec fn wake_bar(bar: staging::Bar, word: words::Word) -> staging::Bar {
    let mode = mode_of(word.action);
    let b = bar.say(staging::Ui::Partial(""@)).note(""@).say(
        staging::Ui::CommandClear,
    ).error_cleared();
    let c = if mode == RecordMode::Command {
        b.taken()
    } else {
        b
    };
    c.say(staging::Ui::Show).status(word.text + " ✓"@).recording(true).busy(true).status(
        mode.label(),
    )
}

/// The machine once a wake word has been taken up. Only recognition while
/// recording serves for it.
pub open spec fn on_wake_recording(m: Machine, word: words::Word, snap: Snapshot, now: u64) ->
    Machine {
    match snap.backend {
        Backend::Missing => m.with_bar(m.bar.failed("未配置 ASR API Key，无法转写。"@)),
        Backend::Batch => m.with_bar(m.bar.failed("唤醒词仅支持实时 ASR 后端。"@)),
        Backend::Realtime => Machine {
            state: State::Recording(
                Recording {
                    started: now,
                    tainted: false,
                    mode: mode_of(word.action),
                    bar_shown: true,
                    dismiss_only: false,
                    pending_since: None,
                    started_by_mouse: false,
                    wake: true,
                    lightning: mode_of(word.action) == RecordMode::Command && snap.lightning,
                },
            ),
            bar: wake_bar(m.bar, word),
            ..m
        },
    }
}

impl Pipeline {
    pub fn wake_word(&mut self, word: &WakeWord) -> (r: WakeStep)
        ensures
            match on_word(old(self)@, word@.action) {
                Some(step) => final(self)@ == step.machine && (r matches WakeStep::Done(a) && a@
                    == step.act),
                None => final(self)@ == old(self)@ && r is Record,
            },
            final(self).pending_device == old(self).pending_device,
    {
        if text::same(&word.action, "commit") {
            WakeStep::Done(self.commit())
        } else if text::same(&word.action, "clear") {
            if self.staging.has_error() {
                self.staging.clear_error();
            } else {
                self.bump_generation();
                self.sweep();
            }
            WakeStep::Done(Action::Nothing)
        } else {
            WakeStep::Record
        }
    }

    /// Takes up a wake word that was heard up to the sample `position`.
    pub fn start_wake_recording(
        &mut self,
        word: &WakeWord,
        position: u64,
        pre_roll_ms: u64,
        silence_timeout_ms: u64,
        snap: Snapshot,
        now: u64,
    ) -> (r: Option<WakePlan>)
        requires
            pre_roll_ms * 16_000 <= u64::MAX,
            silence_timeout_ms * 16_000 <= u64::MAX,
        ensures
            final(self)@ == on_wake_recording(old(self)@, word@, snap, now),
            match r {
                None => snap.backend != Backend::Realtime,
                Some(p) => {
                    &&& snap.backend == Backend::Realtime
                    &&& p.mode == mode_of(word@.action)
                    &&& p.read_from == less_but_not_below_zero(
                        position as int,
                        samples(pre_roll_ms),
                    )
                    &&& p.silence_samples == samples(silence_timeout_ms)
                    &&& p.lightning == (p.mode == RecordMode::Command && snap.lightning)
                },
            },
            final(self).pending_device == old(self).pending_device,
    {
        let mode = wake_word_to_mode(word);
        let pre_roll: u64 = pre_roll_ms * SAMPLES_PER_SECOND / 1000;
        let silence_samples: u64 = silence_timeout_ms * SAMPLES_PER_SECOND / 1000;
        let read_from: u64 = if position < pre_roll {
            0
        } else {
            position - pre_roll
        };
        match snap.backend {
            Backend::Missing => {
                self.staging.error("未配置 ASR API Key，无法转写。");
                return None;
            },
            Backend::Batch => {
                self.staging.error("唤醒词仅支持实时 ASR 后端。");
                return None;
            },
            Backend::Realtime => {},
        }
        self.staging.partial("");
        self.staging.set_repair_note("");
        self.staging.clear_command();
        self.staging.clear_error();
        if mode == RecordMode::Command {
            let _ = self.staging.take();
        }
        self.staging.show();
        let badge = concat(word.display_name(), " ✓");
        self.staging.set_status(&badge);
        self.staging.set_recording(true);
        self.staging.set_busy(true);
        self.staging.set_status(mode.recognizing_label());
        let lightning = mode == RecordMode::Command && snap.lightning;
        self.state = State::Recording(
            Recording {
                started: now,
                tainted: false,
                mode,
                bar_shown: true,
                dismiss_only: false,
                pending_since: None,
                started_by_mouse: false,
                wake: true,
                lightning,
            },
        );
        Some(WakePlan { mode, read_from, silence_samples, lightning })
    }
}

// ---------------------------------------------------------------------------
// Silence
// ---------------------------------------------------------------------------

/// How long it has been quiet.
#[derive(Debug, Clone, Copy, PartialEq, Eq, Structural)]
pub struct Silence {
    pub count: u64,
    pub max: u64,
}

impl Silence {
    pub fn new(max: u64) -> (r: Self)
        ensures
            r == (Silence { count: 0, max }),
    {
        Silence { count: 0, max }
    }

    /// Takes note of samples that were quiet or not.
    pub fn observe(&mut self, samples: u64, quiet: bool)
        requires
            old(self).count + samples <= u64::MAX,
        ensures
            final(self).max == old(self).max,
            final(self).count == if samples == 0 {
                old(self).count as int
            } else if quiet {
                old(self).count + samples
            } else {
                0
            },
    {
        if samples > 0 {
            if quiet {
                self.count = self.count + samples;
            } else {
                self.count = 0;
            }
        }
    }

    /// Whether it has been quiet long enough for the recording to end.
    pub fn over(&self) -> (r: bool)
        ensures
            r == (self.count >= self.max),
    {
        self.count >= self.max
    }
}

/// What came of opening the session for such a recording.
#[derive(Debug)]
pub enum WakeSession {
    Connected,
    Failed(String),
    Missing,
}

/// Why the session cannot be finished.
pub open spec fn wake_session_problem(session: WakeSession, delivered: bool) -> Option<Seq<char>> {
    match session {
        WakeSession::Connected => if delivered {
            None
        } else {
            Some("音频未能在 4 秒内送达，已放弃本次识别"@)
        },
        WakeSession::Failed(e) => Some("ASR 会话建立失败："@ + e@),
        WakeSession::Missing => Some("ASR 会话建立超时"@),
    }
}

/// Whether the session can be finished once it has become quiet.
pub fn wake_session_settled(session: WakeSession, delivered: bool) -> (r: Result<(), String>)
    ensures
        match wake_session_problem(session, delivered) {
            None => r is Ok,
            Some(e) => r is Err && r->Err_0@ == e,
        },
{
    match session {
        WakeSession::Connected => {
            if delivered {
                Ok(())
            } else {
                Err("音频未能在 4 秒内送达，已放弃本次识别".to_string())
            }
        },
        WakeSession::Failed(e) => Err(concat("ASR 会话建立失败：", &e)),
        WakeSession::Missing => Err("ASR 会话建立超时".to_string()),
    }
}

// ---------------------------------------------------------------------------
// Laws
// ---------------------------------------------------------------------------

/// News of the engine keep the idle state in step with it, and touch neither a
/// recording nor a waiting press nor the text.
pub proof fn law_updates_leave_work_alone(m: Machine, u: WakeUpdate)
    ensures
        on_update(m, u).bar.text == m.bar.text,
        on_update(m, u).generation == m.generation,
        !(m.state is Idle) && !(m.state is Listening) ==> on_update(m, u).state == m.state,
        m.state is Idle || m.state is Listening ==> on_update(m, u).state == on_update(
            m,
            u,
        ).idle_state(),
{
}

/// Saying the word for clearing does what the cancel key does, as far as text,
/// error and countdown are concerned.
pub proof fn law_clear_word_is_like_cancel(m: Machine)
    requires
        m.state == State::Listening,
        m.wake_ready,
    ensures
        on_word(m, "clear"@) matches Some(step) && step.machine == machine::on_cancel(m).machine
            && step.act == Act::Nothing,
{
    reveal_strlit("clear");
    reveal_strlit("commit");
    assert("clear"@.len() == 5);
    assert("commit"@.len() == 6);
}

/// A wake word begins a recording for its own channel, which keeps the text of
/// the bar unless it is for a command; an error that showed is gone, and the word
/// is confirmed.
pub proof fn law_wake_words_record_for_their_channel(
    m: Machine,
    word: words::Word,
    snap: Snapshot,
    now: u64,
)
    requires
        snap.backend == Backend::Realtime,
    ensures
        ({
            let after = on_wake_recording(m, word, snap, now);
            &&& after.state matches State::Recording(r) && r.wake && !r.tainted && r.started == now
                && !r.started_by_mouse && r.bar_shown && (word.action == "repair"@ <==> r.mode
                == RecordMode::Repair) && (word.action == "command"@ <==> r.mode
                == RecordMode::Command) && (r.lightning <==> word.action == "command"@
                && snap.lightning)
            &&& word.action == "command"@ ==> after.bar.text.len() == 0
            &&& word.action != "command"@ ==> after.bar.text == m.bar.text
            &&& after.bar.error is None
            &&& after.bar.said[after.bar.said.len() - 5] == staging::Ui::Show
            &&& after.bar.said[after.bar.said.len() - 4] == staging::Ui::Status(word.text + " ✓"@)
            &&& after.bar.said[after.bar.said.len() - 3] == staging::Ui::Recording(true)
            &&& after.bar.said[after.bar.said.len() - 2] == staging::Ui::Busy(true)
            &&& after.generation == m.generation && after.recorder == m.recorder
                && after.wake_ready == m.wake_ready
        }),
{
    reveal_strlit("repair");
    reveal_strlit("command");
    assert("repair"@.len() == 6 && "command"@.len() == 7);
}

/// Without recognition while recording a wake word begins nothing, and the user
/// is told.
pub proof fn law_wake_words_need_a_session(
    m: Machine,
    word: words::Word,
    snap: Snapshot,
    now: u64,
)
    requires
        snap.backend != Backend::Realtime,
    ensures
        on_wake_recording(m, word, snap, now).state == m.state,
        on_wake_recording(m, word, snap, now).bar.text == m.bar.text,
        on_wake_recording(m, word, snap, now).bar.error is Some,
{
}

/// The word for committing has the text of the bar pasted and takes it out of
/// the bar; the word for clearing empties the bar, once no error shows. Any other
/// word is for a recording.
pub proof fn law_words_commit_clear_or_record(m: Machine, action: Seq<char>)
    ensures
        action == "commit"@ ==> (on_word(m, action) matches Some(step) && step.machine.bar.text.len()
            == 0 && step.machine.state == m.state && step.act == if text::blank(m.bar.text) {
            Act::Nothing
        } else {
            Act::Commit { text: m.bar.text, collapse: false }
        }),
        action == "clear"@ ==> (on_word(m, action) matches Some(step) && step.act == Act::Nothing
            && step.machine.bar.error is None && step.machine.state == m.state && if m.bar.error
            is Some {
            step.machine.bar.text == m.bar.text && step.machine.generation == m.generation
        } else {
            step.machine.bar.text.len() == 0 && step.machine.generation != m.generation
                && step.machine.bar.said.last() == staging::Ui::Hide
        }),
        action != "commit"@ && action != "clear"@ <==> on_word(m, action) is None,
{
    reveal_strlit("commit");
    reveal_strlit("clear");
    assert("commit"@.len() == 6 && "clear"@.len() == 5);
}

/// The engine is there exactly when it is ready, and idle is listening then; a
/// failure says why, and nothing else shows an error.
pub proof fn law_listening_follows_the_engine(m: Machine, u: WakeUpdate)
    ensures
        on_update(m, u).wake_ready <==> u is Ready,
        u is Ready && m.state is Idle ==> on_update(m, u).state is Listening,
        !(u is Ready) && m.state is Listening ==> on_update(m, u).state is Idle,
        match u {
            WakeUpdate::Failed(e) => on_update(m, u).bar.error matches Some(x) && search::occurs_at(
                x,
                e@,
                x.len() - e@.len(),
            ),
            _ => on_update(m, u).bar == m.bar,
        },
{
    if let WakeUpdate::Failed(e) = u {
        let x = "唤醒词不可用："@ + e@;
        assert(x.subrange(x.len() - e@.len(), x.len() as int) =~= e@);
    }
}

/// The engine works exactly when there is a listener and the model is loaded;
/// why there is no listener is passed on.
pub proof fn law_engine_problems_are_named(listener: Result<bool, String>)
    ensures
        engine_problem(listener) is None <==> listener == Ok::<bool, String>(true),
        listener matches Err(e) ==> search::has_text(engine_problem(listener)->0, e@),
{
    if let Err(e) = listener {
        let head = "麦克风监听启动失败："@;
        let x = engine_problem(listener)->0;
        assert(x.subrange(head.len() as int, (head.len() + e@.len()) as int) =~= e@);
        assert(search::occurs_at(x, e@, head.len() as int));
    }
}

/// Sixteen samples make up a millisecond, and reading never begins before the
/// first one.
pub proof fn law_times_are_counted_in_samples(ms: u64, position: u64)
    ensures
        samples(ms) == 16 * ms,
        less_but_not_below_zero(position as int, samples(ms)) >= 0,
        position >= samples(ms) ==> less_but_not_below_zero(position as int, samples(ms))
            + samples(ms) == position,
        position < samples(ms) ==> less_but_not_below_zero(position as int, samples(ms)) == 0,
{
}

/// A session is finished exactly when it is connected and all of the recording
/// has reached it; why it failed is passed on.
pub proof fn law_quiet_sessions_are_finished_when_delivered(session: WakeSession, delivered: bool)
    ensures
        wake_session_problem(session, delivered) is None <==> session is Connected && delivered,
        session matches WakeSession::Failed(e) ==> search::has_text(
            wake_session_problem(session, delivered)->0,
            e@,
        ),
{
    if let WakeSession::Failed(e) = session {
        let head = "ASR 会话建立失败："@;
        let x = head + e@;
        assert(x.subrange(head.len() as int, x.len() as int) =~= e@);
        assert(search::occurs_at(x, e@, head.len() as int));
    }
}

} // verus!
