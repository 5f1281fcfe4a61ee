//! The state machine that hotkey events drive.
use crate::hotkey::events::HotkeyEvent;
use crate::search::concat;
use crate::staging;
use crate::staging::Staging;
use crate::text;
use vstd::prelude::*;

verus! {

/// What a recording is for.
#[derive(Debug, Clone, Copy, PartialEq, Eq, Structural)]
pub enum RecordMode {
    /// The text is appended to the bar.
    Input,
    /// The text says how the bar is to be repaired.
    Repair,
    /// The text is a command.
    Command,
}

impl RecordMode {
    pub open spec fn label(self) -> Seq<char> {
        match self {
            RecordMode::Input | RecordMode::Repair => "识别中"@,
            RecordMode::Command => "指令识别中"@,
        }
    }

    /// The badge while the recording is being recognised.
    pub fn recognizing_label(self) -> (r: &'static str)
        ensures
            r@ == self.label(),
    {
        match self {
            RecordMode::Input | RecordMode::Repair => "识别中",
            RecordMode::Command => "指令识别中",
        }
    }
}

/// A recording under way. Times are nanoseconds on a clock that never runs back.
#[derive(Debug, Clone, Copy, PartialEq, Eq, Structural)]
pub struct Recording {
    pub started: u64,
    /// Another key came in between, so that the recording is void.
    pub tainted: bool,
    pub mode: RecordMode,
    /// The bar is shown only once the press has lasted long enough.
    pub bar_shown: bool,
    /// An error was showing when the key went down: a short press only
    /// dismisses it.
    pub dismiss_only: bool,
    /// When the first of two short presses ended.
    pub pending_since: Option<u64>,
    pub started_by_mouse: bool,
    /// A wake word began it, and silence ends it.
    pub wake: bool,
    /// The spotter listens in.
    pub lightning: bool,
}

#[derive(Debug, Clone, Copy, PartialEq, Eq, Structural)]
pub enum State {
    Idle,
    /// Idle, with the wake word engine listening.
    Listening,
    Recording(Recording),
    /// A short press waits: a second one in time clears the bar, else the bar
    /// is committed.
    PendingCommit { since: u64 },
}

/// How speech is recognised.
#[derive(Debug, Clone, Copy, PartialEq, Eq, Structural)]
pub enum Backend {
    /// No recogniser is configured.
    Missing,
    /// The whole recording at once.
    Batch,
    /// While it is being spoken.
    Realtime,
}

/// The settings that are looked up afresh for every event.
#[derive(Debug, Clone, Copy, PartialEq, Eq, Structural)]
pub struct Snapshot {
    pub backend: Backend,
    /// The spotter for commands is loaded.
    pub lightning: bool,
    pub threshold_ms: u64,
    pub double_press_ms: u64,
}

/// How a recording is to be started.
#[derive(Debug, Clone, Copy, PartialEq, Eq, Structural)]
pub struct StartPlan {
    pub mode: RecordMode,
    pub by_mouse: bool,
    pub dismiss_only: bool,
    pub pending_since: Option<u64>,
    /// A recognition session is to be opened beside the recording.
    pub realtime: bool,
    pub lightning: bool,
}

/// What is to be done outside.
#[derive(Debug, PartialEq, Eq)]
pub enum Action {
    Nothing,
    /// Throw the recording away.
    Discard,
    Start(StartPlan),
    /// Stop the recording and have it recognised as a whole.
    Transcribe(RecordMode),
    /// Throw the local recording away and finish the session.
    FinishRealtime(RecordMode),
    /// Paste the text. A double click has selected a word, and where
    /// `collapse` is set that selection is to be undone first.
    Commit { text: String, collapse: bool },
}

/// What an [`Action`] stands for.
#[verifier::ext_equal]
pub enum Act {
    Nothing,
    Discard,
    Start(StartPlan),
    Transcribe(RecordMode),
    FinishRealtime(RecordMode),
    Commit { text: Seq<char>, collapse: bool },
}

impl View for Action {
    type V = Act;

    open spec fn view(&self) -> Act {
        match self {
            Action::Nothing => Act::Nothing,
            Action::Discard => Act::Discard,
            Action::Start(p) => Act::Start(*p),
            Action::Transcribe(m) => Act::Transcribe(*m),
            Action::FinishRealtime(m) => Act::FinishRealtime(*m),
            Action::Commit { text, collapse } => Act::Commit { text: text@, collapse: *collapse },
        }
    }
}

/// The pipeline: its state, the bar, and what there is to work with.
#[derive(Debug)]
pub struct Pipeline {
    pub state: State,
    pub staging: Staging,
    /// Goes up with every new recording and every command, so that a countdown
    /// can tell that it has been overtaken.
    pub generation: u64,
    /// A recorder is there.
    pub recorder: bool,
    /// The wake word engine is there.
    pub wake_ready: bool,
    /// A change of the input device that waits for a recording to end.
    pub pending_device: Option<Option<String>>,
}

/// What a [`Pipeline`] stands for, but for a waiting change of device.
#[verifier::ext_equal]
pub struct Machine {
    pub state: State,
    pub bar: staging::Bar,
    pub generation: u64,
    pub recorder: bool,
    pub wake_ready: bool,
}

impl View for Pipeline {
    type V = Machine;

    open spec fn view(&self) -> Machine {
        Machine {
            state: self.state,
            bar: self.staging@,
            generation: self.generation,
            recorder: self.recorder,
            wake_ready: self.wake_ready,
        }
    }
}

/// The state after an event, and what is to be done.
#[verifier::ext_equal]
pub struct Step {
    pub machine: Machine,
    pub act: Act,
}

pub open spec fn next_generation(g: u64) -> u64 {
    if g == u64::MAX {
        0
    } else {
        (g + 1) as u64
    }
}

/// The whole milliseconds from `since` to `now`.
pub open spec fn elapsed_ms(since: u64, now: u64) -> int {
    if now < since {
        0
    } else {
        (now - since) / 1_000_000
    }
}

fn elapsed(since: u64, now: u64) -> (r: u64)
    ensures
        r == elapsed_ms(since, now),
{
    if now < since {
        0
    } else {
        (now - since) / 1_000_000
    }
}

impl Machine {
    pub open spec fn idle_state(self) -> State {
        if self.wake_ready {
            State::Listening
        } else {
            State::Idle
        }
    }

    pub open spec fn idle(self) -> Machine {
        Machine { state: self.idle_state(), ..self }
    }

    pub open spec fn bump(self) -> Machine {
        Machine { generation: next_generation(self.generation), ..self }
    }

    pub open spec fn with_bar(self, bar: staging::Bar) -> Machine {
        Machine { bar, ..self }
    }

    pub open spec fn stay(self) -> Step {
        Step { machine: self, act: Act::Nothing }
    }

    pub open spec fn doing(self, act: Act) -> Step {
        Step { machine: self, act }
    }
}

/// The bar without text, error, command or note, and out of sight.
pub open spec fn swept(bar: staging::Bar) -> staging::Bar {
    bar.taken().recording(false).busy(false).status(""@).note(""@).say(
        staging::Ui::CommandClear,
    ).error_cleared().say(staging::Ui::Hide)
}

/// The error is gone; a bar without text goes out of sight.
pub open spec fn dismissed(bar: staging::Bar) -> staging::Bar {
    let b = bar.error_cleared();
    if text::blank(b.text) {
        b.say(staging::Ui::Hide)
    } else {
        b
    }
}

/// The first press of the cancel key only clears an error; the next one, or
/// the first where there is no error, clears everything.
pub open spec fn on_cancel(m: Machine) -> Step {
    if m.bar.error is Some {
        m.idle().with_bar(m.bar.error_cleared()).stay()
    } else {
        m.idle().bump().with_bar(swept(m.bar)).doing(
            if m.state is Recording && m.recorder {
                Act::Discard
            } else {
                Act::Nothing
            },
        )
    }
}

/// A double click commits the bar; where an error shows, it only clears that.
pub open spec fn on_double_click(m: Machine) -> Step {
    if m.state is Recording {
        m.stay()
    } else if m.bar.error is Some {
        m.idle().with_bar(dismissed(m.bar)).stay()
    } else if text::blank(m.bar.text) {
        m.stay()
    } else {
        m.idle().bump().with_bar(m.bar.taken()).doing(
            Act::Commit { text: m.bar.text, collapse: true },
        )
    }
}

/// Another key voids a recording that the keyboard began.
pub open spec fn on_other_key(m: Machine) -> Step {
    match m.state {
        State::Recording(r) if !r.started_by_mouse => Machine {
            state: State::Recording(Recording { tainted: true, ..r }),
            ..m
        }.stay(),
        _ => m.stay(),
    }
}

/// The bar as a new recording finds it.
pub open spec fn readied(bar: staging::Bar, mode: RecordMode) -> staging::Bar {
    let b = bar.error_cleared().say(staging::Ui::Partial(""@)).note(""@).say(
        staging::Ui::CommandClear,
    );
    if mode == RecordMode::Command {
        b.taken()
    } else {
        b
    }
}

/// A channel key goes down. During a recording that a wake word or the other
/// device began it means nothing; during one that this device began it voids it.
pub open spec fn on_down(m: Machine, mode: RecordMode, by_mouse: bool, snap: Snapshot) -> Step {
    match m.state {
        State::Recording(r) => if r.wake || r.started_by_mouse != by_mouse {
            m.stay()
        } else {
            Machine { state: State::Recording(Recording { tainted: true, ..r }), ..m }.stay()
        },
        _ => if !m.recorder {
            m.with_bar(m.bar.failed("录音器不可用（麦克风初始化失败）"@)).stay()
        } else {
            m.bump().with_bar(readied(m.bar, mode)).doing(
                Act::Start(
                    StartPlan {
                        mode,
                        by_mouse,
                        dismiss_only: mode == RecordMode::Input && m.bar.error is Some,
                        pending_since: match m.state {
                            State::PendingCommit { since } => Some(since),
                            _ => None,
                        },
                        realtime: snap.backend == Backend::Realtime,
                        lightning: mode == RecordMode::Command && snap.backend == Backend::Realtime
                            && snap.lightning,
                    },
                ),
            )
        },
    }
}

/// The recording began.
pub open spec fn on_started(m: Machine, plan: StartPlan, now: u64) -> Machine {
    Machine {
        state: State::Recording(
            Recording {
                started: now,
                tainted: false,
                mode: plan.mode,
                bar_shown: false,
                dismiss_only: plan.dismiss_only,
                pending_since: plan.pending_since,
                started_by_mouse: plan.by_mouse,
                wake: false,
                lightning: plan.lightning,
            },
        ),
        ..m
    }.with_bar(m.bar.recording(true))
}

/// What a short press of the input channel means.
pub open spec fn on_short_press(m: Machine, r: Recording, now: u64, snap: Snapshot) -> Machine {
    if r.dismiss_only {
        m.with_bar(dismissed(m.bar))
    } else if text::blank(m.bar.text) {
        m.with_bar(m.bar.say(staging::Ui::Hide))
    } else if r.pending_since is Some && elapsed_ms(r.pending_since->0, now)
        < snap.double_press_ms {
        m.with_bar(m.bar.taken())
    } else {
        Machine { state: State::PendingCommit { since: now }, ..m }
    }
}

/// A channel key comes up: a void recording is thrown away, a short press is
/// no recording, and a long one is recognised.
pub open spec fn on_up(m: Machine, now: u64, snap: Snapshot) -> Step {
    match m.state {
        State::Recording(r) => {
            let m1 = m.idle().with_bar(m.bar.recording(false));
            if !m.recorder {
                m1.stay()
            } else if r.tainted {
                m1.with_bar(m1.bar.status(""@).note(""@).say(staging::Ui::Hide)).doing(Act::Discard)
            } else if elapsed_ms(r.started, now) < snap.threshold_ms {
                let m2 = m1.with_bar(m1.bar.status(""@));
                if r.mode == RecordMode::Input {
                    on_short_press(m2, r, now, snap).doing(Act::Discard)
                } else {
                    m2.with_bar(m2.bar.note(""@).say(staging::Ui::Hide)).doing(Act::Discard)
                }
            } else {
                match snap.backend {
                    Backend::Realtime => m1.doing(Act::FinishRealtime(r.mode)),
                    Backend::Batch => m1.doing(Act::Transcribe(r.mode)),
                    Backend::Missing => m1.with_bar(
                        m1.bar.status(""@).failed("未配置 ASR API Key，无法转写。"@),
                    ).doing(Act::Discard),
                }
            }
        },
        _ => m.stay(),
    }
}

/// What a hotkey event does.
pub open spec fn on_hotkey(m: Machine, ev: HotkeyEvent, now: u64, snap: Snapshot) -> Step {
    match ev {
        HotkeyEvent::Error(e) => m.with_bar(m.bar.failed(e@)).stay(),
        HotkeyEvent::CancelDown => on_cancel(m),
        HotkeyEvent::MouseDoubleClick => on_double_click(m),
        HotkeyEvent::OtherKeyDown => on_other_key(m),
        HotkeyEvent::TriggerDown => on_down(m, RecordMode::Input, false, snap),
        HotkeyEvent::RepairDown => on_down(m, RecordMode::Repair, false, snap),
        HotkeyEvent::CommandDown => on_down(m, RecordMode::Command, false, snap),
        HotkeyEvent::MouseTriggerDown => on_down(m, RecordMode::Input, true, snap),
        HotkeyEvent::MouseRepairDown => on_down(m, RecordMode::Repair, true, snap),
        HotkeyEvent::TriggerUp
        | HotkeyEvent::RepairUp
        | HotkeyEvent::CommandUp
        | HotkeyEvent::MouseTriggerUp
        | HotkeyEvent::MouseRepairUp => on_up(m, now, snap),
    }
}

/// While nothing happens: a press that has lasted long enough brings up the
/// bar and the badge, and a void recording is spotted in no longer.
pub open spec fn on_tick(m: Machine, now: u64, snap: Snapshot) -> Machine {
    match m.state {
        State::Recording(r) => {
            let long = elapsed_ms(r.started, now) >= snap.threshold_ms;
            let bar = if !long {
                m.bar
            } else if r.bar_shown {
                m.bar.busy(true).status(r.mode.label())
            } else {
                m.bar.say(staging::Ui::Show).busy(true).status(r.mode.label())
            };
            Machine {
                state: State::Recording(
                    Recording {
                        bar_shown: r.bar_shown || long,
                        lightning: r.lightning && !r.tainted,
                        ..r
                    },
                ),
                bar,
                ..m
            }
        },
        _ => m,
    }
}

/// Committing takes the text out of the bar; nothing but white space is not pasted.
pub open spec fn on_commit(m: Machine) -> Step {
    let taken = m.with_bar(m.bar.taken());
    if text::blank(m.bar.text) {
        taken.with_bar(taken.bar.say(staging::Ui::Hide)).stay()
    } else {
        taken.doing(Act::Commit { text: m.bar.text, collapse: false })
    }
}

/// The first short press has waited long enough for a second one.
pub open spec fn commit_due(m: Machine, now: u64, snap: Snapshot) -> bool {
    m.state matches State::PendingCommit { since } && elapsed_ms(since, now)
        >= snap.double_press_ms
}

/// Pasting failed: the text goes back into the bar.
pub open spec fn commit_failed(m: Machine, text: Seq<char>, e: Seq<char>) -> Machine {
    m.with_bar(m.bar.with_text(text).failed("提交失败（内容已保留在暂存条）："@ + e))
}

pub open spec fn commit_done(m: Machine) -> Machine {
    m.with_bar(m.bar.say(staging::Ui::Committed).say(staging::Ui::Hide))
}

// ---------------------------------------------------------------------------
// The executable machine
// ---------------------------------------------------------------------------

impl Pipeline {
    /// No recording, an empty bar, no wake word engine.
    pub fn new(recorder: bool) -> (r: Self)
        ensures
            r@.state == State::Idle,
            r@.bar == (staging::Bar { text: Seq::empty(), error: None, said: Seq::empty() }),
            r@.recorder == recorder,
            !r@.wake_ready,
            r@.generation == 0,
            r.pending_device is None,
    {
        Pipeline {
            state: State::Idle,
            staging: Staging::new(),
            generation: 0,
            recorder,
            wake_ready: false,
            pending_device: None,
        }
    }

    pub(crate) fn go_idle(&mut self)
        ensures
            final(self)@ == old(self)@.idle(),
            final(self).pending_device == old(self).pending_device,
    {
        self.state = if self.wake_ready {
            State::Listening
        } else {
            State::Idle
        };
    }

    pub(crate) fn bump_generation(&mut self)
        ensures
            final(self)@ == old(self)@.bump(),
            final(self).pending_device == old(self).pending_device,
    {
        self.generation = if self.generation == u64::MAX {
            0
        } else {
            self.generation + 1
        };
    }

    pub(crate) fn sweep(&mut self)
        ensures
            final(self)@ == old(self)@.with_bar(swept(old(self)@.bar)),
            final(self).pending_device == old(self).pending_device,
    {
        let _ = self.staging.take();
        self.staging.set_recording(false);
        self.staging.set_busy(false);
        self.staging.set_status("");
        self.staging.set_repair_note("");
        self.staging.clear_command();
        self.staging.clear_error();
        self.staging.hide_window();
    }

    fn dismiss_error(&mut self)
        ensures
            final(self)@ == old(self)@.with_bar(dismissed(old(self)@.bar)),
            final(self).pending_device == old(self).pending_device,
    {
        self.staging.clear_error();
        if text::is_blank(&self.staging.text) {
            self.staging.hide_window();
        }
    }

    fn cancel(&mut self) -> (r: Action)
        ensures
            final(self)@ == on_cancel(old(self)@).machine,
            r@ == on_cancel(old(self)@).act,
            final(self).pending_device == old(self).pending_device,
    {
        if self.staging.has_error() {
            self.staging.clear_error();
            self.go_idle();
            return Action::Nothing;
        }
        let recording = matches!(self.state, State::Recording(_)) && self.recorder;
        self.bump_generation();
        self.sweep();
        self.go_idle();
        if recording {
            Action::Discard
        } else {
            Action::Nothing
        }
    }

    fn double_click(&mut self) -> (r: Action)
        ensures
            final(self)@ == on_double_click(old(self)@).machine,
            r@ == on_double_click(old(self)@).act,
            final(self).pending_device == old(self).pending_device,
    {
        if matches!(self.state, State::Recording(_)) {
            return Action::Nothing;
        }
        if self.staging.has_error() {
            self.dismiss_error();
            self.go_idle();
            return Action::Nothing;
        }
        if text::is_blank(&self.staging.text) {
            return Action::Nothing;
        }
        self.go_idle();
        self.bump_generation();
        let text = self.staging.take();
        Action::Commit { text, collapse: true }
    }

    fn taint(&mut self, r: Recording)
        requires
            old(self).state == State::Recording(r),
        ensures
            final(self)@ == (Machine {
                state: State::Recording(Recording { tainted: true, ..r }),
                ..old(self)@
            }),
            final(self).pending_device == old(self).pending_device,
    {
        let mut tainted = r;
        tainted.tainted = true;
        self.state = State::Recording(tainted);
    }

    fn down(&mut self, mode: RecordMode, by_mouse: bool, snap: Snapshot) -> (r: Action)
        ensures
            final(self)@ == on_down(old(self)@, mode, by_mouse, snap).machine,
            r@ == on_down(old(self)@, mode, by_mouse, snap).act,
            final(self).pending_device == old(self).pending_device,
    {
        if let State::Recording(r) = self.state {
            if !r.wake && r.started_by_mouse == by_mouse {
                self.taint(r);
            }
            return Action::Nothing;
        }
        let pending_since = match self.state {
            State::PendingCommit { since } => Some(since),
            _ => None,
        };
        if !self.recorder {
            self.staging.error("录音器不可用（麦克风初始化失败）");
            return Action::Nothing;
        }
        self.bump_generation();
        let dismiss_only = mode == RecordMode::Input && self.staging.has_error();
        self.staging.clear_error();
        self.staging.partial("");
        self.staging.set_repair_note("");
        self.staging.clear_command();
        if mode == RecordMode::Command {
            let _ = self.staging.take();
        }
        let realtime = snap.backend == Backend::Realtime;
        Action::Start(
            StartPlan {
                mode,
                by_mouse,
                dismiss_only,
                pending_since,
                realtime,
                lightning: mode == RecordMode::Command && realtime && snap.lightning,
            },
        )
    }

    /// The recording that was asked for has begun.
    pub fn recording_started(&mut self, plan: StartPlan, now: u64)
        ensures
            final(self)@ == on_started(old(self)@, plan, now),
            final(self).pending_device == old(self).pending_device,
    {
        self.staging.set_recording(true);
        self.state = State::Recording(
            Recording {
                started: now,
                tainted: false,
                mode: plan.mode,
                bar_shown: false,
                dismiss_only: plan.dismiss_only,
                pending_since: plan.pending_since,
                started_by_mouse: plan.by_mouse,
                wake: false,
                lightning: plan.lightning,
            },
        );
    }

    /// The recording that was asked for could not be started.
    pub fn recording_failed(&mut self, e: &str)
        ensures
            final(self)@ == old(self)@.with_bar(old(self)@.bar.failed("录音启动失败："@ + e@)),
            final(self).pending_device == old(self).pending_device,
    {
        let m = concat("录音启动失败：", e);
        self.staging.error(&m);
    }

    fn short_press(&mut self, r: Recording, now: u64, snap: Snapshot)
        ensures
            final(self)@ == on_short_press(old(self)@, r, now, snap),
            final(self).pending_device == old(self).pending_device,
    {
        if r.dismiss_only {
            self.dismiss_error();
            return;
        }
        if text::is_blank(&self.staging.text) {
            self.staging.hide_window();
            return;
        }
        let double = match r.pending_since {
            Some(since) => elapsed(since, now) < snap.double_press_ms,
            None => false,
        };
        if double {
            let _ = self.staging.take();
        } else {
            self.state = State::PendingCommit { since: now };
        }
    }

    fn up(&mut self, now: u64, snap: Snapshot) -> (r: Action)
        ensures
            final(self)@ == on_up(old(self)@, now, snap).machine,
            r@ == on_up(old(self)@, now, snap).act,
            final(self).pending_device == old(self).pending_device,
    {
        let r = match self.state {
            State::Recording(r) => r,
            _ => return Action::Nothing,
        };
        self.go_idle();
        self.staging.set_recording(false);
        if !self.recorder {
            return Action::Nothing;
        }
        if r.tainted {
            self.staging.set_status("");
            self.staging.set_repair_note("");
            self.staging.hide_window();
            return Action::Discard;
        }
        if elapsed(r.started, now) < snap.threshold_ms {
            self.staging.set_status("");
            if r.mode == RecordMode::Input {
                self.short_press(r, now, snap);
            } else {
                self.staging.set_repair_note("");
                self.staging.hide_window();
            }
            return Action::Discard;
        }
        match snap.backend {
            Backend::Realtime => Action::FinishRealtime(r.mode),
            Backend::Batch => Action::Transcribe(r.mode),
            Backend::Missing => {
                self.staging.set_status("");
                self.staging.error("未配置 ASR API Key，无法转写。");
                Action::Discard
            },
        }
    }

    /// Takes a hotkey event.
    pub fn handle(&mut self, ev: HotkeyEvent, now: u64, snap: Snapshot) -> (r: Action)
        ensures
            final(self)@ == on_hotkey(old(self)@, ev, now, snap).machine,
            r@ == on_hotkey(old(self)@, ev, now, snap).act,
            final(self).pending_device == old(self).pending_device,
    {
        match ev {
            HotkeyEvent::Error(e) => {
                self.staging.error(&e);
                Action::Nothing
            },
            HotkeyEvent::CancelDown => self.cancel(),
            HotkeyEvent::MouseDoubleClick => self.double_click(),
            HotkeyEvent::OtherKeyDown => {
                if let State::Recording(r) = self.state {
                    if !r.started_by_mouse {
                        self.taint(r);
                    }
                }
                Action::Nothing
            },
            HotkeyEvent::TriggerDown => self.down(RecordMode::Input, false, snap),
            HotkeyEvent::RepairDown => self.down(RecordMode::Repair, false, snap),
            HotkeyEvent::CommandDown => self.down(RecordMode::Command, false, snap),
            HotkeyEvent::MouseTriggerDown => self.down(RecordMode::Input, true, snap),
            HotkeyEvent::MouseRepairDown => self.down(RecordMode::Repair, true, snap),
            HotkeyEvent::TriggerUp
            | HotkeyEvent::RepairUp
            | HotkeyEvent::CommandUp
            | HotkeyEvent::MouseTriggerUp
            | HotkeyEvent::MouseRepairUp => self.up(now, snap),
        }
    }

    /// Takes note that time has passed without an event.
    pub fn tick(&mut self, now: u64, snap: Snapshot)
        ensures
            final(self)@ == on_tick(old(self)@, now, snap),
            final(self).pending_device == old(self).pending_device,
    {
        if let State::Recording(r) = self.state {
            let mut next = r;
            if elapsed(r.started, now) >= snap.threshold_ms {
                if !r.bar_shown {
                    self.staging.show();
                    next.bar_shown = true;
                }
                self.staging.set_busy(true);
                self.staging.set_status(r.mode.recognizing_label());
            }
            if r.tainted {
                next.lightning = false;
            }
            self.state = State::Recording(next);
        }
    }

    /// Whether a hit of the spotter is to be looked for.
    pub fn wants_lightning(&self) -> (r: bool)
        ensures
            r == (self@.state matches State::Recording(r) && r.lightning && !r.tainted),
    {
        match self.state {
            State::Recording(r) => r.lightning && !r.tainted,
            _ => false,
        }
    }

    /// Whether the transcript of a recording that a wake word began is to be looked for.
    pub fn wants_wake_result(&self) -> (r: bool)
        ensures
            r == (self@.state matches State::Recording(r) && r.wake),
    {
        match self.state {
            State::Recording(r) => r.wake,
            _ => false,
        }
    }

    /// Whether a wake word is to be looked for.
    pub fn wants_wake_word(&self) -> (r: bool)
        ensures
            r == (self@.state == State::Listening && self@.wake_ready),
    {
        match self.state {
            State::Listening => self.wake_ready,
            _ => false,
        }
    }

    /// Commits the bar if a short press has waited long enough for a second one.
    pub fn commit_pending(&mut self, now: u64, snap: Snapshot) -> (r: Action)
        ensures
            commit_due(old(self)@, now, snap) ==> final(self)@ == on_commit(
                old(self)@,
            ).machine.idle() && r@ == on_commit(old(self)@).act,
            !commit_due(old(self)@, now, snap) ==> final(self)@ == old(self)@ && r@ == Act::Nothing,
            final(self).pending_device == old(self).pending_device,
    {
        let due = match self.state {
            State::PendingCommit { since } => elapsed(since, now) >= snap.double_press_ms,
            _ => false,
        };
        if !due {
            return Action::Nothing;
        }
        let r = self.commit();
        self.go_idle();
        r
    }

    /// Takes the text out of the bar to be pasted.
    pub fn commit(&mut self) -> (r: Action)
        ensures
            final(self)@ == on_commit(old(self)@).machine,
            r@ == on_commit(old(self)@).act,
            final(self).pending_device == old(self).pending_device,
    {
        let text = self.staging.take();
        if text::is_blank(&text) {
            self.staging.hide_window();
            return Action::Nothing;
        }
        Action::Commit { text, collapse: false }
    }

    /// Takes note of what came of pasting `text`.
    pub fn commit_finished(&mut self, text: &str, result: Result<(), String>)
        ensures
            match result {
                Ok(_) => final(self)@ == commit_done(old(self)@),
                Err(e) => final(self)@ == commit_failed(old(self)@, text@, e@),
            },
            final(self).pending_device == old(self).pending_device,
    {
        match result {
            Ok(_) => {
                self.staging.committed();
                self.staging.hide_window();
            },
            Err(e) => {
                self.staging.set_text(text);
                let m = concat("提交失败（内容已保留在暂存条）：", &e);
                self.staging.error(&m);
            },
        }
    }
}

} // verus!
