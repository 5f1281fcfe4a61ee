//! What becomes of a recording: the session, the transcript, polishing,
//! repairing, and running commands.
use crate::command::combo;
use crate::command::combo::ParsedCommand;
use crate::command::lexicon::Lexicon;
use crate::command::parser;
use crate::command::parser::parse;
use crate::pipeline::machine;
use crate::pipeline::machine::{Pipeline, RecordMode, State};
use crate::search;
use crate::search::concat;
use crate::staging;
use crate::staging::CommandEngine;
use crate::text;
use vstd::prelude::*;

verus! {

// ---------------------------------------------------------------------------
// The session
// ---------------------------------------------------------------------------

/// What came of opening the recognition session.
#[derive(Debug)]
pub enum SessionResult {
    /// No session was asked for.
    NotAsked,
    Connected,
    Failed(String),
    /// Nothing has been heard of it.
    Missing,
}

/// Why a session cannot be finished: it is not there, or not all of the
/// recording reached it. Finishing all the same would have the server report an
/// empty recording.
pub open spec fn session_problem(delivered: bool, session: SessionResult) -> Option<Seq<char>> {
    match session {
        SessionResult::Connected => if delivered {
            None
        } else {
            Some("音频未能在 4 秒内送达，已放弃本次识别"@)
        },
        SessionResult::Failed(e) => Some("ASR 会话建立失败："@ + e@),
        SessionResult::Missing => Some("ASR 会话建立失败："@ + "ASR 会话建立超时"@),
        SessionResult::NotAsked => Some(
            "ASR 会话建立失败："@ + if delivered {
                "未知错误"@
            } else {
                "ASR 会话建立超时"@
            },
        ),
    }
}

/// The bar once it is known whether the session can be finished.
pub open spec fn session_bar(
    bar: staging::Bar,
    delivered: bool,
    session: SessionResult,
    mode: RecordMode,
) -> staging::Bar {
    match session_problem(delivered, session) {
        Some(e) => bar.status(""@).failed(e),
        None => bar.busy(true).status(mode.label()),
    }
}

/// What has been understood so far goes to the bar, or beside it where it says
/// how the bar is to be repaired.
pub open spec fn partial_bar(bar: staging::Bar, mode: RecordMode, text: Seq<char>) -> staging::Bar {
    match mode {
        RecordMode::Input | RecordMode::Command => bar.say(staging::Ui::Partial(text)),
        RecordMode::Repair => bar.note(text),
    }
}

impl Pipeline {
    /// Shows what has been understood so far of a recording.
    pub fn partial_heard(&mut self, mode: RecordMode, text: &str)
        ensures
            final(self)@ == old(self)@.with_bar(partial_bar(old(self)@.bar, mode, text@)),
            final(self).pending_device == old(self).pending_device,
    {
        match mode {
            RecordMode::Input | RecordMode::Command => self.staging.partial(text),
            RecordMode::Repair => self.staging.set_repair_note(text),
        }
    }
}

impl Pipeline {
    /// Whether the session can be finished, now that the key is up.
    pub fn session_settled(
        &mut self,
        delivered: bool,
        session: SessionResult,
        mode: RecordMode,
    ) -> (r: bool)
        ensures
            r == (session_problem(delivered, session) is None),
            final(self)@ == old(self)@.with_bar(
                session_bar(old(self)@.bar, delivered, session, mode),
            ),
            final(self).pending_device == old(self).pending_device,
    {
        let problem = match session {
            SessionResult::Connected => {
                if delivered {
                    self.staging.set_busy(true);
                    self.staging.set_status(mode.recognizing_label());
                    return true;
                }
                "音频未能在 4 秒内送达，已放弃本次识别".to_string()
            },
            SessionResult::Failed(e) => concat("ASR 会话建立失败：", &e),
            SessionResult::Missing => concat("ASR 会话建立失败：", "ASR 会话建立超时"),
            SessionResult::NotAsked => {
                if delivered {
                    concat("ASR 会话建立失败：", "未知错误")
                } else {
                    concat("ASR 会话建立失败：", "ASR 会话建立超时")
                }
            },
        };
        self.staging.set_status("");
        self.staging.error(&problem);
        false
    }

    /// The recording that was to be recognised as a whole could not be stopped.
    pub fn stop_failed(&mut self, e: &str)
        ensures
            final(self)@ == old(self)@.with_bar(
                old(self)@.bar.status(""@).failed("录音失败："@ + e@),
            ),
            final(self).pending_device == old(self).pending_device,
    {
        self.staging.set_status("");
        let m = concat("录音失败：", e);
        self.staging.error(&m);
    }

    /// A whole recording is sent off. What is handed back is the text of the
    /// bar, where there is any, for the recogniser to go by.
    pub fn transcription_started(&mut self, mode: RecordMode) -> (r: Option<String>)
        ensures
            final(self)@ == old(self)@.with_bar(old(self)@.bar.busy(true).status(mode.label())),
            combo::opt_text(r) == if text::blank(old(self)@.bar.text) {
                None
            } else {
                Some(old(self)@.bar.text)
            },
            final(self).pending_device == old(self).pending_device,
    {
        self.staging.set_busy(true);
        self.staging.set_status(mode.recognizing_label());
        let context = self.staging.text();
        if text::is_blank(&context) {
            None
        } else {
            Some(context)
        }
    }
}

// ---------------------------------------------------------------------------
// The transcript
// ---------------------------------------------------------------------------

/// A command about to be run.
#[derive(Debug)]
pub struct CommandRun {
    pub command: ParsedCommand,
    /// The seconds left.
    pub remaining: u64,
    /// The generation that it belongs to.
    pub generation: u64,
}

/// What is to be done with a transcript.
#[derive(Debug)]
pub enum Followup {
    Nothing,
    /// Have the message polished; `raw` is what was said.
    Clean { raw: String, message: String },
    /// Have the text repaired as instructed.
    Repair { original: String, instruction: String },
    /// Count down and run the command.
    Run(CommandRun),
}

/// What a [`Followup`] stands for.
#[verifier::ext_equal]
pub enum Next {
    Nothing,
    Clean { raw: Seq<char>, message: Seq<char> },
    Repair { original: Seq<char>, instruction: Seq<char> },
    Run { command: combo::CommandView, remaining: int, generation: u64 },
}

impl View for Followup {
    type V = Next;

    open spec fn view(&self) -> Next {
        match self {
            Followup::Nothing => Next::Nothing,
            Followup::Clean { raw, message } => Next::Clean { raw: raw@, message: message@ },
            Followup::Repair { original, instruction } => Next::Repair {
                original: original@,
                instruction: instruction@,
            },
            Followup::Run(r) => Next::Run {
                command: r.command@,
                remaining: r.remaining as int,
                generation: r.generation,
            },
        }
    }
}

/// What there is to follow up a transcript with.
pub struct Means<'a> {
    /// A language model is configured.
    pub cleaner: bool,
    pub countdown_ms: u64,
    pub lexicon: &'a Lexicon,
}

/// The bar after a transcript, and what is to be done.
#[verifier::ext_equal]
pub struct After {
    pub bar: staging::Bar,
    pub next: Next,
}

pub open spec fn polish_message(raw: Seq<char>) -> Seq<char> {
    "请改写以下文本：\n---\n"@ + raw + "\n---"@
}

/// Without a language model the text is appended as it is.
pub open spec fn on_input(bar: staging::Bar, said: Seq<char>, cleaner: bool) -> After {
    if !cleaner {
        After { bar: bar.appended(said).status(""@), next: Next::Nothing }
    } else {
        After {
            bar: bar.busy(true).status("润色中"@),
            next: Next::Clean { raw: said, message: polish_message(said) },
        }
    }
}

/// Repairing takes a text to repair and a language model.
pub open spec fn on_repair(bar: staging::Bar, said: Seq<char>, cleaner: bool) -> After {
    if text::blank(bar.text) {
        After { bar: bar.failed("暂存条为空，无法修正"@), next: Next::Nothing }
    } else if !cleaner {
        After {
            bar: bar.failed("未配置 LLM，无法使用语音修正。请在 [llm] 中配置 API Key。"@),
            next: Next::Nothing,
        }
    } else {
        After {
            bar: bar.note(said).busy(true).status("修复中"@),
            next: Next::Repair { original: bar.text, instruction: said },
        }
    }
}

/// The text shown for a command: plus signs set off by blanks.
pub open spec fn spaced(c: combo::CommandView) -> Seq<char> {
    search::replaced(c.shown(), "+"@, " + "@)
}

/// Whole seconds, rounded up.
pub open spec fn countdown_seconds(ms: u64) -> int {
    (ms + 999) / 1000
}

/// A command is shown, and run when its countdown is over.
pub open spec fn on_command(
    bar: staging::Bar,
    generation: u64,
    parsed: Option<combo::CommandView>,
    said: Seq<char>,
    countdown_ms: u64,
) -> After {
    let b = bar.status(""@);
    match parsed {
        None => After { bar: b.failed("未识别到按键指令："@ + said), next: Next::Nothing },
        Some(c) => After {
            bar: b.say(
                staging::Ui::Command(
                    spaced(c),
                    countdown_seconds(countdown_ms) as u64,
                    CommandEngine::Text,
                ),
            ),
            next: Next::Run {
                command: c,
                remaining: countdown_seconds(countdown_ms),
                generation,
            },
        },
    }
}

/// What a transcript does, by what it was recorded for.
pub open spec fn on_said(
    m: machine::Machine,
    mode: RecordMode,
    said: Seq<char>,
    means: Means,
) -> After {
    match mode {
        RecordMode::Input => on_input(m.bar, said, means.cleaner),
        RecordMode::Repair => on_repair(m.bar, said, means.cleaner),
        RecordMode::Command => on_command(
            m.bar,
            m.generation,
            parser::command_for(means.lexicon@, said),
            said,
            means.countdown_ms,
        ),
    }
}

/// What the recogniser's answer does: an empty transcript and a failure are
/// both reported.
pub open spec fn on_transcript(
    m: machine::Machine,
    mode: RecordMode,
    result: Result<String, String>,
    means: Means,
) -> After {
    match result {
        Err(e) => After {
            bar: m.bar.status(""@).failed("ASR 失败："@ + e@),
            next: Next::Nothing,
        },
        Ok(t) => if text::blank(t@) {
            After { bar: m.bar.status(""@).failed("ASR 返回空文本"@), next: Next::Nothing }
        } else {
            on_said(m, mode, text::trimmed(t@), means)
        },
    }
}

impl Pipeline {
    fn input(&mut self, said: &str, cleaner: bool) -> (r: Followup)
        ensures
            final(self)@ == old(self)@.with_bar(on_input(old(self)@.bar, said@, cleaner).bar),
            r@ == on_input(old(self)@.bar, said@, cleaner).next,
            final(self).pending_device == old(self).pending_device,
    {
        if !cleaner {
            self.staging.append(said);
            self.staging.set_status("");
            return Followup::Nothing;
        }
        self.staging.set_busy(true);
        self.staging.set_status("润色中");
        let mut message = concat("请改写以下文本：\n---\n", said);
        message.append("\n---");
        Followup::Clean { raw: said.to_string(), message }
    }

    fn repair(&mut self, said: &str, cleaner: bool) -> (r: Followup)
        ensures
            final(self)@ == old(self)@.with_bar(on_repair(old(self)@.bar, said@, cleaner).bar),
            r@ == on_repair(old(self)@.bar, said@, cleaner).next,
            final(self).pending_device == old(self).pending_device,
    {
        let original = self.staging.text();
        if text::is_blank(&original) {
            self.staging.error("暂存条为空，无法修正");
            return Followup::Nothing;
        }
        if !cleaner {
            self.staging.error("未配置 LLM，无法使用语音修正。请在 [llm] 中配置 API Key。");
            return Followup::Nothing;
        }
        self.staging.set_repair_note(said);
        self.staging.set_busy(true);
        self.staging.set_status("修复中");
        Followup::Repair { original, instruction: said.to_string() }
    }

    fn run_command(&mut self, said: &str, countdown_ms: u64, lexicon: &Lexicon) -> (r: Followup)
        ensures
            final(self)@ == old(self)@.with_bar(
                on_command(
                    old(self)@.bar,
                    old(self)@.generation,
                    parser::command_for(lexicon@, said@),
                    said@,
                    countdown_ms,
                ).bar,
            ),
            r@ == on_command(
                old(self)@.bar,
                old(self)@.generation,
                parser::command_for(lexicon@, said@),
                said@,
                countdown_ms,
            ).next,
            final(self).pending_device == old(self).pending_device,
    {
        self.staging.set_status("");
        let command = match parse(said, lexicon) {
            Some(c) => c,
            None => {
                let m = concat("未识别到按键指令：", said);
                self.staging.error(&m);
                return Followup::Nothing;
            },
        };
        let remaining: u64 = if countdown_ms % 1000 == 0 {
            countdown_ms / 1000
        } else {
            countdown_ms / 1000 + 1
        };
        assert(remaining == countdown_seconds(countdown_ms));
        let shown = command.spaced_display();
        self.staging.show_command(&shown, remaining, CommandEngine::Text);
        Followup::Run(CommandRun { command, remaining, generation: self.generation })
    }

    /// Takes the recogniser's answer, without touching the busy mark.
    fn answer(&mut self, mode: RecordMode, result: Result<String, String>, means: Means) -> (r:
        Followup)
        ensures
            final(self)@ == old(self)@.with_bar(
                on_transcript(old(self)@, mode, result, means).bar,
            ),
            r@ == on_transcript(old(self)@, mode, result, means).next,
            final(self).pending_device == old(self).pending_device,
    {
        let t = match result {
            Ok(t) => t,
            Err(e) => {
                self.staging.set_status("");
                let m = concat("ASR 失败：", &e);
                self.staging.error(&m);
                return Followup::Nothing;
            },
        };
        if text::is_blank(&t) {
            self.staging.set_status("");
            self.staging.error("ASR 返回空文本");
            return Followup::Nothing;
        }
        let said = text::trim(&t);
        match mode {
            RecordMode::Input => self.input(&said, means.cleaner),
            RecordMode::Repair => self.repair(&said, means.cleaner),
            RecordMode::Command => self.run_command(&said, means.countdown_ms, means.lexicon),
        }
    }

    /// Takes the recogniser's answer for a recording that a key ended.
    pub fn transcript(&mut self, mode: RecordMode, result: Result<String, String>, means: Means) -> (r:
        Followup)
        ensures
            ({
                let calm = old(self)@.with_bar(old(self)@.bar.busy(false));
                &&& final(self)@ == calm.with_bar(on_transcript(calm, mode, result, means).bar)
                &&& r@ == on_transcript(calm, mode, result, means).next
            }),
            final(self).pending_device == old(self).pending_device,
    {
        self.staging.set_busy(false);
        self.answer(mode, result, means)
    }

    /// Takes the recogniser's answer for a recording that silence ended. It is
    /// over then.
    pub fn wake_transcript(&mut self, result: Result<String, String>, means: Means) -> (r: Followup)
        ensures
            match old(self)@.state {
                State::Recording(rec) => {
                    let after = on_transcript(old(self)@, rec.mode, result, means);
                    &&& final(self)@ == old(self)@.idle().with_bar(
                        after.bar.recording(false).busy(false),
                    )
                    &&& r@ == after.next
                },
                _ => final(self)@ == old(self)@ && r@ == Next::Nothing,
            },
            final(self).pending_device == old(self).pending_device,
    {
        let mode = match self.state {
            State::Recording(rec) => rec.mode,
            _ => return Followup::Nothing,
        };
        let r = self.answer(mode, result, means);
        self.staging.set_recording(false);
        self.staging.set_busy(false);
        self.go_idle();
        r
    }
}

// ---------------------------------------------------------------------------
// Polishing and repairing
// ---------------------------------------------------------------------------

/// The bar once polishing is over: whatever came of it, what was said is not lost.
pub open spec fn polished(bar: staging::Bar, raw: Seq<char>, result: Result<String, String>) ->
    staging::Bar {
    let b = bar.busy(false).status(""@);
    match result {
        Ok(t) => if text::blank(t@) {
            b.appended(raw).failed("清洗返回空文本，已直出原文"@)
        } else {
            b.appended(text::trimmed(t@))
        },
        Err(e) => b.appended(raw).failed("清洗失败，已直出原文："@ + e@),
    }
}

/// The bar once repairing is over: only a repaired text takes the place of the old one.
pub open spec fn repaired(bar: staging::Bar, result: Result<String, String>) -> staging::Bar {
    let b = bar.busy(false).status(""@);
    match result {
        Ok(t) => if text::blank(t@) {
            b.failed("修正返回空文本，已保留原文"@)
        } else {
            b.replaced(text::trimmed(t@)).note(""@)
        },
        Err(e) => b.failed("修正失败，已保留原文："@ + e@),
    }
}

impl Pipeline {
    pub fn clean_finished(&mut self, raw: &str, result: Result<String, String>)
        ensures
            final(self)@ == old(self)@.with_bar(polished(old(self)@.bar, raw@, result)),
            final(self).pending_device == old(self).pending_device,
    {
        self.staging.set_busy(false);
        self.staging.set_status("");
        match result {
            Ok(t) => {
                if text::is_blank(&t) {
                    self.staging.append(raw);
                    self.staging.error("清洗返回空文本，已直出原文");
                } else {
                    self.staging.append(&text::trim(&t));
                }
            },
            Err(e) => {
                self.staging.append(raw);
                let m = concat("清洗失败，已直出原文：", &e);
                self.staging.error(&m);
            },
        }
    }

    pub fn repair_finished(&mut self, result: Result<String, String>)
        ensures
            final(self)@ == old(self)@.with_bar(repaired(old(self)@.bar, result)),
            final(self).pending_device == old(self).pending_device,
    {
        self.staging.set_busy(false);
        self.staging.set_status("");
        match result {
            Ok(t) => {
                if text::is_blank(&t) {
                    self.staging.error("修正返回空文本，已保留原文");
                } else {
                    self.staging.replace(&text::trim(&t));
                    self.staging.set_repair_note("");
                }
            },
            Err(e) => {
                let m = concat("修正失败，已保留原文：", &e);
                self.staging.error(&m);
            },
        }
    }
}

// ---------------------------------------------------------------------------
// Running commands
// ---------------------------------------------------------------------------

/// The bar once a command was run.
pub open spec fn command_bar(
    bar: staging::Bar,
    command: combo::CommandView,
    result: Result<(), String>,
) -> staging::Bar {
    let b = if command is Script {
        bar.status(""@)
    } else {
        bar
    };
    match result {
        Ok(_) => b.say(staging::Ui::Committed),
        Err(e) => b.say(staging::Ui::CommandClear).failed(
            if command is Script {
                "脚本执行失败："@ + e@
            } else {
                "按键模拟失败："@ + e@
            },
        ),
    }
}

/// The bar once a command that the spotter heard was run.
pub open spec fn lightning_bar(
    bar: staging::Bar,
    command: combo::CommandView,
    result: Result<(), String>,
) -> staging::Bar {
    let b = if command is Script {
        bar.status(""@)
    } else {
        bar
    };
    match result {
        Ok(_) => b,
        Err(e) => b.say(staging::Ui::CommandClear).failed("闪电指令执行失败："@ + e@),
    }
}

/// The bar when the spotter has heard a command: it is shown as done at once.
pub open spec fn hit_bar(bar: staging::Bar, command: combo::CommandView) -> staging::Bar {
    bar.status(""@).say(staging::Ui::Partial(""@)).note(""@).say(
        staging::Ui::CommandClear,
    ).error_cleared().say(
        staging::Ui::Command(spaced(command), 0, CommandEngine::Lightning),
    ).say(staging::Ui::Committed)
}

impl Pipeline {
    /// A second of the countdown is over. `false` if something has overtaken
    /// the command, which is then not to be run.
    pub fn countdown_tick(&mut self, run: &mut CommandRun) -> (r: bool)
        requires
            old(run).remaining > 0,
        ensures
            final(run).command == old(run).command,
            final(run).generation == old(run).generation,
            final(run).remaining == old(run).remaining - 1,
            r == (old(run).generation == old(self)@.generation),
            final(self)@ == if r {
                old(self)@.with_bar(
                    old(self)@.bar.say(staging::Ui::CommandTick(final(run).remaining)),
                )
            } else {
                old(self)@
            },
            final(self).pending_device == old(self).pending_device,
    {
        run.remaining = run.remaining - 1;
        if run.generation != self.generation {
            return false;
        }
        self.staging.command_tick(run.remaining);
        true
    }

    /// A command is about to be run; a script says so.
    pub fn command_starting(&mut self, run: &CommandRun)
        ensures
            final(self)@ == old(self)@.with_bar(
                if run.command@ is Script {
                    old(self)@.bar.status("执行中"@)
                } else {
                    old(self)@.bar
                },
            ),
            final(self).pending_device == old(self).pending_device,
    {
        if let ParsedCommand::Script(_) = &run.command {
            self.staging.set_status("执行中");
        }
    }

    /// A command was run after its countdown.
    pub fn command_finished(&mut self, run: &CommandRun, result: Result<(), String>)
        ensures
            final(self)@ == old(self)@.with_bar(
                command_bar(old(self)@.bar, run.command@, result),
            ),
            final(self).pending_device == old(self).pending_device,
    {
        let script = matches!(run.command, ParsedCommand::Script(_));
        if script {
            self.staging.set_status("");
        }
        match result {
            Ok(_) => self.staging.committed(),
            Err(e) => {
                self.staging.clear_command();
                let m = if script {
                    concat("脚本执行失败：", &e)
                } else {
                    concat("按键模拟失败：", &e)
                };
                self.staging.error(&m);
            },
        }
    }

    /// A moment after a command was run, it goes out of sight, unless
    /// something else is shown by then.
    pub fn command_settled(&mut self, run: &CommandRun)
        ensures
            final(self)@ == if run.generation == old(self)@.generation {
                old(self)@.with_bar(
                    old(self)@.bar.say(staging::Ui::CommandClear).say(staging::Ui::Hide),
                )
            } else {
                old(self)@
            },
            final(self).pending_device == old(self).pending_device,
    {
        if run.generation == self.generation {
            self.staging.clear_command();
            self.staging.hide_window();
        }
    }

    /// The spotter has heard a command while it was being spoken: recording
    /// and recognition are over, and the command is to be run at once.
    pub fn lightning_hit(&mut self, command: ParsedCommand) -> (r: CommandRun)
        ensures
            r.command == command,
            r.remaining == 0,
            r.generation == final(self)@.generation,
            final(self)@ == old(self)@.bump().idle().with_bar(
                hit_bar(old(self)@.bar, command@).recording(false).busy(false),
            ),
            final(self).pending_device == old(self).pending_device,
    {
        self.bump_generation();
        self.staging.set_status("");
        self.staging.partial("");
        self.staging.set_repair_note("");
        self.staging.clear_command();
        self.staging.clear_error();
        let shown = command.spaced_display();
        self.staging.show_command(&shown, 0, CommandEngine::Lightning);
        self.staging.committed();
        self.staging.set_recording(false);
        self.staging.set_busy(false);
        self.go_idle();
        CommandRun { command, remaining: 0, generation: self.generation }
    }

    /// A command that the spotter heard was run.
    pub fn lightning_finished(&mut self, run: &CommandRun, result: Result<(), String>)
        ensures
            final(self)@ == old(self)@.with_bar(
                lightning_bar(old(self)@.bar, run.command@, result),
            ),
            final(self).pending_device == old(self).pending_device,
    {
        if let ParsedCommand::Script(_) = &run.command {
            self.staging.set_status("");
        }
        if let Err(e) = result {
            self.staging.clear_command();
            let m = concat("闪电指令执行失败：", &e);
            self.staging.error(&m);
        }
    }
}

// ---------------------------------------------------------------------------
// Laws
// ---------------------------------------------------------------------------

/// What was said ends up in the bar, polished or as it was: polishing may
/// fail, but it loses nothing.
pub proof fn law_polishing_loses_nothing(
    bar: staging::Bar,
    raw: Seq<char>,
    result: Result<String, String>,
)
    ensures
        polished(bar, raw, result).text == bar.text + raw || (result is Ok && polished(
            bar,
            raw,
            result,
        ).text == bar.text + text::trimmed(result->Ok_0@)),
        (result is Err || text::blank(result->Ok_0@)) ==> polished(bar, raw, result).text
            == bar.text + raw && polished(bar, raw, result).error is Some,
{
}

/// A repair that fails leaves the text as it was, and says so.
pub proof fn law_failed_repair_keeps_text(bar: staging::Bar, result: Result<String, String>)
    requires
        result is Err || text::blank(result->Ok_0@),
    ensures
        repaired(bar, result).text == bar.text,
        repaired(bar, result).error is Some,
{
}

/// A countdown rounds up, and one of nothing is over at once.
pub proof fn law_countdown_rounds_up(ms: u64)
    ensures
        countdown_seconds(ms) * 1000 >= ms,
        ms > 0 ==> (countdown_seconds(ms) - 1) * 1000 < ms,
        countdown_seconds(ms) == 0 <==> ms == 0,
{
}

/// A session is finished only when all of the recording has reached it.
pub proof fn law_nothing_is_finished_undelivered(delivered: bool, session: SessionResult)
    requires
        session_problem(delivered, session) is None,
    ensures
        delivered,
        session is Connected,
{
}

/// A transcript never takes text out of the bar.
pub proof fn law_transcripts_keep_text(
    m: machine::Machine,
    mode: RecordMode,
    result: Result<String, String>,
    means: Means,
)
    ensures
        ({
            let after = on_transcript(m, mode, result, means);
            after.bar.text == m.bar.text || (result is Ok && after.bar.text == m.bar.text
                + text::trimmed(result->Ok_0@))
        }),
{
}

/// Polished text is appended as the language model gave it, but for the white
/// space at its ends, whatever was said; no error shows, and the badge is gone.
pub proof fn law_polished_text_is_appended(
    bar: staging::Bar,
    raw: Seq<char>,
    other: Seq<char>,
    t: String,
)
    requires
        !text::blank(t@),
    ensures
        polished(bar, raw, Ok(t)).text == bar.text + text::trimmed(t@),
        polished(bar, raw, Ok(t)).error is None,
        polished(bar, raw, Ok(t)) == polished(bar, other, Ok(t)),
        told(bar, polished(bar, raw, Ok(t)), staging::Ui::Busy(false)),
        told(bar, polished(bar, raw, Ok(t)), staging::Ui::Status(Seq::empty())),
        polished(bar, raw, Ok(t)).said.last() == staging::Ui::Text(
            bar.text + text::trimmed(t@),
        ),
{
    lemma_empty_literal();
    let b = polished(bar, raw, Ok(t));
    assert(b.said[bar.said.len() as int] == staging::Ui::Busy(false));
    assert(b.said[bar.said.len() as int + 1] == staging::Ui::Status(Seq::empty()));
}

/// Polishing that fails says why, and what was said goes to the bar as it was,
/// behind what is there.
pub proof fn law_failed_polishing_says_why(bar: staging::Bar, raw: Seq<char>, e: String)
    ensures
        polished(bar, raw, Err(e)).text == bar.text + raw,
        polished(bar, raw, Err(e)).error matches Some(x) && search::occurs_at(
            x,
            e@,
            x.len() - e@.len(),
        ),
        polished(bar, raw, Err(e)).said.last() == staging::Ui::Show,
{
    let x = "清洗失败，已直出原文："@ + e@;
    assert(x.subrange(x.len() - e@.len(), x.len() as int) =~= e@);
}

/// A repaired text takes the place of the old one, whatever that was; no error
/// shows, and badge and note are gone.
pub proof fn law_repaired_text_takes_the_place(bar: staging::Bar, other: staging::Bar, t: String)
    requires
        !text::blank(t@),
    ensures
        repaired(bar, Ok(t)).text == text::trimmed(t@),
        repaired(bar, Ok(t)).error is None,
        repaired(bar, Ok(t)).text == repaired(other, Ok(t)).text,
        told(bar, repaired(bar, Ok(t)), staging::Ui::Busy(false)),
        told(bar, repaired(bar, Ok(t)), staging::Ui::Status(Seq::empty())),
        told(bar, repaired(bar, Ok(t)), staging::Ui::Text(text::trimmed(t@))),
        repaired(bar, Ok(t)).said.last() == staging::Ui::RepairNote(Seq::empty()),
{
    lemma_empty_literal();
    let b = repaired(bar, Ok(t));
    assert(b.said[bar.said.len() as int] == staging::Ui::Busy(false));
    assert(b.said[bar.said.len() as int + 1] == staging::Ui::Status(Seq::empty()));
    assert(b.said[bar.said.len() as int + 2] == staging::Ui::Text(text::trimmed(t@)));
}

/// A repair that fails says why.
pub proof fn law_failed_repair_says_why(bar: staging::Bar, e: String)
    ensures
        repaired(bar, Err(e)).text == bar.text,
        repaired(bar, Err(e)).error matches Some(x) && search::occurs_at(
            x,
            e@,
            x.len() - e@.len(),
        ),
        repaired(bar, Err(e)).said.last() == staging::Ui::Show,
{
    let x = "修正失败，已保留原文："@ + e@;
    assert(x.subrange(x.len() - e@.len(), x.len() as int) =~= e@);
}

/// The window was told something between two states of the bar.
pub open spec fn told(before: staging::Bar, after: staging::Bar, e: staging::Ui) -> bool {
    exists|i: int| before.said.len() <= i < after.said.len() && #[trigger] after.said[i] == e
}

proof fn lemma_empty_literal()
    ensures
        ""@ == Seq::<char>::empty(),
{
    reveal_strlit("");
    assert(""@ =~= Seq::<char>::empty());
}

/// Dictation without a language model goes to the end of the bar at once; with
/// one, the bar waits, and what was said is handed over in a message that holds
/// all of it.
pub proof fn law_dictation_is_appended_or_polished(
    m: machine::Machine,
    t: String,
    means: Means,
)
    requires
        !text::blank(t@),
    ensures
        ({
            let after = on_transcript(m, RecordMode::Input, Ok(t), means);
            let said = text::trimmed(t@);
            &&& !means.cleaner ==> after.bar.text == m.bar.text + said && after.bar.error is None
                && after.next == Next::Nothing
            &&& means.cleaner ==> after.bar.text == m.bar.text && after.bar.error == m.bar.error
                && (after.next matches Next::Clean { raw, message } && raw == said
                && search::has_text(message, said)) && told(
                m.bar,
                after.bar,
                staging::Ui::Busy(true),
            )
        }),
{
    let said = text::trimmed(t@);
    let head = "请改写以下文本：\n---\n"@;
    let message = polish_message(said);
    assert(message.subrange(head.len() as int, (head.len() + said.len()) as int) =~= said);
    assert(search::occurs_at(message, said, head.len() as int));
    let after = on_transcript(m, RecordMode::Input, Ok(t), means);
    if means.cleaner {
        assert(after.bar.said[m.bar.said.len() as int] == staging::Ui::Busy(true));
    }
}

/// Dictating with a language model that succeeds is the same as appending what
/// the model answers; one that fails, as dictating without.
pub proof fn law_dictation_ends_in_the_bar(
    m: machine::Machine,
    t: String,
    means: Means,
    answer: Result<String, String>,
)
    requires
        means.cleaner,
        !text::blank(t@),
    ensures
        ({
            let after = on_transcript(m, RecordMode::Input, Ok(t), means);
            let text = polished(after.bar, after.next->raw, answer).text;
            &&& answer is Ok && !text::blank(answer->Ok_0@) ==> text == m.bar.text + text::trimmed(
                answer->Ok_0@,
            )
            &&& answer is Err || text::blank(answer->Ok_0@) ==> text == m.bar.text
                + text::trimmed(t@)
        }),
{
}

/// A spoken repair hands the text of the bar and what was said to the language
/// model, each for what it is; without text or model the user is told, and
/// nothing is handed over.
pub proof fn law_repairs_hand_over_text_and_instruction(
    m: machine::Machine,
    t: String,
    means: Means,
)
    requires
        !text::blank(t@),
    ensures
        ({
            let after = on_transcript(m, RecordMode::Repair, Ok(t), means);
            &&& after.bar.text == m.bar.text
            &&& means.cleaner && !text::blank(m.bar.text) ==> after.next == (Next::Repair {
                original: m.bar.text,
                instruction: text::trimmed(t@),
            }) && after.bar.error == m.bar.error && told(
                m.bar,
                after.bar,
                staging::Ui::RepairNote(text::trimmed(t@)),
            ) && told(m.bar, after.bar, staging::Ui::Busy(true))
            &&& !means.cleaner || text::blank(m.bar.text) ==> after.next == Next::Nothing
                && after.bar.error is Some && after.bar.said.last() == staging::Ui::Show
        }),
{
    let after = on_transcript(m, RecordMode::Repair, Ok(t), means);
    if means.cleaner && !text::blank(m.bar.text) {
        assert(after.bar.said[m.bar.said.len() as int] == staging::Ui::RepairNote(
            text::trimmed(t@),
        ));
        assert(after.bar.said[m.bar.said.len() as int + 1] == staging::Ui::Busy(true));
    }
}

/// A spoken command is the one that the lexicon makes of what was said. It runs
/// once its countdown is over, unless something overtakes it; what is no command
/// is shown as such, and nothing runs.
pub proof fn law_commands_are_what_the_lexicon_says(
    m: machine::Machine,
    t: String,
    means: Means,
)
    requires
        !text::blank(t@),
    ensures
        ({
            let after = on_transcript(m, RecordMode::Command, Ok(t), means);
            &&& after.bar.text == m.bar.text
            &&& match parser::command_for(means.lexicon@, text::trimmed(t@)) {
                Some(c) => after.next matches Next::Run { command, remaining, generation }
                    && command == c && generation == m.generation && remaining * 1000
                    >= means.countdown_ms && (remaining - 1) * 1000 < means.countdown_ms
                    && after.bar.error == m.bar.error,
                None => after.next == Next::Nothing && (after.bar.error matches Some(x)
                    && search::occurs_at(x, text::trimmed(t@), x.len() - text::trimmed(t@).len())),
            }
        }),
{
    let said = text::trimmed(t@);
    let x = "未识别到按键指令："@ + said;
    assert(x.subrange(x.len() - said.len(), x.len() as int) =~= said);
}

/// A recogniser that fails, or hears nothing, is reported whatever was being
/// recorded, and nothing follows; the reason is passed on.
pub proof fn law_failed_recognition_is_reported(
    m: machine::Machine,
    mode: RecordMode,
    result: Result<String, String>,
    means: Means,
)
    requires
        result is Err || text::blank(result->Ok_0@),
    ensures
        ({
            let after = on_transcript(m, mode, result, means);
            &&& after.next == Next::Nothing
            &&& after.bar.text == m.bar.text
            &&& after.bar.error matches Some(x) && (result is Err ==> search::occurs_at(
                x,
                result->Err_0@,
                x.len() - result->Err_0@.len(),
            ))
            &&& after.bar.said.last() == staging::Ui::Show
            &&& told(m.bar, after.bar, staging::Ui::Status(Seq::empty()))
        }),
{
    lemma_empty_literal();
    let after = on_transcript(m, mode, result, means);
    assert(after.bar.said[m.bar.said.len() as int] == staging::Ui::Status(Seq::empty()));
    if result is Err {
        let e = result->Err_0@;
        let x = "ASR 失败："@ + e;
        assert(x.subrange(x.len() - e.len(), x.len() as int) =~= e);
    }
}

/// A connected session that all of the recording has reached can be finished,
/// and the bar says that it is being recognised; any other is reported, with the
/// reason where one is known. The text stays.
pub proof fn law_sessions_are_finished_or_reported(
    bar: staging::Bar,
    delivered: bool,
    session: SessionResult,
    mode: RecordMode,
)
    ensures
        session_problem(delivered, session) is None <==> delivered && session is Connected,
        session_bar(bar, delivered, session, mode).text == bar.text,
        delivered && session is Connected ==> {
            &&& session_bar(bar, delivered, session, mode).error == bar.error
            &&& told(bar, session_bar(bar, delivered, session, mode), staging::Ui::Busy(true))
            &&& session_bar(bar, delivered, session, mode).said.last() == staging::Ui::Status(
                if mode == RecordMode::Command {
                    "指令识别中"@
                } else {
                    "识别中"@
                },
            )
        },
        !(delivered && session is Connected) ==> {
            &&& session_bar(bar, delivered, session, mode).error is Some
            &&& session_bar(bar, delivered, session, mode).error == session_problem(
                delivered,
                session,
            )
            &&& session_bar(bar, delivered, session, mode).said.last() == staging::Ui::Show
        },
        session matches SessionResult::Failed(e) ==> search::occurs_at(
            session_problem(delivered, session)->0,
            e@,
            session_problem(delivered, session)->0.len() - e@.len(),
        ),
{
    if delivered && session is Connected {
        assert(session_bar(bar, delivered, session, mode).said[bar.said.len() as int]
            == staging::Ui::Busy(true));
    }
    if let SessionResult::Failed(e) = session {
        let x = "ASR 会话建立失败："@ + e@;
        assert(x.subrange(x.len() - e@.len(), x.len() as int) =~= e@);
    }
}

/// What has been understood so far is shown as it is, apart from the text of
/// the bar: beside it where it says how that is to be repaired.
pub proof fn law_partials_are_shown_apart(bar: staging::Bar, mode: RecordMode, t: Seq<char>)
    ensures
        partial_bar(bar, mode, t).text == bar.text,
        partial_bar(bar, mode, t).error == bar.error,
        partial_bar(bar, mode, t).said == bar.said.push(
            if mode == RecordMode::Repair {
                staging::Ui::RepairNote(t)
            } else {
                staging::Ui::Partial(t)
            },
        ),
{
}

/// A command that ran is confirmed; one that failed says why and is no longer
/// shown. The text of the bar has no part in it.
pub proof fn law_commands_are_confirmed_or_reported(
    bar: staging::Bar,
    command: combo::CommandView,
    e: String,
)
    ensures
        command_bar(bar, command, Ok(())).text == bar.text,
        command_bar(bar, command, Ok(())).error == bar.error,
        command_bar(bar, command, Ok(())).said.last() == staging::Ui::Committed,
        command_bar(bar, command, Err(e)).text == bar.text,
        command_bar(bar, command, Err(e)).error matches Some(x) && search::occurs_at(
            x,
            e@,
            x.len() - e@.len(),
        ),
        command_bar(bar, command, Err(e)).said.last() == staging::Ui::Show,
        told(bar, command_bar(bar, command, Err(e)), staging::Ui::CommandClear),
        lightning_bar(bar, command, Ok(())).text == bar.text,
        lightning_bar(bar, command, Ok(())).error == bar.error,
        lightning_bar(bar, command, Err(e)).text == bar.text,
        lightning_bar(bar, command, Err(e)).error matches Some(x) && search::occurs_at(
            x,
            e@,
            x.len() - e@.len(),
        ),
        told(bar, lightning_bar(bar, command, Err(e)), staging::Ui::CommandClear),
{
    let a = "脚本执行失败："@ + e@;
    let b = "按键模拟失败："@ + e@;
    let c = "闪电指令执行失败："@ + e@;
    assert(a.subrange(a.len() - e@.len(), a.len() as int) =~= e@);
    assert(b.subrange(b.len() - e@.len(), b.len() as int) =~= e@);
    assert(c.subrange(c.len() - e@.len(), c.len() as int) =~= e@);
    let i = bar.said.len() + if command is Script {
        1int
    } else {
        0int
    };
    assert(command_bar(bar, command, Err(e)).said[i] == staging::Ui::CommandClear);
    assert(lightning_bar(bar, command, Err(e)).said[i] == staging::Ui::CommandClear);
}

/// A command that the spotter heard is shown as done at once, without a
/// countdown, and an error that showed is gone; the text stays.
pub proof fn law_spotted_commands_are_done_at_once(bar: staging::Bar, command: combo::CommandView)
    ensures
        hit_bar(bar, command).text == bar.text,
        hit_bar(bar, command).error is None,
        hit_bar(bar, command).said.last() == staging::Ui::Committed,
        told(
            bar,
            hit_bar(bar, command),
            staging::Ui::Command(spaced(command), 0, CommandEngine::Lightning),
        ),
{
    let b = hit_bar(bar, command);
    assert(b.said[b.said.len() - 2] == staging::Ui::Command(
        spaced(command),
        0,
        CommandEngine::Lightning,
    ));
}

/// A command that was understood is shown with the seconds that are left.
pub proof fn law_commands_are_shown_before_they_run(
    m: machine::Machine,
    t: String,
    means: Means,
    c: combo::CommandView,
)
    requires
        !text::blank(t@),
        parser::command_for(means.lexicon@, text::trimmed(t@)) == Some(c),
    ensures
        ({
            let after = on_transcript(m, RecordMode::Command, Ok(t), means);
            after.bar.said.last() == staging::Ui::Command(
                spaced(c),
                after.next->remaining as u64,
                CommandEngine::Text,
            )
        }),
{
}

/// A command is shown as it is, but that each plus sign has a blank on either
/// side.
pub proof fn law_shown_commands_are_spaced(c: combo::CommandView, i: int)
    ensures
        (forall|j: int| 0 <= j < c.shown().len() ==> #[trigger] c.shown()[j] != '+') ==> spaced(c)
            == c.shown(),
        0 <= i < c.shown().len() && c.shown()[i] == '+' && (forall|j: int|
            0 <= j < i ==> #[trigger] c.shown()[j] != '+') ==> search::has_prefix(
            spaced(c),
            c.shown().take(i) + seq![' ', '+', ' '],
        ),
{
    reveal_strlit("+");
    reveal_strlit(" + ");
    let s = c.shown();
    let p = "+"@;
    let r = " + "@;
    assert(r =~= seq![' ', '+', ' ']);
    assert forall|j: int| 0 <= j < s.len() implies search::occurs_at(s, p, j) == (#[trigger] s[j]
        == '+') by {
        if s[j] == '+' {
            assert(s.subrange(j, j + 1) =~= p);
        } else {
            assert(s.subrange(j, j + 1)[0] == s[j]);
        }
    }
    if forall|j: int| 0 <= j < s.len() ==> #[trigger] s[j] != '+' {
        assert forall|j: int| !search::occurs_at(s, p, j) by {
            if 0 <= j < s.len() {
                assert(s[j] != '+');
            }
        }
        search::law_nothing_is_replaced_where_nothing_occurs(s, p, r);
    }
    if 0 <= i < s.len() && s[i] == '+' && (forall|j: int|
        0 <= j < i ==> #[trigger] s[j] != '+') {
        assert forall|j: int| 0 <= j < i implies !search::occurs_at(s, p, j) by {
            assert(s[j] != '+');
        }
        search::law_occurrences_are_replaced_one_by_one(s, p, r, i);
        let head = s.take(i) + r;
        let rest = search::replaced(s.skip(i + p.len()), p, r);
        assert((head + rest).subrange(0, head.len() as int) =~= head);
    }
}

} // verus!
