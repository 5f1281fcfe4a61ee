//! What the user sees in the end: the window, once it has been told everything.
use crate::command::combo;
use crate::command::parser;
use crate::hotkey::events::HotkeyEvent;
use crate::pipeline::laws;
use crate::pipeline::machine;
use crate::pipeline::machine::{Machine, RecordMode, Recording, Snapshot, State};
use crate::pipeline::outcome;
use crate::pipeline::outcome::{Means, SessionResult};
use crate::pipeline::wake;
use crate::staging::{Bar, Ui};
use crate::text;
use crate::wakeword::words;
use vstd::prelude::*;

verus! {

/// The window: what it shows, and how often it has confirmed something.
#[verifier::ext_equal]
pub struct Screen {
    pub text: Seq<char>,
    pub status: Seq<char>,
    pub partial: Seq<char>,
    pub note: Seq<char>,
    pub recording: bool,
    pub busy: bool,
    pub error: Option<Seq<char>>,
    /// The command, and the seconds left until it runs.
    pub command: Option<(Seq<char>, u64)>,
    pub confirmed: nat,
    pub visible: bool,
}

/// The window after it was told one thing more. Text takes the place of an error.
pub open spec fn after_news(s: Screen, e: Ui) -> Screen {
    match e {
        Ui::Text(t) => Screen { text: t, error: None, ..s },
        Ui::Status(t) => Screen { status: t, ..s },
        Ui::Partial(t) => Screen { partial: t, ..s },
        Ui::RepairNote(t) => Screen { note: t, ..s },
        Ui::Recording(b) => Screen { recording: b, ..s },
        Ui::Busy(b) => Screen { busy: b, ..s },
        Ui::Error(m) => Screen { error: Some(m), ..s },
        Ui::Command(t, n, _) => Screen { command: Some((t, n)), ..s },
        Ui::CommandTick(n) => Screen {
            command: match s.command {
                Some(c) => Some((c.0, n)),
                None => None,
            },
            ..s
        },
        Ui::CommandClear => Screen { command: None, ..s },
        Ui::Committed => Screen { confirmed: s.confirmed + 1, ..s },
        Ui::Show => Screen { visible: true, ..s },
        Ui::Hide => Screen { visible: false, ..s },
    }
}

/// What a window that showed `s` shows after all it was told.
pub open spec fn seen(s: Screen, said: Seq<Ui>) -> Screen
    decreases said.len(),
{
    if said.len() == 0 {
        s
    } else {
        after_news(seen(s, said.drop_last()), said.last())
    }
}

/// What a window that showed `s` shows of a bar.
pub open spec fn of(s: Screen, bar: Bar) -> Screen {
    seen(s, bar.said)
}

/// The window shows the text and the error of the bar.
pub open spec fn in_step(s: Screen, bar: Bar) -> bool {
    of(s, bar).text == bar.text && of(s, bar).error == bar.error
}

proof fn lemma_seen()
    ensures
        forall|s: Screen, said: Seq<Ui>, e: Ui| #[trigger]
            seen(s, said.push(e)) == after_news(seen(s, said), e),
        ""@ == Seq::<char>::empty(),
{
    assert forall|s: Screen, said: Seq<Ui>, e: Ui| #[trigger] seen(s, said.push(e)) == after_news(
        seen(s, said),
        e,
    ) by {
        assert(said.push(e).drop_last() =~= said);
        assert(said.push(e).last() == e);
    }
    reveal_strlit("");
    assert(""@ =~= Seq::<char>::empty());
}

/// The window does not fall out of step with the bar, whatever key is pressed
/// while no error shows or nothing is recorded, however much time goes by, and
/// whatever becomes of a commit.
pub proof fn law_keys_keep_the_window_in_step(
    s: Screen,
    m: Machine,
    ev: HotkeyEvent,
    plan: machine::StartPlan,
    now: u64,
    snap: Snapshot,
    t: Seq<char>,
    e: Seq<char>,
)
    requires
        in_step(s, m.bar),
    ensures
        m.bar.error is None || !(m.state is Recording) ==> in_step(
            s,
            machine::on_hotkey(m, ev, now, snap).machine.bar,
        ),
        in_step(s, machine::on_started(m, plan, now).bar),
        in_step(s, machine::on_tick(m, now, snap).bar),
        in_step(s, machine::commit_failed(m, t, e).bar),
        in_step(s, machine::commit_done(m).bar),
        m.bar.error is None ==> in_step(s, machine::on_commit(m).machine.bar),
{
    lemma_seen();
}

/// Nor whatever becomes of a recording.
pub proof fn law_outcomes_keep_the_window_in_step(
    s: Screen,
    m: Machine,
    mode: RecordMode,
    result: Result<String, String>,
    means: Means,
    raw: Seq<char>,
    done: Result<(), String>,
    c: combo::CommandView,
)
    requires
        in_step(s, m.bar),
    ensures
        in_step(s, outcome::on_transcript(m, mode, result, means).bar),
        in_step(s, outcome::polished(m.bar, raw, result)),
        in_step(s, outcome::repaired(m.bar, result)),
        in_step(s, outcome::partial_bar(m.bar, mode, raw)),
        in_step(s, outcome::command_bar(m.bar, c, done)),
        in_step(s, outcome::lightning_bar(m.bar, c, done)),
        in_step(s, outcome::hit_bar(m.bar, c)),
{
    lemma_seen();
}

/// Clearing everything leaves an empty window out of sight.
pub proof fn law_cancel_leaves_an_empty_window(s: Screen, m: Machine, now: u64, snap: Snapshot)
    requires
        m.bar.error is None,
    ensures
        ({
            let w = of(
                s,
                machine::on_hotkey(m, HotkeyEvent::CancelDown, now, snap).machine.bar,
            );
            w == (Screen {
                text: Seq::empty(),
                status: Seq::empty(),
                partial: of(s, m.bar).partial,
                note: Seq::empty(),
                recording: false,
                busy: false,
                error: None,
                command: None,
                confirmed: of(s, m.bar).confirmed,
                visible: false,
            })
        }),
{
    lemma_seen();
    let w = of(s, machine::on_hotkey(m, HotkeyEvent::CancelDown, now, snap).machine.bar);
    assert(w.text =~= Seq::empty());
}

/// Cancelling and double clicking while an error shows take away the error and
/// nothing else; a window without text goes out of sight after the latter.
pub proof fn law_errors_go_alone(s: Screen, m: Machine, now: u64, snap: Snapshot)
    requires
        m.bar.error is Some,
        in_step(s, m.bar),
    ensures
        of(s, machine::on_hotkey(m, HotkeyEvent::CancelDown, now, snap).machine.bar) == (Screen {
            error: None,
            ..of(s, m.bar)
        }),
        !(m.state is Recording) ==> of(
            s,
            machine::on_hotkey(m, HotkeyEvent::MouseDoubleClick, now, snap).machine.bar,
        ) == (Screen {
            error: None,
            visible: of(s, m.bar).visible && !text::blank(m.bar.text),
            ..of(s, m.bar)
        }),
{
    lemma_seen();
}

/// A key that goes down leaves a window that records: without error, command,
/// or what was shown of the last recording.
pub proof fn law_recording_starts_with_a_clear_window(
    s: Screen,
    m: Machine,
    mode: RecordMode,
    down: HotkeyEvent,
    now: u64,
    snap: Snapshot,
)
    requires
        m.recorder,
        !(m.state is Recording),
        laws::held_for(down, mode),
    ensures
        of(s, laws::held(m, down, now, snap).bar) == (Screen {
            text: if mode == RecordMode::Command {
                Seq::empty()
            } else {
                m.bar.text
            },
            partial: Seq::empty(),
            note: Seq::empty(),
            recording: true,
            error: None,
            command: None,
            ..of(s, m.bar)
        }),
{
    lemma_seen();
    let w = of(s, laws::held(m, down, now, snap).bar);
    if mode == RecordMode::Command {
        assert(w.text =~= Seq::empty());
    }
}

/// A recording that ends is no longer shown as one. One that was void, or too
/// short, takes badge, and for the channels but the first note, with it and, but
/// where a press waits or the text was cleared, the window too.
pub proof fn law_ended_recordings_leave_the_window(
    s: Screen,
    m: Machine,
    r: Recording,
    up: HotkeyEvent,
    now: u64,
    snap: Snapshot,
)
    requires
        m.recorder,
        m.state == State::Recording(r),
        r.started <= now,
        laws::is_up(up),
    ensures
        ({
            let step = machine::on_hotkey(m, up, now, snap);
            let w = of(s, step.machine.bar);
            &&& !w.recording
            &&& r.tainted ==> w == (Screen {
                recording: false,
                status: Seq::empty(),
                note: Seq::empty(),
                visible: false,
                ..of(s, m.bar)
            })
            &&& !r.tainted && now < r.started + snap.threshold_ms * 1_000_000 ==> w.status.len()
                == 0 && w.confirmed == of(s, m.bar).confirmed && w.command == of(s, m.bar).command
                && w.busy == of(s, m.bar).busy
            &&& !r.tainted && now < r.started + snap.threshold_ms * 1_000_000 && r.mode
                != RecordMode::Input ==> w.note.len() == 0 && !w.visible
            &&& (step.act is FinishRealtime || step.act is Transcribe) ==> w == (Screen {
                recording: false,
                ..of(s, m.bar)
            })
        }),
{
    lemma_seen();
    if now < r.started + snap.threshold_ms * 1_000_000 && now >= r.started {
        assert((now - r.started) / 1_000_000 < snap.threshold_ms) by (nonlinear_arith)
            requires
                now - r.started < snap.threshold_ms * 1_000_000,
        ;
    }
}

/// A press that has lasted long enough brings up a busy window with the badge
/// of its channel, and changes nothing else.
pub proof fn law_long_presses_bring_up_the_window(
    s: Screen,
    m: Machine,
    r: Recording,
    now: u64,
    snap: Snapshot,
)
    requires
        m.state == State::Recording(r),
        now >= r.started + snap.threshold_ms * 1_000_000,
        r.bar_shown ==> of(s, m.bar).visible,
    ensures
        of(s, machine::on_tick(m, now, snap).bar) == (Screen {
            busy: true,
            visible: true,
            status: if r.mode == RecordMode::Command {
                "指令识别中"@
            } else {
                "识别中"@
            },
            ..of(s, m.bar)
        }),
{
    lemma_seen();
    assert((now - r.started) / 1_000_000 >= snap.threshold_ms) by (nonlinear_arith)
        requires
            now - r.started >= snap.threshold_ms * 1_000_000,
    ;
}

/// A commit that succeeded is confirmed once and takes the window out of sight;
/// one that failed shows the text again, with the error.
pub proof fn law_commits_are_seen(s: Screen, m: Machine, t: Seq<char>, e: Seq<char>)
    ensures
        of(s, machine::commit_done(m).bar) == (Screen {
            confirmed: of(s, m.bar).confirmed + 1,
            visible: false,
            ..of(s, m.bar)
        }),
        of(s, machine::commit_failed(m, t, e).bar) == (Screen {
            text: t,
            error: machine::commit_failed(m, t, e).bar.error,
            visible: true,
            ..of(s, m.bar)
        }),
{
    lemma_seen();
}

/// What became of a transcript: dictated text shows without a badge, or with the
/// badge of polishing while that goes on; a repair shows what was said beside the
/// text; a command shows with the seconds left. What went wrong shows as an error.
pub proof fn law_transcripts_are_seen(
    s: Screen,
    m: Machine,
    t: String,
    means: Means,
    mode: RecordMode,
)
    requires
        in_step(s, m.bar),
        !text::blank(t@),
    ensures
        ({
            let said = text::trimmed(t@);
            let after = outcome::on_transcript(m, mode, Ok(t), means);
            let old_w = of(s, m.bar);
            let w = of(s, after.bar);
            match mode {
                RecordMode::Input => w == if means.cleaner {
                    Screen { busy: true, status: "润色中"@, ..old_w }
                } else {
                    Screen {
                        text: m.bar.text + said,
                        error: None,
                        status: Seq::empty(),
                        ..old_w
                    }
                },
                RecordMode::Repair => if means.cleaner && !text::blank(m.bar.text) {
                    w == (Screen { note: said, busy: true, status: "修复中"@, ..old_w })
                } else {
                    w == (Screen { error: after.bar.error, visible: true, ..old_w })
                },
                RecordMode::Command => match parser::command_for(means.lexicon@, said) {
                    Some(c) => w == (Screen {
                        status: Seq::empty(),
                        command: Some(
                            (outcome::spaced(c), outcome::countdown_seconds(means.countdown_ms) as u64),
                        ),
                        ..old_w
                    }),
                    None => w == (Screen {
                        status: Seq::empty(),
                        error: after.bar.error,
                        visible: true,
                        ..old_w
                    }),
                },
            }
        }),
{
    lemma_seen();
}

/// Polishing and repairing end with a window that is no longer busy and has no
/// badge; it shows the new text, or the error beside the text that is kept.
pub proof fn law_polishing_is_seen(
    s: Screen,
    bar: Bar,
    raw: Seq<char>,
    result: Result<String, String>,
)
    requires
        in_step(s, bar),
    ensures
        of(s, outcome::polished(bar, raw, result)) == (Screen {
            text: outcome::polished(bar, raw, result).text,
            error: outcome::polished(bar, raw, result).error,
            busy: false,
            status: Seq::empty(),
            visible: of(s, bar).visible || outcome::polished(bar, raw, result).error is Some,
            ..of(s, bar)
        }),
        result is Ok && !text::blank(result->Ok_0@) ==> of(s, outcome::repaired(bar, result)) == (
        Screen {
            text: text::trimmed(result->Ok_0@),
            error: None,
            busy: false,
            status: Seq::empty(),
            note: Seq::empty(),
            ..of(s, bar)
        }),
        result is Err || text::blank(result->Ok_0@) ==> of(s, outcome::repaired(bar, result)) == (
        Screen {
            error: outcome::repaired(bar, result).error,
            busy: false,
            status: Seq::empty(),
            visible: true,
            ..of(s, bar)
        }),
{
    lemma_seen();
}

/// A command that ran is confirmed once, on either way; one that failed is no
/// longer shown, but what went wrong is. The badge of a script goes with it.
pub proof fn law_commands_are_seen(
    s: Screen,
    bar: Bar,
    c: combo::CommandView,
    result: Result<(), String>,
)
    ensures
        ({
            let calm = if c is Script {
                Screen { status: Seq::empty(), ..of(s, bar) }
            } else {
                of(s, bar)
            };
            let a = outcome::command_bar(bar, c, result);
            let b = outcome::lightning_bar(bar, c, result);
            let hit = outcome::hit_bar(bar, c);
            &&& result is Ok ==> of(s, a) == (Screen { confirmed: calm.confirmed + 1, ..calm })
            &&& result is Ok ==> of(s, b) == calm
            &&& result is Err ==> of(s, a) == (Screen {
                command: None,
                error: a.error,
                visible: true,
                ..calm
            })
            &&& result is Err ==> of(s, b) == (Screen {
                command: None,
                error: b.error,
                visible: true,
                ..calm
            })
            &&& of(s, hit) == (Screen {
                text: bar.text,
                status: Seq::empty(),
                partial: Seq::empty(),
                note: Seq::empty(),
                error: None,
                command: Some((outcome::spaced(c), 0)),
                confirmed: of(s, bar).confirmed + 1,
                ..of(s, bar)
            })
        }),
{
    lemma_seen();
}

/// A session that is finished shows the badge of its channel; one that cannot
/// be shows why, without a badge.
pub proof fn law_sessions_are_seen(
    s: Screen,
    bar: Bar,
    delivered: bool,
    session: SessionResult,
    mode: RecordMode,
)
    ensures
        delivered && session is Connected ==> of(
            s,
            outcome::session_bar(bar, delivered, session, mode),
        ) == (Screen {
            busy: true,
            status: if mode == RecordMode::Command {
                "指令识别中"@
            } else {
                "识别中"@
            },
            ..of(s, bar)
        }),
        !(delivered && session is Connected) ==> of(
            s,
            outcome::session_bar(bar, delivered, session, mode),
        ) == (Screen {
            status: Seq::empty(),
            error: outcome::session_problem(delivered, session),
            visible: true,
            ..of(s, bar)
        }),
{
    lemma_seen();
}

/// A wake word brings up a window that records, with the badge of its channel
/// and nothing left of the last recording.
pub proof fn law_wake_words_are_seen(s: Screen, bar: Bar, word: words::Word)
    ensures
        of(s, wake::wake_bar(bar, word)) == (Screen {
            text: if word.action == "command"@ {
                Seq::empty()
            } else {
                bar.text
            },
            status: if word.action == "command"@ {
                "指令识别中"@
            } else {
                "识别中"@
            },
            partial: Seq::empty(),
            note: Seq::empty(),
            recording: true,
            busy: true,
            error: None,
            command: None,
            visible: true,
            ..of(s, bar)
        }),
{
    lemma_seen();
    reveal_strlit("repair");
    reveal_strlit("command");
    assert("repair"@.len() == 6 && "command"@.len() == 7);
    let w = of(s, wake::wake_bar(bar, word));
    if word.action == "command"@ {
        assert(w.text =~= Seq::empty());
    }
}

/// A bar that is emptied leaves an empty window; a window that has just loaded
/// shows the text and the error of the bar.
pub proof fn law_bars_are_seen(s: Screen, bar: Bar)
    ensures
        of(s, bar.emptied()) == (Screen {
            text: Seq::empty(),
            status: Seq::empty(),
            partial: Seq::empty(),
            note: Seq::empty(),
            recording: false,
            busy: false,
            error: None,
            command: None,
            ..of(s, bar)
        }),
        in_step(s, bar.republished()),
        of(s, bar.republished()) == (Screen {
            text: bar.text,
            error: bar.error,
            ..of(s, bar)
        }),
{
    lemma_seen();
    assert(of(s, bar.emptied()).text =~= Seq::empty());
}

} // verus!
