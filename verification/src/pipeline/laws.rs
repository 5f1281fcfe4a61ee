//! What the state machine promises.
use crate::hotkey::events::HotkeyEvent;
use crate::pipeline::machine;
use crate::pipeline::machine::{Act, Backend, Machine, RecordMode, Recording, Snapshot, State};
use crate::search;
use crate::staging;
use crate::text;
use vstd::prelude::*;

verus! {

/// An event that ends a press.
pub open spec fn is_up(ev: HotkeyEvent) -> bool {
    ev is TriggerUp || ev is RepairUp || ev is CommandUp || ev is MouseTriggerUp || ev
        is MouseRepairUp
}

/// An event that begins a press on the keyboard.
pub open spec fn is_key_down(ev: HotkeyEvent) -> bool {
    ev is TriggerDown || ev is RepairDown || ev is CommandDown
}

/// An event that begins a press of a side button.
pub open spec fn is_mouse_down(ev: HotkeyEvent) -> bool {
    ev is MouseTriggerDown || ev is MouseRepairDown
}

/// While nothing is recorded and no press waits, the pipeline listens exactly
/// when the wake word engine is there.
pub open spec fn settled(m: Machine) -> bool {
    &&& m.state == State::Idle ==> !m.wake_ready
    &&& m.state == State::Listening ==> m.wake_ready
}

/// Every event keeps the idle state in step with the wake word engine.
pub proof fn law_idle_state_follows_wake_engine(
    m: Machine,
    ev: HotkeyEvent,
    now: u64,
    snap: Snapshot,
)
    requires
        settled(m),
    ensures
        settled(machine::on_hotkey(m, ev, now, snap).machine),
        settled(machine::on_tick(m, now, snap)),
{
}

/// A recording is recognised exactly when it was held for at least the
/// threshold and nothing voided it.
pub proof fn law_only_long_clean_presses_are_recognised(
    m: Machine,
    r: Recording,
    ev: HotkeyEvent,
    now: u64,
    snap: Snapshot,
)
    requires
        m.state == State::Recording(r),
        m.recorder,
        snap.backend != Backend::Missing,
        is_up(ev),
    ensures
        ({
            let act = machine::on_hotkey(m, ev, now, snap).act;
            (act is FinishRealtime || act is Transcribe) <==> !r.tainted && machine::elapsed_ms(
                r.started,
                now,
            ) >= snap.threshold_ms
        }),
{
}

/// A void recording leaves the text of the bar alone and is thrown away.
pub proof fn law_void_recordings_leave_no_trace(
    m: Machine,
    r: Recording,
    ev: HotkeyEvent,
    now: u64,
    snap: Snapshot,
)
    requires
        m.state == State::Recording(r),
        m.recorder,
        r.tainted,
        is_up(ev),
    ensures
        machine::on_hotkey(m, ev, now, snap).act == Act::Discard,
        machine::on_hotkey(m, ev, now, snap).machine.bar.text == m.bar.text,
        machine::on_hotkey(m, ev, now, snap).machine.state == m.idle_state(),
{
}

/// Once void, a recording stays void until it ends.
pub proof fn law_void_stays_void(m: Machine, r: Recording, ev: HotkeyEvent, now: u64, snap: Snapshot)
    requires
        m.state == State::Recording(r),
        r.tainted,
    ensures
        machine::on_hotkey(m, ev, now, snap).machine.state matches State::Recording(next)
            ==> next.tainted,
{
}

/// A press that finds an error only dismisses it: a short one neither commits
/// nor clears the text, and no press waits after it.
pub proof fn law_short_press_on_error_only_dismisses(
    m: Machine,
    r: Recording,
    ev: HotkeyEvent,
    now: u64,
    snap: Snapshot,
)
    requires
        m.state == State::Recording(r),
        m.recorder,
        r.mode == RecordMode::Input,
        r.dismiss_only,
        !r.tainted,
        machine::elapsed_ms(r.started, now) < snap.threshold_ms,
        is_up(ev),
    ensures
        ({
            let step = machine::on_hotkey(m, ev, now, snap);
            &&& step.act == Act::Discard
            &&& step.machine.bar.text == m.bar.text
            &&& step.machine.bar.error is None
            &&& step.machine.state == m.idle_state()
        }),
{
}

/// Two short presses in time clear the bar without committing it.
pub proof fn law_double_press_clears(
    m: Machine,
    r: Recording,
    ev: HotkeyEvent,
    now: u64,
    snap: Snapshot,
)
    requires
        m.state == State::Recording(r),
        m.recorder,
        r.mode == RecordMode::Input,
        !r.dismiss_only,
        !r.tainted,
        machine::elapsed_ms(r.started, now) < snap.threshold_ms,
        r.pending_since is Some,
        machine::elapsed_ms(r.pending_since->0, now) < snap.double_press_ms,
        !text::blank(m.bar.text),
        is_up(ev),
    ensures
        ({
            let step = machine::on_hotkey(m, ev, now, snap);
            &&& step.act == Act::Discard
            &&& step.machine.bar.text.len() == 0
            &&& step.machine.state == m.idle_state()
        }),
{
}

/// The cancel key takes two presses where an error shows: the first keeps the
/// text, the second clears it.
pub proof fn law_cancel_dismisses_before_it_clears(m: Machine, now: u64, snap: Snapshot)
    ensures
        ({
            let first = machine::on_hotkey(m, HotkeyEvent::CancelDown, now, snap);
            let second = machine::on_hotkey(first.machine, HotkeyEvent::CancelDown, now, snap);
            &&& m.bar.error is Some ==> first.machine.bar.text == m.bar.text
                && first.machine.bar.error is None && second.machine.bar.text.len() == 0
            &&& m.bar.error is None ==> first.machine.bar.text.len() == 0
            &&& !(first.act is Commit) && !(second.act is Commit)
        }),
{
}

/// A press on the keyboard does not disturb a recording that the mouse began,
/// nor a press of the mouse one that the keyboard began. A release is another
/// matter: it ends a recording whichever device it comes from.
pub proof fn law_presses_do_not_disturb_the_other_device(
    m: Machine,
    r: Recording,
    ev: HotkeyEvent,
    now: u64,
    snap: Snapshot,
)
    requires
        m.state == State::Recording(r),
        r.started_by_mouse && (is_key_down(ev) || ev is OtherKeyDown) || !r.started_by_mouse
            && is_mouse_down(ev),
    ensures
        machine::on_hotkey(m, ev, now, snap) == m.stay(),
{
}

/// A recording that a wake word began goes on, whatever channel key is pressed.
pub proof fn law_wake_recordings_ignore_presses(
    m: Machine,
    r: Recording,
    ev: HotkeyEvent,
    now: u64,
    snap: Snapshot,
)
    requires
        m.state == State::Recording(r),
        r.wake,
        is_key_down(ev) || is_mouse_down(ev),
    ensures
        machine::on_hotkey(m, ev, now, snap) == m.stay(),
{
}

/// Whatever begins a recording, clears the bar or commits by double click
/// overtakes a countdown: the generation is another one.
pub proof fn law_countdowns_are_overtaken(m: Machine, ev: HotkeyEvent, now: u64, snap: Snapshot)
    requires
        machine::on_hotkey(m, ev, now, snap).act is Start || machine::on_hotkey(
            m,
            ev,
            now,
            snap,
        ).act is Commit || (ev is CancelDown && m.bar.error is None),
    ensures
        machine::on_hotkey(m, ev, now, snap).machine.generation != m.generation,
{
}

/// Text leaves the bar only to be committed, by the cancel key, by a second
/// short press in time, or when a command is about to be spoken.
pub proof fn law_text_is_not_lost(m: Machine, ev: HotkeyEvent, now: u64, snap: Snapshot)
    ensures
        ({
            let step = machine::on_hotkey(m, ev, now, snap);
            ||| step.machine.bar.text == m.bar.text
            ||| step.act == Act::Commit { text: m.bar.text, collapse: true }
            ||| ev is CancelDown && m.bar.error is None
            ||| step.act matches Act::Start(p) && p.mode == RecordMode::Command
            ||| is_up(ev) && (m.state matches State::Recording(r) && r.pending_since is Some
                && machine::elapsed_ms(r.pending_since->0, now) < snap.double_press_ms)
        }),
{
}

/// A commit that fails gives the text back; one that succeeds leaves the bar empty.
pub proof fn law_failed_commit_keeps_text(m: Machine, e: Seq<char>)
    requires
        !text::blank(m.bar.text),
    ensures
        ({
            let step = machine::on_commit(m);
            &&& step.act == Act::Commit { text: m.bar.text, collapse: false }
            &&& machine::commit_failed(step.machine, m.bar.text, e).bar.text == m.bar.text
            &&& machine::commit_failed(step.machine, m.bar.text, e).bar.error is Some
            &&& machine::commit_done(step.machine).bar.text.len() == 0
        }),
{
}

/// A bar of nothing but white space is never pasted.
pub proof fn law_blank_text_is_not_pasted(m: Machine, ev: HotkeyEvent, now: u64, snap: Snapshot)
    requires
        text::blank(m.bar.text),
    ensures
        !(machine::on_hotkey(m, ev, now, snap).act is Commit),
        !(machine::on_commit(m).act is Commit),
{
}

/// The window comes up for a press only once it has lasted for the threshold.
pub proof fn law_short_press_shows_nothing(m: Machine, r: Recording, now: u64, snap: Snapshot)
    requires
        m.state == State::Recording(r),
        machine::elapsed_ms(r.started, now) < snap.threshold_ms,
    ensures
        machine::on_tick(m, now, snap).bar == m.bar,
{
}

/// The window comes up at most once in a recording.
pub proof fn law_window_comes_up_once(m: Machine, r: Recording, now: u64, snap: Snapshot)
    requires
        m.state == State::Recording(r),
        r.bar_shown,
    ensures
        machine::on_tick(m, now, snap).bar.said.len() <= m.bar.said.len() + 2,
        forall|i: int|
            m.bar.said.len() <= i < machine::on_tick(m, now, snap).bar.said.len()
                ==> #[trigger] machine::on_tick(m, now, snap).bar.said[i] != staging::Ui::Show,
{
}

// ---------------------------------------------------------------------------
// Whole presses
// ---------------------------------------------------------------------------

/// What a key is held for: the first channel takes text, the second says how to
/// repair it, the third takes commands. Side buttons have the first two.
pub open spec fn held_for(ev: HotkeyEvent, mode: RecordMode) -> bool {
    match mode {
        RecordMode::Input => ev is TriggerDown || ev is MouseTriggerDown,
        RecordMode::Repair => ev is RepairDown || ev is MouseRepairDown,
        RecordMode::Command => ev is CommandDown,
    }
}

/// The machine while a key is held that went down at `start`.
pub open spec fn held(m: Machine, down: HotkeyEvent, start: u64, snap: Snapshot) -> Machine {
    let step = machine::on_hotkey(m, down, start, snap);
    machine::on_started(step.machine, step.act->Start_0, start)
}

/// A key that is held for the threshold or longer has what was said recognised
/// for its own channel, by the recogniser that is configured; without one the
/// recording is thrown away and the user is told.
pub proof fn law_long_presses_serve_their_channel(
    m: Machine,
    mode: RecordMode,
    down: HotkeyEvent,
    up: HotkeyEvent,
    start: u64,
    end: u64,
    snap: Snapshot,
)
    requires
        m.recorder,
        !(m.state is Recording),
        held_for(down, mode),
        is_up(up),
        end >= start + snap.threshold_ms * 1_000_000,
    ensures
        machine::on_hotkey(m, down, start, snap).act matches Act::Start(plan) && plan.mode == mode
            && plan.by_mouse == is_mouse_down(down) && plan.realtime == (snap.backend
            == Backend::Realtime) && plan.lightning == (mode == RecordMode::Command && snap.backend
            == Backend::Realtime && snap.lightning),
        ({
            let step = machine::on_hotkey(held(m, down, start, snap), up, end, snap);
            &&& snap.backend == Backend::Realtime ==> step.act == Act::FinishRealtime(mode)
            &&& snap.backend == Backend::Batch ==> step.act == Act::Transcribe(mode)
            &&& snap.backend == Backend::Missing ==> step.act == Act::Discard
                && step.machine.bar.error is Some
            &&& step.machine.bar.text == if mode == RecordMode::Command {
                Seq::empty()
            } else {
                m.bar.text
            }
            &&& step.machine.state == m.idle_state()
        }),
{
    assert((end - start) / 1_000_000 >= snap.threshold_ms) by (nonlinear_arith)
        requires
            end - start >= snap.threshold_ms * 1_000_000,
    ;
}

/// The act at the end of a long clean press carries what the recording is for.
pub proof fn law_recognition_is_for_the_recording(
    m: Machine,
    r: Recording,
    ev: HotkeyEvent,
    now: u64,
    snap: Snapshot,
)
    requires
        m.state == State::Recording(r),
        m.recorder,
        !r.tainted,
        is_up(ev),
        now >= r.started + snap.threshold_ms * 1_000_000,
    ensures
        snap.backend == Backend::Realtime ==> machine::on_hotkey(m, ev, now, snap).act
            == Act::FinishRealtime(r.mode),
        snap.backend == Backend::Batch ==> machine::on_hotkey(m, ev, now, snap).act
            == Act::Transcribe(r.mode),
{
    assert((now - r.started) / 1_000_000 >= snap.threshold_ms) by (nonlinear_arith)
        requires
            now - r.started >= snap.threshold_ms * 1_000_000,
    ;
}

/// A press shorter than the threshold is no recording: nothing is recognised.
/// One of the first channel waits, where there is text, and once the time for a
/// second press is over, and not before, the text of the bar is what is pasted.
/// One of the other channels does nothing but hide the bar.
pub proof fn law_short_presses_commit(
    m: Machine,
    mode: RecordMode,
    down: HotkeyEvent,
    up: HotkeyEvent,
    start: u64,
    end: u64,
    later: u64,
    snap: Snapshot,
)
    requires
        m.recorder,
        m.state == m.idle_state(),
        m.bar.error is None,
        !text::blank(m.bar.text),
        held_for(down, mode),
        is_up(up),
        start <= end < start + snap.threshold_ms * 1_000_000,
        end <= later,
    ensures
        ({
            let step = machine::on_hotkey(held(m, down, start, snap), up, end, snap);
            let waiting = step.machine;
            &&& step.act == Act::Discard
            &&& mode == RecordMode::Input ==> {
                &&& waiting.state == State::PendingCommit { since: end }
                &&& waiting.bar.text == m.bar.text
                &&& machine::commit_due(waiting, later, snap) <==> later - end
                    >= snap.double_press_ms * 1_000_000
                &&& machine::on_commit(waiting).act == Act::Commit {
                    text: m.bar.text,
                    collapse: false,
                }
                &&& machine::on_commit(waiting).machine.bar.text.len() == 0
            }
            &&& mode != RecordMode::Input ==> waiting.state == m.idle_state()
                && waiting.bar.said.last() == staging::Ui::Hide
            &&& mode == RecordMode::Repair ==> waiting.bar.text == m.bar.text
        }),
{
    lemma_milliseconds(end - start, snap.threshold_ms as int);
    lemma_milliseconds(later - end, snap.double_press_ms as int);
}

proof fn lemma_milliseconds(d: int, ms: int)
    requires
        d >= 0,
    ensures
        d / 1_000_000 >= ms <==> d >= ms * 1_000_000,
{
    assert(d / 1_000_000 >= ms <==> d >= ms * 1_000_000) by (nonlinear_arith)
        requires
            d >= 0,
    ;
}

/// A second short press within the time for one empties the bar instead, and
/// nothing is pasted; one that comes too late waits in its turn.
pub proof fn law_second_short_press_clears(
    m: Machine,
    since: u64,
    down: HotkeyEvent,
    up: HotkeyEvent,
    start: u64,
    end: u64,
    snap: Snapshot,
)
    requires
        m.recorder,
        m.state == (State::PendingCommit { since }),
        m.bar.error is None,
        !text::blank(m.bar.text),
        held_for(down, RecordMode::Input),
        is_up(up),
        since <= start <= end < start + snap.threshold_ms * 1_000_000,
    ensures
        ({
            let step = machine::on_hotkey(held(m, down, start, snap), up, end, snap);
            &&& step.act == Act::Discard
            &&& end - since < snap.double_press_ms * 1_000_000 ==> step.machine.bar.text.len() == 0
                && step.machine.state == m.idle_state()
            &&& end - since >= snap.double_press_ms * 1_000_000 ==> step.machine.bar.text
                == m.bar.text && step.machine.state == State::PendingCommit { since: end }
        }),
{
    lemma_milliseconds(end - start, snap.threshold_ms as int);
    lemma_milliseconds(end - since, snap.double_press_ms as int);
}

/// Another key that is struck while a channel key is held makes the press a
/// shortcut of the system: however long it is held, nothing is recognised.
pub proof fn law_other_keys_void_a_press(
    m: Machine,
    down: HotkeyEvent,
    up: HotkeyEvent,
    start: u64,
    between: u64,
    end: u64,
    snap: Snapshot,
)
    requires
        m.recorder,
        !(m.state is Recording),
        is_key_down(down),
        is_up(up),
    ensures
        ({
            let struck = machine::on_hotkey(
                held(m, down, start, snap),
                HotkeyEvent::OtherKeyDown,
                between,
                snap,
            );
            let again = machine::on_hotkey(held(m, down, start, snap), down, between, snap);
            &&& struck.act == Act::Nothing
            &&& machine::on_hotkey(struck.machine, up, end, snap).act == Act::Discard
            &&& again.act == Act::Nothing
            &&& machine::on_hotkey(again.machine, up, end, snap).act == Act::Discard
        }),
{
}

/// Without a recorder no press records anything, and the user is told.
pub proof fn law_presses_need_a_recorder(m: Machine, ev: HotkeyEvent, now: u64, snap: Snapshot)
    requires
        !m.recorder,
        !(m.state is Recording),
        is_key_down(ev) || is_mouse_down(ev),
    ensures
        machine::on_hotkey(m, ev, now, snap).act == Act::Nothing,
        machine::on_hotkey(m, ev, now, snap).machine.bar.error is Some,
        machine::on_hotkey(m, ev, now, snap).machine.bar.text == m.bar.text,
        machine::on_hotkey(m, ev, now, snap).machine.state == m.state,
        machine::on_hotkey(m, ev, now, snap).machine.generation == m.generation,
{
}

/// A press takes away the error and what was shown of the last recording; only
/// one for a command empties the bar.
pub proof fn law_presses_make_room(m: Machine, mode: RecordMode, ev: HotkeyEvent, now: u64, snap: Snapshot)
    requires
        m.recorder,
        !(m.state is Recording),
        held_for(ev, mode),
    ensures
        ({
            let bar = held(m, ev, now, snap).bar;
            &&& bar.error is None
            &&& mode == RecordMode::Command ==> bar.text.len() == 0
            &&& mode != RecordMode::Command ==> bar.text == m.bar.text
            &&& told_since(m.bar, bar, staging::Ui::Partial(Seq::empty()))
            &&& told_since(m.bar, bar, staging::Ui::RepairNote(Seq::empty()))
            &&& told_since(m.bar, bar, staging::Ui::CommandClear)
            &&& bar.said.last() == staging::Ui::Recording(true)
        }),
{
    reveal_strlit("");
    assert(""@ =~= Seq::<char>::empty());
    let n = m.bar.said.len() as int;
    let bar = held(m, ev, now, snap).bar;
    assert(bar.said[n + 1] == staging::Ui::Partial(Seq::empty()));
    assert(bar.said[n + 2] == staging::Ui::RepairNote(Seq::empty()));
    assert(bar.said[n + 3] == staging::Ui::CommandClear);
}

/// The window was told something between two states of the bar.
pub open spec fn told_since(before: staging::Bar, after: staging::Bar, e: staging::Ui) -> bool {
    exists|i: int| before.said.len() <= i < after.said.len() && #[trigger] after.said[i] == e
}

/// Once a press has lasted for the threshold, the window comes up with a badge
/// that says what is going on.
pub proof fn law_long_presses_are_seen(m: Machine, r: Recording, now: u64, snap: Snapshot)
    requires
        m.state == State::Recording(r),
        now >= r.started + snap.threshold_ms * 1_000_000,
    ensures
        ({
            let next = machine::on_tick(m, now, snap);
            &&& !r.bar_shown ==> told_since(m.bar, next.bar, staging::Ui::Show)
            &&& told_since(m.bar, next.bar, staging::Ui::Busy(true))
            &&& next.bar.said.last() == staging::Ui::Status(
                if r.mode == RecordMode::Command {
                    "指令识别中"@
                } else {
                    "识别中"@
                },
            )
            &&& next.state matches State::Recording(kept) && kept.bar_shown && kept.mode == r.mode
                && kept.started == r.started && kept.tainted == r.tainted
            &&& next.bar.text == m.bar.text && next.bar.error == m.bar.error
        }),
{
    lemma_milliseconds(now - r.started, snap.threshold_ms as int);
    let n = m.bar.said.len() as int;
    let next = machine::on_tick(m, now, snap);
    if r.bar_shown {
        assert(next.bar.said[n] == staging::Ui::Busy(true));
    } else {
        assert(next.bar.said[n] == staging::Ui::Show);
        assert(next.bar.said[n + 1] == staging::Ui::Busy(true));
    }
}

/// A double click outside a recording pastes the text that the bar holds, with
/// the word that it has selected let go of first; the bar is empty then.
pub proof fn law_double_clicks_commit(m: Machine, now: u64, snap: Snapshot)
    requires
        !(m.state is Recording),
        m.bar.error is None,
        !text::blank(m.bar.text),
    ensures
        ({
            let step = machine::on_hotkey(m, HotkeyEvent::MouseDoubleClick, now, snap);
            &&& step.act == Act::Commit { text: m.bar.text, collapse: true }
            &&& step.machine.bar.text.len() == 0
            &&& step.machine.state == m.idle_state()
        }),
{
}

/// A double click never disturbs a recording, and one on an error only takes
/// the error away.
pub proof fn law_double_clicks_are_careful(m: Machine, now: u64, snap: Snapshot)
    ensures
        ({
            let step = machine::on_hotkey(m, HotkeyEvent::MouseDoubleClick, now, snap);
            &&& m.state is Recording ==> step.machine == m && step.act == Act::Nothing
            &&& !(m.state is Recording) && m.bar.error is Some ==> step.act == Act::Nothing
                && step.machine.bar.error is None && step.machine.bar.text == m.bar.text
            &&& text::blank(m.bar.text) ==> step.act == Act::Nothing
        }),
{
}

/// Cancelling without an error throws a recording away, empties the bar and
/// takes it out of sight.
pub proof fn law_cancel_ends_everything(m: Machine, now: u64, snap: Snapshot)
    requires
        m.bar.error is None,
    ensures
        ({
            let step = machine::on_hotkey(m, HotkeyEvent::CancelDown, now, snap);
            &&& step.act == if m.state is Recording && m.recorder {
                Act::Discard
            } else {
                Act::Nothing
            }
            &&& step.machine.state == m.idle_state()
            &&& step.machine.bar.text.len() == 0
            &&& step.machine.bar.error is None
            &&& step.machine.bar.said.last() == staging::Ui::Hide
            &&& told_since(m.bar, step.machine.bar, staging::Ui::Recording(false))
            &&& told_since(m.bar, step.machine.bar, staging::Ui::Busy(false))
            &&& told_since(m.bar, step.machine.bar, staging::Ui::CommandClear)
        }),
{
    let n = m.bar.said.len() as int;
    let bar = machine::on_hotkey(m, HotkeyEvent::CancelDown, now, snap).machine.bar;
    assert(bar.said[n + 1] == staging::Ui::Recording(false));
    assert(bar.said[n + 2] == staging::Ui::Busy(false));
    assert(bar.said[n + 5] == staging::Ui::CommandClear);
}

/// A listener that fails is heard of, and nothing else changes.
pub proof fn law_listener_errors_are_shown(m: Machine, e: String, now: u64, snap: Snapshot)
    ensures
        ({
            let step = machine::on_hotkey(m, HotkeyEvent::Error(e), now, snap);
            &&& step.act == Act::Nothing
            &&& step.machine.bar.error == Some(e@)
            &&& step.machine.bar.text == m.bar.text
            &&& step.machine.state == m.state
            &&& told_since(m.bar, step.machine.bar, staging::Ui::Error(e@))
            &&& step.machine.bar.said.last() == staging::Ui::Show
        }),
{
    let n = m.bar.said.len() as int;
    let bar = machine::on_hotkey(m, HotkeyEvent::Error(e), now, snap).machine.bar;
    assert(bar.said[n] == staging::Ui::Error(e@));
}

/// Pasting that succeeded is confirmed before the bar goes out of sight; one
/// that failed says why.
pub proof fn law_commits_are_confirmed(m: Machine, t: Seq<char>, e: Seq<char>)
    ensures
        told_since(m.bar, machine::commit_done(m).bar, staging::Ui::Committed),
        machine::commit_done(m).bar.said.last() == staging::Ui::Hide,
        machine::commit_done(m).bar.text == m.bar.text,
        machine::commit_failed(m, t, e).bar.text == t,
        machine::commit_failed(m, t, e).bar.error matches Some(x)
            && search::occurs_at(x, e, x.len() - e.len()),
        machine::commit_failed(m, t, e).bar.said.last() == staging::Ui::Show,
{
    let n = m.bar.said.len() as int;
    assert(machine::commit_done(m).bar.said[n] == staging::Ui::Committed);
    let x = machine::commit_failed(m, t, e).bar.error->0;
    assert(x.subrange(x.len() - e.len(), x.len() as int) =~= e);
}

/// A short press of the first channel while an error shows takes the error away
/// and does nothing else, even where a press was waiting.
pub proof fn law_short_presses_dismiss_errors(
    m: Machine,
    down: HotkeyEvent,
    up: HotkeyEvent,
    start: u64,
    end: u64,
    snap: Snapshot,
)
    requires
        m.recorder,
        !(m.state is Recording),
        m.bar.error is Some,
        held_for(down, RecordMode::Input),
        is_up(up),
        start <= end < start + snap.threshold_ms * 1_000_000,
    ensures
        ({
            let step = machine::on_hotkey(held(m, down, start, snap), up, end, snap);
            &&& step.act == Act::Discard
            &&& step.machine.bar.error is None
            &&& step.machine.bar.text == m.bar.text
            &&& step.machine.state == m.idle_state()
            &&& text::blank(m.bar.text) ==> step.machine.bar.said.last() == staging::Ui::Hide
        }),
{
    lemma_milliseconds(end - start, snap.threshold_ms as int);
}

/// A short press with nothing in the bar takes the bar out of sight, and no
/// press waits after it.
pub proof fn law_short_presses_without_text_hide(
    m: Machine,
    mode: RecordMode,
    down: HotkeyEvent,
    up: HotkeyEvent,
    start: u64,
    end: u64,
    snap: Snapshot,
)
    requires
        m.recorder,
        !(m.state is Recording),
        m.bar.error is None,
        text::blank(m.bar.text),
        held_for(down, mode),
        is_up(up),
        start <= end < start + snap.threshold_ms * 1_000_000,
    ensures
        ({
            let step = machine::on_hotkey(held(m, down, start, snap), up, end, snap);
            &&& step.act == Act::Discard
            &&& step.machine.bar.said.last() == staging::Ui::Hide
            &&& step.machine.state == m.idle_state()
            &&& told_since(
                held(m, down, start, snap).bar,
                step.machine.bar,
                staging::Ui::Recording(false),
            )
        }),
{
    lemma_milliseconds(end - start, snap.threshold_ms as int);
    let h = held(m, down, start, snap);
    let step = machine::on_hotkey(h, up, end, snap);
    assert(step.machine.bar.said[h.bar.said.len() as int] == staging::Ui::Recording(false));
}

/// A recording that has begun is the one that was planned, from the moment that
/// it began.
pub proof fn law_recordings_begin_as_planned(m: Machine, plan: machine::StartPlan, now: u64)
    ensures
        machine::on_started(m, plan, now).state matches State::Recording(r) && {
            &&& r.started == now
            &&& r.mode == plan.mode
            &&& r.started_by_mouse == plan.by_mouse
            &&& r.lightning == plan.lightning
            &&& r.dismiss_only == plan.dismiss_only
            &&& r.pending_since == plan.pending_since
            &&& !r.tainted && !r.wake && !r.bar_shown
        },
        machine::on_started(m, plan, now).bar.text == m.bar.text,
        machine::on_started(m, plan, now).bar.error == m.bar.error,
        machine::on_started(m, plan, now).bar.said.last() == staging::Ui::Recording(true),
        machine::on_started(m, plan, now).generation == m.generation,
{
}

/// While nothing happens, a recording goes on as it is, but that a void one is
/// spotted in no longer; anything but a recording stays.
pub proof fn law_waiting_changes_little(m: Machine, now: u64, snap: Snapshot)
    ensures
        !(m.state is Recording) ==> machine::on_tick(m, now, snap) == m,
        m.state matches State::Recording(r) ==> (machine::on_tick(m, now, snap).state
            matches State::Recording(next) && next == (Recording {
            bar_shown: next.bar_shown,
            lightning: r.lightning && !r.tainted,
            ..r
        }) && (r.bar_shown ==> next.bar_shown)),
        machine::on_tick(m, now, snap).bar.text == m.bar.text,
        machine::on_tick(m, now, snap).bar.error == m.bar.error,
        machine::on_tick(m, now, snap).generation == m.generation,
{
}

/// Releases and other keys mean nothing outside a recording.
pub proof fn law_idle_keys_mean_nothing(m: Machine, ev: HotkeyEvent, now: u64, snap: Snapshot)
    requires
        !(m.state is Recording),
        is_up(ev) || ev is OtherKeyDown,
    ensures
        machine::on_hotkey(m, ev, now, snap).machine == m,
        machine::on_hotkey(m, ev, now, snap).act == Act::Nothing,
{
}

/// The end of a recording is shown, and one that was void goes out of sight
/// with badge and note; nothing that is committed without text stays in sight.
pub proof fn law_recordings_end_in_sight(
    m: Machine,
    r: Recording,
    ev: HotkeyEvent,
    now: u64,
    snap: Snapshot,
)
    requires
        m.state == State::Recording(r),
        is_up(ev),
    ensures
        told_since(
            m.bar,
            machine::on_hotkey(m, ev, now, snap).machine.bar,
            staging::Ui::Recording(false),
        ),
        m.recorder && r.tainted ==> machine::on_hotkey(m, ev, now, snap).machine.bar.said.last()
            == staging::Ui::Hide,
        !m.recorder ==> machine::on_hotkey(m, ev, now, snap).act == Act::Nothing,
        text::blank(m.bar.text) ==> machine::on_commit(m).machine.bar.said.last()
            == staging::Ui::Hide,
{
    let bar = machine::on_hotkey(m, ev, now, snap).machine.bar;
    assert(bar.said[m.bar.said.len() as int] == staging::Ui::Recording(false));
}

} // verus!
