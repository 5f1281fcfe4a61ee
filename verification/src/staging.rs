//! The staging bar: the text that waits to be committed.
//!
//! The text is kept here and nowhere else. What the window is to show is
//! queued as a list of events, in order, and handed out by [`Staging::drain`].
use crate::command::combo;
use vstd::prelude::*;

verus! {

/// What found a command: the spotter while it was spoken, or the recognised text.
#[derive(Debug, Clone, Copy, PartialEq, Eq, Structural)]
pub enum CommandEngine {
    Lightning,
    Text,
}

/// Something for the window to show.
#[derive(Debug, PartialEq, Eq)]
pub enum UiEvent {
    /// The text of the bar.
    Text(String),
    /// The badge; empty hides it.
    Status(String),
    /// What recognition has understood so far; empty clears it.
    Partial(String),
    /// How the text is to be repaired, apart from it; empty hides it.
    RepairNote(String),
    Recording(bool),
    Busy(bool),
    Error(String),
    /// A command about to be run, and the seconds left until then.
    Command(String, u64, CommandEngine),
    CommandTick(u64),
    CommandClear,
    Committed,
    /// Bring the window up, unless it is.
    Show,
    Hide,
}

/// What a [`UiEvent`] stands for.
#[verifier::ext_equal]
pub enum Ui {
    Text(Seq<char>),
    Status(Seq<char>),
    Partial(Seq<char>),
    RepairNote(Seq<char>),
    Recording(bool),
    Busy(bool),
    Error(Seq<char>),
    Command(Seq<char>, u64, CommandEngine),
    CommandTick(u64),
    CommandClear,
    Committed,
    Show,
    Hide,
}

impl View for UiEvent {
    type V = Ui;

    open spec fn view(&self) -> Ui {
        match self {
            UiEvent::Text(s) => Ui::Text(s@),
            UiEvent::Status(s) => Ui::Status(s@),
            UiEvent::Partial(s) => Ui::Partial(s@),
            UiEvent::RepairNote(s) => Ui::RepairNote(s@),
            UiEvent::Recording(b) => Ui::Recording(*b),
            UiEvent::Busy(b) => Ui::Busy(*b),
            UiEvent::Error(s) => Ui::Error(s@),
            UiEvent::Command(s, n, e) => Ui::Command(s@, *n, *e),
            UiEvent::CommandTick(n) => Ui::CommandTick(*n),
            UiEvent::CommandClear => Ui::CommandClear,
            UiEvent::Committed => Ui::Committed,
            UiEvent::Show => Ui::Show,
            UiEvent::Hide => Ui::Hide,
        }
    }
}

pub open spec fn uis(v: Seq<UiEvent>) -> Seq<Ui> {
    v.map_values(|e: UiEvent| e@)
}

/// The bar: its text, the error it shows, and what the window has still to be told.
#[derive(Debug)]
pub struct Staging {
    pub text: String,
    pub last_error: Option<String>,
    pub outbox: Vec<UiEvent>,
}

/// What a [`Staging`] stands for.
#[verifier::ext_equal]
pub struct Bar {
    pub text: Seq<char>,
    pub error: Option<Seq<char>>,
    pub said: Seq<Ui>,
}

impl View for Staging {
    type V = Bar;

    open spec fn view(&self) -> Bar {
        Bar { text: self.text@, error: combo::opt_text(self.last_error), said: uis(self.outbox@) }
    }
}

impl Bar {
    pub open spec fn say(self, e: Ui) -> Bar {
        Bar { said: self.said.push(e), ..self }
    }

    pub open spec fn with_text(self, text: Seq<char>) -> Bar {
        Bar { text, ..self }.say(Ui::Text(text))
    }

    pub open spec fn taken(self) -> Bar {
        self.with_text(Seq::empty())
    }

    pub open spec fn without_error(self) -> Bar {
        Bar { error: None, ..self }
    }

    pub open spec fn error_cleared(self) -> Bar {
        self.without_error().say(Ui::Text(self.text))
    }

    pub open spec fn appended(self, segment: Seq<char>) -> Bar {
        self.without_error().with_text(self.text + segment)
    }

    pub open spec fn replaced(self, text: Seq<char>) -> Bar {
        self.without_error().with_text(text)
    }

    /// An error is always seen: the window comes up for it.
    pub open spec fn failed(self, message: Seq<char>) -> Bar {
        Bar { error: Some(message), ..self }.say(Ui::Error(message)).say(Ui::Show)
    }

    pub open spec fn status(self, s: Seq<char>) -> Bar {
        self.say(Ui::Status(s))
    }

    pub open spec fn busy(self, b: bool) -> Bar {
        self.say(Ui::Busy(b))
    }

    pub open spec fn recording(self, b: bool) -> Bar {
        self.say(Ui::Recording(b))
    }

    pub open spec fn note(self, s: Seq<char>) -> Bar {
        self.say(Ui::RepairNote(s))
    }

    /// Text and error gone, and everything that the window shows besides.
    pub open spec fn emptied(self) -> Bar {
        self.without_error().with_text(Seq::empty()).status(""@).say(Ui::Partial(""@)).busy(
            false,
        ).recording(false).note(""@).say(Ui::CommandClear)
    }

    /// What the window is told anew when it has just loaded.
    pub open spec fn republished(self) -> Bar {
        let b = self.say(Ui::Text(self.text));
        match self.error {
            Some(e) => b.say(Ui::Error(e)),
            None => b,
        }
    }
}

impl Staging {
    pub fn new() -> (r: Self)
        ensures
            r@ == (Bar { text: Seq::empty(), error: None, said: Seq::empty() }),
    {
        let r = Staging { text: String::new(), last_error: None, outbox: Vec::new() };
        assert(r@ =~= Bar { text: Seq::empty(), error: None, said: Seq::empty() });
        r
    }

    /// Hands out what the window has still to be told.
    pub fn drain(&mut self) -> (r: Vec<UiEvent>)
        ensures
            uis(r@) == old(self)@.said,
            final(self)@ == (Bar { said: Seq::empty(), ..old(self)@ }),
    {
        let mut out: Vec<UiEvent> = Vec::new();
        std::mem::swap(&mut out, &mut self.outbox);
        assert(self@ =~= Bar { said: Seq::empty(), ..old(self)@ });
        out
    }

    fn emit(&mut self, e: UiEvent)
        ensures
            final(self)@ == old(self)@.say(e@),
    {
        self.outbox.push(e);
        assert(self@ =~= old(self)@.say(e@));
    }

    fn emit_text(&mut self)
        ensures
            final(self)@ == old(self)@.say(Ui::Text(old(self)@.text)),
    {
        let t = self.text.clone();
        self.emit(UiEvent::Text(t));
    }

    pub fn show(&mut self)
        ensures
            final(self)@ == old(self)@.say(Ui::Show),
    {
        self.emit(UiEvent::Show);
    }

    pub fn hide_window(&mut self)
        ensures
            final(self)@ == old(self)@.say(Ui::Hide),
    {
        self.emit(UiEvent::Hide);
    }

    /// The clear button: everything goes, the window stays.
    pub fn clear(&mut self)
        ensures
            final(self)@ == old(self)@.emptied(),
    {
        self.text = String::new();
        self.last_error = None;
        assert(self@ =~= Bar { text: Seq::empty(), error: None, ..old(self)@ });
        self.emit_text();
        self.set_status("");
        self.partial("");
        self.set_busy(false);
        self.set_recording(false);
        self.set_repair_note("");
        self.clear_command();
    }

    /// The close button: everything goes; the window hides itself.
    pub fn dismiss(&mut self)
        ensures
            final(self)@ == old(self)@.emptied(),
    {
        self.clear();
    }

    /// Tells a window that has just loaded what it may have missed.
    pub fn republish(&mut self)
        ensures
            final(self)@ == old(self)@.republished(),
    {
        self.emit_text();
        let message = combo::clone_opt(&self.last_error);
        if let Some(e) = message {
            self.emit(UiEvent::Error(e));
        }
    }

    /// Appends what was recognised; success clears an error.
    pub fn append(&mut self, segment: &str)
        ensures
            final(self)@ == old(self)@.appended(segment@),
    {
        self.text.append(segment);
        self.last_error = None;
        self.emit_text();
    }

    pub fn text(&self) -> (r: String)
        ensures
            r@ == self@.text,
    {
        self.text.clone()
    }

    /// Takes the text out of the bar.
    pub fn take(&mut self) -> (r: String)
        ensures
            r@ == old(self)@.text,
            final(self)@ == old(self)@.taken(),
    {
        let mut t = String::new();
        std::mem::swap(&mut t, &mut self.text);
        assert(self.text@ =~= Seq::<char>::empty());
        self.emit_text();
        t
    }

    pub fn set_text(&mut self, text: &str)
        ensures
            final(self)@ == old(self)@.with_text(text@),
    {
        self.text = text.to_string();
        self.emit_text();
    }

    /// Puts a repaired text in place of the old one.
    pub fn replace(&mut self, text: &str)
        ensures
            final(self)@ == old(self)@.replaced(text@),
    {
        self.text = text.to_string();
        self.last_error = None;
        self.emit_text();
    }

    pub fn set_repair_note(&mut self, text: &str)
        ensures
            final(self)@ == old(self)@.note(text@),
    {
        self.emit(UiEvent::RepairNote(text.to_string()));
    }

    /// Shows a command, and the seconds until it is run.
    pub fn show_command(&mut self, display: &str, seconds: u64, engine: CommandEngine)
        ensures
            final(self)@ == old(self)@.say(Ui::Command(display@, seconds, engine)),
    {
        self.emit(UiEvent::Command(display.to_string(), seconds, engine));
    }

    pub fn command_tick(&mut self, seconds: u64)
        ensures
            final(self)@ == old(self)@.say(Ui::CommandTick(seconds)),
    {
        self.emit(UiEvent::CommandTick(seconds));
    }

    pub fn clear_command(&mut self)
        ensures
            final(self)@ == old(self)@.say(Ui::CommandClear),
    {
        self.emit(UiEvent::CommandClear);
    }

    pub fn set_recording(&mut self, recording: bool)
        ensures
            final(self)@ == old(self)@.recording(recording),
    {
        self.emit(UiEvent::Recording(recording));
    }

    pub fn set_busy(&mut self, busy: bool)
        ensures
            final(self)@ == old(self)@.busy(busy),
    {
        self.emit(UiEvent::Busy(busy));
    }

    pub fn set_status(&mut self, status: &str)
        ensures
            final(self)@ == old(self)@.status(status@),
    {
        self.emit(UiEvent::Status(status.to_string()));
    }

    pub fn partial(&mut self, text: &str)
        ensures
            final(self)@ == old(self)@.say(Ui::Partial(text@)),
    {
        self.emit(UiEvent::Partial(text.to_string()));
    }

    pub fn has_error(&self) -> (r: bool)
        ensures
            r == self@.error is Some,
    {
        self.last_error.is_some()
    }

    pub fn clear_error(&mut self)
        ensures
            final(self)@ == old(self)@.error_cleared(),
    {
        self.last_error = None;
        self.emit_text();
    }

    pub fn error(&mut self, message: &str)
        ensures
            final(self)@ == old(self)@.failed(message@),
    {
        self.last_error = Some(message.to_string());
        self.emit(UiEvent::Error(message.to_string()));
        self.show();
    }

    pub fn committed(&mut self)
        ensures
            final(self)@ == old(self)@.say(Ui::Committed),
    {
        self.emit(UiEvent::Committed);
    }
}

/// Taking the text and setting it back changes nothing but what the window is
/// told: a commit that fails loses no text.
pub proof fn law_taken_text_can_be_put_back(bar: Bar)
    ensures
        bar.taken().with_text(bar.text).text == bar.text,
        bar.taken().with_text(bar.text).error == bar.error,
        bar.taken().text.len() == 0,
{
}

/// Segments come in the order in which they were appended.
pub proof fn law_segments_follow_each_other(bar: Bar, a: Seq<char>, b: Seq<char>)
    ensures
        bar.appended(a).appended(b).text == bar.appended(a + b).text,
        bar.appended(a).appended(b).text == bar.text + a + b,
{
    assert(bar.text + a + b =~= bar.text + (a + b));
}

/// The window is told the text in the end, whatever was done to it.
pub proof fn law_window_follows_text(bar: Bar, s: Seq<char>)
    ensures
        bar.appended(s).said.last() == Ui::Text(bar.appended(s).text),
        bar.replaced(s).said.last() == Ui::Text(bar.replaced(s).text),
        bar.with_text(s).said.last() == Ui::Text(bar.with_text(s).text),
        bar.taken().said.last() == Ui::Text(bar.taken().text),
        bar.error_cleared().said.last() == Ui::Text(bar.error_cleared().text),
{
}

/// An error is shown until something takes it away, whatever it says: text that
/// is appended or put in place of the old one does, and so does clearing it. The
/// text is never touched by an error that comes or goes.
pub proof fn law_errors_come_and_go(bar: Bar, message: Seq<char>, t: Seq<char>)
    ensures
        bar.failed(message).error == Some(message),
        bar.failed(message).text == bar.text,
        bar.failed(message).said == bar.said.push(Ui::Error(message)).push(Ui::Show),
        bar.failed(message).error_cleared().error is None,
        bar.failed(message).error_cleared().text == bar.text,
        bar.failed(message).appended(t).error is None,
        bar.failed(message).replaced(t).error is None,
        bar.failed(message).emptied().error is None,
        bar.failed(message).emptied().text.len() == 0,
{
}

/// What was appended stands behind what was there; what replaces it stands alone.
pub proof fn law_text_goes_to_the_end_or_stands_alone(bar: Bar, a: Seq<char>, b: Seq<char>)
    ensures
        bar.replaced(a).text == a,
        bar.replaced(a).appended(b).text == a + b,
        bar.appended(a).text.take(bar.text.len() as int) == bar.text,
        bar.appended(a).text.skip(bar.text.len() as int) == a,
        bar.taken().appended(a).text == a,
        bar.appended(a).said.last() == Ui::Text(bar.text + a),
        bar.replaced(a).said.last() == Ui::Text(a),
        bar.taken().said.last() == Ui::Text(Seq::empty()),
{
    assert(bar.appended(a).text.take(bar.text.len() as int) =~= bar.text);
    assert(bar.appended(a).text.skip(bar.text.len() as int) =~= a);
    assert(bar.taken().appended(a).text =~= a);
}

/// Badges, notes and marks are for the window alone: text and error stay.
pub proof fn law_marks_are_for_the_window_alone(bar: Bar, s: Seq<char>, b: bool)
    ensures
        bar.status(s).text == bar.text && bar.status(s).error == bar.error,
        bar.note(s).text == bar.text && bar.note(s).error == bar.error,
        bar.busy(b).text == bar.text && bar.busy(b).error == bar.error,
        bar.recording(b).text == bar.text && bar.recording(b).error == bar.error,
        bar.status(s).said.last() == Ui::Status(s),
        bar.note(s).said.last() == Ui::RepairNote(s),
        bar.busy(b).said.last() == Ui::Busy(b),
        bar.recording(b).said.last() == Ui::Recording(b),
{
}

/// A window that has just loaded is told the text and the error as they are.
pub proof fn law_a_fresh_window_learns_everything(bar: Bar)
    ensures
        bar.republished().text == bar.text,
        bar.republished().error == bar.error,
        bar.republished().said[bar.said.len() as int] == Ui::Text(bar.text),
        bar.error is Some ==> bar.republished().said.last() == Ui::Error(bar.error->0),
        bar.error is None ==> bar.republished().said.len() == bar.said.len() + 1,
{
}

} // verus!
