//! What the page is answered.
use crate::json;
use crate::json::Json;
use vstd::prelude::*;

verus! {

/// A message to the page, or to the rest of the program.
pub struct Reply {
    pub event: String,
    pub body: serde_json::Value,
}

/// What a [`Reply`] stands for.
#[verifier::ext_equal]
pub struct Said {
    pub event: Seq<char>,
    pub body: Json,
}

impl View for Reply {
    type V = Said;

    open spec fn view(&self) -> Said {
        Said { event: self.event@, body: json::tree(self.body) }
    }
}

pub open spec fn said(v: Seq<Reply>) -> Seq<Said> {
    v.map_values(|r: Reply| r@)
}

pub fn reply(event: &str, body: serde_json::Value) -> (r: Reply)
    ensures
        r@ == (Said { event: event@, body: json::tree(body) }),
{
    Reply { event: event.to_string(), body }
}

pub open spec fn nothing() -> Json {
    Json::Object(Map::empty())
}

/// It worked.
pub open spec fn success() -> Json {
    Json::Object(Map::<Seq<char>, Json>::empty().insert("success"@, Json::Bool(true)))
}

/// It did not work, and why.
pub open spec fn refusal(error: Seq<char>) -> Json {
    Json::Object(
        Map::<Seq<char>, Json>::empty().insert("success"@, Json::Bool(false)).insert(
            "error"@,
            Json::Text(error),
        ),
    )
}

pub fn success_body() -> (r: serde_json::Value)
    ensures
        json::tree(r) == success(),
{
    let mut m = json::Members::new();
    m.put_flag("success", true);
    m.done()
}

pub fn refusal_body(error: &str) -> (r: serde_json::Value)
    ensures
        json::tree(r) == refusal(error@),
{
    let mut m = json::Members::new();
    m.put_flag("success", false);
    m.put_text("error", error);
    m.done()
}

/// The message that makes the program take over the file.
pub open spec fn reload() -> Said {
    Said { event: "drop-typing://runtime-reload"@, body: nothing() }
}

pub fn reload_reply() -> (r: Reply)
    ensures
        r@ == reload(),
{
    reply("drop-typing://runtime-reload", json::Members::new().done())
}

/// What was saved.
#[derive(Debug, Clone, Copy, PartialEq, Eq, Structural)]
pub enum Page {
    Prompts,
    Wakeword,
    WakewordReset,
    Audio,
    Shortcut,
    ShortcutReset,
    General,
    Command,
}

impl Page {
    /// The message that says whether saving worked.
    pub open spec fn event_name(self) -> Seq<char> {
        match self {
            Page::Prompts => "drop-typing://config-saved"@,
            Page::Wakeword => "drop-typing://wakeword-saved"@,
            Page::WakewordReset => "drop-typing://wakeword-reset"@,
            Page::Audio => "drop-typing://audio-config-saved"@,
            Page::Shortcut => "drop-typing://shortcut-saved"@,
            Page::ShortcutReset => "drop-typing://shortcut-reset"@,
            Page::General => "drop-typing://config-saved"@,
            Page::Command => "drop-typing://command-config-saved"@,
        }
    }

    /// What is saved is taken over at once. Prompts are read anew each time,
    /// and shortcuts wait for the next start.
    pub open spec fn reloads(self) -> bool {
        self != Page::Prompts && self != Page::Shortcut && self != Page::ShortcutReset
    }

    fn event(self) -> (r: &'static str)
        ensures
            r@ == self.event_name(),
    {
        match self {
            Page::Prompts => "drop-typing://config-saved",
            Page::Wakeword => "drop-typing://wakeword-saved",
            Page::WakewordReset => "drop-typing://wakeword-reset",
            Page::Audio => "drop-typing://audio-config-saved",
            Page::Shortcut => "drop-typing://shortcut-saved",
            Page::ShortcutReset => "drop-typing://shortcut-reset",
            Page::General => "drop-typing://config-saved",
            Page::Command => "drop-typing://command-config-saved",
        }
    }
}

/// What is answered after saving.
pub open spec fn save_answer(page: Page, result: Result<(), Seq<char>>) -> Seq<Said> {
    match result {
        Ok(_) => {
            let done = seq![Said { event: page.event_name(), body: success() }];
            if page.reloads() {
                done.push(reload())
            } else {
                done
            }
        },
        Err(e) => seq![Said { event: page.event_name(), body: refusal(e) }],
    }
}

pub open spec fn outcome(r: Result<(), String>) -> Result<(), Seq<char>> {
    match r {
        Ok(_) => Ok(()),
        Err(e) => Err(e@),
    }
}

/// Answers after saving, or where there was nothing that could be saved.
pub fn saved(page: Page, result: Result<(), String>) -> (r: Vec<Reply>)
    ensures
        said(r@) == save_answer(page, outcome(result)),
{
    let mut out: Vec<Reply> = Vec::new();
    match result {
        Ok(_) => {
            out.push(reply(page.event(), success_body()));
            assert(said(out@) =~= seq![Said { event: page.event_name(), body: success() }]);
            let reloads = match page {
                Page::Prompts | Page::Shortcut | Page::ShortcutReset => false,
                _ => true,
            };
            if reloads {
                let ghost done = said(out@);
                out.push(reload_reply());
                assert(said(out@) =~= done.push(reload()));
            }
        },
        Err(e) => {
            out.push(reply(page.event(), refusal_body(&e)));
            assert(said(out@) =~= seq![Said { event: page.event_name(), body: refusal(e@) }]);
        },
    }
    out
}

/// What could not be saved is never taken over.
pub proof fn law_nothing_reloads_unless_saved(page: Page, error: Seq<char>)
    ensures
        !save_answer(page, Err(error)).contains(reload()),
        save_answer(page, Err(error)).len() == 1,
        save_answer(page, Err(error))[0].body == refusal(error),
{
    let a = save_answer(page, Err(error))[0];
    assert(a.body.member("success"@) == Some(Json::Bool(false))) by {
        reveal_strlit("success");
        reveal_strlit("error");
        assert("success"@.len() != "error"@.len());
    }
    assert(reload().body.member("success"@) is None);
}

/// What was saved is answered with a success, on the page's own channel, and
/// taken over at once unless it needs no taking over or waits for the next start.
pub proof fn law_saving_is_confirmed(page: Page, error: Seq<char>)
    ensures
        save_answer(page, Ok(()))[0].event == page.event_name(),
        save_answer(page, Ok(()))[0].body.member("success"@) == Some(Json::Bool(true)),
        save_answer(page, Ok(())).contains(reload()) <==> page != Page::Prompts && page
            != Page::Shortcut && page != Page::ShortcutReset,
        save_answer(page, Err(error))[0].event == page.event_name(),
        save_answer(page, Err(error))[0].body.member("success"@) == Some(Json::Bool(false)),
        save_answer(page, Err(error))[0].body.member("error"@) == Some(Json::Text(error)),
{
    reveal_strlit("success");
    reveal_strlit("error");
    assert("success"@.len() == 7);
    assert("error"@.len() == 5);
    let a = save_answer(page, Ok(()));
    assert(a[0].body.member("success"@) is Some);
    assert(reload().body.member("success"@) is None);
    assert(a[0] != reload());
    if page.reloads() {
        assert(a[1] == reload());
    }
}

} // verus!
