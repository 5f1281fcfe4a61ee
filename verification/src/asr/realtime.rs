//! DashScope's recognition while the recording goes on, over a WebSocket.
//!
//! The client asks for a task, streams the recording, and marks its end. The
//! server says when the task has started, sends what it has understood
//! sentence by sentence, and says when the task has finished or failed.
use crate::asr::bailian::BailianAsr;
use crate::command::combo;
use crate::config::Config;
use crate::json;
use crate::json::Members;
use crate::search;
use crate::search::concat;
use crate::text;
use vstd::prelude::*;

verus! {

pub const DEFAULT_WS_URL: &'static str = "wss://dashscope.aliyuncs.com/api-ws/v1/inference";

/// The first occurrence of `p` replaced by `r`, where `s` begins with it.
pub open spec fn prefix_replaced(s: Seq<char>, p: Seq<char>, r: Seq<char>) -> Seq<char> {
    if search::has_prefix(s, p) {
        r + s.skip(p.len() as int)
    } else {
        s
    }
}

/// Where the service is reached: the address that is configured, as a
/// WebSocket, at the path for streaming; the public one where none is configured.
pub open spec fn ws_url(base_url: Option<Seq<char>>) -> Seq<char> {
    match base_url {
        Some(b) if !text::blank(b) => {
            let u = prefix_replaced(text::trimmed(b), "http"@, "ws"@);
            let v = if search::has_text(u, "/compatible-mode/"@) {
                search::replaced(u, "/compatible-mode/v1"@, "/api-ws/v1/inference"@)
            } else {
                u
            };
            search::trim_end_char(v, '/')
        },
        _ => "wss://dashscope.aliyuncs.com/api-ws/v1/inference"@,
    }
}

pub fn derive_ws_url(base_url: Option<&str>) -> (r: String)
    ensures
        r@ == ws_url(
            match base_url {
                Some(b) => Some(b@),
                None => None,
            },
        ),
{
    let b = match base_url {
        Some(b) => b,
        None => return DEFAULT_WS_URL.to_string(),
    };
    if text::is_blank(b) {
        return DEFAULT_WS_URL.to_string();
    }
    let t = text::trim(b);
    let u = if search::starts_with(&t, "http") {
        proof {
            reveal_strlit("http");
        }
        let cs = text::chars_of(&t);
        let rest = text::string_of_range(&cs, 4, cs.len());
        assert(rest@ =~= t@.skip(4));
        concat("ws", &rest)
    } else {
        t
    };
    let v = if search::contains(&u, "/compatible-mode/") {
        proof {
            reveal_strlit("/compatible-mode/v1");
        }
        search::replace(&u, "/compatible-mode/v1", "/api-ws/v1/inference")
    } else {
        u
    };
    search::trim_end_matches(&v, '/')
}

// ---------------------------------------------------------------------------
// Which service
// ---------------------------------------------------------------------------

/// The service for recognition while recording.
#[derive(Debug)]
pub struct BailianRealtimeAsr {
    pub api_key: String,
    pub model: String,
    pub ws_url: String,
}

impl BailianRealtimeAsr {
    pub fn new(api_key: String, model: String, base_url: Option<&str>) -> (r: Self)
        ensures
            r.api_key == api_key,
            r.model == model,
            r.ws_url@ == ws_url(
                match base_url {
                    Some(b) => Some(b@),
                    None => None,
                },
            ),
    {
        BailianRealtimeAsr { api_key, model, ws_url: derive_ws_url(base_url) }
    }
}

/// The service that is configured.
#[derive(Debug)]
pub enum AsrBackend {
    Realtime(BailianRealtimeAsr),
    Batch(BailianAsr),
}

/// What an [`AsrBackend`] stands for.
#[verifier::ext_equal]
pub enum Service {
    Realtime { api_key: Seq<char>, model: Seq<char>, ws_url: Seq<char> },
    Batch { api_key: Seq<char>, model: Seq<char> },
}

impl View for AsrBackend {
    type V = Service;

    open spec fn view(&self) -> Service {
        match self {
            AsrBackend::Realtime(p) => Service::Realtime {
                api_key: p.api_key@,
                model: p.model@,
                ws_url: p.ws_url@,
            },
            AsrBackend::Batch(p) => Service::Batch { api_key: p.api_key@, model: p.model@ },
        }
    }
}

/// The service that a configuration asks for: none without a key, none for a
/// protocol that is not known.
pub open spec fn service_for(cfg: Config) -> Option<Service> {
    match cfg.recognition_key() {
        None => None,
        Some(api_key) => if cfg.recognition_protocol() == "dashscope-realtime"@ {
            Some(
                Service::Realtime {
                    api_key,
                    model: cfg.recognition_model(),
                    ws_url: ws_url(combo::opt_text(cfg.asr.base_url)),
                },
            )
        } else if cfg.recognition_protocol() == "dashscope-http"@ {
            Some(Service::Batch { api_key, model: cfg.recognition_model() })
        } else {
            None
        },
    }
}

pub fn backend_from_config(cfg: &Config) -> (r: Option<AsrBackend>)
    ensures
        match service_for(*cfg) {
            Some(s) => r is Some && r->0@ == s,
            None => r is None,
        },
{
    let key = match cfg.asr_api_key() {
        Some(k) => k,
        None => return None,
    };
    let protocol = cfg.asr_protocol();
    if text::same(&protocol, "dashscope-realtime") {
        let base: Option<&str> = match &cfg.asr.base_url {
            Some(u) => Some(u.as_str()),
            None => None,
        };
        Some(AsrBackend::Realtime(BailianRealtimeAsr::new(key, cfg.asr_model_name(), base)))
    } else if text::same(&protocol, "dashscope-http") {
        Some(AsrBackend::Batch(BailianAsr::new(key, cfg.asr_model_name())))
    } else {
        None
    }
}

// ---------------------------------------------------------------------------
// What the client says
// ---------------------------------------------------------------------------

pub open spec fn task_header(action: Seq<char>, task_id: Seq<char>) -> json::Json {
    json::Json::Object(
        Map::<Seq<char>, json::Json>::empty().insert("action"@, json::Json::Text(action)).insert(
            "task_id"@,
            json::Json::Text(task_id),
        ).insert("streaming"@, json::Json::Text("duplex"@)),
    )
}

pub open spec fn nothing() -> json::Json {
    json::Json::Object(Map::empty())
}

/// Asks for a task: raw samples, sixteen thousand a second.
pub open spec fn run_task(task_id: Seq<char>, model: Seq<char>) -> json::Json {
    let none = Map::<Seq<char>, json::Json>::empty();
    let parameters = none.insert("sample_rate"@, json::number(16000)).insert(
        "format"@,
        json::Json::Text("pcm"@),
    );
    let payload = none.insert("task_group"@, json::Json::Text("audio"@)).insert(
        "task"@,
        json::Json::Text("asr"@),
    ).insert("function"@, json::Json::Text("recognition"@)).insert(
        "model"@,
        json::Json::Text(model),
    ).insert("parameters"@, json::Json::Object(parameters)).insert("input"@, nothing());
    json::Json::Object(
        none.insert("header"@, task_header("run-task"@, task_id)).insert(
            "payload"@,
            json::Json::Object(payload),
        ),
    )
}

/// Marks the end of the recording.
pub open spec fn finish_task(task_id: Seq<char>) -> json::Json {
    let none = Map::<Seq<char>, json::Json>::empty();
    json::Json::Object(
        none.insert("header"@, task_header("finish-task"@, task_id)).insert(
            "payload"@,
            json::Json::Object(none.insert("input"@, nothing())),
        ),
    )
}

fn header(action: &str, task_id: &str) -> (r: serde_json::Value)
    ensures
        json::tree(r) == task_header(action@, task_id@),
{
    let mut h = Members::new();
    h.put_text("action", action);
    h.put_text("task_id", task_id);
    h.put_text("streaming", "duplex");
    h.done()
}

/// The message that asks for a task, as a tree.
pub fn run_task_value(task_id: &str, model: &str) -> (r: serde_json::Value)
    ensures
        json::tree(r) == run_task(task_id@, model@),
{
    let mut parameters = Members::new();
    parameters.put_number("sample_rate", 16000);
    parameters.put_text("format", "pcm");
    let mut payload = Members::new();
    payload.put_text("task_group", "audio");
    payload.put_text("task", "asr");
    payload.put_text("function", "recognition");
    payload.put_text("model", model);
    payload.put("parameters", parameters.done());
    payload.put("input", Members::new().done());
    let mut m = Members::new();
    m.put("header", header("run-task", task_id));
    m.put("payload", payload.done());
    m.done()
}

/// The message that asks for a task.
pub fn run_task_message(task_id: &str, model: &str) -> (r: String)
    ensures
        r@ == json::written(run_task(task_id@, model@)),
{
    json::write(&run_task_value(task_id, model))
}

/// The message that marks the end of the recording, as a tree.
pub fn finish_task_value(task_id: &str) -> (r: serde_json::Value)
    ensures
        json::tree(r) == finish_task(task_id@),
{
    let mut payload = Members::new();
    payload.put("input", Members::new().done());
    let mut m = Members::new();
    m.put("header", header("finish-task", task_id));
    m.put("payload", payload.done());
    m.done()
}

/// The message that marks the end of the recording.
pub fn finish_task_message(task_id: &str) -> (r: String)
    ensures
        r@ == json::written(finish_task(task_id@)),
{
    json::write(&finish_task_value(task_id))
}

// ---------------------------------------------------------------------------
// What the server says
// ---------------------------------------------------------------------------

/// A message of the server, as far as it is looked at.
#[derive(Debug)]
pub enum ServerEvent {
    Started,
    Result { text: String, sentence_end: bool },
    Finished,
    Failed(String),
    /// Anything else.
    Other,
}

/// What a [`ServerEvent`] stands for.
#[verifier::ext_equal]
pub enum Said {
    Started,
    Result { text: Seq<char>, sentence_end: bool },
    Finished,
    Failed(Seq<char>),
    Other,
}

impl View for ServerEvent {
    type V = Said;

    open spec fn view(&self) -> Said {
        match self {
            ServerEvent::Started => Said::Started,
            ServerEvent::Result { text, sentence_end } => Said::Result {
                text: text@,
                sentence_end: *sentence_end,
            },
            ServerEvent::Finished => Said::Finished,
            ServerEvent::Failed(e) => Said::Failed(e@),
            ServerEvent::Other => Said::Other,
        }
    }
}

/// The text of a member of a member.
pub open spec fn text_at(t: json::Json, a: Seq<char>, b: Seq<char>) -> Option<Seq<char>> {
    match t.member(a) {
        Some(m) => json::text_member(m, b),
        None => None,
    }
}

/// The sentence of a result: `payload.output.sentence`.
pub open spec fn sentence(t: json::Json) -> Option<json::Json> {
    match t.member("payload"@) {
        None => None,
        Some(payload) => match payload.member("output"@) {
            None => None,
            Some(output) => output.member("sentence"@),
        },
    }
}

/// What a message means.
pub open spec fn server_event(t: json::Json) -> Said {
    let event = match text_at(t, "header"@, "event"@) {
        Some(e) => e,
        None => ""@,
    };
    if event == "task-started"@ {
        Said::Started
    } else if event == "result-generated"@ {
        Said::Result {
            text: match sentence(t) {
                Some(s) => match json::text_member(s, "text"@) {
                    Some(x) => x,
                    None => ""@,
                },
                None => ""@,
            },
            sentence_end: match sentence(t) {
                Some(s) => match s.member("sentence_end"@) {
                    Some(b) => b.as_flag() == Some(true),
                    None => false,
                },
                None => false,
            },
        }
    } else if event == "task-finished"@ {
        Said::Finished
    } else if event == "task-failed"@ {
        Said::Failed(
            match text_at(t, "header"@, "error_message"@) {
                Some(e) => e,
                None => "未知错误"@,
            },
        )
    } else {
        Said::Other
    }
}

fn get_text_at(v: &serde_json::Value, a: &str, b: &str) -> (r: Option<String>)
    ensures
        combo::opt_text(r) == text_at(json::tree(*v), a@, b@),
{
    match json::get(v, a) {
        Some(m) => json::get_text(m, b),
        None => None,
    }
}

fn find_sentence(v: &serde_json::Value) -> (r: Option<&serde_json::Value>)
    ensures
        match sentence(json::tree(*v)) {
            Some(s) => r is Some && json::tree(*r->0) == s,
            None => r is None,
        },
{
    match json::get(v, "payload") {
        Some(payload) => match json::get(payload, "output") {
            Some(output) => json::get(output, "sentence"),
            None => None,
        },
        None => None,
    }
}

/// What a message means.
pub fn interpret(v: &serde_json::Value) -> (r: ServerEvent)
    ensures
        r@ == server_event(json::tree(*v)),
{
    let event = match get_text_at(v, "header", "event") {
        Some(e) => e,
        None => "".to_string(),
    };
    if text::same(&event, "task-started") {
        ServerEvent::Started
    } else if text::same(&event, "result-generated") {
        match find_sentence(v) {
            Some(s) => {
                let text = match json::get_text(s, "text") {
                    Some(t) => t,
                    None => "".to_string(),
                };
                let sentence_end = match json::get(s, "sentence_end") {
                    Some(b) => match json::flag(b) {
                        Some(x) => x,
                        None => false,
                    },
                    None => false,
                };
                ServerEvent::Result { text, sentence_end }
            },
            None => ServerEvent::Result { text: "".to_string(), sentence_end: false },
        }
    } else if text::same(&event, "task-finished") {
        ServerEvent::Finished
    } else if text::same(&event, "task-failed") {
        match get_text_at(v, "header", "error_message") {
            Some(e) => ServerEvent::Failed(e),
            None => ServerEvent::Failed("未知错误".to_string()),
        }
    } else {
        ServerEvent::Other
    }
}

// ---------------------------------------------------------------------------
// The session
// ---------------------------------------------------------------------------

/// A session under way: the sentences that are final, the one that is not yet,
/// and whether the task has started.
#[derive(Debug)]
pub struct Transcript {
    pub committed: String,
    pub current: String,
    pub ready: bool,
}

/// What a [`Transcript`] stands for.
#[verifier::ext_equal]
pub struct Understood {
    pub committed: Seq<char>,
    pub current: Seq<char>,
    pub ready: bool,
}

impl View for Transcript {
    type V = Understood;

    open spec fn view(&self) -> Understood {
        Understood { committed: self.committed@, current: self.current@, ready: self.ready }
    }
}

/// What is to be told to whom.
#[derive(Debug)]
pub enum SessionNews {
    Nothing,
    /// The session can be fed.
    Ready,
    /// What has been understood so far.
    Partial(String),
    /// The whole text; the session is over.
    Final(String),
    /// The session never came to be, and is over.
    NotReady(String),
    /// The session broke off, and is over.
    Broken(String),
}

/// What [`SessionNews`] stand for.
#[verifier::ext_equal]
pub enum News {
    Nothing,
    Ready,
    Partial(Seq<char>),
    Final(Seq<char>),
    NotReady(Seq<char>),
    Broken(Seq<char>),
}

impl View for SessionNews {
    type V = News;

    open spec fn view(&self) -> News {
        match self {
            SessionNews::Nothing => News::Nothing,
            SessionNews::Ready => News::Ready,
            SessionNews::Partial(s) => News::Partial(s@),
            SessionNews::Final(s) => News::Final(s@),
            SessionNews::NotReady(s) => News::NotReady(s@),
            SessionNews::Broken(s) => News::Broken(s@),
        }
    }
}

/// A failure goes to whoever waits: for the session, or for its result.
pub open spec fn failure(u: Understood, message: Seq<char>) -> News {
    if u.ready {
        News::Broken(message)
    } else {
        News::NotReady(message)
    }
}

pub open spec fn after_event(u: Understood, e: Said) -> Understood {
    match e {
        Said::Started => Understood { ready: true, ..u },
        Said::Result { text, sentence_end } => if sentence_end {
            Understood { committed: u.committed + text, current: Seq::empty(), ..u }
        } else {
            Understood { current: text, ..u }
        },
        Said::Finished => Understood { committed: u.committed + u.current, ..u },
        _ => u,
    }
}

pub open spec fn news_of(u: Understood, e: Said) -> News {
    let next = after_event(u, e);
    match e {
        Said::Started => News::Ready,
        Said::Result { .. } => News::Partial(next.committed + next.current),
        Said::Finished => News::Final(next.committed),
        Said::Failed(m) => failure(u, "ASR 任务失败："@ + m),
        Said::Other => News::Nothing,
    }
}

/// What befell the connection, other than a message.
#[derive(Debug)]
pub enum LinkEvent {
    Closed,
    Error(String),
    /// The recording could not be sent.
    SendFailed,
}

pub open spec fn link_message(e: LinkEvent) -> Seq<char> {
    match e {
        LinkEvent::Closed => "ASR WebSocket 连接被关闭"@,
        LinkEvent::Error(m) => "ASR WebSocket 错误："@ + m@,
        LinkEvent::SendFailed => "音频发送失败（连接已断开）"@,
    }
}

impl Transcript {
    pub fn new() -> (r: Self)
        ensures
            r@ == (Understood { committed: Seq::empty(), current: Seq::empty(), ready: false }),
    {
        let r = Transcript { committed: String::new(), current: String::new(), ready: false };
        assert(r@ =~= Understood { committed: Seq::empty(), current: Seq::empty(), ready: false });
        r
    }

    fn fail(&self, message: String) -> (r: SessionNews)
        ensures
            r@ == failure(self@, message@),
    {
        if self.ready {
            SessionNews::Broken(message)
        } else {
            SessionNews::NotReady(message)
        }
    }

    /// Takes a message that was understood.
    pub fn hear(&mut self, event: ServerEvent) -> (r: SessionNews)
        ensures
            final(self)@ == after_event(old(self)@, event@),
            r@ == news_of(old(self)@, event@),
    {
        match event {
            ServerEvent::Started => {
                self.ready = true;
                SessionNews::Ready
            },
            ServerEvent::Result { text, sentence_end } => {
                if sentence_end {
                    self.committed.append(&text);
                    self.current = String::new();
                    assert(self.current@ =~= Seq::<char>::empty());
                } else {
                    self.current = text;
                }
                SessionNews::Partial(concat(&self.committed, &self.current))
            },
            ServerEvent::Finished => {
                let current = self.current.clone();
                self.committed.append(&current);
                SessionNews::Final(self.committed.clone())
            },
            ServerEvent::Failed(m) => self.fail(concat("ASR 任务失败：", &m)),
            ServerEvent::Other => SessionNews::Nothing,
        }
    }

    /// Takes the text of a message; one that cannot be read is passed over.
    pub fn hear_text(&mut self, message: &str) -> (r: SessionNews)
        ensures
            match json::parsed(message@) {
                Ok(t) => final(self)@ == after_event(old(self)@, server_event(t)) && r@ == news_of(
                    old(self)@,
                    server_event(t),
                ),
                Err(_) => final(self)@ == old(self)@ && r@ == News::Nothing,
            },
    {
        match json::parse(message) {
            Ok(v) => self.hear(interpret(&v)),
            Err(_) => SessionNews::Nothing,
        }
    }

    /// The connection is gone.
    pub fn link_lost(&self, event: LinkEvent) -> (r: SessionNews)
        ensures
            r@ == failure(self@, link_message(event)),
    {
        match event {
            LinkEvent::Closed => self.fail("ASR WebSocket 连接被关闭".to_string()),
            LinkEvent::Error(m) => self.fail(concat("ASR WebSocket 错误：", &m)),
            LinkEvent::SendFailed => self.fail("音频发送失败（连接已断开）".to_string()),
        }
    }
}

// ---------------------------------------------------------------------------
// Laws
// ---------------------------------------------------------------------------

/// The texts of the sentences that a run of messages finished, in order, and
/// what is left of the last one.
pub open spec fn heard(events: Seq<Said>) -> Understood
    decreases events.len(),
{
    if events.len() == 0 {
        Understood { committed: Seq::empty(), current: Seq::empty(), ready: false }
    } else {
        after_event(heard(events.drop_last()), events.last())
    }
}

/// The final text is what was last shown: nothing that the user has seen goes
/// missing when the task finishes.
pub proof fn law_final_text_is_the_last_partial(u: Understood, text: Seq<char>, end: bool)
    ensures
        ({
            let e = Said::Result { text, sentence_end: end };
            news_of(u, e) matches News::Partial(shown) && news_of(after_event(u, e), Said::Finished)
                == News::Final(shown)
        }),
{
    let e = Said::Result { text, sentence_end: end };
    let next = after_event(u, e);
    if end {
        assert(next.committed + next.current =~= next.committed);
    }
}

/// Sentences that are final are never taken back.
pub proof fn law_committed_text_only_grows(u: Understood, e: Said)
    ensures
        search::has_prefix(after_event(u, e).committed, u.committed),
{
    let next = after_event(u, e);
    assert(next.committed.subrange(0, u.committed.len() as int) =~= u.committed);
}

/// A failure is reported to the one who waits for the session until the task
/// has started, and from then on to the one who waits for its result.
pub proof fn law_failures_reach_whoever_waits(events: Seq<Said>, m: Seq<char>)
    ensures
        news_of(heard(events), Said::Failed(m)) is Broken <==> events.contains(Said::Started),
    decreases events.len(),
{
    if events.len() > 0 {
        law_failures_reach_whoever_waits(events.drop_last(), m);
        let before = events.drop_last();
        if before.contains(Said::Started) {
            let i = choose|i: int| 0 <= i < before.len() && before[i] == Said::Started;
            assert(events[i] == Said::Started);
        }
        if events.contains(Said::Started) && events.last() != Said::Started {
            let i = choose|i: int| 0 <= i < events.len() && events[i] == Said::Started;
            assert(before[i] == Said::Started);
        }
        if events.last() == Said::Started {
            assert(events[events.len() - 1] == Said::Started);
        }
    }
}

/// The texts of results that end their sentences, joined in order.
pub open spec fn finished_sentences(events: Seq<Said>) -> Seq<char>
    decreases events.len(),
{
    if events.len() == 0 {
        Seq::empty()
    } else {
        match events[0] {
            Said::Result { text, sentence_end: true } => text + finished_sentences(events.skip(1)),
            _ => finished_sentences(events.skip(1)),
        }
    }
}

/// A result that ends no sentence is the last result of a run.
pub open spec fn left_over(events: Seq<Said>, i: int) -> bool {
    &&& 0 <= i < events.len()
    &&& events[i] matches Said::Result { sentence_end, .. } && !sentence_end
    &&& forall|j: int| i < j < events.len() ==> !(#[trigger] events[j] is Result)
}

proof fn lemma_finished_push(events: Seq<Said>, e: Said)
    ensures
        finished_sentences(events.push(e)) == finished_sentences(events) + match e {
            Said::Result { text, sentence_end: true } => text,
            _ => Seq::empty(),
        },
    decreases events.len(),
{
    let all = events.push(e);
    let added = match e {
        Said::Result { text, sentence_end: true } => text,
        _ => Seq::empty(),
    };
    if events.len() == 0 {
        assert(all.skip(1) =~= Seq::empty());
        assert(finished_sentences(all.skip(1)) =~= Seq::<char>::empty());
        assert(finished_sentences(all) =~= finished_sentences(events) + added);
    } else {
        lemma_finished_push(events.skip(1), e);
        assert(all.skip(1) =~= events.skip(1).push(e));
        assert(finished_sentences(all) =~= finished_sentences(events) + added);
    }
}

/// What has been heard before the task finishes: the committed text is that of
/// every sentence that was ended, each once and in order, and the current one is
/// that of the last result where that ends no sentence.
pub proof fn law_heard_is_what_was_said(events: Seq<Said>)
    requires
        !events.contains(Said::Finished),
    ensures
        heard(events).committed == finished_sentences(events),
        forall|i: int|
            #[trigger] left_over(events, i) ==> heard(events).current == events[i]->text,
        (forall|i: int| !#[trigger] left_over(events, i)) ==> heard(events).current.len() == 0,
    decreases events.len(),
{
    if events.len() > 0 {
        let before = events.drop_last();
        let e = events.last();
        assert(events =~= before.push(e));
        assert(!before.contains(Said::Finished)) by {
            if before.contains(Said::Finished) {
                let i = choose|i: int| 0 <= i < before.len() && before[i] == Said::Finished;
                assert(events[i] == Said::Finished);
            }
        }
        assert(e != Said::Finished) by {
            if e == Said::Finished {
                assert(events[events.len() - 1] == Said::Finished);
            }
        }
        law_heard_is_what_was_said(before);
        lemma_finished_push(before, e);
        assert(heard(events).committed =~= finished_sentences(events));
        let last = events.len() - 1;
        assert forall|i: int| #[trigger] left_over(events, i) implies heard(events).current
            == events[i]->text by {
            if i < last {
                assert(!(events[last] is Result));
                assert forall|j: int| i < j < before.len() implies !(#[trigger] before[j] is Result) by {
                    assert(before[j] == events[j]);
                }
                assert(left_over(before, i));
            }
        }
        if forall|i: int| !#[trigger] left_over(events, i) {
            if e is Result {
                if !e->sentence_end {
                    assert(left_over(events, last));
                }
            } else {
                assert forall|i: int| !#[trigger] left_over(before, i) by {
                    if left_over(before, i) {
                        assert(events[i] == before[i]);
                        assert forall|j: int| i < j < events.len() implies !(
                        #[trigger] events[j] is Result) by {
                            if j < last {
                                assert(before[j] == events[j]);
                            }
                        }
                        assert(left_over(events, i));
                    }
                }
            }
        }
    }
}

/// The final text of a task is that of every sentence that was ended, in order,
/// followed by that of the last result where that ends no sentence.
pub proof fn law_final_text_is_everything_said(events: Seq<Said>)
    requires
        !events.contains(Said::Finished),
    ensures
        forall|i: int|
            #[trigger] left_over(events, i) ==> news_of(heard(events), Said::Finished)
                == News::Final(finished_sentences(events) + events[i]->text),
        (forall|i: int| !#[trigger] left_over(events, i)) ==> news_of(
            heard(events),
            Said::Finished,
        ) == News::Final(finished_sentences(events)),
{
    law_heard_is_what_was_said(events);
    let u = heard(events);
    if forall|i: int| !#[trigger] left_over(events, i) {
        assert(u.committed + u.current =~= finished_sentences(events));
    }
}

/// Where each result ends its sentence, the texts are joined, each once.
pub proof fn law_ended_sentences_are_joined(texts: Seq<Seq<char>>)
    ensures
        ({
            let events = texts.map_values(
                |t: Seq<char>| Said::Result { text: t, sentence_end: true },
            );
            &&& heard(events).committed == texts.flatten()
            &&& heard(events).current.len() == 0
            &&& news_of(heard(events), Said::Finished) == News::Final(texts.flatten())
        }),
    decreases texts.len(),
{
    let f = |t: Seq<char>| Said::Result { text: t, sentence_end: true };
    let events = texts.map_values(f);
    if texts.len() == 0 {
        assert(heard(events).committed =~= texts.flatten());
    } else {
        law_ended_sentences_are_joined(texts.drop_last());
        assert(events.drop_last() =~= texts.drop_last().map_values(f));
        texts.lemma_flatten_and_flatten_alt_are_equivalent();
        texts.drop_last().lemma_flatten_and_flatten_alt_are_equivalent();
    }
    let u = heard(events);
    assert(u.committed + u.current =~= u.committed);
}

/// What is shown while a task goes on is everything ended so far, followed by
/// the latest text: an earlier guess at the same sentence is replaced.
pub proof fn law_partials_show_everything_so_far(
    u: Understood,
    first: Seq<char>,
    second: Seq<char>,
    end: bool,
)
    ensures
        ({
            let guess = after_event(u, Said::Result { text: first, sentence_end: false });
            let e = Said::Result { text: second, sentence_end: end };
            &&& news_of(guess, e) == News::Partial(u.committed + second)
            &&& after_event(guess, e) == after_event(u, e)
            &&& guess.committed == u.committed
            &&& end ==> after_event(u, e).committed == u.committed + second && after_event(
                u,
                e,
            ).current.len() == 0
        }),
{
    let guess = after_event(u, Said::Result { text: first, sentence_end: false });
    let e = Said::Result { text: second, sentence_end: end };
    let next = after_event(guess, e);
    assert(next.committed + next.current =~= u.committed + second);
}

/// Only results change what has been understood; the start of the task and
/// messages that mean nothing leave it as it is, and so does a failure, whose
/// message is passed on whole.
pub proof fn law_only_results_change_the_text(u: Understood, m: Seq<char>)
    ensures
        after_event(u, Said::Started).committed == u.committed,
        after_event(u, Said::Started).current == u.current,
        after_event(u, Said::Started).ready,
        news_of(u, Said::Started) == News::Ready,
        after_event(u, Said::Other) == u,
        news_of(u, Said::Other) == News::Nothing,
        after_event(u, Said::Failed(m)) == u,
        match news_of(u, Said::Failed(m)) {
            News::Broken(x) => u.ready && search::occurs_at(x, m, x.len() - m.len()),
            News::NotReady(x) => !u.ready && search::occurs_at(x, m, x.len() - m.len()),
            _ => false,
        },
{
    let x = "ASR 任务失败："@ + m;
    assert(x.subrange(x.len() - m.len(), x.len() as int) =~= m);
}

/// A broken connection is told to whoever waits, with the reason.
pub proof fn law_broken_links_are_reported(u: Understood, m: String)
    ensures
        search::has_text(link_message(LinkEvent::Error(m)), m@),
        failure(u, link_message(LinkEvent::Error(m))) == if u.ready {
            News::Broken(link_message(LinkEvent::Error(m)))
        } else {
            News::NotReady(link_message(LinkEvent::Error(m)))
        },
{
    let head = "ASR WebSocket 错误："@;
    let x = head + m@;
    assert(x.subrange(head.len() as int, x.len() as int) =~= m@);
    assert(search::occurs_at(x, m@, head.len() as int));
}

/// A message of the server that tells of this event.
pub open spec fn is_message(t: json::Json, event: Seq<char>) -> bool {
    t.member("header"@) matches Some(h) && h.member("event"@) == Some(json::Json::Text(event))
}

/// A result carries the text of its sentence and whether that is ended; where
/// nothing is said of the end, it is not ended.
pub proof fn law_results_carry_their_sentence(
    t: json::Json,
    payload: json::Json,
    output: json::Json,
    s: json::Json,
    x: Seq<char>,
)
    requires
        is_message(t, "result-generated"@),
        t.member("payload"@) == Some(payload),
        payload.member("output"@) == Some(output),
        output.member("sentence"@) == Some(s),
        s.member("text"@) == Some(json::Json::Text(x)),
    ensures
        server_event(t) matches Said::Result { text, sentence_end } && text == x && (sentence_end
            <==> s.member("sentence_end"@) == Some(json::Json::Bool(true))),
{
    reveal_strlit("task-started");
    reveal_strlit("result-generated");
    assert("task-started"@.len() != "result-generated"@.len());
}

/// The start, the end and the failure of a task are told apart; a failure
/// carries the message of the server.
pub proof fn law_tasks_start_finish_and_fail(t: json::Json, h: json::Json, m: Seq<char>)
    ensures
        is_message(t, "task-started"@) ==> server_event(t) == Said::Started,
        is_message(t, "task-finished"@) ==> server_event(t) == Said::Finished,
        is_message(t, "task-failed"@) ==> server_event(t) is Failed,
        is_message(t, "task-failed"@) && t.member("header"@) == Some(h) && h.member(
            "error_message"@,
        ) == Some(json::Json::Text(m)) ==> server_event(t) == Said::Failed(m),
        server_event(t) == Said::Finished ==> is_message(t, "task-finished"@),
        server_event(t) == Said::Started ==> is_message(t, "task-started"@),
        server_event(t) is Result ==> is_message(t, "result-generated"@),
{
    reveal_strlit("");
    reveal_strlit("task-started");
    reveal_strlit("task-finished");
    reveal_strlit("task-failed");
    reveal_strlit("result-generated");
    assert(""@.len() == 0);
    assert("task-started"@.len() == 12 && "task-finished"@.len() == 13);
    assert("task-failed"@.len() == 11 && "result-generated"@.len() == 16);
}

/// Both messages of the client name the task; the first one asks for the model,
/// the second one only marks the end.
pub proof fn law_client_messages_name_the_task(id: Seq<char>, model: Seq<char>)
    ensures
        text_at(run_task(id, model), "header"@, "task_id"@) == Some(id),
        text_at(finish_task(id), "header"@, "task_id"@) == Some(id),
        text_at(run_task(id, model), "header"@, "action"@) == Some("run-task"@),
        text_at(finish_task(id), "header"@, "action"@) == Some("finish-task"@),
        text_at(run_task(id, model), "header"@, "streaming"@) == Some("duplex"@),
        text_at(finish_task(id), "header"@, "streaming"@) == Some("duplex"@),
        text_at(run_task(id, model), "payload"@, "model"@) == Some(model),
        text_at(run_task(id, model), "payload"@, "task"@) == Some("asr"@),
        run_task(id, model).member("payload"@) matches Some(p) && p.member("parameters"@) matches Some(
            q,
        ) && json::text_member(q, "format"@) == Some("pcm"@) && q.member("sample_rate"@) == Some(
            json::number(16000),
        ),
{
    reveal_strlit("header");
    reveal_strlit("payload");
    reveal_strlit("task_id");
    reveal_strlit("action");
    reveal_strlit("streaming");
    reveal_strlit("model");
    reveal_strlit("task");
    reveal_strlit("task_group");
    reveal_strlit("function");
    reveal_strlit("parameters");
    reveal_strlit("input");
    reveal_strlit("format");
    reveal_strlit("sample_rate");
    assert("header"@.len() == 6 && "payload"@.len() == 7);
    assert("task_id"@.len() == 7 && "action"@.len() == 6 && "streaming"@.len() == 9);
    assert("model"@.len() == 5 && "task"@.len() == 4 && "task_group"@.len() == 10);
    assert("function"@.len() == 8 && "parameters"@.len() == 10 && "input"@.len() == 5);
    assert("task_group"@[0] == 't' && "parameters"@[0] == 'p');
    assert("input"@[0] == 'i' && "model"@[0] == 'm');
    assert("format"@.len() == 6 && "sample_rate"@.len() == 11);
}

/// Without an address the public one is used; an address of a web server is
/// turned into that of its socket.
pub proof fn law_addresses_become_sockets(rest: Seq<char>)
    requires
        rest.len() > 0,
        !text::whitespace(rest.last()),
        rest.last() != '/',
        !search::has_text("ws"@ + rest, "/compatible-mode/"@),
    ensures
        ws_url(None) == "wss://dashscope.aliyuncs.com/api-ws/v1/inference"@,
        ws_url(Some("http"@ + rest)) == "ws"@ + rest,
{
    reveal_strlit("http");
    reveal_strlit("ws");
    let b = "http"@ + rest;
    assert(b[0] == 'h');
    assert(b.last() == rest.last());
    text::law_trimmed_text_is_kept(b);
    assert(b.subrange(0, 4) =~= "http"@);
    assert(b.skip(4) =~= rest);
    let u = "ws"@ + rest;
    assert(u.last() == rest.last());
}

/// The service is the one that the protocol asks for, with the key and the model
/// of the configuration; without a key, or for a protocol that is not known, there
/// is none.
pub proof fn law_the_service_is_the_one_configured(cfg: Config)
    ensures
        cfg.recognition_key() is None ==> service_for(cfg) is None,
        cfg.recognition_protocol() != "dashscope-realtime"@ && cfg.recognition_protocol()
            != "dashscope-http"@ ==> service_for(cfg) is None,
        cfg.recognition_key() is Some && cfg.recognition_protocol() == "dashscope-realtime"@ ==> (
        service_for(cfg) matches Some(Service::Realtime { api_key, model, ws_url: url }) && Some(
            api_key,
        ) == cfg.recognition_key() && model == cfg.recognition_model() && (cfg.asr.base_url is None
            ==> url == ws_url(None))),
        cfg.recognition_key() is Some && cfg.recognition_protocol() == "dashscope-http"@ ==> (
        service_for(cfg) matches Some(Service::Batch { api_key, model }) && Some(api_key)
            == cfg.recognition_key() && model == cfg.recognition_model()),
{
    reveal_strlit("dashscope-http");
    reveal_strlit("dashscope-realtime");
    assert("dashscope-http"@.len() != "dashscope-realtime"@.len());
}

/// An address of the compatible interface becomes that of the streaming one on
/// the same server.
pub proof fn law_compatible_addresses_become_streaming_ones(server: Seq<char>)
    requires
        forall|j: int|
            0 <= j < ("ws"@ + server).len() ==> !search::occurs_at(
                "ws"@ + server + "/compatible-mode/v1"@,
                "/compatible-mode/v1"@,
                j,
            ),
    ensures
        ws_url(Some("http"@ + server + "/compatible-mode/v1/"@)) == "ws"@ + server
            + "/api-ws/v1/inference"@,
        ws_url(Some("http"@ + server + "/compatible-mode/v1"@)) == "ws"@ + server
            + "/api-ws/v1/inference"@,
{
    reveal_strlit("http");
    reveal_strlit("ws");
    reveal_strlit("/compatible-mode/v1");
    reveal_strlit("/compatible-mode/v1/");
    reveal_strlit("/compatible-mode/");
    reveal_strlit("/api-ws/v1/inference");
    let old_path = "/compatible-mode/v1"@;
    let new_path = "/api-ws/v1/inference"@;
    let mode = "/compatible-mode/"@;
    assert("/compatible-mode/v1/"@ =~= old_path.push('/'));
    let u = "ws"@ + server + old_path;
    let n = ("ws"@ + server).len() as int;
    // The plain form.
    let b = "http"@ + server + old_path;
    assert(b[0] == 'h' && b.last() == '1');
    text::law_trimmed_text_is_kept(b);
    assert(b.subrange(0, 4) =~= "http"@);
    assert("ws"@ + b.skip(4) =~= u);
    assert(u.subrange(n, n + old_path.len()) =~= old_path);
    assert(search::occurs_at(u, old_path, n));
    assert(u.subrange(n, n + mode.len()) =~= mode);
    assert(search::occurs_at(u, mode, n));
    search::law_occurrences_are_replaced_one_by_one(u, old_path, new_path, n);
    let out = "ws"@ + server + new_path;
    assert(u.skip(n + old_path.len()) =~= Seq::empty());
    assert(search::replaced(Seq::<char>::empty(), old_path, new_path) =~= Seq::empty());
    assert(u.take(n) + new_path + Seq::empty() =~= out);
    assert(out.last() == 'e');
    // The form with a slash at its end.
    let c = "http"@ + server + "/compatible-mode/v1/"@;
    let v = u.push('/');
    assert(c[0] == 'h' && c.last() == '/');
    text::law_trimmed_text_is_kept(c);
    assert(c.subrange(0, 4) =~= "http"@);
    assert("ws"@ + c.skip(4) =~= v);
    assert(v.subrange(n, n + old_path.len()) =~= old_path);
    assert(search::occurs_at(v, old_path, n));
    assert(v.subrange(n, n + mode.len()) =~= mode);
    assert(search::occurs_at(v, mode, n));
    assert forall|j: int| 0 <= j < n implies !search::occurs_at(v, old_path, j) by {
        assert(!search::occurs_at(u, old_path, j));
        assert(j + old_path.len() <= u.len());
        assert(v.subrange(j, j + old_path.len()) =~= u.subrange(j, j + old_path.len()));
    }
    search::law_occurrences_are_replaced_one_by_one(v, old_path, new_path, n);
    let tail = v.skip(n + old_path.len());
    assert(tail =~= seq!['/']);
    assert forall|j: int| !search::occurs_at(tail, old_path, j) by {}
    search::law_nothing_is_replaced_where_nothing_occurs(tail, old_path, new_path);
    assert(v.take(n) + new_path + tail =~= out.push('/'));
    assert(out.push('/').drop_last() =~= out);
    assert(search::trim_end_char(out, '/') == out);
}

} // verus!
