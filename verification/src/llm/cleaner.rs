//! The two protocols that language models are asked by.
use crate::asr::bailian;
use crate::asr::bailian::{join_parts, single};
use crate::command::combo;
use crate::config::file;
use crate::config::file::filled_text;
use crate::config::Config;
use crate::json;
use crate::json::Members;
use crate::llm::spacing;
use crate::llm::spacing::post_process;
use crate::search;
use crate::search::concat;
use crate::text;
use vstd::prelude::*;

verus! {

/// What the language model is told when it is to repair a text.
pub const REPAIR_SYSTEM_PROMPT: &'static str = "你是语音转写文本的修正助手。你会收到两部分：【原文】是暂存条中已有的文本，【修正说明】是用户对原文的修改指令。根据修正说明修改原文，只输出修正后的全文。不要输出任何解释、引号或前后缀，不要输出修正说明本身。";

/// The text to repair, and how.
pub open spec fn repair_content(original: Seq<char>, instruction: Seq<char>) -> Seq<char> {
    "原文："@ + original + "\n修正说明："@ + instruction
}

/// The message for a repair.
pub fn repair_message(original: &str, instruction: &str) -> (r: String)
    ensures
        r@ == repair_content(original@, instruction@),
{
    let mut m = concat("原文：", original);
    m.append("\n修正说明：");
    m.append(instruction);
    m
}

/// One message of a conversation.
pub open spec fn turn(role: Seq<char>, content: Seq<char>) -> json::Json {
    json::Json::Object(
        Map::<Seq<char>, json::Json>::empty().insert("role"@, json::Json::Text(role)).insert(
            "content"@,
            json::Json::Text(content),
        ),
    )
}

fn turn_value(role: &str, content: &str) -> (r: serde_json::Value)
    ensures
        json::tree(r) == turn(role@, content@),
{
    let mut m = Members::new();
    m.put_text("role", role);
    m.put_text("content", content);
    m.done()
}

/// What is reported of a reply that is no success.
pub open spec fn http_error(status: Seq<char>, answer: json::Json) -> Seq<char> {
    "LLM HTTP "@ + status + "："@ + match answer.member("error"@) {
        Some(e) => match json::text_member(e, "message"@) {
            Some(m) => m,
            None => "no message"@,
        },
        None => "no message"@,
    }
}

fn report_http_error(status: &str, v: &serde_json::Value) -> (r: String)
    ensures
        r@ == http_error(status@, json::tree(*v)),
{
    let message = match json::get(v, "error") {
        Some(e) => match json::get_text(e, "message") {
            Some(m) => m,
            None => "no message".to_string(),
        },
        None => "no message".to_string(),
    };
    let mut e = concat("LLM HTTP ", status);
    e.append("：");
    e.append(&message);
    e
}

/// What an answer comes to: its text, trimmed and spaced; else why there is none.
pub open spec fn polished_text(found: Option<Seq<char>>, answer: json::Json) -> Result<
    Seq<char>,
    Seq<char>,
> {
    match found {
        None => Err("无法解析 LLM 响应："@ + json::written(answer)),
        Some(t) => if text::blank(t) {
            Err("LLM 返回空文本（原始响应："@ + json::written(answer) + "）"@)
        } else {
            Ok(spacing::spaced(text::trimmed(t)))
        },
    }
}

fn polish(found: Option<String>, v: &serde_json::Value) -> (r: Result<String, String>)
    ensures
        match polished_text(combo::opt_text(found), json::tree(*v)) {
            Ok(t) => r is Ok && r->Ok_0@ == t,
            Err(e) => r is Err && r->Err_0@ == e,
        },
{
    match found {
        None => Err(concat("无法解析 LLM 响应：", &json::write(v))),
        Some(t) => {
            if text::is_blank(&t) {
                let mut e = concat("LLM 返回空文本（原始响应：", &json::write(v));
                e.append("）");
                return Err(e);
            }
            Ok(post_process(&text::trim(&t)))
        },
    }
}

// ---------------------------------------------------------------------------
// Chat completions
// ---------------------------------------------------------------------------

pub const DEFAULT_BASE_URL: &'static str = "https://api.deepseek.com";

pub const DEFAULT_MODEL: &'static str = "deepseek-chat";

/// A service with the protocol of chat completions.
#[derive(Debug)]
pub struct OpenAiCleaner {
    pub api_key: String,
    pub model: String,
    pub base_url: String,
}

/// The request for a chat completion.
pub open spec fn chat_request(model: Seq<char>, system: Seq<char>, user: Seq<char>) -> json::Json {
    json::Json::Object(
        Map::<Seq<char>, json::Json>::empty().insert("model"@, json::Json::Text(model)).insert(
            "messages"@,
            json::Json::List(seq![turn("system"@, system), turn("user"@, user)]),
        ),
    )
}

/// The text of a chat completion: `choices[0].message.content`.
pub open spec fn chat_text(answer: json::Json) -> Option<Seq<char>> {
    match answer.member("choices"@) {
        None => None,
        Some(choices) => match choices.item(0) {
            None => None,
            Some(choice) => match choice.member("message"@) {
                None => None,
                Some(message) => json::text_member(message, "content"@),
            },
        },
    }
}

/// What a reply of the service means.
pub open spec fn chat_reply(ok: bool, status: Seq<char>, answer: json::Json) -> Result<
    Seq<char>,
    Seq<char>,
> {
    if ok {
        polished_text(chat_text(answer), answer)
    } else {
        Err(http_error(status, answer))
    }
}

fn find_chat_text(v: &serde_json::Value) -> (r: Option<String>)
    ensures
        combo::opt_text(r) == chat_text(json::tree(*v)),
{
    let choices = match json::get(v, "choices") {
        Some(c) => c,
        None => return None,
    };
    let choice = match json::at(choices, 0) {
        Some(c) => c,
        None => return None,
    };
    match json::get(choice, "message") {
        Some(m) => json::get_text(m, "content"),
        None => None,
    }
}

/// The address without slashes at its end.
pub open spec fn bare_url(u: Seq<char>) -> Seq<char> {
    search::trim_end_char(u, '/')
}

pub open spec fn chat_base_url(base_url: Option<Seq<char>>) -> Seq<char> {
    match file::filled(base_url) {
        Some(u) => bare_url(u),
        None => bare_url("https://api.deepseek.com"@),
    }
}

pub open spec fn chat_model(model: Option<Seq<char>>) -> Seq<char> {
    match file::filled(model) {
        Some(m) => m,
        None => "deepseek-chat"@,
    }
}

impl OpenAiCleaner {
    pub fn new(api_key: String, model: &Option<String>, base_url: &Option<String>) -> (r: Self)
        ensures
            r.api_key == api_key,
            r.model@ == chat_model(combo::opt_text(*model)),
            r.base_url@ == chat_base_url(combo::opt_text(*base_url)),
    {
        let model = match filled_text(model) {
            Some(m) => m,
            None => DEFAULT_MODEL.to_string(),
        };
        let base = match filled_text(base_url) {
            Some(u) => u,
            None => DEFAULT_BASE_URL.to_string(),
        };
        OpenAiCleaner { api_key, model, base_url: search::trim_end_matches(&base, '/') }
    }

    /// Where requests are sent.
    pub fn url(&self) -> (r: String)
        ensures
            r@ == self.base_url@ + "/chat/completions"@,
    {
        concat(&self.base_url, "/chat/completions")
    }

    /// The request, as a tree.
    pub fn request(&self, system: &str, user: &str) -> (r: serde_json::Value)
        ensures
            json::tree(r) == chat_request(self.model@, system@, user@),
    {
        let mut turns: Vec<serde_json::Value> = Vec::new();
        turns.push(turn_value("system", system));
        turns.push(turn_value("user", user));
        assert(json::trees(turns@) =~= seq![turn("system"@, system@), turn("user"@, user@)]);
        let mut m = Members::new();
        m.put_text("model", &self.model);
        m.put("messages", json::of_list(turns));
        m.done()
    }

    /// What an answer means.
    pub fn read_answer(ok: bool, status: &str, v: &serde_json::Value) -> (r: Result<String, String>)
        ensures
            match chat_reply(ok, status@, json::tree(*v)) {
                Ok(t) => r is Ok && r->Ok_0@ == t,
                Err(e) => r is Err && r->Err_0@ == e,
            },
    {
        if !ok {
            return Err(report_http_error(status, v));
        }
        polish(find_chat_text(v), v)
    }
}

// ---------------------------------------------------------------------------
// Messages
// ---------------------------------------------------------------------------

/// A service with the messages protocol.
#[derive(Debug)]
pub struct AnthropicCleaner {
    pub api_key: String,
    pub model: String,
    pub base_url: String,
}

/// The request for a message.
pub open spec fn message_request(model: Seq<char>, system: Seq<char>, user: Seq<char>) ->
    json::Json {
    json::Json::Object(
        Map::<Seq<char>, json::Json>::empty().insert("model"@, json::Json::Text(model)).insert(
            "max_tokens"@,
            json::number(4096),
        ).insert("system"@, json::Json::Text(system)).insert(
            "messages"@,
            json::Json::List(seq![turn("user"@, user)]),
        ),
    )
}

/// The text of a message: the texts of the parts of `content`.
pub open spec fn message_text(answer: json::Json) -> Option<Seq<char>> {
    match answer.member("content"@) {
        None => None,
        Some(content) => match content.as_list() {
            Some(parts) => Some(bailian::part_texts(parts)),
            None => None,
        },
    }
}

/// What a reply of the service means.
pub open spec fn message_reply(ok: bool, status: Seq<char>, answer: json::Json) -> Result<
    Seq<char>,
    Seq<char>,
> {
    if ok {
        polished_text(message_text(answer), answer)
    } else {
        Err(http_error(status, answer))
    }
}

fn find_message_text(v: &serde_json::Value) -> (r: Option<String>)
    ensures
        combo::opt_text(r) == message_text(json::tree(*v)),
{
    match json::get(v, "content") {
        Some(c) => join_parts(c),
        None => None,
    }
}

impl AnthropicCleaner {
    /// There is no model and no address to fall back on: both have to be configured.
    pub fn new(api_key: String, model: &Option<String>, base_url: &Option<String>) -> (r: Result<
        Self,
        String,
    >)
        ensures
            match (file::filled(combo::opt_text(*model)), file::filled(combo::opt_text(*base_url))) {
                (None, _) => r is Err && r->Err_0@
                    == "anthropic-messages 协议需要在 [llm] 中显式配置 model"@,
                (Some(_), None) => r is Err && r->Err_0@
                    == "anthropic-messages 协议需要在 [llm] 中显式配置 base_url"@,
                (Some(m), Some(u)) => r is Ok && r->Ok_0.api_key == api_key && r->Ok_0.model@ == m
                    && r->Ok_0.base_url@ == bare_url(u),
            },
    {
        let model = match filled_text(model) {
            Some(m) => m,
            None => return Err(
                "anthropic-messages 协议需要在 [llm] 中显式配置 model".to_string(),
            ),
        };
        let base = match filled_text(base_url) {
            Some(u) => u,
            None => return Err(
                "anthropic-messages 协议需要在 [llm] 中显式配置 base_url".to_string(),
            ),
        };
        Ok(AnthropicCleaner { api_key, model, base_url: search::trim_end_matches(&base, '/') })
    }

    /// Where requests are sent.
    pub fn url(&self) -> (r: String)
        ensures
            r@ == self.base_url@ + "/v1/messages"@,
    {
        concat(&self.base_url, "/v1/messages")
    }

    /// The request, as a tree.
    pub fn request(&self, system: &str, user: &str) -> (r: serde_json::Value)
        ensures
            json::tree(r) == message_request(self.model@, system@, user@),
    {
        let mut m = Members::new();
        m.put_text("model", &self.model);
        m.put_number("max_tokens", 4096);
        m.put_text("system", system);
        m.put("messages", single(turn_value("user", user)));
        m.done()
    }

    /// What an answer means.
    pub fn read_answer(ok: bool, status: &str, v: &serde_json::Value) -> (r: Result<String, String>)
        ensures
            match message_reply(ok, status@, json::tree(*v)) {
                Ok(t) => r is Ok && r->Ok_0@ == t,
                Err(e) => r is Err && r->Err_0@ == e,
            },
    {
        if !ok {
            return Err(report_http_error(status, v));
        }
        polish(find_message_text(v), v)
    }
}

// ---------------------------------------------------------------------------
// Either
// ---------------------------------------------------------------------------

/// The service that is configured.
#[derive(Debug)]
pub enum Cleaner {
    OpenAi(OpenAiCleaner),
    Anthropic(AnthropicCleaner),
}

/// What a [`Cleaner`] stands for.
#[verifier::ext_equal]
pub enum Model {
    OpenAi { api_key: Seq<char>, model: Seq<char>, base_url: Seq<char> },
    Anthropic { api_key: Seq<char>, model: Seq<char>, base_url: Seq<char> },
}

impl View for Cleaner {
    type V = Model;

    open spec fn view(&self) -> Model {
        match self {
            Cleaner::OpenAi(c) => Model::OpenAi {
                api_key: c.api_key@,
                model: c.model@,
                base_url: c.base_url@,
            },
            Cleaner::Anthropic(c) => Model::Anthropic {
                api_key: c.api_key@,
                model: c.model@,
                base_url: c.base_url@,
            },
        }
    }
}

/// The service that a configuration asks for: none without a key, none for a
/// protocol that is not known, and none where what the protocol needs is missing.
pub open spec fn model_for(cfg: Config) -> Option<Model> {
    let model = combo::opt_text(cfg.llm.model);
    let base_url = combo::opt_text(cfg.llm.base_url);
    match file::filled(combo::opt_text(cfg.llm.api_key)) {
        None => None,
        Some(api_key) => if cfg.polishing_protocol() == "openai-chat"@ {
            Some(
                Model::OpenAi {
                    api_key,
                    model: chat_model(model),
                    base_url: chat_base_url(base_url),
                },
            )
        } else if cfg.polishing_protocol() == "anthropic-messages"@ {
            match (file::filled(model), file::filled(base_url)) {
                (Some(m), Some(u)) => Some(
                    Model::Anthropic { api_key, model: m, base_url: bare_url(u) },
                ),
                _ => None,
            }
        } else {
            None
        },
    }
}

pub fn cleaner_from_config(cfg: &Config) -> (r: Option<Cleaner>)
    ensures
        match model_for(*cfg) {
            Some(m) => r is Some && r->0@ == m,
            None => r is None,
        },
{
    let key = match cfg.llm_api_key() {
        Some(k) => k,
        None => return None,
    };
    let protocol = cfg.llm_protocol();
    if text::same(&protocol, "openai-chat") {
        Some(Cleaner::OpenAi(OpenAiCleaner::new(key, &cfg.llm.model, &cfg.llm.base_url)))
    } else if text::same(&protocol, "anthropic-messages") {
        match AnthropicCleaner::new(key, &cfg.llm.model, &cfg.llm.base_url) {
            Ok(c) => Some(Cleaner::Anthropic(c)),
            Err(_) => None,
        }
    } else {
        None
    }
}

impl Cleaner {
    pub open spec fn request_tree(self, system: Seq<char>, user: Seq<char>) -> json::Json {
        match self {
            Cleaner::OpenAi(c) => chat_request(c.model@, system, user),
            Cleaner::Anthropic(c) => message_request(c.model@, system, user),
        }
    }

    pub open spec fn reply(self, ok: bool, status: Seq<char>, answer: json::Json) -> Result<
        Seq<char>,
        Seq<char>,
    > {
        match self {
            Cleaner::OpenAi(_) => chat_reply(ok, status, answer),
            Cleaner::Anthropic(_) => message_reply(ok, status, answer),
        }
    }

    /// The request for polishing a text as the prompt says.
    pub fn clean_request(&self, text: &str, system_prompt: &str) -> (r: String)
        ensures
            r@ == json::written(self.request_tree(system_prompt@, text@)),
    {
        match self {
            Cleaner::OpenAi(c) => json::write(&c.request(system_prompt, text)),
            Cleaner::Anthropic(c) => json::write(&c.request(system_prompt, text)),
        }
    }

    /// The request for repairing a text as instructed.
    pub fn repair_request(&self, original: &str, instruction: &str) -> (r: String)
        ensures
            r@ == json::written(
                self.request_tree(
                    REPAIR_SYSTEM_PROMPT@,
                    repair_content(original@, instruction@),
                ),
            ),
    {
        let user = repair_message(original, instruction);
        self.clean_request(&user, REPAIR_SYSTEM_PROMPT)
    }

    /// What a reply means, from its body. What is said of a body that is no JSON
    /// begins like the message of an HTTP client that could not decode it.
    pub fn read_reply(&self, ok: bool, status: &str, body: &[u8]) -> (r: Result<String, String>)
        ensures
            match json::parsed_bytes(body@) {
                Err(e) => r is Err && r->Err_0@
                    == "LLM 响应不是合法 JSON: error decoding response body: "@ + e,
                Ok(answer) => match self.reply(ok, status@, answer) {
                    Ok(t) => r is Ok && r->Ok_0@ == t,
                    Err(e) => r is Err && r->Err_0@ == e,
                },
            },
    {
        let v = match json::parse_bytes(body) {
            Ok(v) => v,
            Err(e) => return Err(concat("LLM 响应不是合法 JSON: error decoding response body: ", &e)),
        };
        match self {
            Cleaner::OpenAi(_) => OpenAiCleaner::read_answer(ok, status, &v),
            Cleaner::Anthropic(_) => AnthropicCleaner::read_answer(ok, status, &v),
        }
    }
}

/// An answer that is handed on is never blank, and is spaced throughout.
pub proof fn law_answers_are_spaced(c: Cleaner, ok: bool, status: Seq<char>, answer: json::Json)
    ensures
        c.reply(ok, status, answer) matches Ok(t) ==> ok && spacing::well_spaced(t) && t.len() > 0,
{
    let found = match c {
        Cleaner::OpenAi(_) => chat_text(answer),
        Cleaner::Anthropic(_) => message_text(answer),
    };
    if ok && c.reply(ok, status, answer) is Ok {
        let t = found->0;
        spacing::law_spacing_is_idempotent(text::trimmed(t));
        text::lemma_blank_trimmed(t);
        spacing::lemma_spacing_keeps_text(text::trimmed(t));
    }
}

/// A conversation begins with the prompt and goes on with the text, each said
/// by the one whose it is; the model is the one that is configured.
pub proof fn law_requests_carry_prompt_and_text(
    model: Seq<char>,
    system: Seq<char>,
    user: Seq<char>,
)
    ensures
        json::text_member(chat_request(model, system, user), "model"@) == Some(model),
        chat_request(model, system, user).member("messages"@) matches Some(m) && {
            &&& m.item(0) matches Some(a) && json::text_member(a, "role"@) == Some("system"@)
                && json::text_member(a, "content"@) == Some(system)
            &&& m.item(1) matches Some(b) && json::text_member(b, "role"@) == Some("user"@)
                && json::text_member(b, "content"@) == Some(user)
            &&& m.item(2) is None
        },
        json::text_member(message_request(model, system, user), "model"@) == Some(model),
        json::text_member(message_request(model, system, user), "system"@) == Some(system),
        message_request(model, system, user).member("messages"@) matches Some(m) && {
            &&& m.item(0) matches Some(b) && json::text_member(b, "role"@) == Some("user"@)
                && json::text_member(b, "content"@) == Some(user)
            &&& m.item(1) is None
        },
        message_request(model, system, user).member("max_tokens"@) is Some,
{
    reveal_strlit("model");
    reveal_strlit("messages");
    reveal_strlit("role");
    reveal_strlit("content");
    reveal_strlit("system");
    reveal_strlit("max_tokens");
    assert("model"@.len() == 5 && "messages"@.len() == 8 && "role"@.len() == 4);
    assert("content"@.len() == 7 && "system"@.len() == 6 && "max_tokens"@.len() == 10);
}

/// A repair is asked for with the text as it is and, behind it, with what is to
/// be done to it.
pub proof fn law_repairs_carry_text_and_instruction(original: Seq<char>, instruction: Seq<char>)
    ensures
        ({
            let m = repair_content(original, instruction);
            exists|i: int, j: int|
                #![trigger search::occurs_at(m, original, i), search::occurs_at(m, instruction, j)]
                search::occurs_at(m, original, i) && search::occurs_at(m, instruction, j) && i
                    + original.len() <= j && j + instruction.len() == m.len()
        }),
{
    let m = repair_content(original, instruction);
    let head = "原文："@;
    let mid = "\n修正说明："@;
    let i = head.len() as int;
    let j = (head.len() + original.len() + mid.len()) as int;
    assert(m.subrange(i, i + original.len()) =~= original);
    assert(m.subrange(j, j + instruction.len()) =~= instruction);
    assert(search::occurs_at(m, original, i));
    assert(search::occurs_at(m, instruction, j));
}

/// A successful answer with text in it is that text, without white space around
/// it and with blanks added; what the text says stays as it is.
pub proof fn law_answers_are_what_the_model_said(
    c: Cleaner,
    status: Seq<char>,
    answer: json::Json,
    t: Seq<char>,
)
    requires
        match c {
            Cleaner::OpenAi(_) => chat_text(answer) == Some(t),
            Cleaner::Anthropic(_) => message_text(answer) == Some(t),
        },
    ensures
        !text::blank(t) ==> (c.reply(true, status, answer) matches Ok(r) && spacing::unspaced(r)
            == spacing::unspaced(text::trimmed(t)) && spacing::well_spaced(r)),
        text::blank(t) ==> c.reply(true, status, answer) is Err,
{
    spacing::law_spacing_only_adds_blanks(text::trimmed(t));
    spacing::law_spacing_is_idempotent(text::trimmed(t));
}

/// The text of a chat completion is that of its first choice.
pub proof fn law_the_first_choice_counts(
    answer: json::Json,
    choices: Seq<json::Json>,
    message: json::Json,
    t: Seq<char>,
)
    requires
        answer.member("choices"@) == Some(json::Json::List(choices)),
        choices.len() > 0,
        choices[0].member("message"@) == Some(message),
        message.member("content"@) == Some(json::Json::Text(t)),
    ensures
        chat_text(answer) == Some(t),
{
}

/// The text of a message is that of all its parts, in order.
pub proof fn law_all_parts_count(answer: json::Json, parts: Seq<json::Json>)
    requires
        answer.member("content"@) == Some(json::Json::List(parts)),
    ensures
        message_text(answer) == Some(bailian::part_texts(parts)),
{
}

/// A reply that is no success is an error, which gives the status and what the
/// service says about it.
pub proof fn law_refused_requests_say_why(
    c: Cleaner,
    status: Seq<char>,
    answer: json::Json,
    e: json::Json,
    m: Seq<char>,
)
    ensures
        c.reply(false, status, answer) matches Err(x) && search::has_text(x, status),
        answer.member("error"@) == Some(e) && e.member("message"@) == Some(json::Json::Text(m))
            ==> (c.reply(false, status, answer) matches Err(x) && search::has_text(x, m)),
{
    let x = http_error(status, answer);
    let head = "LLM HTTP "@;
    assert(x.subrange(head.len() as int, (head.len() + status.len()) as int) =~= status);
    assert(search::occurs_at(x, status, head.len() as int));
    if answer.member("error"@) == Some(e) && e.member("message"@) == Some(json::Json::Text(m)) {
        assert(x.subrange(x.len() - m.len(), x.len() as int) =~= m);
        assert(search::occurs_at(x, m, x.len() - m.len()));
    }
}

/// The model is the one that is configured, by the protocol that is configured;
/// without a key there is none, and the messages protocol needs to be told model
/// and address.
pub proof fn law_the_model_is_the_one_configured(cfg: Config)
    ensures
        file::filled(combo::opt_text(cfg.llm.api_key)) is None ==> model_for(cfg) is None,
        cfg.polishing_protocol() != "openai-chat"@ && cfg.polishing_protocol()
            != "anthropic-messages"@ ==> model_for(cfg) is None,
        file::filled(combo::opt_text(cfg.llm.api_key)) is Some && cfg.polishing_protocol()
            == "openai-chat"@ ==> (model_for(cfg) matches Some(
            Model::OpenAi { api_key, model, base_url },
        ) && Some(api_key) == file::filled(combo::opt_text(cfg.llm.api_key)) && (file::filled(
            combo::opt_text(cfg.llm.model),
        ) matches Some(m) ==> model == m) && (file::filled(combo::opt_text(cfg.llm.base_url))
            matches Some(u) ==> search::has_prefix(u, base_url))),
        file::filled(combo::opt_text(cfg.llm.api_key)) is Some && cfg.polishing_protocol()
            == "anthropic-messages"@ ==> match model_for(cfg) {
            Some(Model::Anthropic { api_key, model, base_url }) => Some(api_key) == file::filled(
                combo::opt_text(cfg.llm.api_key),
            ) && Some(model) == file::filled(combo::opt_text(cfg.llm.model)) && file::filled(
                combo::opt_text(cfg.llm.base_url),
            ) is Some && search::has_prefix(combo::opt_text(cfg.llm.base_url)->0, base_url),
            Some(_) => false,
            None => file::filled(combo::opt_text(cfg.llm.model)) is None || file::filled(
                combo::opt_text(cfg.llm.base_url),
            ) is None,
        },
{
    reveal_strlit("openai-chat");
    reveal_strlit("anthropic-messages");
    assert("openai-chat"@.len() != "anthropic-messages"@.len());
    if let Some(u) = combo::opt_text(cfg.llm.base_url) {
        lemma_bare(u);
    }
}

proof fn lemma_bare(u: Seq<char>)
    ensures
        search::has_prefix(u, bare_url(u)),
    decreases u.len(),
{
    if u.len() > 0 && u.last() == '/' {
        lemma_bare(u.drop_last());
        let b = bare_url(u);
        assert(u.drop_last().subrange(0, b.len() as int) =~= u.subrange(0, b.len() as int));
    } else {
        assert(u.subrange(0, u.len() as int) =~= u);
    }
}

} // verus!
