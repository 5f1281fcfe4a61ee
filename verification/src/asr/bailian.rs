//! DashScope's recognition of whole recordings.
use crate::base64;
use crate::json;
use crate::json::Members;
use crate::search;
use crate::search::concat;
use crate::text;
use vstd::prelude::*;

verus! {

/// Where recordings are sent.
pub const ENDPOINT: &'static str = "https://dashscope.aliyuncs.com/api/v1/services/aigc/multimodal-generation/generation";

/// The service, with the key and the model that it is asked with.
#[derive(Debug)]
pub struct BailianAsr {
    pub api_key: String,
    pub model: String,
}

/// The request for a recording: the recording stands in it as a data URL.
pub open spec fn request(model: Seq<char>, wav: Seq<u8>) -> json::Json {
    let none = Map::<Seq<char>, json::Json>::empty();
    let audio = none.insert(
        "audio"@,
        json::Json::Text("data:audio/wav;base64,"@ + base64::base64(wav)),
    );
    let message = none.insert("role"@, json::Json::Text("user"@)).insert(
        "content"@,
        json::Json::List(seq![json::Json::Object(audio)]),
    );
    let input = none.insert("messages"@, json::Json::List(seq![json::Json::Object(message)]));
    json::Json::Object(
        none.insert("model"@, json::Json::Text(model)).insert("input"@, json::Json::Object(input)),
    )
}

/// A list of one value.
pub(crate) fn single(v: serde_json::Value) -> (r: serde_json::Value)
    ensures
        json::tree(r) == json::Json::List(seq![json::tree(v)]),
{
    let mut list: Vec<serde_json::Value> = Vec::new();
    list.push(v);
    assert(json::trees(list@) =~= seq![json::tree(v)]);
    json::of_list(list)
}

/// The texts of the parts of an answer, one behind the other; parts without
/// text are passed over.
pub open spec fn part_texts(parts: Seq<json::Json>) -> Seq<char>
    decreases parts.len(),
{
    if parts.len() == 0 {
        Seq::empty()
    } else {
        part_texts(parts.drop_last()) + match json::text_member(parts.last(), "text"@) {
            Some(t) => t,
            None => Seq::empty(),
        }
    }
}

/// The texts of the items of a list, one behind the other.
pub(crate) fn join_parts(v: &serde_json::Value) -> (r: Option<String>)
    ensures
        match json::tree(*v).as_list() {
            Some(parts) => r is Some && r->0@ == part_texts(parts),
            None => r is None,
        },
{
    let n = match json::length(v) {
        Some(n) => n,
        None => return None,
    };
    let ghost parts = json::tree(*v).as_list()->0;
    let mut out = String::new();
    let mut i: usize = 0;
    while i < n
        invariant
            i <= n,
            n == parts.len(),
            json::tree(*v).as_list() == Some(parts),
            out@ == part_texts(parts.take(i as int)),
        decreases n - i,
    {
        assert(parts.take(i + 1).drop_last() == parts.take(i as int));
        if let Some(part) = json::at(v, i) {
            if let Some(t) = json::get_text(part, "text") {
                out.append(&t);
            } else {
                assert(out@ =~= out@ + Seq::<char>::empty());
            }
        }
        i += 1;
    }
    assert(parts.take(parts.len() as int) == parts);
    Some(out)
}

/// The content of an answer: `output.choices[0].message.content`.
pub open spec fn content(answer: json::Json) -> Option<json::Json> {
    match answer.member("output"@) {
        None => None,
        Some(output) => match output.member("choices"@) {
            None => None,
            Some(choices) => match choices.item(0) {
                None => None,
                Some(choice) => match choice.member("message"@) {
                    None => None,
                    Some(message) => message.member("content"@),
                },
            },
        },
    }
}

fn find_content(answer: &serde_json::Value) -> (r: Option<&serde_json::Value>)
    ensures
        match content(json::tree(*answer)) {
            Some(c) => r is Some && json::tree(*r->0) == c,
            None => r is None,
        },
{
    let output = match json::get(answer, "output") {
        Some(v) => v,
        None => return None,
    };
    let choices = match json::get(output, "choices") {
        Some(v) => v,
        None => return None,
    };
    let choice = match json::at(choices, 0) {
        Some(v) => v,
        None => return None,
    };
    match json::get(choice, "message") {
        Some(message) => json::get(message, "content"),
        None => None,
    }
}

/// The text of an answer, which comes as a text or as a list of parts.
pub open spec fn answer_text(answer: json::Json) -> Result<Seq<char>, Seq<char>> {
    match content(answer) {
        Some(json::Json::Text(s)) => Ok(s),
        Some(json::Json::List(parts)) => Ok(part_texts(parts)),
        _ => Err("无法解析 DashScope 响应："@ + json::written(answer)),
    }
}

/// What an answer means: the text, or why there is none.
pub open spec fn transcription(ok: bool, status: Seq<char>, answer: json::Json) -> Result<
    Seq<char>,
    Seq<char>,
> {
    if !ok {
        let code = match json::text_member(answer, "code"@) {
            Some(c) => c,
            None => "unknown"@,
        };
        let message = match json::text_member(answer, "message"@) {
            Some(m) => m,
            None => "no message"@,
        };
        Err("DashScope HTTP "@ + status + "（"@ + code + "）："@ + message)
    } else {
        match answer_text(answer) {
            Err(e) => Err(e),
            Ok(t) => if text::blank(t) {
                Err("ASR 返回空文本（原始响应："@ + json::written(answer) + "）"@)
            } else {
                Ok(t)
            },
        }
    }
}

impl BailianAsr {
    pub fn new(api_key: String, model: String) -> (r: Self)
        ensures
            r.api_key == api_key,
            r.model == model,
    {
        BailianAsr { api_key, model }
    }

    /// The request for a recording.
    pub fn build_body(&self, wav_bytes: &[u8]) -> (r: serde_json::Value)
        requires
            wav_bytes@.len() <= isize::MAX / 2,
        ensures
            json::tree(r) == request(self.model@, wav_bytes@),
    {
        let url = concat("data:audio/wav;base64,", &base64::encode(wav_bytes));
        let mut audio = Members::new();
        audio.put_text("audio", &url);
        let mut message = Members::new();
        message.put_text("role", "user");
        message.put("content", single(audio.done()));
        let mut input = Members::new();
        input.put("messages", single(message.done()));
        let mut body = Members::new();
        body.put_text("model", &self.model);
        body.put("input", input.done());
        body.done()
    }

    /// The request for a recording, as it is sent.
    pub fn request_text(&self, wav_bytes: &[u8]) -> (r: String)
        requires
            wav_bytes@.len() <= isize::MAX / 2,
        ensures
            r@ == json::written(request(self.model@, wav_bytes@)),
    {
        json::write(&self.build_body(wav_bytes))
    }

    /// The text of an answer.
    pub fn extract_text(v: &serde_json::Value) -> (r: Result<String, String>)
        ensures
            match answer_text(json::tree(*v)) {
                Ok(t) => r is Ok && r->Ok_0@ == t,
                Err(e) => r is Err && r->Err_0@ == e,
            },
    {
        if let Some(c) = find_content(v) {
            if let Some(s) = json::text(c) {
                return Ok(s);
            }
            if let Some(s) = join_parts(c) {
                return Ok(s);
            }
        }
        Err(concat("无法解析 DashScope 响应：", &json::write(v)))
    }

    /// What an answer means. `status` is the status of the reply in words.
    pub fn read_answer(ok: bool, status: &str, v: &serde_json::Value) -> (r: Result<String, String>)
        ensures
            match transcription(ok, status@, json::tree(*v)) {
                Ok(t) => r is Ok && r->Ok_0@ == t,
                Err(e) => r is Err && r->Err_0@ == e,
            },
    {
        if !ok {
            let code = match json::get_text(v, "code") {
                Some(c) => c,
                None => "unknown".to_string(),
            };
            let message = match json::get_text(v, "message") {
                Some(m) => m,
                None => "no message".to_string(),
            };
            let mut e = concat("DashScope HTTP ", status);
            e.append("（");
            e.append(&code);
            e.append("）：");
            e.append(&message);
            return Err(e);
        }
        let t = match Self::extract_text(v) {
            Ok(t) => t,
            Err(e) => return Err(e),
        };
        if text::is_blank(&t) {
            let mut e = concat("ASR 返回空文本（原始响应：", &json::write(v));
            e.append("）");
            return Err(e);
        }
        Ok(t)
    }

    /// What a reply means, from its body. What is said of a body that is no JSON
    /// begins like the message of an HTTP client that could not decode it.
    pub fn read_reply(ok: bool, status: &str, body: &[u8]) -> (r: Result<String, String>)
        ensures
            match json::parsed_bytes(body@) {
                Err(e) => r is Err && r->Err_0@
                    == "DashScope 响应不是合法 JSON: error decoding response body: "@ + e,
                Ok(answer) => match transcription(ok, status@, answer) {
                    Ok(t) => r is Ok && r->Ok_0@ == t,
                    Err(e) => r is Err && r->Err_0@ == e,
                },
            },
    {
        match json::parse_bytes(body) {
            Ok(v) => Self::read_answer(ok, status, &v),
            Err(e) => Err(concat("DashScope 响应不是合法 JSON: error decoding response body: ", &e)),
        }
    }
}

/// A transcript that is handed on is never blank.
pub proof fn law_transcripts_are_not_blank(ok: bool, status: Seq<char>, answer: json::Json)
    ensures
        transcription(ok, status, answer) matches Ok(t) ==> ok && !text::blank(t),
{
}

/// The texts of parts are joined in order; a part without text adds nothing.
pub proof fn law_parts_are_joined_in_order(a: Seq<json::Json>, b: Seq<json::Json>)
    ensures
        part_texts(a + b) == part_texts(a) + part_texts(b),
        a.len() == 1 ==> part_texts(a) == match a[0].member("text"@) {
            Some(json::Json::Text(t)) => t,
            _ => Seq::empty(),
        },
    decreases b.len(),
{
    if a.len() == 1 {
        reveal_with_fuel(part_texts, 2);
        assert(a.drop_last() =~= Seq::empty());
        assert(part_texts(a) =~= match a[0].member("text"@) {
            Some(json::Json::Text(t)) => t,
            _ => Seq::empty(),
        });
    }
    if b.len() == 0 {
        assert(a + b =~= a);
        assert(part_texts(a) + part_texts(b) =~= part_texts(a));
    } else {
        law_parts_are_joined_in_order(a, b.drop_last());
        assert((a + b).drop_last() =~= a + b.drop_last());
        assert(part_texts(a + b) =~= part_texts(a) + part_texts(b));
    }
}

/// A successful answer is the text that stands in it, as it stands there.
pub proof fn law_answers_are_what_was_recognised(
    status: Seq<char>,
    answer: json::Json,
    output: json::Json,
    choices: Seq<json::Json>,
    message: json::Json,
    t: Seq<char>,
)
    requires
        answer.member("output"@) == Some(output),
        output.member("choices"@) == Some(json::Json::List(choices)),
        choices.len() > 0,
        choices[0].member("message"@) == Some(message),
        message.member("content"@) == Some(json::Json::Text(t)),
    ensures
        !text::blank(t) ==> transcription(true, status, answer) == Ok::<Seq<char>, Seq<char>>(t),
        text::blank(t) ==> transcription(true, status, answer) is Err,
{
}

/// The same of an answer that comes in parts.
pub proof fn law_answers_in_parts_are_joined(
    status: Seq<char>,
    answer: json::Json,
    parts: Seq<json::Json>,
)
    requires
        content(answer) == Some(json::Json::List(parts)),
        !text::blank(part_texts(parts)),
    ensures
        transcription(true, status, answer) == Ok::<Seq<char>, Seq<char>>(part_texts(parts)),
{
}

/// A reply that is no success is an error, which gives the status and what the
/// service says about it.
pub proof fn law_refused_recordings_say_why(status: Seq<char>, answer: json::Json, m: Seq<char>)
    ensures
        transcription(false, status, answer) matches Err(x) && search::has_text(x, status),
        answer.member("message"@) == Some(json::Json::Text(m)) ==> (transcription(
            false,
            status,
            answer,
        ) matches Err(x) && search::has_text(x, m)),
{
    let x = transcription(false, status, answer)->Err_0;
    let head = "DashScope HTTP "@;
    assert(x.subrange(head.len() as int, (head.len() + status.len()) as int) =~= status);
    assert(search::occurs_at(x, status, head.len() as int));
    if answer.member("message"@) == Some(json::Json::Text(m)) {
        assert(x.subrange(x.len() - m.len(), x.len() as int) =~= m);
        assert(search::occurs_at(x, m, x.len() - m.len()));
    }
}

/// A request names the model and holds the whole recording, said by the user.
pub proof fn law_requests_carry_the_recording(model: Seq<char>, wav: Seq<u8>)
    ensures
        json::text_member(request(model, wav), "model"@) == Some(model),
        ({
            let messages = request(model, wav).member("input"@)->0.member("messages"@)->0;
            let message = messages.item(0)->0;
            let parts = message.member("content"@)->0;
            &&& request(model, wav).member("input"@) is Some
            &&& messages.item(0) is Some && messages.item(1) is None
            &&& json::text_member(message, "role"@) == Some("user"@)
            &&& parts.item(0) is Some && parts.item(1) is None
            &&& json::text_member(parts.item(0)->0, "audio"@) == Some(
                "data:audio/wav;base64,"@ + base64::base64(wav),
            )
        }),
{
    reveal_strlit("model");
    reveal_strlit("input");
    reveal_strlit("role");
    reveal_strlit("content");
    assert("model"@[0] == 'm' && "input"@[0] == 'i');
    assert("role"@.len() == 4 && "content"@.len() == 7);
}

} // verus!
