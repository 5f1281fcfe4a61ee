//! The `[asr]`, `[llm]`, `[audio]` and `[wakeword]` sections.
use crate::command::combo;
use crate::command::combo::clone_opt;
use crate::text;
use vstd::prelude::*;

verus! {

/// The `[asr]` section. `provider` names the vendor; `protocol` chooses the
/// adapter.
#[derive(Debug, PartialEq)]
pub struct AsrConfig {
    pub provider: String,
    pub protocol: Option<String>,
    pub model: Option<String>,
    pub base_url: Option<String>,
    pub api_key: Option<String>,
}

impl Default for AsrConfig {
    fn default() -> (r: Self)
        ensures
            r.provider@ == "bailian"@,
            r.protocol is None,
            r.model is None,
            r.base_url is None,
            r.api_key is None,
    {
        AsrConfig {
            provider: "bailian".to_string(),
            protocol: None,
            model: None,
            base_url: None,
            api_key: None,
        }
    }
}

/// The `[llm]` section.
#[derive(Debug, PartialEq)]
pub struct LlmConfig {
    pub provider: Option<String>,
    pub protocol: Option<String>,
    pub model: Option<String>,
    pub base_url: Option<String>,
    pub api_key: Option<String>,
    /// `conservative` or `standard`.
    pub strength: Option<String>,
    /// The style that texts are polished in, on top of the base prompt.
    pub current_style: Option<String>,
}

impl Default for LlmConfig {
    fn default() -> (r: Self)
        ensures
            r.provider is None,
            r.protocol is None,
            r.model is None,
            r.base_url is None,
            r.api_key is None,
            r.strength is None,
            r.current_style is None,
    {
        LlmConfig {
            provider: None,
            protocol: None,
            model: None,
            base_url: None,
            api_key: None,
            strength: None,
            current_style: None,
        }
    }
}

/// The `[audio]` section.
#[derive(Debug, PartialEq)]
pub struct AudioConfig {
    /// The input device; the system's own choice where there is none.
    pub input_device: Option<String>,
}

impl Default for AudioConfig {
    fn default() -> (r: Self)
        ensures
            r.input_device is None,
    {
        AudioConfig { input_device: None }
    }
}

/// One wake word and the channel that it opens.
#[derive(Debug, PartialEq)]
pub struct KeywordEntry {
    pub keyword: String,
    pub action: String,
}

/// The `[wakeword]` section. The two thresholds are the bits of
/// single-precision numbers.
#[derive(Debug, PartialEq)]
pub struct WakewordConfig {
    pub enabled: bool,
    pub model_dir: String,
    pub keywords: Vec<KeywordEntry>,
    pub keywords_threshold: u32,
    pub keywords_score: u32,
    pub silence_timeout_ms: u64,
    pub pre_roll_ms: u64,
    pub ring_buffer_duration_ms: u64,
}

/// What a [`WakewordConfig`] stands for.
#[verifier::ext_equal]
pub struct WakewordView {
    pub enabled: bool,
    pub model_dir: Seq<char>,
    pub keywords: Seq<(Seq<char>, Seq<char>)>,
    pub keywords_threshold: u32,
    pub keywords_score: u32,
    pub silence_timeout_ms: u64,
    pub pre_roll_ms: u64,
    pub ring_buffer_duration_ms: u64,
}

pub open spec fn keyword_pairs(v: Seq<KeywordEntry>) -> Seq<(Seq<char>, Seq<char>)> {
    v.map_values(|k: KeywordEntry| (k.keyword@, k.action@))
}

impl View for WakewordConfig {
    type V = WakewordView;

    open spec fn view(&self) -> WakewordView {
        WakewordView {
            enabled: self.enabled,
            model_dir: self.model_dir@,
            keywords: keyword_pairs(self.keywords@),
            keywords_threshold: self.keywords_threshold,
            keywords_score: self.keywords_score,
            silence_timeout_ms: self.silence_timeout_ms,
            pre_roll_ms: self.pre_roll_ms,
            ring_buffer_duration_ms: self.ring_buffer_duration_ms,
        }
    }
}

pub open spec fn default_wakeword() -> WakewordView {
    WakewordView {
        enabled: false,
        model_dir: "sherpa-onnx-kws-zipformer-zh-en-3M-2025-12-20"@,
        keywords: Seq::empty(),
        keywords_threshold: 0x3e80_0000,
        keywords_score: 0x3f80_0000,
        silence_timeout_ms: 1500,
        pre_roll_ms: 500,
        ring_buffer_duration_ms: 3000,
    }
}

impl Default for WakewordConfig {
    /// Off, with the built-in model, a threshold of a quarter and a score of one.
    fn default() -> (r: Self)
        ensures
            r@ == default_wakeword(),
    {
        let r = WakewordConfig {
            enabled: false,
            model_dir: "sherpa-onnx-kws-zipformer-zh-en-3M-2025-12-20".to_string(),
            keywords: Vec::new(),
            keywords_threshold: 0x3e80_0000,
            keywords_score: 0x3f80_0000,
            silence_timeout_ms: 1500,
            pre_roll_ms: 500,
            ring_buffer_duration_ms: 3000,
        };
        assert(r@ =~= default_wakeword());
        r
    }
}

// ---------------------------------------------------------------------------
// Equality
// ---------------------------------------------------------------------------

/// The bits of a single-precision number that is none.
pub open spec fn not_a_number(bits: u32) -> bool {
    bits % 0x8000_0000 > 0x7f80_0000
}

pub open spec fn zero(bits: u32) -> bool {
    bits % 0x8000_0000 == 0
}

/// The bits of two single-precision numbers that are equal: what is no number
/// equals nothing, and the two zeros are the same.
pub open spec fn equal_numbers(a: u32, b: u32) -> bool {
    !not_a_number(a) && !not_a_number(b) && (a == b || (zero(a) && zero(b)))
}

fn same_number(a: u32, b: u32) -> (r: bool)
    ensures
        r == equal_numbers(a, b),
{
    let ma: u32 = a % 0x8000_0000;
    let mb: u32 = b % 0x8000_0000;
    ma <= 0x7f80_0000 && mb <= 0x7f80_0000 && (a == b || (ma == 0 && mb == 0))
}

pub open spec fn equal_wakewords(a: WakewordView, b: WakewordView) -> bool {
    &&& a.enabled == b.enabled
    &&& a.model_dir == b.model_dir
    &&& a.keywords == b.keywords
    &&& equal_numbers(a.keywords_threshold, b.keywords_threshold)
    &&& equal_numbers(a.keywords_score, b.keywords_score)
    &&& a.silence_timeout_ms == b.silence_timeout_ms
    &&& a.pre_roll_ms == b.pre_roll_ms
    &&& a.ring_buffer_duration_ms == b.ring_buffer_duration_ms
}

fn same_keywords(a: &Vec<KeywordEntry>, b: &Vec<KeywordEntry>) -> (r: bool)
    ensures
        r == (keyword_pairs(a@) == keyword_pairs(b@)),
{
    if a.len() != b.len() {
        assert(keyword_pairs(a@).len() != keyword_pairs(b@).len());
        return false;
    }
    for i in 0..a.len()
        invariant
            a@.len() == b@.len(),
            forall|j: int| 0 <= j < i ==> keyword_pairs(a@)[j] == keyword_pairs(b@)[j],
    {
        assert(keyword_pairs(a@)[i as int] == (a@[i as int].keyword@, a@[i as int].action@));
        assert(keyword_pairs(b@)[i as int] == (b@[i as int].keyword@, b@[i as int].action@));
        if !text::same(&a[i].keyword, &b[i].keyword) || !text::same(&a[i].action, &b[i].action) {
            return false;
        }
    }
    assert(keyword_pairs(a@) =~= keyword_pairs(b@));
    true
}

impl WakewordConfig {
    /// Whether the two sections say the same.
    pub fn same(&self, other: &WakewordConfig) -> (r: bool)
        ensures
            r == equal_wakewords(self@, other@),
    {
        self.enabled == other.enabled && text::same(&self.model_dir, &other.model_dir)
            && same_keywords(&self.keywords, &other.keywords) && same_number(
            self.keywords_threshold,
            other.keywords_threshold,
        ) && same_number(self.keywords_score, other.keywords_score) && self.silence_timeout_ms
            == other.silence_timeout_ms && self.pre_roll_ms == other.pre_roll_ms
            && self.ring_buffer_duration_ms == other.ring_buffer_duration_ms
    }
}

/// Whether two optional texts are equal.
pub fn same_opt(a: &Option<String>, b: &Option<String>) -> (r: bool)
    ensures
        r == (combo::opt_text(*a) == combo::opt_text(*b)),
{
    match (a, b) {
        (Some(x), Some(y)) => text::same(x, y),
        (None, None) => true,
        _ => false,
    }
}

impl AudioConfig {
    /// Whether the two sections say the same.
    pub fn same(&self, other: &AudioConfig) -> (r: bool)
        ensures
            r == (combo::opt_text(self.input_device) == combo::opt_text(other.input_device)),
    {
        same_opt(&self.input_device, &other.input_device)
    }
}

impl Clone for AudioConfig {
    fn clone(&self) -> (r: Self)
        ensures
            combo::opt_text(r.input_device) == combo::opt_text(self.input_device),
    {
        AudioConfig { input_device: clone_opt(&self.input_device) }
    }
}

/// Two wake word sections are the same only if everything in them is.
pub proof fn law_equal_sections_agree_in_everything(a: WakewordView, b: WakewordView)
    requires
        equal_wakewords(a, b),
    ensures
        a.enabled == b.enabled,
        a.model_dir == b.model_dir,
        a.keywords == b.keywords,
        a.keywords_threshold == b.keywords_threshold || (zero(a.keywords_threshold) && zero(
            b.keywords_threshold,
        )),
        a.keywords_score == b.keywords_score || (zero(a.keywords_score) && zero(b.keywords_score)),
        a.silence_timeout_ms == b.silence_timeout_ms,
        a.pre_roll_ms == b.pre_roll_ms,
        a.ring_buffer_duration_ms == b.ring_buffer_duration_ms,
{
}

} // verus!
