//! The configuration file as a whole.
use crate::command::combo;
use crate::config::command::CommandConfig;
use crate::config::hotkeys;
use crate::config::hotkeys::HotkeyConfig;
use crate::config::sections;
use crate::config::sections::{AsrConfig, AudioConfig, LlmConfig, WakewordConfig};
use crate::hotkey::bindings;
use crate::hotkey::bindings::{Bindings, Platform};
use crate::search;
use crate::text;
use vstd::prelude::*;

verus! {

/// Everything that the user can configure.
#[derive(Debug, PartialEq)]
pub struct Config {
    pub asr: AsrConfig,
    pub llm: LlmConfig,
    pub command: CommandConfig,
    pub hotkey: HotkeyConfig,
    pub audio: AudioConfig,
    pub wakeword: WakewordConfig,
    /// The key, as the first version of the file had it.
    pub dashscope_api_key: Option<String>,
    /// The model, as the first version of the file had it.
    pub asr_model: Option<String>,
    /// From this time on, a press is a long one.
    pub long_press_threshold_ms: u64,
    /// Within this time, a second short press clears the bar.
    pub double_press_window_ms: u64,
    /// How long a command is shown before it is run.
    pub command_countdown_ms: u64,
}

/// Everything but the key for speech recognition is as where there is no file.
pub open spec fn plain_but_for_key(c: Config) -> bool {
    &&& c.asr.provider@ == "bailian"@
    &&& c.asr.protocol is None
    &&& c.asr.model is None
    &&& c.asr.base_url is None
    &&& c.llm.provider is None
    &&& c.llm.protocol is None
    &&& c.llm.model is None
    &&& c.llm.base_url is None
    &&& c.llm.api_key is None
    &&& c.llm.strength is None
    &&& c.llm.current_style is None
    &&& c.command.countdown_ms is None
    &&& c.command.action@.len() == 0
    &&& c.command.modifier@.len() == 0
    &&& c.command.key@.len() == 0
    &&& c.command.stop@.len() == 0
    &&& c.command.homophone@.len() == 0
    &&& c.command.lightning_disabled@.len() == 0
    &&& c.command.lightning_threshold is None
    &&& !HotkeyConfig::says_something(c.hotkey@)
    &&& c.audio.input_device is None
    &&& c.wakeword@ == sections::default_wakeword()
    &&& c.dashscope_api_key is None
    &&& c.asr_model is None
    &&& c.long_press_threshold_ms == 150
    &&& c.double_press_window_ms == 350
    &&& c.command_countdown_ms == 1000
}

impl Default for Config {
    fn default() -> (r: Self)
        ensures
            plain_but_for_key(r),
            r.asr.api_key is None,
    {
        Config {
            asr: AsrConfig::default(),
            llm: LlmConfig::default(),
            command: CommandConfig::default(),
            hotkey: HotkeyConfig::default(),
            audio: AudioConfig::default(),
            wakeword: WakewordConfig::default(),
            dashscope_api_key: None,
            asr_model: None,
            long_press_threshold_ms: 150,
            double_press_window_ms: 350,
            command_countdown_ms: 1000,
        }
    }
}

/// The text, where it is more than white space.
pub open spec fn filled(o: Option<Seq<char>>) -> Option<Seq<char>> {
    match o {
        Some(s) if !text::blank(s) => Some(s),
        _ => None,
    }
}

/// A copy of the text, where it is more than white space.
pub fn filled_text(o: &Option<String>) -> (r: Option<String>)
    ensures
        combo::opt_text(r) == filled(combo::opt_text(*o)),
{
    match o {
        Some(s) => if text::is_blank(s) {
            None
        } else {
            Some(s.clone())
        },
        None => None,
    }
}

impl Config {
    /// The key for speech recognition: that of the section, else the old one
    /// at the top level. A blank key is none.
    pub open spec fn recognition_key(self) -> Option<Seq<char>> {
        filled(
            match self.asr.api_key {
                Some(k) => Some(k@),
                None => combo::opt_text(self.dashscope_api_key),
            },
        )
    }

    pub fn asr_api_key(&self) -> (r: Option<String>)
        ensures
            combo::opt_text(r) == self.recognition_key(),
    {
        match &self.asr.api_key {
            Some(_) => filled_text(&self.asr.api_key),
            None => filled_text(&self.dashscope_api_key),
        }
    }

    /// The protocol of speech recognition. Where none is given, the way in
    /// which providers used to be written decides.
    pub open spec fn recognition_protocol(self) -> Seq<char> {
        match self.asr.protocol {
            Some(p) => p@,
            None => if self.asr.provider@ == "bailian-http"@ {
                "dashscope-http"@
            } else {
                "dashscope-realtime"@
            },
        }
    }

    pub fn asr_protocol(&self) -> (r: String)
        ensures
            r@ == self.recognition_protocol(),
    {
        match &self.asr.protocol {
            Some(p) => p.clone(),
            None => if text::same(&self.asr.provider, "bailian-http") {
                "dashscope-http".to_string()
            } else {
                "dashscope-realtime".to_string()
            },
        }
    }

    /// The model of speech recognition, by default that of the protocol.
    pub open spec fn recognition_model(self) -> Seq<char> {
        match self.asr.model {
            Some(m) => m@,
            None => match self.asr_model {
                Some(m) => m@,
                None => if self.recognition_protocol() == "dashscope-http"@ {
                    "qwen3-asr-flash"@
                } else {
                    "fun-asr-realtime"@
                },
            },
        }
    }

    pub fn asr_model_name(&self) -> (r: String)
        ensures
            r@ == self.recognition_model(),
    {
        match &self.asr.model {
            Some(m) => m.clone(),
            None => match &self.asr_model {
                Some(m) => m.clone(),
                None => if text::same(&self.asr_protocol(), "dashscope-http") {
                    "qwen3-asr-flash".to_string()
                } else {
                    "fun-asr-realtime".to_string()
                },
            },
        }
    }

    /// The key for polishing; without one, texts are not polished.
    pub fn llm_api_key(&self) -> (r: Option<String>)
        ensures
            combo::opt_text(r) == filled(combo::opt_text(self.llm.api_key)),
    {
        filled_text(&self.llm.api_key)
    }

    pub open spec fn polishing_protocol(self) -> Seq<char> {
        match filled(combo::opt_text(self.llm.protocol)) {
            Some(p) => p,
            None => "openai-chat"@,
        }
    }

    /// The protocol of polishing.
    pub fn llm_protocol(&self) -> (r: String)
        ensures
            r@ == self.polishing_protocol(),
    {
        match filled_text(&self.llm.protocol) {
            Some(p) => p,
            None => "openai-chat".to_string(),
        }
    }

    /// How strongly texts are polished.
    pub fn llm_strength(&self) -> (r: String)
        ensures
            r@ == match filled(combo::opt_text(self.llm.strength)) {
                Some(s) => s,
                None => "standard"@,
            },
    {
        match filled_text(&self.llm.strength) {
            Some(s) => s,
            None => "standard".to_string(),
        }
    }

    /// The countdown of commands; that of the section goes first.
    pub fn effective_command_countdown_ms(&self) -> (r: u64)
        ensures
            r == match self.command.countdown_ms {
                Some(ms) => ms,
                None => self.command_countdown_ms,
            },
    {
        match self.command.countdown_ms {
            Some(ms) => ms,
            None => self.command_countdown_ms,
        }
    }

    /// The bindings that the section gives; those of the platform where it
    /// says nothing or cannot be read.
    pub open spec fn bound_keys(self, platform: Platform) -> bindings::BindingsView {
        if !HotkeyConfig::says_something(self.hotkey@) {
            bindings::default_bindings(platform)
        } else {
            match hotkeys::section_bindings(self.hotkey@, platform) {
                Ok(b) => b,
                Err(_) => bindings::default_bindings(platform),
            }
        }
    }

    pub fn hotkey_bindings(&self, platform: Platform) -> (r: Bindings)
        ensures
            r@ == self.bound_keys(platform),
    {
        let keyboard = self.hotkey.keyboard.trigger.is_some()
            || self.hotkey.keyboard.repair.is_some() || self.hotkey.keyboard.command.is_some()
            || self.hotkey.keyboard.cancel.is_some();
        if !keyboard && self.hotkey.mouse.is_none() {
            return Bindings::platform_default(platform);
        }
        match self.hotkey.clone().into_bindings(platform) {
            Ok(b) => b,
            Err(_) => Bindings::platform_default(platform),
        }
    }
}

// ---------------------------------------------------------------------------
// Loading
// ---------------------------------------------------------------------------

/// What was found where the file should be.
#[derive(Debug)]
pub enum ConfigSource {
    Missing,
    Unreadable { path: String, error: String },
    Invalid { path: String, error: String },
    Parsed(Config),
}

/// What the user is told about the file.
pub open spec fn load_warning(source: ConfigSource) -> Option<Seq<char>> {
    match source {
        ConfigSource::Missing => Some(
            "未找到配置文件 ~/.drop-typing.toml。请创建并填入 ASR API Key；或设置环境变量 DASHSCOPE_API_KEY。"@,
        ),
        ConfigSource::Unreadable { path, error } => Some(
            "配置文件读取失败（"@ + path@ + "）："@ + error@,
        ),
        ConfigSource::Invalid { path, error } => Some(
            "配置文件解析失败（"@ + path@ + "）："@ + error@
                + "。请检查格式，或参考 config.example.toml。"@,
        ),
        ConfigSource::Parsed(_) => None,
    }
}

impl Config {
    /// The key of the environment stands in where the file has none.
    pub open spec fn key_from(self, env_key: Option<Seq<char>>) -> Option<Seq<char>> {
        if self.recognition_key() is None && filled(env_key) is Some {
            env_key
        } else {
            combo::opt_text(self.asr.api_key)
        }
    }

    /// Lets the key of the environment stand in where the file has none.
    pub fn apply_env_key(&mut self, env_key: Option<String>)
        ensures
            combo::opt_text(final(self).asr.api_key) == old(self).key_from(
                combo::opt_text(env_key),
            ),
            final(self).asr.provider == old(self).asr.provider,
            final(self).asr.protocol == old(self).asr.protocol,
            final(self).asr.model == old(self).asr.model,
            final(self).asr.base_url == old(self).asr.base_url,
            final(self).llm == old(self).llm,
            final(self).command == old(self).command,
            final(self).hotkey == old(self).hotkey,
            final(self).audio == old(self).audio,
            final(self).wakeword == old(self).wakeword,
            final(self).dashscope_api_key == old(self).dashscope_api_key,
            final(self).asr_model == old(self).asr_model,
            final(self).long_press_threshold_ms == old(self).long_press_threshold_ms,
            final(self).double_press_window_ms == old(self).double_press_window_ms,
            final(self).command_countdown_ms == old(self).command_countdown_ms,
    {
        if self.asr_api_key().is_none() {
            if let Some(key) = env_key {
                if !text::is_blank(&key) {
                    self.asr.api_key = Some(key);
                }
            }
        }
    }

    /// A configuration that can be worked with, whatever was found, and what
    /// the user is to be told.
    pub fn load_lenient(source: ConfigSource, env_key: Option<String>) -> (r: (
        Config,
        Option<String>,
    ))
        ensures
            combo::opt_text(r.1) == load_warning(source),
            source matches ConfigSource::Parsed(c) ==> {
                &&& combo::opt_text(r.0.asr.api_key) == c.key_from(combo::opt_text(env_key))
                &&& r.0.asr.provider == c.asr.provider
                &&& r.0.asr.protocol == c.asr.protocol
                &&& r.0.asr.model == c.asr.model
                &&& r.0.asr.base_url == c.asr.base_url
                &&& r.0.llm == c.llm
                &&& r.0.command == c.command
                &&& r.0.hotkey == c.hotkey
                &&& r.0.audio == c.audio
                &&& r.0.wakeword == c.wakeword
                &&& r.0.dashscope_api_key == c.dashscope_api_key
                &&& r.0.asr_model == c.asr_model
                &&& r.0.long_press_threshold_ms == c.long_press_threshold_ms
                &&& r.0.double_press_window_ms == c.double_press_window_ms
                &&& r.0.command_countdown_ms == c.command_countdown_ms
            },
            !(source is Parsed) ==> {
                &&& combo::opt_text(r.0.asr.api_key) == filled(combo::opt_text(env_key))
                &&& plain_but_for_key(r.0)
            },
    {
        let mut warning: Option<String> = None;
        let mut cfg: Config = match source {
            ConfigSource::Parsed(c) => c,
            ConfigSource::Missing => {
                warning = Some(
                    "未找到配置文件 ~/.drop-typing.toml。请创建并填入 ASR API Key；或设置环境变量 DASHSCOPE_API_KEY。".to_string(),
                );
                Config::default()
            },
            ConfigSource::Unreadable { path, error } => {
                let mut w = "配置文件读取失败（".to_string();
                w.append(&path);
                w.append("）：");
                w.append(&error);
                warning = Some(w);
                Config::default()
            },
            ConfigSource::Invalid { path, error } => {
                let mut w = "配置文件解析失败（".to_string();
                w.append(&path);
                w.append("）：");
                w.append(&error);
                w.append("。请检查格式，或参考 config.example.toml。");
                warning = Some(w);
                Config::default()
            },
        };
        cfg.apply_env_key(env_key);
        (cfg, warning)
    }
}

// ---------------------------------------------------------------------------
// Positions in the file
// ---------------------------------------------------------------------------

/// How many line feeds the bytes hold.
pub open spec fn line_feeds(b: Seq<u8>) -> nat
    decreases b.len(),
{
    if b.len() == 0 {
        0
    } else {
        line_feeds(b.drop_last()) + if b.last() == 10 {
            1nat
        } else {
            0nat
        }
    }
}

/// How many bytes follow the last line feed.
pub open spec fn line_tail(b: Seq<u8>) -> nat
    decreases b.len(),
{
    if b.len() == 0 || b.last() == 10 {
        0
    } else {
        line_tail(b.drop_last()) + 1
    }
}

/// The message about a position: its line and column, both counted from one,
/// the column in bytes. A position behind the end is taken for the end.
pub open spec fn located(raw: Seq<u8>, start: Option<usize>, message: Seq<char>) -> Seq<char> {
    match start {
        Some(at) => {
            let before = raw.take(
                if at <= raw.len() {
                    at as int
                } else {
                    raw.len() as int
                },
            );
            "第 "@ + search::decimal(line_feeds(before) + 1) + " 行第 "@ + search::decimal(
                line_tail(before) + 1,
            ) + " 列："@ + message
        },
        None => message,
    }
}

/// The message about a file that cannot be read, with the place where reading
/// stopped: `start` is its offset in bytes.
pub fn format_toml_error(raw: &[u8], start: Option<usize>, message: &str) -> (r: String)
    requires
        raw@.len() < u64::MAX,
    ensures
        r@ == located(raw@, start, message@),
{
    let at = match start {
        Some(at) => at,
        None => return message.to_string(),
    };
    let end: usize = if at <= raw.len() {
        at
    } else {
        raw.len()
    };
    let mut line: u64 = 0;
    let mut tail: u64 = 0;
    for i in 0..end
        invariant
            end <= raw@.len() < u64::MAX,
            line == line_feeds(raw@.take(i as int)),
            tail == line_tail(raw@.take(i as int)),
            line <= i,
            tail <= i,
    {
        assert(raw@.take(i + 1).drop_last() == raw@.take(i as int));
        if raw[i] == 10 {
            line += 1;
            tail = 0;
        } else {
            tail += 1;
        }
    }
    let mut r = "第 ".to_string();
    r.append(&search::decimal_text(line + 1));
    r.append(" 行第 ");
    r.append(&search::decimal_text(tail + 1));
    r.append(" 列：");
    r.append(message);
    r
}

/// The program has to be started anew for the new configuration: hotkeys or
/// wake words have changed.
pub fn needs_restart(old_cfg: &Config, new_cfg: &Config) -> (r: bool)
    ensures
        r == (old_cfg.hotkey@ != new_cfg.hotkey@ || !sections::equal_wakewords(
            old_cfg.wakeword@,
            new_cfg.wakeword@,
        )),
{
    !old_cfg.hotkey.same(&new_cfg.hotkey) || !old_cfg.wakeword.same(&new_cfg.wakeword)
}

// ---------------------------------------------------------------------------
// Laws
// ---------------------------------------------------------------------------

/// A restart is asked for in either direction or in none, and never for a
/// configuration that has not changed and whose thresholds are numbers.
pub proof fn law_restart_is_symmetric(a: Config, b: Config)
    ensures
        sections::equal_wakewords(a.wakeword@, b.wakeword@) == sections::equal_wakewords(
            b.wakeword@,
            a.wakeword@,
        ),
        !sections::not_a_number(a.wakeword.keywords_threshold) && !sections::not_a_number(
            a.wakeword.keywords_score,
        ) ==> sections::equal_wakewords(a.wakeword@, a.wakeword@),
{
}

/// The key is looked for in the section, then at the old place, then in the
/// environment, and a blank one is never used.
pub proof fn law_key_sources_in_order(cfg: Config, env_key: Option<Seq<char>>)
    ensures
        cfg.recognition_key() is Some ==> filled(cfg.key_from(env_key)) == filled(
            combo::opt_text(cfg.asr.api_key),
        ),
        cfg.recognition_key() is None && filled(env_key) is Some ==> cfg.key_from(env_key)
            == env_key,
        cfg.recognition_key() matches Some(k) ==> !text::blank(k),
{
}

/// Where the section says nothing, or names a key that there is none of, the
/// platform's own keys are bound; else those of the section.
pub proof fn law_bindings_are_never_missing(cfg: Config, platform: Platform)
    ensures
        !HotkeyConfig::says_something(cfg.hotkey@) ==> cfg.bound_keys(platform)
            == bindings::default_bindings(platform),
        hotkeys::section_bindings(cfg.hotkey@, platform) is Err ==> cfg.bound_keys(platform)
            == bindings::default_bindings(platform),
        HotkeyConfig::says_something(cfg.hotkey@) && hotkeys::section_bindings(
            cfg.hotkey@,
            platform,
        ) is Ok ==> cfg.bound_keys(platform) == hotkeys::section_bindings(
            cfg.hotkey@,
            platform,
        )->Ok_0,
        HotkeyConfig::says_something(cfg.hotkey@) <==> cfg.hotkey.keyboard.trigger is Some
            || cfg.hotkey.keyboard.repair is Some || cfg.hotkey.keyboard.command is Some
            || cfg.hotkey.keyboard.cancel is Some || cfg.hotkey.mouse is Some,
{
}

/// What a section gives is used as it is; what it leaves out follows from the
/// rest: the key from the old place, the protocol from the provider, the model
/// from the old place or the protocol.
pub proof fn law_sections_go_before_what_follows_from_them(cfg: Config, s: String)
    ensures
        cfg.asr.api_key == Some(s) && !text::blank(s@) ==> cfg.recognition_key() == Some(s@),
        cfg.asr.api_key is None && cfg.dashscope_api_key == Some(s) && !text::blank(s@)
            ==> cfg.recognition_key() == Some(s@),
        cfg.asr.api_key is None && cfg.dashscope_api_key is None ==> cfg.recognition_key() is None,
        cfg.asr.protocol == Some(s) ==> cfg.recognition_protocol() == s@,
        cfg.asr.protocol is None ==> (cfg.recognition_protocol() == "dashscope-http"@
            <==> cfg.asr.provider@ == "bailian-http"@),
        cfg.asr.protocol is None && cfg.asr.provider@ != "bailian-http"@
            ==> cfg.recognition_protocol() == "dashscope-realtime"@,
        cfg.asr.model == Some(s) ==> cfg.recognition_model() == s@,
        cfg.asr.model is None && cfg.asr_model == Some(s) ==> cfg.recognition_model() == s@,
        cfg.asr.model is None && cfg.asr_model is None ==> cfg.recognition_model()
            == if cfg.recognition_protocol() == "dashscope-http"@ {
            "qwen3-asr-flash"@
        } else {
            "fun-asr-realtime"@
        },
        cfg.llm.protocol == Some(s) && !text::blank(s@) ==> cfg.polishing_protocol() == s@,
        cfg.llm.protocol is None ==> cfg.polishing_protocol() == "openai-chat"@,
{
    reveal_strlit("dashscope-http");
    reveal_strlit("dashscope-realtime");
    assert("dashscope-http"@.len() != "dashscope-realtime"@.len());
}

/// The user is told unless the file could be read, with its path and what is
/// wrong with it.
pub proof fn law_bad_files_are_reported(path: String, error: String, cfg: Config)
    ensures
        load_warning(ConfigSource::Parsed(cfg)) is None,
        load_warning(ConfigSource::Missing) is Some,
        load_warning(ConfigSource::Unreadable { path, error }) matches Some(w) && search::has_text(
            w,
            path@,
        ) && search::has_text(w, error@),
        load_warning(ConfigSource::Invalid { path, error }) matches Some(w) && search::has_text(
            w,
            path@,
        ) && search::has_text(w, error@),
{
    let a = load_warning(ConfigSource::Unreadable { path, error })->0;
    let b = load_warning(ConfigSource::Invalid { path, error })->0;
    let ah = "配置文件读取失败（"@;
    let bh = "配置文件解析失败（"@;
    let mid = "）："@;
    assert(a.subrange(ah.len() as int, (ah.len() + path@.len()) as int) =~= path@);
    assert(search::occurs_at(a, path@, ah.len() as int));
    let i = (ah.len() + path@.len() + mid.len()) as int;
    assert(a.subrange(i, i + error@.len()) =~= error@);
    assert(search::occurs_at(a, error@, i));
    assert(b.subrange(bh.len() as int, (bh.len() + path@.len()) as int) =~= path@);
    assert(search::occurs_at(b, path@, bh.len() as int));
    let j = (bh.len() + path@.len() + mid.len()) as int;
    assert(b.subrange(j, j + error@.len()) =~= error@);
    assert(search::occurs_at(b, error@, j));
}

/// A place in a file is given by its line, one more than the line feeds before
/// it, and its column, one more than the bytes since the last of them.
pub proof fn law_places_are_counted_from_one(
    before: Seq<u8>,
    line: Seq<u8>,
    rest: Seq<u8>,
    at: usize,
    message: Seq<char>,
)
    requires
        before.len() > 0 ==> before.last() == 10,
        forall|i: int| 0 <= i < line.len() ==> #[trigger] line[i] != 10,
        at == before.len() + line.len(),
    ensures
        located(before + line + rest, Some(at), message) == "第 "@ + search::decimal(
            (before.filter(|x: u8| x == 10).len() + 1) as nat,
        ) + " 行第 "@ + search::decimal((line.len() + 1) as nat) + " 列："@ + message,
        located(before + line + rest, None, message) == message,
{
    let raw = before + line + rest;
    assert(raw.take(at as int) =~= before + line);
    lemma_line(before, line);
    lemma_line_feeds(before);
}

proof fn lemma_line(before: Seq<u8>, line: Seq<u8>)
    requires
        before.len() > 0 ==> before.last() == 10,
        forall|i: int| 0 <= i < line.len() ==> #[trigger] line[i] != 10,
    ensures
        line_feeds(before + line) == line_feeds(before),
        line_tail(before + line) == line.len(),
    decreases line.len(),
{
    if line.len() == 0 {
        assert(before + line =~= before);
    } else {
        let l = line.drop_last();
        assert forall|i: int| 0 <= i < l.len() implies #[trigger] l[i] != 10 by {
            assert(l[i] == line[i]);
        }
        lemma_line(before, l);
        assert((before + line).drop_last() =~= before + l);
        assert(line[line.len() - 1] != 10);
    }
}

proof fn lemma_line_feeds(b: Seq<u8>)
    ensures
        line_feeds(b) == b.filter(|x: u8| x == 10).len(),
    decreases b.len(),
{
    reveal(Seq::filter);
    if b.len() > 0 {
        lemma_line_feeds(b.drop_last());
    }
}

} // verus!
