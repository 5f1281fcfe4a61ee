//! What a configuration sets up, and what a new one changes while the program runs.
use crate::asr::realtime;
use crate::asr::realtime::{backend_from_config, AsrBackend};
use crate::command::combo;
use crate::command::combo::clone_opt;
use crate::command::lexicon;
use crate::command::lexicon::Lexicon;
use crate::config::sections;
use crate::config::sections::{AudioConfig, WakewordConfig};
use crate::config::Config;
use crate::llm::cleaner;
use crate::llm::cleaner::{cleaner_from_config, Cleaner};
use crate::pipeline::machine::{Backend, Pipeline, Snapshot};
use crate::staging;
use vstd::prelude::*;

verus! {

/// What can be exchanged while the program runs. Times are in milliseconds.
#[derive(Debug)]
pub struct RuntimeState {
    pub backend: Option<AsrBackend>,
    pub cleaner: Option<Cleaner>,
    pub lexicon: Lexicon,
    pub threshold: u64,
    pub double_press: u64,
    pub command_countdown: u64,
}

impl RuntimeState {
    pub fn from_config(cfg: &Config) -> (r: Self)
        ensures
            match realtime::service_for(*cfg) {
                Some(s) => r.backend is Some && r.backend->0@ == s,
                None => r.backend is None,
            },
            match cleaner::model_for(*cfg) {
                Some(m) => r.cleaner is Some && r.cleaner->0@ == m,
                None => r.cleaner is None,
            },
            r.lexicon@ == lexicon::lexicon_for(Some(cfg.command)),
            r.threshold == cfg.long_press_threshold_ms,
            r.double_press == cfg.double_press_window_ms,
            r.command_countdown == match cfg.command.countdown_ms {
                Some(ms) => ms,
                None => cfg.command_countdown_ms,
            },
    {
        RuntimeState {
            backend: backend_from_config(cfg),
            cleaner: cleaner_from_config(cfg),
            lexicon: Lexicon::build(Some(&cfg.command)),
            threshold: cfg.long_press_threshold_ms,
            double_press: cfg.double_press_window_ms,
            command_countdown: cfg.effective_command_countdown_ms(),
        }
    }

    /// What the state machine looks up for an event; whether the spotter is
    /// loaded is known outside.
    pub fn snapshot(&self, lightning: bool) -> (r: Snapshot)
        ensures
            r == (Snapshot {
                backend: match self.backend {
                    None => Backend::Missing,
                    Some(AsrBackend::Realtime(_)) => Backend::Realtime,
                    Some(AsrBackend::Batch(_)) => Backend::Batch,
                },
                lightning,
                threshold_ms: self.threshold,
                double_press_ms: self.double_press,
            }),
    {
        let backend = match &self.backend {
            None => Backend::Missing,
            Some(AsrBackend::Realtime(_)) => Backend::Realtime,
            Some(AsrBackend::Batch(_)) => Backend::Batch,
        };
        Snapshot {
            backend,
            lightning,
            threshold_ms: self.threshold,
            double_press_ms: self.double_press,
        }
    }
}

/// What the user is told about a configuration without a recogniser.
pub const NO_BACKEND: &'static str = "未配置 ASR API Key 或 provider 未知。请检查配置文件（见 config.example.toml）。";

/// What the user is told when the system does not let the program listen for keys.
pub const NOT_TRUSTED: &'static str = "未授予辅助功能权限：系统设置 → 隐私与安全性 → 辅助功能，勾选本应用（dev 模式下是运行它的终端）后重启应用。";

/// The bar after the program has looked at its configuration and its permissions.
pub open spec fn startup_bar(
    bar: staging::Bar,
    warning: Option<Seq<char>>,
    backend: bool,
    trusted: bool,
) -> staging::Bar {
    let b = match warning {
        Some(w) => bar.failed(w),
        None => if backend {
            bar
        } else {
            bar.failed(NO_BACKEND@)
        },
    };
    if trusted {
        b
    } else {
        b.failed(NOT_TRUSTED@)
    }
}

/// The wake word engine is to be left alone, started anew, or stopped.
#[derive(Debug, Clone, Copy, PartialEq, Eq, Structural)]
pub enum WakeSwitch {
    Keep,
    Enable,
    Disable,
}

/// What a new configuration changes.
#[derive(Debug)]
pub struct ReloadPlan {
    /// The input device to switch to, where it has changed.
    pub device: Option<Option<String>>,
    pub wake: WakeSwitch,
}

/// The wake word engine listens on the input device, and so is started anew
/// for a change of either.
pub open spec fn wake_switch(audio_changed: bool, wake_changed: bool, enabled: bool) -> WakeSwitch {
    if !audio_changed && !wake_changed {
        WakeSwitch::Keep
    } else if enabled {
        WakeSwitch::Enable
    } else {
        WakeSwitch::Disable
    }
}

pub fn reload_plan(last_audio: &AudioConfig, last_wakeword: &WakewordConfig, cfg: &Config) -> (r:
    ReloadPlan)
    ensures
        ({
            let audio_changed = combo::opt_text(last_audio.input_device) != combo::opt_text(
                cfg.audio.input_device,
            );
            let wake_changed = !sections::equal_wakewords(last_wakeword@, cfg.wakeword@);
            &&& match r.device {
                Some(name) => audio_changed && combo::opt_text(name) == combo::opt_text(
                    cfg.audio.input_device,
                ),
                None => !audio_changed,
            }
            &&& r.wake == wake_switch(audio_changed, wake_changed, cfg.wakeword.enabled)
        }),
{
    let audio_changed = !last_audio.same(&cfg.audio);
    let wake_changed = !last_wakeword.same(&cfg.wakeword);
    let device = if audio_changed {
        Some(clone_opt(&cfg.audio.input_device))
    } else {
        None
    };
    let wake = if !audio_changed && !wake_changed {
        WakeSwitch::Keep
    } else if cfg.wakeword.enabled {
        WakeSwitch::Enable
    } else {
        WakeSwitch::Disable
    };
    ReloadPlan { device, wake }
}

impl Pipeline {
    /// Tells the user what is wrong as the program starts.
    pub fn report_startup(&mut self, warning: Option<String>, backend: bool, trusted: bool)
        ensures
            final(self)@ == old(self)@.with_bar(
                startup_bar(old(self)@.bar, combo::opt_text(warning), backend, trusted),
            ),
            final(self).pending_device == old(self).pending_device,
    {
        match warning {
            Some(w) => self.staging.error(&w),
            None => {
                if !backend {
                    self.staging.error(NO_BACKEND);
                }
            },
        }
        if !trusted {
            self.staging.error(NOT_TRUSTED);
        }
    }

    /// Tells the user when a new configuration has no recogniser.
    pub fn report_reload(&mut self, backend: bool)
        ensures
            final(self)@ == if backend {
                old(self)@
            } else {
                old(self)@.with_bar(old(self)@.bar.failed(NO_BACKEND@))
            },
            final(self).pending_device == old(self).pending_device,
    {
        if !backend {
            self.staging.error(NO_BACKEND);
        }
    }

    /// The listener for hotkeys could not be started.
    pub fn listener_failed(&mut self, e: &str)
        ensures
            final(self)@ == old(self)@.with_bar(
                old(self)@.bar.failed("全局热键监听启动失败："@ + e@),
            ),
            final(self).pending_device == old(self).pending_device,
    {
        let m = crate::search::concat("全局热键监听启动失败：", e);
        self.staging.error(&m);
    }
}

/// At the start a warning shows as it is, and a missing recogniser where there
/// is no warning; a missing permission shows in any case. Where nothing is wrong,
/// nothing shows.
pub proof fn law_startup_tells_what_is_wrong(
    bar: staging::Bar,
    warning: Option<Seq<char>>,
    backend: bool,
    trusted: bool,
)
    ensures
        ({
            let after = startup_bar(bar, warning, backend, trusted);
            &&& after.text == bar.text
            &&& warning is None && backend && trusted ==> after == bar
            &&& !trusted ==> after.error == Some(NOT_TRUSTED@)
            &&& trusted && warning is Some ==> after.error == warning
            &&& trusted && warning is None && !backend ==> after.error == Some(NO_BACKEND@)
        }),
{
}

/// The wake word engine is left alone exactly when nothing that it depends on
/// has changed; else it runs exactly when it is enabled.
pub proof fn law_wake_engine_follows_the_configuration(
    audio_changed: bool,
    wake_changed: bool,
    enabled: bool,
)
    ensures
        wake_switch(audio_changed, wake_changed, enabled) == WakeSwitch::Keep <==> !audio_changed
            && !wake_changed,
        audio_changed || wake_changed ==> (wake_switch(audio_changed, wake_changed, enabled)
            == WakeSwitch::Enable <==> enabled),
{
}

} // verus!
