//! Input devices, and listening to one.
use crate::audio::devices;
use crate::command::combo;
use crate::config::file::Config;
use crate::config::sections::AudioConfig;
use crate::json;
use crate::json::Json;
use crate::settings::payload;
use crate::settings::payload::opt_str;
use crate::settings::reply;
use crate::settings::reply::Reply;
use vstd::prelude::*;

verus! {

/// One device of the list.
pub open spec fn listed_device(d: devices::Listed) -> Json {
    Json::Object(
        Map::<Seq<char>, Json>::empty().insert("name"@, Json::Text(d.name)).insert(
            "is_default"@,
            Json::Bool(d.default),
        ),
    )
}

/// The device that the system would choose.
pub open spec fn default_of(list: Seq<devices::Listed>) -> Option<Seq<char>>
    decreases list.len(),
{
    if list.len() == 0 {
        None
    } else {
        match default_of(list.drop_last()) {
            Some(n) => Some(n),
            None => if list.last().default {
                Some(list.last().name)
            } else {
                None
            },
        }
    }
}

pub open spec fn device_page(list: Seq<devices::Listed>, current: Option<Seq<char>>) -> Json {
    Json::Object(
        Map::<Seq<char>, Json>::empty().insert(
            "devices"@,
            Json::List(list.map_values(|d: devices::Listed| listed_device(d))),
        ).insert("current"@, json::opt_text(current)).insert(
            "default_name"@,
            json::opt_text(default_of(list)),
        ),
    )
}

/// Shows the devices that there are, and the one that is chosen.
pub fn audio_view(list: &Vec<(String, bool)>, cfg: &Config) -> (r: Reply)
    ensures
        r@ == (reply::Said {
            event: "drop-typing://audio-config"@,
            body: device_page(devices::listed(list@), combo::opt_text(cfg.audio.input_device)),
        }),
{
    let ghost all = devices::listed(list@);
    let ghost want = all.map_values(|d: devices::Listed| listed_device(d));
    let mut out: Vec<serde_json::Value> = Vec::new();
    let mut default_name: Option<String> = None;
    for i in 0..list.len()
        invariant
            all == devices::listed(list@),
            want == all.map_values(|d: devices::Listed| listed_device(d)),
            out@.len() == i,
            forall|j: int| 0 <= j < i ==> json::tree(#[trigger] out@[j]) == want[j],
            combo::opt_text(default_name) == default_of(all.take(i as int)),
    {
        assert(all.take(i + 1).drop_last() == all.take(i as int));
        assert(all[i as int] == (devices::Listed {
            name: list@[i as int].0@,
            default: list@[i as int].1,
        }));
        let mut m = json::Members::new();
        m.put_text("name", &list[i].0);
        m.put_flag("is_default", list[i].1);
        out.push(m.done());
        if default_name.is_none() && list[i].1 {
            default_name = Some(list[i].0.clone());
        }
    }
    assert(all.take(all.len() as int) == all);
    assert(json::trees(out@) =~= want);
    let mut m = json::Members::new();
    m.put("devices", json::of_list(out));
    m.put_opt_text("current", &cfg.audio.input_device);
    m.put_opt_text("default_name", &default_name);
    reply::reply("drop-typing://audio-config", m.done())
}

/// Takes over the choice of a device; an empty one is the system's.
pub fn apply_audio_payload(cfg: &mut Config, v: &serde_json::Value)
    ensures
        combo::opt_text(final(cfg).audio.input_device) == payload::given_text(
            json::tree(*v),
            "input_device"@,
        ),
        *final(cfg) == (Config { audio: final(cfg).audio, ..*old(cfg) }),
{
    cfg.audio = AudioConfig { input_device: opt_str(v, "input_device") };
}

/// Listening to a device, once at a time.
#[derive(Debug, Clone, Copy, PartialEq, Eq, Structural)]
pub struct SoundTest {
    pub running: bool,
    /// The one that runs is to end.
    pub stop: bool,
}

impl SoundTest {
    pub fn new() -> (r: Self)
        ensures
            r == (SoundTest { running: false, stop: false }),
    {
        SoundTest { running: false, stop: false }
    }

    /// Begins, unless one is running. Whether it is to be begun comes back.
    pub fn start(&mut self) -> (r: bool)
        ensures
            r == !old(self).running,
            *final(self) == (if old(self).running {
                *old(self)
            } else {
                SoundTest { running: true, stop: false }
            }),
    {
        if self.running {
            return false;
        }
        self.running = true;
        self.stop = false;
        true
    }

    /// Asks for the end, also when the page is closed.
    pub fn ask_to_stop(&mut self)
        ensures
            *final(self) == (SoundTest { stop: true, ..*old(self) }),
    {
        self.stop = true;
    }

    /// It has ended, in whatever way; the error, if any, is told.
    pub fn finished(&mut self, error: Option<String>) -> (r: Option<Reply>)
        ensures
            *final(self) == (SoundTest { running: false, stop: false }),
            match error {
                Some(e) => r is Some && r->0@ == (reply::Said {
                    event: "drop-typing://sound-test-error"@,
                    body: Json::Object(
                        Map::<Seq<char>, Json>::empty().insert("message"@, Json::Text(e@)),
                    ),
                }),
                None => r is None,
            },
    {
        self.running = false;
        self.stop = false;
        match error {
            Some(e) => {
                let mut m = json::Members::new();
                m.put_text("message", &e);
                Some(reply::reply("drop-typing://sound-test-error", m.done()))
            },
            None => None,
        }
    }
}

// ---------------------------------------------------------------------------
// Laws
// ---------------------------------------------------------------------------

/// The page shows every device under its name, the one that is chosen, and the
/// first that the system would choose.
pub proof fn law_the_page_shows_the_devices(
    list: Seq<devices::Listed>,
    current: Option<Seq<char>>,
    i: int,
)
    ensures
        device_page(list, current).member("devices"@) matches Some(Json::List(items)) && items.len()
            == list.len() && (0 <= i < list.len() ==> items[i].member("name"@) == Some(
            Json::Text(list[i].name),
        ) && items[i].member("is_default"@) == Some(Json::Bool(list[i].default))),
        json::text_member(device_page(list, current), "current"@) == current,
        0 <= i < list.len() && list[i].default && (forall|j: int|
            0 <= j < i ==> !(#[trigger] list[j]).default) ==> json::text_member(
            device_page(list, current),
            "default_name"@,
        ) == Some(list[i].name),
        (forall|j: int| 0 <= j < list.len() ==> !(#[trigger] list[j]).default)
            ==> json::text_member(device_page(list, current), "default_name"@) is None,
{
    reveal_strlit("devices");
    reveal_strlit("current");
    reveal_strlit("default_name");
    reveal_strlit("name");
    reveal_strlit("is_default");
    assert("devices"@.len() == 7);
    assert("current"@.len() == 7);
    assert("default_name"@.len() == 12);
    assert("name"@.len() == 4);
    assert("is_default"@.len() == 10);
    assert("devices"@[0] == 'd');
    assert("current"@[0] == 'c');
    lemma_default_of(list, i);
}

proof fn lemma_default_of(list: Seq<devices::Listed>, i: int)
    ensures
        0 <= i < list.len() && list[i].default && (forall|j: int|
            0 <= j < i ==> !(#[trigger] list[j]).default) ==> default_of(list) == Some(
            list[i].name,
        ),
        (forall|j: int| 0 <= j < list.len() ==> !(#[trigger] list[j]).default) ==> default_of(list)
            is None,
    decreases list.len(),
{
    if list.len() > 0 {
        let head = list.drop_last();
        lemma_default_of(head, i);
        assert forall|j: int| 0 <= j < head.len() implies #[trigger] head[j] == list[j] by {}
        assert(list[list.len() - 1] == list.last());
    }
}

} // verus!
