//! Which input device is used.
use crate::command::combo;
use crate::text;
use vstd::prelude::*;

verus! {

/// A device as it is listed: its name, and whether the system would choose it.
#[verifier::ext_equal]
pub struct Listed {
    pub name: Seq<char>,
    pub default: bool,
}

pub open spec fn listed(v: Seq<(String, bool)>) -> Seq<Listed> {
    v.map_values(|d: (String, bool)| Listed { name: d.0@, default: d.1 })
}

/// The devices that have a name, without white space around it.
pub open spec fn device_list(names: Seq<Seq<char>>, default_name: Option<Seq<char>>) -> Seq<Listed>
    decreases names.len(),
{
    if names.len() == 0 {
        Seq::empty()
    } else {
        let before = device_list(names.drop_last(), default_name);
        let name = text::trimmed(names.last());
        if name.len() == 0 {
            before
        } else {
            before.push(Listed { name, default: default_name == Some(name) })
        }
    }
}

/// Lists the devices, given their names as the system reports them.
pub fn list_input_devices(names: &Vec<String>, default_name: &Option<String>) -> (r: Vec<
    (String, bool),
>)
    ensures
        listed(r@) == device_list(
            crate::search::texts(names@),
            combo::opt_text(*default_name),
        ),
{
    let ghost all = crate::search::texts(names@);
    let mut out: Vec<(String, bool)> = Vec::new();
    assert(listed(out@) =~= Seq::<Listed>::empty());
    for i in 0..names.len()
        invariant
            all == crate::search::texts(names@),
            listed(out@) == device_list(all.take(i as int), combo::opt_text(*default_name)),
    {
        assert(all.take(i + 1).drop_last() == all.take(i as int));
        assert(all[i as int] == names@[i as int]@);
        let name = text::trim(&names[i]);
        if !name.as_str().is_empty() {
            let is_default = match default_name {
                Some(d) => text::same(d, &name),
                None => false,
            };
            let ghost before = listed(out@);
            let ghost item = Listed { name: name@, default: is_default };
            out.push((name, is_default));
            assert(listed(out@) =~= before.push(item));
        }
    }
    assert(all.take(all.len() as int) == all);
    out
}

/// The device to use: one of those listed, or the system's choice.
#[derive(Debug, Clone, Copy, PartialEq, Eq, Structural)]
pub enum DeviceChoice {
    Listed(usize),
    Default,
}

/// The first device of a name, white space around it aside.
pub open spec fn first_named(names: Seq<Seq<char>>, name: Seq<char>) -> Option<int>
    decreases names.len(),
{
    if names.len() == 0 {
        None
    } else {
        match first_named(names.drop_last(), name) {
            Some(i) => Some(i),
            None => if text::trimmed(names.last()) == name {
                Some(names.len() - 1)
            } else {
                None
            },
        }
    }
}

/// The device that the user has chosen, where it is there; else the system's
/// choice, where it has one.
pub open spec fn chosen_device(
    configured: Option<Seq<char>>,
    names: Seq<Seq<char>>,
    has_default: bool,
) -> Option<DeviceChoice> {
    let found = match configured {
        Some(c) if !text::blank(c) => first_named(names, text::trimmed(c)),
        _ => None,
    };
    match found {
        Some(i) => Some(DeviceChoice::Listed(i as usize)),
        None => if has_default {
            Some(DeviceChoice::Default)
        } else {
            None
        },
    }
}

fn find_named(names: &Vec<String>, name: &str) -> (r: Option<usize>)
    ensures
        match first_named(crate::search::texts(names@), name@) {
            Some(i) => r is Some && r->0 == i,
            None => r is None,
        },
{
    let ghost all = crate::search::texts(names@);
    let mut found: Option<usize> = None;
    for i in 0..names.len()
        invariant
            all == crate::search::texts(names@),
            match first_named(all.take(i as int), name@) {
                Some(k) => found is Some && found->0 == k,
                None => found is None,
            },
    {
        assert(all.take(i + 1).drop_last() == all.take(i as int));
        assert(all[i as int] == names@[i as int]@);
        if found.is_none() && text::same(&text::trim(&names[i]), name) {
            found = Some(i);
        }
    }
    assert(all.take(all.len() as int) == all);
    found
}

/// Chooses the input device, given the names that the system reports and
/// whether it has a choice of its own.
pub fn resolve_input_device(configured: Option<&str>, names: &Vec<String>, has_default: bool) -> (r:
    Result<DeviceChoice, String>)
    ensures
        match chosen_device(
            match configured {
                Some(c) => Some(c@),
                None => None,
            },
            crate::search::texts(names@),
            has_default,
        ) {
            Some(d) => r == Ok::<DeviceChoice, String>(d),
            None => r is Err && r->Err_0@ == "未找到可用的麦克风设备"@,
        },
{
    if let Some(c) = configured {
        if !text::is_blank(c) {
            if let Some(i) = find_named(names, &text::trim(c)) {
                return Ok(DeviceChoice::Listed(i));
            }
        }
    }
    if has_default {
        Ok(DeviceChoice::Default)
    } else {
        Err("未找到可用的麦克风设备".to_string())
    }
}

/// A device that is unplugged does not stop recording as long as the system
/// has another.
pub proof fn law_missing_device_falls_back(configured: Option<Seq<char>>, names: Seq<Seq<char>>)
    ensures
        chosen_device(configured, names, true) is Some,
        configured is None ==> chosen_device(configured, names, true) == Some(
            DeviceChoice::Default,
        ),
{
}

/// A device is listed under its name, in its turn, and marked where the system
/// would choose it; one without a name is not listed.
pub proof fn law_named_devices_are_listed(
    names: Seq<Seq<char>>,
    name: Seq<char>,
    default_name: Option<Seq<char>>,
)
    ensures
        text::blank(name) ==> device_list(names.push(name), default_name) == device_list(
            names,
            default_name,
        ),
        !text::blank(name) ==> device_list(names.push(name), default_name) == device_list(
            names,
            default_name,
        ).push(
            Listed { name: text::trimmed(name), default: default_name == Some(text::trimmed(name)) },
        ),
{
    assert(names.push(name).drop_last() =~= names);
    text::lemma_blank_trimmed(name);
}

proof fn lemma_first_named(names: Seq<Seq<char>>, name: Seq<char>, i: int)
    ensures
        0 <= i < names.len() && text::trimmed(names[i]) == name && (forall|j: int|
            0 <= j < i ==> text::trimmed(#[trigger] names[j]) != name) ==> first_named(names, name)
            == Some(i),
        (forall|j: int| 0 <= j < names.len() ==> text::trimmed(#[trigger] names[j]) != name)
            ==> first_named(names, name) is None,
    decreases names.len(),
{
    if names.len() > 0 {
        let head = names.drop_last();
        lemma_first_named(head, name, i);
        assert forall|j: int| 0 <= j < head.len() implies #[trigger] head[j] == names[j] by {}
        assert(names[names.len() - 1] == names.last());
    }
}

/// The device that the user has chosen is used wherever it is there, whether or
/// not the system would choose another; where it is not, the system chooses.
pub proof fn law_the_chosen_device_is_used(
    configured: Seq<char>,
    names: Seq<Seq<char>>,
    has_default: bool,
    i: int,
)
    requires
        !text::blank(configured),
        names.len() <= usize::MAX,
    ensures
        0 <= i < names.len() && text::trimmed(names[i]) == text::trimmed(configured) && (forall|
            j: int,
        |
            0 <= j < i ==> text::trimmed(#[trigger] names[j]) != text::trimmed(configured))
            ==> chosen_device(Some(configured), names, has_default) == Some(
            DeviceChoice::Listed(i as usize),
        ),
        (forall|j: int|
            0 <= j < names.len() ==> text::trimmed(#[trigger] names[j]) != text::trimmed(
                configured,
            )) ==> chosen_device(Some(configured), names, has_default) == if has_default {
            Some(DeviceChoice::Default)
        } else {
            None
        },
{
    lemma_first_named(names, text::trimmed(configured), i);
}

} // verus!
