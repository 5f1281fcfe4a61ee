//! Commands that are spotted while they are being spoken.
//!
//! Every phrase for a whole command is given to the engine that spots words.
//! Once it hears one with enough certainty, the command runs without waiting
//! for the transcript.
use crate::audio::pcm;
use crate::command::combo;
use crate::command::combo::ParsedCommand;
use crate::command::lexicon;
use crate::command::lexicon::builtin_action_aliases;
use crate::config::command::{CommandActionEntry, CommandConfig};
use crate::json;
use crate::json::Json;
use crate::search;
use crate::text;
use crate::wakeword::text2token;
use crate::wakeword::text2token::Text2Token;
use vstd::prelude::*;

verus! {

// ---------------------------------------------------------------------------
// Phrases
// ---------------------------------------------------------------------------

/// A full-width form as the ASCII character that it stands for.
pub open spec fn half_width(c: char) -> char {
    if '\u{ff01}' <= c <= '\u{ff5e}' {
        (c as u32 - 0xfee0) as char
    } else {
        c
    }
}

/// A phrase without white space around it, in half width and lower case.
pub open spec fn normal_phrase(s: Seq<char>) -> Seq<char> {
    text::trimmed(s).map_values(|c: char| text::ascii_lower(half_width(c)))
}

/// Two phrases are the same if they are the same in this form.
pub fn normalize_phrase(s: &str) -> (r: String)
    ensures
        r@ == normal_phrase(s@),
{
    let cs = text::chars_of(&text::trim(s));
    let mut out = String::new();
    for i in 0..cs.len()
        invariant
            cs@ == text::trimmed(s@),
            out@.len() == i,
            forall|j: int|
                0 <= j < i ==> #[trigger] out@[j] == text::ascii_lower(half_width(cs@[j])),
    {
        let c = cs[i];
        let half = if '\u{ff01}' <= c && c <= '\u{ff5e}' {
            ((c as u32) - 0xfee0) as u8 as char
        } else {
            c
        };
        assert(half == half_width(c));
        out.push(text::to_ascii_lower(half));
    }
    assert(out@ =~= normal_phrase(s@));
    out
}

/// Where a phrase comes from.
#[derive(Debug, Clone, Copy, PartialEq, Eq, Structural)]
pub enum AliasSource {
    Builtin,
    User,
}

/// A phrase for a whole command.
#[derive(Debug, PartialEq, Eq)]
pub struct AliasEntry {
    pub phrase: String,
    pub command: ParsedCommand,
    pub source: AliasSource,
}

/// What an [`AliasEntry`] stands for.
#[verifier::ext_equal]
pub struct Alias {
    pub phrase: Seq<char>,
    pub command: combo::CommandView,
    pub source: AliasSource,
}

impl View for AliasEntry {
    type V = Alias;

    open spec fn view(&self) -> Alias {
        Alias { phrase: self.phrase@, command: self.command@, source: self.source }
    }
}

pub open spec fn aliases(v: Seq<AliasEntry>) -> Seq<Alias> {
    v.map_values(|a: AliasEntry| a@)
}

/// Where a phrase stands in a list.
pub open spec fn place_of(list: Seq<Alias>, key: Seq<char>) -> Option<int>
    decreases list.len(),
{
    if list.len() == 0 {
        None
    } else {
        match place_of(list.drop_last(), key) {
            Some(i) => Some(i),
            None => if normal_phrase(list.last().phrase) == key {
                Some(list.len() - 1)
            } else {
                None
            },
        }
    }
}

/// A phrase takes the place of the same phrase, or else comes last.
pub open spec fn placed(list: Seq<Alias>, a: Alias) -> Seq<Alias> {
    match place_of(list, normal_phrase(a.phrase)) {
        Some(i) => list.update(i, a),
        None => list.push(a),
    }
}

pub open spec fn placed_all(list: Seq<Alias>, more: Seq<Alias>) -> Seq<Alias>
    decreases more.len(),
{
    if more.len() == 0 {
        list
    } else {
        placed(placed_all(list, more.drop_last()), more.last())
    }
}

/// The built-in phrases for whole commands.
pub open spec fn builtin_list() -> Seq<Alias> {
    lexicon::builtin_actions().map_values(
        |e: lexicon::Entry|
            Alias { phrase: e.phrase, command: e.meaning->Action_0, source: AliasSource::Builtin },
    )
}

/// The user's phrases for whole commands, but for empty ones.
pub open spec fn user_list(v: Seq<CommandActionEntry>) -> Seq<Alias>
    decreases v.len(),
{
    if v.len() == 0 {
        Seq::empty()
    } else {
        let before = user_list(v.drop_last());
        let a = v.last();
        if text::blank(a.phrase@) {
            before
        } else {
            before.push(
                Alias {
                    phrase: text::trimmed(a.phrase@),
                    command: a.meaning(),
                    source: AliasSource::User,
                },
            )
        }
    }
}

/// All phrases, each of them once; the user's go before the built-in ones.
pub open spec fn merged(cfg: CommandConfig) -> Seq<Alias> {
    placed_all(placed_all(Seq::empty(), builtin_list()), user_list(cfg.action@))
}

proof fn lemma_place(list: Seq<Alias>, key: Seq<char>)
    ensures
        match place_of(list, key) {
            Some(i) => 0 <= i < list.len() && normal_phrase(list[i].phrase) == key,
            None => forall|i: int|
                0 <= i < list.len() ==> normal_phrase((#[trigger] list[i]).phrase) != key,
        },
    decreases list.len(),
{
    if list.len() > 0 {
        lemma_place(list.drop_last(), key);
        assert forall|i: int| 0 <= i < list.len() && place_of(list, key) is None implies
            normal_phrase((#[trigger] list[i]).phrase) != key by {
            if i < list.len() - 1 {
                assert(list.drop_last()[i] == list[i]);
            }
        }
    }
}

fn find(list: &Vec<AliasEntry>, key: &str) -> (r: Option<usize>)
    ensures
        match place_of(aliases(list@), key@) {
            Some(i) => r is Some && r->0 == i && i < list@.len(),
            None => r is None,
        },
{
    let ghost all = aliases(list@);
    let mut found: Option<usize> = None;
    for i in 0..list.len()
        invariant
            all == aliases(list@),
            match place_of(all.take(i as int), key@) {
                Some(k) => found is Some && found->0 == k && k < i,
                None => found is None,
            },
    {
        assert(all.take(i + 1).drop_last() == all.take(i as int));
        assert(all[i as int] == list@[i as int]@);
        if found.is_none() && text::same(&normalize_phrase(&list[i].phrase), key) {
            found = Some(i);
        }
    }
    assert(all.take(all.len() as int) == all);
    found
}

fn place(list: &mut Vec<AliasEntry>, a: AliasEntry)
    ensures
        aliases(final(list)@) == placed(aliases(old(list)@), a@),
{
    let key = normalize_phrase(&a.phrase);
    let ghost seen = a@;
    match find(list, &key) {
        Some(i) => {
            list.set(i, a);
            assert(aliases(list@) =~= aliases(old(list)@).update(i as int, seen));
        },
        None => {
            list.push(a);
            assert(aliases(list@) =~= aliases(old(list)@).push(seen));
        },
    }
}

/// The built-in phrases together with the user's.
pub fn all_aliases(cfg: &CommandConfig) -> (r: Vec<AliasEntry>)
    ensures
        aliases(r@) == merged(*cfg),
{
    let builtin = builtin_action_aliases();
    let ghost own = builtin_list();
    let ghost none = Seq::<Alias>::empty();
    let mut out: Vec<AliasEntry> = Vec::new();
    assert(aliases(out@) =~= none);
    for i in 0..builtin.len()
        invariant
            own == builtin_list(),
            none == Seq::<Alias>::empty(),
            builtin@.len() == lexicon::builtin_actions().len(),
            forall|i: int|
                #![trigger builtin@[i]]
                0 <= i < builtin@.len() ==> lexicon::builtin_actions()[i] == (lexicon::Entry {
                    phrase: builtin@[i].phrase@,
                    meaning: lexicon::Meaning::Action(builtin@[i].command@),
                }),
            aliases(out@) == placed_all(none, own.take(i as int)),
    {
        let b = &builtin[i];
        let a = AliasEntry {
            phrase: b.phrase.clone(),
            command: b.command.clone(),
            source: AliasSource::Builtin,
        };
        assert(own.take(i + 1).drop_last() == own.take(i as int));
        assert(lexicon::builtin_actions()[i as int].phrase == builtin@[i as int].phrase@);
        assert(own[i as int] == a@);
        place(&mut out, a);
    }
    assert(own.take(own.len() as int) == own);
    let ghost first = aliases(out@);
    for i in 0..cfg.action.len()
        invariant
            aliases(out@) == placed_all(first, user_list(cfg.action@.take(i as int))),
    {
        let ghost before = user_list(cfg.action@.take(i as int));
        assert(cfg.action@.take(i + 1).drop_last() == cfg.action@.take(i as int));
        if !text::is_blank(&cfg.action[i].phrase) {
            let a = AliasEntry {
                phrase: text::trim(&cfg.action[i].phrase),
                command: cfg.action[i].command(),
                source: AliasSource::User,
            };
            let ghost seen = a@;
            place(&mut out, a);
            assert(before.push(seen).drop_last() == before);
        }
    }
    assert(cfg.action@.take(cfg.action@.len() as int) == cfg.action@);
    out
}

/// The user does not want the phrase to be spotted.
pub open spec fn switched_off(cfg: CommandConfig, phrase: Seq<char>) -> bool {
    exists|i: int|
        0 <= i < cfg.lightning_disabled@.len() && normal_phrase(
            (#[trigger] cfg.lightning_disabled@[i])@,
        ) == normal_phrase(phrase)
}

fn is_switched_off(cfg: &CommandConfig, phrase: &str) -> (r: bool)
    ensures
        r == switched_off(*cfg, phrase@),
{
    let key = normalize_phrase(phrase);
    for i in 0..cfg.lightning_disabled.len()
        invariant
            key@ == normal_phrase(phrase@),
            forall|j: int|
                0 <= j < i ==> normal_phrase((#[trigger] cfg.lightning_disabled@[j])@) != key@,
    {
        if text::same(&normalize_phrase(&cfg.lightning_disabled[i]), &key) {
            assert(normal_phrase(cfg.lightning_disabled@[i as int]@) == key@);
            return true;
        }
    }
    false
}

/// The phrases that are spotted.
pub open spec fn spotted(cfg: CommandConfig) -> Seq<Alias> {
    merged(cfg).filter(|a: Alias| !switched_off(cfg, a.phrase))
}

/// All phrases but those that the user has switched off.
pub fn effective_aliases(cfg: &CommandConfig) -> (r: Vec<AliasEntry>)
    ensures
        aliases(r@) == spotted(*cfg),
{
    let mut all = all_aliases(cfg);
    let ghost list = aliases(all@);
    let ghost wanted = |a: Alias| !switched_off(*cfg, a.phrase);
    let mut out: Vec<AliasEntry> = Vec::new();
    let mut n: usize = 0;
    let total: usize = all.len();
    proof {
        reveal(Seq::filter);
        assert(aliases(out@) =~= list.take(0).filter(wanted));
        assert(list.skip(0) == list);
    }
    while n < total
        invariant
            n <= total,
            total == list.len(),
            aliases(all@) == list.skip(n as int),
            wanted == (|a: Alias| !switched_off(*cfg, a.phrase)),
            aliases(out@) == list.take(n as int).filter(wanted),
        decreases total - n,
    {
        assert(all@.len() == list.skip(n as int).len()) by {
            assert(aliases(all@).len() == all@.len());
        }
        assert(aliases(all@)[0] == all@[0]@);
        let ghost rest = all@;
        let a = all.remove(0);
        let ghost seen = a@;
        assert(aliases(all@) =~= aliases(rest).skip(1));
        assert(aliases(rest).skip(1) =~= list.skip(n + 1));
        let ghost before = aliases(out@);
        proof {
            reveal(Seq::filter);
            assert(list.take(n + 1).drop_last() == list.take(n as int));
            assert(list.take(n + 1).last() == seen);
        }
        if !is_switched_off(cfg, &a.phrase) {
            out.push(a);
            assert(aliases(out@) =~= before.push(seen));
        }
        n += 1;
    }
    assert(list.take(total as int) == list);
    out
}

// ---------------------------------------------------------------------------
// Keywords
// ---------------------------------------------------------------------------

/// Where the label of a line begins: the blank of the last " @".
pub open spec fn label_place(s: Seq<char>) -> Option<int>
    decreases s.len(),
{
    if s.len() < 2 {
        None
    } else if s[s.len() - 2] == ' ' && s[s.len() - 1] == '@' {
        Some(s.len() - 2)
    } else {
        label_place(s.drop_last())
    }
}

/// The threshold stands in front of the label.
pub open spec fn with_threshold(line: Seq<char>, threshold: Seq<char>) -> Result<
    Seq<char>,
    Seq<char>,
> {
    match label_place(line) {
        Some(i) => Ok(line.take(i) + " #"@ + threshold + line.skip(i)),
        None => Err("text2token 输出缺少 @label："@ + line),
    }
}

/// Gives a keyword of the engine a threshold of its own, which is written with
/// two digits behind the point.
pub fn keyword_line(line: &str, threshold: &str) -> (r: Result<String, String>)
    ensures
        match with_threshold(line@, threshold@) {
            Ok(l) => r is Ok && r->Ok_0@ == l,
            Err(e) => r is Err && r->Err_0@ == e,
        },
{
    let cs = text::chars_of(line);
    let mut n: usize = cs.len();
    assert(line@.take(n as int) == line@);
    while n >= 2
        invariant
            n <= cs@.len(),
            cs@ == line@,
            label_place(line@) == label_place(line@.take(n as int)),
        decreases n,
    {
        assert(line@.take(n as int).drop_last() == line@.take(n - 1));
        if cs[n - 2] == ' ' && cs[n - 1] == '@' {
            let at: usize = n - 2;
            let mut out = text::string_of_range(&cs, 0, at);
            out.append(" #");
            out.append(threshold);
            out.append(&text::string_of_range(&cs, at, cs.len()));
            assert(line@.subrange(0, at as int) == line@.take(at as int));
            assert(line@.subrange(at as int, line@.len() as int) == line@.skip(at as int));
            return Ok(out);
        }
        n -= 1;
    }
    Err(search::concat("text2token 输出缺少 @label：", line))
}

/// The keywords of phrases, one line each; else what is said of the first that
/// cannot be spoken.
pub open spec fn keyword_lines(
    t: text2token::Tables,
    list: Seq<Alias>,
    threshold: Seq<char>,
) -> Result<Seq<Seq<char>>, Seq<char>>
    decreases list.len(),
{
    if list.len() == 0 {
        Ok(Seq::empty())
    } else {
        match keyword_lines(t, list.drop_last(), threshold) {
            Err(e) => Err(e),
            Ok(lines) => match token_line(t, list.last().phrase, threshold) {
                Err(e) => Err(e),
                Ok(l) => Ok(lines.push(l)),
            },
        }
    }
}

/// The keyword of one phrase.
pub open spec fn token_line(t: text2token::Tables, phrase: Seq<char>, threshold: Seq<char>) -> Result<
    Seq<char>,
    Seq<char>,
> {
    match text2token::keyword_tokens(t, phrase, phrase) {
        Err(e) => Err(e),
        Ok(l) => with_threshold(l, threshold),
    }
}

fn line_for(t2t: &Text2Token, phrase: &str, threshold: &str) -> (r: Result<String, String>)
    ensures
        match token_line(t2t@, phrase@, threshold@) {
            Ok(l) => r is Ok && r->Ok_0@ == l,
            Err(e) => r is Err && r->Err_0@ == e,
        },
{
    match t2t.convert(phrase, phrase) {
        Ok(l) => keyword_line(&l, threshold),
        Err(e) => Err(e),
    }
}

/// A phrase and its command.
#[verifier::ext_equal]
pub struct Spoken {
    pub phrase: Seq<char>,
    pub command: combo::CommandView,
}

pub open spec fn spoken(v: Seq<(String, ParsedCommand)>) -> Seq<Spoken> {
    v.map_values(|e: (String, ParsedCommand)| Spoken { phrase: e.0@, command: e.1@ })
}

/// The commands under their phrases in normal form.
pub open spec fn commands(list: Seq<Alias>) -> Seq<Spoken> {
    list.map_values(
        |a: Alias| Spoken { phrase: normal_phrase(a.phrase), command: a.command },
    )
}

/// What the engine is loaded with, and what is made of what it hears.
#[derive(Debug)]
pub struct LightningSpotter {
    /// The keywords, one line each.
    pub keywords: String,
    pub table: Vec<(String, ParsedCommand)>,
}

/// The phrase is the one that was heard.
pub open spec fn exactly(phrase: Seq<char>, label: Seq<char>) -> bool {
    phrase == label
}

/// One of the two stands within the other.
pub open spec fn nearly(phrase: Seq<char>, label: Seq<char>) -> bool {
    search::has_text(label, phrase) || search::has_text(phrase, label)
}

pub open spec fn first_fit(table: Seq<Spoken>, label: Seq<char>, exact: bool) -> Option<Spoken>
    decreases table.len(),
{
    if table.len() == 0 {
        None
    } else {
        match first_fit(table.drop_last(), label, exact) {
            Some(s) => Some(s),
            None => if (if exact {
                exactly(table.last().phrase, label)
            } else {
                nearly(table.last().phrase, label)
            }) {
                Some(table.last())
            } else {
                None
            },
        }
    }
}

/// The command of the phrase that was heard, or else of one that is nearly so.
pub open spec fn command_heard(table: Seq<Spoken>, label: Seq<char>) -> Option<combo::CommandView> {
    match first_fit(table, label, true) {
        Some(s) => Some(s.command),
        None => match first_fit(table, label, false) {
            Some(s) => Some(s.command),
            None => None,
        },
    }
}

impl LightningSpotter {
    /// Loads all phrases that are spotted. One that cannot be spoken is enough
    /// for none to be.
    pub fn load(t2t: &Text2Token, cfg: &CommandConfig, threshold: &str) -> (r: Result<
        Self,
        String,
    >)
        ensures
            match keyword_lines(t2t@, spotted(*cfg), threshold@) {
                Ok(lines) => r is Ok && r->Ok_0.keywords@ == search::joined(lines, "\n"@) && spoken(
                    r->Ok_0.table@,
                ) == commands(spotted(*cfg)),
                Err(e) => r is Err && r->Err_0@ == e,
            },
    {
        let list = effective_aliases(cfg);
        let ghost all = aliases(list@);
        let mut lines: Vec<String> = Vec::new();
        let mut table: Vec<(String, ParsedCommand)> = Vec::new();
        assert(search::texts(lines@) =~= Seq::<Seq<char>>::empty());
        let mut i: usize = 0;
        assert(all.take(0).len() == 0);
        while i < list.len()
            invariant
                i <= list@.len(),
                all == aliases(list@),
                all == spotted(*cfg),
                keyword_lines(t2t@, all.take(i as int), threshold@) == Ok::<
                    Seq<Seq<char>>,
                    Seq<char>,
                >(search::texts(lines@)),
                table@.len() == i,
                forall|j: int|
                    0 <= j < i ==> spoken(table@)[j] == #[trigger] commands(all)[j],
            decreases list@.len() - i,
        {
            assert(all.take(i + 1).drop_last() == all.take(i as int));
            assert(all[i as int] == list@[i as int]@);
            match line_for(t2t, &list[i].phrase, threshold) {
                Ok(l) => {
                    let ghost seen = l@;
                    let ghost before = lines@;
                    lines.push(l);
                    assert(search::texts(lines@) =~= search::texts(before).push(seen));
                },
                Err(e) => {
                    proof {
                        lemma_first_error(t2t@, all, threshold@, i + 1);
                    }
                    return Err(e);
                },
            }
            let ghost known = spoken(table@);
            table.push((normalize_phrase(&list[i].phrase), list[i].command.clone()));
            assert(spoken(table@) =~= known.push(commands(all)[i as int]));
            i += 1;
        }
        assert(all.take(all.len() as int) == all);
        assert(spoken(table@) =~= commands(all));
        Ok(LightningSpotter { keywords: search::join(&lines, "\n"), table })
    }

    fn first(&self, label: &str, exact: bool) -> (r: Option<usize>)
        ensures
            match first_fit(spoken(self.table@), label@, exact) {
                Some(s) => r is Some && r->0 < self.table@.len() && spoken(self.table@)[r->0 as int]
                    == s,
                None => r is None,
            },
    {
        let ghost all = spoken(self.table@);
        let mut found: Option<usize> = None;
        for i in 0..self.table.len()
            invariant
                all == spoken(self.table@),
                match first_fit(all.take(i as int), label@, exact) {
                    Some(s) => found is Some && found->0 < i && all[found->0 as int] == s,
                    None => found is None,
                },
        {
            assert(all.take(i + 1).drop_last() == all.take(i as int));
            assert(all[i as int].phrase == self.table@[i as int].0@);
            if found.is_none() {
                let phrase = &self.table[i].0;
                let fits = if exact {
                    text::same(phrase, label)
                } else {
                    search::contains(label, phrase) || search::contains(phrase, label)
                };
                if fits {
                    found = Some(i);
                }
            }
        }
        assert(all.take(all.len() as int) == all);
        found
    }

    /// The command that was heard.
    pub fn command_for(&self, label: &str) -> (r: Option<ParsedCommand>)
        ensures
            match command_heard(spoken(self.table@), label@) {
                Some(c) => r is Some && r->0@ == c,
                None => r is None,
            },
    {
        match self.first(label, true) {
            Some(i) => {
                return Some(self.table[i].1.clone());
            },
            None => {},
        }
        match self.first(label, false) {
            Some(i) => Some(self.table[i].1.clone()),
            None => None,
        }
    }
}

proof fn lemma_first_error(
    t: text2token::Tables,
    list: Seq<Alias>,
    threshold: Seq<char>,
    n: int,
)
    requires
        0 <= n <= list.len(),
        keyword_lines(t, list.take(n), threshold) is Err,
    ensures
        keyword_lines(t, list, threshold) == keyword_lines(t, list.take(n), threshold),
    decreases list.len() - n,
{
    if n == list.len() {
        assert(list.take(n) == list);
    } else {
        assert(list.take(n + 1).drop_last() == list.take(n));
        lemma_first_error(t, list, threshold, n + 1);
    }
}

/// Listens to one recording, in which one command is spotted at most.
#[derive(Debug)]
pub struct LightningMatcher {
    pub fired: bool,
}

impl LightningMatcher {
    pub fn new() -> (r: Self)
        ensures
            !r.fired,
    {
        LightningMatcher { fired: false }
    }

    /// The samples that the engine is to hear. After a command it hears no more.
    pub fn feed(&self, pcm: &[u8]) -> (r: Option<Vec<i16>>)
        ensures
            match r {
                Some(v) => !self.fired && v@ == pcm::samples_in(pcm@),
                None => self.fired,
            },
    {
        if self.fired {
            None
        } else {
            Some(pcm::pcm_samples(pcm))
        }
    }

    /// What the engine has made of them: the command, where it heard one.
    pub fn heard(&mut self, spotter: &LightningSpotter, label: Option<&str>) -> (r: Option<
        ParsedCommand,
    >)
        ensures
            r is Some ==> !old(self).fired,
            match r {
                Some(c) => label is Some && command_heard(spoken(spotter.table@), label->0@)
                    == Some(c@),
                None => old(self).fired || label is None || command_heard(
                    spoken(spotter.table@),
                    label->0@,
                ) is None,
            },
            final(self).fired == (old(self).fired || r is Some),
    {
        if self.fired {
            return None;
        }
        match label {
            Some(l) => {
                let hit = spotter.command_for(l);
                if hit.is_some() {
                    self.fired = true;
                }
                hit
            },
            None => None,
        }
    }
}

// ---------------------------------------------------------------------------
// The list in the settings
// ---------------------------------------------------------------------------

/// One line of the list.
pub open spec fn shown_alias(
    cfg: CommandConfig,
    tables: Option<text2token::Tables>,
    threshold: Seq<char>,
    a: Alias,
) -> Json {
    Json::Object(
        Map::<Seq<char>, Json>::empty().insert("phrase"@, Json::Text(a.phrase)).insert(
            "display"@,
            Json::Text(a.command.shown()),
        ).insert("builtin"@, Json::Bool(a.source == AliasSource::Builtin)).insert(
            "enabled"@,
            Json::Bool(!switched_off(cfg, a.phrase)),
        ).insert(
            "token_line"@,
            match tables {
                Some(t) => match token_line(t, a.phrase, threshold) {
                    Ok(l) => Json::Text(l),
                    Err(_) => Json::Null,
                },
                None => Json::Null,
            },
        ),
    )
}

pub open spec fn shown_list(
    cfg: CommandConfig,
    tables: Option<text2token::Tables>,
    threshold: Seq<char>,
) -> Json {
    Json::Object(
        Map::<Seq<char>, Json>::empty().insert("available"@, Json::Bool(tables is Some)).insert(
            "items"@,
            Json::List(
                merged(cfg).map_values(|a: Alias| shown_alias(cfg, tables, threshold, a)),
            ),
        ),
    )
}

pub open spec fn opt_tables(t: Option<&Text2Token>) -> Option<text2token::Tables> {
    match t {
        Some(t) => Some(t@),
        None => None,
    }
}

/// All phrases, with what is shown of them in the settings. Without the tables
/// of the engine there are no keywords to show.
pub fn settings_view(cfg: &CommandConfig, t2t: Option<&Text2Token>, threshold: &str) -> (r:
    serde_json::Value)
    ensures
        json::tree(r) == shown_list(*cfg, opt_tables(t2t), threshold@),
{
    let all = all_aliases(cfg);
    let ghost list = aliases(all@);
    let ghost want = list.map_values(
        |a: Alias| shown_alias(*cfg, opt_tables(t2t), threshold@, a),
    );
    let mut items: Vec<serde_json::Value> = Vec::new();
    for i in 0..all.len()
        invariant
            list == aliases(all@),
            want == list.map_values(
                |a: Alias| shown_alias(*cfg, opt_tables(t2t), threshold@, a),
            ),
            items@.len() == i,
            forall|j: int| 0 <= j < i ==> json::tree(#[trigger] items@[j]) == want[j],
    {
        let a = &all[i];
        assert(list[i as int] == a@);
        let line = match t2t {
            Some(t) => match line_for(t, &a.phrase, threshold) {
                Ok(l) => Some(l),
                Err(_) => None,
            },
            None => None,
        };
        let mut m = json::Members::new();
        m.put_text("phrase", &a.phrase);
        m.put_text("display", &a.command.display());
        m.put_flag("builtin", a.source == AliasSource::Builtin);
        m.put_flag("enabled", !is_switched_off(cfg, &a.phrase));
        m.put_opt_text("token_line", &line);
        items.push(m.done());
    }
    assert(json::trees(items@) =~= want);
    let mut m = json::Members::new();
    m.put_flag("available", t2t.is_some());
    m.put("items", json::of_list(items));
    m.done()
}

// ---------------------------------------------------------------------------
// Laws
// ---------------------------------------------------------------------------

/// No two entries of a list are the same phrase.
pub open spec fn distinct(list: Seq<Alias>) -> bool {
    forall|i: int, j: int|
        0 <= i < j < list.len() ==> normal_phrase((#[trigger] list[i]).phrase) != normal_phrase(
            (#[trigger] list[j]).phrase,
        )
}

proof fn lemma_placed_stays_distinct(list: Seq<Alias>, more: Seq<Alias>)
    requires
        distinct(list),
    ensures
        distinct(placed_all(list, more)),
    decreases more.len(),
{
    if more.len() > 0 {
        lemma_placed_stays_distinct(list, more.drop_last());
        lemma_place(placed_all(list, more.drop_last()), normal_phrase(more.last().phrase));
    }
}

/// A phrase occurs once among all phrases, in whatever case or width it was
/// written.
pub proof fn law_phrases_occur_once(cfg: CommandConfig)
    ensures
        distinct(merged(cfg)),
{
    lemma_placed_stays_distinct(Seq::empty(), builtin_list());
    lemma_placed_stays_distinct(
        placed_all(Seq::empty(), builtin_list()),
        user_list(cfg.action@),
    );
}

proof fn lemma_last_placed_stays(list: Seq<Alias>, more: Seq<Alias>, k: int)
    requires
        0 <= k < more.len(),
        forall|j: int|
            k < j < more.len() ==> normal_phrase((#[trigger] more[j]).phrase) != normal_phrase(
                more[k].phrase,
            ),
    ensures
        placed_all(list, more).contains(more[k]),
    decreases more.len(),
{
    let before = placed_all(list, more.drop_last());
    lemma_place(before, normal_phrase(more.last().phrase));
    let after = placed(before, more.last());
    if k == more.len() - 1 {
        match place_of(before, normal_phrase(more.last().phrase)) {
            Some(i) => {
                assert(after[i] == more[k]);
            },
            None => {
                assert(after[before.len() as int] == more[k]);
            },
        }
    } else {
        lemma_last_placed_stays(list, more.drop_last(), k);
        let i = choose|i: int| 0 <= i < before.len() && before[i] == more.drop_last()[k];
        assert(more[more.len() - 1] == more.last());
        assert(after[i] == more[k]);
    }
}

/// The user's entry for a phrase takes the place of the built-in one, and of
/// several entries the last counts.
pub proof fn law_user_phrases_go_first(cfg: CommandConfig, k: int)
    requires
        0 <= k < user_list(cfg.action@).len(),
        forall|j: int|
            k < j < user_list(cfg.action@).len() ==> normal_phrase(
                (#[trigger] user_list(cfg.action@)[j]).phrase,
            ) != normal_phrase(user_list(cfg.action@)[k].phrase),
    ensures
        merged(cfg).contains(user_list(cfg.action@)[k]),
{
    lemma_last_placed_stays(
        placed_all(Seq::empty(), builtin_list()),
        user_list(cfg.action@),
        k,
    );
}

/// A phrase that is switched off is not spotted, whatever case or width it was
/// written in; every other phrase is.
pub proof fn law_switched_off_phrases_are_silent(cfg: CommandConfig, a: Alias)
    ensures
        spotted(cfg).contains(a) <==> merged(cfg).contains(a) && !switched_off(cfg, a.phrase),
{
    let wanted = |a: Alias| !switched_off(cfg, a.phrase);
    if spotted(cfg).contains(a) {
        merged(cfg).lemma_filter_contains_rev(wanted, a);
        let i = choose|i: int| 0 <= i < spotted(cfg).len() && spotted(cfg)[i] == a;
        merged(cfg).lemma_filter_pred(wanted, i);
    }
    if merged(cfg).contains(a) && wanted(a) {
        let i = choose|i: int| 0 <= i < merged(cfg).len() && merged(cfg)[i] == a;
        merged(cfg).lemma_filter_contains(wanted, i);
    }
}

/// A phrase that is spotted is found again by its own normal form.
pub proof fn law_spotted_phrases_are_found(cfg: CommandConfig, i: int)
    requires
        0 <= i < spotted(cfg).len(),
    ensures
        command_heard(commands(spotted(cfg)), normal_phrase(spotted(cfg)[i].phrase)) == Some(
            spotted(cfg)[i].command,
        ),
{
    law_phrases_occur_once(cfg);
    lemma_filtered_stays_distinct(merged(cfg), |a: Alias| !switched_off(cfg, a.phrase));
    lemma_found(spotted(cfg), i);
}

proof fn lemma_filtered_stays_distinct(list: Seq<Alias>, f: spec_fn(Alias) -> bool)
    requires
        distinct(list),
    ensures
        distinct(list.filter(f)),
    decreases list.len(),
{
    reveal(Seq::filter);
    if list.len() > 0 {
        let head = list.drop_last();
        assert(forall|i: int| 0 <= i < head.len() ==> head[i] == list[i]);
        lemma_filtered_stays_distinct(head, f);
        assert forall|i: int, j: int| 0 <= i < j < list.filter(f).len() implies normal_phrase(
            (#[trigger] list.filter(f)[i]).phrase,
        ) != normal_phrase((#[trigger] list.filter(f)[j]).phrase) by {
            if j == head.filter(f).len() {
                head.lemma_filter_contains_rev(f, head.filter(f)[i]);
                let k = choose|k: int| 0 <= k < head.len() && head[k] == head.filter(f)[i];
                assert(list[k] == head.filter(f)[i]);
                assert(list[list.len() - 1] == list.last());
            }
        }
    }
}

proof fn lemma_found(list: Seq<Alias>, i: int)
    requires
        distinct(list),
        0 <= i < list.len(),
    ensures
        first_fit(commands(list), normal_phrase(list[i].phrase), true) == Some(commands(list)[i]),
    decreases list.len(),
{
    let table = commands(list);
    let label = normal_phrase(list[i].phrase);
    let head = list.drop_last();
    assert(table.drop_last() =~= commands(head));
    assert(table.last() == commands(list)[list.len() - 1]);
    if i < head.len() {
        assert(distinct(head));
        lemma_found(head, i);
    } else {
        lemma_not_found(head, label);
    }
}

proof fn lemma_not_found(list: Seq<Alias>, label: Seq<char>)
    requires
        forall|i: int| 0 <= i < list.len() ==> normal_phrase((#[trigger] list[i]).phrase) != label,
    ensures
        first_fit(commands(list), label, true) is None,
    decreases list.len(),
{
    if list.len() > 0 {
        let head = list.drop_last();
        assert(commands(list).drop_last() =~= commands(head));
        assert(forall|i: int| 0 <= i < head.len() ==> head[i] == list[i]);
        lemma_not_found(head, label);
        assert(list[list.len() - 1] == list.last());
    }
}

/// Case, width and white space around a phrase make no difference.
pub proof fn law_phrases_are_compared_loosely(s: Seq<char>, t: Seq<char>)
    requires
        text::trimmed(s).len() == text::trimmed(t).len(),
        forall|i: int|
            #![trigger text::trimmed(s)[i]]
            0 <= i < text::trimmed(s).len() ==> {
                ||| text::trimmed(s)[i] == text::trimmed(t)[i]
                ||| text::ascii_lower(text::trimmed(s)[i]) == text::ascii_lower(text::trimmed(t)[i])
                ||| '!' <= text::trimmed(s)[i] <= '~' && text::trimmed(t)[i] as int
                    == text::trimmed(s)[i] as int + 0xfee0
            },
    ensures
        normal_phrase(s) == normal_phrase(t),
{
    let a = text::trimmed(s);
    let b = text::trimmed(t);
    assert forall|i: int| 0 <= i < a.len() implies #[trigger] normal_phrase(s)[i] == normal_phrase(
        t,
    )[i] by {
        let x = a[i];
        let y = b[i];
        if '!' <= x <= '~' && y as int == x as int + 0xfee0 {
            assert(half_width(y) == x);
            assert(half_width(x) == x);
        } else if x != y {
            assert(x <= '~' && y <= '~');
        }
    }
    assert(normal_phrase(s) =~= normal_phrase(t));
}

/// Every phrase of the user that is more than white space stands for the
/// command that it was given, and comes in its turn.
pub proof fn law_user_phrases_keep_their_commands(v: Seq<CommandActionEntry>, e: CommandActionEntry)
    ensures
        !text::blank(e.phrase@) ==> user_list(v.push(e)) == user_list(v).push(
            Alias {
                phrase: text::trimmed(e.phrase@),
                command: e.meaning(),
                source: AliasSource::User,
            },
        ),
        text::blank(e.phrase@) ==> user_list(v.push(e)) == user_list(v),
{
    assert(v.push(e).drop_last() =~= v);
}

/// A built-in phrase that the user has no entry for keeps its command.
pub proof fn law_builtin_phrases_stay(cfg: CommandConfig, a: Alias)
    requires
        placed_all(Seq::empty(), builtin_list()).contains(a),
        forall|j: int|
            0 <= j < user_list(cfg.action@).len() ==> normal_phrase(
                (#[trigger] user_list(cfg.action@)[j]).phrase,
            ) != normal_phrase(a.phrase),
    ensures
        merged(cfg).contains(a),
{
    lemma_untouched_stays(placed_all(Seq::empty(), builtin_list()), user_list(cfg.action@), a);
}

proof fn lemma_untouched_stays(list: Seq<Alias>, more: Seq<Alias>, a: Alias)
    requires
        list.contains(a),
        forall|j: int|
            0 <= j < more.len() ==> normal_phrase((#[trigger] more[j]).phrase) != normal_phrase(
                a.phrase,
            ),
    ensures
        placed_all(list, more).contains(a),
    decreases more.len(),
{
    if more.len() > 0 {
        let head = more.drop_last();
        assert forall|j: int| 0 <= j < head.len() implies normal_phrase(
            (#[trigger] head[j]).phrase,
        ) != normal_phrase(a.phrase) by {
            assert(head[j] == more[j]);
        }
        lemma_untouched_stays(list, head, a);
        let before = placed_all(list, head);
        let last = more[more.len() - 1];
        lemma_place(before, normal_phrase(last.phrase));
        let i = choose|i: int| 0 <= i < before.len() && before[i] == a;
        let after = placed(before, last);
        assert(after[i] == a);
    }
}

/// A keyword is given its threshold in front of its label, and nothing else of
/// it changes.
pub proof fn law_thresholds_stand_before_the_label(
    tokens: Seq<char>,
    label: Seq<char>,
    threshold: Seq<char>,
)
    requires
        forall|i: int| 0 <= i < label.len() ==> #[trigger] label[i] != '@',
    ensures
        with_threshold(tokens + " @"@ + label, threshold) == Ok::<Seq<char>, Seq<char>>(
            tokens + " #"@ + threshold + " @"@ + label,
        ),
{
    reveal_strlit(" @");
    lemma_label_place(tokens, label);
    let line = tokens + " @"@ + label;
    let i = tokens.len() as int;
    assert(line.take(i) =~= tokens);
    assert(line.skip(i) =~= " @"@ + label);
    assert(tokens + " #"@ + threshold + (" @"@ + label) =~= tokens + " #"@ + threshold + " @"@
        + label);
}

proof fn lemma_label_place(tokens: Seq<char>, label: Seq<char>)
    requires
        forall|i: int| 0 <= i < label.len() ==> #[trigger] label[i] != '@',
    ensures
        label_place(tokens + " @"@ + label) == Some(tokens.len() as int),
    decreases label.len(),
{
    reveal_strlit(" @");
    let line = tokens + " @"@ + label;
    if label.len() == 0 {
        assert(line[line.len() - 2] == ' ' && line[line.len() - 1] == '@');
    } else {
        let rest = label.drop_last();
        assert forall|i: int| 0 <= i < rest.len() implies #[trigger] rest[i] != '@' by {
            assert(rest[i] == label[i]);
        }
        lemma_label_place(tokens, rest);
        assert(line.drop_last() =~= tokens + " @"@ + rest);
        assert(line[line.len() - 1] == label[label.len() - 1]);
    }
}

/// The engine is given one keyword for each phrase, in order, or what is wrong
/// with the first phrase that cannot be spoken.
pub proof fn law_each_phrase_has_its_keyword(
    t: text2token::Tables,
    list: Seq<Alias>,
    threshold: Seq<char>,
    i: int,
)
    ensures
        keyword_lines(t, list, threshold) matches Ok(lines) ==> lines.len() == list.len()
            && forall|j: int|
            0 <= j < list.len() ==> token_line(t, (#[trigger] list[j]).phrase, threshold) == Ok::<
                Seq<char>,
                Seq<char>,
            >(lines[j]),
        0 <= i < list.len() && token_line(t, list[i].phrase, threshold) is Err && (forall|j: int|
            0 <= j < i ==> token_line(t, (#[trigger] list[j]).phrase, threshold) is Ok) ==> (
        keyword_lines(t, list, threshold) is Err && keyword_lines(t, list, threshold)->Err_0
            == token_line(t, list[i].phrase, threshold)->Err_0),
        (forall|j: int|
            0 <= j < list.len() ==> token_line(t, (#[trigger] list[j]).phrase, threshold) is Ok)
            ==> keyword_lines(t, list, threshold) is Ok,
    decreases list.len(),
{
    if list.len() > 0 {
        let head = list.drop_last();
        law_each_phrase_has_its_keyword(t, head, threshold, i);
        assert forall|j: int| 0 <= j < head.len() implies #[trigger] list[j] == head[j] by {}
        assert(list[list.len() - 1] == list.last());
        if keyword_lines(t, list, threshold) is Ok {
            let lines = keyword_lines(t, list, threshold)->Ok_0;
            let old_lines = keyword_lines(t, head, threshold)->Ok_0;
            assert forall|j: int| 0 <= j < list.len() implies token_line(
                t,
                (#[trigger] list[j]).phrase,
                threshold,
            ) == Ok::<Seq<char>, Seq<char>>(lines[j]) by {
                if j < head.len() {
                    assert(head[j] == list[j]);
                    assert(lines[j] == old_lines[j]);
                }
            }
        }
        if 0 <= i < list.len() && token_line(t, list[i].phrase, threshold) is Err && (forall|
            j: int,
        |
            0 <= j < i ==> token_line(t, (#[trigger] list[j]).phrase, threshold) is Ok) {
            assert forall|j: int| 0 <= j < head.len() && j < i implies token_line(
                t,
                (#[trigger] head[j]).phrase,
                threshold,
            ) is Ok by {
                assert(head[j] == list[j]);
            }
            if i < head.len() {
                assert(head[i] == list[i]);
            }
        }
        if forall|j: int|
            0 <= j < list.len() ==> token_line(t, (#[trigger] list[j]).phrase, threshold) is Ok {
            assert forall|j: int| 0 <= j < head.len() implies token_line(
                t,
                (#[trigger] head[j]).phrase,
                threshold,
            ) is Ok by {
                assert(head[j] == list[j]);
            }
        }
    }
}

proof fn lemma_first_fit(table: Seq<Spoken>, label: Seq<char>, exact: bool, i: int)
    ensures
        0 <= i < table.len() && (if exact {
            table[i].phrase == label
        } else {
            nearly(table[i].phrase, label)
        }) && (forall|j: int|
            0 <= j < i ==> !(if exact {
                (#[trigger] table[j]).phrase == label
            } else {
                nearly(table[j].phrase, label)
            })) ==> first_fit(table, label, exact) == Some(table[i]),
        (forall|j: int|
            0 <= j < table.len() ==> !(if exact {
                (#[trigger] table[j]).phrase == label
            } else {
                nearly(table[j].phrase, label)
            })) ==> first_fit(table, label, exact) is None,
    decreases table.len(),
{
    if table.len() > 0 {
        let head = table.drop_last();
        lemma_first_fit(head, label, exact, i);
        assert forall|j: int| 0 <= j < head.len() implies #[trigger] head[j] == table[j] by {}
        assert(table[table.len() - 1] == table.last());
    }
}

/// What was heard is the command of the phrase that it is. Only where it is
/// none, a phrase that it is part of, or that is part of it, counts: the first
/// such. Anything else is no command.
pub proof fn law_exact_phrases_go_before_near_ones(table: Seq<Spoken>, label: Seq<char>, i: int)
    ensures
        0 <= i < table.len() && table[i].phrase == label && (forall|j: int|
            0 <= j < i ==> (#[trigger] table[j]).phrase != label) ==> command_heard(table, label)
            == Some(table[i].command),
        (forall|j: int| 0 <= j < table.len() ==> (#[trigger] table[j]).phrase != label) && 0 <= i
            < table.len() && (search::has_text(label, table[i].phrase) || search::has_text(
            table[i].phrase,
            label,
        )) && (forall|j: int|
            0 <= j < i ==> !search::has_text(label, (#[trigger] table[j]).phrase)
                && !search::has_text(table[j].phrase, label)) ==> command_heard(table, label)
            == Some(table[i].command),
        (forall|j: int|
            0 <= j < table.len() ==> (#[trigger] table[j]).phrase != label && !search::has_text(
                label,
                table[j].phrase,
            ) && !search::has_text(table[j].phrase, label)) ==> command_heard(table, label) is None,
{
    lemma_first_fit(table, label, true, i);
    lemma_first_fit(table, label, false, i);
}

/// The settings show every phrase with what it does, where it comes from, and
/// whether it is spotted.
pub proof fn law_settings_show_every_phrase(
    cfg: CommandConfig,
    tables: Option<text2token::Tables>,
    threshold: Seq<char>,
    i: int,
)
    requires
        0 <= i < merged(cfg).len(),
    ensures
        shown_list(cfg, tables, threshold).member("available"@) == Some(Json::Bool(tables is Some)),
        shown_list(cfg, tables, threshold).member("items"@) matches Some(Json::List(items))
            && items.len() == merged(cfg).len() && {
            let a = merged(cfg)[i];
            &&& items[i].member("phrase"@) == Some(Json::Text(a.phrase))
            &&& items[i].member("display"@) == Some(Json::Text(a.command.shown()))
            &&& items[i].member("builtin"@) == Some(Json::Bool(a.source == AliasSource::Builtin))
            &&& items[i].member("enabled"@) == Some(Json::Bool(spotted(cfg).contains(a)))
        },
{
    reveal_strlit("available");
    reveal_strlit("items");
    reveal_strlit("phrase");
    reveal_strlit("display");
    reveal_strlit("builtin");
    reveal_strlit("enabled");
    reveal_strlit("token_line");
    assert("available"@.len() == 9 && "items"@.len() == 5);
    assert("phrase"@.len() == 6 && "display"@.len() == 7 && "builtin"@.len() == 7);
    assert("enabled"@.len() == 7 && "token_line"@.len() == 10);
    assert("display"@[0] == 'd' && "builtin"@[0] == 'b' && "enabled"@[0] == 'e');
    let a = merged(cfg)[i];
    assert(merged(cfg).contains(a));
    law_switched_off_phrases_are_silent(cfg, a);
}

} // verus!
