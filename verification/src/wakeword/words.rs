//! The wake words themselves.
use crate::config::sections;
use crate::config::sections::WakewordConfig;
use crate::search;
use crate::text;
use vstd::prelude::*;

verus! {

/// A wake word and what it opens: `input`, `repair` and `command` record,
/// `commit` and `clear` act at once.
#[derive(Debug, PartialEq, Eq)]
pub struct WakeWord {
    pub text: String,
    pub action: String,
}

/// What a [`WakeWord`] stands for.
#[verifier::ext_equal]
pub struct Word {
    pub text: Seq<char>,
    pub action: Seq<char>,
}

impl View for WakeWord {
    type V = Word;

    open spec fn view(&self) -> Word {
        Word { text: self.text@, action: self.action@ }
    }
}

impl Clone for WakeWord {
    fn clone(&self) -> (r: Self)
        ensures
            r@ == self@,
    {
        WakeWord { text: self.text.clone(), action: self.action.clone() }
    }
}

/// How long a character takes to say, in milliseconds.
pub open spec fn character_ms(c: char) -> nat {
    if text::han(c) {
        250
    } else if text::ascii_alphabetic(c) {
        150
    } else {
        100
    }
}

pub open spec fn spoken_ms(s: Seq<char>) -> nat
    decreases s.len(),
{
    if s.len() == 0 {
        0
    } else {
        spoken_ms(s.drop_last()) + character_ms(s.last())
    }
}

/// `n`, but no less than `low` and no more than `high`.
pub open spec fn clamped(n: nat, low: nat, high: nat) -> nat {
    if n < low {
        low
    } else if n > high {
        high
    } else {
        n
    }
}

impl WakeWord {
    /// How long the word takes to say, roughly, in milliseconds.
    pub fn duration_ms(&self) -> (r: u64)
        ensures
            r == clamped(spoken_ms(self@.text), 300, 1200),
    {
        let mut ms: u64 = 0;
        for c in it: self.text.as_str().chars()
            invariant
                it.seq() == self@.text,
                spoken_ms(self@.text.take(it.index() as int)) < 1200 ==> ms == spoken_ms(
                    self@.text.take(it.index() as int),
                ),
                spoken_ms(self@.text.take(it.index() as int)) >= 1200 ==> 1200 <= ms < 1450,
        {
            let ghost i = it.index() as int;
            assert(self@.text.take(i + 1).drop_last() == self@.text.take(i));
            assert(self@.text[i] == c);
            if ms < 1200 {
                if text::is_han(c) {
                    ms += 250;
                } else if text::is_ascii_alphabetic(c) {
                    ms += 150;
                } else {
                    ms += 100;
                }
            }
        }
        assert(self@.text.take(self@.text.len() as int) == self@.text);
        if ms < 300 {
            300
        } else if ms > 1200 {
            1200
        } else {
            ms
        }
    }

    /// The name that the badge shows.
    pub fn display_name(&self) -> (r: &str)
        ensures
            r@ == self@.text,
    {
        self.text.as_str()
    }
}

/// What the engine reports.
#[derive(Debug)]
pub enum WakeEvent {
    /// A wake word was heard; `position` is the sample at which it ended.
    Detected { word: WakeWord, position: u64 },
}

// ---------------------------------------------------------------------------
// The words there are
// ---------------------------------------------------------------------------

/// The built-in words, in order, and what they open.
pub open spec fn builtin_words() -> Seq<Word> {
    seq![
        Word { text: "小易记"@, action: "input"@ },
        Word { text: "小易修"@, action: "repair"@ },
        Word { text: "小易控"@, action: "command"@ },
        Word { text: "小易确认"@, action: "commit"@ },
        Word { text: "小易清空"@, action: "clear"@ },
    ]
}

pub open spec fn words(v: Seq<WakeWord>) -> Seq<Word> {
    v.map_values(|w: WakeWord| w@)
}

fn push_word(v: &mut Vec<WakeWord>, word: &str, action: &str)
    ensures
        words(final(v)@) == words(old(v)@).push(Word { text: word@, action: action@ }),
{
    let w = WakeWord { text: word.to_string(), action: action.to_string() };
    v.push(w);
    assert(words(v@) =~= words(old(v)@).push(w@));
}

pub fn builtin_defaults() -> (v: Vec<WakeWord>)
    ensures
        words(v@) == builtin_words(),
{
    let mut v: Vec<WakeWord> = Vec::new();
    assert(words(v@) =~= Seq::<Word>::empty());
    push_word(&mut v, "小易记", "input");
    push_word(&mut v, "小易修", "repair");
    push_word(&mut v, "小易控", "command");
    push_word(&mut v, "小易确认", "commit");
    push_word(&mut v, "小易清空", "clear");
    v
}

/// The words of a table, each under its text.
pub open spec fn keyed(v: Seq<(String, WakeWord)>) -> Seq<Word> {
    v.map_values(|p: (String, WakeWord)| p.1@)
}

/// Each word stands under its own text.
pub open spec fn under_own_text(v: Seq<(String, WakeWord)>) -> bool {
    forall|i: int| 0 <= i < v.len() ==> (#[trigger] v[i]).0@ == v[i].1@.text
}

fn key_words(v: Vec<WakeWord>) -> (r: Vec<(String, WakeWord)>)
    ensures
        keyed(r@) == words(v@),
        under_own_text(r@),
{
    let mut r: Vec<(String, WakeWord)> = Vec::new();
    for i in 0..v.len()
        invariant
            keyed(r@) == words(v@).take(i as int),
            under_own_text(r@),
    {
        let ghost before = r@;
        let p = (v[i].text.clone(), v[i].clone());
        r.push(p);
        assert(keyed(r@) =~= keyed(before).push(v@[i as int]@));
        assert(words(v@).take(i + 1) =~= words(v@).take(i as int).push(v@[i as int]@));
    }
    assert(words(v@).take(v@.len() as int) =~= words(v@));
    r
}

/// The built-in words, each under its text.
pub fn default_keyword_map() -> (r: Vec<(String, WakeWord)>)
    ensures
        keyed(r@) == builtin_words(),
        under_own_text(r@),
{
    key_words(builtin_defaults())
}

/// The words that a configuration gives: the user's own where there are any,
/// else the built-in ones.
pub open spec fn configured_words(cfg: sections::WakewordView) -> Seq<Word> {
    if cfg.keywords.len() > 0 {
        cfg.keywords.map_values(|k: (Seq<char>, Seq<char>)| Word { text: k.0, action: k.1 })
    } else {
        builtin_words()
    }
}

/// The words that a configuration gives, each under its text. Whether their
/// phonemes have to be worked out is the second part: they always have.
pub fn resolve_keywords(cfg: &WakewordConfig) -> (r: (Vec<(String, WakeWord)>, bool))
    ensures
        keyed(r.0@) == configured_words(cfg@),
        under_own_text(r.0@),
        r.1,
{
    if cfg.keywords.len() == 0 {
        return (default_keyword_map(), true);
    }
    let mut v: Vec<WakeWord> = Vec::new();
    let ghost all = configured_words(cfg@);
    for i in 0..cfg.keywords.len()
        invariant
            cfg.keywords@.len() > 0,
            all == configured_words(cfg@),
            words(v@) == all.take(i as int),
    {
        push_word(&mut v, &cfg.keywords[i].keyword, &cfg.keywords[i].action);
        assert(all.take(i + 1) =~= all.take(i as int).push(all[i as int]));
    }
    assert(all.take(all.len() as int) =~= all);
    (key_words(v), true)
}

// ---------------------------------------------------------------------------
// The word that was heard
// ---------------------------------------------------------------------------

/// The text in lower case, without white space around it.
pub open spec fn folded(s: Seq<char>) -> Seq<char> {
    text::lowercase_text(text::trimmed(s))
}

fn fold(s: &str) -> (r: String)
    ensures
        r@ == folded(s@),
{
    text::str_lowercase(&text::trim(s))
}

/// What the engine heard, where it heard anything.
pub fn heard_label(keyword: &str) -> (r: Option<String>)
    ensures
        match r {
            Some(l) => keyword@.len() > 0 && l@ == folded(keyword@),
            None => keyword@.len() == 0,
        },
{
    if keyword.is_empty() {
        None
    } else {
        Some(fold(keyword))
    }
}

/// How closely a word fits what was heard.
#[derive(Debug, Clone, Copy, PartialEq, Eq, Structural)]
pub enum Fit {
    Exact,
    /// What was heard holds the word.
    Within,
    /// The word holds what was heard.
    Around,
}

/// Whether a folded word fits.
pub open spec fn fits(fold: Seq<char>, heard: Seq<char>, fit: Fit) -> bool {
    match fit {
        Fit::Exact => fold == heard,
        Fit::Within => search::has_text(heard, fold),
        Fit::Around => search::has_text(fold, heard),
    }
}

fn does_fit(w: &str, heard: &str, fit: Fit) -> (r: bool)
    ensures
        r == fits(w@, heard@, fit),
{
    match fit {
        Fit::Exact => text::same(w, heard),
        Fit::Within => search::contains(heard, w),
        Fit::Around => search::contains(w, heard),
    }
}

/// The last word that fits, each word with its folded form: a later entry takes
/// the place of an earlier one.
pub open spec fn last_fit(
    table: Seq<Word>,
    folds: Seq<Seq<char>>,
    heard: Seq<char>,
    fit: Fit,
) -> Option<Word>
    decreases table.len(),
{
    if table.len() == 0 {
        None
    } else if fits(folds[table.len() - 1], heard, fit) {
        Some(table.last())
    } else {
        last_fit(table.drop_last(), folds, heard, fit)
    }
}

/// The word that was heard among folded ones: one that fits exactly, else one
/// that is within what was heard, else one that what was heard is within.
pub open spec fn word_among(
    table: Seq<Word>,
    folds: Seq<Seq<char>>,
    heard: Seq<char>,
) -> Option<Word> {
    if last_fit(table, folds, heard, Fit::Exact) is Some {
        last_fit(table, folds, heard, Fit::Exact)
    } else if last_fit(table, folds, heard, Fit::Within) is Some {
        last_fit(table, folds, heard, Fit::Within)
    } else {
        last_fit(table, folds, heard, Fit::Around)
    }
}

pub open spec fn folds_of(table: Seq<Word>) -> Seq<Seq<char>> {
    table.map_values(|w: Word| folded(w.text))
}

/// The word that was heard.
pub open spec fn word_heard(table: Seq<Word>, heard: Seq<char>) -> Option<Word> {
    word_among(table, folds_of(table), heard)
}

fn find_fit(
    table: &Vec<(String, WakeWord)>,
    folds: &Vec<String>,
    heard: &str,
    fit: Fit,
) -> (r: Option<WakeWord>)
    requires
        folds@.len() == table@.len(),
    ensures
        match last_fit(keyed(table@), search::texts(folds@), heard@, fit) {
            Some(w) => r is Some && r->0@ == w,
            None => r is None,
        },
{
    let ghost all = keyed(table@);
    let ghost forms = search::texts(folds@);
    let mut i: usize = table.len();
    assert(all.take(all.len() as int) == all);
    while i > 0
        invariant
            i <= table@.len(),
            folds@.len() == table@.len(),
            all == keyed(table@),
            forms == search::texts(folds@),
            last_fit(all.take(i as int), forms, heard@, fit) == last_fit(all, forms, heard@, fit),
        decreases i,
    {
        i -= 1;
        assert(all.take(i + 1).drop_last() == all.take(i as int));
        assert(all[i as int] == table@[i as int].1@);
        assert(forms[i as int] == folds@[i as int]@);
        if does_fit(&folds[i], heard, fit) {
            return Some(table[i].1.clone());
        }
    }
    None
}

/// Finds the word that was heard, given the folded forms of all words.
pub fn match_folded(table: &Vec<(String, WakeWord)>, folds: &Vec<String>, heard: &str) -> (r: Option<
    WakeWord,
>)
    requires
        folds@.len() == table@.len(),
    ensures
        match word_among(keyed(table@), search::texts(folds@), heard@) {
            Some(w) => r is Some && r->0@ == w,
            None => r is None,
        },
{
    let exact = find_fit(table, folds, heard, Fit::Exact);
    if exact.is_some() {
        return exact;
    }
    let within = find_fit(table, folds, heard, Fit::Within);
    if within.is_some() {
        return within;
    }
    find_fit(table, folds, heard, Fit::Around)
}

/// Finds the word that was heard.
pub fn match_label(table: &Vec<(String, WakeWord)>, heard: &str) -> (r: Option<WakeWord>)
    requires
        under_own_text(table@),
    ensures
        match word_heard(keyed(table@), heard@) {
            Some(w) => r is Some && r->0@ == w,
            None => r is None,
        },
{
    let ghost want = folds_of(keyed(table@));
    let mut folds: Vec<String> = Vec::new();
    assert(search::texts(folds@) =~= Seq::<Seq<char>>::empty());
    for i in 0..table.len()
        invariant
            under_own_text(table@),
            want == folds_of(keyed(table@)),
            search::texts(folds@) == want.take(i as int),
    {
        let w = fold(&table[i].0);
        assert(keyed(table@)[i as int] == table@[i as int].1@);
        proof {
            search::lemma_texts_push(folds@, w);
            assert(want.take(i + 1) =~= want.take(i as int).push(want[i as int]));
        }
        folds.push(w);
    }
    assert(want.take(want.len() as int) =~= want);
    assert(search::texts(folds@).len() == folds@.len());
    match_folded(table, &folds, heard)
}

/// A word that was heard exactly is never taken for a longer one that begins
/// with it.
pub proof fn law_exact_words_win(table: Seq<Word>, i: int)
    requires
        0 <= i < table.len(),
    ensures
        word_heard(table, folded(table[i].text)) matches Some(w) && folded(w.text) == folded(
            table[i].text,
        ),
{
    lemma_last_fit(table, folds_of(table), folded(table[i].text), Fit::Exact);
    assert(folds_of(table)[i] == folded(table[i].text));
}

proof fn lemma_last_fit(table: Seq<Word>, folds: Seq<Seq<char>>, heard: Seq<char>, fit: Fit)
    requires
        table.len() <= folds.len(),
    ensures
        match last_fit(table, folds, heard, fit) {
            Some(w) => exists|k: int|
                0 <= k < table.len() && table[k] == w && fits(#[trigger] folds[k], heard, fit),
            None => forall|k: int| 0 <= k < table.len() ==> !fits(#[trigger] folds[k], heard, fit),
        },
    decreases table.len(),
{
    if table.len() > 0 {
        let last = table.len() - 1;
        lemma_last_fit(table.drop_last(), folds, heard, fit);
        if fits(folds[last], heard, fit) {
            assert(table[last] == table.last());
        } else if last_fit(table.drop_last(), folds, heard, fit) is Some {
            let w = last_fit(table.drop_last(), folds, heard, fit)->0;
            let k = choose|k: int|
                0 <= k < last && table.drop_last()[k] == w && fits(#[trigger] folds[k], heard, fit);
            assert(table[k] == w);
        }
    }
}

// ---------------------------------------------------------------------------
// Where the model is
// ---------------------------------------------------------------------------

/// The name of a model is a path of its own where it begins like one.
pub open spec fn path_like(s: Seq<char>) -> bool {
    search::has_prefix(s, "/"@) || search::has_prefix(s, "./"@) || search::has_prefix(s, "../"@)
        || search::has_prefix(s, "~"@)
}

pub fn looks_like_path(s: &str) -> (r: bool)
    ensures
        r == path_like(s@),
{
    search::starts_with(s, "/") || search::starts_with(s, "./") || search::starts_with(s, "../")
        || search::starts_with(s, "~")
}

/// A place where a model may be: a path of its own, or what is reached from a
/// directory by the parts in order.
#[derive(Debug, PartialEq, Eq)]
pub enum ModelPlace {
    Own(String),
    Below { base: String, parts: Vec<String> },
}

/// What a [`ModelPlace`] stands for.
#[verifier::ext_equal]
pub enum Place {
    Own(Seq<char>),
    Below { base: Seq<char>, parts: Seq<Seq<char>> },
}

impl View for ModelPlace {
    type V = Place;

    open spec fn view(&self) -> Place {
        match self {
            ModelPlace::Own(p) => Place::Own(p@),
            ModelPlace::Below { base, parts } => Place::Below {
                base: base@,
                parts: search::texts(parts@),
            },
        }
    }
}

pub open spec fn places(v: Seq<ModelPlace>) -> Seq<Place> {
    v.map_values(|p: ModelPlace| p@)
}

/// Where a model is looked for: at its own path, or else among the built-in
/// models below each of the directories, in order.
pub open spec fn model_places(model_dir: Seq<char>, bases: Seq<Seq<char>>) -> Seq<Place> {
    if path_like(model_dir) {
        seq![Place::Own(model_dir)]
    } else {
        bases.map_values(
            |b: Seq<char>|
                Place::Below { base: b, parts: seq!["models"@, "builtin"@, model_dir] },
        )
    }
}

/// Where a model is looked for. How a path is joined is a matter of the system
/// that it is looked for on.
pub fn model_dir_candidates(model_dir: &str, bases: &Vec<String>) -> (r: Vec<ModelPlace>)
    ensures
        places(r@) == model_places(model_dir@, search::texts(bases@)),
{
    let mut r: Vec<ModelPlace> = Vec::new();
    let ghost want = model_places(model_dir@, search::texts(bases@));
    if looks_like_path(model_dir) {
        r.push(ModelPlace::Own(model_dir.to_string()));
        assert(places(r@) =~= want);
        return r;
    }
    assert(places(r@) =~= want.take(0));
    for i in 0..bases.len()
        invariant
            !path_like(model_dir@),
            want == model_places(model_dir@, search::texts(bases@)),
            places(r@) == want.take(i as int),
    {
        let parts = vec!["models".to_string(), "builtin".to_string(), model_dir.to_string()];
        assert(search::texts(parts@) =~= seq!["models"@, "builtin"@, model_dir@]);
        let ghost before = r@;
        let p = ModelPlace::Below { base: bases[i].clone(), parts };
        assert(p@ == want[i as int]);
        r.push(p);
        assert(places(r@) =~= places(before).push(p@));
        assert(want.take(i + 1) =~= want.take(i as int).push(want[i as int]));
    }
    assert(want.take(want.len() as int) =~= want);
    r
}

// ---------------------------------------------------------------------------
// Laws
// ---------------------------------------------------------------------------

/// The user's words are listened for as they were written, in place of the
/// built-in ones, which are listened for where there are none.
pub proof fn law_own_words_take_the_place(cfg: sections::WakewordView, i: int)
    ensures
        cfg.keywords.len() == 0 ==> configured_words(cfg) == builtin_words(),
        0 <= i < cfg.keywords.len() ==> configured_words(cfg).len() == cfg.keywords.len()
            && configured_words(cfg)[i].text == cfg.keywords[i].0 && configured_words(cfg)[i].action
            == cfg.keywords[i].1,
{
}

/// The last word that is exactly what was heard counts; only where there is
/// none, the last that is part of it does, and only then the last that it is part
/// of. Else no word was heard.
pub proof fn law_closer_fits_go_first(
    table: Seq<Word>,
    folds: Seq<Seq<char>>,
    heard: Seq<char>,
    i: int,
)
    requires
        folds.len() == table.len(),
    ensures
        0 <= i < table.len() && folds[i] == heard && (forall|j: int|
            i < j < table.len() ==> #[trigger] folds[j] != heard) ==> word_among(
            table,
            folds,
            heard,
        ) == Some(table[i]),
        (forall|j: int| 0 <= j < table.len() ==> #[trigger] folds[j] != heard) && 0 <= i
            < table.len() && search::has_text(heard, folds[i]) && (forall|j: int|
            i < j < table.len() ==> !search::has_text(heard, #[trigger] folds[j])) ==> word_among(
            table,
            folds,
            heard,
        ) == Some(table[i]),
        (forall|j: int|
            0 <= j < table.len() ==> #[trigger] folds[j] != heard && !search::has_text(
                heard,
                folds[j],
            )) && 0 <= i < table.len() && search::has_text(folds[i], heard) && (forall|j: int|
            i < j < table.len() ==> !search::has_text(#[trigger] folds[j], heard)) ==> word_among(
            table,
            folds,
            heard,
        ) == Some(table[i]),
        (forall|j: int|
            0 <= j < table.len() ==> #[trigger] folds[j] != heard && !search::has_text(
                heard,
                folds[j],
            ) && !search::has_text(folds[j], heard)) ==> word_among(table, folds, heard) is None,
{
    lemma_last_fit_at(table, folds, heard, Fit::Exact, i);
    lemma_last_fit_at(table, folds, heard, Fit::Within, i);
    lemma_last_fit_at(table, folds, heard, Fit::Around, i);
}

proof fn lemma_last_fit_at(
    table: Seq<Word>,
    folds: Seq<Seq<char>>,
    heard: Seq<char>,
    fit: Fit,
    i: int,
)
    requires
        table.len() <= folds.len(),
    ensures
        0 <= i < table.len() && fits(folds[i], heard, fit) && (forall|j: int|
            i < j < table.len() ==> !fits(#[trigger] folds[j], heard, fit)) ==> last_fit(
            table,
            folds,
            heard,
            fit,
        ) == Some(table[i]),
        (forall|j: int| 0 <= j < table.len() ==> !fits(#[trigger] folds[j], heard, fit))
            ==> last_fit(table, folds, heard, fit) is None,
    decreases table.len(),
{
    if table.len() > 0 {
        lemma_last_fit_at(table.drop_last(), folds, heard, fit, i);
        let last = table.len() - 1;
        if 0 <= i < last && (forall|j: int|
            i < j < table.len() ==> !fits(#[trigger] folds[j], heard, fit)) {
            assert(!fits(folds[last], heard, fit));
        }
        if forall|j: int| 0 <= j < table.len() ==> !fits(#[trigger] folds[j], heard, fit) {
            assert(!fits(folds[last], heard, fit));
        }
    }
}

/// A word takes as long to say as its parts, ideographs longest, and its length
/// is taken for neither less than three tenths of a second nor more than twelve.
pub proof fn law_words_take_time(a: Seq<char>, b: Seq<char>, c: char)
    ensures
        spoken_ms(a + b) == spoken_ms(a) + spoken_ms(b),
        text::han(c) ==> spoken_ms(seq![c]) == 250,
        text::ascii_alphabetic(c) ==> spoken_ms(seq![c]) == 150,
        !text::han(c) && !text::ascii_alphabetic(c) ==> spoken_ms(seq![c]) == 100,
        300 <= clamped(spoken_ms(a), 300, 1200) <= 1200,
        300 <= spoken_ms(a) <= 1200 ==> clamped(spoken_ms(a), 300, 1200) == spoken_ms(a),
    decreases b.len(),
{
    reveal_with_fuel(spoken_ms, 2);
    assert(seq![c].drop_last() =~= Seq::empty());
    if b.len() == 0 {
        assert(a + b =~= a);
    } else {
        law_words_take_time(a, b.drop_last(), c);
        assert((a + b).drop_last() =~= a + b.drop_last());
    }
}

/// A model with a path of its own is looked for there alone; any other below
/// every directory, in order.
pub proof fn law_models_are_looked_for_in_order(
    model_dir: Seq<char>,
    bases: Seq<Seq<char>>,
    i: int,
)
    ensures
        path_like(model_dir) ==> model_places(model_dir, bases) == seq![Place::Own(model_dir)],
        !path_like(model_dir) ==> model_places(model_dir, bases).len() == bases.len(),
        !path_like(model_dir) && 0 <= i < bases.len() ==> (model_places(model_dir, bases)[i]
            matches Place::Below { base, parts } && base == bases[i] && parts.last() == model_dir),
        model_dir.len() > 0 && (model_dir[0] == '/' || model_dir[0] == '~') ==> path_like(
            model_dir,
        ),
        model_dir.len() > 0 && model_dir[0] != '/' && model_dir[0] != '~' && model_dir[0] != '.'
            ==> !path_like(model_dir),
{
    reveal_strlit("/");
    reveal_strlit("./");
    reveal_strlit("../");
    reveal_strlit("~");
    if model_dir.len() > 0 {
        assert(model_dir.subrange(0, 1)[0] == model_dir[0]);
        if model_dir[0] == '/' {
            assert(model_dir.subrange(0, 1) =~= "/"@);
        }
        if model_dir[0] == '~' {
            assert(model_dir.subrange(0, 1) =~= "~"@);
        }
        if search::has_prefix(model_dir, "./"@) {
            assert(model_dir.subrange(0, 2)[0] == model_dir[0]);
            assert("./"@[0] == '.');
        }
        if search::has_prefix(model_dir, "../"@) {
            assert(model_dir.subrange(0, 3)[0] == model_dir[0]);
            assert("../"@[0] == '.');
        }
    }
}

} // verus!
