//! From recognised speech to a command.
use crate::command::combo;
use crate::command::combo::{KeyCombo, Modifier, ParsedCommand};
use crate::command::lexicon;
use crate::command::lexicon::{LexEntry, LexOwned, Lexicon};
use crate::search;
use crate::text;
use vstd::prelude::*;

verus! {

// ---------------------------------------------------------------------------
// Normalising
// ---------------------------------------------------------------------------

/// The half-width form of a full-width character.
pub open spec fn half_width(c: char) -> char {
    if '\u{ff01}' <= c <= '\u{ff5e}' {
        ((c as int) - 0xfee0) as char
    } else if c == '\u{3000}' {
        ' '
    } else {
        c
    }
}

/// ASCII letters in lower case, digits and ideographs; a blank for anything else.
pub open spec fn kept(c: char) -> char {
    if text::ascii_alphanumeric(c) {
        text::ascii_lower(c)
    } else if text::han(c) {
        c
    } else {
        ' '
    }
}

/// What stands for one character: its half-width lower case, a blank for
/// anything but ASCII letters, digits and ideographs.
pub open spec fn plain(c: char) -> Seq<char> {
    let h = half_width(c);
    if h <= '\u{7f}' || text::han(h) {
        seq![kept(h)]
    } else {
        text::lowercase_of(h).map_values(|l: char| kept(l))
    }
}

pub open spec fn plain_text(s: Seq<char>) -> Seq<char>
    decreases s.len(),
{
    if s.len() == 0 {
        Seq::empty()
    } else {
        plain_text(s.drop_last()) + plain(s.last())
    }
}

/// The words of the plain text, with single blanks between them.
pub open spec fn normalized(s: Seq<char>) -> Seq<char> {
    search::joined(search::words_of(plain_text(s)), " "@)
}

fn to_half_width(c: char) -> (r: char)
    ensures
        r == half_width(c),
{
    if '\u{ff01}' <= c && c <= '\u{ff5e}' {
        ((c as u32) - 0xfee0) as u8 as char
    } else if c == '\u{3000}' {
        ' '
    } else {
        c
    }
}

fn keep(c: char) -> (r: char)
    ensures
        r == kept(c),
{
    if text::is_ascii_alphanumeric(c) {
        text::to_ascii_lower(c)
    } else if text::is_han(c) {
        c
    } else {
        ' '
    }
}

fn normalize(s: &str) -> (r: String)
    ensures
        r@ == normalized(s@),
{
    let mut out = String::new();
    for raw in it: s.chars()
        invariant
            it.seq() == s@,
            out@ == plain_text(s@.take(it.index() as int)),
    {
        let ghost before = out@;
        let ghost i = it.index() as int;
        let lower = text::char_lowercase(to_half_width(raw));
        assert(lower@.map_values(|l: char| kept(l)) =~= plain(raw));
        for k in 0..lower.len()
            invariant
                lower@.map_values(|l: char| kept(l)) == plain(raw),
                out@ == before + plain(raw).take(k as int),
        {
            out.push(keep(lower[k]));
            assert(plain(raw).take(k + 1) == plain(raw).take(k as int).push(plain(raw)[k as int]));
        }
        assert(plain(raw).take(plain(raw).len() as int) == plain(raw));
        assert(s@.take(i + 1).drop_last() == s@.take(i));
    }
    assert(s@.take(s@.len() as int) == s@);
    let words = search::split_whitespace(&out);
    search::join(&words, " ")
}

// ---------------------------------------------------------------------------
// Looking up
// ---------------------------------------------------------------------------

/// The first entry whose phrase is `run`.
pub open spec fn exact(table: Seq<lexicon::Entry>, run: Seq<char>) -> Option<lexicon::Meaning>
    decreases table.len(),
{
    if table.len() == 0 {
        None
    } else if table[0].phrase == run {
        Some(table[0].meaning)
    } else {
        exact(table.drop_first(), run)
    }
}

/// The entry with the longest non-empty phrase that `t` has at `i`; of equally
/// long ones, the first.
pub open spec fn longest(table: Seq<lexicon::Entry>, t: Seq<char>, i: int) -> Option<int>
    decreases table.len(),
{
    if table.len() == 0 {
        None
    } else {
        let k = table.len() - 1;
        let before = longest(table.drop_last(), t, i);
        let length = match before {
            Some(b) => table[b].phrase.len(),
            None => 0,
        };
        if table[k].phrase.len() > length && search::occurs_at(t, table[k].phrase, i) {
            Some(k)
        } else {
            before
        }
    }
}

/// What is found at a position, the longest phrase in either table: homophones
/// count only where the main table has nothing.
pub open spec fn found_at(
    lex: lexicon::LexiconView,
    use_homophones: bool,
    t: Seq<char>,
    i: int,
) -> Option<lexicon::Entry> {
    match longest(lex.main, t, i) {
        Some(k) => Some(lex.main[k]),
        None => if use_homophones {
            match longest(lex.homophones, t, i) {
                Some(k) => Some(lex.homophones[k]),
                None => None,
            }
        } else {
            None
        },
    }
}

pub proof fn lemma_longest_bounds(table: Seq<lexicon::Entry>, t: Seq<char>, i: int)
    ensures
        longest(table, t, i) matches Some(k) ==> 0 <= k < table.len() && table[k].phrase.len() > 0
            && search::occurs_at(t, table[k].phrase, i),
    decreases table.len(),
{
    if table.len() > 0 {
        lemma_longest_bounds(table.drop_last(), t, i);
    }
}

fn lookup_run<'a>(run: &[char], table: &'a Vec<LexEntry>) -> (r: Option<&'a LexOwned>)
    ensures
        match exact(lexicon::entries(table@), run@) {
            Some(m) => r is Some && r->0@ == m,
            None => r is None,
        },
{
    let ghost all = lexicon::entries(table@);
    assert(all.skip(0) == all);
    for k in 0..table.len()
        invariant
            all == lexicon::entries(table@),
            exact(all.skip(k as int), run@) == exact(all, run@),
    {
        assert(all.skip(k as int)[0] == table@[k as int]@);
        if same_chars(&table[k].phrase, run) {
            return Some(&table[k].meaning);
        }
        assert(all.skip(k as int).drop_first() == all.skip(k + 1));
    }
    None
}

fn same_chars(a: &[char], b: &[char]) -> (r: bool)
    ensures
        r == (a@ == b@),
{
    if a.len() != b.len() {
        return false;
    }
    let r = search::matches_at(a, b, 0);
    assert(a@.subrange(0, b@.len() as int) == a@);
    r
}

fn lookup_longest(t: &[char], i: usize, table: &Vec<LexEntry>) -> (r: Option<usize>)
    ensures
        match longest(lexicon::entries(table@), t@, i as int) {
            Some(k) => r is Some && r->0 == k,
            None => r is None,
        },
        r is Some ==> r->0 < table@.len(),
{
    let ghost all = lexicon::entries(table@);
    let mut best: Option<usize> = None;
    let mut length: usize = 0;
    for k in 0..table.len()
        invariant
            all == lexicon::entries(table@),
            match longest(all.take(k as int), t@, i as int) {
                Some(b) => best is Some && best->0 == b,
                None => best is None,
            },
            best is Some ==> best->0 < k && length == all[best->0 as int].phrase.len(),
            best is None ==> length == 0,
    {
        assert(all.take(k + 1).drop_last() == all.take(k as int));
        assert(all[k as int] == table@[k as int]@);
        if table[k].phrase.len() > length && search::matches_at(t, &table[k].phrase, i) {
            best = Some(k);
            length = table[k].phrase.len();
        }
    }
    assert(all.take(all.len() as int) == all);
    best
}

fn lookup_prefix<'a>(
    t: &[char],
    i: usize,
    use_homophones: bool,
    lex: &'a Lexicon,
) -> (r: Option<&'a LexEntry>)
    ensures
        match found_at(lex@, use_homophones, t@, i as int) {
            Some(e) => r is Some && r->0@ == e && search::occurs_at(t@, e.phrase, i as int),
            None => r is None,
        },
{
    proof {
        lemma_longest_bounds(lex@.main, t@, i as int);
        lemma_longest_bounds(lex@.homophones, t@, i as int);
    }
    match lookup_longest(t, i, &lex.main) {
        Some(k) => {
            assert(lex@.main[k as int] == lex.main@[k as int]@);
            Some(&lex.main[k])
        },
        None => {
            if use_homophones {
                match lookup_longest(t, i, &lex.homophones) {
                    Some(k) => {
                        assert(lex@.homophones[k as int] == lex.homophones@[k as int]@);
                        Some(&lex.homophones[k])
                    },
                    None => None,
                }
            } else {
                None
            }
        },
    }
}

// ---------------------------------------------------------------------------
// Scanning
// ---------------------------------------------------------------------------

/// What a scan yields: the tokens in order, and how many characters no phrase covers.
#[verifier::ext_equal]
pub struct Scan {
    pub tokens: Seq<lexicon::Meaning>,
    pub unknown: nat,
}

impl Scan {
    pub open spec fn none() -> Scan {
        Scan { tokens: Seq::empty(), unknown: 0 }
    }

    pub open spec fn followed_by(self, rest: Scan) -> Scan {
        Scan { tokens: self.tokens + rest.tokens, unknown: self.unknown + rest.unknown }
    }

    pub open spec fn skipped(n: nat) -> Scan {
        Scan { tokens: Seq::empty(), unknown: n }
    }

    /// A stop word leaves no token.
    pub open spec fn token(m: lexicon::Meaning) -> Scan {
        Scan {
            tokens: if m is Stop {
                Seq::empty()
            } else {
                seq![m]
            },
            unknown: 0,
        }
    }
}

/// Where the run of ASCII letters and digits from `i` on ends.
pub open spec fn run_end(t: Seq<char>, i: int) -> int
    decreases t.len() - i,
{
    if 0 <= i < t.len() && text::ascii_alphanumeric(t[i]) {
        run_end(t, i + 1)
    } else {
        i
    }
}

pub proof fn lemma_run_end(t: Seq<char>, i: int)
    ensures
        run_end(t, i) >= i,
        i <= t.len() ==> run_end(t, i) <= t.len(),
    decreases t.len() - i,
{
    if 0 <= i < t.len() && text::ascii_alphanumeric(t[i]) {
        lemma_run_end(t, i + 1);
    }
}

/// A run is looked up as a whole; a single letter or digit that is no phrase
/// names its own key.
pub open spec fn run_scan(lex: lexicon::LexiconView, run: Seq<char>) -> Scan {
    match exact(lex.main, run) {
        Some(m) => Scan::token(m),
        None => if run.len() == 1 {
            Scan::token(lexicon::Meaning::Key(seq![text::ascii_upper(run[0])]))
        } else {
            Scan::skipped(run.len())
        },
    }
}

/// The scan of `t` from `i` on.
pub open spec fn scan_from(
    lex: lexicon::LexiconView,
    use_homophones: bool,
    t: Seq<char>,
    i: int,
) -> Scan
    decreases t.len() - i,
{
    if i < 0 || i >= t.len() {
        Scan::none()
    } else if text::whitespace(t[i]) {
        scan_from(lex, use_homophones, t, i + 1)
    } else if text::ascii_alphanumeric(t[i]) {
        proof {
            lemma_run_end(t, i + 1);
        }
        let end = run_end(t, i);
        run_scan(lex, t.subrange(i, end)).followed_by(scan_from(lex, use_homophones, t, end))
    } else {
        proof {
            lemma_longest_bounds(lex.main, t, i);
            lemma_longest_bounds(lex.homophones, t, i);
        }
        match found_at(lex, use_homophones, t, i) {
            Some(e) => Scan::token(e.meaning).followed_by(
                scan_from(lex, use_homophones, t, i + e.phrase.len()),
            ),
            None => Scan::skipped(1).followed_by(scan_from(lex, use_homophones, t, i + 1)),
        }
    }
}

pub open spec fn scan_of(lex: lexicon::LexiconView, use_homophones: bool, t: Seq<char>) -> Scan {
    scan_from(lex, use_homophones, t, 0)
}

/// How many characters are no white space.
pub open spec fn solid(t: Seq<char>) -> nat
    decreases t.len(),
{
    if t.len() == 0 {
        0
    } else {
        solid(t.drop_last()) + if text::whitespace(t.last()) {
            0nat
        } else {
            1nat
        }
    }
}

fn count_solid(t: &[char]) -> (r: usize)
    ensures
        r == solid(t@),
{
    let mut n: usize = 0;
    for i in 0..t.len()
        invariant
            n == solid(t@.take(i as int)),
            n <= i,
    {
        assert(t@.take(i + 1).drop_last() == t@.take(i as int));
        if !text::is_whitespace(t[i]) {
            n += 1;
        }
    }
    assert(t@.take(t@.len() as int) == t@);
    n
}

pub open spec fn meanings(v: Seq<LexOwned>) -> Seq<lexicon::Meaning> {
    v.map_values(|m: LexOwned| m@)
}

fn push_tok(tokens: &mut Vec<LexOwned>, m: &LexOwned)
    ensures
        meanings(final(tokens)@) == meanings(old(tokens)@) + Scan::token(m@).tokens,
{
    match m {
        LexOwned::Action(c) => tokens.push(LexOwned::Action(c.clone())),
        LexOwned::Mod(m) => tokens.push(LexOwned::Mod(*m)),
        LexOwned::Key(k) => tokens.push(LexOwned::Key(k.clone())),
        LexOwned::Stop => {},
    }
    assert(meanings(tokens@) =~= meanings(old(tokens)@) + Scan::token(m@).tokens);
}

/// The tokens of `t` and the number of characters that no phrase covers.
fn scan(t: &[char], use_homophones: bool, lex: &Lexicon) -> (r: (Vec<LexOwned>, usize))
    ensures
        meanings(r.0@) == scan_of(lex@, use_homophones, t@).tokens,
        r.1 == scan_of(lex@, use_homophones, t@).unknown,
{
    let ghost whole = scan_of(lex@, use_homophones, t@);
    let mut tokens: Vec<LexOwned> = Vec::new();
    let mut unknown: usize = 0;
    let mut i: usize = 0;
    assert(meanings(tokens@) =~= Seq::<lexicon::Meaning>::empty());
    assert(Scan::none().followed_by(whole) =~= whole);
    while i < t.len()
        invariant
            i <= t@.len(),
            unknown <= i,
            whole == (Scan { tokens: meanings(tokens@), unknown: unknown as nat }).followed_by(
                scan_from(lex@, use_homophones, t@, i as int),
            ),
        decreases t@.len() - i,
    {
        let ghost done = Scan { tokens: meanings(tokens@), unknown: unknown as nat };
        let ghost rest = scan_from(lex@, use_homophones, t@, i as int);
        let c = t[i];
        if text::is_whitespace(c) {
            i += 1;
        } else if text::is_ascii_alphanumeric(c) {
            let start: usize = i;
            while i < t.len() && text::is_ascii_alphanumeric(t[i])
                invariant
                    start <= i <= t@.len(),
                    run_end(t@, i as int) == run_end(t@, start as int),
                decreases t@.len() - i,
            {
                i += 1;
            }
            proof {
                lemma_run_end(t@, start + 1);
            }
            let run = vstd::slice::slice_subrange(t, start, i);
            let ghost next = scan_from(lex@, use_homophones, t@, i as int);
            assert(rest == run_scan(lex@, run@).followed_by(next));
            match lookup_run(run, &lex.main) {
                Some(m) => {
                    push_tok(&mut tokens, m);
                },
                None => {
                    if run.len() == 1 {
                        let mut name = String::new();
                        name.push(text::to_ascii_upper(run[0]));
                        assert(name@ =~= seq![text::ascii_upper(run@[0])]);
                        push_tok(&mut tokens, &LexOwned::Key(name));
                    } else {
                        unknown += run.len();
                    }
                },
            }
            assert(whole =~= (Scan {
                tokens: meanings(tokens@),
                unknown: unknown as nat,
            }).followed_by(next));
        } else {
            match lookup_prefix(t, i, use_homophones, lex) {
                Some(e) => {
                    proof {
                        lemma_longest_bounds(lex@.main, t@, i as int);
                        lemma_longest_bounds(lex@.homophones, t@, i as int);
                    }
                    let ghost next = scan_from(lex@, use_homophones, t@, i + e@.phrase.len());
                    push_tok(&mut tokens, &e.meaning);
                    i += e.phrase.len();
                    assert(whole =~= (Scan {
                        tokens: meanings(tokens@),
                        unknown: unknown as nat,
                    }).followed_by(next));
                },
                None => {
                    let ghost next = scan_from(lex@, use_homophones, t@, i + 1);
                    unknown += 1;
                    i += 1;
                    assert(whole =~= (Scan {
                        tokens: meanings(tokens@),
                        unknown: unknown as nat,
                    }).followed_by(next));
                },
            }
        }
    }
    assert(whole =~= Scan { tokens: meanings(tokens@), unknown: unknown as nat });
    (tokens, unknown)
}

// ---------------------------------------------------------------------------
// Assembling
// ---------------------------------------------------------------------------

/// The command of the first action among the tokens.
pub open spec fn first_action(tokens: Seq<lexicon::Meaning>) -> Option<combo::CommandView>
    decreases tokens.len(),
{
    if tokens.len() == 0 {
        None
    } else {
        match tokens[0] {
            lexicon::Meaning::Action(c) => Some(c),
            _ => first_action(tokens.drop_first()),
        }
    }
}

/// The modifiers among the tokens, each once, in the order of their first mention.
pub open spec fn modifiers_of(tokens: Seq<lexicon::Meaning>) -> Seq<Modifier>
    decreases tokens.len(),
{
    if tokens.len() == 0 {
        Seq::empty()
    } else {
        let before = modifiers_of(tokens.drop_last());
        match tokens.last() {
            lexicon::Meaning::Mod(m) if !before.contains(m) => before.push(m),
            _ => before,
        }
    }
}

/// The key names among the tokens, each once, in the order of their first mention.
pub open spec fn keys_of(tokens: Seq<lexicon::Meaning>) -> Seq<Seq<char>>
    decreases tokens.len(),
{
    if tokens.len() == 0 {
        Seq::empty()
    } else {
        let before = keys_of(tokens.drop_last());
        match tokens.last() {
            lexicon::Meaning::Key(k) if !before.contains(k) => before.push(k),
            _ => before,
        }
    }
}

/// The command that the tokens of a text make: none where more than half of it
/// is unknown; the first action, where there is one; else the one key named,
/// with the modifiers. A bare letter or digit is no command.
pub open spec fn assembled(scan: Scan, total: nat) -> Option<combo::CommandView> {
    if total > 0 && scan.unknown * 2 > total {
        None
    } else if first_action(scan.tokens) is Some {
        first_action(scan.tokens)
    } else {
        let modifiers = modifiers_of(scan.tokens);
        let keys = keys_of(scan.tokens);
        if keys.len() != 1 || (modifiers.len() == 0 && keys[0].len() == 1) {
            None
        } else {
            Some(combo::CommandView::Combo(combo::ComboView { modifiers, key: keys[0] }))
        }
    }
}

fn find_action(tokens: &Vec<LexOwned>) -> (r: Option<ParsedCommand>)
    ensures
        match first_action(meanings(tokens@)) {
            Some(c) => r is Some && r->0@ == c,
            None => r is None,
        },
{
    let ghost all = meanings(tokens@);
    assert(all.skip(0) == all);
    for i in 0..tokens.len()
        invariant
            all == meanings(tokens@),
            first_action(all.skip(i as int)) == first_action(all),
    {
        assert(all.skip(i as int)[0] == tokens@[i as int]@);
        assert(all.skip(i as int).drop_first() == all.skip(i + 1));
        if let LexOwned::Action(c) = &tokens[i] {
            return Some(c.clone());
        }
    }
    None
}

fn has_modifier(v: &Vec<Modifier>, m: Modifier) -> (r: bool)
    ensures
        r == v@.contains(m),
{
    for i in 0..v.len()
        invariant
            forall|j: int| 0 <= j < i ==> v@[j] != m,
    {
        if v[i] == m {
            return true;
        }
    }
    false
}

fn has_key(v: &Vec<String>, k: &str) -> (r: bool)
    ensures
        r == search::texts(v@).contains(k@),
{
    for i in 0..v.len()
        invariant
            forall|j: int| 0 <= j < i ==> search::texts(v@)[j] != k@,
    {
        assert(search::texts(v@)[i as int] == v@[i as int]@);
        if text::same(&v[i], k) {
            return true;
        }
    }
    false
}

fn assemble(tokens: &Vec<LexOwned>, unknown: usize, total: usize) -> (r: Option<ParsedCommand>)
    ensures
        match assembled(Scan { tokens: meanings(tokens@), unknown: unknown as nat }, total as nat) {
            Some(c) => r is Some && r->0@ == c,
            None => r is None,
        },
{
    if total > 0 && unknown > total / 2 {
        return None;
    }
    let action = find_action(tokens);
    if action.is_some() {
        return action;
    }
    let ghost all = meanings(tokens@);
    let mut modifiers: Vec<Modifier> = Vec::new();
    let mut keys: Vec<String> = Vec::new();
    assert(search::texts(keys@) =~= Seq::<Seq<char>>::empty());
    for i in 0..tokens.len()
        invariant
            all == meanings(tokens@),
            modifiers@ == modifiers_of(all.take(i as int)),
            search::texts(keys@) == keys_of(all.take(i as int)),
    {
        assert(all.take(i + 1).drop_last() == all.take(i as int));
        assert(all[i as int] == tokens@[i as int]@);
        match &tokens[i] {
            LexOwned::Mod(m) => {
                if !has_modifier(&modifiers, *m) {
                    modifiers.push(*m);
                }
            },
            LexOwned::Key(k) => {
                if !has_key(&keys, k) {
                    let name = k.clone();
                    proof {
                        search::lemma_texts_push(keys@, name);
                    }
                    keys.push(name);
                }
            },
            _ => {},
        }
    }
    assert(all.take(all.len() as int) == all);
    if keys.len() != 1 {
        return None;
    }
    assert(search::texts(keys@)[0] == keys@[0]@);
    if modifiers.len() == 0 && keys[0].as_str().unicode_len() == 1 {
        return None;
    }
    Some(ParsedCommand::Combo(KeyCombo { modifiers, key: keys[0].clone() }))
}

// ---------------------------------------------------------------------------
// Parsing
// ---------------------------------------------------------------------------

/// The command that one round finds in normalised text.
pub open spec fn round(
    lex: lexicon::LexiconView,
    use_homophones: bool,
    t: Seq<char>,
) -> Option<combo::CommandView> {
    assembled(scan_of(lex, use_homophones, t), solid(t))
}

/// The text without its white space.
pub open spec fn squashed(t: Seq<char>) -> Seq<char> {
    t.filter(|c: char| !text::whitespace(c))
}

pub open spec fn cmd_with(key: Seq<char>) -> combo::CommandView {
    combo::CommandView::Combo(combo::ComboView { modifiers: seq![Modifier::Command], key })
}

/// The command that normalised text means: `ctrl c` and `ctrl v` as a whole
/// are the platform's copy and paste; anything else is read in two rounds, the
/// second with the homophones.
pub open spec fn meaning_of(lex: lexicon::LexiconView, t: Seq<char>) -> Option<combo::CommandView> {
    let whole = squashed(t);
    if t.len() == 0 {
        None
    } else if whole == "ctrlc"@ || whole == "controlc"@ {
        Some(cmd_with("C"@))
    } else if whole == "ctrlv"@ || whole == "controlv"@ {
        Some(cmd_with("V"@))
    } else if round(lex, false, t) is Some {
        round(lex, false, t)
    } else {
        round(lex, true, t)
    }
}

/// The command that spoken text means.
pub open spec fn command_for(lex: lexicon::LexiconView, s: Seq<char>) -> Option<combo::CommandView> {
    meaning_of(lex, normalized(s))
}

fn try_parse(t: &[char], use_homophones: bool, lex: &Lexicon) -> (r: Option<ParsedCommand>)
    ensures
        match round(lex@, use_homophones, t@) {
            Some(c) => r is Some && r->0@ == c,
            None => r is None,
        },
{
    let total: usize = count_solid(t);
    let scanned = scan(t, use_homophones, lex);
    let ghost s = scan_of(lex@, use_homophones, t@);
    assert(s == Scan { tokens: meanings(scanned.0@), unknown: scanned.1 as nat });
    assemble(&scanned.0, scanned.1, total)
}

fn squash(t: &[char]) -> (r: String)
    ensures
        r@ == squashed(t@),
{
    let mut r = String::new();
    assert(squashed(t@.take(0)) =~= Seq::<char>::empty()) by {
        reveal(Seq::filter);
    }
    for i in 0..t.len()
        invariant
            r@ == squashed(t@.take(i as int)),
    {
        proof {
            reveal(Seq::filter);
            assert(t@.take(i + 1).drop_last() == t@.take(i as int));
        }
        if !text::is_whitespace(t[i]) {
            r.push(t[i]);
        }
    }
    assert(t@.take(t@.len() as int) == t@);
    r
}

fn cmd_combo(key: &str) -> (r: ParsedCommand)
    ensures
        r@ == cmd_with(key@),
{
    let modifiers = vec![Modifier::Command];
    assert(modifiers@ =~= seq![Modifier::Command]);
    ParsedCommand::Combo(KeyCombo { modifiers, key: key.to_string() })
}

/// Reads the command that a recognised text stands for.
pub fn parse(text: &str, lexicon: &Lexicon) -> (r: Option<ParsedCommand>)
    ensures
        match command_for(lexicon@, text@) {
            Some(c) => r is Some && r->0@ == c,
            None => r is None,
        },
{
    let n = normalize(text);
    let t = text::chars_of(&n);
    if t.len() == 0 {
        return None;
    }
    let whole = squash(&t);
    if text::same(&whole, "ctrlc") || text::same(&whole, "controlc") {
        return Some(cmd_combo("C"));
    }
    if text::same(&whole, "ctrlv") || text::same(&whole, "controlv") {
        return Some(cmd_combo("V"));
    }
    let first = try_parse(&t, false, lexicon);
    if first.is_some() {
        return first;
    }
    try_parse(&t, true, lexicon)
}

} // verus!
