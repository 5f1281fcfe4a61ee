//! How spoken commands are read: what a text means by what it holds.
use crate::command::combo;
use crate::command::combo::Modifier;
use crate::command::laws;
use crate::command::lexicon;
use crate::command::lexicon::Meaning;
use crate::command::parser;
use crate::search;
use crate::text;
use vstd::prelude::*;

verus! {

// ---------------------------------------------------------------------------
// From tokens to commands
// ---------------------------------------------------------------------------

proof fn lemma_first_action(tokens: Seq<Meaning>, i: int, c: combo::CommandView)
    requires
        0 <= i < tokens.len(),
        tokens[i] == Meaning::Action(c),
        forall|j: int| 0 <= j < i ==> !(#[trigger] tokens[j] is Action),
    ensures
        parser::first_action(tokens) == Some(c),
    decreases i,
{
    if i > 0 {
        let rest = tokens.drop_first();
        assert(!(tokens[0] is Action));
        assert forall|j: int| 0 <= j < i - 1 implies !(#[trigger] rest[j] is Action) by {
            assert(rest[j] == tokens[j + 1]);
        }
        lemma_first_action(rest, i - 1, c);
    }
}

proof fn lemma_no_action(tokens: Seq<Meaning>)
    requires
        forall|j: int| 0 <= j < tokens.len() ==> !(#[trigger] tokens[j] is Action),
    ensures
        parser::first_action(tokens) is None,
    decreases tokens.len(),
{
    if tokens.len() > 0 {
        let rest = tokens.drop_first();
        assert(!(tokens[0] is Action));
        assert forall|j: int| 0 <= j < rest.len() implies !(#[trigger] rest[j] is Action) by {
            assert(rest[j] == tokens[j + 1]);
        }
        lemma_no_action(rest);
    }
}

/// `a` is mentioned, and up to its first mention `b` is not.
pub open spec fn mentioned_before(tokens: Seq<Meaning>, a: Meaning, b: Meaning) -> bool {
    exists|i: int|
        0 <= i < tokens.len() && #[trigger] tokens[i] == a && forall|j: int|
            0 <= j <= i ==> #[trigger] tokens[j] != b
}

/// The modifiers are those that were said, each once, in the order in which
/// they were first said.
pub proof fn law_modifiers_are_those_said(tokens: Seq<Meaning>)
    ensures
        forall|m: Modifier| #[trigger]
            parser::modifiers_of(tokens).contains(m) <==> tokens.contains(Meaning::Mod(m)),
        forall|a: int, b: int|
            #![trigger parser::modifiers_of(tokens)[a], parser::modifiers_of(tokens)[b]]
            0 <= a < b < parser::modifiers_of(tokens).len() ==> mentioned_before(
                tokens,
                Meaning::Mod(parser::modifiers_of(tokens)[a]),
                Meaning::Mod(parser::modifiers_of(tokens)[b]),
            ),
    decreases tokens.len(),
{
    let mods = parser::modifiers_of(tokens);
    if tokens.len() > 0 {
        let before = tokens.drop_last();
        let old_mods = parser::modifiers_of(before);
        law_modifiers_are_those_said(before);
        let last = tokens.len() - 1;
        assert forall|m: Modifier| #[trigger] mods.contains(m) <==> tokens.contains(
            Meaning::Mod(m),
        ) by {
            if mods.contains(m) {
                let k = choose|k: int| 0 <= k < mods.len() && mods[k] == m;
                if k < old_mods.len() {
                    assert(old_mods[k] == m);
                    assert(old_mods.contains(m));
                    let i = choose|i: int| 0 <= i < before.len() && before[i] == Meaning::Mod(m);
                    assert(tokens[i] == Meaning::Mod(m));
                } else {
                    assert(tokens[last] == Meaning::Mod(m));
                }
            }
            if tokens.contains(Meaning::Mod(m)) {
                let i = choose|i: int| 0 <= i < tokens.len() && tokens[i] == Meaning::Mod(m);
                if i < last {
                    assert(before[i] == Meaning::Mod(m));
                    assert(before.contains(Meaning::Mod(m)));
                    assert(old_mods.contains(m));
                    let k = choose|k: int| 0 <= k < old_mods.len() && old_mods[k] == m;
                    assert(mods[k] == m);
                } else if old_mods.contains(m) {
                    let k = choose|k: int| 0 <= k < old_mods.len() && old_mods[k] == m;
                    assert(mods[k] == m);
                } else {
                    assert(mods[mods.len() - 1] == m);
                }
            }
        }
        assert forall|a: int, b: int|
            #![trigger mods[a], mods[b]]
            0 <= a < b < mods.len() implies mentioned_before(
            tokens,
            Meaning::Mod(mods[a]),
            Meaning::Mod(mods[b]),
        ) by {
            assert(mods[a] == old_mods[a]);
            let ma = Meaning::Mod(mods[a]);
            let mb = Meaning::Mod(mods[b]);
            if b < old_mods.len() {
                assert(mods[b] == old_mods[b]);
                assert(mentioned_before(before, ma, mb));
                let i = choose|i: int|
                    0 <= i < before.len() && #[trigger] before[i] == ma && forall|j: int|
                        0 <= j <= i ==> #[trigger] before[j] != mb;
                assert(tokens[i] == ma);
                assert forall|j: int| 0 <= j <= i implies #[trigger] tokens[j] != mb by {
                    assert(before[j] == tokens[j]);
                }
            } else {
                assert(!old_mods.contains(mods[b]));
                assert(old_mods.contains(mods[a]));
                let i = choose|i: int| 0 <= i < before.len() && before[i] == ma;
                assert(tokens[i] == ma);
                assert forall|j: int| 0 <= j <= i implies #[trigger] tokens[j] != mb by {
                    if tokens[j] == mb {
                        assert(before[j] == mb);
                        assert(before.contains(mb));
                    }
                }
            }
        }
    }
}

/// The keys are those that were said, each once.
pub proof fn law_keys_are_those_said(tokens: Seq<Meaning>)
    ensures
        forall|k: Seq<char>| #[trigger]
            parser::keys_of(tokens).contains(k) <==> tokens.contains(Meaning::Key(k)),
    decreases tokens.len(),
{
    let keys = parser::keys_of(tokens);
    if tokens.len() > 0 {
        let before = tokens.drop_last();
        let old_keys = parser::keys_of(before);
        law_keys_are_those_said(before);
        let last = tokens.len() - 1;
        assert forall|m: Seq<char>| #[trigger] keys.contains(m) <==> tokens.contains(
            Meaning::Key(m),
        ) by {
            if keys.contains(m) {
                let k = choose|k: int| 0 <= k < keys.len() && keys[k] == m;
                if k < old_keys.len() {
                    assert(old_keys[k] == m);
                    assert(old_keys.contains(m));
                    let i = choose|i: int| 0 <= i < before.len() && before[i] == Meaning::Key(m);
                    assert(tokens[i] == Meaning::Key(m));
                } else {
                    assert(tokens[last] == Meaning::Key(m));
                }
            }
            if tokens.contains(Meaning::Key(m)) {
                let i = choose|i: int| 0 <= i < tokens.len() && tokens[i] == Meaning::Key(m);
                if i < last {
                    assert(before[i] == Meaning::Key(m));
                    assert(before.contains(Meaning::Key(m)));
                    assert(old_keys.contains(m));
                    let k = choose|k: int| 0 <= k < old_keys.len() && old_keys[k] == m;
                    assert(keys[k] == m);
                } else if old_keys.contains(m) {
                    let k = choose|k: int| 0 <= k < old_keys.len() && old_keys[k] == m;
                    assert(keys[k] == m);
                } else {
                    assert(keys[keys.len() - 1] == m);
                }
            }
        }
    }
}

/// A text of which at most half is unknown means the first action that it
/// names, whatever keys and modifiers stand beside it.
pub proof fn law_known_enough_is_the_action(
    lex: lexicon::LexiconView,
    use_homophones: bool,
    t: Seq<char>,
    i: int,
    c: combo::CommandView,
)
    requires
        parser::scan_of(lex, use_homophones, t).unknown * 2 <= parser::solid(t),
        0 <= i < parser::scan_of(lex, use_homophones, t).tokens.len(),
        parser::scan_of(lex, use_homophones, t).tokens[i] == Meaning::Action(c),
        forall|j: int|
            0 <= j < i ==> !(#[trigger] parser::scan_of(lex, use_homophones, t).tokens[j] is Action),
    ensures
        parser::round(lex, use_homophones, t) == Some(c),
{
    lemma_first_action(parser::scan_of(lex, use_homophones, t).tokens, i, c);
}

/// A text of which at most half is unknown, that names no action and one key,
/// means that key with the modifiers that it names. The name of a key that is no
/// single character does without modifiers.
pub proof fn law_known_enough_is_the_combination(
    lex: lexicon::LexiconView,
    use_homophones: bool,
    t: Seq<char>,
    k: Seq<char>,
)
    requires
        ({
            let s = parser::scan_of(lex, use_homophones, t);
            &&& s.unknown * 2 <= parser::solid(t)
            &&& forall|j: int| 0 <= j < s.tokens.len() ==> !(#[trigger] s.tokens[j] is Action)
            &&& s.tokens.contains(Meaning::Key(k))
            &&& forall|j: int|
                0 <= j < s.tokens.len() && #[trigger] s.tokens[j] is Key ==> s.tokens[j]
                    == Meaning::Key(k)
            &&& k.len() != 1 || exists|m: Modifier| #[trigger]
                s.tokens.contains(Meaning::Mod(m))
        }),
    ensures
        parser::round(lex, use_homophones, t) matches Some(combo::CommandView::Combo(c)) && {
            &&& c.key == k
            &&& c.modifiers.no_duplicates()
            &&& forall|m: Modifier| #[trigger]
                c.modifiers.contains(m) <==> parser::scan_of(
                    lex,
                    use_homophones,
                    t,
                ).tokens.contains(Meaning::Mod(m))
            &&& forall|a: int, b: int|
                #![trigger c.modifiers[a], c.modifiers[b]]
                0 <= a < b < c.modifiers.len() ==> mentioned_before(
                    parser::scan_of(lex, use_homophones, t).tokens,
                    Meaning::Mod(c.modifiers[a]),
                    Meaning::Mod(c.modifiers[b]),
                )
        },
{
    let tokens = parser::scan_of(lex, use_homophones, t).tokens;
    lemma_no_action(tokens);
    laws::law_modifiers_are_distinct(tokens);
    law_modifiers_are_those_said(tokens);
    law_keys_are_those_said(tokens);
    let keys = parser::keys_of(tokens);
    let mods = parser::modifiers_of(tokens);
    assert(keys.contains(k));
    lemma_one_key(tokens, k);
    if k.len() == 1 {
        let m = choose|m: Modifier| #[trigger] tokens.contains(Meaning::Mod(m));
        assert(mods.contains(m));
    }
}

proof fn lemma_one_key(tokens: Seq<Meaning>, k: Seq<char>)
    requires
        parser::keys_of(tokens).contains(k),
        forall|j: int|
            0 <= j < tokens.len() && #[trigger] tokens[j] is Key ==> tokens[j] == Meaning::Key(k),
    ensures
        parser::keys_of(tokens) == seq![k],
{
    laws::law_modifiers_are_distinct(tokens);
    law_keys_are_those_said(tokens);
    let keys = parser::keys_of(tokens);
    assert forall|i: int| 0 <= i < keys.len() implies keys[i] == k by {
        assert(keys.contains(keys[i]));
        assert(tokens.contains(Meaning::Key(keys[i])));
        let j = choose|j: int| 0 <= j < tokens.len() && tokens[j] == Meaning::Key(keys[i]);
        assert(tokens[j] is Key);
    }
    if keys.len() > 1 {
        assert(keys[0] == keys[1]);
    }
    assert(keys =~= seq![k]);
}

/// Without an action, two keys, no key, or a bare character are no command.
pub proof fn law_unclear_keys_are_no_command(
    lex: lexicon::LexiconView,
    use_homophones: bool,
    t: Seq<char>,
    k: Seq<char>,
    l: Seq<char>,
)
    requires
        ({
            let tokens = parser::scan_of(lex, use_homophones, t).tokens;
            &&& forall|j: int| 0 <= j < tokens.len() ==> !(#[trigger] tokens[j] is Action)
            &&& {
                ||| k != l && tokens.contains(Meaning::Key(k)) && tokens.contains(Meaning::Key(l))
                ||| forall|j: int| 0 <= j < tokens.len() ==> !(#[trigger] tokens[j] is Key)
                ||| k.len() == 1 && tokens == seq![Meaning::Key(k)]
            }
        }),
    ensures
        parser::round(lex, use_homophones, t) is None,
{
    let tokens = parser::scan_of(lex, use_homophones, t).tokens;
    lemma_no_action(tokens);
    law_modifiers_are_those_said(tokens);
    law_keys_are_those_said(tokens);
    let keys = parser::keys_of(tokens);
    let mods = parser::modifiers_of(tokens);
    if k != l && tokens.contains(Meaning::Key(k)) && tokens.contains(Meaning::Key(l)) {
        assert(keys.contains(k) && keys.contains(l));
    } else if forall|j: int| 0 <= j < tokens.len() ==> !(#[trigger] tokens[j] is Key) {
        if keys.len() > 0 {
            assert(keys.contains(keys[0]));
            assert(tokens.contains(Meaning::Key(keys[0])));
        }
    } else {
        assert(tokens[0] == Meaning::Key(k));
        assert(keys.contains(k));
        lemma_one_key(tokens, k);
        if mods.len() > 0 {
            assert(mods.contains(mods[0]));
            assert(tokens.contains(Meaning::Mod(mods[0])));
        }
    }
}

// ---------------------------------------------------------------------------
// From text to tokens
// ---------------------------------------------------------------------------

/// No phrase of the table holds the character.
pub open spec fn strange_to(table: Seq<lexicon::Entry>, c: char) -> bool {
    forall|k: int| 0 <= k < table.len() ==> !(#[trigger] table[k]).phrase.contains(c)
}

proof fn lemma_longest_push(table: Seq<lexicon::Entry>, t: Seq<char>, c: char, i: int)
    requires
        0 <= i <= t.len(),
        strange_to(table, c),
    ensures
        parser::longest(table, t.push(c), i) == parser::longest(table, t, i),
    decreases table.len(),
{
    if table.len() > 0 {
        let rest = table.drop_last();
        assert forall|k: int| 0 <= k < rest.len() implies !(#[trigger] rest[k]).phrase.contains(c) by {
            assert(rest[k] == table[k]);
        }
        lemma_longest_push(rest, t, c, i);
        let p = table[table.len() - 1].phrase;
        let u = t.push(c);
        if p.len() > 0 {
            if search::occurs_at(u, p, i) {
                if i + p.len() > t.len() {
                    assert(u.subrange(i, i + p.len())[p.len() - 1] == c);
                    assert(p[p.len() - 1] == c);
                    assert(p.contains(c));
                }
                assert(t.subrange(i, i + p.len()) =~= u.subrange(i, i + p.len()));
            }
            if search::occurs_at(t, p, i) {
                assert(t.subrange(i, i + p.len()) =~= u.subrange(i, i + p.len()));
            }
        }
    }
}

proof fn lemma_run_end_push(t: Seq<char>, c: char, i: int)
    requires
        0 <= i <= t.len(),
        !text::ascii_alphanumeric(c),
    ensures
        parser::run_end(t.push(c), i) == parser::run_end(t, i),
    decreases t.len() - i,
{
    if i < t.len() {
        assert(t.push(c)[i] == t[i]);
        if text::ascii_alphanumeric(t[i]) {
            lemma_run_end_push(t, c, i + 1);
        }
    }
}

proof fn lemma_scan_push(
    lex: lexicon::LexiconView,
    use_homophones: bool,
    t: Seq<char>,
    c: char,
    i: int,
)
    requires
        0 <= i <= t.len(),
        !text::whitespace(c),
        !text::ascii_alphanumeric(c),
        strange_to(lex.main, c),
        strange_to(lex.homophones, c),
    ensures
        parser::scan_from(lex, use_homophones, t.push(c), i).tokens == parser::scan_from(
            lex,
            use_homophones,
            t,
            i,
        ).tokens,
        parser::scan_from(lex, use_homophones, t.push(c), i).unknown == parser::scan_from(
            lex,
            use_homophones,
            t,
            i,
        ).unknown + 1,
    decreases t.len() - i,
{
    let u = t.push(c);
    lemma_longest_push(lex.main, t, c, i);
    lemma_longest_push(lex.homophones, t, c, i);
    parser::lemma_longest_bounds(lex.main, t, i);
    parser::lemma_longest_bounds(lex.homophones, t, i);
    if i == t.len() {
        assert(u[i] == c);
        assert(parser::scan_from(lex, use_homophones, u, i + 1) == parser::Scan::none());
        assert(parser::scan_from(lex, use_homophones, t, i) == parser::Scan::none());
        assert(parser::scan_from(lex, use_homophones, u, i).tokens =~= Seq::empty());
    } else {
        assert(u[i] == t[i]);
        if text::whitespace(t[i]) {
            lemma_scan_push(lex, use_homophones, t, c, i + 1);
        } else if text::ascii_alphanumeric(t[i]) {
            parser::lemma_run_end(t, i + 1);
            lemma_run_end_push(t, c, i);
            let end = parser::run_end(t, i);
            assert(u.subrange(i, end) =~= t.subrange(i, end));
            lemma_scan_push(lex, use_homophones, t, c, end);
        } else {
            match parser::found_at(lex, use_homophones, t, i) {
                Some(e) => {
                    lemma_scan_push(lex, use_homophones, t, c, i + e.phrase.len());
                },
                None => {
                    lemma_scan_push(lex, use_homophones, t, c, i + 1);
                },
            }
        }
    }
}

/// A character that no phrase holds counts as unknown and does nothing else: at
/// the end of a text it leaves the tokens as they are.
pub proof fn law_strange_characters_only_count(
    lex: lexicon::LexiconView,
    use_homophones: bool,
    t: Seq<char>,
    c: char,
)
    requires
        !text::whitespace(c),
        !text::ascii_alphanumeric(c),
        strange_to(lex.main, c),
        strange_to(lex.homophones, c),
    ensures
        parser::scan_of(lex, use_homophones, t.push(c)).tokens == parser::scan_of(
            lex,
            use_homophones,
            t,
        ).tokens,
        parser::scan_of(lex, use_homophones, t.push(c)).unknown == parser::scan_of(
            lex,
            use_homophones,
            t,
        ).unknown + 1,
        parser::solid(t.push(c)) == parser::solid(t) + 1,
{
    lemma_scan_push(lex, use_homophones, t, c, 0);
    assert(t.push(c).drop_last() =~= t);
}

proof fn lemma_longest_shift(table: Seq<lexicon::Entry>, c: char, t: Seq<char>, i: int)
    requires
        0 <= i,
    ensures
        parser::longest(table, seq![c] + t, i + 1) == parser::longest(table, t, i),
    decreases table.len(),
{
    if table.len() > 0 {
        lemma_longest_shift(table.drop_last(), c, t, i);
        let p = table[table.len() - 1].phrase;
        let u = seq![c] + t;
        if i + p.len() <= t.len() {
            assert(u.subrange(i + 1, i + 1 + p.len()) =~= t.subrange(i, i + p.len()));
        }
    }
}

proof fn lemma_run_end_shift(c: char, t: Seq<char>, i: int)
    requires
        0 <= i <= t.len(),
    ensures
        parser::run_end(seq![c] + t, i + 1) == parser::run_end(t, i) + 1,
    decreases t.len() - i,
{
    if i < t.len() {
        assert((seq![c] + t)[i + 1] == t[i]);
        if text::ascii_alphanumeric(t[i]) {
            lemma_run_end_shift(c, t, i + 1);
        }
    }
}

proof fn lemma_scan_shift(
    lex: lexicon::LexiconView,
    use_homophones: bool,
    c: char,
    t: Seq<char>,
    i: int,
)
    requires
        0 <= i <= t.len(),
    ensures
        parser::scan_from(lex, use_homophones, seq![c] + t, i + 1) == parser::scan_from(
            lex,
            use_homophones,
            t,
            i,
        ),
    decreases t.len() - i,
{
    let u = seq![c] + t;
    if i < t.len() {
        assert(u[i + 1] == t[i]);
        if text::whitespace(t[i]) {
            lemma_scan_shift(lex, use_homophones, c, t, i + 1);
        } else if text::ascii_alphanumeric(t[i]) {
            parser::lemma_run_end(t, i + 1);
            lemma_run_end_shift(c, t, i);
            let end = parser::run_end(t, i);
            assert(u.subrange(i + 1, end + 1) =~= t.subrange(i, end));
            lemma_scan_shift(lex, use_homophones, c, t, end);
        } else {
            lemma_longest_shift(lex.main, c, t, i);
            lemma_longest_shift(lex.homophones, c, t, i);
            parser::lemma_longest_bounds(lex.main, t, i);
            parser::lemma_longest_bounds(lex.homophones, t, i);
            match parser::found_at(lex, use_homophones, t, i) {
                Some(e) => {
                    lemma_scan_shift(lex, use_homophones, c, t, i + e.phrase.len());
                },
                None => {
                    lemma_scan_shift(lex, use_homophones, c, t, i + 1);
                },
            }
        }
    }
}

/// The same holds of such a character at the beginning of a text.
pub proof fn law_strange_beginnings_only_count(
    lex: lexicon::LexiconView,
    use_homophones: bool,
    c: char,
    t: Seq<char>,
)
    requires
        !text::whitespace(c),
        !text::ascii_alphanumeric(c),
        strange_to(lex.main, c),
        strange_to(lex.homophones, c),
    ensures
        parser::scan_of(lex, use_homophones, seq![c] + t).tokens == parser::scan_of(
            lex,
            use_homophones,
            t,
        ).tokens,
        parser::scan_of(lex, use_homophones, seq![c] + t).unknown == parser::scan_of(
            lex,
            use_homophones,
            t,
        ).unknown + 1,
        parser::solid(seq![c] + t) == parser::solid(t) + 1,
        parser::round(lex, use_homophones, t) is Some && (parser::scan_of(
            lex,
            use_homophones,
            t,
        ).unknown + 1) * 2 <= parser::solid(t) + 1 ==> parser::round(
            lex,
            use_homophones,
            seq![c] + t,
        ) == parser::round(lex, use_homophones, t),
{
    let u = seq![c] + t;
    assert(u[0] == c);
    laws::law_longest_match_wins(lex.main, u, 0);
    laws::law_longest_match_wins(lex.homophones, u, 0);
    if let Some(k) = parser::longest(lex.main, u, 0) {
        let p = lex.main[k].phrase;
        assert(u.subrange(0, p.len() as int)[0] == c);
        assert(p[0] == c);
    }
    if let Some(k) = parser::longest(lex.homophones, u, 0) {
        let p = lex.homophones[k].phrase;
        assert(u.subrange(0, p.len() as int)[0] == c);
        assert(p[0] == c);
    }
    lemma_scan_shift(lex, use_homophones, c, t, 0);
    let s = parser::scan_of(lex, use_homophones, u);
    assert(s.tokens =~= parser::scan_of(lex, use_homophones, t).tokens);
    lemma_solid_split(u, 0);
    assert(u.skip(0) =~= u);
    assert(u.skip(1) =~= t);
}

/// Characters that no phrase holds may stand behind a command: it stays the
/// same command as long as no more than half of the text is unknown.
pub proof fn law_commands_bear_strange_characters(
    lex: lexicon::LexiconView,
    use_homophones: bool,
    t: Seq<char>,
    c: char,
)
    requires
        !text::whitespace(c),
        !text::ascii_alphanumeric(c),
        strange_to(lex.main, c),
        strange_to(lex.homophones, c),
        parser::round(lex, use_homophones, t) is Some,
        (parser::scan_of(lex, use_homophones, t).unknown + 1) * 2 <= parser::solid(t) + 1,
    ensures
        parser::round(lex, use_homophones, t.push(c)) == parser::round(lex, use_homophones, t),
{
    law_strange_characters_only_count(lex, use_homophones, t, c);
}

proof fn lemma_solid_split(t: Seq<char>, i: int)
    requires
        0 <= i < t.len(),
    ensures
        parser::solid(t.skip(i)) == parser::solid(t.skip(i + 1)) + if text::whitespace(t[i]) {
            0nat
        } else {
            1nat
        },
    decreases t.len(),
{
    let u = t.skip(i);
    let v = t.skip(i + 1);
    if i == t.len() - 1 {
        assert(v =~= Seq::empty());
        assert(u.drop_last() =~= Seq::empty());
        assert(u.last() == t[i]);
    } else {
        let s = t.drop_last();
        lemma_solid_split(s, i);
        assert(u.drop_last() =~= s.skip(i));
        assert(v.drop_last() =~= s.skip(i + 1));
        assert(u.last() == t.last() && v.last() == t.last());
    }
}

proof fn lemma_solid_skip(t: Seq<char>, i: int, n: nat)
    requires
        0 <= i,
        i + n <= t.len(),
    ensures
        parser::solid(t.skip(i)) >= parser::solid(t.skip(i + n)),
        (forall|j: int| i <= j < i + n ==> !text::whitespace(#[trigger] t[j])) ==> parser::solid(
            t.skip(i),
        ) == parser::solid(t.skip(i + n)) + n,
    decreases n,
{
    if n > 0 {
        lemma_solid_split(t, i);
        lemma_solid_skip(t, i + 1, (n - 1) as nat);
        if forall|j: int| i <= j < i + n ==> !text::whitespace(#[trigger] t[j]) {
            assert(!text::whitespace(t[i]));
        }
    }
}

proof fn lemma_run_is_solid(t: Seq<char>, i: int)
    requires
        0 <= i <= t.len(),
    ensures
        forall|j: int|
            i <= j < parser::run_end(t, i) ==> text::ascii_alphanumeric(#[trigger] t[j]),
        parser::run_end(t, i) < t.len() ==> !text::ascii_alphanumeric(t[parser::run_end(t, i)]),
        i <= parser::run_end(t, i) <= t.len(),
    decreases t.len() - i,
{
    if i < t.len() && text::ascii_alphanumeric(t[i]) {
        lemma_run_is_solid(t, i + 1);
    }
}

/// White space counts for nothing: how much there is of a text is how many of
/// its characters are no white space.
pub proof fn law_blanks_count_for_nothing(t: Seq<char>)
    ensures
        parser::solid(t) == t.filter(|c: char| !text::whitespace(c)).len(),
        parser::solid(t) == parser::squashed(t).len(),
    decreases t.len(),
{
    reveal(Seq::filter);
    if t.len() > 0 {
        law_blanks_count_for_nothing(t.drop_last());
    }
}

/// No more is unknown than there is, and white space never counts.
pub proof fn law_unknown_is_part_of_the_text(
    lex: lexicon::LexiconView,
    use_homophones: bool,
    t: Seq<char>,
    i: int,
)
    requires
        0 <= i <= t.len(),
    ensures
        parser::scan_from(lex, use_homophones, t, i).unknown <= parser::solid(t.skip(i)),
    decreases t.len() - i,
{
    if i < t.len() {
        lemma_solid_split(t, i);
        if text::whitespace(t[i]) {
            law_unknown_is_part_of_the_text(lex, use_homophones, t, i + 1);
        } else if text::ascii_alphanumeric(t[i]) {
            parser::lemma_run_end(t, i + 1);
            lemma_run_is_solid(t, i);
            let end = parser::run_end(t, i);
            law_unknown_is_part_of_the_text(lex, use_homophones, t, end);
            lemma_solid_skip(t, i, (end - i) as nat);
        } else {
            parser::lemma_longest_bounds(lex.main, t, i);
            parser::lemma_longest_bounds(lex.homophones, t, i);
            match parser::found_at(lex, use_homophones, t, i) {
                Some(e) => {
                    law_unknown_is_part_of_the_text(lex, use_homophones, t, i + e.phrase.len());
                    lemma_solid_skip(t, i, e.phrase.len());
                },
                None => {
                    law_unknown_is_part_of_the_text(lex, use_homophones, t, i + 1);
                },
            }
        }
    }
}

/// The phrases of a table are looked up from the front: the first that is the
/// very run has its meaning, and a run that is none has no meaning.
pub proof fn law_runs_are_looked_up_whole(table: Seq<lexicon::Entry>, run: Seq<char>, k: int)
    ensures
        0 <= k < table.len() && table[k].phrase == run && (forall|j: int|
            0 <= j < k ==> (#[trigger] table[j]).phrase != run) ==> parser::exact(table, run)
            == Some(table[k].meaning),
        (forall|j: int| 0 <= j < table.len() ==> (#[trigger] table[j]).phrase != run)
            ==> parser::exact(table, run) is None,
    decreases table.len(),
{
    if table.len() > 0 {
        let rest = table.drop_first();
        law_runs_are_looked_up_whole(rest, run, k - 1);
        if forall|j: int| 0 <= j < table.len() ==> (#[trigger] table[j]).phrase != run {
            assert(table[0].phrase != run);
            assert forall|j: int| 0 <= j < rest.len() implies (#[trigger] rest[j]).phrase != run by {
                assert(rest[j] == table[j + 1]);
            }
        }
        if 0 < k < table.len() && table[k].phrase == run && (forall|j: int|
            0 <= j < k ==> (#[trigger] table[j]).phrase != run) {
            assert(table[0].phrase != run);
            assert(rest[k - 1] == table[k]);
            assert forall|j: int| 0 <= j < k - 1 implies (#[trigger] rest[j]).phrase != run by {
                assert(rest[j] == table[j + 1]);
            }
        }
    }
}

/// A run of ASCII letters and digits is one word: it has the meaning of the
/// phrase that it is; else a single character names its key, and a longer run is
/// unknown as a whole.
pub proof fn law_letters_are_read_as_one_word(
    lex: lexicon::LexiconView,
    use_homophones: bool,
    run: Seq<char>,
)
    requires
        run.len() > 0,
        forall|j: int| 0 <= j < run.len() ==> text::ascii_alphanumeric(#[trigger] run[j]),
    ensures
        ({
            let s = parser::scan_of(lex, use_homophones, run);
            match parser::exact(lex.main, run) {
                Some(m) => s.unknown == 0 && s.tokens == if m is Stop {
                    Seq::empty()
                } else {
                    seq![m]
                },
                None => if run.len() == 1 {
                    s.unknown == 0 && s.tokens == seq![
                        Meaning::Key(seq![text::ascii_upper(run[0])]),
                    ]
                } else {
                    s.unknown == run.len() && s.tokens.len() == 0
                },
            }
        }),
{
    lemma_run_is_solid(run, 0);
    parser::lemma_run_end(run, 1);
    let end = parser::run_end(run, 0);
    assert(text::ascii_alphanumeric(run[0]));
    assert(!text::whitespace(run[0]));
    if end < run.len() {
        assert(text::ascii_alphanumeric(run[end]));
    }
    assert(run.subrange(0, end) =~= run);
    let s = parser::scan_of(lex, use_homophones, run);
    assert(parser::scan_from(lex, use_homophones, run, end) == parser::Scan::none());
    assert(s.tokens =~= parser::run_scan(lex, run).tokens);
}

/// An entry is the first of its table with its phrase.
pub open spec fn first_of(table: Seq<lexicon::Entry>, k: int) -> bool {
    &&& 0 <= k < table.len()
    &&& forall|j: int| 0 <= j < k ==> (#[trigger] table[j]).phrase != table[k].phrase
}

/// A text of ideographs alone.
pub open spec fn of_ideographs(p: Seq<char>) -> bool {
    p.len() > 0 && forall|i: int| 0 <= i < p.len() ==> text::han(#[trigger] p[i])
}

/// A phrase of ideographs that is said by itself is read as what it means, with
/// nothing unknown; a filler leaves nothing.
pub proof fn law_phrases_are_read_as_what_they_mean(
    lex: lexicon::LexiconView,
    use_homophones: bool,
    k: int,
)
    requires
        first_of(lex.main, k),
        of_ideographs(lex.main[k].phrase),
    ensures
        ({
            let s = parser::scan_of(lex, use_homophones, lex.main[k].phrase);
            &&& s.unknown == 0
            &&& s.tokens == if lex.main[k].meaning is Stop {
                Seq::empty()
            } else {
                seq![lex.main[k].meaning]
            }
        }),
{
    let p = lex.main[k].phrase;
    assert(p.subrange(0, p.len() as int) =~= p);
    assert(search::occurs_at(p, p, 0));
    laws::law_longest_match_wins(lex.main, p, 0);
    let found = parser::longest(lex.main, p, 0)->0;
    assert(parser::longest(lex.main, p, 0) is Some) by {
        assert(search::occurs_at(p, lex.main[k].phrase, 0));
    }
    let q = lex.main[found].phrase;
    assert(q.len() == p.len());
    assert(q =~= p);
    assert(found == k) by {
        if found < k {
            assert(lex.main[found].phrase != p);
        }
        if k < found {
            assert(search::occurs_at(p, lex.main[k].phrase, 0));
        }
    }
    assert(text::han(p[0]));
    assert(!text::whitespace(p[0]) && !text::ascii_alphanumeric(p[0]));
    let end = p.len() as int;
    assert(parser::scan_from(lex, use_homophones, p, end) == parser::Scan::none());
    let s = parser::scan_of(lex, use_homophones, p);
    assert(s.tokens =~= parser::Scan::token(lex.main[k].meaning).tokens);
}

/// An action whose phrase is of ideographs is what that phrase means.
pub proof fn law_phrases_mean_their_action(lex: lexicon::LexiconView, k: int, c: combo::CommandView)
    requires
        first_of(lex.main, k),
        of_ideographs(lex.main[k].phrase),
        lex.main[k].meaning == Meaning::Action(c),
    ensures
        parser::command_for(lex, lex.main[k].phrase) == Some(c),
{
    let p = lex.main[k].phrase;
    assert forall|i: int| 0 <= i < p.len() implies laws::of_word(#[trigger] p[i]) && p[i] != ' ' by {
        assert(text::han(p[i]));
    }
    laws::law_normal_text_is_kept(p);
    law_phrases_are_read_as_what_they_mean(lex, false, k);
    let s = parser::scan_of(lex, false, p);
    assert(s.tokens[0] == Meaning::Action(c));
    law_known_enough_is_the_action(lex, false, p, 0, c);
    let whole = parser::squashed(p);
    lemma_solid_text_is_kept(p);
    assert(text::han(whole[0]));
    reveal_strlit("ctrlc");
    reveal_strlit("controlc");
    reveal_strlit("ctrlv");
    reveal_strlit("controlv");
    assert("ctrlc"@[0] == 'c' && "controlc"@[0] == 'c');
    assert("ctrlv"@[0] == 'c' && "controlv"@[0] == 'c');
}

proof fn lemma_solid_text_is_kept(t: Seq<char>)
    requires
        forall|i: int| 0 <= i < t.len() ==> text::han(#[trigger] t[i]),
    ensures
        parser::squashed(t) == t,
    decreases t.len(),
{
    reveal(Seq::filter);
    if t.len() > 0 {
        let s = t.drop_last();
        assert forall|i: int| 0 <= i < s.len() implies text::han(#[trigger] s[i]) by {
            assert(s[i] == t[i]);
        }
        lemma_solid_text_is_kept(s);
        assert(text::han(t[t.len() - 1]));
        assert(parser::squashed(t) =~= s.push(t.last()));
        assert(s.push(t.last()) =~= t);
    } else {
        assert(parser::squashed(t) =~= t);
    }
}

/// Whatever the lexicon holds, "ctrl c" and "ctrl v" are the platform's copy
/// and paste, however they are spaced.
pub proof fn law_copy_and_paste_are_the_platforms(lex: lexicon::LexiconView, s: Seq<char>)
    ensures
        parser::squashed(parser::normalized(s)) == "ctrlc"@ || parser::squashed(
            parser::normalized(s),
        ) == "controlc"@ ==> parser::command_for(lex, s) == Some(
            combo::CommandView::Combo(
                combo::ComboView { modifiers: seq![Modifier::Command], key: "C"@ },
            ),
        ),
        parser::squashed(parser::normalized(s)) == "ctrlv"@ || parser::squashed(
            parser::normalized(s),
        ) == "controlv"@ ==> parser::command_for(lex, s) == Some(
            combo::CommandView::Combo(
                combo::ComboView { modifiers: seq![Modifier::Command], key: "V"@ },
            ),
        ),
{
    reveal_strlit("ctrlc");
    reveal_strlit("controlc");
    reveal_strlit("ctrlv");
    reveal_strlit("controlv");
    assert("ctrlc"@[4] == 'c' && "ctrlv"@[4] == 'v');
    assert("controlc"@[7] == 'c' && "controlv"@[7] == 'v');
    assert("ctrlc"@.len() == 5 && "controlc"@.len() == 8);
    assert("ctrlv"@.len() == 5 && "controlv"@.len() == 8);
    let n = parser::normalized(s);
    if n.len() == 0 {
        reveal(Seq::filter);
        assert(parser::squashed(n).len() == 0);
    }
}

/// Homophones are asked only where the phrases themselves make no command, and
/// then they decide.
pub proof fn law_second_round_decides(lex: lexicon::LexiconView, s: Seq<char>)
    requires
        parser::round(lex, false, parser::normalized(s)) is None,
        parser::normalized(s).len() > 0,
        parser::squashed(parser::normalized(s))[0] != 'c',
    ensures
        parser::command_for(lex, s) == parser::round(lex, true, parser::normalized(s)),
{
    reveal_strlit("ctrlc");
    reveal_strlit("controlc");
    reveal_strlit("ctrlv");
    reveal_strlit("controlv");
    assert("ctrlc"@[0] == 'c' && "controlc"@[0] == 'c');
    assert("ctrlv"@[0] == 'c' && "controlv"@[0] == 'c');
}

/// At a place where a phrase of the main table stands, the homophones have no
/// say; where none stands, they have it in the second round alone.
pub proof fn law_homophones_fill_gaps(
    lex: lexicon::LexiconView,
    use_homophones: bool,
    t: Seq<char>,
    i: int,
)
    ensures
        match parser::longest(lex.main, t, i) {
            Some(k) => parser::found_at(lex, use_homophones, t, i) == Some(lex.main[k]),
            None => match parser::longest(lex.homophones, t, i) {
                Some(k) => parser::found_at(lex, true, t, i) == Some(lex.homophones[k])
                    && parser::found_at(lex, false, t, i) is None,
                None => parser::found_at(lex, use_homophones, t, i) is None,
            },
        },
{
}

// ---------------------------------------------------------------------------
// From speech to text
// ---------------------------------------------------------------------------

/// Two characters that differ at most in case, or in that the second is the
/// full-width form of the first.
pub open spec fn sounds_like(a: char, b: char) -> bool {
    ||| a == b
    ||| text::ascii_lower(a) == text::ascii_lower(b)
    ||| '!' <= a <= '~' && b as int == a as int + 0xfee0
}

proof fn lemma_plain_alike(s: Seq<char>, t: Seq<char>)
    requires
        s.len() == t.len(),
        forall|i: int| 0 <= i < s.len() ==> sounds_like(#[trigger] s[i], t[i]),
    ensures
        parser::plain_text(s) == parser::plain_text(t),
    decreases s.len(),
{
    if s.len() > 0 {
        let a = s.drop_last();
        let b = t.drop_last();
        assert forall|i: int| 0 <= i < a.len() implies sounds_like(#[trigger] a[i], b[i]) by {
            assert(a[i] == s[i] && b[i] == t[i]);
        }
        lemma_plain_alike(a, b);
        let c = s[s.len() - 1];
        let d = t[t.len() - 1];
        assert(sounds_like(c, d));
        assert(parser::plain(c) =~= parser::plain(d));
    }
}

/// Case and width of letters and digits do not matter to what is meant.
pub proof fn law_case_and_width_do_not_matter(
    lex: lexicon::LexiconView,
    s: Seq<char>,
    t: Seq<char>,
)
    requires
        s.len() == t.len(),
        forall|i: int| 0 <= i < s.len() ==> sounds_like(#[trigger] s[i], t[i]),
    ensures
        parser::normalized(s) == parser::normalized(t),
        parser::command_for(lex, s) == parser::command_for(lex, t),
{
    lemma_plain_alike(s, t);
}

/// Punctuation and blanks at the end do not matter to what is meant.
pub proof fn law_punctuation_does_not_matter(lex: lexicon::LexiconView, s: Seq<char>, c: char)
    requires
        parser::half_width(c) <= '\u{7f}',
        !text::ascii_alphanumeric(parser::half_width(c)),
    ensures
        parser::normalized(s.push(c)) == parser::normalized(s),
        parser::command_for(lex, s.push(c)) == parser::command_for(lex, s),
{
    let t = s.push(c);
    assert(t.drop_last() =~= s);
    assert(parser::plain(c) =~= seq![' ']);
    let p = parser::plain_text(s);
    assert(parser::plain_text(t) =~= p.push(' '));
    assert(p.push(' ').drop_last() =~= p);
}

} // verus!
