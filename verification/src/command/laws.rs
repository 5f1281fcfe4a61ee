//! What holds of command parsing as a whole.
use crate::command::combo;
use crate::command::lexicon;
use crate::command::parser;
use crate::search;
use crate::text;
use vstd::prelude::*;

verus! {

/// The entry found at a position is a longest match: no phrase that stands
/// there is longer, and of equally long ones it is the first.
pub proof fn law_longest_match_wins(table: Seq<lexicon::Entry>, t: Seq<char>, i: int)
    ensures
        match parser::longest(table, t, i) {
            Some(k) => {
                &&& 0 <= k < table.len()
                &&& table[k].phrase.len() > 0
                &&& search::occurs_at(t, table[k].phrase, i)
                &&& forall|j: int|
                    #![trigger table[j]]
                    0 <= j < table.len() && search::occurs_at(t, table[j].phrase, i) ==> {
                        &&& table[j].phrase.len() <= table[k].phrase.len()
                        &&& j < k ==> table[j].phrase.len() < table[k].phrase.len()
                    }
            },
            None => forall|j: int|
                #![trigger table[j]]
                0 <= j < table.len() && search::occurs_at(t, table[j].phrase, i)
                    ==> table[j].phrase.len() == 0,
        },
    decreases table.len(),
{
    if table.len() > 0 {
        law_longest_match_wins(table.drop_last(), t, i);
        let last = table.len() - 1;
        assert forall|j: int| 0 <= j < last implies table[j] == #[trigger] table.drop_last()[j] by {}
        assert forall|j: int| #![trigger table[j]] 0 <= j < last implies table.drop_last()[j]
            == table[j] by {}
    }
}

/// The user's entries go first: where one of them matches at least as much as
/// every built-in phrase, and wherever one of them is the very run that is
/// looked up, the built-in entries have no say.
pub proof fn law_user_entries_take_priority(
    user: Seq<lexicon::Entry>,
    builtin: Seq<lexicon::Entry>,
    t: Seq<char>,
    i: int,
)
    ensures
        (parser::longest(user, t, i) is Some && forall|j: int|
            #![trigger builtin[j]]
            0 <= j < builtin.len() && search::occurs_at(t, builtin[j].phrase, i)
                ==> builtin[j].phrase.len() <= user[parser::longest(user, t, i)->0].phrase.len())
            ==> parser::longest(user + builtin, t, i) == parser::longest(user, t, i),
        parser::exact(user, t) is Some ==> parser::exact(user + builtin, t) == parser::exact(user, t),
{
    let both = user + builtin;
    law_longest_match_wins(user, t, i);
    law_longest_match_wins(both, t, i);
    if parser::longest(user, t, i) is Some {
        let k = parser::longest(user, t, i)->0;
        assert(both[k] == user[k]);
        if forall|j: int|
            #![trigger builtin[j]]
            0 <= j < builtin.len() && search::occurs_at(t, builtin[j].phrase, i)
                ==> builtin[j].phrase.len() <= user[k].phrase.len() {
            let m = parser::longest(both, t, i)->0;
            if m < user.len() {
                assert(both[m] == user[m]);
            } else {
                assert(both[m] == builtin[m - user.len()]);
            }
        }
    }
    lemma_exact_prefix(user, builtin, t);
}

proof fn lemma_exact_prefix(a: Seq<lexicon::Entry>, b: Seq<lexicon::Entry>, run: Seq<char>)
    ensures
        parser::exact(a, run) is Some ==> parser::exact(a + b, run) == parser::exact(a, run),
    decreases a.len(),
{
    if a.len() > 0 {
        assert((a + b)[0] == a[0]);
        assert((a + b).drop_first() == a.drop_first() + b);
        lemma_exact_prefix(a.drop_first(), b, run);
    }
}

/// Homophones never change what the first round already understands.
pub proof fn law_homophones_come_last(
    a: lexicon::LexiconView,
    b: lexicon::LexiconView,
    s: Seq<char>,
)
    requires
        a.main == b.main,
        parser::round(a, false, parser::normalized(s)) is Some,
    ensures
        parser::command_for(a, s) == parser::command_for(b, s),
{
    lemma_first_round_ignores_homophones(a, b, parser::normalized(s), 0);
}

proof fn lemma_first_round_ignores_homophones(
    a: lexicon::LexiconView,
    b: lexicon::LexiconView,
    t: Seq<char>,
    i: int,
)
    requires
        a.main == b.main,
    ensures
        parser::scan_from(a, false, t, i) == parser::scan_from(b, false, t, i),
    decreases t.len() - i,
{
    if 0 <= i < t.len() {
        if text::whitespace(t[i]) {
            lemma_first_round_ignores_homophones(a, b, t, i + 1);
        } else if text::ascii_alphanumeric(t[i]) {
            parser::lemma_run_end(t, i + 1);
            lemma_first_round_ignores_homophones(a, b, t, parser::run_end(t, i));
        } else {
            parser::lemma_longest_bounds(a.main, t, i);
            match parser::found_at(a, false, t, i) {
                Some(e) => {
                    lemma_first_round_ignores_homophones(a, b, t, i + e.phrase.len());
                },
                None => {
                    lemma_first_round_ignores_homophones(a, b, t, i + 1);
                },
            }
        }
    }
}

/// A text that is unknown for more than its half is no command, whatever
/// phrases it holds.
pub proof fn law_mostly_unknown_is_no_command(
    lex: lexicon::LexiconView,
    use_homophones: bool,
    t: Seq<char>,
)
    requires
        parser::scan_of(lex, use_homophones, t).unknown * 2 > parser::solid(t),
    ensures
        parser::round(lex, use_homophones, t) is None,
{
    if parser::solid(t) == 0 {
        lemma_nothing_solid(t);
        lemma_blanks_hold_nothing(lex, use_homophones, t, 0);
    }
}

proof fn lemma_nothing_solid(t: Seq<char>)
    requires
        parser::solid(t) == 0,
    ensures
        forall|i: int| 0 <= i < t.len() ==> text::whitespace(#[trigger] t[i]),
    decreases t.len(),
{
    if t.len() > 0 {
        lemma_nothing_solid(t.drop_last());
        assert forall|i: int| 0 <= i < t.len() implies text::whitespace(#[trigger] t[i]) by {
            if i < t.len() - 1 {
                assert(t.drop_last()[i] == t[i]);
            }
        }
    }
}

proof fn lemma_blanks_hold_nothing(
    lex: lexicon::LexiconView,
    use_homophones: bool,
    t: Seq<char>,
    i: int,
)
    requires
        forall|i: int| 0 <= i < t.len() ==> text::whitespace(#[trigger] t[i]),
    ensures
        parser::scan_from(lex, use_homophones, t, i).unknown == 0,
    decreases t.len() - i,
{
    if 0 <= i < t.len() {
        lemma_blanks_hold_nothing(lex, use_homophones, t, i + 1);
    }
}

/// Without an action phrase, a single letter or digit needs a modifier.
pub proof fn law_bare_character_is_no_command(
    lex: lexicon::LexiconView,
    use_homophones: bool,
    t: Seq<char>,
)
    requires
        parser::first_action(parser::scan_of(lex, use_homophones, t).tokens) is None,
    ensures
        match parser::round(lex, use_homophones, t) {
            Some(combo::CommandView::Combo(c)) => c.key.len() == 1 ==> c.modifiers.len() > 0,
            Some(combo::CommandView::Script(_)) => false,
            None => true,
        },
{
}

/// A modifier that is said twice is held once.
pub proof fn law_modifiers_are_distinct(tokens: Seq<lexicon::Meaning>)
    ensures
        parser::modifiers_of(tokens).no_duplicates(),
        parser::keys_of(tokens).no_duplicates(),
    decreases tokens.len(),
{
    if tokens.len() > 0 {
        law_modifiers_are_distinct(tokens.drop_last());
    }
}

// ---------------------------------------------------------------------------
// The normal form
// ---------------------------------------------------------------------------

/// What a word consists of: small ASCII letters, digits and ideographs.
pub open spec fn of_word(c: char) -> bool {
    text::ascii_lowercase(c) || text::ascii_digit(c) || text::han(c)
}

/// Only small ASCII letters and digits, ideographs, and single blanks between
/// them.
pub open spec fn normal(n: Seq<char>) -> bool {
    &&& forall|i: int| 0 <= i < n.len() ==> of_word(#[trigger] n[i]) || n[i] == ' '
    &&& n.len() > 0 ==> n[0] != ' ' && n.last() != ' '
    &&& forall|i: int| 0 < i < n.len() && #[trigger] n[i] == ' ' ==> n[i - 1] != ' '
}

spec fn word(w: Seq<char>) -> bool {
    w.len() > 0 && forall|i: int| 0 <= i < w.len() ==> of_word(#[trigger] w[i])
}

proof fn lemma_plain_text(s: Seq<char>)
    ensures
        forall|i: int|
            0 <= i < parser::plain_text(s).len() ==> parser::kept(
                #[trigger] parser::plain_text(s)[i],
            ) == parser::plain_text(s)[i],
    decreases s.len(),
{
    if s.len() > 0 {
        lemma_plain_text(s.drop_last());
        let head = parser::plain_text(s.drop_last());
        let tail = parser::plain(s.last());
        assert forall|i: int| 0 <= i < (head + tail).len() implies parser::kept(
            #[trigger] (head + tail)[i],
        ) == (head + tail)[i] by {
            if i >= head.len() {
                assert((head + tail)[i] == tail[i - head.len()]);
            } else {
                assert((head + tail)[i] == head[i]);
            }
        }
    }
}

proof fn lemma_words_of(s: Seq<char>)
    requires
        forall|i: int| 0 <= i < s.len() ==> parser::kept(#[trigger] s[i]) == s[i],
    ensures
        forall|k: int| 0 <= k < search::words_of(s).len() ==> word(#[trigger] search::words_of(s)[k]),
        s.len() > 0 && !text::whitespace(s.last()) ==> search::words_of(s).len() > 0,
    decreases s.len(),
{
    if s.len() > 0 {
        let head = s.drop_last();
        assert forall|i: int| 0 <= i < head.len() implies parser::kept(#[trigger] head[i])
            == head[i] by {
            assert(head[i] == s[i]);
        }
        lemma_words_of(head);
        let c = s.last();
        assert(parser::kept(c) == c) by {
            assert(s[s.len() - 1] == c);
        }
        let before = search::words_of(head);
        if !text::whitespace(c) {
            if s.len() == 1 || text::whitespace(s[s.len() - 2]) {
                assert(word(seq![c]));
            } else {
                assert(head.last() == s[s.len() - 2]);
                let w = before.last().push(c);
                assert(word(before[before.len() - 1]));
                assert(word(w)) by {
                    assert forall|i: int| 0 <= i < w.len() implies of_word(#[trigger] w[i]) by {
                        if i < before.last().len() {
                            assert(w[i] == before.last()[i]);
                        }
                    }
                }
            }
        }
    }
}

proof fn lemma_joined_words(parts: Seq<Seq<char>>)
    requires
        forall|k: int| 0 <= k < parts.len() ==> word(#[trigger] parts[k]),
    ensures
        normal(search::joined(parts, " "@)),
        parts.len() > 0 ==> search::joined(parts, " "@).len() > 0,
    decreases parts.len(),
{
    reveal_strlit(" ");
    if parts.len() == 1 {
        assert(word(parts[0]));
    } else if parts.len() > 1 {
        let head = search::joined(parts.drop_last(), " "@);
        lemma_joined_words(parts.drop_last());
        let w = parts.last();
        assert(word(parts[parts.len() - 1]));
        let n = head + " "@ + w;
        assert forall|i: int| 0 <= i < n.len() implies {
            &&& of_word(#[trigger] n[i]) || n[i] == ' '
            &&& i > 0 && n[i] == ' ' ==> n[i - 1] != ' '
        } by {
            if i < head.len() {
                assert(n[i] == head[i]);
                if i > 0 {
                    assert(n[i - 1] == head[i - 1]);
                }
            } else if i == head.len() {
                assert(n[i] == ' ');
                assert(n[i - 1] == head.last());
            } else {
                assert(n[i] == w[i - head.len() - 1]);
            }
        }
        assert(n[0] == head[0]);
        assert(n.last() == w[w.len() - 1]);
    }
}

/// Normalised text is in normal form: small letters, digits and ideographs, with
/// single blanks between words.
pub proof fn law_normalized_text_is_normal(s: Seq<char>)
    ensures
        normal(parser::normalized(s)),
{
    lemma_plain_text(s);
    lemma_words_of(parser::plain_text(s));
    lemma_joined_words(search::words_of(parser::plain_text(s)));
}

proof fn lemma_normal_is_plain(n: Seq<char>)
    requires
        forall|i: int| 0 <= i < n.len() ==> of_word(#[trigger] n[i]) || n[i] == ' ',
    ensures
        parser::plain_text(n) == n,
    decreases n.len(),
{
    if n.len() > 0 {
        let head = n.drop_last();
        assert forall|i: int| 0 <= i < head.len() implies of_word(#[trigger] head[i]) || head[i]
            == ' ' by {
            assert(head[i] == n[i]);
        }
        lemma_normal_is_plain(head);
        let c = n[n.len() - 1];
        assert(parser::plain(c) =~= seq![c]);
        assert(n =~= head + seq![c]);
    }
}

/// The words of a text that neither begins with a blank nor has two in a row
/// make up the text, but for a blank at its end.
proof fn lemma_words_make_up(n: Seq<char>)
    requires
        forall|i: int| 0 <= i < n.len() ==> of_word(#[trigger] n[i]) || n[i] == ' ',
        n.len() > 0 ==> n[0] != ' ',
        forall|i: int| 0 < i < n.len() && #[trigger] n[i] == ' ' ==> n[i - 1] != ' ',
    ensures
        n.len() > 0 ==> search::words_of(n).len() > 0,
        search::joined(search::words_of(n), " "@) == if n.len() > 0 && n.last() == ' ' {
            n.drop_last()
        } else {
            n
        },
    decreases n.len(),
{
    reveal_strlit(" ");
    if n.len() > 0 {
        let head = n.drop_last();
        assert forall|i: int| 0 <= i < head.len() implies {
            &&& of_word(#[trigger] head[i]) || head[i] == ' '
            &&& i > 0 && head[i] == ' ' ==> head[i - 1] != ' '
        } by {
            assert(head[i] == n[i]);
            if i > 0 {
                assert(head[i - 1] == n[i - 1]);
            }
        }
        if head.len() > 0 {
            assert(head[0] == n[0]);
            assert(head.last() == n[n.len() - 2]);
        }
        lemma_words_make_up(head);
        let c = n[n.len() - 1];
        assert(text::whitespace(c) <==> c == ' ');
        let before = search::words_of(head);
        if c != ' ' {
            if n.len() == 1 {
                assert(before.push(seq![c]) =~= seq![seq![c]]);
                assert(n =~= seq![c]);
            } else if n[n.len() - 2] == ' ' {
                assert(before.push(seq![c]).drop_last() =~= before);
                assert(n =~= head.drop_last() + " "@ + seq![c]);
            } else {
                let all = before.drop_last().push(before.last().push(c));
                assert(all.drop_last() =~= before.drop_last());
                assert(n =~= head.push(c));
                assert(search::joined(all, " "@) =~= search::joined(before, " "@).push(c));
            }
        }
    }
}

/// Normalised text is normalised already: doing it again changes nothing.
pub proof fn law_normalizing_is_idempotent(s: Seq<char>)
    ensures
        parser::normalized(parser::normalized(s)) == parser::normalized(s),
{
    let n = parser::normalized(s);
    law_normalized_text_is_normal(s);
    lemma_normal_is_plain(n);
    lemma_words_make_up(n);
}

/// Text in normal form is left as it is.
pub proof fn law_normal_text_is_kept(n: Seq<char>)
    requires
        normal(n),
    ensures
        parser::normalized(n) == n,
{
    lemma_normal_is_plain(n);
    lemma_words_make_up(n);
}

} // verus!
