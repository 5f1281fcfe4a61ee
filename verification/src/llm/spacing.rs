//! Blanks between ideographs and Latin letters or digits.
use crate::text;
use vstd::prelude::*;

verus! {

/// Ideographs, their punctuation, and full-width forms.
pub open spec fn wide(c: char) -> bool {
    ||| '\u{4e00}' <= c <= '\u{9fff}'
    ||| '\u{3400}' <= c <= '\u{4dbf}'
    ||| '\u{f900}' <= c <= '\u{faff}'
    ||| '\u{3000}' <= c <= '\u{303f}'
    ||| '\u{ff00}' <= c <= '\u{ffef}'
}

fn is_cjk(c: char) -> (r: bool)
    ensures
        r == wide(c),
{
    ('\u{4e00}' <= c && c <= '\u{9fff}') || ('\u{3400}' <= c && c <= '\u{4dbf}') || ('\u{f900}' <= c
        && c <= '\u{faff}') || ('\u{3000}' <= c && c <= '\u{303f}') || ('\u{ff00}' <= c && c
        <= '\u{ffef}')
}

/// The two characters are to be set apart.
pub open spec fn apart(a: char, b: char) -> bool {
    (wide(a) && text::ascii_alphanumeric(b)) || (text::ascii_alphanumeric(a) && wide(b))
}

/// The text with a blank between any two neighbours that are to be set apart.
pub open spec fn spaced(s: Seq<char>) -> Seq<char>
    decreases s.len(),
{
    if s.len() == 0 {
        Seq::empty()
    } else if s.len() > 1 && apart(s[s.len() - 2], s.last()) {
        spaced(s.drop_last()).push(' ').push(s.last())
    } else {
        spaced(s.drop_last()).push(s.last())
    }
}

pub fn pangu_spacing(s: &str) -> (r: String)
    ensures
        r@ == spaced(s@),
{
    let cs = text::chars_of(s);
    let mut out = String::new();
    for i in 0..cs.len()
        invariant
            cs@ == s@,
            out@ == spaced(s@.take(i as int)),
    {
        assert(s@.take(i + 1).drop_last() == s@.take(i as int));
        let c = cs[i];
        if i > 0 {
            let prev = cs[i - 1];
            if (is_cjk(prev) && text::is_ascii_alphanumeric(c)) || (text::is_ascii_alphanumeric(
                prev,
            ) && is_cjk(c)) {
                out.push(' ');
            }
        }
        out.push(c);
    }
    assert(s@.take(s@.len() as int) == s@);
    out
}

/// What is done to every answer of the language model.
pub fn post_process(s: &str) -> (r: String)
    ensures
        r@ == spaced(s@),
{
    pangu_spacing(s)
}

// ---------------------------------------------------------------------------
// Laws
// ---------------------------------------------------------------------------

/// No two neighbours are left to be set apart.
pub open spec fn well_spaced(s: Seq<char>) -> bool {
    forall|i: int| 0 < i < s.len() ==> !apart(s[i - 1], #[trigger] s[i])
}

proof fn lemma_spaced(s: Seq<char>)
    ensures
        well_spaced(spaced(s)),
        s.len() > 0 ==> spaced(s).len() > 0 && spaced(s).last() == s.last(),
        s.len() == 0 ==> spaced(s).len() == 0,
    decreases s.len(),
{
    if s.len() > 0 {
        let head = s.drop_last();
        lemma_spaced(head);
        let done = spaced(head);
        let out = spaced(s);
        if s.len() > 1 {
            assert(head.last() == s[s.len() - 2]);
        }
        assert forall|i: int| 0 < i < out.len() implies !apart(out[i - 1], #[trigger] out[i]) by {
            if i < done.len() {
                assert(out[i - 1] == done[i - 1]);
                assert(out[i] == done[i]);
            }
        }
    }
}

/// Spaced text needs no more spacing: doing it again changes nothing.
pub proof fn law_spacing_is_idempotent(s: Seq<char>)
    ensures
        well_spaced(spaced(s)),
        spaced(spaced(s)) == spaced(s),
{
    lemma_spaced(s);
    lemma_well_spaced_unchanged(spaced(s));
}

proof fn lemma_well_spaced_unchanged(s: Seq<char>)
    requires
        well_spaced(s),
    ensures
        spaced(s) == s,
    decreases s.len(),
{
    if s.len() > 0 {
        let head = s.drop_last();
        assert(well_spaced(head)) by {
            assert forall|i: int| 0 < i < head.len() implies !apart(
                head[i - 1],
                #[trigger] head[i],
            ) by {
                assert(head[i] == s[i] && head[i - 1] == s[i - 1]);
            }
        }
        lemma_well_spaced_unchanged(head);
        if s.len() > 1 {
            assert(!apart(s[s.len() - 2], s[s.len() - 1]));
        }
        assert(spaced(s) =~= s);
    }
}

/// Spacing makes no text empty.
pub proof fn lemma_spacing_keeps_text(s: Seq<char>)
    requires
        s.len() > 0,
    ensures
        spaced(s).len() > 0,
{
}

/// The text without its blanks.
pub open spec fn unspaced(s: Seq<char>) -> Seq<char>
    decreases s.len(),
{
    if s.len() == 0 {
        Seq::empty()
    } else if s.last() == ' ' {
        unspaced(s.drop_last())
    } else {
        unspaced(s.drop_last()).push(s.last())
    }
}

/// Spacing adds blanks and nothing else.
pub proof fn law_spacing_only_adds_blanks(s: Seq<char>)
    ensures
        unspaced(spaced(s)) == unspaced(s),
    decreases s.len(),
{
    if s.len() > 0 {
        let head = s.drop_last();
        law_spacing_only_adds_blanks(head);
        let done = spaced(head);
        let c = s.last();
        assert(done.push(c).drop_last() =~= done);
        assert(done.push(' ').drop_last() =~= done);
        assert(unspaced(done.push(' ')) == unspaced(done));
        assert(done.push(' ').push(c).drop_last() =~= done.push(' '));
    }
}

/// Spacing goes neighbour by neighbour: between two parts of a text there is
/// one blank more exactly where their ends are to be set apart.
pub proof fn law_one_blank_between_neighbours(s: Seq<char>, t: Seq<char>)
    requires
        s.len() > 0,
        t.len() > 0,
    ensures
        spaced(s + t) == if apart(s.last(), t[0]) {
            spaced(s).push(' ') + spaced(t)
        } else {
            spaced(s) + spaced(t)
        },
    decreases t.len(),
{
    let u = s + t;
    let head = t.drop_last();
    let c = t.last();
    assert(u.last() == c);
    if t.len() == 1 {
        assert(u.drop_last() =~= s);
        assert(u[u.len() - 2] == s.last());
        assert(spaced(head) =~= Seq::empty());
        assert(spaced(t) =~= seq![c]);
        assert(spaced(s).push(' ').push(c) =~= spaced(s).push(' ') + seq![c]);
        assert(spaced(s).push(c) =~= spaced(s) + seq![c]);
    } else {
        law_one_blank_between_neighbours(s, head);
        assert(u.drop_last() =~= s + head);
        assert(u[u.len() - 2] == t[t.len() - 2]);
        assert(head[0] == t[0]);
        let first = if apart(s.last(), t[0]) {
            spaced(s).push(' ')
        } else {
            spaced(s)
        };
        assert((first + spaced(head)).push(' ').push(c) =~= first + spaced(head).push(' ').push(c));
        assert((first + spaced(head)).push(c) =~= first + spaced(head).push(c));
    }
}

/// An ideograph and a Latin letter or digit are set apart, whichever comes
/// first; two of a kind are not, and nothing is set apart from a blank.
pub proof fn law_scripts_are_set_apart(a: char, b: char)
    ensures
        text::han(a) && text::ascii_alphanumeric(b) ==> apart(a, b) && apart(b, a),
        text::han(a) && text::han(b) ==> !apart(a, b),
        text::ascii_alphanumeric(a) && text::ascii_alphanumeric(b) ==> !apart(a, b),
        a == ' ' || b == ' ' ==> !apart(a, b),
        apart(a, b) == apart(b, a),
        spaced(Seq::empty()).len() == 0,
        spaced(seq![a]) == seq![a],
{
    let s = seq![a];
    reveal_with_fuel(spaced, 2);
    assert(s.drop_last() =~= Seq::empty());
    assert(spaced(s) =~= seq![a]);
}

} // verus!
