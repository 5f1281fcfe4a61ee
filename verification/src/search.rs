//! Finding, splitting, joining and replacing text.
use crate::text;
use vstd::prelude::*;

verus! {

/// The views of a list of strings.
pub open spec fn texts(v: Seq<String>) -> Seq<Seq<char>> {
    v.map_values(|s: String| s@)
}

pub proof fn lemma_texts_push(v: Seq<String>, s: String)
    ensures
        texts(v.push(s)) == texts(v).push(s@),
{
    assert(texts(v.push(s)) =~= texts(v).push(s@));
}

// ---------------------------------------------------------------------------
// Occurrences
// ---------------------------------------------------------------------------

/// `p` stands in `s` at position `i`.
pub open spec fn occurs_at(s: Seq<char>, p: Seq<char>, i: int) -> bool {
    0 <= i && i + p.len() <= s.len() && s.subrange(i, i + p.len()) == p
}

pub open spec fn has_prefix(s: Seq<char>, p: Seq<char>) -> bool {
    occurs_at(s, p, 0)
}

pub open spec fn has_text(s: Seq<char>, p: Seq<char>) -> bool {
    exists|i: int| occurs_at(s, p, i)
}

pub fn matches_at(s: &[char], p: &[char], i: usize) -> (r: bool)
    ensures
        r == occurs_at(s@, p@, i as int),
{
    let n: usize = s.len();
    if i > n || p.len() > n - i {
        return false;
    }
    for k in 0..p.len()
        invariant
            n == s@.len(),
            i + p@.len() <= s@.len(),
            forall|j: int| 0 <= j < k ==> s@[i + j] == #[trigger] p@[j],
    {
        if s[i + k] != p[k] {
            assert(s@.subrange(i as int, i + p@.len())[k as int] == s@[i + k]);
            return false;
        }
    }
    assert(s@.subrange(i as int, i + p@.len()) =~= p@);
    true
}

pub fn starts_with(s: &str, p: &str) -> (r: bool)
    ensures
        r == has_prefix(s@, p@),
{
    let cs = text::chars_of(s);
    let ps = text::chars_of(p);
    matches_at(&cs, &ps, 0)
}

pub fn contains(s: &str, p: &str) -> (r: bool)
    ensures
        r == has_text(s@, p@),
{
    let cs = text::chars_of(s);
    let ps = text::chars_of(p);
    let mut i: usize = 0;
    while i < cs.len()
        invariant
            i <= cs@.len(),
            cs@ == s@,
            ps@ == p@,
            forall|j: int| 0 <= j < i ==> !occurs_at(s@, p@, j),
        decreases cs@.len() - i,
    {
        if matches_at(&cs, &ps, i) {
            assert(occurs_at(s@, p@, i as int));
            return true;
        }
        i += 1;
    }
    matches_at(&cs, &ps, i)
}

// ---------------------------------------------------------------------------
// Replacing
// ---------------------------------------------------------------------------

/// Every occurrence of `p` replaced by `r`, from the left, without overlap.
pub open spec fn replaced(s: Seq<char>, p: Seq<char>, r: Seq<char>) -> Seq<char>
    decreases s.len(),
{
    if p.len() == 0 || s.len() == 0 {
        s
    } else if has_prefix(s, p) {
        r + replaced(s.skip(p.len() as int), p, r)
    } else {
        seq![s[0]] + replaced(s.skip(1), p, r)
    }
}

pub fn replace(s: &str, p: &str, r: &str) -> (out: String)
    requires
        p@.len() > 0,
    ensures
        out@ == replaced(s@, p@, r@),
{
    let cs = text::chars_of(s);
    let ps = text::chars_of(p);
    let mut out = String::new();
    let mut i: usize = 0;
    assert(s@.skip(0) == s@);
    while i < cs.len()
        invariant
            i <= cs@.len(),
            cs@ == s@,
            ps@ == p@,
            p@.len() > 0,
            out@ + replaced(s@.skip(i as int), p@, r@) == replaced(s@, p@, r@),
        decreases cs@.len() - i,
    {
        let ghost rest = s@.skip(i as int);
        if matches_at(&cs, &ps, i) {
            assert(rest.subrange(0, p@.len() as int) == s@.subrange(i as int, i + p@.len()));
            assert(rest.skip(p@.len() as int) == s@.skip(i + p@.len()));
            let ghost before = out@;
            out.append(r);
            i += ps.len();
            assert(out@ + replaced(s@.skip(i as int), p@, r@) == before + (r@ + replaced(
                s@.skip(i as int),
                p@,
                r@,
            )));
        } else {
            assert(!has_prefix(rest, p@)) by {
                if has_prefix(rest, p@) {
                    assert(rest.subrange(0, p@.len() as int) == s@.subrange(
                        i as int,
                        i + p@.len(),
                    ));
                }
            }
            assert(rest.skip(1) == s@.skip(i + 1));
            let ghost before = out@;
            out.push(cs[i]);
            i += 1;
            assert(out@ + replaced(s@.skip(i as int), p@, r@) == before + (seq![rest[0]]
                + replaced(s@.skip(i as int), p@, r@)));
        }
    }
    assert(out@ + s@.skip(s@.len() as int) == out@);
    out
}

/// The text without any run of `c` at its end.
pub open spec fn trim_end_char(s: Seq<char>, c: char) -> Seq<char>
    decreases s.len(),
{
    if s.len() > 0 && s.last() == c {
        trim_end_char(s.drop_last(), c)
    } else {
        s
    }
}

pub fn trim_end_matches(s: &str, c: char) -> (r: String)
    ensures
        r@ == trim_end_char(s@, c),
{
    let cs = text::chars_of(s);
    let mut to: usize = cs.len();
    assert(s@.take(s@.len() as int) == s@);
    while to > 0 && cs[to - 1] == c
        invariant
            to <= cs@.len(),
            cs@ == s@,
            trim_end_char(s@.take(to as int), c) == trim_end_char(s@, c),
        decreases to,
    {
        assert(s@.take(to as int).drop_last() == s@.take(to - 1));
        to -= 1;
    }
    assert(s@.take(to as int) == cs@.subrange(0, to as int));
    text::string_of_range(&cs, 0, to)
}

// ---------------------------------------------------------------------------
// Words and lines
// ---------------------------------------------------------------------------

/// The maximal runs of characters that are no white space, in order.
pub open spec fn words_of(s: Seq<char>) -> Seq<Seq<char>>
    decreases s.len(),
{
    if s.len() == 0 {
        Seq::empty()
    } else {
        let before = words_of(s.drop_last());
        let c = s.last();
        if text::whitespace(c) {
            before
        } else if s.len() == 1 || text::whitespace(s[s.len() - 2]) {
            before.push(seq![c])
        } else {
            before.drop_last().push(before.last().push(c))
        }
    }
}

pub fn split_whitespace(s: &str) -> (r: Vec<String>)
    ensures
        texts(r@) == words_of(s@),
{
    let mut done: Vec<String> = Vec::new();
    let mut word = String::new();
    assert(texts(done@) == Seq::<Seq<char>>::empty());
    for c in it: s.chars()
        invariant
            it.seq() == s@,
            word@.len() > 0 <==> it.index() > 0 && !text::whitespace(s@[it.index() - 1]),
            words_of(s@.take(it.index() as int)) == if word@.len() > 0 {
                texts(done@).push(word@)
            } else {
                texts(done@)
            },
    {
        let ghost i = it.index() as int;
        assert(s@.take(i + 1).drop_last() == s@.take(i));
        assert(s@[i] == c);
        let ghost before = texts(done@);
        if text::is_whitespace(c) {
            if !word.as_str().is_empty() {
                proof {
                    lemma_texts_push(done@, word);
                }
                done.push(word);
                word = String::new();
            }
        } else {
            if word.as_str().is_empty() {
                assert(word@ == Seq::<char>::empty());
                assert(word@.push(c) == seq![c]);
            } else {
                assert(before.push(word@).drop_last() == before);
            }
            word.push(c);
        }
    }
    assert(s@.take(s@.len() as int) == s@);
    if !word.as_str().is_empty() {
        proof {
            lemma_texts_push(done@, word);
        }
        done.push(word);
    }
    done
}

/// The pieces of `s` between its line feeds.
pub open spec fn lines_of(s: Seq<char>) -> Seq<Seq<char>>
    decreases s.len(),
{
    if s.len() == 0 {
        seq![Seq::empty()]
    } else {
        let before = lines_of(s.drop_last());
        if s.last() == '\n' {
            before.push(Seq::empty())
        } else {
            before.drop_last().push(before.last().push(s.last()))
        }
    }
}

pub fn split_lines(s: &str) -> (r: Vec<String>)
    ensures
        texts(r@) == lines_of(s@),
{
    let mut done: Vec<String> = Vec::new();
    let mut line = String::new();
    assert(texts(done@).push(line@) =~= seq![Seq::<char>::empty()]);
    for c in it: s.chars()
        invariant
            it.seq() == s@,
            lines_of(s@.take(it.index() as int)) == texts(done@).push(line@),
    {
        let ghost i = it.index() as int;
        assert(s@.take(i + 1).drop_last() == s@.take(i));
        assert(s@[i] == c);
        let ghost before = texts(done@);
        assert(before.push(line@).drop_last() == before);
        if c == '\n' {
            proof {
                lemma_texts_push(done@, line);
            }
            done.push(line);
            line = String::new();
        } else {
            line.push(c);
        }
    }
    assert(s@.take(s@.len() as int) == s@);
    proof {
        lemma_texts_push(done@, line);
    }
    done.push(line);
    done
}

/// The parts, with `sep` between each two.
pub open spec fn joined(parts: Seq<Seq<char>>, sep: Seq<char>) -> Seq<char>
    decreases parts.len(),
{
    if parts.len() == 0 {
        Seq::empty()
    } else if parts.len() == 1 {
        parts[0]
    } else {
        joined(parts.drop_last(), sep) + sep + parts.last()
    }
}

pub fn join(parts: &Vec<String>, sep: &str) -> (r: String)
    ensures
        r@ == joined(texts(parts@), sep@),
{
    let mut r = String::new();
    let ghost all = texts(parts@);
    for i in 0..parts.len()
        invariant
            all == texts(parts@),
            r@ == joined(all.take(i as int), sep@),
    {
        assert(all.take(i + 1).drop_last() == all.take(i as int));
        assert(all[i as int] == parts@[i as int]@);
        if i > 0 {
            r.append(sep);
            r.append(&parts[i]);
        } else {
            r.append(&parts[i]);
            assert(all.take(1)[0] == all[0]);
            assert(r@ =~= all[0]);
        }
    }
    assert(all.take(all.len() as int) == all);
    r
}

/// The first text with the second behind it.
pub fn concat(a: &str, b: &str) -> (r: String)
    ensures
        r@ == a@ + b@,
{
    let mut r = a.to_string();
    r.append(b);
    r
}

// ---------------------------------------------------------------------------
// Numbers
// ---------------------------------------------------------------------------

pub open spec fn digit(n: nat) -> char {
    (('0' as int) + (n % 10) as int) as char
}

/// The decimal digits of `n`.
pub open spec fn decimal(n: nat) -> Seq<char>
    decreases n,
{
    if n < 10 {
        seq![digit(n)]
    } else {
        decimal(n / 10).push(digit(n))
    }
}

pub fn decimal_text(n: u64) -> (r: String)
    ensures
        r@ == decimal(n as nat),
    decreases n,
{
    let d: char = (48 + ((n % 10) as u8)) as char;
    assert(d == digit(n as nat));
    let mut r = if n < 10 {
        String::new()
    } else {
        decimal_text(n / 10)
    };
    r.push(d);
    assert(n < 10 ==> r@ =~= seq![d]);
    r
}

/// The decimal digits of `n`, with a minus sign before those of a negative number.
pub open spec fn signed_decimal(n: int) -> Seq<char> {
    if n < 0 {
        seq!['-'] + decimal((-n) as nat)
    } else {
        decimal(n as nat)
    }
}

pub fn signed_decimal_text(n: i32) -> (r: String)
    ensures
        r@ == signed_decimal(n as int),
{
    if n < 0 {
        let mut r = String::new();
        r.push('-');
        r.append(&decimal_text((-(n as i64)) as u64));
        assert(r@ =~= seq!['-'] + decimal((-n) as nat));
        r
    } else {
        decimal_text(n as u64)
    }
}

// ---------------------------------------------------------------------------
// Laws
// ---------------------------------------------------------------------------

/// Where a text does not occur, there is nothing to replace.
pub proof fn law_nothing_is_replaced_where_nothing_occurs(s: Seq<char>, p: Seq<char>, r: Seq<char>)
    requires
        !has_text(s, p),
    ensures
        replaced(s, p, r) == s,
    decreases s.len(),
{
    if s.len() > 0 && p.len() > 0 {
        assert(!occurs_at(s, p, 0));
        let t = s.skip(1);
        assert forall|i: int| !occurs_at(t, p, i) by {
            if occurs_at(t, p, i) {
                assert(t.subrange(i, i + p.len()) =~= s.subrange(i + 1, i + 1 + p.len()));
                assert(occurs_at(s, p, i + 1));
            }
        }
        law_nothing_is_replaced_where_nothing_occurs(t, p, r);
        assert(replaced(s, p, r) =~= s);
    }
}

/// What stands before the first occurrence stays, the occurrence gives way to
/// the other text, and what stands behind it is treated likewise.
pub proof fn law_occurrences_are_replaced_one_by_one(
    s: Seq<char>,
    p: Seq<char>,
    r: Seq<char>,
    i: int,
)
    requires
        p.len() > 0,
        occurs_at(s, p, i),
        forall|j: int| 0 <= j < i ==> !occurs_at(s, p, j),
    ensures
        replaced(s, p, r) == s.take(i) + r + replaced(s.skip(i + p.len()), p, r),
    decreases s.len(),
{
    if i == 0 {
        assert(s.take(0) + r + replaced(s.skip(p.len() as int), p, r) =~= r + replaced(
            s.skip(p.len() as int),
            p,
            r,
        ));
    } else {
        assert(!occurs_at(s, p, 0));
        let t = s.skip(1);
        assert(t.subrange(i - 1, i - 1 + p.len()) =~= s.subrange(i, i + p.len()));
        assert forall|j: int| 0 <= j < i - 1 implies !occurs_at(t, p, j) by {
            if occurs_at(t, p, j) {
                assert(t.subrange(j, j + p.len()) =~= s.subrange(j + 1, j + 1 + p.len()));
                assert(occurs_at(s, p, j + 1));
            }
        }
        law_occurrences_are_replaced_one_by_one(t, p, r, i - 1);
        assert(t.skip(i - 1 + p.len()) =~= s.skip(i + p.len()));
        let rest = replaced(s.skip(i + p.len()), p, r);
        assert(seq![s[0]] + (t.take(i - 1) + r + rest) =~= s.take(i) + r + rest);
    }
}

/// A run of the character at the end goes, whole, and nothing else does.
pub proof fn law_a_run_at_the_end_goes(s: Seq<char>, c: char, n: nat)
    requires
        s.len() > 0 ==> s.last() != c,
    ensures
        trim_end_char(s + Seq::new(n, |i: int| c), c) == s,
    decreases n,
{
    let t = s + Seq::new(n, |i: int| c);
    if n == 0 {
        assert(t =~= s);
    } else {
        assert(t.drop_last() =~= s + Seq::new((n - 1) as nat, |i: int| c));
        law_a_run_at_the_end_goes(s, c, (n - 1) as nat);
    }
}

/// The words of a text are its characters but for the white space, in order,
/// and no word is empty or holds white space.
pub proof fn law_words_are_what_is_not_white_space(s: Seq<char>)
    ensures
        words_of(s).flatten() == s.filter(|c: char| !text::whitespace(c)),
        forall|i: int| 0 <= i < words_of(s).len() ==> (#[trigger] words_of(s)[i]).len() > 0,
        forall|i: int, j: int|
            0 <= i < words_of(s).len() && 0 <= j < words_of(s)[i].len() ==> !text::whitespace(
                #[trigger] words_of(s)[i][j],
            ),
        s.len() > 0 && !text::whitespace(s.last()) ==> words_of(s).len() > 0,
    decreases s.len(),
{
    reveal(Seq::filter);
    let keep = |c: char| !text::whitespace(c);
    let words = words_of(s);
    if s.len() == 0 {
        assert(words.flatten() =~= s.filter(keep));
    } else {
        let t = s.drop_last();
        let c = s.last();
        let before = words_of(t);
        law_words_are_what_is_not_white_space(t);
        before.lemma_flatten_and_flatten_alt_are_equivalent();
        words.lemma_flatten_and_flatten_alt_are_equivalent();
        if !text::whitespace(c) {
            if s.len() == 1 || text::whitespace(s[s.len() - 2]) {
                assert(words.drop_last() =~= before);
                assert(words.flatten() =~= before.flatten().push(c));
            } else {
                assert(t.last() == s[s.len() - 2]);
                let head = before.drop_last();
                head.lemma_flatten_and_flatten_alt_are_equivalent();
                assert(words.drop_last() =~= head);
                assert(words.flatten() =~= head.flatten() + before.last().push(c));
                assert(before.flatten() =~= head.flatten() + before.last());
                assert(words.flatten() =~= before.flatten().push(c));
            }
            assert(s.filter(keep) =~= t.filter(keep).push(c));
            assert forall|i: int, j: int|
                0 <= i < words.len() && 0 <= j < words[i].len() implies !text::whitespace(
                #[trigger] words[i][j],
            ) by {
                if i < words.len() - 1 {
                    assert(words[i] == before[i]);
                } else if s.len() > 1 && !text::whitespace(s[s.len() - 2]) && j < words[i].len()
                    - 1 {
                    assert(words[i][j] == before[i][j]);
                }
            }
        }
    }
}

/// The lines of a text, put together again with line feeds, are the text, and
/// no line holds a line feed.
pub proof fn law_lines_make_up_the_text(s: Seq<char>)
    ensures
        lines_of(s).len() > 0,
        joined(lines_of(s), seq!['\n']) == s,
        forall|i: int| 0 <= i < lines_of(s).len() ==> !(#[trigger] lines_of(s)[i]).contains('\n'),
    decreases s.len(),
{
    let lines = lines_of(s);
    let nl = seq!['\n'];
    if s.len() == 0 {
        assert(joined(lines, nl) =~= s);
    } else {
        let t = s.drop_last();
        let before = lines_of(t);
        law_lines_make_up_the_text(t);
        if s.last() == '\n' {
            assert(lines.drop_last() =~= before);
            assert(joined(lines, nl) =~= s);
        } else {
            assert(lines.drop_last() =~= before.drop_last());
            assert(joined(lines, nl) =~= joined(before, nl).push(s.last()));
            assert(t.push(s.last()) =~= s);
            assert forall|i: int| 0 <= i < lines.len() implies !(#[trigger] lines[i]).contains(
                '\n',
            ) by {
                if i < lines.len() - 1 {
                    assert(lines[i] == before[i]);
                } else {
                    assert(!before[i].contains('\n'));
                    if lines[i].contains('\n') {
                        let k = choose|k: int| 0 <= k < lines[i].len() && lines[i][k] == '\n';
                        assert(before[i][k] == '\n');
                    }
                }
            }
        }
    }
}

/// The number that digits stand for.
pub open spec fn value_of(digits: Seq<char>) -> int
    decreases digits.len(),
{
    if digits.len() == 0 {
        0
    } else {
        10 * value_of(digits.drop_last()) + (digits.last() as int - '0' as int)
    }
}

/// The digits of a number stand for it, and begin with no idle zero.
pub proof fn law_digits_stand_for_the_number(n: nat)
    ensures
        value_of(decimal(n)) == n,
        decimal(n).len() > 0,
        forall|i: int| 0 <= i < decimal(n).len() ==> text::ascii_digit(#[trigger] decimal(n)[i]),
        n > 0 ==> decimal(n)[0] != '0',
    decreases n,
{
    if n < 10 {
        assert(decimal(n).drop_last() =~= Seq::empty());
        assert(value_of(Seq::<char>::empty()) == 0);
    } else {
        law_digits_stand_for_the_number(n / 10);
        assert(decimal(n).drop_last() =~= decimal(n / 10));
        assert(decimal(n)[0] == decimal(n / 10)[0]);
    }
}

} // verus!
