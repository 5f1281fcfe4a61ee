//! Characters and text: the small vocabulary that every other module speaks.
//!
//! Text is modelled as the sequence of its characters. Each executable
//! function here has a specification function of the same meaning.
use vstd::prelude::*;

verus! {

// ---------------------------------------------------------------------------
// Character classes
// ---------------------------------------------------------------------------

/// The characters with the Unicode property `White_Space`.
pub open spec fn whitespace(c: char) -> bool {
    ||| '\u{9}' <= c <= '\u{d}'
    ||| c == ' '
    ||| c == '\u{85}'
    ||| c == '\u{a0}'
    ||| c == '\u{1680}'
    ||| '\u{2000}' <= c <= '\u{200a}'
    ||| c == '\u{2028}'
    ||| c == '\u{2029}'
    ||| c == '\u{202f}'
    ||| c == '\u{205f}'
    ||| c == '\u{3000}'
}

pub open spec fn ascii_digit(c: char) -> bool {
    '0' <= c <= '9'
}

pub open spec fn ascii_uppercase(c: char) -> bool {
    'A' <= c <= 'Z'
}

pub open spec fn ascii_lowercase(c: char) -> bool {
    'a' <= c <= 'z'
}

pub open spec fn ascii_alphabetic(c: char) -> bool {
    ascii_uppercase(c) || ascii_lowercase(c)
}

pub open spec fn ascii_alphanumeric(c: char) -> bool {
    ascii_alphabetic(c) || ascii_digit(c)
}

/// The basic block of CJK unified ideographs.
pub open spec fn han(c: char) -> bool {
    '\u{4e00}' <= c <= '\u{9fff}'
}

pub open spec fn ascii_lower(c: char) -> char {
    if ascii_uppercase(c) {
        ((c as int) + 32) as char
    } else {
        c
    }
}

pub open spec fn ascii_upper(c: char) -> char {
    if ascii_lowercase(c) {
        ((c as int) - 32) as char
    } else {
        c
    }
}

pub fn is_whitespace(c: char) -> (r: bool)
    ensures
        r == whitespace(c),
{
    ('\u{9}' <= c && c <= '\u{d}') || c == ' ' || c == '\u{85}' || c == '\u{a0}' || c == '\u{1680}'
        || ('\u{2000}' <= c && c <= '\u{200a}') || c == '\u{2028}' || c == '\u{2029}' || c
        == '\u{202f}' || c == '\u{205f}' || c == '\u{3000}'
}

pub fn is_ascii_digit(c: char) -> (r: bool)
    ensures
        r == ascii_digit(c),
{
    '0' <= c && c <= '9'
}

pub fn is_ascii_alphabetic(c: char) -> (r: bool)
    ensures
        r == ascii_alphabetic(c),
{
    ('A' <= c && c <= 'Z') || ('a' <= c && c <= 'z')
}

pub fn is_ascii_alphanumeric(c: char) -> (r: bool)
    ensures
        r == ascii_alphanumeric(c),
{
    is_ascii_alphabetic(c) || is_ascii_digit(c)
}

pub fn is_han(c: char) -> (r: bool)
    ensures
        r == han(c),
{
    '\u{4e00}' <= c && c <= '\u{9fff}'
}

pub fn to_ascii_lower(c: char) -> (r: char)
    ensures
        r == ascii_lower(c),
{
    if 'A' <= c && c <= 'Z' {
        ((c as u8) + 32) as char
    } else {
        c
    }
}

pub fn to_ascii_upper(c: char) -> (r: char)
    ensures
        r == ascii_upper(c),
{
    if 'a' <= c && c <= 'z' {
        ((c as u8) - 32) as char
    } else {
        c
    }
}

// ---------------------------------------------------------------------------
// Case mappings of the standard library
// ---------------------------------------------------------------------------

/// What `char::to_lowercase` yields for one character.
pub uninterp spec fn lowercase_of(c: char) -> Seq<char>;

/// What `str::to_lowercase` returns.
pub uninterp spec fn lowercase_text(s: Seq<char>) -> Seq<char>;

/// What `str::to_uppercase` returns.
pub uninterp spec fn uppercase_text(s: Seq<char>) -> Seq<char>;

/// Calls `char::to_lowercase`. The mapping is the one of Unicode and is only
/// named here. Stated of it: an ASCII character maps to its ASCII lower case,
/// and a Han ideograph, which has no case, maps to itself.
#[verifier::external_body]
pub(crate) fn char_lowercase(c: char) -> (r: Vec<char>)
    ensures
        r@ == lowercase_of(c),
        c <= '\u{7f}' ==> r@ == seq![ascii_lower(c)],
        han(c) ==> r@ == seq![c],
{
    c.to_lowercase().collect()
}

/// Calls `str::to_lowercase`. The mapping is only named; of ASCII text it is
/// stated that each character is replaced by its ASCII lower case.
#[verifier::external_body]
pub(crate) fn str_lowercase(s: &str) -> (r: String)
    ensures
        r@ == lowercase_text(s@),
        (forall|i: int| 0 <= i < s@.len() ==> s@[i] <= '\u{7f}') ==> r@ == s@.map_values(
            |c: char| ascii_lower(c),
        ),
{
    s.to_lowercase()
}

/// Calls `str::to_uppercase`. The mapping is only named; of ASCII text it is
/// stated that each character is replaced by its ASCII upper case.
#[verifier::external_body]
pub(crate) fn str_uppercase(s: &str) -> (r: String)
    ensures
        r@ == uppercase_text(s@),
        (forall|i: int| 0 <= i < s@.len() ==> s@[i] <= '\u{7f}') ==> r@ == s@.map_values(
            |c: char| ascii_upper(c),
        ),
{
    s.to_uppercase()
}

/// What `String::from_utf8_lossy` returns.
pub uninterp spec fn lossy(bytes: Seq<u8>) -> Seq<char>;

/// Calls `String::from_utf8_lossy`, which puts a replacement character where
/// bytes are not UTF-8. Which characters come out is only named; of ASCII bytes
/// it is stated that each stands for itself.
#[verifier::external_body]
pub(crate) fn from_utf8_lossy(bytes: &[u8]) -> (r: String)
    ensures
        r@ == lossy(bytes@),
        (forall|i: int| 0 <= i < bytes@.len() ==> bytes@[i] < 128) ==> r@ == bytes@.map_values(
            |b: u8| b as char,
        ),
{
    String::from_utf8_lossy(bytes).into_owned()
}

// ---------------------------------------------------------------------------
// Strings and their characters
// ---------------------------------------------------------------------------

/// `String::push` appends one character.
pub assume_specification[ String::push ](s: &mut String, ch: char)
    ensures
        final(s)@ == old(s)@.push(ch),
;

/// The characters of `s`, in order.
pub fn chars_of(s: &str) -> (r: Vec<char>)
    ensures
        r@ == s@,
{
    let mut r: Vec<char> = Vec::new();
    for c in it: s.chars()
        invariant
            r@ == it.seq().take(it.index() as int),
            it.seq() == s@,
    {
        r.push(c);
    }
    r
}

/// The text made of `cs`, in order.
pub fn string_of(cs: &[char]) -> (r: String)
    ensures
        r@ == cs@,
{
    let mut r = String::new();
    for i in 0..cs.len()
        invariant
            r@ == cs@.take(i as int),
    {
        r.push(cs[i]);
        assert(cs@.take(i + 1) == cs@.take(i as int).push(cs@[i as int]));
    }
    assert(cs@.take(cs@.len() as int) == cs@);
    r
}

/// The text of `cs[from..to]`.
pub fn string_of_range(cs: &[char], from: usize, to: usize) -> (r: String)
    requires
        from <= to <= cs@.len(),
    ensures
        r@ == cs@.subrange(from as int, to as int),
{
    let mut r = String::new();
    for i in from..to
        invariant
            from <= to <= cs@.len(),
            r@ == cs@.subrange(from as int, i as int),
    {
        r.push(cs[i]);
        assert(cs@.subrange(from as int, i + 1) == cs@.subrange(from as int, i as int).push(
            cs@[i as int],
        ));
    }
    r
}

/// Whether two texts are equal.
pub fn same(a: &str, b: &str) -> (r: bool)
    ensures
        r == (a@ == b@),
{
    a.to_owned() == b.to_owned()
}

/// The text with every ASCII letter in lower case.
pub open spec fn ascii_lower_text(s: Seq<char>) -> Seq<char> {
    s.map_values(|c: char| ascii_lower(c))
}

pub fn to_ascii_lowercase(s: &str) -> (r: String)
    ensures
        r@ == ascii_lower_text(s@),
{
    let mut r = String::new();
    for c in it: s.chars()
        invariant
            r@ == ascii_lower_text(it.seq().take(it.index() as int)),
            it.seq() == s@,
    {
        r.push(to_ascii_lower(c));
        assert(it.seq().take(it.index() + 1) == it.seq().take(it.index() as int).push(c));
        assert(ascii_lower_text(it.seq().take(it.index() as int).push(c)) == ascii_lower_text(
            it.seq().take(it.index() as int),
        ).push(ascii_lower(c)));
    }
    assert(s@.take(s@.len() as int) == s@);
    r
}

// ---------------------------------------------------------------------------
// Trimming
// ---------------------------------------------------------------------------

/// Nothing but white space.
pub open spec fn blank(s: Seq<char>) -> bool {
    forall|i: int| 0 <= i < s.len() ==> whitespace(#[trigger] s[i])
}

pub open spec fn trim_start(s: Seq<char>) -> Seq<char>
    decreases s.len(),
{
    if s.len() > 0 && whitespace(s[0]) {
        trim_start(s.drop_first())
    } else {
        s
    }
}

pub open spec fn trim_end(s: Seq<char>) -> Seq<char>
    decreases s.len(),
{
    if s.len() > 0 && whitespace(s.last()) {
        trim_end(s.drop_last())
    } else {
        s
    }
}

/// The text without leading and trailing white space.
pub open spec fn trimmed(s: Seq<char>) -> Seq<char> {
    trim_end(trim_start(s))
}

proof fn lemma_trim_start_at(s: Seq<char>, k: int)
    requires
        0 <= k <= s.len(),
        forall|i: int| 0 <= i < k ==> whitespace(#[trigger] s[i]),
        k < s.len() ==> !whitespace(s[k]),
    ensures
        trim_start(s) == s.subrange(k, s.len() as int),
    decreases s.len(),
{
    if k == 0 {
        assert(s.subrange(0, s.len() as int) == s);
    } else {
        lemma_trim_start_at(s.drop_first(), k - 1);
        assert(s.drop_first().subrange(k - 1, s.len() - 1) == s.subrange(k, s.len() as int));
    }
}

proof fn lemma_trim_end_at(s: Seq<char>, k: int)
    requires
        0 <= k <= s.len(),
        forall|i: int| k <= i < s.len() ==> whitespace(#[trigger] s[i]),
        k > 0 ==> !whitespace(s[k - 1]),
    ensures
        trim_end(s) == s.subrange(0, k),
    decreases s.len(),
{
    if k == s.len() {
        assert(s.subrange(0, s.len() as int) == s);
    } else {
        lemma_trim_end_at(s.drop_last(), k);
        assert(s.drop_last().subrange(0, k) == s.subrange(0, k));
    }
}

pub fn trim(s: &str) -> (r: String)
    ensures
        r@ == trimmed(s@),
{
    let cs = chars_of(s);
    let mut from: usize = 0;
    while from < cs.len() && is_whitespace(cs[from])
        invariant
            from <= cs@.len(),
            forall|i: int| 0 <= i < from ==> whitespace(#[trigger] cs@[i]),
        decreases cs@.len() - from,
    {
        from += 1;
    }
    let mut to: usize = cs.len();
    while to > from && is_whitespace(cs[to - 1])
        invariant
            from <= to <= cs@.len(),
            forall|i: int| to <= i < cs@.len() ==> whitespace(#[trigger] cs@[i]),
        decreases to,
    {
        to -= 1;
    }
    proof {
        lemma_trim_start_at(cs@, from as int);
        let rest = cs@.subrange(from as int, cs@.len() as int);
        lemma_trim_end_at(rest, to - from);
        assert(rest.subrange(0, to - from) == cs@.subrange(from as int, to as int));
    }
    string_of_range(&cs, from, to)
}

/// Whether the text is nothing but white space.
pub fn is_blank(s: &str) -> (r: bool)
    ensures
        r == blank(s@),
{
    for c in it: s.chars()
        invariant
            it.seq() == s@,
            forall|i: int| 0 <= i < it.index() ==> whitespace(#[trigger] s@[i]),
    {
        if !is_whitespace(c) {
            assert(s@[it.index() as int] == c);
            return false;
        }
    }
    true
}

/// Trimming leaves nothing exactly when there was nothing but white space.
pub proof fn lemma_blank_trimmed(s: Seq<char>)
    ensures
        blank(s) <==> trimmed(s).len() == 0,
    decreases s.len(),
{
    if s.len() == 0 {
    } else if whitespace(s[0]) {
        lemma_blank_trimmed(s.drop_first());
        if blank(s.drop_first()) {
            assert forall|i: int| 0 <= i < s.len() implies whitespace(#[trigger] s[i]) by {
                if i > 0 {
                    assert(s.drop_first()[i - 1] == s[i]);
                }
            }
        } else {
            let i = choose|i: int|
                0 <= i < s.drop_first().len() && !whitespace(#[trigger] s.drop_first()[i]);
            assert(s[i + 1] == s.drop_first()[i]);
        }
    } else {
        lemma_trim_end_nonempty(s);
    }
}

proof fn lemma_trim_end_nonempty(s: Seq<char>)
    requires
        s.len() > 0,
        !whitespace(s[0]),
    ensures
        trim_end(s).len() > 0,
    decreases s.len(),
{
    if whitespace(s.last()) {
        lemma_trim_end_nonempty(s.drop_last());
    }
}

// ---------------------------------------------------------------------------
// Laws
// ---------------------------------------------------------------------------

/// `s` from `from` to `to` is all of it but for the white space at its ends.
pub open spec fn all_but_the_ends(s: Seq<char>, from: int, to: int) -> bool {
    &&& 0 <= from <= to <= s.len()
    &&& forall|i: int| 0 <= i < from || to <= i < s.len() ==> whitespace(#[trigger] s[i])
    &&& from < to ==> !whitespace(s[from]) && !whitespace(s[to - 1])
}

proof fn lemma_ends(s: Seq<char>) -> (r: (int, int))
    ensures
        all_but_the_ends(s, r.0, r.1),
    decreases s.len(),
{
    if s.len() == 0 {
        (0, 0)
    } else if whitespace(s[0]) {
        let t = s.drop_first();
        let (from, to) = lemma_ends(t);
        assert forall|i: int| 0 <= i < from + 1 || to + 1 <= i < s.len() implies whitespace(
            #[trigger] s[i],
        ) by {
            if i > 0 {
                assert(t[i - 1] == s[i]);
            }
        }
        (from + 1, to + 1)
    } else if whitespace(s.last()) {
        let t = s.drop_last();
        let (from, to) = lemma_ends(t);
        assert forall|i: int| 0 <= i < from || to <= i < s.len() implies whitespace(
            #[trigger] s[i],
        ) by {
            if i < s.len() - 1 {
                assert(t[i] == s[i]);
            }
        }
        (from, to)
    } else {
        (0, s.len() as int)
    }
}

/// Whatever is left of a text when the white space at its ends is taken off is
/// the trimmed text.
pub proof fn law_trimming_takes_the_ends_off(s: Seq<char>, from: int, to: int)
    requires
        all_but_the_ends(s, from, to),
    ensures
        trimmed(s) == s.subrange(from, to),
{
    if from < to {
        lemma_trim_start_at(s, from);
        let rest = s.subrange(from, s.len() as int);
        assert forall|i: int| to - from <= i < rest.len() implies whitespace(#[trigger] rest[i]) by {
            assert(rest[i] == s[i + from]);
        }
        lemma_trim_end_at(rest, to - from);
        assert(rest.subrange(0, to - from) =~= s.subrange(from, to));
    } else {
        lemma_blank_trimmed(s);
        assert(trimmed(s) =~= s.subrange(from, to));
    }
}

/// Every text has a middle without white space at its ends, and trimming leaves
/// that middle whole.
pub proof fn law_trimming_keeps_the_middle(s: Seq<char>)
    ensures
        exists|from: int, to: int| #[trigger]
            all_but_the_ends(s, from, to) && trimmed(s) == s.subrange(from, to),
        trimmed(trimmed(s)) == trimmed(s),
{
    let (from, to) = lemma_ends(s);
    law_trimming_takes_the_ends_off(s, from, to);
    law_trimmed_text_is_kept(trimmed(s));
}

/// A text without white space at its ends is left as it is.
pub proof fn law_trimmed_text_is_kept(s: Seq<char>)
    requires
        s.len() > 0 ==> !whitespace(s[0]) && !whitespace(s.last()),
    ensures
        trimmed(s) == s,
{
    assert(all_but_the_ends(s, 0, s.len() as int));
    law_trimming_takes_the_ends_off(s, 0, s.len() as int);
    assert(s.subrange(0, s.len() as int) =~= s);
}

/// Changing the case of ASCII letters touches nothing else, and back and forth
/// leads to the same letter.
pub proof fn law_case_changes_letters_alone(c: char)
    ensures
        !ascii_alphabetic(c) ==> ascii_lower(c) == c && ascii_upper(c) == c,
        ascii_alphabetic(c) ==> ascii_lowercase(ascii_lower(c)) && ascii_uppercase(ascii_upper(c)),
        ascii_lowercase(c) ==> ascii_lower(c) == c && ascii_lower(ascii_upper(c)) == c,
        ascii_uppercase(c) ==> ascii_upper(c) == c && ascii_upper(ascii_lower(c)) == c,
        ascii_alphabetic(c) ==> ascii_lower(c) as int - 'a' as int == ascii_upper(c) as int
            - 'A' as int,
{
}

} // verus!
