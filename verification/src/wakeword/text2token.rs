//! From keywords in natural language to the phonemes that the spotter's model knows.
//!
//! Chinese characters are looked up in a table of initials and finals, English
//! words in a dictionary of pronunciations; an English word that the
//! dictionary lacks is spelled out letter by letter.
use crate::config::hotkeys::clone_texts;
use crate::search;
use crate::search::concat;
use crate::text;
use vstd::hash_map::StringHashMap;
use vstd::prelude::*;

verus! {

// ---------------------------------------------------------------------------
// Letters
// ---------------------------------------------------------------------------

/// How the name of a letter is pronounced; nothing for what is no capital letter.
pub open spec fn letter_name(c: char) -> Seq<Seq<char>> {
    if c == 'A' {
        seq!["EY1"@]
    } else if c == 'B' {
        seq!["B"@, "IY1"@]
    } else if c == 'C' {
        seq!["S"@, "IY1"@]
    } else if c == 'D' {
        seq!["D"@, "IY1"@]
    } else if c == 'E' {
        seq!["IY1"@]
    } else if c == 'F' {
        seq!["EH1"@, "F"@]
    } else if c == 'G' {
        seq!["JH"@, "IY1"@]
    } else if c == 'H' {
        seq!["EY1"@, "CH"@]
    } else if c == 'I' {
        seq!["AY1"@]
    } else if c == 'J' {
        seq!["JH"@, "EY1"@]
    } else if c == 'K' {
        seq!["K"@, "EY1"@]
    } else if c == 'L' {
        seq!["EH1"@, "L"@]
    } else if c == 'M' {
        seq!["EH1"@, "M"@]
    } else if c == 'N' {
        seq!["EH1"@, "N"@]
    } else if c == 'O' {
        seq!["OW1"@]
    } else if c == 'P' {
        seq!["P"@, "IY1"@]
    } else if c == 'Q' {
        seq!["K"@, "Y"@, "UW1"@]
    } else if c == 'R' {
        seq!["AA1"@, "R"@]
    } else if c == 'S' {
        seq!["EH1"@, "S"@]
    } else if c == 'T' {
        seq!["T"@, "IY1"@]
    } else if c == 'U' {
        seq!["Y"@, "UW1"@]
    } else if c == 'V' {
        seq!["V"@, "IY1"@]
    } else if c == 'W' {
        seq!["D"@, "AH1"@, "B"@, "AH0"@, "L"@, "Y"@, "UW0"@]
    } else if c == 'X' {
        seq!["EH1"@, "K"@, "S"@]
    } else if c == 'Y' {
        seq!["W"@, "AY1"@]
    } else if c == 'Z' {
        seq!["Z"@, "IY1"@]
    } else {
        Seq::empty()
    }
}

fn push_phone(v: &mut Vec<String>, p: &str)
    ensures
        search::texts(final(v)@) == search::texts(old(v)@).push(p@),
{
    let s = p.to_string();
    proof {
        search::lemma_texts_push(v@, s);
    }
    v.push(s);
}

fn spell(c: char) -> (v: Vec<String>)
    ensures
        search::texts(v@) == letter_name(c),
{
    let mut v: Vec<String> = Vec::new();
    assert(search::texts(v@) =~= Seq::<Seq<char>>::empty());
    if c == 'A' {
        push_phone(&mut v, "EY1");
    } else if c == 'B' {
        push_phone(&mut v, "B");
        push_phone(&mut v, "IY1");
    } else if c == 'C' {
        push_phone(&mut v, "S");
        push_phone(&mut v, "IY1");
    } else if c == 'D' {
        push_phone(&mut v, "D");
        push_phone(&mut v, "IY1");
    } else if c == 'E' {
        push_phone(&mut v, "IY1");
    } else if c == 'F' {
        push_phone(&mut v, "EH1");
        push_phone(&mut v, "F");
    } else if c == 'G' {
        push_phone(&mut v, "JH");
        push_phone(&mut v, "IY1");
    } else if c == 'H' {
        push_phone(&mut v, "EY1");
        push_phone(&mut v, "CH");
    } else if c == 'I' {
        push_phone(&mut v, "AY1");
    } else if c == 'J' {
        push_phone(&mut v, "JH");
        push_phone(&mut v, "EY1");
    } else if c == 'K' {
        push_phone(&mut v, "K");
        push_phone(&mut v, "EY1");
    } else if c == 'L' {
        push_phone(&mut v, "EH1");
        push_phone(&mut v, "L");
    } else if c == 'M' {
        push_phone(&mut v, "EH1");
        push_phone(&mut v, "M");
    } else if c == 'N' {
        push_phone(&mut v, "EH1");
        push_phone(&mut v, "N");
    } else if c == 'O' {
        push_phone(&mut v, "OW1");
    } else if c == 'P' {
        push_phone(&mut v, "P");
        push_phone(&mut v, "IY1");
    } else if c == 'Q' {
        push_phone(&mut v, "K");
        push_phone(&mut v, "Y");
        push_phone(&mut v, "UW1");
    } else if c == 'R' {
        push_phone(&mut v, "AA1");
        push_phone(&mut v, "R");
    } else if c == 'S' {
        push_phone(&mut v, "EH1");
        push_phone(&mut v, "S");
    } else if c == 'T' {
        push_phone(&mut v, "T");
        push_phone(&mut v, "IY1");
    } else if c == 'U' {
        push_phone(&mut v, "Y");
        push_phone(&mut v, "UW1");
    } else if c == 'V' {
        push_phone(&mut v, "V");
        push_phone(&mut v, "IY1");
    } else if c == 'W' {
        push_phone(&mut v, "D");
        push_phone(&mut v, "AH1");
        push_phone(&mut v, "B");
        push_phone(&mut v, "AH0");
        push_phone(&mut v, "L");
        push_phone(&mut v, "Y");
        push_phone(&mut v, "UW0");
    } else if c == 'X' {
        push_phone(&mut v, "EH1");
        push_phone(&mut v, "K");
        push_phone(&mut v, "S");
    } else if c == 'Y' {
        push_phone(&mut v, "W");
        push_phone(&mut v, "AY1");
    } else if c == 'Z' {
        push_phone(&mut v, "Z");
        push_phone(&mut v, "IY1");
    }
    v
}

// ---------------------------------------------------------------------------
// The tables
// ---------------------------------------------------------------------------

/// The number that the decimal digits of `s` stand for.
pub open spec fn number(s: Seq<char>) -> nat
    decreases s.len(),
{
    if s.len() == 0 {
        0
    } else {
        number(s.drop_last()) * 10 + (s.last() as int - '0' as int) as nat
    }
}

pub open spec fn digits_only(s: Seq<char>) -> bool {
    s.len() > 0 && forall|i: int| 0 <= i < s.len() ==> text::ascii_digit(#[trigger] s[i])
}

/// The integer of 32 bits that `s` is written as, with or without a sign.
pub open spec fn integer(s: Seq<char>) -> Option<int> {
    if s.len() > 0 && (s[0] == '-' || s[0] == '+') {
        let digits = s.skip(1);
        let n = if s[0] == '-' {
            -(number(digits) as int)
        } else {
            number(digits) as int
        };
        if digits_only(digits) && i32::MIN <= n <= i32::MAX {
            Some(n)
        } else {
            None
        }
    } else if digits_only(s) && number(s) <= i32::MAX {
        Some(number(s) as int)
    } else {
        None
    }
}

proof fn lemma_number_grows(s: Seq<char>, i: int)
    requires
        0 <= i <= s.len(),
        forall|k: int| 0 <= k < s.len() ==> text::ascii_digit(#[trigger] s[k]),
    ensures
        number(s.take(i)) <= number(s),
    decreases s.len() - i,
{
    if i == s.len() {
        assert(s.take(i) == s);
    } else {
        assert(s.take(i + 1).drop_last() == s.take(i));
        assert(text::ascii_digit(s[i]));
        lemma_number_grows(s, i + 1);
    }
}

/// The number of the digits from `from` on, where it is at most two to the thirty-first.
fn read_digits(cs: &[char], from: usize) -> (r: Option<u32>)
    requires
        from <= cs@.len(),
    ensures
        match r {
            Some(n) => digits_only(cs@.skip(from as int)) && n == number(cs@.skip(from as int)) && n
                <= 0x8000_0000,
            None => !digits_only(cs@.skip(from as int)) || number(cs@.skip(from as int))
                > 0x8000_0000,
        },
{
    let ghost s = cs@.skip(from as int);
    if from == cs.len() {
        return None;
    }
    let mut all = true;
    for i in from..cs.len()
        invariant
            from <= cs@.len(),
            s == cs@.skip(from as int),
            all == (forall|k: int| 0 <= k < i - from ==> text::ascii_digit(#[trigger] s[k])),
    {
        assert(s[i - from] == cs@[i as int]);
        if !text::is_ascii_digit(cs[i]) {
            all = false;
        }
    }
    if !all {
        return None;
    }
    let mut n: u64 = 0;
    let mut i: usize = from;
    while i < cs.len()
        invariant
            from <= i <= cs@.len(),
            s == cs@.skip(from as int),
            digits_only(s),
            n == number(s.take(i - from)),
            n <= 0x8000_0000,
        decreases cs@.len() - i,
    {
        assert(s.take(i - from + 1).drop_last() == s.take(i - from));
        assert(s[i - from] == cs@[i as int]);
        assert(text::ascii_digit(s[i - from]));
        n = n * 10 + ((cs[i] as u32) - 48) as u64;
        i += 1;
        if n > 0x8000_0000 {
            proof {
                lemma_number_grows(s, i - from);
            }
            return None;
        }
    }
    assert(s.take(s.len() as int) == s);
    Some(n as u32)
}

fn parse_integer(t: &str) -> (r: Option<i32>)
    ensures
        match integer(t@) {
            Some(n) => r is Some && r->0 == n,
            None => r is None,
        },
{
    let cs = text::chars_of(t);
    if cs.len() > 0 && (cs[0] == '-' || cs[0] == '+') {
        match read_digits(&cs, 1) {
            Some(n) => {
                if cs[0] == '-' {
                    Some((-(n as i64)) as i32)
                } else if n <= 0x7fff_ffff {
                    Some(n as i32)
                } else {
                    None
                }
            },
            None => None,
        }
    } else {
        assert(t@.skip(0) == t@);
        match read_digits(&cs, 0) {
            Some(n) => {
                if n <= 0x7fff_ffff {
                    Some(n as i32)
                } else {
                    None
                }
            },
            None => None,
        }
    }
}

/// The tokens of a vocabulary, one to a line with its number behind it; else
/// what is wrong with the first bad line.
pub open spec fn tokens_in(lines: Seq<Seq<char>>) -> Result<Map<Seq<char>, i32>, Seq<char>>
    decreases lines.len(),
{
    if lines.len() == 0 {
        Ok(Map::empty())
    } else {
        match tokens_in(lines.drop_last()) {
            Err(e) => Err(e),
            Ok(before) => {
                let line = text::trimmed(lines.last());
                let parts = search::words_of(line);
                let at = search::decimal(lines.len());
                if line.len() == 0 {
                    Ok(before)
                } else if parts.len() != 2 {
                    Err(
                        "tokens.txt 第 "@ + at + " 行格式错误（期望 '<token> <id>'，实际 "@
                            + search::decimal(parts.len()) + " 列）："@ + line,
                    )
                } else {
                    match integer(parts[1]) {
                        Some(n) => Ok(before.insert(parts[0], n as i32)),
                        None => Err(
                            "tokens.txt 第 "@ + at + " 行 ID 不是整数："@ + parts[1],
                        ),
                    }
                }
            },
        }
    }
}

pub open spec fn vocabulary(content: Seq<char>) -> Result<Map<Seq<char>, i32>, Seq<char>> {
    match tokens_in(search::lines_of(content)) {
        Err(e) => Err(e),
        Ok(m) => if m.is_empty() {
            Err("tokens.txt 为空"@)
        } else {
            Ok(m)
        },
    }
}

proof fn lemma_tokens_error_stays(lines: Seq<Seq<char>>, i: int, e: Seq<char>)
    requires
        0 <= i <= lines.len(),
        tokens_in(lines.take(i)) == Err::<Map<Seq<char>, i32>, Seq<char>>(e),
    ensures
        tokens_in(lines) == Err::<Map<Seq<char>, i32>, Seq<char>>(e),
    decreases lines.len() - i,
{
    if i == lines.len() {
        assert(lines.take(i) == lines);
    } else {
        assert(lines.take(i + 1).drop_last() == lines.take(i));
        lemma_tokens_error_stays(lines, i + 1, e);
    }
}

/// Reads the vocabulary of the model.
pub fn load_tokens(content: &str) -> (r: Result<StringHashMap<i32>, String>)
    ensures
        match vocabulary(content@) {
            Ok(m) => r is Ok && r->Ok_0@ == m,
            Err(e) => r is Err && r->Err_0@ == e,
        },
{
    let lines = search::split_lines(content);
    let ghost all = search::texts(lines@);
    let mut map: StringHashMap<i32> = StringHashMap::new();
    let mut i: usize = 0;
    while i < lines.len()
        invariant
            i <= lines@.len(),
            all == search::texts(lines@),
            all == search::lines_of(content@),
            tokens_in(all.take(i as int)) == Ok::<Map<Seq<char>, i32>, Seq<char>>(map@),
        decreases lines@.len() - i,
    {
        assert(all.take(i + 1).drop_last() == all.take(i as int));
        assert(all[i as int] == lines@[i as int]@);
        let line = text::trim(&lines[i]);
        if !line.as_str().is_empty() {
            let parts = search::split_whitespace(&line);
            let ghost words = search::texts(parts@);
            if parts.len() != 2 {
                let mut m = "tokens.txt 第 ".to_string();
                m.append(&search::decimal_text(i as u64 + 1));
                m.append(" 行格式错误（期望 '<token> <id>'，实际 ");
                m.append(&search::decimal_text(parts.len() as u64));
                m.append(" 列）：");
                m.append(&line);
                proof {
                    lemma_tokens_error_stays(all, i + 1, m@);
                }
                return Err(m);
            }
            assert(words[0] == parts@[0]@ && words[1] == parts@[1]@);
            match parse_integer(&parts[1]) {
                Some(id) => {
                    map.insert(parts[0].clone(), id);
                },
                None => {
                    let mut m = "tokens.txt 第 ".to_string();
                    m.append(&search::decimal_text(i as u64 + 1));
                    m.append(" 行 ID 不是整数：");
                    m.append(&parts[1]);
                    proof {
                        lemma_tokens_error_stays(all, i + 1, m@);
                    }
                    return Err(m);
                },
            }
        }
        i += 1;
    }
    assert(all.take(all.len() as int) == all);
    if map.is_empty() {
        return Err("tokens.txt 为空".to_string());
    }
    Ok(map)
}

/// A table from words to phonemes.
pub open spec fn phones(m: Map<Seq<char>, Vec<String>>) -> Map<Seq<char>, Seq<Seq<char>>> {
    m.map_values(|v: Vec<String>| search::texts(v@))
}

proof fn lemma_phones_insert(m: Map<Seq<char>, Vec<String>>, k: Seq<char>, v: Vec<String>)
    ensures
        phones(m.insert(k, v)) == phones(m).insert(k, search::texts(v@)),
{
    assert(phones(m.insert(k, v)) =~= phones(m).insert(k, search::texts(v@)));
}

/// The words of a dictionary, one to a line with its phonemes behind it; else
/// what is wrong with the first bad line. Words are kept in upper case.
pub open spec fn words_in(lines: Seq<Seq<char>>) -> Result<
    Map<Seq<char>, Seq<Seq<char>>>,
    Seq<char>,
>
    decreases lines.len(),
{
    if lines.len() == 0 {
        Ok(Map::empty())
    } else {
        match words_in(lines.drop_last()) {
            Err(e) => Err(e),
            Ok(before) => {
                let line = text::trimmed(lines.last());
                let parts = search::words_of(line);
                if line.len() == 0 {
                    Ok(before)
                } else if parts.len() < 2 {
                    Err(
                        "en.phone 第 "@ + search::decimal(lines.len())
                            + " 行格式错误（期望 '<word> <phone1> ...'）："@ + line,
                    )
                } else {
                    Ok(before.insert(text::uppercase_text(parts[0]), parts.skip(1)))
                }
            },
        }
    }
}

pub open spec fn dictionary(content: Seq<char>) -> Result<
    Map<Seq<char>, Seq<Seq<char>>>,
    Seq<char>,
> {
    match words_in(search::lines_of(content)) {
        Err(e) => Err(e),
        Ok(m) => if m.is_empty() {
            Err("en.phone 为空"@)
        } else {
            Ok(m)
        },
    }
}

proof fn lemma_words_error_stays(lines: Seq<Seq<char>>, i: int, e: Seq<char>)
    requires
        0 <= i <= lines.len(),
        words_in(lines.take(i)) == Err::<Map<Seq<char>, Seq<Seq<char>>>, Seq<char>>(e),
    ensures
        words_in(lines) == Err::<Map<Seq<char>, Seq<Seq<char>>>, Seq<char>>(e),
    decreases lines.len() - i,
{
    if i == lines.len() {
        assert(lines.take(i) == lines);
    } else {
        assert(lines.take(i + 1).drop_last() == lines.take(i));
        lemma_words_error_stays(lines, i + 1, e);
    }
}

fn tail_of(parts: &Vec<String>) -> (r: Vec<String>)
    requires
        parts@.len() > 0,
    ensures
        search::texts(r@) == search::texts(parts@).skip(1),
{
    let ghost all = search::texts(parts@);
    let mut r: Vec<String> = Vec::new();
    for k in 1..parts.len()
        invariant
            all == search::texts(parts@),
            search::texts(r@) == all.subrange(1, k as int),
    {
        assert(all[k as int] == parts@[k as int]@);
        push_phone(&mut r, &parts[k]);
        assert(all.subrange(1, k + 1) == all.subrange(1, k as int).push(all[k as int]));
    }
    assert(all.subrange(1, all.len() as int) == all.skip(1));
    r
}

/// Reads the dictionary of English pronunciations.
pub fn load_en_phone(content: &str) -> (r: Result<StringHashMap<Vec<String>>, String>)
    ensures
        match dictionary(content@) {
            Ok(m) => r is Ok && phones(r->Ok_0@) == m,
            Err(e) => r is Err && r->Err_0@ == e,
        },
{
    let lines = search::split_lines(content);
    let ghost all = search::texts(lines@);
    let mut map: StringHashMap<Vec<String>> = StringHashMap::new();
    assert(phones(map@) =~= Map::empty());
    let mut i: usize = 0;
    while i < lines.len()
        invariant
            i <= lines@.len(),
            all == search::texts(lines@),
            all == search::lines_of(content@),
            words_in(all.take(i as int)) == Ok::<Map<Seq<char>, Seq<Seq<char>>>, Seq<char>>(
                phones(map@),
            ),
        decreases lines@.len() - i,
    {
        assert(all.take(i + 1).drop_last() == all.take(i as int));
        assert(all[i as int] == lines@[i as int]@);
        let line = text::trim(&lines[i]);
        if !line.as_str().is_empty() {
            let parts = search::split_whitespace(&line);
            let ghost words = search::texts(parts@);
            if parts.len() < 2 {
                let mut m = "en.phone 第 ".to_string();
                m.append(&search::decimal_text(i as u64 + 1));
                m.append(" 行格式错误（期望 '<word> <phone1> ...'）：");
                m.append(&line);
                proof {
                    lemma_words_error_stays(all, i + 1, m@);
                }
                return Err(m);
            }
            assert(words[0] == parts@[0]@);
            let tail = tail_of(&parts);
            let word = text::str_uppercase(&parts[0]);
            proof {
                lemma_phones_insert(map@, word@, tail);
            }
            map.insert(word, tail);
        }
        i += 1;
    }
    assert(all.take(all.len() as int) == all);
    assert(phones(map@).dom() =~= map@.dom());
    if map.is_empty() {
        return Err("en.phone 为空".to_string());
    }
    Ok(map)
}

/// The object of lists of strings that a text in JSON stands for; else what is
/// wrong with the text.
pub uninterp spec fn pinyin_json(content: Seq<char>) -> Result<
    Map<Seq<char>, Seq<Seq<char>>>,
    Seq<char>,
>;

/// A key of the table and what stands under it.
pub struct PinyinEntry {
    pub key: String,
    pub phones: Vec<String>,
}

/// The entries as a map.
pub open spec fn entry_map(v: Seq<PinyinEntry>) -> Map<Seq<char>, Seq<Seq<char>>>
    decreases v.len(),
{
    if v.len() == 0 {
        Map::empty()
    } else {
        entry_map(v.drop_last()).insert(v.last().key@, search::texts(v.last().phones@))
    }
}

/// Calls `serde_json::from_str` for a map from strings to lists of strings.
/// Which map a text stands for, and what is said of a text that stands for
/// none, is only named.
#[verifier::external_body]
fn parse_pinyin_json(content: &str) -> (r: Result<Vec<PinyinEntry>, String>)
    ensures
        match pinyin_json(content@) {
            Ok(m) => r is Ok && entry_map(r->Ok_0@) == m,
            Err(e) => r is Err && r->Err_0@ == e,
        },
{
    match serde_json::from_str::<std::collections::BTreeMap<String, Vec<String>>>(content) {
        Ok(m) => Ok(m.into_iter().map(|(key, phones)| PinyinEntry { key, phones }).collect()),
        Err(e) => Err(e.to_string()),
    }
}

/// The entries under a single character.
pub open spec fn single_characters(m: Map<Seq<char>, Seq<Seq<char>>>) -> Map<
    Seq<char>,
    Seq<Seq<char>>,
> {
    m.restrict(Set::new(|k: Seq<char>| k.len() == 1))
}

/// What is left of the table once it is parsed: the entries under a single
/// character, of which there has to be one.
pub open spec fn pinyin_table(
    parsed: Result<Map<Seq<char>, Seq<Seq<char>>>, Seq<char>>,
) -> Result<Map<Seq<char>, Seq<Seq<char>>>, Seq<char>> {
    match parsed {
        Err(e) => Err("cjk_ppinyin.json 解析失败: "@ + e),
        Ok(m) => if single_characters(m).is_empty() {
            Err("cjk_ppinyin.json 为空"@)
        } else {
            Ok(single_characters(m))
        },
    }
}

/// Keeps the entries under a single character.
pub fn build_cjk_map(parsed: Result<Vec<PinyinEntry>, String>) -> (r: Result<
    StringHashMap<Vec<String>>,
    String,
>)
    ensures
        match pinyin_table(
            match parsed {
                Ok(v) => Ok(entry_map(v@)),
                Err(e) => Err(e@),
            },
        ) {
            Ok(m) => r is Ok && phones(r->Ok_0@) == m,
            Err(e) => r is Err && r->Err_0@ == e,
        },
{
    let entries = match parsed {
        Ok(v) => v,
        Err(e) => return Err(concat("cjk_ppinyin.json 解析失败: ", &e)),
    };
    let mut map: StringHashMap<Vec<String>> = StringHashMap::new();
    assert(phones(map@) =~= single_characters(entry_map(entries@.take(0))));
    for i in 0..entries.len()
        invariant
            phones(map@) == single_characters(entry_map(entries@.take(i as int))),
    {
        let e = &entries[i];
        proof {
            assert(entries@.take(i + 1).drop_last() == entries@.take(i as int));
            let before = entry_map(entries@.take(i as int));
            let after = before.insert(e.key@, search::texts(e.phones@));
            assert(entry_map(entries@.take(i + 1)) == after);
            if e.key@.len() == 1 {
                assert(single_characters(after) =~= single_characters(before).insert(
                    e.key@,
                    search::texts(e.phones@),
                ));
            } else {
                assert(single_characters(after) =~= single_characters(before));
            }
        }
        if e.key.as_str().unicode_len() == 1 {
            let list = clone_texts(&e.phones);
            proof {
                lemma_phones_insert(map@, e.key@, list);
            }
            map.insert(e.key.clone(), list);
        }
    }
    assert(entries@.take(entries@.len() as int) == entries@);
    assert(phones(map@).dom() =~= map@.dom());
    if map.is_empty() {
        return Err("cjk_ppinyin.json 为空".to_string());
    }
    Ok(map)
}

/// Reads the table of Chinese characters and their initials and finals.
pub fn load_cjk_map(content: &str) -> (r: Result<StringHashMap<Vec<String>>, String>)
    ensures
        match pinyin_table(pinyin_json(content@)) {
            Ok(m) => r is Ok && phones(r->Ok_0@) == m,
            Err(e) => r is Err && r->Err_0@ == e,
        },
{
    build_cjk_map(parse_pinyin_json(content))
}

// ---------------------------------------------------------------------------
// Converting
// ---------------------------------------------------------------------------

/// The ideographs: the basic block, its first extension, and the compatibility block.
pub open spec fn ideograph(c: char) -> bool {
    '\u{4e00}' <= c <= '\u{9fff}' || '\u{3400}' <= c <= '\u{4dbf}' || '\u{f900}' <= c <= '\u{faff}'
}

fn is_cjk_char(c: char) -> (r: bool)
    ensures
        r == ideograph(c),
{
    ('\u{4e00}' <= c && c <= '\u{9fff}') || ('\u{3400}' <= c && c <= '\u{4dbf}') || ('\u{f900}' <= c
        && c <= '\u{faff}')
}

/// The segments that are complete, and the one under way.
#[verifier::ext_equal]
pub struct Split {
    pub done: Seq<Seq<char>>,
    pub current: Seq<char>,
}

impl Split {
    pub open spec fn flushed(self) -> Seq<Seq<char>> {
        if self.current.len() > 0 {
            self.done.push(self.current)
        } else {
            self.done
        }
    }
}

pub open spec fn split(s: Seq<char>) -> Split
    decreases s.len(),
{
    if s.len() == 0 {
        Split { done: Seq::empty(), current: Seq::empty() }
    } else {
        let before = split(s.drop_last());
        let c = s.last();
        if ideograph(c) {
            Split { done: before.flushed().push(seq![c]), current: Seq::empty() }
        } else if text::whitespace(c) {
            Split { done: before.flushed(), current: Seq::empty() }
        } else {
            Split { done: before.done, current: before.current.push(c) }
        }
    }
}

/// Each ideograph on its own, and each run of other characters; white space
/// only separates.
pub open spec fn segments(s: Seq<char>) -> Seq<Seq<char>> {
    split(s).flushed()
}

/// Splits text that mixes ideographs with other characters.
pub fn split_mixed_text(s: &str) -> (r: Vec<String>)
    ensures
        search::texts(r@) == segments(s@),
{
    let mut done: Vec<String> = Vec::new();
    let mut current = String::new();
    assert(search::texts(done@) =~= Seq::<Seq<char>>::empty());
    for c in it: s.chars()
        invariant
            it.seq() == s@,
            split(s@.take(it.index() as int)) == (Split {
                done: search::texts(done@),
                current: current@,
            }),
    {
        let ghost i = it.index() as int;
        let ghost before = split(s@.take(i));
        assert(s@.take(i + 1).drop_last() == s@.take(i));
        assert(s@[i] == c);
        if is_cjk_char(c) || text::is_whitespace(c) {
            if !current.as_str().is_empty() {
                push_phone(&mut done, &current);
            }
            if is_cjk_char(c) {
                let mut one = String::new();
                one.push(c);
                assert(one@ =~= seq![c]);
                push_phone(&mut done, &one);
            }
            current = String::new();
            assert(current@ =~= Seq::<char>::empty());
        } else {
            current.push(c);
        }
    }
    assert(s@.take(s@.len() as int) == s@);
    if !current.as_str().is_empty() {
        push_phone(&mut done, &current);
    }
    done
}

/// The tables that keywords are converted by.
pub struct Text2Token {
    pub token_table: StringHashMap<i32>,
    pub cjk_map: StringHashMap<Vec<String>>,
    pub en_phone: StringHashMap<Vec<String>>,
}

/// What a [`Text2Token`] stands for.
#[verifier::ext_equal]
pub struct Tables {
    pub tokens: Set<Seq<char>>,
    pub ideographs: Map<Seq<char>, Seq<Seq<char>>>,
    pub english: Map<Seq<char>, Seq<Seq<char>>>,
}

impl View for Text2Token {
    type V = Tables;

    open spec fn view(&self) -> Tables {
        Tables {
            tokens: self.token_table@.dom(),
            ideographs: phones(self.cjk_map@),
            english: phones(self.en_phone@),
        }
    }
}

/// The names of the letters of `s`, in order; else what is said of the first
/// character that is no letter.
pub open spec fn spelled(whole: Seq<char>, s: Seq<char>) -> Result<Seq<Seq<char>>, Seq<char>>
    decreases s.len(),
{
    if s.len() == 0 {
        Ok(Seq::empty())
    } else {
        match spelled(whole, s.drop_last()) {
            Err(e) => Err(e),
            Ok(before) => if text::ascii_alphabetic(s.last()) {
                Ok(before + letter_name(text::ascii_upper(s.last())))
            } else {
                Err(
                    "英文段 '"@ + whole + "' 不在 en.phone 中，且包含非字母字符 '"@ + seq![s.last()]
                        + "'，无法逐字母拼读"@,
                )
            },
        }
    }
}

/// The phonemes of an English segment, given its upper case: those of the
/// dictionary, else those of its letters.
pub open spec fn phones_given(t: Tables, segment: Seq<char>, upper: Seq<char>) -> Result<
    Seq<Seq<char>>,
    Seq<char>,
> {
    if t.english.contains_key(upper) {
        Ok(t.english[upper])
    } else {
        spelled(segment, segment)
    }
}

/// The phonemes of an English segment.
pub open spec fn english_phones(t: Tables, segment: Seq<char>) -> Result<Seq<Seq<char>>, Seq<char>> {
    phones_given(t, segment, text::uppercase_text(segment))
}

/// The message about the first phoneme that the model does not know.
pub open spec fn unknown_token(t: Tables, ps: Seq<Seq<char>>, context: Seq<char>) -> Option<Seq<char>>
    decreases ps.len(),
{
    if ps.len() == 0 {
        None
    } else {
        match unknown_token(t, ps.drop_last(), context) {
            Some(e) => Some(e),
            None => if t.tokens.contains(ps.last()) {
                None
            } else {
                Some(
                    context + " '"@ + ps.last()
                        + "' 不在 tokens.txt 中，请确认模型 token 词汇表是否匹配"@,
                )
            },
        }
    }
}

pub open spec fn checked(
    t: Tables,
    ps: Seq<Seq<char>>,
    context: Seq<char>,
) -> Result<Seq<Seq<char>>, Seq<char>> {
    match unknown_token(t, ps, context) {
        Some(e) => Err(e),
        None => Ok(ps),
    }
}

/// The phonemes of a segment.
pub open spec fn segment_phones(t: Tables, segment: Seq<char>) -> Result<Seq<Seq<char>>, Seq<char>> {
    if segment.len() == 1 && ideograph(segment[0]) {
        if t.ideographs.contains_key(segment) {
            checked(t, t.ideographs[segment], "CJK 字符 '"@ + segment + "' 的拼音"@)
        } else {
            Err("CJK 字符 '"@ + segment + "' 没有拼音映射"@)
        }
    } else {
        match english_phones(t, segment) {
            Err(e) => Err(e),
            Ok(ps) => checked(t, ps, "英文段 '"@ + segment + "' 的音素"@),
        }
    }
}

/// The phonemes of the segments, in order; else what is said of the first bad one.
pub open spec fn all_phones(t: Tables, segs: Seq<Seq<char>>) -> Result<Seq<Seq<char>>, Seq<char>>
    decreases segs.len(),
{
    if segs.len() == 0 {
        Ok(Seq::empty())
    } else {
        match all_phones(t, segs.drop_last()) {
            Err(e) => Err(e),
            Ok(before) => match segment_phones(t, segs.last()) {
                Err(e) => Err(e),
                Ok(ps) => Ok(before + ps),
            },
        }
    }
}

/// The line for a keyword: its phonemes, and behind an at sign the label that
/// is reported when it is heard.
pub open spec fn keyword_tokens(t: Tables, keyword: Seq<char>, label: Seq<char>) -> Result<
    Seq<char>,
    Seq<char>,
> {
    match all_phones(t, segments(keyword)) {
        Err(e) => Err(e),
        Ok(ps) => if ps.len() == 0 {
            Err("关键词 '"@ + keyword + "' 转换后没有有效 token"@)
        } else {
            Ok(search::joined(ps.push(seq!['@'] + label), " "@))
        },
    }
}

proof fn lemma_spelled_error_stays(s: Seq<char>, i: int, e: Seq<char>)
    requires
        0 <= i <= s.len(),
        spelled(s, s.take(i)) == Err::<Seq<Seq<char>>, Seq<char>>(e),
    ensures
        spelled(s, s) == Err::<Seq<Seq<char>>, Seq<char>>(e),
    decreases s.len() - i,
{
    if i == s.len() {
        assert(s.take(i) == s);
    } else {
        assert(s.take(i + 1).drop_last() == s.take(i));
        lemma_spelled_error_stays(s, i + 1, e);
    }
}

proof fn lemma_unknown_stays(t: Tables, ps: Seq<Seq<char>>, context: Seq<char>, i: int, e: Seq<char>)
    requires
        0 <= i <= ps.len(),
        unknown_token(t, ps.take(i), context) == Some(e),
    ensures
        unknown_token(t, ps, context) == Some(e),
    decreases ps.len() - i,
{
    if i == ps.len() {
        assert(ps.take(i) == ps);
    } else {
        assert(ps.take(i + 1).drop_last() == ps.take(i));
        lemma_unknown_stays(t, ps, context, i + 1, e);
    }
}

proof fn lemma_phones_error_stays(t: Tables, segs: Seq<Seq<char>>, i: int, e: Seq<char>)
    requires
        0 <= i <= segs.len(),
        all_phones(t, segs.take(i)) == Err::<Seq<Seq<char>>, Seq<char>>(e),
    ensures
        all_phones(t, segs) == Err::<Seq<Seq<char>>, Seq<char>>(e),
    decreases segs.len() - i,
{
    if i == segs.len() {
        assert(segs.take(i) == segs);
    } else {
        assert(segs.take(i + 1).drop_last() == segs.take(i));
        lemma_phones_error_stays(t, segs, i + 1, e);
    }
}

fn extend(v: &mut Vec<String>, more: &Vec<String>)
    ensures
        search::texts(final(v)@) == search::texts(old(v)@) + search::texts(more@),
{
    let ghost all = search::texts(more@);
    let ghost before = search::texts(v@);
    for i in 0..more.len()
        invariant
            all == search::texts(more@),
            search::texts(v@) == before + all.take(i as int),
    {
        assert(all[i as int] == more@[i as int]@);
        push_phone(v, &more[i]);
        assert(before + all.take(i + 1) =~= (before + all.take(i as int)).push(all[i as int]));
    }
    assert(all.take(all.len() as int) == all);
}

impl Text2Token {
    fn check_tokens(&self, ps: &Vec<String>, context: &str) -> (r: Option<String>)
        ensures
            match unknown_token(self@, search::texts(ps@), context@) {
                Some(e) => r is Some && r->0@ == e,
                None => r is None,
            },
    {
        let ghost all = search::texts(ps@);
        let mut i: usize = 0;
        while i < ps.len()
            invariant
                i <= ps@.len(),
                all == search::texts(ps@),
                unknown_token(self@, all.take(i as int), context@) is None,
            decreases ps@.len() - i,
        {
            assert(all.take(i + 1).drop_last() == all.take(i as int));
            assert(all[i as int] == ps@[i as int]@);
            if !self.token_table.contains_key(&ps[i]) {
                let mut e = concat(context, " '");
                e.append(&ps[i]);
                e.append("' 不在 tokens.txt 中，请确认模型 token 词汇表是否匹配");
                proof {
                    lemma_unknown_stays(self@, all, context@, i + 1, e@);
                }
                return Some(e);
            }
            i += 1;
        }
        assert(all.take(all.len() as int) == all);
        None
    }

    fn lookup_english(&self, segment: &str) -> (r: Result<Vec<String>, String>)
        ensures
            match english_phones(self@, segment@) {
                Ok(ps) => r is Ok && search::texts(r->Ok_0@) == ps,
                Err(e) => r is Err && r->Err_0@ == e,
            },
    {
        let upper = text::str_uppercase(segment);
        self.phones_for(segment, &upper)
    }

    /// The phonemes of an English segment, given its upper case.
    pub fn phones_for(&self, segment: &str, upper: &str) -> (r: Result<Vec<String>, String>)
        ensures
            match phones_given(self@, segment@, upper@) {
                Ok(ps) => r is Ok && search::texts(r->Ok_0@) == ps,
                Err(e) => r is Err && r->Err_0@ == e,
            },
    {
        if let Some(ps) = self.en_phone.get(upper) {
            return Ok(clone_texts(ps));
        }
        let cs = text::chars_of(segment);
        let mut result: Vec<String> = Vec::new();
        assert(search::texts(result@) =~= Seq::<Seq<char>>::empty());
        let mut i: usize = 0;
        while i < cs.len()
            invariant
                i <= cs@.len(),
                cs@ == segment@,
                !self@.english.contains_key(upper@),
                spelled(segment@, segment@.take(i as int)) == Ok::<Seq<Seq<char>>, Seq<char>>(
                    search::texts(result@),
                ),
            decreases cs@.len() - i,
        {
            let c = cs[i];
            assert(segment@.take(i + 1).drop_last() == segment@.take(i as int));
            if !text::is_ascii_alphabetic(c) {
                let mut e = concat("英文段 '", segment);
                e.append("' 不在 en.phone 中，且包含非字母字符 '");
                let ghost head = e@;
                e.push(c);
                assert(e@ =~= head + seq![c]);
                e.append("'，无法逐字母拼读");
                proof {
                    lemma_spelled_error_stays(segment@, i + 1, e@);
                }
                return Err(e);
            }
            let name = spell(text::to_ascii_upper(c));
            extend(&mut result, &name);
            i += 1;
        }
        assert(segment@.take(segment@.len() as int) == segment@);
        Ok(result)
    }

    fn segment_tokens(&self, segment: &str) -> (r: Result<Vec<String>, String>)
        ensures
            match segment_phones(self@, segment@) {
                Ok(ps) => r is Ok && search::texts(r->Ok_0@) == ps,
                Err(e) => r is Err && r->Err_0@ == e,
            },
    {
        if segment.unicode_len() == 1 && is_cjk_char(segment.get_char(0)) {
            match self.cjk_map.get(segment) {
                Some(ps) => {
                    let mut context = concat("CJK 字符 '", segment);
                    context.append("' 的拼音");
                    match self.check_tokens(ps, &context) {
                        Some(e) => Err(e),
                        None => Ok(clone_texts(ps)),
                    }
                },
                None => {
                    let mut e = concat("CJK 字符 '", segment);
                    e.append("' 没有拼音映射");
                    Err(e)
                },
            }
        } else {
            let ps = match self.lookup_english(segment) {
                Ok(ps) => ps,
                Err(e) => return Err(e),
            };
            let mut context = concat("英文段 '", segment);
            context.append("' 的音素");
            match self.check_tokens(&ps, &context) {
                Some(e) => Err(e),
                None => Ok(ps),
            }
        }
    }

    /// The line of phonemes for a keyword, with the label behind it.
    pub fn convert(&self, keyword: &str, label: &str) -> (r: Result<String, String>)
        ensures
            match keyword_tokens(self@, keyword@, label@) {
                Ok(line) => r is Ok && r->Ok_0@ == line,
                Err(e) => r is Err && r->Err_0@ == e,
            },
    {
        let segs = split_mixed_text(keyword);
        let ghost all = search::texts(segs@);
        let mut tokens: Vec<String> = Vec::new();
        assert(search::texts(tokens@) =~= Seq::<Seq<char>>::empty());
        let mut i: usize = 0;
        while i < segs.len()
            invariant
                i <= segs@.len(),
                all == search::texts(segs@),
                all == segments(keyword@),
                all_phones(self@, all.take(i as int)) == Ok::<Seq<Seq<char>>, Seq<char>>(
                    search::texts(tokens@),
                ),
            decreases segs@.len() - i,
        {
            assert(all.take(i + 1).drop_last() == all.take(i as int));
            assert(all[i as int] == segs@[i as int]@);
            match self.segment_tokens(&segs[i]) {
                Ok(ps) => {
                    extend(&mut tokens, &ps);
                },
                Err(e) => {
                    proof {
                        lemma_phones_error_stays(self@, all, i + 1, e@);
                    }
                    return Err(e);
                },
            }
            i += 1;
        }
        assert(all.take(all.len() as int) == all);
        if tokens.len() == 0 {
            let mut e = concat("关键词 '", keyword);
            e.append("' 转换后没有有效 token");
            return Err(e);
        }
        let mut tag = String::new();
        tag.push('@');
        tag.append(label);
        assert(tag@ =~= seq!['@'] + label@);
        push_phone(&mut tokens, &tag);
        Ok(search::join(&tokens, " "))
    }

    /// The lines for keywords and their labels, in order.
    pub fn convert_batch(&self, items: &Vec<(String, String)>) -> (r: Result<Vec<String>, String>)
        ensures
            match all_lines(self@, pairs(items@)) {
                Ok(lines) => r is Ok && search::texts(r->Ok_0@) == lines,
                Err(e) => r is Err && r->Err_0@ == e,
            },
    {
        let ghost all = pairs(items@);
        let mut lines: Vec<String> = Vec::new();
        assert(search::texts(lines@) =~= Seq::<Seq<char>>::empty());
        let mut i: usize = 0;
        while i < items.len()
            invariant
                i <= items@.len(),
                all == pairs(items@),
                all_lines(self@, all.take(i as int)) == Ok::<Seq<Seq<char>>, Seq<char>>(
                    search::texts(lines@),
                ),
            decreases items@.len() - i,
        {
            assert(all.take(i + 1).drop_last() == all.take(i as int));
            assert(all[i as int] == (items@[i as int].0@, items@[i as int].1@));
            match self.convert(&items[i].0, &items[i].1) {
                Ok(line) => {
                    push_phone(&mut lines, &line);
                },
                Err(e) => {
                    proof {
                        lemma_lines_error_stays(self@, all, i + 1, e@);
                    }
                    return Err(e);
                },
            }
            i += 1;
        }
        assert(all.take(all.len() as int) == all);
        Ok(lines)
    }

    /// The content of a keyword file: one line for each keyword.
    pub fn keywords_txt(&self, items: &Vec<(String, String)>) -> (r: Result<String, String>)
        ensures
            match all_lines(self@, pairs(items@)) {
                Ok(lines) => r is Ok && r->Ok_0@ == search::joined(lines, "\n"@) + "\n"@,
                Err(e) => r is Err && r->Err_0@ == e,
            },
    {
        match self.convert_batch(items) {
            Ok(lines) => {
                let mut content = search::join(&lines, "\n");
                content.append("\n");
                Ok(content)
            },
            Err(e) => Err(e),
        }
    }
}

/// The views of pairs of texts.
pub open spec fn pairs(v: Seq<(String, String)>) -> Seq<(Seq<char>, Seq<char>)> {
    v.map_values(|p: (String, String)| (p.0@, p.1@))
}

/// The lines for keywords and their labels; else what is said of the first bad one.
pub open spec fn all_lines(t: Tables, items: Seq<(Seq<char>, Seq<char>)>) -> Result<
    Seq<Seq<char>>,
    Seq<char>,
>
    decreases items.len(),
{
    if items.len() == 0 {
        Ok(Seq::empty())
    } else {
        match all_lines(t, items.drop_last()) {
            Err(e) => Err(e),
            Ok(before) => match keyword_tokens(t, items.last().0, items.last().1) {
                Err(e) => Err(e),
                Ok(line) => Ok(before.push(line)),
            },
        }
    }
}

proof fn lemma_lines_error_stays(
    t: Tables,
    items: Seq<(Seq<char>, Seq<char>)>,
    i: int,
    e: Seq<char>,
)
    requires
        0 <= i <= items.len(),
        all_lines(t, items.take(i)) == Err::<Seq<Seq<char>>, Seq<char>>(e),
    ensures
        all_lines(t, items) == Err::<Seq<Seq<char>>, Seq<char>>(e),
    decreases items.len() - i,
{
    if i == items.len() {
        assert(items.take(i) == items);
    } else {
        assert(items.take(i + 1).drop_last() == items.take(i));
        lemma_lines_error_stays(t, items, i + 1, e);
    }
}

// ---------------------------------------------------------------------------
// Laws
// ---------------------------------------------------------------------------

/// Whatever is converted consists of tokens that the model knows.
pub proof fn law_only_known_tokens(t: Tables, segs: Seq<Seq<char>>)
    ensures
        all_phones(t, segs) matches Ok(ps) ==> forall|i: int|
            0 <= i < ps.len() ==> t.tokens.contains(#[trigger] ps[i]),
    decreases segs.len(),
{
    if segs.len() > 0 {
        law_only_known_tokens(t, segs.drop_last());
        if all_phones(t, segs) is Ok {
            let ps = segment_phones(t, segs.last())->Ok_0;
            let before = all_phones(t, segs.drop_last())->Ok_0;
            let segment = segs.last();
            let context = if segment.len() == 1 && ideograph(segment[0]) {
                "CJK 字符 '"@ + segment + "' 的拼音"@
            } else {
                "英文段 '"@ + segment + "' 的音素"@
            };
            lemma_checked_tokens(t, ps, context);
            assert forall|i: int| 0 <= i < (before + ps).len() implies t.tokens.contains(
                #[trigger] (before + ps)[i],
            ) by {
                if i >= before.len() {
                    assert((before + ps)[i] == ps[i - before.len()]);
                } else {
                    assert((before + ps)[i] == before[i]);
                }
            }
        }
    }
}

proof fn lemma_checked_tokens(t: Tables, ps: Seq<Seq<char>>, context: Seq<char>)
    requires
        unknown_token(t, ps, context) is None,
    ensures
        forall|i: int| 0 <= i < ps.len() ==> t.tokens.contains(#[trigger] ps[i]),
    decreases ps.len(),
{
    if ps.len() > 0 {
        lemma_checked_tokens(t, ps.drop_last(), context);
        assert forall|i: int| 0 <= i < ps.len() implies t.tokens.contains(#[trigger] ps[i]) by {
            if i < ps.len() - 1 {
                assert(ps.drop_last()[i] == ps[i]);
            }
        }
    }
}

/// A line ends with the label that was asked for.
pub proof fn law_line_ends_with_its_label(t: Tables, keyword: Seq<char>, label: Seq<char>)
    ensures
        keyword_tokens(t, keyword, label) matches Ok(line) ==> {
            let tag = " "@ + (seq!['@'] + label);
            line.len() >= tag.len() && line.skip(line.len() - tag.len()) == tag
        },
{
    if keyword_tokens(t, keyword, label) is Ok {
        let ps = all_phones(t, segments(keyword))->Ok_0;
        let tag = seq!['@'] + label;
        let parts = ps.push(tag);
        let line = search::joined(parts, " "@);
        let head = search::joined(parts.drop_last(), " "@);
        assert(line == head + " "@ + tag);
        assert(line =~= head + (" "@ + tag));
        assert((head + (" "@ + tag)).skip(head.len() as int) =~= " "@ + tag);
    }
}

proof fn lemma_split_after(a: Seq<char>, c: char, b: Seq<char>)
    requires
        ideograph(c) || text::whitespace(c),
    ensures
        ({
            let first = segments(a) + (if ideograph(c) {
                seq![seq![c]]
            } else {
                Seq::empty()
            });
            let s = split(a.push(c) + b);
            s.done == first + split(b).done && s.current == split(b).current
        }),
    decreases b.len(),
{
    let all = a.push(c) + b;
    let first = segments(a) + (if ideograph(c) {
        seq![seq![c]]
    } else {
        Seq::empty()
    });
    if b.len() == 0 {
        assert(all =~= a.push(c));
        assert(all.drop_last() =~= a);
        assert(split(all).done =~= first + split(b).done);
        assert(split(all).current =~= split(b).current);
    } else {
        let head = b.drop_last();
        lemma_split_after(a, c, head);
        assert(all.drop_last() =~= a.push(c) + head);
        assert(all.last() == b.last());
        assert(split(all).done =~= first + split(b).done);
    }
}

/// White space parts segments and is no part of any; an ideograph is a segment
/// of its own, and what stands before and behind it is segmented by itself.
pub proof fn law_segments_end_at_blanks_and_ideographs(a: Seq<char>, c: char, b: Seq<char>)
    ensures
        ideograph(c) ==> segments(a.push(c) + b) == segments(a).push(seq![c]) + segments(b),
        text::whitespace(c) ==> segments(a.push(c) + b) == segments(a) + segments(b),
{
    if ideograph(c) || text::whitespace(c) {
        lemma_split_after(a, c, b);
        if ideograph(c) {
            assert(!text::whitespace(c));
            assert(segments(a.push(c) + b) =~= segments(a).push(seq![c]) + segments(b));
        } else {
            assert(segments(a.push(c) + b) =~= segments(a) + segments(b));
        }
    }
}

/// A run without ideographs and white space is one segment.
pub proof fn law_runs_are_segments(s: Seq<char>)
    requires
        s.len() > 0,
        forall|i: int|
            0 <= i < s.len() ==> !ideograph(#[trigger] s[i]) && !text::whitespace(s[i]),
    ensures
        segments(s) == seq![s],
{
    lemma_run_is_current(s);
    assert(segments(s) =~= seq![s]);
}

proof fn lemma_run_is_current(s: Seq<char>)
    requires
        forall|i: int|
            0 <= i < s.len() ==> !ideograph(#[trigger] s[i]) && !text::whitespace(s[i]),
    ensures
        split(s).done.len() == 0,
        split(s).current == s,
    decreases s.len(),
{
    if s.len() > 0 {
        let head = s.drop_last();
        assert forall|i: int| 0 <= i < head.len() implies !ideograph(#[trigger] head[i])
            && !text::whitespace(head[i]) by {
            assert(head[i] == s[i]);
        }
        lemma_run_is_current(head);
        assert(!ideograph(s[s.len() - 1]) && !text::whitespace(s[s.len() - 1]));
        assert(split(s).current =~= s);
    } else {
        assert(split(s).current =~= s);
    }
}

/// The phonemes of segments are those of each, in order; what is said of the
/// first bad one is said of all.
pub proof fn law_phonemes_follow_the_segments(t: Tables, a: Seq<Seq<char>>, b: Seq<Seq<char>>)
    ensures
        all_phones(t, a) is Ok && all_phones(t, b) is Ok ==> all_phones(t, a + b) == Ok::<
            Seq<Seq<char>>,
            Seq<char>,
        >(all_phones(t, a)->Ok_0 + all_phones(t, b)->Ok_0),
        all_phones(t, a) is Err ==> all_phones(t, a + b) == all_phones(t, a),
        all_phones(t, a) is Ok && all_phones(t, b) is Err ==> all_phones(t, a + b) == all_phones(
            t,
            b,
        ),
        a.len() == 1 && segment_phones(t, a[0]) is Ok ==> all_phones(t, a) == segment_phones(
            t,
            a[0],
        ),
    decreases b.len(),
{
    if a.len() == 1 {
        reveal_with_fuel(all_phones, 2);
        assert(a.drop_last() =~= Seq::empty());
        assert(a.last() == a[0]);
        if segment_phones(t, a[0]) is Ok {
            let ps = segment_phones(t, a[0])->Ok_0;
            assert(Seq::<Seq<char>>::empty() + ps =~= ps);
        }
    }
    if b.len() == 0 {
        assert(a + b =~= a);
        if all_phones(t, a) is Ok {
            assert(all_phones(t, a)->Ok_0 + all_phones(t, b)->Ok_0 =~= all_phones(t, a)->Ok_0);
        }
    } else {
        law_phonemes_follow_the_segments(t, a, b.drop_last());
        assert((a + b).drop_last() =~= a + b.drop_last());
        assert((a + b).last() == b.last());
        if all_phones(t, a) is Ok && all_phones(t, b) is Ok {
            let x = all_phones(t, a)->Ok_0;
            let y = all_phones(t, b.drop_last())->Ok_0;
            let z = segment_phones(t, b.last())->Ok_0;
            assert(x + y + z =~= x + (y + z));
        }
    }
}

/// An ideograph has the phonemes of the table, if the model knows them all; an
/// English word those of the dictionary.
pub proof fn law_phonemes_are_looked_up(t: Tables, segment: Seq<char>, ps: Seq<Seq<char>>)
    requires
        forall|i: int| 0 <= i < ps.len() ==> t.tokens.contains(#[trigger] ps[i]),
    ensures
        segment.len() == 1 && ideograph(segment[0]) && t.ideographs.contains_key(segment)
            && t.ideographs[segment] == ps ==> segment_phones(t, segment) == Ok::<
            Seq<Seq<char>>,
            Seq<char>,
        >(ps),
        segment.len() == 1 && ideograph(segment[0]) && !t.ideographs.contains_key(segment)
            ==> segment_phones(t, segment) is Err,
        !(segment.len() == 1 && ideograph(segment[0])) && t.english.contains_key(
            text::uppercase_text(segment),
        ) && t.english[text::uppercase_text(segment)] == ps ==> segment_phones(t, segment) == Ok::<
            Seq<Seq<char>>,
            Seq<char>,
        >(ps),
        !(segment.len() == 1 && ideograph(segment[0])) && !t.english.contains_key(
            text::uppercase_text(segment),
        ) && spelled(segment, segment) == Ok::<Seq<Seq<char>>, Seq<char>>(ps) ==> segment_phones(
            t,
            segment,
        ) == Ok::<Seq<Seq<char>>, Seq<char>>(ps),
{
    lemma_known_tokens(t, ps, "CJK 字符 '"@ + segment + "' 的拼音"@);
    lemma_known_tokens(t, ps, "英文段 '"@ + segment + "' 的音素"@);
}

proof fn lemma_known_tokens(t: Tables, ps: Seq<Seq<char>>, context: Seq<char>)
    requires
        forall|i: int| 0 <= i < ps.len() ==> t.tokens.contains(#[trigger] ps[i]),
    ensures
        unknown_token(t, ps, context) is None,
    decreases ps.len(),
{
    if ps.len() > 0 {
        let head = ps.drop_last();
        assert forall|i: int| 0 <= i < head.len() implies t.tokens.contains(#[trigger] head[i]) by {
            assert(head[i] == ps[i]);
        }
        lemma_known_tokens(t, head, context);
        assert(t.tokens.contains(ps[ps.len() - 1]));
    }
}

/// A word that is spelled out is the names of its letters, in order and in
/// whatever case; what is no letter cannot be spelled.
pub proof fn law_words_are_spelled_letter_by_letter(whole: Seq<char>, s: Seq<char>, c: char)
    ensures
        spelled(whole, Seq::empty()) == Ok::<Seq<Seq<char>>, Seq<char>>(Seq::empty()),
        spelled(whole, s) is Ok && text::ascii_alphabetic(c) ==> spelled(whole, s.push(c)) == Ok::<
            Seq<Seq<char>>,
            Seq<char>,
        >(spelled(whole, s)->Ok_0 + letter_name(text::ascii_upper(c))),
        !text::ascii_alphabetic(c) ==> spelled(whole, s.push(c)) is Err,
        text::ascii_alphabetic(c) ==> letter_name(text::ascii_upper(c)).len() > 0,
{
    assert(s.push(c).drop_last() =~= s);
}

/// The line of a keyword is its phonemes with blanks between, and behind an at
/// sign its label.
pub proof fn law_lines_are_phonemes_and_label(
    t: Tables,
    keyword: Seq<char>,
    label: Seq<char>,
    ps: Seq<Seq<char>>,
)
    requires
        all_phones(t, segments(keyword)) == Ok::<Seq<Seq<char>>, Seq<char>>(ps),
    ensures
        ps.len() > 0 ==> keyword_tokens(t, keyword, label) == Ok::<Seq<char>, Seq<char>>(
            search::joined(ps, " "@) + " "@ + (seq!['@'] + label),
        ),
        ps.len() == 0 ==> keyword_tokens(t, keyword, label) is Err,
{
    let parts = ps.push(seq!['@'] + label);
    assert(parts.drop_last() =~= ps);
}

/// Each keyword has its line, in order, or what is wrong with the first that
/// has none is said.
pub proof fn law_keywords_have_lines_in_order(
    t: Tables,
    items: Seq<(Seq<char>, Seq<char>)>,
    keyword: Seq<char>,
    label: Seq<char>,
)
    ensures
        all_lines(t, Seq::empty()) == Ok::<Seq<Seq<char>>, Seq<char>>(Seq::empty()),
        all_lines(t, items) is Ok && keyword_tokens(t, keyword, label) is Ok ==> all_lines(
            t,
            items.push((keyword, label)),
        ) == Ok::<Seq<Seq<char>>, Seq<char>>(
            all_lines(t, items)->Ok_0.push(keyword_tokens(t, keyword, label)->Ok_0),
        ),
        all_lines(t, items) is Err ==> all_lines(t, items.push((keyword, label))) == all_lines(
            t,
            items,
        ),
        all_lines(t, items) is Ok && keyword_tokens(t, keyword, label) is Err ==> all_lines(
            t,
            items.push((keyword, label)),
        ) is Err && all_lines(t, items.push((keyword, label)))->Err_0 == keyword_tokens(
            t,
            keyword,
            label,
        )->Err_0,
{
    assert(items.push((keyword, label)).drop_last() =~= items);
}

/// A number that is written in digits is read as that number, with a minus sign
/// as its opposite.
pub proof fn law_numbers_are_read_back(n: nat)
    requires
        n <= i32::MAX,
    ensures
        integer(search::decimal(n)) == Some(n as int),
        integer(seq!['-'] + search::decimal(n)) == Some(-(n as int)),
        integer(seq!['+'] + search::decimal(n)) == Some(n as int),
{
    lemma_number_of(n);
    search::law_digits_stand_for_the_number(n);
    let d = search::decimal(n);
    assert(text::ascii_digit(d[0]));
    assert((seq!['-'] + d).skip(1) =~= d);
    assert((seq!['+'] + d).skip(1) =~= d);
}

proof fn lemma_number_of(n: nat)
    ensures
        number(search::decimal(n)) == n,
    decreases n,
{
    if n < 10 {
        reveal_with_fuel(number, 2);
        assert(search::decimal(n).drop_last() =~= Seq::empty());
    } else {
        lemma_number_of(n / 10);
        assert(search::decimal(n).drop_last() =~= search::decimal(n / 10));
    }
}

/// A line of a vocabulary adds its token under its number; an empty one adds
/// nothing, and any other is reported with the place where it stands. Of a bad
/// line everything behind it is passed over.
pub proof fn law_vocabularies_are_read_line_by_line(lines: Seq<Seq<char>>, line: Seq<char>, n: int)
    ensures
        tokens_in(lines) is Ok && text::trimmed(line).len() == 0 ==> tokens_in(lines.push(line))
            == tokens_in(lines),
        tokens_in(lines) is Err ==> tokens_in(lines.push(line)) == tokens_in(lines),
        ({
            let parts = search::words_of(text::trimmed(line));
            &&& tokens_in(lines) is Ok && parts.len() == 2 && text::trimmed(line).len() > 0
                && integer(parts[1]) == Some(n) ==> tokens_in(lines.push(line)) == Ok::<
                Map<Seq<char>, i32>,
                Seq<char>,
            >(tokens_in(lines)->Ok_0.insert(parts[0], n as i32))
            &&& tokens_in(lines) is Ok && text::trimmed(line).len() > 0 && (parts.len() != 2
                || integer(parts[1]) is None) ==> (tokens_in(lines.push(line)) matches Err(e)
                && search::has_text(e, search::decimal((lines.len() + 1) as nat)))
        }),
{
    assert(lines.push(line).drop_last() =~= lines);
    assert(lines.push(line).last() == line);
    let parts = search::words_of(text::trimmed(line));
    if tokens_in(lines) is Ok && text::trimmed(line).len() > 0 && (parts.len() != 2 || integer(
        parts[1],
    ) is None) {
        let e = tokens_in(lines.push(line))->Err_0;
        let head = "tokens.txt 第 "@;
        let at = search::decimal((lines.len() + 1) as nat);
        assert(e.subrange(head.len() as int, (head.len() + at.len()) as int) =~= at);
        assert(search::occurs_at(e, at, head.len() as int));
    }
}

/// A line of a dictionary adds its word, in upper case, with all phonemes that
/// stand behind it; an empty one adds nothing, and any other is reported with the
/// place where it stands.
pub proof fn law_dictionaries_are_read_line_by_line(lines: Seq<Seq<char>>, line: Seq<char>)
    ensures
        words_in(lines) is Ok && text::trimmed(line).len() == 0 ==> words_in(lines.push(line))
            == words_in(lines),
        words_in(lines) is Err ==> words_in(lines.push(line)) == words_in(lines),
        ({
            let parts = search::words_of(text::trimmed(line));
            &&& words_in(lines) is Ok && parts.len() >= 2 && text::trimmed(line).len() > 0 ==> (
            words_in(lines.push(line)) matches Ok(m) && m == words_in(lines)->Ok_0.insert(
                text::uppercase_text(parts[0]),
                parts.skip(1),
            ))
            &&& words_in(lines) is Ok && text::trimmed(line).len() > 0 && parts.len() < 2 ==> (
            words_in(lines.push(line)) matches Err(e) && search::has_text(
                e,
                search::decimal((lines.len() + 1) as nat),
            ))
        }),
{
    assert(lines.push(line).drop_last() =~= lines);
    assert(lines.push(line).last() == line);
    let parts = search::words_of(text::trimmed(line));
    if words_in(lines) is Ok && text::trimmed(line).len() > 0 && parts.len() < 2 {
        let e = words_in(lines.push(line))->Err_0;
        let head = "en.phone 第 "@;
        let at = search::decimal((lines.len() + 1) as nat);
        assert(e.subrange(head.len() as int, (head.len() + at.len()) as int) =~= at);
        assert(search::occurs_at(e, at, head.len() as int));
    }
}

/// The table keeps what stands under a single character, as it stands there,
/// and nothing else; a text that cannot be read is reported with the reason.
pub proof fn law_tables_keep_single_characters(
    m: Map<Seq<char>, Seq<Seq<char>>>,
    k: Seq<char>,
    e: Seq<char>,
)
    ensures
        k.len() == 1 && m.contains_key(k) ==> (pinyin_table(Ok(m)) matches Ok(t)
            && t.contains_key(k) && t[k] == m[k]),
        k.len() != 1 ==> (pinyin_table(Ok(m)) matches Ok(t) ==> !t.contains_key(k)),
        (forall|x: Seq<char>| #[trigger] m.contains_key(x) ==> x.len() != 1) ==> pinyin_table(Ok(m))
            is Err,
        pinyin_table(Err(e)) matches Err(x) && search::occurs_at(x, e, x.len() - e.len()),
{
    let t = single_characters(m);
    if k.len() == 1 && m.contains_key(k) {
        assert(t.dom().contains(k));
        assert(!t.is_empty());
    }
    if forall|x: Seq<char>| #[trigger] m.contains_key(x) ==> x.len() != 1 {
        assert(t.dom() =~= Set::empty());
    }
    let x = "cjk_ppinyin.json 解析失败: "@ + e;
    assert(x.subrange(x.len() - e.len(), x.len() as int) =~= e);
}

} // verus!
