//! What the engine that spots words is loaded with, and how long it may decode.
use crate::config::sections::WakewordConfig;
use crate::search;
use crate::wakeword::text2token;
use crate::wakeword::text2token::Text2Token;
use crate::wakeword::words;
use crate::wakeword::words::{resolve_keywords, WakeWord};
use vstd::prelude::*;

verus! {

/// A file of the model.
#[derive(Debug)]
pub struct ModelFile {
    pub name: String,
    pub path: String,
    pub exists: bool,
}

/// What is said of the first file that is missing.
pub open spec fn complaint(files: Seq<ModelFile>) -> Option<Seq<char>>
    decreases files.len(),
{
    if files.len() == 0 {
        None
    } else {
        match complaint(files.drop_last()) {
            Some(c) => Some(c),
            None => {
                let f = files.last();
                if f.exists {
                    None
                } else {
                    Some("模型文件缺失："@ + f.path@ + "（"@ + f.name@ + "）"@)
                }
            },
        }
    }
}

/// Checks that the files of the model are there.
pub fn check_model(files: &Vec<ModelFile>) -> (r: Result<(), String>)
    ensures
        match complaint(files@) {
            Some(c) => r is Err && r->Err_0@ == c,
            None => r is Ok,
        },
{
    let mut result: Result<(), String> = Ok(());
    for i in 0..files.len()
        invariant
            match complaint(files@.take(i as int)) {
                Some(c) => result is Err && result->Err_0@ == c,
                None => result is Ok,
            },
    {
        assert(files@.take(i + 1).drop_last() == files@.take(i as int));
        if result.is_ok() && !files[i].exists {
            let mut m = search::concat("模型文件缺失：", &files[i].path);
            m.append("（");
            m.append(&files[i].name);
            m.append("）");
            result = Err(m);
        }
    }
    assert(files@.take(files@.len() as int) == files@);
    result
}

/// What the engine is loaded with.
#[derive(Debug)]
pub struct EnginePlan {
    pub table: Vec<(String, WakeWord)>,
    /// The keywords, one line each.
    pub keywords: String,
}

/// Words that stand for themselves.
pub open spec fn labelled(v: Seq<words::Word>) -> Seq<(Seq<char>, Seq<char>)> {
    v.map_values(|w: words::Word| (w.text, w.text))
}

/// Plans the engine for the words of a configuration. One that cannot be spoken
/// is enough for none to be spotted.
pub fn create_engine(cfg: &WakewordConfig, t2t: &Text2Token) -> (r: Result<EnginePlan, String>)
    ensures
        match text2token::all_lines(t2t@, labelled(words::configured_words(cfg@))) {
            Ok(lines) => r is Ok && words::keyed(r->Ok_0.table@) == words::configured_words(cfg@)
                && words::under_own_text(r->Ok_0.table@) && r->Ok_0.keywords@ == search::joined(
                lines,
                "\n"@,
            ),
            Err(e) => r is Err && r->Err_0@ == e,
        },
{
    let (table, _) = resolve_keywords(cfg);
    let ghost want = labelled(words::configured_words(cfg@));
    let mut items: Vec<(String, String)> = Vec::new();
    for i in 0..table.len()
        invariant
            words::keyed(table@) == words::configured_words(cfg@),
            words::under_own_text(table@),
            want == labelled(words::configured_words(cfg@)),
            items@.len() == i,
            forall|j: int| 0 <= j < i ==> #[trigger] text2token::pairs(items@)[j] == want[j],
    {
        assert(words::keyed(table@)[i as int] == table@[i as int].1@);
        assert(words::keyed(table@).len() == table@.len());
        let ghost before = text2token::pairs(items@);
        items.push((table[i].0.clone(), table[i].1.text.clone()));
        assert(text2token::pairs(items@) =~= before.push(want[i as int]));
    }
    assert(words::keyed(table@).len() == table@.len());
    assert(text2token::pairs(items@) =~= want);
    match t2t.convert_batch(&items) {
        Ok(lines) => Ok(EnginePlan { table, keywords: search::join(&lines, "\n") }),
        Err(e) => Err(e),
    }
}

/// The engine may decode so often for one frame.
pub const MAX_DECODES: u32 = 500;

/// Counts how often the engine has decoded for one frame.
#[derive(Debug, Clone, Copy, PartialEq, Eq, Structural)]
pub struct Decoding {
    pub done: u32,
}

impl Decoding {
    pub fn new() -> (r: Self)
        ensures
            r.done == 0,
    {
        Decoding { done: 0 }
    }

    /// The engine has decoded once more. Whether it may go on comes back; if
    /// not, it is to be set back, and nothing was heard.
    pub fn decoded(&mut self) -> (r: bool)
        ensures
            r == (old(self).done < MAX_DECODES),
            final(self).done == (if old(self).done < MAX_DECODES {
                (old(self).done + 1) as u32
            } else {
                old(self).done
            }),
    {
        if self.done < MAX_DECODES {
            self.done += 1;
            true
        } else {
            false
        }
    }
}

/// The model is complete exactly when every file is there; else the first that
/// is missing is named, with its path.
pub proof fn law_missing_files_are_named(files: Seq<ModelFile>, i: int)
    ensures
        complaint(files) is None <==> forall|j: int|
            0 <= j < files.len() ==> (#[trigger] files[j]).exists,
        0 <= i < files.len() && !files[i].exists && (forall|j: int|
            0 <= j < i ==> (#[trigger] files[j]).exists) ==> (complaint(files) matches Some(c)
            && search::has_text(c, files[i].path@) && search::has_text(c, files[i].name@)),
    decreases files.len(),
{
    if files.len() > 0 {
        let head = files.drop_last();
        law_missing_files_are_named(head, i);
        assert forall|j: int| 0 <= j < head.len() implies #[trigger] head[j] == files[j] by {}
        let f = files[files.len() - 1];
        if complaint(files) is None {
            assert forall|j: int| 0 <= j < files.len() implies (#[trigger] files[j]).exists by {
                if j < head.len() {
                    assert(head[j] == files[j]);
                }
            }
        }
        if forall|j: int| 0 <= j < files.len() ==> (#[trigger] files[j]).exists {
            assert forall|j: int| 0 <= j < head.len() implies (#[trigger] head[j]).exists by {
                assert(head[j] == files[j]);
            }
            assert(f.exists);
        }
        if 0 <= i < files.len() && !files[i].exists && (forall|j: int|
            0 <= j < i ==> (#[trigger] files[j]).exists) {
            assert forall|j: int| 0 <= j < head.len() && j < i implies (
            #[trigger] head[j]).exists by {
                assert(head[j] == files[j]);
            }
            if i < head.len() {
                assert(head[i] == files[i]);
            } else {
                let c = complaint(files)->0;
                let a = "模型文件缺失："@;
                let b = "（"@;
                assert(c.subrange(a.len() as int, (a.len() + f.path@.len()) as int) =~= f.path@);
                assert(search::occurs_at(c, f.path@, a.len() as int));
                let k = (a.len() + f.path@.len() + b.len()) as int;
                assert(c.subrange(k, k + f.name@.len()) =~= f.name@);
                assert(search::occurs_at(c, f.name@, k));
            }
        }
    }
}

} // verus!
