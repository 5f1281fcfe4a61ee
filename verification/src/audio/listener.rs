//! When the wake word engine is fed, and when a wake word counts as heard.
//!
//! The engine takes frames of eighty milliseconds. A short word may be the
//! beginning of a longer one, so that after the first word there is a pause of
//! fixed length, and the longest word in it counts.
use crate::text;
use crate::wakeword::words;
use crate::wakeword::words::WakeWord;
use vstd::prelude::*;

verus! {

/// The samples of a frame.
pub const FRAME_SAMPLES: u64 = 1280;

/// How long a longer word is waited for.
pub const DEBOUNCE_MS: u64 = 800;

/// So many samples after a word, the engine listens again.
pub const SAMPLES_AFTER_WORD: u64 = 16_000;

/// Positions stay below this one.
pub open spec fn far() -> int {
    u64::MAX - 100_000
}

/// A word that waits to be reported: where it ended, and since when it waits.
#[derive(Debug)]
pub struct PendingWord {
    pub word: WakeWord,
    pub position: u64,
    pub since: u64,
}

/// Where the next frame begins, and the word that waits.
#[derive(Debug)]
pub struct WakeListener {
    pub next_frame: u64,
    pub pending: Option<PendingWord>,
}

/// What a [`PendingWord`] stands for.
#[verifier::ext_equal]
pub struct Waiting {
    pub word: words::Word,
    pub position: u64,
    pub since: u64,
}

/// What a [`WakeListener`] stands for.
#[verifier::ext_equal]
pub struct Ear {
    pub next_frame: u64,
    pub pending: Option<Waiting>,
}

impl View for WakeListener {
    type V = Ear;

    open spec fn view(&self) -> Ear {
        Ear {
            next_frame: self.next_frame,
            pending: match self.pending {
                Some(p) => Some(
                    Waiting { word: p.word@, position: p.position, since: p.since },
                ),
                None => None,
            },
        }
    }
}

/// What is to be done next.
#[derive(Debug)]
pub enum WakeNext {
    /// The word counts; the engine is to be set back.
    Report { word: WakeWord, position: u64 },
    /// There are not enough samples yet.
    Sleep,
    /// The engine is to be fed the samples from `start` up to `end`.
    Feed { start: u64, end: u64 },
}

pub open spec fn elapsed_ms(since: u64, now: u64) -> int {
    if now < since {
        0
    } else {
        (now - since) / 1_000_000
    }
}

/// The pause after the first word is over.
pub open spec fn due(e: Ear, now: u64) -> bool {
    e.pending is Some && elapsed_ms(e.pending->0.since, now) >= DEBOUNCE_MS
}

/// How many bytes a character takes in UTF-8.
pub open spec fn utf8_width(c: char) -> nat {
    if c <= '\u{7f}' {
        1
    } else if c <= '\u{7ff}' {
        2
    } else if c <= '\u{ffff}' {
        3
    } else {
        4
    }
}

pub open spec fn utf8_length(s: Seq<char>) -> nat
    decreases s.len(),
{
    if s.len() == 0 {
        0
    } else {
        utf8_length(s.drop_last()) + utf8_width(s.last())
    }
}

fn width(c: char) -> (r: u64)
    ensures
        r == utf8_width(c),
{
    if c <= '\u{7f}' {
        1
    } else if c <= '\u{7ff}' {
        2
    } else if c <= '\u{ffff}' {
        3
    } else {
        4
    }
}

/// Whether the first text takes more bytes than the second.
fn longer(a: &str, b: &str) -> (r: bool)
    requires
        a@.len() <= u64::MAX / 4,
        b@.len() <= u64::MAX / 4,
    ensures
        r == (utf8_length(a@) > utf8_length(b@)),
{
    byte_length(a) > byte_length(b)
}

fn byte_length(s: &str) -> (r: u64)
    requires
        s@.len() <= u64::MAX / 4,
    ensures
        r == utf8_length(s@),
{
    let cs = text::chars_of(s);
    let mut n: u64 = 0;
    for i in 0..cs.len()
        invariant
            cs@ == s@,
            s@.len() <= u64::MAX / 4,
            n == utf8_length(s@.take(i as int)),
            n <= 4 * i,
    {
        assert(s@.take(i + 1).drop_last() == s@.take(i as int));
        n += width(cs[i]);
    }
    assert(s@.take(s@.len() as int) == s@);
    n
}

/// Words of a length that can be measured.
pub open spec fn measurable(w: words::Word) -> bool {
    w.text.len() <= u64::MAX / 4
}

/// After a frame: a first word begins the pause, a longer one takes its place
/// without making the pause any longer, and any other is passed over.
pub open spec fn after_frame(e: Ear, end: u64, heard: Option<words::Word>, now: u64) -> Ear {
    let next = Ear { next_frame: end, ..e };
    match heard {
        None => next,
        Some(w) => match e.pending {
            None => Ear { pending: Some(Waiting { word: w, position: end, since: now }), ..next },
            Some(p) => if utf8_length(w.text) > utf8_length(p.word.text) {
                Ear { pending: Some(Waiting { word: w, position: end, since: p.since }), ..next }
            } else {
                next
            },
        },
    }
}

pub open spec fn back_by(position: u64, n: u64) -> u64 {
    if position < n {
        0
    } else {
        (position - n) as u64
    }
}

/// A listener that lags behind by more than two frames goes on at the last one.
pub open spec fn caught_up(e: Ear, position: u64) -> Ear {
    if back_by(position, e.next_frame) > 2 * FRAME_SAMPLES {
        Ear { next_frame: back_by(position, FRAME_SAMPLES), ..e }
    } else {
        e
    }
}

impl WakeListener {
    /// Positions are such that a frame and a pause can be added to them.
    pub open spec fn wf(self) -> bool {
        self.next_frame <= far() + SAMPLES_AFTER_WORD && (self.pending is Some
            ==> self.pending->0.position <= far() && measurable(self.pending->0.word@))
    }

    pub fn new() -> (r: Self)
        ensures
            r.wf(),
            r@ == (Ear { next_frame: 0, pending: None }),
    {
        WakeListener { next_frame: 0, pending: None }
    }

    /// What is to be done next, when the buffer has come to `position`.
    pub fn next(&mut self, position: u64, now: u64) -> (r: WakeNext)
        requires
            old(self).wf(),
        ensures
            final(self).wf(),
            due(old(self)@, now) ==> {
                let p = old(self)@.pending->0;
                &&& r matches WakeNext::Report { word, position } && word@ == p.word && position
                    == p.position
                &&& final(self)@ == (Ear {
                    next_frame: (p.position + SAMPLES_AFTER_WORD) as u64,
                    pending: None,
                })
            },
            !due(old(self)@, now) ==> {
                &&& final(self)@ == old(self)@
                &&& position < old(self)@.next_frame + FRAME_SAMPLES ==> r is Sleep
                &&& position >= old(self)@.next_frame + FRAME_SAMPLES ==> (r matches WakeNext::Feed {
                    start,
                    end,
                } && start == old(self)@.next_frame && end == start + FRAME_SAMPLES)
            },
    {
        let over = match &self.pending {
            Some(p) => (if now < p.since {
                0
            } else {
                (now - p.since) / 1_000_000
            }) >= DEBOUNCE_MS,
            None => false,
        };
        if over {
            let mut taken: Option<PendingWord> = None;
            std::mem::swap(&mut taken, &mut self.pending);
            if let Some(p) = taken {
                self.next_frame = p.position + SAMPLES_AFTER_WORD;
                return WakeNext::Report { word: p.word, position: p.position };
            }
        }
        let end: u64 = self.next_frame + FRAME_SAMPLES;
        if position < end {
            WakeNext::Sleep
        } else {
            WakeNext::Feed { start: self.next_frame, end }
        }
    }

    /// The frame has been overwritten: the listener goes on at the last one.
    pub fn frame_lost(&mut self, position: u64)
        requires
            old(self).wf(),
            position <= far(),
        ensures
            final(self).wf(),
            final(self)@ == (Ear {
                next_frame: back_by(position, FRAME_SAMPLES),
                ..old(self)@
            }),
    {
        self.next_frame = if position < FRAME_SAMPLES {
            0
        } else {
            position - FRAME_SAMPLES
        };
    }

    /// The frame up to `end` was fed to the engine, which heard `word`, or nothing.
    pub fn frame_fed(&mut self, end: u64, word: Option<WakeWord>, position: u64, now: u64)
        requires
            old(self).wf(),
            end <= far(),
            position <= far(),
            word is Some ==> measurable(word->0@),
        ensures
            final(self).wf(),
            match word {
                Some(w) => final(self)@ == after_frame(old(self)@, end, Some(w@), now),
                None => final(self)@ == caught_up(
                    after_frame(old(self)@, end, None, now),
                    position,
                ),
            },
    {
        self.next_frame = end;
        match word {
            Some(w) => {
                let since = match &self.pending {
                    None => Some(now),
                    Some(p) => {
                        if longer(&w.text, &p.word.text) {
                            Some(p.since)
                        } else {
                            None
                        }
                    },
                };
                if let Some(since) = since {
                    self.pending = Some(PendingWord { word: w, position: end, since });
                }
            },
            None => {
                let lag: u64 = if position < end {
                    0
                } else {
                    position - end
                };
                if lag > FRAME_SAMPLES * 2 {
                    self.frame_lost(position);
                }
            },
        }
    }
}

/// The pause is never drawn out: whatever is heard in it, the word that counts
/// is reported a fixed time after the first.
pub proof fn law_pause_has_fixed_length(e: Ear, end: u64, heard: Option<words::Word>, now: u64)
    requires
        e.pending is Some,
    ensures
        after_frame(e, end, heard, now).pending matches Some(p) && p.since == e.pending->0.since,
{
}

/// The word that waits is the longest one heard so far, and of equally long
/// ones the first.
pub proof fn law_longest_word_counts(e: Ear, end: u64, w: words::Word, now: u64)
    ensures
        after_frame(e, end, Some(w), now).pending matches Some(p) && {
            &&& utf8_length(p.word.text) >= utf8_length(w.text)
            &&& e.pending is Some ==> utf8_length(p.word.text) >= utf8_length(
                e.pending->0.word.text,
            )
            &&& e.pending is Some && utf8_length(w.text) <= utf8_length(e.pending->0.word.text)
                ==> p == e.pending->0
        },
{
}

/// The first word that is heard waits from then on; a word that takes more room
/// takes its place, with its own end, and any other changes nothing. Listening
/// goes on behind the frame.
pub proof fn law_words_wait_for_longer_ones(e: Ear, end: u64, w: words::Word, now: u64)
    ensures
        after_frame(e, end, Some(w), now).next_frame == end,
        after_frame(e, end, None, now).next_frame == end,
        after_frame(e, end, None, now).pending == e.pending,
        e.pending is None ==> (after_frame(e, end, Some(w), now).pending matches Some(p) && p.word
            == w && p.position == end && p.since == now),
        e.pending is Some && utf8_length(w.text) > utf8_length(e.pending->0.word.text) ==> (
        after_frame(e, end, Some(w), now).pending matches Some(p) && p.word == w && p.position
            == end),
{
}

/// A word takes more room than any that it goes on from.
pub proof fn law_longer_words_take_more_room(word: Seq<char>, more: Seq<char>)
    ensures
        utf8_length(word + more) == utf8_length(word) + utf8_length(more),
        more.len() > 0 ==> utf8_length(word + more) > utf8_length(word),
        more.len() <= utf8_length(more) <= 4 * more.len(),
    decreases more.len(),
{
    if more.len() == 0 {
        assert(word + more =~= word);
    } else {
        law_longer_words_take_more_room(word, more.drop_last());
        assert((word + more).drop_last() =~= word + more.drop_last());
    }
}

/// A word counts once eight tenths of a second have gone by since the first.
pub proof fn law_words_count_after_the_pause(e: Ear, now: u64, since: u64)
    requires
        e.pending is Some,
        e.pending->0.since == since,
        since <= now,
    ensures
        due(e, now) <==> now >= since + 800_000_000,
{
}

/// A listener more than two frames behind goes on at the last whole frame; any
/// other goes on where it is. The word that waits goes on waiting.
pub proof fn law_laggards_catch_up(e: Ear, position: u64)
    ensures
        caught_up(e, position).pending == e.pending,
        position - e.next_frame > 2560 ==> caught_up(e, position).next_frame == position - 1280,
        position - e.next_frame <= 2560 ==> caught_up(e, position) == e,
{
}

} // verus!
