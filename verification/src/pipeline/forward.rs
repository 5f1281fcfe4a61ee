//! Handing a recording on to a session that may come late.
//!
//! The session is opened in the background, so that the recording may be over
//! before it is there. What is recorded until then is kept, and sent as soon as
//! the session comes.
use vstd::prelude::*;

verus! {

/// What has been recorded but not sent, and whether the session is there.
#[derive(Debug)]
pub struct Forwarder {
    pub held: Vec<Vec<u8>>,
    pub connected: bool,
}

pub open spec fn chunks(v: Seq<Vec<u8>>) -> Seq<Seq<u8>> {
    v.map_values(|c: Vec<u8>| c@)
}

/// What a [`Forwarder`] stands for.
#[verifier::ext_equal]
pub struct Forwarding {
    pub held: Seq<Seq<u8>>,
    pub connected: bool,
}

impl View for Forwarder {
    type V = Forwarding;

    open spec fn view(&self) -> Forwarding {
        Forwarding { held: chunks(self.held@), connected: self.connected }
    }
}

/// What happens to a forwarder.
pub enum Happening {
    Recorded(Seq<u8>),
    Connected,
}

pub open spec fn after(f: Forwarding, h: Happening) -> Forwarding {
    match h {
        Happening::Recorded(c) => if f.connected {
            f
        } else {
            Forwarding { held: f.held.push(c), ..f }
        },
        Happening::Connected => Forwarding { held: Seq::empty(), connected: true },
    }
}

/// What is sent then.
pub open spec fn sent(f: Forwarding, h: Happening) -> Seq<Seq<u8>> {
    match h {
        Happening::Recorded(c) => if f.connected {
            seq![c]
        } else {
            Seq::empty()
        },
        Happening::Connected => f.held,
    }
}

impl Forwarder {
    pub fn new() -> (r: Self)
        ensures
            r@ == (Forwarding { held: Seq::empty(), connected: false }),
    {
        let r = Forwarder { held: Vec::new(), connected: false };
        assert(r@ =~= Forwarding { held: Seq::empty(), connected: false });
        r
    }

    /// Whether the session has still to come.
    pub fn waits(&self) -> (r: bool)
        ensures
            r == !self@.connected,
    {
        !self.connected
    }

    /// Takes what was recorded; what comes back is to be sent.
    pub fn recorded(&mut self, chunk: Vec<u8>) -> (r: Option<Vec<u8>>)
        ensures
            final(self)@ == after(old(self)@, Happening::Recorded(chunk@)),
            match r {
                Some(c) => sent(old(self)@, Happening::Recorded(chunk@)) == seq![c@],
                None => sent(old(self)@, Happening::Recorded(chunk@)).len() == 0,
            },
    {
        if self.connected {
            Some(chunk)
        } else {
            self.held.push(chunk);
            assert(self@ =~= after(old(self)@, Happening::Recorded(chunk@)));
            None
        }
    }

    /// The session is there; what comes back is to be sent, in order.
    pub fn session_arrived(&mut self) -> (r: Vec<Vec<u8>>)
        ensures
            final(self)@ == after(old(self)@, Happening::Connected),
            chunks(r@) == sent(old(self)@, Happening::Connected),
    {
        let mut out: Vec<Vec<u8>> = Vec::new();
        std::mem::swap(&mut out, &mut self.held);
        self.connected = true;
        assert(self@ =~= after(old(self)@, Happening::Connected));
        out
    }
}

// ---------------------------------------------------------------------------
// Laws
// ---------------------------------------------------------------------------

pub open spec fn run(hs: Seq<Happening>) -> Forwarding
    decreases hs.len(),
{
    if hs.len() == 0 {
        Forwarding { held: Seq::empty(), connected: false }
    } else {
        after(run(hs.drop_last()), hs.last())
    }
}

/// Everything that is sent in the course of what happens.
pub open spec fn all_sent(hs: Seq<Happening>) -> Seq<Seq<u8>>
    decreases hs.len(),
{
    if hs.len() == 0 {
        Seq::empty()
    } else {
        all_sent(hs.drop_last()) + sent(run(hs.drop_last()), hs.last())
    }
}

/// Everything that is recorded in the course of what happens.
pub open spec fn all_recorded(hs: Seq<Happening>) -> Seq<Seq<u8>>
    decreases hs.len(),
{
    if hs.len() == 0 {
        Seq::empty()
    } else {
        match hs.last() {
            Happening::Recorded(c) => all_recorded(hs.drop_last()).push(c),
            Happening::Connected => all_recorded(hs.drop_last()),
        }
    }
}

/// Whenever the session comes, early, late or after the recording is over,
/// everything that was recorded is sent, once and in order; until it comes,
/// nothing is.
pub proof fn law_everything_recorded_is_sent(hs: Seq<Happening>)
    ensures
        all_recorded(hs) == all_sent(hs) + run(hs).held,
        run(hs).connected ==> all_sent(hs) == all_recorded(hs),
        !run(hs).connected ==> all_sent(hs).len() == 0,
        run(hs).connected ==> run(hs).held.len() == 0,
    decreases hs.len(),
{
    if hs.len() > 0 {
        law_everything_recorded_is_sent(hs.drop_last());
        let before = run(hs.drop_last());
        assert(all_recorded(hs) =~= all_sent(hs) + run(hs).held);
        if run(hs).connected {
            assert(all_sent(hs) + run(hs).held =~= all_sent(hs));
        }
    }
}

} // verus!
