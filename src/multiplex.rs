use vstd::prelude::*;

use crate::connection::ConnectionError;

verus! {

/// One of the two inputs of the merge loop.
#[derive(Clone, Copy, Debug, PartialEq, Eq, Structural)]
pub enum Source {
    /// Frames from the local producer.
    Local,
    /// Input events from the connection.
    Remote,
}

/// What the merge loop observed on the source it took from.
#[derive(Clone, Debug, PartialEq, Eq)]
pub enum Event<F, E> {
    /// The producer finished a frame.
    Frame(F),
    /// The producer's queue is closed for good.
    LocalEnded,
    /// The connection delivered an input event.
    Input(E),
    /// The connection ended.
    RemoteClosed,
    /// Writing a frame to the connection failed.
    SendFailed,
}

/// What the merge loop does next.
#[derive(Clone, Debug, PartialEq, Eq)]
pub enum Action<F, E> {
    /// Send this frame over the connection.
    Transmit(F),
    /// Hand this input event to the application.
    Deliver(E),
    /// Stop the loop in an orderly way.
    Shutdown,
    /// Stop the loop and report this error.
    Fail(ConnectionError),
}

/// Which source is taken when `local` and `remote` are ready and the loop
/// currently prefers the remote one if `prefer_remote`.
pub open spec fn pick_spec(prefer_remote: bool, local: bool, remote: bool) -> Option<Source> {
    if local && remote {
        if prefer_remote { Some(Source::Remote) } else { Some(Source::Local) }
    } else if remote {
        Some(Source::Remote)
    } else if local {
        Some(Source::Local)
    } else {
        None
    }
}

/// The preference after a pick: the source not just taken.
pub open spec fn prefer_after(prefer_remote: bool, picked: Option<Source>) -> bool {
    match picked {
        Some(Source::Local) => true,
        Some(Source::Remote) => false,
        None => prefer_remote,
    }
}

/// The decisions of the loop that merges locally produced frames with the
/// connection's input events: which ready source to take, and what to do
/// with what it gave.
#[derive(Clone, Copy, Debug, PartialEq, Eq, Structural)]
pub struct Multiplexer {
    pub prefer_remote: bool,
    pub stopped: bool,
}

impl Multiplexer {
    pub fn new() -> (r: Multiplexer)
        ensures
            !r.stopped,
            !r.prefer_remote,
    {
        Multiplexer { prefer_remote: false, stopped: false }
    }

    /// Chooses the source to take from, given which ones have a value ready.
    /// When both are ready the sources take turns, so neither starves.
    pub fn pick(&mut self, local_ready: bool, remote_ready: bool) -> (r: Option<Source>)
        ensures
            r == pick_spec(old(self).prefer_remote, local_ready, remote_ready),
            final(self).prefer_remote == prefer_after(old(self).prefer_remote, r),
            final(self).stopped == old(self).stopped,
    {
        let r = if local_ready && remote_ready {
            if self.prefer_remote { Some(Source::Remote) } else { Some(Source::Local) }
        } else if remote_ready {
            Some(Source::Remote)
        } else if local_ready {
            Some(Source::Local)
        } else {
            None
        };
        match r {
            Some(Source::Local) => {
                self.prefer_remote = true;
            },
            Some(Source::Remote) => {
                self.prefer_remote = false;
            },
            None => {},
        }
        r
    }

    /// Decides what to do with what a source gave. Frames go out, input
    /// events go to the application unchanged, the end of either source
    /// stops the loop, and a failed send stops it with a transport error.
    /// Once stopped, the loop stays stopped.
    pub fn handle<F, E>(&mut self, event: Event<F, E>) -> (r: Action<F, E>)
        ensures
            final(self).prefer_remote == old(self).prefer_remote,
            old(self).stopped ==> final(self).stopped && r is Shutdown,
            !old(self).stopped ==> match event {
                Event::Frame(f) => r == Action::<F, E>::Transmit(f) && !final(self).stopped,
                Event::Input(e) => r == Action::<F, E>::Deliver(e) && !final(self).stopped,
                Event::LocalEnded => r is Shutdown && final(self).stopped,
                Event::RemoteClosed => r is Shutdown && final(self).stopped,
                Event::SendFailed => r == Action::<F, E>::Fail(ConnectionError::TransportError)
                    && final(self).stopped,
            },
    {
        if self.stopped {
            return Action::Shutdown;
        }
        match event {
            Event::Frame(f) => Action::Transmit(f),
            Event::Input(e) => Action::Deliver(e),
            Event::LocalEnded => {
                self.stopped = true;
                Action::Shutdown
            },
            Event::RemoteClosed => {
                self.stopped = true;
                Action::Shutdown
            },
            Event::SendFailed => {
                self.stopped = true;
                Action::Fail(ConnectionError::TransportError)
            },
        }
    }
}

/// While the remote source stays ready, it is taken within two picks,
/// whatever the local source does and whatever the loop preferred before.
pub proof fn lemma_remote_not_starved(prefer_remote: bool, local1: bool, local2: bool)
    ensures
        pick_spec(prefer_remote, local1, true) == Some(Source::Remote) || pick_spec(
            prefer_after(prefer_remote, pick_spec(prefer_remote, local1, true)),
            local2,
            true,
        ) == Some(Source::Remote),
{
}

/// While the local source stays ready, it is taken within two picks,
/// whatever the remote source does and whatever the loop preferred before.
pub proof fn lemma_local_not_starved(prefer_remote: bool, remote1: bool, remote2: bool)
    ensures
        pick_spec(prefer_remote, true, remote1) == Some(Source::Local) || pick_spec(
            prefer_after(prefer_remote, pick_spec(prefer_remote, true, remote1)),
            true,
            remote2,
        ) == Some(Source::Local),
{
}

/// Offer on a hand-off holding `s`: whether it was accepted, and what the
/// queue holds after.
pub open spec fn offer_spec<T>(s: Option<T>, item: T) -> (bool, Option<T>) {
    if s is None {
        (true, Some(item))
    } else {
        (false, s)
    }
}

/// A hand-off queue of capacity one between a producer and a consumer: an
/// offer succeeds only while it is empty, so a producer whose offer is
/// turned down waits until the consumer has taken the pending item.
#[derive(Clone, Debug)]
pub struct HandOff<T> {
    slot: Option<T>,
}

impl<T> View for HandOff<T> {
    type V = Option<T>;

    closed spec fn view(&self) -> Option<T> {
        self.slot
    }
}

impl<T> HandOff<T> {
    pub fn new() -> (r: HandOff<T>)
        ensures
            r@ is None,
    {
        HandOff { slot: None }
    }

    pub fn is_full(&self) -> (r: bool)
        ensures
            r == self@ is Some,
    {
        self.slot.is_some()
    }

    /// Puts `item` in the queue if it is empty; otherwise gives it back
    /// and leaves the pending item in place.
    pub fn offer(&mut self, item: T) -> (r: Result<(), T>)
        ensures
            (r is Ok, final(self)@) == offer_spec(old(self)@, item),
            old(self)@ is None ==> r is Ok && final(self)@ == Some(item),
            old(self)@ is Some ==> r == Err::<(), T>(item) && final(self)@ == old(self)@,
    {
        if self.slot.is_some() {
            Err(item)
        } else {
            self.slot = Some(item);
            Ok(())
        }
    }

    /// Takes the pending item, if there is one, and empties the queue.
    pub fn take(&mut self) -> (r: Option<T>)
        ensures
            r == old(self)@,
            final(self)@ is None,
    {
        self.slot.take()
    }
}

/// Two frames offered back to back on an empty hand-off: the second offer is
/// turned down until the consumer has taken the first; the consumer then sees
/// the first, and after the producer's second try, the second, nothing else.
pub proof fn lemma_hand_off_order<T>(a: T, b: T)
    ensures
        ({
            let (ok1, s1) = offer_spec(None, a);
            let (ok2, s2) = offer_spec(s1, b);
            let first = s2;
            let (ok3, s3) = offer_spec(None, b);
            ok1 && !ok2 && first == Some(a) && ok3 && s3 == Some(b)
        }),
{
}

} // verus!
