//! The channel on which the control layer tells the hashing workers to stop.
//!
//! The channel holds one message at most. One `Stop` is enough to halt the
//! workers, so a second one finds the channel full and is dropped; and a
//! `Stop` that nobody took is thrown away when the next session starts, so
//! that it cannot halt that session.

use crossbeam_channel::{Receiver, Sender};
use vstd::prelude::*;

verus! {

/// `crossbeam_channel::Sender`, the sending end of a channel. Nothing is
/// known of what is inside.
#[verifier::external_type_specification]
#[verifier::external_body]
#[verifier::reject_recursive_types(T)]
pub struct ExSender<T>(Sender<T>);

/// `crossbeam_channel::Receiver`, the receiving end of a channel. Nothing
/// is known of what is inside.
#[verifier::external_type_specification]
#[verifier::external_body]
#[verifier::reject_recursive_types(T)]
pub struct ExReceiver<T>(Receiver<T>);

/// What the control layer can tell the workers.
#[derive(Clone, Copy, Debug, PartialEq, Eq, Structural)]
pub enum MiningDataChannelMessage {
    Stop,
}

/// How many messages the channel of a session holds at most.
pub const CHANNEL_CAPACITY: usize = 1;

/// `sender` and `receiver` are the two ends of one channel, and no other
/// end of that channel is in use: what the channel holds changes through
/// these two alone.
pub uninterp spec fn channel_ends(
    sender: Sender<MiningDataChannelMessage>,
    receiver: Receiver<MiningDataChannelMessage>,
) -> bool;

/// The messages that wait in the channel behind `receiver`, the oldest first.
pub uninterp spec fn channel_messages(receiver: Receiver<MiningDataChannelMessage>) -> Seq<
    MiningDataChannelMessage,
>;

/// The number of messages that the channel behind `receiver` was made to
/// hold.
pub uninterp spec fn channel_capacity(receiver: Receiver<MiningDataChannelMessage>) -> nat;

/// `crossbeam_channel::bounded`. Taken on trust: the two ends it returns
/// are the ends of one new channel, which nothing else holds; the channel
/// is empty and holds `cap` messages at most. (With `cap` zero it would
/// make a channel that holds nothing, and with a huge `cap` it panics:
/// both are left out.)
#[verifier::external_body]
fn bounded(cap: usize) -> (ends: (
    Sender<MiningDataChannelMessage>,
    Receiver<MiningDataChannelMessage>,
))
    requires
        0 < cap <= u16::MAX,
    ensures
        channel_ends(ends.0, ends.1),
        channel_messages(ends.1) == Seq::<MiningDataChannelMessage>::empty(),
        channel_capacity(ends.1) == cap,
{
    crossbeam_channel::bounded(cap)
}

/// `Sender::try_send` on the sending end. Taken on trust: it puts `msg`
/// behind the messages that wait, unless as many wait as the channel holds;
/// then nothing changes. The result says whether it put it there. It
/// never waits.
#[verifier::external_body]
fn try_send(
    ends: &mut (Sender<MiningDataChannelMessage>, Receiver<MiningDataChannelMessage>),
    msg: MiningDataChannelMessage,
) -> (sent: bool)
    requires
        channel_ends(old(ends).0, old(ends).1),
    ensures
        channel_ends(final(ends).0, final(ends).1),
        channel_capacity(final(ends).1) == channel_capacity(old(ends).1),
        sent == (channel_messages(old(ends).1).len() < channel_capacity(old(ends).1)),
        channel_messages(final(ends).1) == if sent {
            channel_messages(old(ends).1).push(msg)
        } else {
            channel_messages(old(ends).1)
        },
{
    ends.0.try_send(msg).is_ok()
}

/// `Receiver::try_recv` on the receiving end. Taken on trust: it takes the
/// oldest message that waits out of the channel and returns it; where none
/// waits it returns `None` and nothing changes. It never waits.
#[verifier::external_body]
fn try_recv(
    ends: &mut (Sender<MiningDataChannelMessage>, Receiver<MiningDataChannelMessage>),
) -> (msg: Option<MiningDataChannelMessage>)
    requires
        channel_ends(old(ends).0, old(ends).1),
    ensures
        channel_ends(final(ends).0, final(ends).1),
        channel_capacity(final(ends).1) == channel_capacity(old(ends).1),
        msg == next_message(channel_messages(old(ends).1)),
        channel_messages(final(ends).1) == after_take(channel_messages(old(ends).1)),
{
    ends.1.try_recv().ok()
}

/// The message that a worker gets when it looks into a channel that holds
/// `pending`.
pub open spec fn next_message(pending: Seq<MiningDataChannelMessage>) -> Option<
    MiningDataChannelMessage,
> {
    if pending.len() > 0 {
        Some(pending[0])
    } else {
        None
    }
}

/// What a channel that held `pending` holds after a worker has looked into
/// it.
pub open spec fn after_take(pending: Seq<MiningDataChannelMessage>) -> Seq<
    MiningDataChannelMessage,
> {
    if pending.len() > 0 {
        pending.drop_first()
    } else {
        pending
    }
}

/// What a channel that held `pending` holds after the control layer has
/// asked the workers to stop. Without a channel there is nothing to hold.
pub open spec fn after_stop(open: bool, pending: Seq<MiningDataChannelMessage>) -> Seq<
    MiningDataChannelMessage,
> {
    if open && pending.len() < CHANNEL_CAPACITY {
        pending.push(MiningDataChannelMessage::Stop)
    } else {
        pending
    }
}

/// What the channel of a session holds when the session starts: nothing,
/// whatever it held before.
pub open spec fn after_start(pending: Seq<MiningDataChannelMessage>) -> Seq<
    MiningDataChannelMessage,
> {
    Seq::empty()
}

/// The two ends of the channel between the control layer and the workers,
/// once a session has made it.
pub struct MiningDataChannelResource {
    receiver: Option<Receiver<MiningDataChannelMessage>>,
    sender: Option<Sender<MiningDataChannelMessage>>,
}

impl MiningDataChannelResource {
    /// Both ends are there or neither is; they are the ends of one channel,
    /// which holds one message at most.
    #[verifier::type_invariant]
    closed spec fn inv(self) -> bool {
        match (self.sender, self.receiver) {
            (Some(sender), Some(receiver)) => {
                &&& channel_ends(sender, receiver)
                &&& channel_capacity(receiver) == CHANNEL_CAPACITY
                &&& channel_messages(receiver).len() <= CHANNEL_CAPACITY
            },
            (None, None) => true,
            _ => false,
        }
    }

    /// A session has made the channel.
    pub closed spec fn is_open(self) -> bool {
        self.receiver is Some
    }

    /// The messages that wait for the workers, the oldest first.
    pub closed spec fn pending(self) -> Seq<MiningDataChannelMessage> {
        match self.receiver {
            Some(receiver) => channel_messages(receiver),
            None => Seq::empty(),
        }
    }

    /// No channel yet.
    pub fn new() -> (r: Self)
        ensures
            !r.is_open(),
            r.pending() == Seq::<MiningDataChannelMessage>::empty(),
    {
        MiningDataChannelResource { receiver: None, sender: None }
    }

    /// Whether a session has made the channel.
    pub fn has_channel(&self) -> (open: bool)
        ensures
            open == self.is_open(),
    {
        self.receiver.is_some()
    }

    /// Takes the two ends out, if they are there, and leaves none.
    fn take_ends(&mut self) -> (ends: Option<
        (Sender<MiningDataChannelMessage>, Receiver<MiningDataChannelMessage>),
    >)
        ensures
            !final(self).is_open(),
            match ends {
                Some(ends) => {
                    &&& old(self).is_open()
                    &&& old(self).pending() == channel_messages(ends.1)
                    &&& channel_ends(ends.0, ends.1)
                    &&& channel_capacity(ends.1) == CHANNEL_CAPACITY
                    &&& channel_messages(ends.1).len() <= CHANNEL_CAPACITY
                },
                None => !old(self).is_open(),
            },
    {
        proof {
            use_type_invariant(&*self);
        }
        let mut taken = MiningDataChannelResource { receiver: None, sender: None };
        core::mem::swap(self, &mut taken);
        let MiningDataChannelResource { receiver, sender } = taken;
        match (sender, receiver) {
            (Some(sender), Some(receiver)) => Some((sender, receiver)),
            _ => None,
        }
    }

    /// Puts the two ends of a channel in.
    fn put_ends(
        &mut self,
        ends: (Sender<MiningDataChannelMessage>, Receiver<MiningDataChannelMessage>),
    )
        requires
            channel_ends(ends.0, ends.1),
            channel_capacity(ends.1) == CHANNEL_CAPACITY,
            channel_messages(ends.1).len() <= CHANNEL_CAPACITY,
        ensures
            final(self).is_open(),
            final(self).pending() == channel_messages(ends.1),
    {
        *self = MiningDataChannelResource { receiver: Some(ends.1), sender: Some(ends.0) };
    }

    /// Prepares the channel for a new session: makes it if it is not there,
    /// and throws away what waits in it.
    pub fn start(&mut self)
        ensures
            final(self).is_open(),
            final(self).pending() == after_start(old(self).pending()),
            final(self).pending().len() <= CHANNEL_CAPACITY,
    {
        let mut ends = match self.take_ends() {
            Some(ends) => ends,
            None => bounded(CHANNEL_CAPACITY),
        };
        loop
            invariant
                channel_ends(ends.0, ends.1),
                channel_capacity(ends.1) == CHANNEL_CAPACITY,
                channel_messages(ends.1).len() <= CHANNEL_CAPACITY,
            ensures
                channel_ends(ends.0, ends.1),
                channel_capacity(ends.1) == CHANNEL_CAPACITY,
                channel_messages(ends.1).len() == 0,
            decreases channel_messages(ends.1).len(),
        {
            if try_recv(&mut ends).is_none() {
                break;
            }
        }
        self.put_ends(ends);
    }

    /// Asks the workers to stop. Where a `Stop` already waits, or no session
    /// has made the channel, nothing changes.
    pub fn stop(&mut self)
        ensures
            final(self).is_open() == old(self).is_open(),
            final(self).pending() == after_stop(old(self).is_open(), old(self).pending()),
            final(self).pending().len() <= CHANNEL_CAPACITY,
    {
        if let Some(mut ends) = self.take_ends() {
            let _ = try_send(&mut ends, MiningDataChannelMessage::Stop);
            self.put_ends(ends);
        }
    }

    /// A worker looks for a message: takes the oldest that waits, if one
    /// does.
    pub fn try_recv(&mut self) -> (msg: Option<MiningDataChannelMessage>)
        ensures
            final(self).is_open() == old(self).is_open(),
            msg == next_message(old(self).pending()),
            final(self).pending() == after_take(old(self).pending()),
            final(self).pending().len() <= CHANNEL_CAPACITY,
    {
        match self.take_ends() {
            Some(mut ends) => {
                let msg = try_recv(&mut ends);
                self.put_ends(ends);
                msg
            },
            None => None,
        }
    }
}

/// To ask twice is to ask once: while no worker has looked into the channel,
/// a second `stop` changes nothing.
pub proof fn lemma_stop_twice_is_stop_once(open: bool, pending: Seq<MiningDataChannelMessage>)
    ensures
        after_stop(open, after_stop(open, pending)) == after_stop(open, pending),
{
}

/// A `Stop` that no worker took does not reach the next session: after
/// `stop` and then `start`, a worker that looks into the channel finds
/// nothing.
pub proof fn lemma_start_drops_stale_stop(open: bool, pending: Seq<MiningDataChannelMessage>)
    ensures
        next_message(after_start(after_stop(open, pending))) is None,
{
}

} // verus!
