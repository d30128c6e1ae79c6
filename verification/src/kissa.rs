//! The first plugin interface: plugins receive events and answer through a
//! sender that tags every event with the plugin's ID.

use vstd::prelude::*;

use crossbeam_channel::Sender;

verus! {

/// `crossbeam_channel::Sender`, the sending half of a channel.
#[verifier::external_type_specification]
#[verifier::external_body]
#[verifier::reject_recursive_types(T)]
pub struct ExSender<T>(Sender<T>);

/// `Sender::send`: puts `msg` into the channel, or, where every receiver is
/// gone, hands it back in `SendError(msg)`, whose payload is returned here as
/// the error; on a full bounded channel it waits for room. Which of the two
/// happens depends on the receivers; what is stated is that an error carries
/// the very message that was to be sent.
#[verifier::external_body]
fn channel_send<T>(sender: &Sender<T>, msg: T) -> (res: Result<(), T>)
    ensures
        res matches Err(back) ==> back == msg,
{
    match sender.send(msg) {
        Ok(()) => Ok(()),
        Err(crossbeam_channel::SendError(back)) => Err(back),
    }
}

/// `r` is an answer that the channel of `sender` can give when it is handed
/// `msg` to send: the message went in (`Ok`), or it came back.
pub closed spec fn channel_answered<T>(sender: Sender<T>, msg: T, r: Result<(), T>) -> bool {
    call_ensures(channel_send::<T>, (&sender, msg), r)
}

/// `Sender::clone`: another sender into the same channel. The copy holds the
/// same flavor and the same shared counter as the original (`acquire` hands
/// back the same pointer after raising the count), so it is the same value.
/// It aborts the process only once more than `isize::MAX` senders of one
/// channel exist; that bound is left unstated.
#[verifier::external_body]
fn channel_sender_clone<T>(sender: &Sender<T>) -> (res: Sender<T>)
    ensures
        res == *sender,
{
    sender.clone()
}

/// An event between the host and its plugins. `P` is the payload of events of
/// no other kind; the host uses a boxed value of any type.
#[derive(Debug)]
pub enum EventType<P> {
    /// A text message.
    Message(String),
    /// A request to stop, with the exit code.
    QuitKissa(i32),
    /// Any other event: a name and a payload.
    Unknown(String, P),
}

/// A message that could not be sent because every receiver was gone, handed
/// back.
#[derive(Debug, PartialEq, Eq, Clone, Copy)]
pub struct SendError<T>(pub T);

impl<T> SendError<T> {
    /// The message that could not be sent.
    pub fn into_inner(self) -> (msg: T)
        ensures
            msg == self.0,
    {
        self.0
    }
}

/// What a send reports: success, or the tagged event handed back.
pub type KissaResult<T> = Result<(), SendError<(u32, T)>>;

/// A plugin's sender: it tags every event with the plugin's ID.
#[verifier::reject_recursive_types(T)]
pub struct KissaSender<T>(u32, Sender<(u32, T)>);

impl<T> KissaSender<T> {
    /// The plugin ID this sender tags events with.
    pub closed spec fn id(&self) -> u32 {
        self.0
    }

    /// The channel this sender sends into.
    pub closed spec fn channel(&self) -> Sender<(u32, T)> {
        self.1
    }

    /// `msg` tagged with this sender's plugin ID.
    pub fn tagged(&self, msg: T) -> (p: (u32, T))
        ensures
            p == (self.id(), msg),
    {
        (self.0, msg)
    }

    /// Sends `msg`, tagged with this sender's plugin ID (`tagged`), into this
    /// sender's channel. Whether the channel takes it depends on its
    /// receivers; where it does not, the error hands back the tagged message.
    pub fn send(&self, msg: T) -> (res: KissaResult<T>)
        ensures
            exists|r: Result<(), (u32, T)>|
                #![trigger channel_answered(self.channel(), (self.id(), msg), r)]
                channel_answered(self.channel(), (self.id(), msg), r) && (r is Ok <==> res is Ok),
            res matches Err(e) ==> e.0 == (self.id(), msg),
    {
        let p = self.tagged(msg);
        let r = channel_send(&self.1, p);
        assert(channel_answered(self.channel(), (self.id(), msg), r));
        match r {
            Ok(()) => Ok(()),
            Err(back) => Err(SendError(back)),
        }
    }

    /// A sender that tags events with `id` and sends them into `sender`.
    pub fn from_sender(id: u32, sender: Sender<(u32, T)>) -> (s: Self)
        ensures
            s.id() == id,
            s.channel() == sender,
    {
        KissaSender(id, sender)
    }

    /// Another sender into this sender's channel, without the tag.
    pub fn get_sender(&self) -> (s: Sender<(u32, T)>)
        ensures
            s == self.channel(),
    {
        channel_sender_clone(&self.1)
    }
}

/// A plugin of the first interface.
pub trait KissaPlugin<P>: Send + Sync {
    /// The plugin's name.
    fn name(&self) -> &'static str;

    /// Called once when the plugin is loaded; by default it does nothing and
    /// succeeds.
    fn load(&self, _sender: KissaSender<EventType<P>>) -> (res: KissaResult<EventType<P>>)
        default_ensures
            res is Ok,
    {
        Ok(())
    }

    /// Called for every event.
    fn on_event(&self, event: &EventType<P>, _sender: KissaSender<EventType<P>>) -> KissaResult<
        EventType<P>,
    >;

    /// Called when the plugin is unloaded; by default it does nothing.
    fn drop(&self) {
    }
}

/// A message event, borrowed.
pub struct TestEvent<'a> {
    /// The message.
    pub message: &'a str,
}

/// A payload of borrowed events.
pub enum TestEventType<'a> {
    /// A message.
    Message(&'a str),
}

} // verus!
