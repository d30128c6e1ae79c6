//! Platform-neutral events and the bots that answer them.

use vstd::prelude::*;

use crate::topic::message::Message;

verus! {

/// One of two values: the left one or the right one.
#[derive(Debug)]
pub enum Either<L, R> {
    /// The left value.
    Left(L),
    /// The right value.
    Right(R),
}

impl<L: Clone, R: Clone> Clone for Either<L, R> {
    fn clone(&self) -> (res: Either<L, R>)
        ensures
            match (*self, res) {
                (Either::Left(a), Either::Left(b)) => cloned::<L>(a, b),
                (Either::Right(a), Either::Right(b)) => cloned::<R>(a, b),
                _ => false,
            },
    {
        match self {
            Either::Left(a) => Either::Left(a.clone()),
            Either::Right(b) => Either::Right(b.clone()),
        }
    }
}

/// Where a message comes from or goes to: a user (a private chat) or a guild.
#[derive(Debug)]
pub struct Channel(pub Either<User, Guild>);

impl Clone for Channel {
    fn clone(&self) -> (res: Channel)
        ensures
            res == *self,
    {
        Channel(self.0.clone())
    }
}

impl From<Either<User, Guild>> for Channel {
    fn from(value: Either<User, Guild>) -> (c: Channel) {
        Channel(value)
    }
}

impl vstd::std_specs::convert::FromSpecImpl<Either<User, Guild>> for Channel {
    open spec fn obeys_from_spec() -> bool {
        true
    }

    open spec fn from_spec(v: Either<User, Guild>) -> Channel {
        Channel(v)
    }
}

impl core::ops::Deref for Channel {
    type Target = Either<User, Guild>;

    fn deref(&self) -> (target: &Either<User, Guild>)
        ensures
            *target == self.0,
    {
        &self.0
    }
}

/// Making a channel out of a user or a guild and looking through it gives
/// that same user or guild back.
pub proof fn lemma_channel_from_then_deref(v: Either<User, Guild>)
    ensures
        <Channel as vstd::std_specs::convert::FromSpec<Either<User, Guild>>>::from_spec(v).0 == v,
{
}

/// A user.
#[derive(Debug)]
pub struct User {
    /// The user's ID.
    pub id: String,
    /// The user's name.
    pub name: String,
    /// The user's nickname.
    pub nick: Option<String>,
    /// The URL of the user's avatar.
    pub avatar_url: Option<String>,
    /// Whether the user is a bot.
    pub is_bot: bool,
}

impl Clone for User {
    fn clone(&self) -> (res: User)
        ensures
            res == *self,
    {
        User {
            id: self.id.clone(),
            name: self.name.clone(),
            nick: self.nick.clone(),
            avatar_url: self.avatar_url.clone(),
            is_bot: self.is_bot,
        }
    }
}

/// A guild.
#[derive(Clone, Copy, Debug)]
pub struct Guild {}

/// A message was created: the event that a received message raises.
#[derive(Clone, Debug)]
pub struct MessageCreated {
    /// Where the message came from.
    pub from: Channel,
    /// The message.
    pub message: Message,
    /// The message's ID.
    pub message_id: String,
    /// When the message was created.
    pub time: u128,
}

/// A bot on a platform, as an adapter provides it.
pub trait Bot {
    /// Sends `message` to `channel`; answers with the new message's ID.
    fn create_message(&mut self, message: Message, channel: Channel) -> anyhow::Result<u32>;

    /// Withdraws the message with ID `message_id`.
    fn delete_message(&mut self, message_id: String) -> anyhow::Result<()>;

    /// Fetches the message with ID `message_id` in `channel`.
    fn get_message(&mut self, channel: Channel, message_id: String);
}

/// A bot shared by the events it received: every call reaches the bot under
/// its lock (the host holds the bot behind a mutex).
pub trait SharedBot {
    /// Locks the bot and asks it to send `message` to `channel`; answers with
    /// the new message's ID.
    fn create_message(&self, message: Message, channel: Channel) -> anyhow::Result<u32>;
}

/// An event together with the bot that received it and its adapter's ID.
#[derive(Clone)]
pub struct KEvent<C, B> {
    /// The bot that received the event.
    pub bot: B,
    /// The ID of the adapter that delivered the event.
    pub adapter_id: u64,
    /// The event itself.
    pub inner: C,
}

impl<C, B> core::ops::Deref for KEvent<C, B> {
    type Target = C;

    fn deref(&self) -> (target: &C)
        ensures
            *target == self.inner,
    {
        &self.inner
    }
}

impl<B> KEvent<MessageCreated, B> {
    /// Where a reply to this message goes: the channel the message came from.
    pub fn reply_channel(&self) -> (c: Channel)
        ensures
            c == self.inner.from,
    {
        self.inner.from.clone()
    }
}

/// Methods on a received message.
pub trait MessageCreatedExt {
    /// Replies to this message with `message`.
    fn reply(&self, message: Message) -> anyhow::Result<()>;
}

/// A reply reports `res` after the bot answered `sent`: success where the bot
/// succeeded, the bot's error unchanged where it failed.
pub open spec fn reply_follows(sent: anyhow::Result<u32>, res: anyhow::Result<()>) -> bool {
    match (sent, res) {
        (Ok(_), Ok(_)) => true,
        (Err(a), Err(b)) => a == b,
        _ => false,
    }
}

/// What a reply reports, given what the bot answered to the message it was
/// asked to send: success with the new message's ID dropped, or the bot's
/// error unchanged.
pub fn reply_result(sent: anyhow::Result<u32>) -> (res: anyhow::Result<()>)
    ensures
        reply_follows(sent, res),
{
    match sent {
        Ok(_) => Ok(()),
        Err(e) => Err(e),
    }
}

impl<B: SharedBot> MessageCreatedExt for KEvent<MessageCreated, B> {
    /// Asks the bot to send `message` to the channel the message came from
    /// (`reply_channel`), and reports the bot's answer through `reply_result`.
    /// How many calls reach the bot is left unstated: the bot is reached
    /// through a shared reference, whose effects the contract cannot observe.
    fn reply(&self, message: Message) -> (res: anyhow::Result<()>)
        ensures
            exists|sent: anyhow::Result<u32>|
                #![trigger call_ensures(B::create_message, (&self.bot, message, self.inner.from), sent)]
                call_ensures(B::create_message, (&self.bot, message, self.inner.from), sent)
                    && reply_follows(sent, res),
    {
        let channel = self.reply_channel();
        let sent = self.bot.create_message(message, channel);
        let res = reply_result(sent);
        assert(call_ensures(B::create_message, (&self.bot, message, self.inner.from), sent));
        res
    }
}

} // verus!
