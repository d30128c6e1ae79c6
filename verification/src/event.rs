//! Satori events as the bot receives them, with the adapter that delivered
//! them, and replies to them.

use vstd::prelude::*;
use vstd::string::to_string_from_display_ensures;

use crate::satori::api::MessageAPI;
use crate::satori::resources::Message;

pub use crate::satori::event::SatoriEvent as SEventContent;
pub use crate::satori::event::SatoriEventType as SEventType;

verus! {

/// A Satori event with the ID of the adapter that delivered it.
pub struct SEvent {
    /// The event.
    pub content: SEventContent,
    /// The ID of the adapter that delivered it.
    pub from_adapter: u64,
}

/// Why a reply was not sent.
#[derive(Debug)]
pub enum ReplyError {
    /// The event carries no channel to reply in.
    MissingChannel,
    /// The adapter refused to send the message.
    Api(anyhow::Error),
}

impl ReplyError {
    /// The error's description: `频道资源不存在` ("the channel resource does
    /// not exist") for a missing channel, the adapter's own description
    /// otherwise.
    pub fn describe(&self) -> (text: String)
        ensures
            self is MissingChannel ==> text@ == "频道资源不存在"@,
            self matches ReplyError::Api(e) ==> to_string_from_display_ensures::<anyhow::Error>(
                &e,
                text,
            ),
    {
        match self {
            ReplyError::MissingChannel => String::from_str("频道资源不存在"),
            ReplyError::Api(e) => e.to_string(),
        }
    }
}

/// The ID of the channel that a reply to `content` goes to: that of the
/// channel the event carries, if it carries one.
pub open spec fn reply_target(content: SEventContent) -> Option<Seq<char>> {
    match content.channel {
        Some(c) => Some(c.id@),
        None => None,
    }
}

/// What a reply reports, given what the adapter answered to the message it
/// was asked to create: success, or the adapter's error.
pub fn reply_outcome(created: anyhow::Result<Vec<Message>>) -> (res: Result<(), ReplyError>)
    ensures
        reply_follows(created, res),
{
    match created {
        Ok(_) => Ok(()),
        Err(e) => Err(ReplyError::Api(e)),
    }
}

impl SEvent {
    /// The ID of the channel a reply goes to, or `None` where the event
    /// carries no channel.
    pub fn reply_channel_id(&self) -> (id: Option<String>)
        ensures
            match (id, reply_target(self.content)) {
                (Some(a), Some(b)) => a@ == b,
                (None, None) => true,
                _ => false,
            },
    {
        match &self.content.channel {
            Some(c) => Some(c.id.clone()),
            None => None,
        }
    }
}

/// What a reply reports, given what the adapter answered to the message it
/// was asked to create: success where the adapter succeeded, its error
/// unchanged where it failed.
pub open spec fn reply_follows(created: anyhow::Result<Vec<Message>>, res: Result<(), ReplyError>) -> bool {
    match (created, res) {
        (Ok(_), Ok(_)) => true,
        (Err(a), Err(ReplyError::Api(b))) => a == b,
        _ => false,
    }
}

/// Replies to an event.
pub trait SEventExt {
    /// The ID of the channel that a reply goes to, if there is one.
    spec fn reply_channel(&self) -> Option<Seq<char>>;

    /// Sends `message` through `api` to the channel of this event. Without a
    /// channel nothing is sent and the reply fails with `MissingChannel`;
    /// otherwise the adapter is asked to create `message` in the channel with
    /// that ID, and the result follows its answer. How many calls reach the
    /// adapter is left unstated: the adapter is reached through a shared
    /// reference, whose effects the contract cannot observe.
    fn reply<A: MessageAPI>(&self, api: &A, message: String) -> (res: Result<(), ReplyError>)
        ensures
            self.reply_channel() is None ==> res matches Err(ReplyError::MissingChannel),
            self.reply_channel() matches Some(id) ==> exists|
                channel_id: String,
                created: anyhow::Result<Vec<Message>>,
            |
                #![trigger call_ensures(A::create, (api, channel_id, message), created)]
                channel_id@ == id && call_ensures(A::create, (api, channel_id, message), created)
                    && reply_follows(created, res),
    ;
}

impl SEventExt for SEvent {
    open spec fn reply_channel(&self) -> Option<Seq<char>> {
        reply_target(self.content)
    }

    /// Creates `message` in the channel of `reply_channel_id` through `api`,
    /// and reports the adapter's answer through `reply_outcome`.
    fn reply<A: MessageAPI>(&self, api: &A, message: String) -> (res: Result<(), ReplyError>) {
        match self.reply_channel_id() {
            None => Err(ReplyError::MissingChannel),
            Some(channel_id) => {
                let ghost id = channel_id;
                let created = api.create(channel_id, message);
                let res = reply_outcome(created);
                assert(call_ensures(A::create, (api, id, message), created));
                res
            },
        }
    }
}

} // verus!
