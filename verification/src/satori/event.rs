//! Events of the Satori protocol.

use vstd::prelude::*;

use crate::clock::unix_millis_now;
use crate::satori::resources::{Channel, Guild, GuildMember, GuildRole, Login, Message, User};

verus! {

/// The command of an interaction event: its name, arguments and options.
#[derive(Clone, Debug)]
pub struct Argv {
    /// The command's name.
    pub name: String,
    /// The positional arguments, as JSON values.
    pub arguments: Vec<serde_json::Value>,
    /// The options, as a JSON value.
    pub options: serde_json::Value,
}

/// The button of an interaction event.
#[derive(Clone, Debug)]
pub struct Button {
    /// The button's ID.
    pub id: String,
}

/// The kind of a Satori event.
#[derive(Clone, Copy, Debug, PartialEq, Eq, Structural)]
pub enum SatoriEventType {
    /// The bot joined a guild (`guild-added`).
    GuildAdded,
    /// A guild was changed (`guild-updated`).
    GuildUpdated,
    /// The bot left a guild (`guild-removed`).
    GuildRemoved,
    /// An invitation into a guild arrived (`guild-request`).
    GuildRequest,
    /// A member joined a guild (`guild-member-added`).
    GuildMemberAdded,
    /// A member of a guild was changed (`guild-member-updated`).
    GuildMemberUpdated,
    /// A member left a guild (`guild-member-removed`).
    GuildMemberRemoved,
    /// A request to join a guild arrived (`guild-member-request`).
    GuildMemberRequest,
    /// A role was created in a guild (`guild-role-created`).
    GuildRoleCreated,
    /// A role of a guild was changed (`guild-role-updated`).
    GuildRoleUpdated,
    /// A role of a guild was deleted (`guild-role-deleted`).
    GuildRoleDeleted,
    /// An action button was clicked (`interaction/button`).
    InteractionButton,
    /// A slash command was invoked (`interaction/command`).
    InteractionCommand,
    /// A login was created (`login-added`).
    LoginAdded,
    /// A login was removed (`login-removed`).
    LoginRemoved,
    /// A login was changed (`login-updated`).
    LoginUpdated,
    /// A message was created (`message-created`).
    MessageCreated,
    /// A message was edited (`message-updated`).
    MessageUpdated,
    /// A message was deleted (`message-deleted`).
    MessageDeleted,
    /// A reaction was added (`reaction-added`).
    ReactionAdded,
    /// A reaction was removed (`reaction-removed`).
    ReactionRemoved,
    /// A friend request arrived (`friend-request`).
    FriendRequest,
    /// Any other event (`unknown`).
    Unknown,
}

/// A Satori event as it reaches the bot.
#[derive(Clone, Debug)]
pub struct SatoriEvent {
    /// The event's Satori ID.
    pub id: u64,
    /// The event's kind (`type` on the wire).
    pub ty: SatoriEventType,
    /// The platform of the receiving account.
    pub platfrom: String,
    /// The receiving account on the platform.
    pub self_id: String,
    /// When the event happened, in milliseconds since the Unix epoch.
    pub timestamp: u128,
    /// The command of an interaction.
    pub argv: Option<Argv>,
    /// The button of an interaction.
    pub button: Option<Button>,
    /// The channel of the event.
    pub channel: Option<Channel>,
    /// The guild of the event.
    pub guild: Option<Guild>,
    /// The login of the event.
    pub login: Option<Login>,
    /// The member the event is about.
    pub member: Option<GuildMember>,
    /// The message of the event.
    pub message: Option<Message>,
    /// Who caused the event.
    pub operator: Option<User>,
    /// The role the event is about.
    pub role: Option<GuildRole>,
    /// The user the event is about.
    pub user: Option<User>,
}

impl SatoriEvent {
    /// The event is the blank event stamped with `timestamp`: ID 0, kind
    /// `Unknown`, empty platform and account, and no resource attached.
    pub open spec fn is_blank_at(self, timestamp: u128) -> bool {
        &&& self.id == 0
        &&& self.ty == SatoriEventType::Unknown
        &&& self.platfrom@ == Seq::<char>::empty()
        &&& self.self_id@ == Seq::<char>::empty()
        &&& self.timestamp == timestamp
        &&& self.argv is None
        &&& self.button is None
        &&& self.channel is None
        &&& self.guild is None
        &&& self.login is None
        &&& self.member is None
        &&& self.message is None
        &&& self.operator is None
        &&& self.role is None
        &&& self.user is None
    }

    /// The blank event stamped with `timestamp`.
    pub fn default_at(timestamp: u128) -> (e: SatoriEvent)
        ensures
            e.is_blank_at(timestamp),
    {
        SatoriEvent {
            id: 0,
            ty: SatoriEventType::Unknown,
            platfrom: String::new(),
            self_id: String::new(),
            timestamp,
            argv: None,
            button: None,
            channel: None,
            guild: None,
            login: None,
            member: None,
            message: None,
            operator: None,
            role: None,
            user: None,
        }
    }

    /// The blank event (`default_at`) stamped with the current time in
    /// milliseconds since the Unix epoch (`unix_millis_now`); `None` where the
    /// wall clock reads a time before the epoch. The clock's reading is opaque
    /// here, so the contract does not tie the stamp to it.
    pub fn try_default() -> (e: Option<SatoriEvent>)
        ensures
            e matches Some(ev) ==> ev.is_blank_at(ev.timestamp),
    {
        match unix_millis_now() {
            Some(ms) => Some(SatoriEvent::default_at(ms)),
            None => None,
        }
    }
}

} // verus!
