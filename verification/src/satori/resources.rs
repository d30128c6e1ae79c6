//! Resources of the Satori protocol: channels, guilds, members, roles,
//! logins, messages and users.

use vstd::prelude::*;
use vstd::std_specs::convert::FromSpec;

verus! {

/// The kind of a channel, carried on the wire as an integer code.
#[derive(Clone, Copy, Debug, PartialEq, Eq, Structural)]
pub enum ChannelType {
    /// A text channel (code 0).
    Text,
    /// A direct-message channel (code 1).
    Direct,
    /// A category channel (code 2).
    Category,
    /// A voice channel (code 3).
    Voice,
    /// Any other code (written as -1).
    Unknown,
}

/// The wire code of a channel type.
pub open spec fn channel_type_code(t: ChannelType) -> int {
    match t {
        ChannelType::Text => 0,
        ChannelType::Direct => 1,
        ChannelType::Category => 2,
        ChannelType::Voice => 3,
        ChannelType::Unknown => -1,
    }
}

/// The channel type that a wire code denotes: codes 0 to 3 name the known
/// kinds, every other code is `Unknown`.
pub open spec fn channel_type_of_code(n: int) -> ChannelType {
    if n == 0 {
        ChannelType::Text
    } else if n == 1 {
        ChannelType::Direct
    } else if n == 2 {
        ChannelType::Category
    } else if n == 3 {
        ChannelType::Voice
    } else {
        ChannelType::Unknown
    }
}

impl From<isize> for ChannelType {
    fn from(value: isize) -> (t: ChannelType) {
        if value == 0 {
            ChannelType::Text
        } else if value == 1 {
            ChannelType::Direct
        } else if value == 2 {
            ChannelType::Category
        } else if value == 3 {
            ChannelType::Voice
        } else {
            ChannelType::Unknown
        }
    }
}

impl vstd::std_specs::convert::FromSpecImpl<isize> for ChannelType {
    open spec fn obeys_from_spec() -> bool {
        true
    }

    open spec fn from_spec(v: isize) -> ChannelType {
        channel_type_of_code(v as int)
    }
}

impl From<ChannelType> for isize {
    fn from(value: ChannelType) -> (n: isize) {
        match value {
            ChannelType::Text => 0,
            ChannelType::Direct => 1,
            ChannelType::Category => 2,
            ChannelType::Voice => 3,
            ChannelType::Unknown => -1,
        }
    }
}

impl vstd::std_specs::convert::FromSpecImpl<ChannelType> for isize {
    open spec fn obeys_from_spec() -> bool {
        true
    }

    open spec fn from_spec(v: ChannelType) -> isize {
        channel_type_code(v) as isize
    }
}


/// Decoding the code of a channel type gives that channel type back: the
/// integer form on the wire loses nothing.
pub proof fn lemma_channel_type_code_round_trip(t: ChannelType)
    ensures
        <ChannelType as FromSpec<isize>>::from_spec(<isize as FromSpec<ChannelType>>::from_spec(t))
            == t,
{
}

/// Encoding the channel type that a code denotes gives the code back when it
/// is one of 0 to 3, and -1 for every other code.
pub proof fn lemma_channel_type_code_normalizes(n: isize)
    ensures
        <isize as FromSpec<ChannelType>>::from_spec(<ChannelType as FromSpec<isize>>::from_spec(n))
            == (if 0 <= n <= 3 { n } else { -1isize }),
{
}

/// The state of a login, carried on the wire as an integer code.
#[derive(Clone, Copy, Debug, PartialEq, Eq, Structural)]
pub enum Status {
    /// Offline (code 0).
    Offline,
    /// Online (code 1).
    Online,
    /// Connecting (code 2).
    Connect,
    /// Disconnected (code 3).
    Disconnect,
    /// Reconnecting (code 4).
    Reconnect,
    /// Any other code (written as -1).
    Unknown,
}

/// The wire code of a login status.
pub open spec fn status_code(s: Status) -> int {
    match s {
        Status::Offline => 0,
        Status::Online => 1,
        Status::Connect => 2,
        Status::Disconnect => 3,
        Status::Reconnect => 4,
        Status::Unknown => -1,
    }
}

/// The login status that a wire code denotes: codes 0 to 4 name the known
/// states, every other code is `Unknown`.
pub open spec fn status_of_code(n: int) -> Status {
    if n == 0 {
        Status::Offline
    } else if n == 1 {
        Status::Online
    } else if n == 2 {
        Status::Connect
    } else if n == 3 {
        Status::Disconnect
    } else if n == 4 {
        Status::Reconnect
    } else {
        Status::Unknown
    }
}

impl From<isize> for Status {
    fn from(value: isize) -> (s: Status) {
        if value == 0 {
            Status::Offline
        } else if value == 1 {
            Status::Online
        } else if value == 2 {
            Status::Connect
        } else if value == 3 {
            Status::Disconnect
        } else if value == 4 {
            Status::Reconnect
        } else {
            Status::Unknown
        }
    }
}

impl vstd::std_specs::convert::FromSpecImpl<isize> for Status {
    open spec fn obeys_from_spec() -> bool {
        true
    }

    open spec fn from_spec(v: isize) -> Status {
        status_of_code(v as int)
    }
}

impl From<Status> for isize {
    fn from(value: Status) -> (n: isize) {
        match value {
            Status::Offline => 0,
            Status::Online => 1,
            Status::Connect => 2,
            Status::Disconnect => 3,
            Status::Reconnect => 4,
            Status::Unknown => -1,
        }
    }
}

impl vstd::std_specs::convert::FromSpecImpl<Status> for isize {
    open spec fn obeys_from_spec() -> bool {
        true
    }

    open spec fn from_spec(v: Status) -> isize {
        status_code(v) as isize
    }
}

/// Decoding the code of a login status gives that status back.
pub proof fn lemma_status_code_round_trip(s: Status)
    ensures
        <Status as FromSpec<isize>>::from_spec(<isize as FromSpec<Status>>::from_spec(s)) == s,
{
}

/// Encoding the status that a code denotes gives the code back when it is one
/// of 0 to 4, and -1 for every other code.
pub proof fn lemma_status_code_normalizes(n: isize)
    ensures
        <isize as FromSpec<Status>>::from_spec(<Status as FromSpec<isize>>::from_spec(n)) == (if 0 <= n <= 4 { n } else { -1isize }),
{
}

/// A channel.
#[derive(Clone, Debug)]
pub struct Channel {
    /// The channel's ID.
    pub id: String,
    /// The channel's kind (`type` on the wire).
    pub ty: ChannelType,
    /// The channel's name.
    pub name: Option<String>,
    /// The ID of the parent channel.
    pub parent_id: Option<String>,
}

/// A guild.
#[derive(Clone, Debug)]
pub struct Guild {
    /// The guild's ID.
    pub id: String,
    /// The guild's name.
    pub name: Option<String>,
    /// The guild's avatar.
    pub avatar: Option<String>,
}

/// A member of a guild.
#[derive(Clone, Debug)]
pub struct GuildMember {
    /// The user behind the membership.
    pub user: Option<User>,
    /// The user's name inside the guild.
    pub nick: Option<String>,
    /// The user's avatar inside the guild.
    pub avatar: Option<String>,
    /// When the user joined.
    pub joined_at: Option<u64>,
}

/// A role of a guild.
#[derive(Clone, Debug)]
pub struct GuildRole {
    /// The role's ID.
    pub id: String,
    /// The role's name.
    pub name: Option<String>,
}

/// An interaction: a command with its arguments and options.
#[derive(Clone, Debug)]
pub struct Interaction {
    /// The command's name.
    pub name: String,
    /// The positional arguments, as JSON values.
    pub arguments: Vec<serde_json::Value>,
    /// The options, as a JSON value.
    pub options: serde_json::Value,
}

/// A login of the bot on a platform.
#[derive(Clone, Debug)]
pub struct Login {
    /// The logged-in user.
    pub user: Option<User>,
    /// The bot's account on the platform.
    pub self_id: Option<String>,
    /// The platform's name.
    pub platform: Option<String>,
    /// The login's state.
    pub status: Status,
}

/// A message.
#[derive(Clone, Debug)]
pub struct Message {
    /// The message's ID.
    pub id: String,
    /// The message's content.
    pub content: String,
    /// The channel the message belongs to.
    pub channel: Option<Channel>,
    /// The guild the message belongs to.
    pub guild: Option<Guild>,
    /// The member who sent it.
    pub member: Option<GuildMember>,
    /// The user who sent it.
    pub user: Option<User>,
    /// When it was sent.
    pub created_at: Option<u64>,
    /// When it was last edited.
    pub updated_at: Option<u64>,
}

/// A user.
#[derive(Clone, Debug)]
pub struct User {
    /// The user's ID.
    pub id: String,
    /// The user's name.
    pub name: Option<String>,
    /// The user's nickname.
    pub nick: Option<String>,
    /// The user's avatar.
    pub avatar: Option<String>,
    /// Whether the user is a bot.
    pub is_bot: Option<bool>,
}

} // verus!
