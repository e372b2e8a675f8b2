//! The durable record shapes the control loop reads and writes, and the
//! closed set of game servers it watches.

use vstd::prelude::*;

verus! {

/// The game servers the community runs. The fleet is a closed set: adding a
/// server kind means touching this one place.
#[derive(Clone, Copy, PartialEq, Eq, Structural, Debug)]
pub enum GameServer {
    MinecraftModded,
    MinecraftGeyser,
    Terraria,
}

impl GameServer {
    /// The stable identifier the server is known by in record keys, archive
    /// filenames, and log lines.
    pub open spec fn spec_id(self) -> Seq<char> {
        match self {
            GameServer::MinecraftModded => "minecraft_modded"@,
            GameServer::MinecraftGeyser => "minecraft_geyser"@,
            GameServer::Terraria => "terraria"@,
        }
    }

    pub fn id_str(&self) -> (id: &'static str)
        ensures
            id@ == self.spec_id(),
    {
        match self {
            GameServer::MinecraftModded => "minecraft_modded",
            GameServer::MinecraftGeyser => "minecraft_geyser",
            GameServer::Terraria => "terraria",
        }
    }
}

/// The store's collections, one per record shape.
#[derive(Clone, Copy, PartialEq, Eq, Structural, Debug)]
pub enum DBCollection {
    DiscordMessages,
    Players,
}

impl DBCollection {
    pub open spec fn spec_id(self) -> Seq<char> {
        match self {
            DBCollection::DiscordMessages => "discord_messages"@,
            DBCollection::Players => "players"@,
        }
    }

    pub fn id_str(&self) -> (id: &'static str)
        ensures
            id@ == self.spec_id(),
    {
        match self {
            DBCollection::DiscordMessages => "discord_messages",
            DBCollection::Players => "players",
        }
    }
}

/// What the active notification for a server is about: the server being down,
/// or who is playing on it.
#[derive(Clone, Copy, PartialEq, Eq, Structural, Debug)]
pub enum MessageType {
    ServerDown,
    PlayerUpdate,
}

/// The last successfully persisted roster for a server: the set of player
/// names seen, and when. Never the in-flight attempted one.
pub struct GamePlayers {
    pub game: GameServer,
    pub players: Vec<String>,
    pub time: u64,
}

/// The single currently-active chat notification for a server, by its
/// external message id. At most one exists per server.
pub struct DiscordMessage {
    pub game: GameServer,
    pub discord_message_id: String,
    pub message_type: MessageType,
}

/// The most recent backup taken for a server: the archive's filename and the
/// moment it was created. The timestamp never decreases.
pub struct GameBackup {
    pub game: GameServer,
    pub filename: String,
    pub time: u64,
}

} // verus!
