//! The per-key record store the control loop reconciles against.
//!
//! Each collection keeps at most one record per server — the slot design
//! makes the "single active record" invariant hold by construction. Every
//! upsert is independently atomic; there are no cross-key transactions.

use crate::records::{DiscordMessage, GameBackup, GamePlayers, GameServer};
use vstd::prelude::*;

verus! {

/// One record slot per server.
pub struct Collection<V> {
    minecraft_modded: Option<V>,
    minecraft_geyser: Option<V>,
    terraria: Option<V>,
}

impl<V> Collection<V> {
    pub closed spec fn spec_get(&self, game: GameServer) -> Option<V> {
        match game {
            GameServer::MinecraftModded => self.minecraft_modded,
            GameServer::MinecraftGeyser => self.minecraft_geyser,
            GameServer::Terraria => self.terraria,
        }
    }

    /// The collection as a partial map from server to its record.
    pub open spec fn view(&self) -> Map<GameServer, V> {
        Map::new(|game: GameServer| self.spec_get(game) is Some, |game: GameServer| self.spec_get(game)->0)
    }

    pub fn empty() -> (c: Collection<V>)
        ensures
            c@ == Map::<GameServer, V>::empty(),
    {
        let c = Collection { minecraft_modded: None, minecraft_geyser: None, terraria: None };
        proof {
            assert(c@ =~= Map::<GameServer, V>::empty());
        }
        c
    }

    /// Look up the record for a server, if one was ever persisted.
    pub fn select(&self, game: GameServer) -> (record: Option<&V>)
        ensures
            match record {
                Some(v) => self@.contains_key(game) && self@[game] == *v,
                None => !self@.contains_key(game),
            },
    {
        match game {
            GameServer::MinecraftModded => self.minecraft_modded.as_ref(),
            GameServer::MinecraftGeyser => self.minecraft_geyser.as_ref(),
            GameServer::Terraria => self.terraria.as_ref(),
        }
    }

    /// Write the record for a server, returning the previous one. The write
    /// replaces whatever was there: at most one record per server ever
    /// exists.
    pub fn upsert(&mut self, game: GameServer, record: V) -> (previous: Option<V>)
        ensures
            final(self)@ == old(self)@.insert(game, record),
            previous == if old(self)@.contains_key(game) {
                Some(old(self)@[game])
            } else {
                None::<V>
            },
    {
        let previous = match game {
            GameServer::MinecraftModded => {
                let previous = self.minecraft_modded.take();
                self.minecraft_modded = Some(record);
                previous
            },
            GameServer::MinecraftGeyser => {
                let previous = self.minecraft_geyser.take();
                self.minecraft_geyser = Some(record);
                previous
            },
            GameServer::Terraria => {
                let previous = self.terraria.take();
                self.terraria = Some(record);
                previous
            },
        };
        proof {
            assert(self@ =~= old(self)@.insert(game, record));
        }
        previous
    }
}

/// The three collections the control loop persists: the last reconciled
/// roster, the active notification, and the last backup taken, per server.
pub struct StateStore {
    pub players: Collection<GamePlayers>,
    pub messages: Collection<DiscordMessage>,
    pub backups: Collection<GameBackup>,
}

impl StateStore {
    pub fn new() -> (store: StateStore)
        ensures
            store.players@ == Map::<GameServer, GamePlayers>::empty(),
            store.messages@ == Map::<GameServer, DiscordMessage>::empty(),
            store.backups@ == Map::<GameServer, GameBackup>::empty(),
    {
        StateStore {
            players: Collection::empty(),
            messages: Collection::empty(),
            backups: Collection::empty(),
        }
    }
}

} // verus!
