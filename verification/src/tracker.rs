//! One reconcile tick for one server: poll, diff, notify, persist.
//!
//! The pipeline is a pure decision followed by a commit. The caller polls the
//! console (empty roster when the server is absent), asks `plan_roster_tick`
//! whether a notification is owed, posts it, and only then commits: the new
//! message id is persisted only after a successful post, and the roster
//! snapshot is always the final write. A tick that owes no notification
//! writes nothing at all, so the snapshot's timestamp is the moment of the
//! last roster change — which is what the backup scheduler's run condition
//! reads. If posting fails the caller commits nothing, so the next tick
//! re-computes the same diff against the same unaltered baseline and retries
//! — reconciliation is idempotent under repeated failures.

use crate::message::{change_message, get_player_changes};
use crate::records::{DiscordMessage, GameBackup, GamePlayers, GameServer, MessageType};
use crate::store::StateStore;
use vstd::prelude::*;

verus! {

/// The roster a tick diffs against: the last successfully persisted one, or
/// empty when none was ever persisted.
pub open spec fn baseline_roster(players: Map<GameServer, GamePlayers>, game: GameServer) -> Seq<
    Seq<char>,
> {
    if players.contains_key(game) {
        players[game].players.deep_view()
    } else {
        Seq::empty()
    }
}

/// Decide whether the freshly polled roster owes a notification, and with
/// what text. Nothing is written; the caller posts the text and then commits.
pub fn plan_roster_tick(store: &StateStore, game: GameServer, roster: &Vec<String>) -> (message:
    Option<String>)
    ensures
        message.deep_view() == change_message(
            baseline_roster(store.players@, game),
            roster.deep_view(),
        ),
{
    match store.players.select(game) {
        Some(last) => get_player_changes(&last.players, roster),
        None => {
            let empty: Vec<String> = Vec::new();
            proof {
                assert(empty.deep_view() =~= Seq::<Seq<char>>::empty());
            }
            get_player_changes(&empty, roster)
        },
    }
}

/// Commit a tick whose notification was posted successfully: persist the new
/// message id, then the roster snapshot, in that order. Returns the id of the
/// previously active notification so the caller can retire it — after the new
/// one is already up, keeping the window with zero active messages minimal.
/// Failures retiring the old message are the caller's to log and swallow.
pub fn commit_notified_tick(
    store: &mut StateStore,
    game: GameServer,
    now: u64,
    roster: Vec<String>,
    message_id: String,
) -> (to_delete: Option<String>)
    ensures
        final(store).messages@ == old(store).messages@.insert(
            game,
            (DiscordMessage {
                game,
                discord_message_id: message_id,
                message_type: MessageType::PlayerUpdate,
            }),
        ),
        final(store).players@ == old(store).players@.insert(
            game,
            (GamePlayers { game, players: roster, time: now }),
        ),
        final(store).backups@ == old(store).backups@,
        to_delete == if old(store).messages@.contains_key(game) {
            Some(old(store).messages@[game].discord_message_id)
        } else {
            None::<String>
        },
{
    let previous = store.messages.upsert(
        game,
        DiscordMessage { game, discord_message_id: message_id, message_type: MessageType::PlayerUpdate },
    );
    store.players.upsert(game, GamePlayers { game, players: roster, time: now });
    match previous {
        Some(record) => Some(record.discord_message_id),
        None => None,
    }
}

/// Persist the record of a successfully created archive. Backup bookkeeping
/// is monotonic: a cycle's timestamp never falls behind the recorded one.
pub fn commit_backup_record(store: &mut StateStore, game: GameServer, filename: String, time: u64)
    requires
        old(store).backups@.contains_key(game) ==> old(store).backups@[game].time <= time,
    ensures
        final(store).backups@ == old(store).backups@.insert(
            game,
            (GameBackup { game, filename, time }),
        ),
        final(store).players@ == old(store).players@,
        final(store).messages@ == old(store).messages@,
{
    store.backups.upsert(game, GameBackup { game, filename, time });
}

/// Reconciliation is idempotent: after a commit persisted the roster `record`
/// holds, a tick that polls an identical roster owes no notification, so the
/// persisted message record changes exactly once per roster change, not
/// twice, however often the same roster is fed back.
pub proof fn lemma_reconcile_idempotent(
    players: Map<GameServer, GamePlayers>,
    game: GameServer,
    record: GamePlayers,
)
    ensures
        change_message(
            baseline_roster(players.insert(game, record), game),
            record.players.deep_view(),
        ) is None,
{
    crate::message::lemma_same_roster_no_change(record.players.deep_view());
}

} // verus!
