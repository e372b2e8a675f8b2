use discord_bot::connection::{ConnectionManager, EnsureAction};
use oxford_join::{Conjunction, OxfordJoin};
use discord_bot::error::AppError;
use discord_bot::records::{DBCollection, GameServer, MessageType};
use discord_bot::store::StateStore;
use discord_bot::tracker::{commit_backup_record, commit_notified_tick, plan_roster_tick};

fn names(list: &[&str]) -> Vec<String> {
    list.iter().map(|s| s.to_string()).collect()
}

#[test]
fn first_cycle_posts_and_persists_once() {
    let mut store = StateStore::new();
    let game = GameServer::Terraria;
    let roster = names(&["Ada"]);

    let message = plan_roster_tick(&store, game, &roster).expect("first sighting must notify");
    assert_eq!(message, "Ada has joined.");

    // The chat post succeeded with id "m1"; there was no older message.
    let to_delete = commit_notified_tick(&mut store, game, 50, roster, "m1".to_string());
    assert_eq!(to_delete, None);

    let record = store.messages.select(game).expect("record must exist");
    assert_eq!(record.discord_message_id, "m1");
    assert!(matches!(record.message_type, MessageType::PlayerUpdate));
    assert_eq!(store.players.select(game).unwrap().players, names(&["Ada"]));
    assert_eq!(store.players.select(game).unwrap().time, 50);
}

#[test]
fn same_roster_twice_changes_the_message_record_once() {
    let mut store = StateStore::new();
    let game = GameServer::Terraria;

    let message = plan_roster_tick(&store, game, &names(&["Ada"]));
    assert!(message.is_some());
    commit_notified_tick(&mut store, game, 50, names(&["Ada"]), "m1".to_string());

    // The same roster polled again owes nothing and writes nothing: the
    // message record stays and the snapshot still carries the change time.
    let message = plan_roster_tick(&store, game, &names(&["Ada"]));
    assert_eq!(message, None);
    assert_eq!(store.messages.select(game).unwrap().discord_message_id, "m1");
    assert_eq!(store.players.select(game).unwrap().time, 50);
}

#[test]
fn next_change_retires_the_previous_message() {
    let mut store = StateStore::new();
    let game = GameServer::MinecraftModded;

    plan_roster_tick(&store, game, &names(&["Ada"])).unwrap();
    commit_notified_tick(&mut store, game, 50, names(&["Ada"]), "m1".to_string());

    let message = plan_roster_tick(&store, game, &names(&[])).unwrap();
    assert_eq!(message, "Ada has disconnected. Nobody is online.");
    let to_delete = commit_notified_tick(&mut store, game, 60, names(&[]), "m2".to_string());
    assert_eq!(to_delete, Some("m1".to_string()));
    assert_eq!(store.messages.select(game).unwrap().discord_message_id, "m2");
}

#[test]
fn failed_post_leaves_the_baseline_untouched() {
    let mut store = StateStore::new();
    let game = GameServer::MinecraftGeyser;

    plan_roster_tick(&store, game, &names(&["Ada"])).unwrap();
    // The post failed: nothing is committed. The next tick recomputes the
    // same message against the same baseline.
    let message = plan_roster_tick(&store, game, &names(&["Ada"])).unwrap();
    assert_eq!(message, "Ada has joined.");
    assert!(store.messages.select(game).is_none());
    assert!(store.players.select(game).is_none());
}

#[test]
fn servers_do_not_share_records() {
    let mut store = StateStore::new();
    commit_notified_tick(&mut store, GameServer::Terraria, 10, names(&["Ada"]), "m1".to_string());
    assert!(store.players.select(GameServer::MinecraftModded).is_none());
    assert!(store.messages.select(GameServer::MinecraftModded).is_none());
    assert!(store.players.select(GameServer::Terraria).is_some());
}

#[test]
fn backup_record_tracks_the_latest_archive() {
    let mut store = StateStore::new();
    let game = GameServer::Terraria;
    commit_backup_record(&mut store, game, "terraria-100.tar.gz".to_string(), 100);
    commit_backup_record(&mut store, game, "terraria-200.tar.gz".to_string(), 200);
    let record = store.backups.select(game).unwrap();
    assert_eq!(record.filename, "terraria-200.tar.gz");
    assert_eq!(record.time, 200);
}

#[test]
fn inactive_service_answers_absent_without_connecting() {
    let mut manager = ConnectionManager::new();
    manager.connect_outcome(Some(7));
    // The OS reports the service down: the cached handle is discarded and no
    // connection attempt is requested.
    assert_eq!(manager.ensure_action(false), EnsureAction::Absent);
    assert_eq!(manager.cached(), None);
}

#[test]
fn failed_connect_clears_any_stale_handle() {
    let mut manager = ConnectionManager::new();
    assert_eq!(manager.ensure_action(true), EnsureAction::Connect);
    manager.connect_outcome(None);
    assert_eq!(manager.cached(), None);
    // The service stays active, so the next tick tries again.
    assert_eq!(manager.ensure_action(true), EnsureAction::Connect);
}

#[test]
fn cached_handle_is_reused_until_a_command_errors() {
    let mut manager = ConnectionManager::new();
    assert_eq!(manager.ensure_action(true), EnsureAction::Connect);
    manager.connect_outcome(Some(42));
    assert_eq!(manager.ensure_action(true), EnsureAction::Reuse(42));
    manager.command_errored();
    assert_eq!(manager.ensure_action(true), EnsureAction::Connect);
}

#[test]
fn identifiers_are_stable() {
    assert_eq!(GameServer::MinecraftModded.id_str(), "minecraft_modded");
    assert_eq!(GameServer::MinecraftGeyser.id_str(), "minecraft_geyser");
    assert_eq!(GameServer::Terraria.id_str(), "terraria");
    assert_eq!(DBCollection::Players.id_str(), "players");
    assert_eq!(DBCollection::DiscordMessages.id_str(), "discord_messages");
    assert_eq!(AppError::Parse.describe(), "malformed console reply");
    assert_eq!(AppError::Connectivity.describe(), "console unreachable");
    assert_eq!(AppError::ExternalApi.describe(), "external api failure");
    assert_eq!(AppError::FatalConfig.describe(), "missing required profile field");
}

#[test]
fn command_set_matches_the_installed_shape() {
    let commands = discord_bot::commands::create_all_commands();
    assert_eq!(commands.len(), 1);
    let command = &commands[0];
    assert_eq!(command.name, "mc");
    assert_eq!(command.description, "Minecraft slash commands");
    assert_eq!(command.command_type, 1);
    let options = command.options.as_ref().unwrap();
    assert_eq!(options.len(), 1);
    assert_eq!(options[0].name, "action");
    assert_eq!(options[0].option_type, 3);
    assert!(options[0].required);
    let choices = options[0].choices.as_ref().unwrap();
    assert_eq!(choices.len(), 1);
    assert_eq!(choices[0].name, "Reboot");
    assert_eq!(choices[0].value, "reboot");
}

#[test]
fn library_join_matches_the_joining_crate() {
    // The message composer's name lists read exactly as oxford_join writes
    // them.
    let two = names(&["Ada", "Bo"]);
    let message = discord_bot::message::get_player_changes(&names(&[]), &two).unwrap();
    let expected = format!("{} have joined.", two.as_slice().oxford_join(Conjunction::And));
    assert_eq!(message, expected);
}
