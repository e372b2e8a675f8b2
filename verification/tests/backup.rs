use discord_bot::backup::{
    backup_filename, backup_should_run, format_u64, parse_backup_time, parse_u64, prune_selection,
};
use discord_bot::quiesce::{BackupCycle, BackupStep};
use discord_bot::records::GameServer;

const HOUR: u64 = 3600;
const DAY: u64 = 24 * HOUR;

#[test]
fn backup_runs_when_overdue_and_players_present() {
    let now: u64 = 1_000_000;
    let interval: u64 = HOUR;
    assert!(backup_should_run(now, now - interval - 1, interval, 3, 0));
}

#[test]
fn backup_waits_until_the_interval_has_passed() {
    let now: u64 = 1_000_000;
    let interval: u64 = HOUR;
    assert!(!backup_should_run(now, now - interval + 1, interval, 3, now));
}

#[test]
fn idle_server_backs_up_only_after_a_roster_change() {
    let now: u64 = 1_000_000;
    let interval: u64 = HOUR;
    let last_backup = now - interval - 1;
    // Roster empty and unchanged since the last backup: nothing to snapshot.
    assert!(!backup_should_run(now, last_backup, interval, 0, last_backup - 1));
    // Roster empty but someone was on (and left) after the last backup.
    assert!(backup_should_run(now, last_backup, interval, 0, last_backup + 30));
}

#[test]
fn decimal_format_and_parse_round_trip() {
    assert_eq!(format_u64(0), "0");
    assert_eq!(format_u64(1_718_000_000), "1718000000");
    assert_eq!(parse_u64("1718000000"), Some(1_718_000_000));
    assert_eq!(parse_u64(""), None);
    assert_eq!(parse_u64("12a4"), None);
    assert_eq!(parse_u64("18446744073709551615"), Some(u64::MAX));
    assert_eq!(parse_u64("18446744073709551616"), None);
}

#[test]
fn archive_name_embeds_id_and_time() {
    let name = backup_filename(GameServer::Terraria, 1_718_000_000);
    assert_eq!(name, "terraria-1718000000.tar.gz");
    assert_eq!(parse_backup_time(&name), Some(1_718_000_000));
}

#[test]
fn unrecognised_names_carry_no_time() {
    assert_eq!(parse_backup_time("terraria-1718000000.zip"), None);
    assert_eq!(parse_backup_time("terraria.tar.gz"), None);
    assert_eq!(parse_backup_time("terraria-.tar.gz"), None);
    assert_eq!(parse_backup_time("x.tar.gz"), None);
}

#[test]
fn prune_selects_only_entries_outside_retention() {
    let now: u64 = 100 * DAY;
    let retention: u64 = 7 * DAY;
    let names = vec![
        backup_filename(GameServer::MinecraftModded, now - 10 * DAY),
        backup_filename(GameServer::MinecraftModded, now - 2 * DAY),
        backup_filename(GameServer::MinecraftModded, now - HOUR),
    ];
    let doomed = prune_selection(&names, now, retention);
    assert_eq!(doomed, vec![names[0].clone()]);
}

#[test]
fn prune_leaves_unparseable_names_alone() {
    let now: u64 = 100 * DAY;
    let names = vec!["README".to_string(), "minecraft_modded-old.tar.gz".to_string()];
    assert!(prune_selection(&names, now, 7 * DAY).is_empty());
}

fn run_cycle(connected: bool, failing: &[BackupStep]) -> Vec<BackupStep> {
    let mut cycle = BackupCycle::start(connected);
    let mut steps = Vec::new();
    let mut prev_ok = true;
    while let Some(step) = cycle.next(prev_ok) {
        steps.push(step);
        prev_ok = !failing.contains(&step);
    }
    steps
}

#[test]
fn connected_cycle_runs_the_full_protocol_in_order() {
    let steps = run_cycle(true, &[]);
    assert_eq!(
        steps,
        vec![
            BackupStep::DisableAutosave,
            BackupStep::FlushSave,
            BackupStep::SyncFilesystem,
            BackupStep::CreateArchive,
            BackupStep::EnableAutosave,
            BackupStep::UploadArchive,
            BackupStep::RemoveLocalArchive,
            BackupStep::PruneArchives,
        ]
    );
}

#[test]
fn autosave_is_reenabled_even_when_the_archiver_fails() {
    let steps = run_cycle(true, &[BackupStep::CreateArchive]);
    let disable = steps.iter().position(|s| *s == BackupStep::DisableAutosave);
    let enable = steps.iter().position(|s| *s == BackupStep::EnableAutosave);
    assert!(disable.is_some());
    assert!(enable.is_some());
    assert!(disable.unwrap() < enable.unwrap());
    // No archive means nothing to upload or remove, but pruning still runs.
    assert!(!steps.contains(&BackupStep::UploadArchive));
    assert!(steps.contains(&BackupStep::PruneArchives));
}

#[test]
fn autosave_is_reenabled_even_when_every_step_fails() {
    let steps = run_cycle(
        true,
        &[
            BackupStep::FlushSave,
            BackupStep::SyncFilesystem,
            BackupStep::CreateArchive,
            BackupStep::UploadArchive,
        ],
    );
    assert!(steps.contains(&BackupStep::EnableAutosave));
}

#[test]
fn disconnected_cycle_skips_the_quiesce_steps() {
    let steps = run_cycle(false, &[]);
    assert_eq!(
        steps,
        vec![
            BackupStep::CreateArchive,
            BackupStep::UploadArchive,
            BackupStep::RemoveLocalArchive,
            BackupStep::PruneArchives,
        ]
    );
}

#[test]
fn failed_upload_still_removes_the_local_archive() {
    // The reference behaviour: local removal is not gated on upload success.
    let steps = run_cycle(true, &[BackupStep::UploadArchive]);
    assert!(steps.contains(&BackupStep::RemoveLocalArchive));
}

#[test]
fn record_is_owed_exactly_when_the_archive_was_created() {
    let mut cycle = BackupCycle::start(true);
    let mut prev_ok = true;
    while let Some(step) = cycle.next(prev_ok) {
        prev_ok = step != BackupStep::CreateArchive;
    }
    assert!(!cycle.archive_succeeded());

    let mut cycle = BackupCycle::start(true);
    while cycle.next(true).is_some() {}
    assert!(cycle.archive_succeeded());
}
