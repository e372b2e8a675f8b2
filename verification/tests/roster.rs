use discord_bot::console::parse_player_list;
use discord_bot::error::AppError;
use discord_bot::message::get_player_changes;
use discord_bot::players::get_player_diff;
use discord_bot::utils::capitalize;

fn names(list: &[&str]) -> Vec<String> {
    list.iter().map(|s| s.to_string()).collect()
}

#[test]
fn diff_splits_disconnected_joined_remaining() {
    let before = names(&["Ada", "Bo", "Cy"]);
    let after = names(&["Bo", "Dee", "Cy"]);
    let (disconnected, joined, remaining) = get_player_diff(&before, &after);
    assert_eq!(disconnected, names(&["Ada"]));
    assert_eq!(joined, names(&["Dee"]));
    assert_eq!(remaining, names(&["Bo", "Cy"]));
}

#[test]
fn diff_of_roster_with_itself_is_identity() {
    let roster = names(&["Ada", "Bo"]);
    let (disconnected, joined, remaining) = get_player_diff(&roster, &roster);
    assert!(disconnected.is_empty());
    assert!(joined.is_empty());
    assert_eq!(remaining, roster);
}

#[test]
fn no_message_when_nothing_joined_or_disconnected() {
    let before = names(&["Ada", "Bo"]);
    let after = names(&["Ada", "Bo"]);
    assert_eq!(get_player_changes(&before, &after), None);
    // An empty roster staying empty owes nothing either.
    assert_eq!(get_player_changes(&names(&[]), &names(&[])), None);
}

#[test]
fn join_message_names_the_joiner_and_the_present() {
    // Ada joins while Bo and Cy stay online.
    let before = names(&["Bo", "Cy"]);
    let after = names(&["Bo", "Cy", "Ada"]);
    let message = get_player_changes(&before, &after).expect("a join must notify");
    assert!(message.contains("Ada has joined."));
    assert!(message.contains("Bo and Cy are online."));
    assert!(!message.contains("disconnected"));
}

#[test]
fn last_disconnect_reports_nobody_online() {
    let before = names(&["Ada"]);
    let after = names(&[]);
    let message = get_player_changes(&before, &after).expect("a disconnect must notify");
    assert_eq!(message, "Ada has disconnected. Nobody is online.");
}

#[test]
fn plural_join_uses_oxford_comma_and_plural_verb() {
    let before = names(&[]);
    let message = get_player_changes(&before, &names(&["Ada", "Bo"])).unwrap();
    assert_eq!(message, "Ada and Bo have joined.");
    let message = get_player_changes(&before, &names(&["Ada", "Bo", "Cy"])).unwrap();
    assert_eq!(message, "Ada, Bo, and Cy have joined.");
}

#[test]
fn mixed_change_builds_all_three_clauses() {
    let before = names(&["Ada", "Bo"]);
    let after = names(&["Bo", "Cy"]);
    let message = get_player_changes(&before, &after).unwrap();
    assert_eq!(message, "Cy has joined. Ada has disconnected. Bo is online.");
}

#[test]
fn presence_clause_is_omitted_when_someone_joined_but_nobody_remains() {
    let before = names(&["Ada"]);
    let after = names(&["Cy"]);
    let message = get_player_changes(&before, &after).unwrap();
    assert_eq!(message, "Cy has joined. Ada has disconnected.");
}

#[test]
fn parse_reads_names_after_the_colon() {
    let reply = "There are 2 of a max of 8 players online: Ada, Bo";
    assert_eq!(parse_player_list(reply).unwrap(), names(&["Ada", "Bo"]));
}

#[test]
fn parse_trims_whitespace_and_drops_empty_tokens() {
    let reply = "players online:  Ada ,, \t Bo ,";
    assert_eq!(parse_player_list(reply).unwrap(), names(&["Ada", "Bo"]));
}

#[test]
fn parse_of_empty_list_is_empty() {
    let reply = "There are 0 of a max of 8 players online:";
    assert_eq!(parse_player_list(reply).unwrap(), names(&[]));
}

#[test]
fn parse_without_colon_is_a_parse_error() {
    let reply = "no player list here";
    assert_eq!(parse_player_list(reply).unwrap_err(), AppError::Parse);
}

#[test]
fn capitalize_uppercases_only_the_first_character() {
    assert_eq!(capitalize("hello world"), "Hello world");
    assert_eq!(capitalize("Hello"), "Hello");
    assert_eq!(capitalize(""), "");
    // A first character with a multi-character uppercase mapping.
    assert_eq!(capitalize("\u{00df}abc"), "SSabc");
}
