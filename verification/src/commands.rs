//! The chat slash commands the bot registers, as plain data. An adapter
//! serialises them for the chat API's bulk-overwrite endpoint.

use vstd::prelude::*;
use vstd::string::StringExecFns;

verus! {

/// One selectable value for a command option.
pub struct CommandChoice {
    pub name: String,
    pub value: String,
}

/// One option of a slash command.
pub struct CommandOption {
    pub name: String,
    pub description: String,
    pub option_type: u32,
    pub choices: Option<Vec<CommandChoice>>,
    pub required: bool,
}

/// One slash command definition.
pub struct Command {
    pub name: String,
    pub description: String,
    pub command_type: u16,
    pub options: Option<Vec<CommandOption>>,
}

/// The shape of the minecraft command: a chat-input command named "mc" with
/// one required string option "action" whose sole choice is a reboot.
pub open spec fn is_minecraft_command(command: Command) -> bool {
    &&& command.name@ == "mc"@
    &&& command.description@ == "Minecraft slash commands"@
    &&& command.command_type == 1u16
    &&& command.options matches Some(options) && options.len() == 1 && {
        let action = options[0];
        &&& action.name@ == "action"@
        &&& action.description@ == "Available actions"@
        &&& action.option_type == 3u32
        &&& action.required
        &&& action.choices matches Some(choices) && choices.len() == 1
            && choices[0].name@ == "Reboot"@ && choices[0].value@ == "reboot"@
    }
}

pub fn create_minecraft_command() -> (command: Command)
    ensures
        is_minecraft_command(command),
{
    let choice = CommandChoice {
        name: String::from_str("Reboot"),
        value: String::from_str("reboot"),
    };
    let mut choices: Vec<CommandChoice> = Vec::new();
    choices.push(choice);
    let action = CommandOption {
        option_type: 3,
        name: String::from_str("action"),
        description: String::from_str("Available actions"),
        required: true,
        choices: Some(choices),
    };
    let mut options: Vec<CommandOption> = Vec::new();
    options.push(action);
    Command {
        name: String::from_str("mc"),
        description: String::from_str("Minecraft slash commands"),
        options: Some(options),
        command_type: 1,
    }
}

/// Every command the bot installs.
pub fn create_all_commands() -> (commands: Vec<Command>)
    ensures
        commands.len() == 1,
        is_minecraft_command(commands[0]),
{
    let mut commands: Vec<Command> = Vec::new();
    commands.push(create_minecraft_command());
    commands
}

} // verus!
