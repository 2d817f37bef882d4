//! The command that opens a path in the editor.

use vstd::prelude::*;

verus! {

/// An external command: the program and its arguments.
#[derive(Debug)]
pub struct LaunchCommand {
    pub program: String,
    pub args: Vec<String>,
}

/// A command as plain text.
pub struct CommandView {
    pub program: Seq<char>,
    pub args: Seq<Seq<char>>,
}

/// The texts of a list of strings.
pub open spec fn texts_of(strings: Seq<String>) -> Seq<Seq<char>> {
    strings.map_values(|s: String| s@)
}

impl View for LaunchCommand {
    type V = CommandView;

    open spec fn view(&self) -> CommandView {
        CommandView { program: self.program@, args: texts_of(self.args@) }
    }
}

/// The command that opens `path`: the terminal emulator, told to run the
/// editor, with the path as the last argument.
pub open spec fn editor_command_for(path: Seq<char>) -> CommandView {
    CommandView { program: "alacritty"@, args: seq!["-e"@, "nvim"@, path] }
}

/// Builds the command that opens `path` in the editor.
pub fn editor_command(path: String) -> (command: LaunchCommand)
    ensures
        command@ == editor_command_for(path@),
        command@.args.len() == 3,
        command@.args.last() == path@,
{
    let mut args: Vec<String> = Vec::new();
    args.push("-e".to_owned());
    args.push("nvim".to_owned());
    args.push(path);
    let command = LaunchCommand { program: "alacritty".to_owned(), args };
    assert(command@.args =~= seq!["-e"@, "nvim"@, path@]);
    command
}

} // verus!
