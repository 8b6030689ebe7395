//! Registration with the service manager, so that the daemon starts on
//! login: the file that describes the agent, and the commands that load and
//! unload it.

use crate::path::{join, joined};
use crate::request::{Command, CommandView};
use vstd::prelude::*;
use vstd::string::*;

verus! {

/// The directory of launch agents, from the home directory.
pub const AGENTS_DIRECTORY: &'static str = "Library/LaunchAgents";

/// The name of the file that describes the agent.
pub const PLIST_FILE: &'static str = "net.sadmelon.yumetouch.plist";

/// The program that talks to the service manager.
pub const LAUNCHCTL: &'static str = "launchctl";

/// The description of the agent, up to the path of the executable.
pub const PLIST_HEAD: &'static str =
    "<?xml version=\"1.0\" encoding=\"UTF-8\"?>\n        <!DOCTYPE plist PUBLIC \"-//Apple//DTD PLIST 1.0//EN\" \"http://www.apple.com/DTDs/PropertyList-1.0.dtd\">\n        <plist version=\"1.0\">\n        <dict>\n            <key>Label</key>\n            <string>net.sadmelon.yumetouch</string>\n            <key>ProgramArguments</key>\n            <array>\n                <string>";

/// The description of the agent, from the path of the executable on.
pub const PLIST_TAIL: &'static str =
    "</string>\n            </array>\n            <key>RunAtLoad</key>\n            <true/>\n            <key>KeepAlive</key>\n            <true/>\n            <key>StandardOutPath</key>\n            <string>/tmp/yumetouch.log</string>\n            <key>StandardErrorPath</key>\n            <string>/tmp/yumetouch.err</string>\n        </dict>\n        </plist>";

/// The directory of launch agents.
pub open spec fn agents_directory_in(home: Seq<char>) -> Seq<char> {
    joined(home, AGENTS_DIRECTORY@)
}

/// The file that describes the agent.
pub open spec fn plist_path_in(home: Seq<char>) -> Seq<char> {
    joined(agents_directory_in(home), PLIST_FILE@)
}

/// The description of an agent that runs `binary`.
pub open spec fn plist_for(binary: Seq<char>) -> Seq<char> {
    PLIST_HEAD@ + binary + PLIST_TAIL@
}

/// The command that has the service manager do `verb` with the agent at
/// `plist_path`, for good.
pub open spec fn launchctl_for(verb: Seq<char>, plist_path: Seq<char>) -> CommandView {
    CommandView { program: LAUNCHCTL@, args: seq![verb, "-w"@, plist_path] }
}

/// The directory of launch agents, given the home directory.
pub fn agents_directory(home: &str) -> (directory: String)
    ensures
        directory@ == agents_directory_in(home@),
{
    join(home, AGENTS_DIRECTORY)
}

/// The file that describes the agent, given the home directory.
pub fn plist_path(home: &str) -> (path: String)
    ensures
        path@ == plist_path_in(home@),
{
    let directory = agents_directory(home);
    join(directory.as_str(), PLIST_FILE)
}

/// The description of the agent: it runs `binary` at login, keeps it alive,
/// and sends its output to `/tmp/yumetouch.log` and `/tmp/yumetouch.err`.
pub fn plist_content(binary: &str) -> (content: String)
    ensures
        content@ == plist_for(binary@),
{
    let mut content = String::from_str(PLIST_HEAD);
    content.append(binary);
    content.append(PLIST_TAIL);
    content
}

/// The command for `verb` on the agent at `plist_path`.
fn launchctl(verb: &str, plist_path: &str) -> (command: Command)
    ensures
        command@ == launchctl_for(verb@, plist_path@),
{
    let mut args: Vec<String> = Vec::new();
    args.push(String::from_str(verb));
    args.push(String::from_str("-w"));
    args.push(String::from_str(plist_path));
    let command = Command { program: String::from_str(LAUNCHCTL), args };
    assert(command@.args =~= launchctl_for(verb@, plist_path@).args);
    command
}

/// The command that loads the agent.
pub fn load_command(plist_path: &str) -> (command: Command)
    ensures
        command@ == launchctl_for("load"@, plist_path@),
{
    launchctl("load", plist_path)
}

/// The command that unloads the agent.
pub fn unload_command(plist_path: &str) -> (command: Command)
    ensures
        command@ == launchctl_for("unload"@, plist_path@),
{
    launchctl("unload", plist_path)
}

} // verus!
