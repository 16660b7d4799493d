//! The command line of the tool and the texts that it prints.
//!
//! Nothing here prints: each function hands out the text, and the program
//! around the library writes it to the output or the error stream.

use crate::text::{decimal, push_decimal};
use crate::validation::{parse_u16, read_u16};
use vstd::prelude::*;

verus! {

/// The arguments of a run that is to free a port.
#[derive(Debug, Clone, Copy, PartialEq, Eq)]
pub struct CliArgs {
    pub port: u16,
}

/// What a command line asks for.
#[derive(Debug, Clone, Copy, PartialEq, Eq)]
pub enum Invocation {
    /// To show the help text and do nothing else.
    Help,
    /// To free a port.
    Run(CliArgs),
}

/// The name under which the program was called: the first argument, or `evict`
/// where the command line is empty.
pub open spec fn program_name_of(args: Seq<Seq<char>>) -> Seq<char> {
    if args.len() > 0 {
        args[0]
    } else {
        "evict"@
    }
}

/// Whether `arg` asks for the help text.
pub open spec fn is_help_flag(arg: Seq<char>) -> bool {
    arg == "-h"@ || arg == "--help"@
}

/// The message for a command line without a port.
pub open spec fn usage_message(program: Seq<char>) -> Seq<char> {
    "Usage: "@ + program
        + " <port>\n\nTerminate the process using the specified port.\n\nExample:\n  "@ + program
        + " 8080\n\nFor more information, use: "@ + program + " --help"@
}

/// The message for a port argument that writes no number.
pub open spec fn invalid_port_message(arg: Seq<char>) -> Seq<char> {
    "Invalid port: '"@ + arg + "' is not a valid number"@
}

/// What the command line `args` asks for, the name of the program included as
/// its first argument: the help text where the second argument is `-h` or
/// `--help`, else to free the port that the second argument writes. Arguments
/// after the second are not looked at.
pub open spec fn parsed_args(args: Seq<Seq<char>>) -> Result<Invocation, Seq<char>> {
    if args.len() < 2 {
        Err(usage_message(program_name_of(args)))
    } else if is_help_flag(args[1]) {
        Ok(Invocation::Help)
    } else {
        match parse_u16(args[1]) {
            Some(port) => Ok(Invocation::Run(CliArgs { port })),
            None => Err(invalid_port_message(args[1])),
        }
    }
}

/// The help text for a program called `program`.
pub open spec fn help_text(program: Seq<char>) -> Seq<char> {
    "evict - Port Killer Tool\n\nUSAGE:\n    "@ + program + " <PORT>\n    "@ + program
        + " [OPTIONS]\n\nDESCRIPTION:\n    Identifies and terminates the process using the specified TCP port.\n    This tool helps developers quickly free up ports that are in use.\n\nARGUMENTS:\n    <PORT>    The TCP port number to free (1-65535)\n\nOPTIONS:\n    -h, --help    Display this help message\n\nEXAMPLES:\n    "@
        + program + " 8080       # Free port 8080\n    "@ + program
        + " 3000       # Free port 3000\n    "@ + program
        + " --help     # Show this help message\n\nNOTE:\n    This tool may require administrator privileges to terminate certain processes.\n    If you encounter permission errors, try running as administrator.\n"@
}

/// The lines that tell which process uses the port.
pub open spec fn process_info_text(pid: u32, name: Seq<char>) -> Seq<char> {
    "Found process using port:\n  PID: "@ + decimal(pid as nat) + "\n  Name: "@ + name + "\n\n"@
}

/// The lines that tell that the process was ended and `port` is free.
pub open spec fn success_text(port: u16) -> Seq<char> {
    "Terminating process...\nPort "@ + decimal(port as nat) + " is now free\n"@
}

/// The line that tells that nothing uses `port`.
pub open spec fn not_in_use_text(port: u16) -> Seq<char> {
    "Port "@ + decimal(port as nat) + " is not in use\n"@
}

/// The line that reports the failure `error`.
pub open spec fn error_text(error: Seq<char>) -> Seq<char> {
    "Error: "@ + error + "\n"@
}

/// The name under which the program was called.
pub fn program_name(args: &Vec<String>) -> (name: &str)
    ensures
        name@ == program_name_of(args.deep_view()),
{
    if args.len() > 0 {
        args[0].as_str()
    } else {
        "evict"
    }
}

/// Reads the command line `args`, the name of the program included as its
/// first argument.
pub fn parse_args(args: &Vec<String>) -> (r: Result<Invocation, String>)
    ensures
        match parsed_args(args.deep_view()) {
            Ok(invocation) => r == Ok::<Invocation, String>(invocation),
            Err(message) => r is Err && r->Err_0@ == message,
        },
{
    if args.len() < 2 {
        let program = program_name(args);
        let mut message = String::from_str("Usage: ");
        message.append(program);
        message.append(
            " <port>\n\nTerminate the process using the specified port.\n\nExample:\n  ",
        );
        message.append(program);
        message.append(" 8080\n\nFor more information, use: ");
        message.append(program);
        message.append(" --help");
        return Err(message);
    }
    let arg = &args[1];
    assert(args.deep_view()[1] == arg@);
    if *arg == String::from_str("-h") || *arg == String::from_str("--help") {
        return Ok(Invocation::Help);
    }
    match read_u16(arg.as_str()) {
        Some(port) => Ok(Invocation::Run(CliArgs { port })),
        None => {
            let mut message = String::from_str("Invalid port: '");
            message.append(arg.as_str());
            message.append("' is not a valid number");
            Err(message)
        },
    }
}

/// The help text for a program called `program_name`.
pub fn display_help(program_name: &str) -> (text: String)
    ensures
        text@ == help_text(program_name@),
{
    let mut text = String::from_str("evict - Port Killer Tool\n\nUSAGE:\n    ");
    text.append(program_name);
    text.append(" <PORT>\n    ");
    text.append(program_name);
    text.append(
        " [OPTIONS]\n\nDESCRIPTION:\n    Identifies and terminates the process using the specified TCP port.\n    This tool helps developers quickly free up ports that are in use.\n\nARGUMENTS:\n    <PORT>    The TCP port number to free (1-65535)\n\nOPTIONS:\n    -h, --help    Display this help message\n\nEXAMPLES:\n    ",
    );
    text.append(program_name);
    text.append(" 8080       # Free port 8080\n    ");
    text.append(program_name);
    text.append(" 3000       # Free port 3000\n    ");
    text.append(program_name);
    text.append(
        " --help     # Show this help message\n\nNOTE:\n    This tool may require administrator privileges to terminate certain processes.\n    If you encounter permission errors, try running as administrator.\n",
    );
    text
}

/// The lines that tell which process uses the port: its number and its name.
pub fn display_process_info(pid: u32, name: &str) -> (text: String)
    ensures
        text@ == process_info_text(pid, name@),
{
    let mut text = String::from_str("Found process using port:\n  PID: ");
    push_decimal(&mut text, pid as u64);
    text.append("\n  Name: ");
    text.append(name);
    text.append("\n\n");
    text
}

/// The lines that tell that the process was ended and `port` is free.
pub fn display_success(port: u16) -> (text: String)
    ensures
        text@ == success_text(port),
{
    let mut text = String::from_str("Terminating process...\nPort ");
    push_decimal(&mut text, port as u64);
    text.append(" is now free\n");
    text
}

/// The line that tells that nothing uses `port`.
pub fn display_not_in_use(port: u16) -> (text: String)
    ensures
        text@ == not_in_use_text(port),
{
    let mut text = String::from_str("Port ");
    push_decimal(&mut text, port as u64);
    text.append(" is not in use\n");
    text
}

/// The line that reports the failure `error`, marked as an error.
pub fn display_error(error: &str) -> (text: String)
    ensures
        text@ == error_text(error@),
{
    let mut text = String::from_str("Error: ");
    text.append(error);
    text.append("\n");
    text
}

/// Whether `part` stands somewhere in `text`.
pub open spec fn contains(text: Seq<char>, part: Seq<char>) -> bool {
    exists|i: int|
        0 <= i && i + part.len() <= text.len() && #[trigger] text.subrange(i, i + part.len())
            == part
}

/// Whether `text` begins with `start`.
pub open spec fn starts_with(text: Seq<char>, start: Seq<char>) -> bool {
    start.len() <= text.len() && text.subrange(0, start.len() as int) == start
}

/// What stands between two texts stands in the whole.
proof fn lemma_contains_middle(before: Seq<char>, part: Seq<char>, after: Seq<char>)
    ensures
        contains(before + part + after, part),
{
    let text = before + part + after;
    let at = before.len() as int;
    assert(text.subrange(at, at + part.len()) =~= part);
}

/// The texts show what they are about: the lines on a process name its number
/// and its name, the lines on a port name the port, and the report of a
/// failure begins with the mark of an error and repeats the failure.
pub proof fn lemma_texts_show_their_subject(pid: u32, name: Seq<char>, port: u16, error: Seq<char>)
    ensures
        contains(process_info_text(pid, name), decimal(pid as nat)),
        contains(process_info_text(pid, name), name),
        contains(success_text(port), decimal(port as nat)),
        contains(not_in_use_text(port), decimal(port as nat)),
        contains(error_text(error), error),
        starts_with(error_text(error), "Error: "@),
{
    let pid_text = decimal(pid as nat);
    let port_text = decimal(port as nat);
    lemma_contains_middle(
        "Found process using port:\n  PID: "@,
        pid_text,
        "\n  Name: "@ + name + "\n\n"@,
    );
    assert(process_info_text(pid, name) =~= "Found process using port:\n  PID: "@ + pid_text
        + ("\n  Name: "@ + name + "\n\n"@));
    lemma_contains_middle(
        "Found process using port:\n  PID: "@ + pid_text + "\n  Name: "@,
        name,
        "\n\n"@,
    );
    lemma_contains_middle("Terminating process...\nPort "@, port_text, " is now free\n"@);
    lemma_contains_middle("Port "@, port_text, " is not in use\n"@);
    lemma_contains_middle("Error: "@, error, "\n"@);
    assert(error_text(error).subrange(0, "Error: "@.len() as int) =~= "Error: "@);
}

} // verus!
