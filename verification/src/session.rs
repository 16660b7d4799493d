//! One run of the tool, from the command line to the exit code.
//!
//! The run goes through up to four stages: read the command line, find the
//! owner of the port, ask for its name, end it. After each stage a function of
//! this module says what to print and what comes next. The program around the
//! library does the printing and calls the services.

use crate::cli::{
    display_error, display_help, display_not_in_use, display_process_info, display_success,
    error_text, help_text, not_in_use_text, parse_args, parsed_args, process_info_text,
    program_name, program_name_of, success_text, Invocation,
};
use crate::error::{ServiceError, ServiceErrorView};
use crate::port_service::PortBinding;
use crate::text::{decimal, decimal_string};
use crate::validation::{
    lemma_validate_decimal, out_of_range_message, validate_port, validated,
};
use vstd::prelude::*;

verus! {

/// The exit code of a run that freed the port or found it free.
pub const EXIT_SUCCESS: i32 = 0;

/// The exit code of a run that failed.
pub const EXIT_FAILURE: i32 = 1;

/// What to do next in a run. A text in `stdout` goes to the output, one in
/// `stderr` to the error stream, before anything else is done.
#[derive(Debug, PartialEq, Eq)]
pub enum Directive {
    /// Find the owner of `port` and come back with [`resolved`].
    Resolve { port: u16 },
    /// Ask for the name of the process of `binding` and come back with
    /// [`identified`].
    Identify { binding: PortBinding },
    /// Print `stdout`, end the process of `binding` and come back with
    /// [`terminated`].
    Terminate { binding: PortBinding, stdout: String },
    /// Print `stdout` and `stderr` and leave with `code`.
    Exit { code: i32, stdout: String, stderr: String },
}

/// The mathematical value of a [`Directive`].
pub enum DirectiveView {
    Resolve { port: u16 },
    Identify { binding: PortBinding },
    Terminate { binding: PortBinding, stdout: Seq<char> },
    Exit { code: i32, stdout: Seq<char>, stderr: Seq<char> },
}

impl View for Directive {
    type V = DirectiveView;

    open spec fn view(&self) -> DirectiveView {
        match *self {
            Directive::Resolve { port } => DirectiveView::Resolve { port },
            Directive::Identify { binding } => DirectiveView::Identify { binding },
            Directive::Terminate { binding, stdout } => DirectiveView::Terminate {
                binding,
                stdout: stdout@,
            },
            Directive::Exit { code, stdout, stderr } => DirectiveView::Exit {
                code,
                stdout: stdout@,
                stderr: stderr@,
            },
        }
    }
}

/// The advice that follows the report of a failed service.
pub open spec fn hint_text() -> Seq<char> {
    "Hint: Try running as administrator\n"@
}

/// The end of a run on bad input: the message on the error stream, code 1.
pub open spec fn rejected(message: Seq<char>) -> DirectiveView {
    DirectiveView::Exit { code: EXIT_FAILURE, stdout: Seq::empty(), stderr: error_text(message) }
}

/// The end of a run on a failed service: its message and the advice to run
/// with more rights on the error stream, code 1.
pub open spec fn failed(error: ServiceErrorView) -> DirectiveView {
    DirectiveView::Exit {
        code: EXIT_FAILURE,
        stdout: Seq::empty(),
        stderr: error_text(error.message()) + hint_text(),
    }
}

/// What follows the command line `args`: the help text and code 0 where it is
/// asked for; the message and code 1 where the port is missing, writes no
/// number or, written out again, does not pass the validation; else the search
/// for the owner of the port.
pub open spec fn begun(args: Seq<Seq<char>>) -> DirectiveView {
    match parsed_args(args) {
        Err(message) => rejected(message),
        Ok(Invocation::Help) => DirectiveView::Exit {
            code: EXIT_SUCCESS,
            stdout: help_text(program_name_of(args)),
            stderr: Seq::empty(),
        },
        Ok(Invocation::Run(run)) => match validated(decimal(run.port as nat)) {
            Err(message) => rejected(message),
            Ok(port) => DirectiveView::Resolve { port },
        },
    }
}

/// What follows the search for the owner of `port`: with an owner, the lookup
/// of its name; without one, the notice that the port is not in use and code
/// 0; on failure, its report and code 1.
pub open spec fn after_resolution(
    port: u16,
    result: Result<Option<PortBinding>, ServiceErrorView>,
) -> DirectiveView {
    match result {
        Ok(Some(binding)) => DirectiveView::Identify { binding },
        Ok(None) => DirectiveView::Exit {
            code: EXIT_SUCCESS,
            stdout: not_in_use_text(port),
            stderr: Seq::empty(),
        },
        Err(error) => failed(error),
    }
}

/// What follows the lookup of the name of the owner: with a name, the lines
/// that show process and name, then the ending of the process; on failure, its
/// report and code 1.
pub open spec fn after_identification(
    binding: PortBinding,
    result: Result<Seq<char>, ServiceErrorView>,
) -> DirectiveView {
    match result {
        Ok(name) => DirectiveView::Terminate {
            binding,
            stdout: process_info_text(binding.pid, name),
        },
        Err(error) => failed(error),
    }
}

/// What follows the ending of the owner of `port`: on success, the
/// confirmation that the port is free and code 0; on failure, its report and
/// code 1.
pub open spec fn after_termination(
    port: u16,
    result: Result<(), ServiceErrorView>,
) -> DirectiveView {
    match result {
        Ok(()) => DirectiveView::Exit {
            code: EXIT_SUCCESS,
            stdout: success_text(port),
            stderr: Seq::empty(),
        },
        Err(error) => failed(error),
    }
}

/// The end of a run on bad input.
fn reject(message: &str) -> (directive: Directive)
    ensures
        directive@ == rejected(message@),
{
    Directive::Exit { code: EXIT_FAILURE, stdout: String::new(), stderr: display_error(message) }
}

/// The end of a run on a failed service.
fn fail(error: &ServiceError) -> (directive: Directive)
    ensures
        directive@ == failed(error@),
{
    let message = error.message();
    let mut stderr = display_error(message.as_str());
    stderr.append("Hint: Try running as administrator\n");
    Directive::Exit { code: EXIT_FAILURE, stdout: String::new(), stderr }
}

/// Begins a run with the command line `args`, the name of the program
/// included as its first argument.
///
/// No search begins but for a port from 1 to 65535.
pub fn begin(args: &Vec<String>) -> (directive: Directive)
    ensures
        directive@ == begun(args.deep_view()),
        directive matches Directive::Resolve { port } ==> 1 <= port <= 65535,
{
    match parse_args(args) {
        Err(message) => reject(message.as_str()),
        Ok(Invocation::Help) => Directive::Exit {
            code: EXIT_SUCCESS,
            stdout: display_help(program_name(args)),
            stderr: String::new(),
        },
        Ok(Invocation::Run(run)) => {
            let written = decimal_string(run.port as u64);
            match validate_port(written.as_str()) {
                Err(message) => reject(message.as_str()),
                Ok(port) => Directive::Resolve { port },
            }
        },
    }
}

/// Goes on after the search for the owner of `port`.
pub fn resolved(port: u16, result: Result<Option<PortBinding>, ServiceError>) -> (directive:
    Directive)
    ensures
        directive@ == after_resolution(port, crate::error::result_view(result)),
{
    match result {
        Ok(Some(binding)) => Directive::Identify { binding },
        Ok(None) => Directive::Exit {
            code: EXIT_SUCCESS,
            stdout: display_not_in_use(port),
            stderr: String::new(),
        },
        Err(error) => fail(&error),
    }
}

/// Goes on after the lookup of the name of the process of `binding`.
pub fn identified(binding: PortBinding, result: Result<String, ServiceError>) -> (directive:
    Directive)
    ensures
        directive@ == after_identification(binding, crate::process_service::name_view(result)),
{
    match result {
        Ok(name) => Directive::Terminate {
            binding,
            stdout: display_process_info(binding.pid, name.as_str()),
        },
        Err(error) => fail(&error),
    }
}

/// Goes on after the ending of the owner of `port`.
pub fn terminated(port: u16, result: Result<(), ServiceError>) -> (directive: Directive)
    ensures
        directive@ == after_termination(port, crate::error::result_view(result)),
{
    match result {
        Ok(()) => Directive::Exit {
            code: EXIT_SUCCESS,
            stdout: display_success(port),
            stderr: String::new(),
        },
        Err(error) => fail(&error),
    }
}

/// A run goes on to the search exactly for a port from 1 to 65535, and with
/// that port; the port zero is turned down as out of range.
pub proof fn lemma_begun_with_port(args: Seq<Seq<char>>, port: u16)
    requires
        parsed_args(args) == Ok::<Invocation, Seq<char>>(
            Invocation::Run(crate::cli::CliArgs { port }),
        ),
    ensures
        port != 0 ==> begun(args) == (DirectiveView::Resolve { port }),
        port == 0 ==> begun(args) == rejected(out_of_range_message()),
{
    lemma_validate_decimal(port as nat);
}

} // verus!
