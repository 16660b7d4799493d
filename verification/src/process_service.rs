//! Asking a process for its name, and ending it.
//!
//! Both tasks run the same way: open a handle to the process with the one
//! right that the task needs, do the task, close the handle. Each call into
//! the operating system is made by the caller; [`get_process_name`] and
//! [`kill_process`] decide, after each answer, what is to be asked next and
//! when the task is over. A handle that was opened is closed before the result
//! is handed out, whatever the call in between came to.

use crate::error::{result_view, ServiceError, ServiceErrorView};
use vstd::prelude::*;

verus! {

/// The character between the parts of a path.
pub const SEPARATOR: char = '\\';

/// The length, in UTF-16 code units, of the buffer that the path of a program
/// is asked into.
pub const IMAGE_NAME_CAPACITY: u32 = 1024;

/// The exit code that a process is ended with.
pub const FORCED_EXIT_CODE: u32 = 1;

/// The right that a handle is opened with: the least that the task needs.
#[derive(Debug, Clone, Copy, PartialEq, Eq, Structural)]
pub enum Access {
    /// To ask about the process.
    QueryInformation,
    /// To end the process.
    Terminate,
}

/// A call into the operating system that the caller is to make. All but the
/// first of a task are made on the handle that the first one opened.
#[derive(Debug, Clone, Copy, PartialEq, Eq, Structural)]
pub enum ProcessRequest {
    /// Open a handle to the process `pid`, not inheritable, with `access`.
    Open { pid: u32, access: Access },
    /// Ask for the full path of the program, in the form that the user
    /// interface shows, into a buffer of `capacity` UTF-16 code units.
    QueryImageName { capacity: u32 },
    /// End the process at once, with `exit_code`.
    Terminate { exit_code: u32 },
    /// Close the handle.
    Close,
}

/// What the operating system answered to a request.
#[derive(Debug, PartialEq, Eq)]
pub enum ProcessReply {
    /// The call succeeded and gave nothing back.
    Done,
    /// The call succeeded and wrote these UTF-16 code units.
    ImageName(Vec<u16>),
    /// The call failed; the text is the system's description of the failure.
    Failed(String),
}

/// The mathematical value of a [`ProcessReply`].
pub enum ProcessReplyView {
    Done,
    ImageName(Seq<u16>),
    Failed(Seq<char>),
}

impl View for ProcessReply {
    type V = ProcessReplyView;

    open spec fn view(&self) -> ProcessReplyView {
        match *self {
            ProcessReply::Done => ProcessReplyView::Done,
            ProcessReply::ImageName(units) => ProcessReplyView::ImageName(units@),
            ProcessReply::Failed(reason) => ProcessReplyView::Failed(reason@),
        }
    }
}

/// The text that UTF-16 code units write, where each code unit that belongs to
/// no character is replaced by U+FFFD.
pub uninterp spec fn utf16_lossy(units: Seq<u16>) -> Seq<char>;

/// Decodes UTF-16 with `String::from_utf16_lossy`. Trusted: the result is the
/// text that the standard library decodes from these code units, which depends
/// on nothing but the code units.
#[verifier::external_body]
fn decode_utf16(units: &[u16]) -> (text: String)
    ensures
        text@ == utf16_lossy(units@),
{
    String::from_utf16_lossy(units)
}

/// Where the last separator stands in `path`; -1 where there is none.
pub open spec fn last_separator(path: Seq<char>) -> int
    decreases path.len(),
{
    if path.len() == 0 {
        -1
    } else if path.last() == SEPARATOR {
        path.len() - 1
    } else {
        last_separator(path.drop_last())
    }
}

/// The last part of `path`: what follows the last separator, or all of it
/// where it has no separator.
pub open spec fn file_name(path: Seq<char>) -> Seq<char> {
    path.subrange(last_separator(path) + 1, path.len() as int)
}

/// The name of the program at `path`, or the complaint that it is empty.
pub open spec fn named(path: Seq<char>) -> Result<Seq<char>, ServiceErrorView> {
    if file_name(path).len() == 0 {
        Err(ServiceErrorView::EmptyName)
    } else {
        Ok(file_name(path))
    }
}

/// Whether `name` can be the name of a program: it is not empty and holds no
/// separator.
pub open spec fn is_file_name(name: Seq<char>) -> bool {
    name.len() > 0 && forall|i: int| 0 <= i < name.len() ==> name[i] != SEPARATOR
}

/// The mathematical value of a name or the failure to get one.
pub open spec fn name_view(r: Result<String, ServiceError>) -> Result<
    Seq<char>,
    ServiceErrorView,
> {
    match r {
        Ok(name) => Ok(name@),
        Err(error) => Err(error@),
    }
}

/// The last separator is a separator, and none follows it.
pub proof fn lemma_last_separator(path: Seq<char>)
    ensures
        -1 <= last_separator(path) < path.len(),
        last_separator(path) >= 0 ==> path[last_separator(path)] == SEPARATOR,
        forall|i: int| last_separator(path) < i < path.len() ==> path[i] != SEPARATOR,
    decreases path.len(),
{
    if path.len() > 0 && path.last() != SEPARATOR {
        lemma_last_separator(path.drop_last());
        assert forall|i: int| last_separator(path) < i < path.len() implies path[i]
            != SEPARATOR by {
            if i < path.len() - 1 {
                assert(path.drop_last()[i] == path[i]);
            }
        }
    }
}

/// A file name is the end of its path and holds no separator, so it is never
/// the full path of a program in a directory.
pub proof fn lemma_file_name(path: Seq<char>)
    ensures
        file_name(path).len() <= path.len(),
        file_name(path) == path.skip(path.len() - file_name(path).len()),
        forall|i: int| 0 <= i < file_name(path).len() ==> file_name(path)[i] != SEPARATOR,
{
    lemma_last_separator(path);
    assert(file_name(path) =~= path.skip(path.len() - file_name(path).len()));
}

/// The name of the program whose full path is `path`: its last part, of which
/// it must have one.
pub fn process_name(path: &str) -> (r: Result<String, ServiceError>)
    ensures
        name_view(r) == named(path@),
        r matches Ok(name) ==> is_file_name(name@),
{
    proof {
        lemma_file_name(path@);
    }
    let length = path.unicode_len();
    let mut start: usize = 0;
    let mut i: usize = 0;
    for c in it: path.chars()
        invariant
            it.seq() == path@,
            length == path@.len(),
            i == it.index(),
            i <= length,
            start == last_separator(path@.take(i as int)) + 1,
            start <= i,
    {
        assert(path@.take(i + 1).drop_last() =~= path@.take(i as int));
        i = i + 1;
        if c == SEPARATOR {
            start = i;
        }
    }
    assert(path@.take(length as int) =~= path@);
    if start == length {
        Err(ServiceError::EmptyName)
    } else {
        Ok(String::from_str(path.substring_char(start, length)))
    }
}

/// How far the lookup of a name has come.
#[derive(Debug, PartialEq, Eq)]
pub enum NameLookup {
    /// A handle to the process has been asked for.
    Opening { pid: u32 },
    /// The handle is open and the path of the program has been asked for.
    Querying { pid: u32 },
    /// The task is done and the handle is being closed.
    Closing { outcome: Result<String, ServiceError> },
}

/// The mathematical value of a [`NameLookup`].
pub enum NameLookupView {
    Opening { pid: u32 },
    Querying { pid: u32 },
    Closing { outcome: Result<Seq<char>, ServiceErrorView> },
}

impl View for NameLookup {
    type V = NameLookupView;

    open spec fn view(&self) -> NameLookupView {
        match *self {
            NameLookup::Opening { pid } => NameLookupView::Opening { pid },
            NameLookup::Querying { pid } => NameLookupView::Querying { pid },
            NameLookup::Closing { outcome } => NameLookupView::Closing {
                outcome: name_view(outcome),
            },
        }
    }
}

/// What follows an answer of the system in the lookup of a name.
#[derive(Debug, PartialEq, Eq)]
pub enum NameStep {
    /// The lookup goes on: make the request of this state and come back with
    /// the answer.
    Continue(NameLookup),
    /// The lookup is over and no handle is open.
    Finished(Result<String, ServiceError>),
}

/// The mathematical value of a [`NameStep`].
pub enum NameStepView {
    Continue(NameLookupView),
    Finished(Result<Seq<char>, ServiceErrorView>),
}

impl View for NameStep {
    type V = NameStepView;

    open spec fn view(&self) -> NameStepView {
        match *self {
            NameStep::Continue(lookup) => NameStepView::Continue(lookup@),
            NameStep::Finished(outcome) => NameStepView::Finished(name_view(outcome)),
        }
    }
}

impl NameStepView {
    /// Whether the lookup can have come to this step: a name that is handed
    /// out or kept is the name of a program, never empty and never a path.
    pub open spec fn wf(self) -> bool {
        match self {
            NameStepView::Continue(lookup) => lookup.wf(),
            NameStepView::Finished(Ok(name)) => is_file_name(name),
            NameStepView::Finished(Err(_)) => true,
        }
    }
}

impl NameLookupView {
    /// Whether the lookup can have come to this state: the outcome that it
    /// keeps while the handle is closed is a failure or the name of a program.
    pub open spec fn wf(self) -> bool {
        match self {
            NameLookupView::Closing { outcome: Ok(name) } => is_file_name(name),
            _ => true,
        }
    }

    /// The request that this state waits on.
    pub open spec fn pending(self) -> ProcessRequest {
        match self {
            NameLookupView::Opening { pid } => ProcessRequest::Open {
                pid,
                access: Access::QueryInformation,
            },
            NameLookupView::Querying { .. } => ProcessRequest::QueryImageName {
                capacity: IMAGE_NAME_CAPACITY,
            },
            NameLookupView::Closing { .. } => ProcessRequest::Close,
        }
    }

    /// Whether a handle is open in this state.
    pub open spec fn holds_handle(self) -> bool {
        !(self is Opening)
    }

    /// What follows when the system answers `reply` in this state.
    ///
    /// Where the handle cannot be opened the lookup is over at once. Once it
    /// is open, the outcome of the query is kept while the handle is closed,
    /// and handed out whatever the closing came to.
    pub open spec fn after(self, reply: ProcessReplyView) -> NameStepView {
        match self {
            NameLookupView::Opening { pid } => match reply {
                ProcessReplyView::Failed(reason) => NameStepView::Finished(
                    Err(ServiceErrorView::OpenProcess { pid, reason }),
                ),
                _ => NameStepView::Continue(NameLookupView::Querying { pid }),
            },
            NameLookupView::Querying { .. } => NameStepView::Continue(
                NameLookupView::Closing { outcome: image_name_outcome(reply) },
            ),
            NameLookupView::Closing { outcome } => NameStepView::Finished(outcome),
        }
    }
}

/// The outcome of the lookup, given the answer to the query for the path: the
/// name of the program that the code units write, or why there is none. A
/// success without code units counts as an empty path.
pub open spec fn image_name_outcome(reply: ProcessReplyView) -> Result<
    Seq<char>,
    ServiceErrorView,
> {
    match reply {
        ProcessReplyView::Failed(reason) => Err(ServiceErrorView::ImageName { reason }),
        ProcessReplyView::ImageName(units) => named(utf16_lossy(units)),
        ProcessReplyView::Done => Err(ServiceErrorView::EmptyName),
    }
}

impl NameLookup {
    /// Begins the lookup of the name of the process `pid`: the first thing to
    /// ask for is a handle with the right to query.
    pub fn start(pid: u32) -> (lookup: NameLookup)
        ensures
            lookup@ == (NameLookupView::Opening { pid }),
            lookup@.wf(),
    {
        NameLookup::Opening { pid }
    }

    /// The request to make in this state.
    pub fn request(&self) -> (request: ProcessRequest)
        ensures
            request == self@.pending(),
    {
        match self {
            NameLookup::Opening { pid } => ProcessRequest::Open {
                pid: *pid,
                access: Access::QueryInformation,
            },
            NameLookup::Querying { .. } => ProcessRequest::QueryImageName {
                capacity: IMAGE_NAME_CAPACITY,
            },
            NameLookup::Closing { .. } => ProcessRequest::Close,
        }
    }
}

/// Takes the lookup of a name one step on: `reply` is what the system answered
/// to the request of `lookup`.
///
/// From a state that the lookup can have come to, it comes to such a state
/// again or to an end, and a name that it hands out is never empty and holds
/// no separator.
pub fn get_process_name(lookup: NameLookup, reply: ProcessReply) -> (step: NameStep)
    ensures
        step@ == lookup@.after(reply@),
        lookup@.wf() ==> step@.wf(),
{
    proof {
        if lookup@.wf() {
            lemma_name_step(lookup@, reply@);
        }
    }
    match lookup {
        NameLookup::Opening { pid } => match reply {
            ProcessReply::Failed(reason) => NameStep::Finished(
                Err(ServiceError::OpenProcess { pid, reason }),
            ),
            _ => NameStep::Continue(NameLookup::Querying { pid }),
        },
        NameLookup::Querying { .. } => {
            let outcome = match reply {
                ProcessReply::Failed(reason) => Err(ServiceError::ImageName { reason }),
                ProcessReply::ImageName(units) => {
                    let path = decode_utf16(units.as_slice());
                    process_name(path.as_str())
                },
                ProcessReply::Done => Err(ServiceError::EmptyName),
            };
            NameStep::Continue(NameLookup::Closing { outcome })
        },
        NameLookup::Closing { outcome } => NameStep::Finished(outcome),
    }
}

/// How far the ending of a process has come.
#[derive(Debug, PartialEq, Eq)]
pub enum Termination {
    /// A handle to the process has been asked for.
    Opening { pid: u32 },
    /// The handle is open and the system has been asked to end the process.
    Terminating { pid: u32 },
    /// The task is done and the handle is being closed.
    Closing { outcome: Result<(), ServiceError> },
}

/// The mathematical value of a [`Termination`].
pub enum TerminationView {
    Opening { pid: u32 },
    Terminating { pid: u32 },
    Closing { outcome: Result<(), ServiceErrorView> },
}

impl View for Termination {
    type V = TerminationView;

    open spec fn view(&self) -> TerminationView {
        match *self {
            Termination::Opening { pid } => TerminationView::Opening { pid },
            Termination::Terminating { pid } => TerminationView::Terminating { pid },
            Termination::Closing { outcome } => TerminationView::Closing {
                outcome: result_view(outcome),
            },
        }
    }
}

/// What follows an answer of the system in the ending of a process.
#[derive(Debug, PartialEq, Eq)]
pub enum KillStep {
    /// The task goes on: make the request of this state and come back with
    /// the answer.
    Continue(Termination),
    /// The task is over and no handle is open. Success means that the system
    /// took the request, not that the process is gone already.
    Finished(Result<(), ServiceError>),
}

/// The mathematical value of a [`KillStep`].
pub enum KillStepView {
    Continue(TerminationView),
    Finished(Result<(), ServiceErrorView>),
}

impl View for KillStep {
    type V = KillStepView;

    open spec fn view(&self) -> KillStepView {
        match *self {
            KillStep::Continue(termination) => KillStepView::Continue(termination@),
            KillStep::Finished(outcome) => KillStepView::Finished(result_view(outcome)),
        }
    }
}

impl TerminationView {
    /// The request that this state waits on.
    pub open spec fn pending(self) -> ProcessRequest {
        match self {
            TerminationView::Opening { pid } => ProcessRequest::Open {
                pid,
                access: Access::Terminate,
            },
            TerminationView::Terminating { .. } => ProcessRequest::Terminate {
                exit_code: FORCED_EXIT_CODE,
            },
            TerminationView::Closing { .. } => ProcessRequest::Close,
        }
    }

    /// Whether a handle is open in this state.
    pub open spec fn holds_handle(self) -> bool {
        !(self is Opening)
    }

    /// What follows when the system answers `reply` in this state.
    ///
    /// Where the handle cannot be opened the task is over at once and nothing
    /// was asked of the process. Once it is open, the outcome of the request
    /// to end the process is kept while the handle is closed, and handed out
    /// whatever the closing came to.
    pub open spec fn after(self, reply: ProcessReplyView) -> KillStepView {
        match self {
            TerminationView::Opening { pid } => match reply {
                ProcessReplyView::Failed(reason) => KillStepView::Finished(
                    Err(ServiceErrorView::OpenForTermination { pid, reason }),
                ),
                _ => KillStepView::Continue(TerminationView::Terminating { pid }),
            },
            TerminationView::Terminating { pid } => match reply {
                ProcessReplyView::Failed(reason) => KillStepView::Continue(
                    TerminationView::Closing {
                        outcome: Err(ServiceErrorView::Terminate { pid, reason }),
                    },
                ),
                _ => KillStepView::Continue(TerminationView::Closing { outcome: Ok(()) }),
            },
            TerminationView::Closing { outcome } => KillStepView::Finished(outcome),
        }
    }
}

impl Termination {
    /// Begins the ending of the process `pid`: the first thing to ask for is a
    /// handle with the right to terminate.
    pub fn start(pid: u32) -> (termination: Termination)
        ensures
            termination@ == (TerminationView::Opening { pid }),
    {
        Termination::Opening { pid }
    }

    /// The request to make in this state.
    pub fn request(&self) -> (request: ProcessRequest)
        ensures
            request == self@.pending(),
    {
        match self {
            Termination::Opening { pid } => ProcessRequest::Open {
                pid: *pid,
                access: Access::Terminate,
            },
            Termination::Terminating { .. } => ProcessRequest::Terminate {
                exit_code: FORCED_EXIT_CODE,
            },
            Termination::Closing { .. } => ProcessRequest::Close,
        }
    }
}

/// Takes the ending of a process one step on: `reply` is what the system
/// answered to the request of `termination`.
pub fn kill_process(termination: Termination, reply: ProcessReply) -> (step: KillStep)
    ensures
        step@ == termination@.after(reply@),
{
    match termination {
        Termination::Opening { pid } => match reply {
            ProcessReply::Failed(reason) => KillStep::Finished(
                Err(ServiceError::OpenForTermination { pid, reason }),
            ),
            _ => KillStep::Continue(Termination::Terminating { pid }),
        },
        Termination::Terminating { pid } => match reply {
            ProcessReply::Failed(reason) => KillStep::Continue(
                Termination::Closing { outcome: Err(ServiceError::Terminate { pid, reason }) },
            ),
            _ => KillStep::Continue(Termination::Closing { outcome: Ok(()) }),
        },
        Termination::Closing { outcome } => KillStep::Finished(outcome),
    }
}

/// A step of the lookup keeps to the states that the lookup can come to.
pub proof fn lemma_name_step(lookup: NameLookupView, reply: ProcessReplyView)
    requires
        lookup.wf(),
    ensures
        lookup.after(reply).wf(),
{
    match reply {
        ProcessReplyView::ImageName(units) => {
            lemma_file_name(utf16_lossy(units));
        },
        _ => {},
    }
}

/// How the lookup of a name runs, whatever the system answers: it asks for a
/// handle with the right to query; where that fails it ends with the failure to
/// open and asks for nothing more; otherwise it asks for the path, then closes
/// the handle, and ends with the outcome of the query.
pub proof fn lemma_name_lookup_run(
    pid: u32,
    opened: ProcessReplyView,
    queried: ProcessReplyView,
    closed: ProcessReplyView,
)
    ensures
        ({
            let start = NameLookupView::Opening { pid };
            &&& start.pending() == (ProcessRequest::Open { pid, access: Access::QueryInformation })
            &&& match opened {
                ProcessReplyView::Failed(reason) => start.after(opened) == NameStepView::Finished(
                    Err(ServiceErrorView::OpenProcess { pid, reason }),
                ),
                _ => {
                    &&& start.after(opened) matches NameStepView::Continue(querying)
                    &&& querying.pending() == (ProcessRequest::QueryImageName { capacity: 1024 })
                    &&& querying.after(queried) matches NameStepView::Continue(closing)
                    &&& closing.pending() == ProcessRequest::Close
                    &&& closing.after(closed) == NameStepView::Finished(image_name_outcome(queried))
                },
            }
        }),
{
}

/// A name that the lookup hands out is never empty and holds no separator:
/// it is a file name, never a path.
pub proof fn lemma_name_is_file_name(
    pid: u32,
    opened: ProcessReplyView,
    queried: ProcessReplyView,
    closed: ProcessReplyView,
    name: Seq<char>,
)
    requires
        ({
            &&& (NameLookupView::Opening { pid }).after(opened) matches NameStepView::Continue(
                querying,
            )
            &&& querying.after(queried) matches NameStepView::Continue(closing)
            &&& closing.after(closed) == NameStepView::Finished(Ok(name))
        }),
    ensures
        is_file_name(name),
        queried matches ProcessReplyView::ImageName(units) && name == file_name(utf16_lossy(units)),
{
    lemma_name_lookup_run(pid, opened, queried, closed);
    match queried {
        ProcessReplyView::ImageName(units) => {
            lemma_file_name(utf16_lossy(units));
        },
        _ => {},
    }
}

/// The lookup of a name opens a handle only while it holds none, and ends only
/// where no handle was opened or after it has asked to close the one it held.
pub proof fn lemma_name_lookup_handle(state: NameLookupView, reply: ProcessReplyView)
    ensures
        state.pending() is Open <==> !state.holds_handle(),
        state.after(reply) matches NameStepView::Continue(next) ==> next.holds_handle(),
        state.after(reply) is Finished ==> (!state.holds_handle() && reply is Failed)
            || state.pending() == ProcessRequest::Close,
{
}

/// How the ending of a process runs, whatever the system answers: it asks for
/// a handle with the right to terminate; where that fails it ends with the
/// failure to open and asks for nothing more; otherwise it asks to end the
/// process with exit code 1, then closes the handle, and ends with success
/// where the system took the request and with its refusal where it did not.
pub proof fn lemma_kill_run(
    pid: u32,
    opened: ProcessReplyView,
    terminated: ProcessReplyView,
    closed: ProcessReplyView,
)
    ensures
        ({
            let start = TerminationView::Opening { pid };
            &&& start.pending() == (ProcessRequest::Open { pid, access: Access::Terminate })
            &&& match opened {
                ProcessReplyView::Failed(reason) => start.after(opened) == KillStepView::Finished(
                    Err(ServiceErrorView::OpenForTermination { pid, reason }),
                ),
                _ => {
                    &&& start.after(opened) matches KillStepView::Continue(terminating)
                    &&& terminating.pending() == (ProcessRequest::Terminate { exit_code: 1 })
                    &&& terminating.after(terminated) matches KillStepView::Continue(closing)
                    &&& closing.pending() == ProcessRequest::Close
                    &&& closing.after(closed) == KillStepView::Finished(
                        match terminated {
                            ProcessReplyView::Failed(reason) => Err(
                                ServiceErrorView::Terminate { pid, reason },
                            ),
                            _ => Ok(()),
                        },
                    )
                },
            }
        }),
{
}

/// Ending a process that does not exist fails, and fails alike each time: the
/// system refuses the handle, the task ends at once with a failure of the kind
/// `Handle`, and the process was asked nothing. A second attempt, whatever
/// reason the system gives then, ends with a failure of the same kind.
pub proof fn lemma_kill_missing_process(pid: u32, first: Seq<char>, second: Seq<char>)
    ensures
        ({
            let start = TerminationView::Opening { pid };
            &&& start.after(ProcessReplyView::Failed(first)) matches KillStepView::Finished(
                Err(error),
            )
            &&& error == (ServiceErrorView::OpenForTermination { pid, reason: first })
            &&& error.kind() == crate::error::ErrorKind::Handle
            &&& start.after(ProcessReplyView::Failed(second)) matches KillStepView::Finished(
                Err(again),
            )
            &&& again.kind() == error.kind()
        }),
{
}

/// The ending of a process opens a handle only while it holds none, and ends
/// only where no handle was opened or after it has asked to close the one it
/// held.
pub proof fn lemma_kill_handle(state: TerminationView, reply: ProcessReplyView)
    ensures
        state.pending() is Open <==> !state.holds_handle(),
        state.after(reply) matches KillStepView::Continue(next) ==> next.holds_handle(),
        state.after(reply) is Finished ==> (!state.holds_handle() && reply is Failed)
            || state.pending() == ProcessRequest::Close,
{
}

} // verus!
