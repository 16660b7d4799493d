//! From a TCP port to the process that owns it.
//!
//! The operating system hands out its table of TCP connections, each with the
//! process that owns it, in two calls: the first is made without a buffer and
//! must fail with the notice that the buffer is too small, which tells the size
//! of the table; the second is made with a buffer of that size and fills it.
//! [`find_process_by_port`] decides what follows each answer; the calls
//! themselves are made by the caller.

use crate::error::{result_view, ServiceError, ServiceErrorView};
use vstd::prelude::*;

verus! {

/// The code with which the system says that the buffer is too small.
pub const ERROR_INSUFFICIENT_BUFFER: u32 = 122;

/// The code with which the system reports success.
pub const NO_ERROR: u32 = 0;

/// The bytes in front of the first record: the number of records.
pub const HEADER_LEN: usize = 4;

/// The bytes of one record: six fields of 32 bits.
pub const ROW_LEN: usize = 24;

/// Where the local port stands in a record.
pub const LOCAL_PORT_AT: usize = 8;

/// Where the owning process stands in a record.
pub const OWNING_PID_AT: usize = 20;

/// A TCP port together with the process that owns it.
#[derive(Debug, Clone, Copy, PartialEq, Eq)]
pub struct PortBinding {
    pub pid: u32,
    pub port: u16,
}

impl PortBinding {
    /// A binding names a process, which is never process zero, and a port from
    /// 1 to 65535.
    pub open spec fn wf(&self) -> bool {
        self.pid != 0 && self.port != 0
    }
}

/// One record of the connection table, as far as the search reads it.
#[derive(Debug, Clone, Copy, PartialEq, Eq)]
pub struct TcpRow {
    /// The local port of the connection.
    pub local_port: u16,
    /// The process that owns the connection; zero where none does, as for a
    /// connection that is left waiting after its process closed it.
    pub owning_pid: u32,
}

impl TcpRow {
    /// Whether the record says that a process owns `port`. A record with
    /// process zero names no owner.
    pub open spec fn owns(self, port: u16) -> bool {
        self.local_port == port && self.owning_pid != 0
    }
}

/// The 32-bit number that stands at `at` in `bytes`, least significant byte
/// first: the byte order of every machine that has this table.
pub open spec fn le_u32(bytes: Seq<u8>, at: int) -> u32 {
    (bytes[at] + 256 * bytes[at + 1] + 65536 * bytes[at + 2] + 16777216 * bytes[at + 3]) as u32
}

/// The 16-bit number that stands at `at` in `bytes` in network byte order, most
/// significant byte first.
pub open spec fn be_u16(bytes: Seq<u8>, at: int) -> u16 {
    (256 * bytes[at] + bytes[at + 1]) as u16
}

/// The number of records that `table` announces.
pub open spec fn entry_count(table: Seq<u8>) -> int {
    le_u32(table, 0) as int
}

/// Where record `i` begins.
pub open spec fn row_start(i: int) -> int {
    HEADER_LEN + ROW_LEN * i
}

/// Whether `table` holds its header and every record that the header announces.
pub open spec fn well_formed(table: Seq<u8>) -> bool {
    HEADER_LEN <= table.len() && row_start(entry_count(table)) <= table.len()
}

/// Record `i` of `table`. The field of the local port is 32 bits wide; the
/// port stands in its first two bytes, in network byte order, and the other
/// two are not read.
pub open spec fn row_at(table: Seq<u8>, i: int) -> TcpRow {
    TcpRow {
        local_port: be_u16(table, row_start(i) + LOCAL_PORT_AT),
        owning_pid: le_u32(table, row_start(i) + OWNING_PID_AT),
    }
}

/// The records of `table`, in the order of the table.
pub open spec fn rows_of(table: Seq<u8>) -> Seq<TcpRow> {
    Seq::new(entry_count(table) as nat, |i: int| row_at(table, i))
}

/// What decoding `table` gives: its records, or the complaint that the table
/// is shorter than it says.
pub open spec fn decoded(table: Seq<u8>) -> Result<Seq<TcpRow>, ServiceErrorView> {
    if table.len() < HEADER_LEN {
        Err(ServiceErrorView::TableMalformed { entries: 0, length: table.len() as u64 })
    } else if !well_formed(table) {
        Err(
            ServiceErrorView::TableMalformed {
                entries: le_u32(table, 0),
                length: table.len() as u64,
            },
        )
    } else {
        Ok(rows_of(table))
    }
}

/// Whether record `i` is the first of `rows` that says who owns `port`.
pub open spec fn is_first_owner(rows: Seq<TcpRow>, i: int, port: u16) -> bool {
    &&& 0 <= i < rows.len()
    &&& rows[i].owns(port)
    &&& forall|j: int| 0 <= j < i ==> !(#[trigger] rows[j]).owns(port)
}

/// The binding of `port` that `rows` hold: that of the first record that says
/// who owns the port, if there is one.
pub open spec fn owner_of(rows: Seq<TcpRow>, port: u16) -> Option<PortBinding> {
    if exists|i: int| is_first_owner(rows, i, port) {
        let first = choose|i: int| is_first_owner(rows, i, port);
        Some(PortBinding { pid: rows[first].owning_pid, port })
    } else {
        None
    }
}

/// What a search of `table` for `port` gives: the owner among its records, or
/// the complaint that the table is shorter than it says.
pub open spec fn searched(table: Seq<u8>, port: u16) -> Result<
    Option<PortBinding>,
    ServiceErrorView,
> {
    match decoded(table) {
        Ok(rows) => Ok(owner_of(rows, port)),
        Err(error) => Err(error),
    }
}

/// What `owner_of` gives, said without a choice: a binding of the port that was
/// asked for, with the process of the first record that says who owns the
/// port, which is never process zero; nothing only if no record says so.
pub proof fn lemma_owner_of(rows: Seq<TcpRow>, port: u16)
    ensures
        match owner_of(rows, port) {
            Some(binding) => {
                &&& binding.port == port
                &&& binding.pid != 0
                &&& port != 0 ==> binding.wf()
                &&& exists|i: int|
                    is_first_owner(rows, i, port) && binding.pid == rows[i].owning_pid
            },
            None => forall|i: int| 0 <= i < rows.len() ==> !(#[trigger] rows[i]).owns(port),
        },
{
    if exists|i: int| is_first_owner(rows, i, port) {
        let first = choose|i: int| is_first_owner(rows, i, port);
        assert(is_first_owner(rows, first, port));
    } else {
        assert forall|i: int| 0 <= i < rows.len() implies !(#[trigger] rows[i]).owns(port) by {
            if rows[i].owns(port) {
                lemma_some_first_owner(rows, i, port);
            }
        }
    }
}

/// Where a record says who owns the port, one record is the first to say so.
proof fn lemma_some_first_owner(rows: Seq<TcpRow>, i: int, port: u16)
    requires
        0 <= i < rows.len(),
        rows[i].owns(port),
    ensures
        exists|k: int| is_first_owner(rows, k, port),
    decreases i,
{
    if exists|j: int| 0 <= j < i && (#[trigger] rows[j]).owns(port) {
        let j = choose|j: int| 0 <= j < i && (#[trigger] rows[j]).owns(port);
        lemma_some_first_owner(rows, j, port);
    } else {
        assert(is_first_owner(rows, i, port));
    }
}

/// Reads the 32-bit number at `at`, least significant byte first.
fn read_le_u32(bytes: &[u8], at: usize) -> (value: u32)
    requires
        at + 4 <= bytes.len(),
    ensures
        value == le_u32(bytes@, at as int),
{
    let b0 = bytes[at] as u32;
    let b1 = bytes[at + 1] as u32;
    let b2 = bytes[at + 2] as u32;
    let b3 = bytes[at + 3] as u32;
    b0 + 256 * b1 + 65536 * b2 + 16777216 * b3
}

/// Reads the 16-bit number at `at`, most significant byte first.
fn read_be_u16(bytes: &[u8], at: usize) -> (value: u16)
    requires
        at + 2 <= bytes.len(),
    ensures
        value == be_u16(bytes@, at as int),
{
    let high = bytes[at] as u16;
    let low = bytes[at + 1] as u16;
    256 * high + low
}

/// Decodes a connection table, as the system filled it, into its records.
///
/// The length of the table is held against the number of records that its
/// header announces before any record is read: a table that is shorter than
/// it says is turned down.
pub fn decode_table(table: &[u8]) -> (r: Result<Vec<TcpRow>, ServiceError>)
    ensures
        match decoded(table@) {
            Ok(rows) => r is Ok && r->Ok_0@ == rows,
            Err(error) => r is Err && r->Err_0@ == error,
        },
{
    let length = table.len();
    if length < HEADER_LEN {
        return Err(ServiceError::TableMalformed { entries: 0, length: length as u64 });
    }
    let entries = read_le_u32(table, 0);
    if entries as u64 * ROW_LEN as u64 + HEADER_LEN as u64 > length as u64 {
        return Err(ServiceError::TableMalformed { entries, length: length as u64 });
    }
    let count = entries as usize;
    let mut rows: Vec<TcpRow> = Vec::new();
    let mut i: usize = 0;
    while i < count
        invariant
            0 <= i <= count,
            length == table@.len(),
            count == entry_count(table@),
            well_formed(table@),
            rows@.len() == i,
            forall|k: int| 0 <= k < i ==> rows@[k] == row_at(table@, k),
        decreases count - i,
    {
        let start = HEADER_LEN + ROW_LEN * i;
        let local_port = read_be_u16(table, start + LOCAL_PORT_AT);
        let owning_pid = read_le_u32(table, start + OWNING_PID_AT);
        rows.push(TcpRow { local_port, owning_pid });
        i += 1;
    }
    assert(rows@ =~= rows_of(table@));
    Ok(rows)
}

/// Finds the owner of `port` among `rows`: the records are read in their
/// order and the first that says who owns the port decides.
pub fn find_owner(rows: &[TcpRow], port: u16) -> (r: Option<PortBinding>)
    ensures
        r == owner_of(rows@, port),
{
    let mut i: usize = 0;
    while i < rows.len()
        invariant
            0 <= i <= rows@.len(),
            forall|j: int| 0 <= j < i ==> !(#[trigger] rows@[j]).owns(port),
        decreases rows@.len() - i,
    {
        let row = rows[i];
        if row.local_port == port && row.owning_pid != 0 {
            proof {
                assert(is_first_owner(rows@, i as int, port));
                let first = choose|k: int| is_first_owner(rows@, k, port);
                assert(first == i);
            }
            return Some(PortBinding { pid: row.owning_pid, port });
        }
        i += 1;
    }
    None
}

/// Searches a connection table, as the system filled it, for the owner of
/// `port`.
pub fn search_table(table: &[u8], port: u16) -> (r: Result<Option<PortBinding>, ServiceError>)
    ensures
        result_view(r) == searched(table@, port),
{
    match decode_table(table) {
        Ok(rows) => Ok(find_owner(rows.as_slice(), port)),
        Err(error) => Err(error),
    }
}

/// What the caller is to ask the system for.
#[derive(Debug, Clone, Copy, PartialEq, Eq, Structural)]
pub enum TableRequest {
    /// Ask for the table without a buffer, with a size of zero.
    Probe,
    /// Ask for the table with a zeroed buffer of exactly `size` bytes.
    Fill { size: u32 },
}

/// How far a lookup has come.
#[derive(Debug, Clone, Copy, PartialEq, Eq, Structural)]
pub enum TableLookup {
    /// The size of the table has been asked for.
    Probing { port: u16 },
    /// The table itself has been asked for, into a buffer of `size` bytes.
    Filling { port: u16, size: u32 },
}

/// What the system answered to a request for the table.
#[derive(Debug, PartialEq, Eq)]
pub struct TableReply {
    /// The code that the call returned.
    pub code: u32,
    /// The size in bytes that the call left behind.
    pub size: u32,
    /// The buffer after the call; empty where the call was made without one.
    pub buffer: Vec<u8>,
}

/// The mathematical value of a [`TableReply`].
pub struct TableReplyView {
    pub code: u32,
    pub size: u32,
    pub buffer: Seq<u8>,
}

impl View for TableReply {
    type V = TableReplyView;

    open spec fn view(&self) -> TableReplyView {
        TableReplyView { code: self.code, size: self.size, buffer: self.buffer@ }
    }
}

/// What follows an answer of the system.
#[derive(Debug, PartialEq, Eq)]
pub enum TableStep {
    /// The lookup goes on: make the request of this state and come back with
    /// the answer.
    Continue(TableLookup),
    /// The lookup is over.
    Finished(Result<Option<PortBinding>, ServiceError>),
}

/// The mathematical value of a [`TableStep`].
pub enum TableStepView {
    Continue(TableLookup),
    Finished(Result<Option<PortBinding>, ServiceErrorView>),
}

impl View for TableStep {
    type V = TableStepView;

    open spec fn view(&self) -> TableStepView {
        match *self {
            TableStep::Continue(lookup) => TableStepView::Continue(lookup),
            TableStep::Finished(result) => TableStepView::Finished(result_view(result)),
        }
    }
}

impl TableLookup {
    /// The port whose owner is looked up.
    pub open spec fn port(self) -> u16 {
        match self {
            TableLookup::Probing { port } => port,
            TableLookup::Filling { port, .. } => port,
        }
    }

    /// The request that this state waits on.
    pub open spec fn pending(self) -> TableRequest {
        match self {
            TableLookup::Probing { .. } => TableRequest::Probe,
            TableLookup::Filling { size, .. } => TableRequest::Fill { size },
        }
    }

    /// What follows when the system answers `reply` in this state.
    ///
    /// The probe must fail with the notice that the buffer is too small: any
    /// other code, success too, ends the lookup with a failure. The second
    /// call must succeed; then the table is searched.
    pub open spec fn after(self, reply: TableReplyView) -> TableStepView {
        match self {
            TableLookup::Probing { port } => if reply.code == ERROR_INSUFFICIENT_BUFFER {
                TableStepView::Continue(TableLookup::Filling { port, size: reply.size })
            } else {
                TableStepView::Finished(Err(ServiceErrorView::TableSize { code: reply.code }))
            },
            TableLookup::Filling { port, .. } => if reply.code == NO_ERROR {
                TableStepView::Finished(searched(reply.buffer, port))
            } else {
                TableStepView::Finished(Err(ServiceErrorView::TableFill { code: reply.code }))
            },
        }
    }

    /// Begins the lookup of the owner of `port`: the first thing to ask for is
    /// the size of the table.
    pub fn start(port: u16) -> (lookup: TableLookup)
        ensures
            lookup == (TableLookup::Probing { port }),
    {
        TableLookup::Probing { port }
    }

    /// The request to make in this state.
    pub fn request(&self) -> (request: TableRequest)
        ensures
            request == self.pending(),
    {
        match self {
            TableLookup::Probing { .. } => TableRequest::Probe,
            TableLookup::Filling { size, .. } => TableRequest::Fill { size: *size },
        }
    }
}

/// Takes the lookup one step on: `reply` is what the system answered to the
/// request of `lookup`.
///
/// A lookup that goes on is one for the same port, and a binding that is
/// handed out is one of that port with a process that is not process zero.
pub fn find_process_by_port(lookup: TableLookup, reply: &TableReply) -> (step: TableStep)
    ensures
        step@ == lookup.after(reply@),
        step matches TableStep::Continue(next) ==> next.port() == lookup.port(),
        step matches TableStep::Finished(Ok(Some(binding))) ==> binding.port == lookup.port()
            && binding.pid > 0,
{
    proof {
        lemma_owner_of(rows_of(reply@.buffer), lookup.port());
    }
    match lookup {
        TableLookup::Probing { port } => {
            if reply.code == ERROR_INSUFFICIENT_BUFFER {
                TableStep::Continue(TableLookup::Filling { port, size: reply.size })
            } else {
                TableStep::Finished(Err(ServiceError::TableSize { code: reply.code }))
            }
        },
        TableLookup::Filling { port, .. } => {
            if reply.code == NO_ERROR {
                TableStep::Finished(search_table(reply.buffer.as_slice(), port))
            } else {
                TableStep::Finished(Err(ServiceError::TableFill { code: reply.code }))
            }
        },
    }
}

/// How a lookup runs, whatever the system answers: it asks for the size
/// without a buffer; unless the answer is the notice that the buffer is too
/// small it ends with that code as a failure; otherwise it asks for the table
/// into a buffer of exactly the size that the first answer gave, and ends with
/// the failure where the code is not success and with the search of the buffer
/// where it is.
pub proof fn lemma_lookup_run(port: u16, probed: TableReplyView, filled: TableReplyView)
    ensures
        ({
            let start = TableLookup::Probing { port };
            &&& start.pending() == TableRequest::Probe
            &&& if probed.code == 122 {
                &&& start.after(probed) matches TableStepView::Continue(filling)
                &&& filling.pending() == (TableRequest::Fill { size: probed.size })
                &&& filling.after(filled) == TableStepView::Finished(
                    if filled.code == 0 {
                        searched(filled.buffer, port)
                    } else {
                        Err(ServiceErrorView::TableFill { code: filled.code })
                    },
                )
            } else {
                start.after(probed) == TableStepView::Finished(
                    Err(ServiceErrorView::TableSize { code: probed.code }),
                )
            }
        }),
{
}

/// A lookup of any port ends without a failure exactly where the probe gave the
/// notice that the buffer is too small, the second call gave success, and the
/// filled table holds every record that it announces.
pub proof fn lemma_lookup_succeeds(port: u16, probed: TableReplyView, filled: TableReplyView)
    ensures
        ({
            let fails = match (TableLookup::Probing { port }).after(probed) {
                TableStepView::Continue(filling) => filling.after(filled) matches TableStepView::Finished(
                    Err(_),
                ),
                TableStepView::Finished(result) => result is Err,
            };
            !fails <==> probed.code == ERROR_INSUFFICIENT_BUFFER && filled.code == NO_ERROR
                && well_formed(filled.buffer)
        }),
{
}

/// A binding that a lookup hands out is one of the port that was asked for,
/// with a process that is not process zero, taken from the first record of
/// the filled table that says who owns the port.
pub proof fn lemma_lookup_found(
    port: u16,
    probed: TableReplyView,
    filled: TableReplyView,
    binding: PortBinding,
)
    requires
        ({
            &&& (TableLookup::Probing { port }).after(probed) matches TableStepView::Continue(
                filling,
            )
            &&& filling.after(filled) == TableStepView::Finished(Ok(Some(binding)))
        }),
    ensures
        binding.port == port,
        binding.pid > 0,
        port != 0 ==> binding.wf(),
        well_formed(filled.buffer),
        (exists|i: int|
            is_first_owner(rows_of(filled.buffer), i, port) && binding.pid == row_at(
                filled.buffer,
                i,
            ).owning_pid),
{
    let rows = rows_of(filled.buffer);
    lemma_owner_of(rows, port);
    let i = choose|i: int| is_first_owner(rows, i, port) && binding.pid == rows[i].owning_pid;
    assert(rows[i] == row_at(filled.buffer, i));
}

/// A lookup ends without a binding and without a failure only where both
/// calls went as expected and no record of the filled table says who owns the
/// port.
pub proof fn lemma_lookup_not_found(port: u16, probed: TableReplyView, filled: TableReplyView)
    requires
        ({
            &&& (TableLookup::Probing { port }).after(probed) matches TableStepView::Continue(
                filling,
            )
            &&& filling.after(filled) == TableStepView::Finished(Ok(None))
        }),
    ensures
        probed.code == ERROR_INSUFFICIENT_BUFFER,
        filled.code == NO_ERROR,
        well_formed(filled.buffer),
        (forall|i: int|
            0 <= i < entry_count(filled.buffer) ==> !(#[trigger] row_at(filled.buffer, i)).owns(
                port,
            )),
{
    let rows = rows_of(filled.buffer);
    lemma_owner_of(rows, port);
    assert forall|i: int| 0 <= i < entry_count(filled.buffer) implies !(#[trigger] row_at(
        filled.buffer,
        i,
    )).owns(port) by {
        assert(rows[i] == row_at(filled.buffer, i));
    }
}

} // verus!
